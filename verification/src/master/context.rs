//! The state of the master's conversation: the queries that wait, the
//! queries in flight and the next transaction id.

use vstd::prelude::*;
use std::collections::HashMap;
use vstd::std_specs::iter::IteratorSpec;
use crate::codec::views;
use crate::codec::ModbusSerialize;
use crate::common::{ModbusAddress, ModbusResult, ModbusSubprotocol, ModbusTable};
use crate::error::ModbusError;
use crate::master::projection::{project, projection};
use crate::master::results::ModbusResultMap;
use crate::messages::query::tcp::query_frame;
use crate::messages::query::QueryModel;
use crate::messages::response::ResponseModel;
use crate::messages::{ModbusQuery, ModbusResponse};

verus! {

broadcast use vstd::std_specs::hash::group_hash_axioms;

/// The transaction id handed out `steps` allocations after `first`: ids
/// count upwards and start again at zero after `0xFFFF`.
pub open spec fn transaction_id_after(first: u16, steps: nat) -> u16 {
    ((first as int + steps as int) % 0x1_0000) as u16
}

/// The in-flight set after `count` queries were taken from the end of
/// `queue`, the last one first, each stamped with the next transaction id
/// from `first` on. Where an id comes round again, the later query replaces
/// the earlier one.
pub open spec fn loaded(queue: Seq<QueryModel>, first: u16, count: nat) -> Map<u16, QueryModel>
    decreases count,
{
    if count == 0 {
        Map::empty()
    } else {
        let taken = (count - 1) as nat;
        let transaction_id = transaction_id_after(first, taken);
        loaded(queue, first, taken).insert(
            transaction_id,
            queue[queue.len() - 1 - taken].with_transaction_id(Some(transaction_id)),
        )
    }
}

/// The frame of a query in a subprotocol. Only the TCP framing has one.
pub open spec fn query_frame_in(query: QueryModel, subprotocol: ModbusSubprotocol) -> Result<
    Seq<u8>,
    ModbusError,
> {
    match subprotocol {
        ModbusSubprotocol::ModbusTCP => query_frame(query),
        ModbusSubprotocol::ModbusRTU => Err(ModbusError::NotImplemented),
        ModbusSubprotocol::ModbusRTUOverTCP => Err(ModbusError::NotImplemented),
    }
}

/// The frames of the queries with the transaction ids of `order`, one after
/// the other.
pub open spec fn joined_frames(
    queries: Map<u16, QueryModel>,
    subprotocol: ModbusSubprotocol,
    order: Seq<u16>,
) -> Seq<u8>
    decreases order.len(),
{
    if order.len() == 0 {
        Seq::empty()
    } else {
        joined_frames(queries, subprotocol, order.drop_last()) + query_frame_in(
            queries[order.last()],
            subprotocol,
        )->Ok_0
    }
}

/// `order` names every query of `queries` once, and each of them has a frame.
pub open spec fn sending_order(
    queries: Map<u16, QueryModel>,
    subprotocol: ModbusSubprotocol,
    order: Seq<u16>,
) -> bool {
    &&& order.no_duplicates()
    &&& order.to_set() == queries.dom()
    &&& forall|i: int|
        0 <= i < order.len() ==> (#[trigger] query_frame_in(queries[order[i]], subprotocol)) is Ok
}

/// Where the master stands while it works through a list of responses.
pub struct Progress {
    /// The queries still waiting for their response, by transaction id.
    pub on_going: Map<u16, QueryModel>,
    /// The results gathered so far.
    pub results: Map<ModbusAddress, ModbusResult>,
    /// Whether a matched response carried a function code without a table.
    pub failed: bool,
}

/// One response applied to the state.
///
/// A response without a transaction id, or with one that no query in flight
/// has, changes nothing. A matched response whose function code belongs to
/// no table stops the processing. Any other matched response adds its
/// projection to the results and takes its query out of the in-flight set.
pub open spec fn apply_response(state: Progress, response: ResponseModel) -> Progress {
    let header = response.message_data();
    if state.failed {
        state
    } else if header.transaction_id is Some && state.on_going.contains_key(
        header.transaction_id->Some_0,
    ) {
        let transaction_id = header.transaction_id->Some_0;
        match ModbusTable::of_function_code(header.function_code) {
            Some(table) => Progress {
                on_going: state.on_going.remove(transaction_id),
                results: state.results.union_prefer_right(
                    projection(state.on_going[transaction_id], response, table),
                ),
                failed: false,
            },
            None => Progress { failed: true, ..state },
        }
    } else {
        state
    }
}

/// The responses applied to the state one after the other, first to last.
pub open spec fn apply_responses(state: Progress, responses: Seq<ResponseModel>) -> Progress
    decreases responses.len(),
{
    if responses.len() == 0 {
        state
    } else {
        apply_response(apply_responses(state, responses.drop_last()), responses.last())
    }
}

/// Holds the state of the ongoing Modbus communication.
pub struct ModbusContext {
    pub queued_queries: Vec<ModbusQuery>,
    pub on_going_queries: HashMap<u16, ModbusQuery>,
    pub current_transaction_id: u16,
}

impl ModbusContext {
    /// The queries that wait to be sent, oldest first.
    pub open spec fn queued(&self) -> Seq<QueryModel> {
        views(self.queued_queries@)
    }

    /// The queries in flight, by transaction id.
    pub open spec fn on_going(&self) -> Map<u16, QueryModel> {
        self.on_going_queries@.map_values(|query: ModbusQuery| query@)
    }

    /// The transaction id that the next query sent will get.
    pub open spec fn next_transaction_id(&self) -> u16 {
        self.current_transaction_id
    }

    /// A context with nothing queued, nothing in flight and 1 as the next
    /// transaction id.
    pub fn new() -> (context: Self)
        ensures
            context.queued() == Seq::<QueryModel>::empty(),
            context.on_going() == Map::<u16, QueryModel>::empty(),
            context.next_transaction_id() == 1,
    {
        let context = ModbusContext {
            current_transaction_id: 1,
            queued_queries: Vec::new(),
            on_going_queries: HashMap::new(),
        };
        assert(context.queued() =~= Seq::<QueryModel>::empty());
        assert(context.on_going() =~= Map::<u16, QueryModel>::empty());
        context
    }

    /// Hands out the next transaction id and moves the counter on.
    pub fn get_next_free_transaction_id(&mut self) -> (transaction_id: u16)
        ensures
            transaction_id == old(self).next_transaction_id(),
            final(self).next_transaction_id() == transaction_id_after(transaction_id, 1),
            final(self).queued_queries == old(self).queued_queries,
            final(self).on_going_queries == old(self).on_going_queries,
    {
        let result = self.current_transaction_id;
        self.current_transaction_id = if result == u16::MAX {
            0
        } else {
            result + 1
        };
        result
    }

    /// Starts a new batch: forgets the queries in flight, then moves up to
    /// `ammount` queries from the end of the queue into the in-flight set,
    /// each with a fresh transaction id.
    pub fn load_queued_queries(&mut self, ammount: u32)
        ensures
            ({
                let waiting = old(self).queued();
                let count = if (ammount as int) < waiting.len() {
                    ammount as nat
                } else {
                    waiting.len()
                };
                &&& final(self).queued() == waiting.take(waiting.len() - count)
                &&& final(self).on_going() == loaded(
                    waiting,
                    old(self).next_transaction_id(),
                    count,
                )
                &&& final(self).next_transaction_id() == transaction_id_after(
                    old(self).next_transaction_id(),
                    count,
                )
                &&& final(self).on_going().dom().finite()
                &&& final(self).on_going().dom().len() <= count
            }),
    {
        broadcast use vstd::set::group_set_axioms;

        self.on_going_queries.clear();
        let ghost waiting = self.queued();
        let ghost first = self.next_transaction_id();
        let mut count: u32 = 0;
        assert(self.on_going() =~= loaded(waiting, first, 0));
        assert(self.queued() =~= waiting.take(waiting.len() - 0));
        while count < ammount && self.queued_queries.len() > 0
            invariant
                count <= ammount,
                count <= waiting.len(),
                self.queued_queries@.len() == waiting.len() - count,
                self.queued() == waiting.take(waiting.len() - count),
                self.on_going() == loaded(waiting, first, count as nat),
                self.next_transaction_id() == transaction_id_after(first, count as nat),
                self.on_going_queries@.dom().finite(),
                self.on_going_queries@.dom().len() <= count,
            ensures
                count as int == if (ammount as int) < waiting.len() {
                    ammount as int
                } else {
                    waiting.len() as int
                },
            decreases self.queued_queries.len(),
        {
            let ghost before = self.on_going();
            let ghost rest = self.queued();
            assert(rest.len() == waiting.len() - count);
            let popped = self.queued_queries.pop();
            let transaction_id = self.get_next_free_transaction_id();
            match popped {
                Some(mut query) => {
                    assert(query@ == rest.last());
                    assert(rest.last() == waiting[waiting.len() - 1 - count]);
                    query.set_transaction_id(Some(transaction_id));
                    self.on_going_queries.insert(transaction_id, query);
                    assert(self.on_going() =~= before.insert(transaction_id, query@));
                },
                None => {},
            }
            count += 1;
            assert(self.queued() =~= waiting.take(waiting.len() - count));
        }
        assert(self.on_going().dom() =~= self.on_going_queries@.dom());
    }

    /// Encodes every query in flight into one buffer. The frames stand one
    /// after the other, each query once, in an order that is not fixed. Fails
    /// with the error of a query that has no frame, if there is one.
    pub fn serialize_queries(&self, subprotocol: ModbusSubprotocol) -> (bytes: Result<
        Vec<u8>,
        ModbusError,
    >)
        ensures
            match bytes {
                Ok(bytes) => exists|order: Seq<u16>| #[trigger]
                    sending_order(self.on_going(), subprotocol, order) && bytes@ == joined_frames(
                        self.on_going(),
                        subprotocol,
                        order,
                    ),
                Err(error) => exists|transaction_id: u16| #[trigger]
                    self.on_going().contains_key(transaction_id) && query_frame_in(
                        self.on_going()[transaction_id],
                        subprotocol,
                    ) == Err::<Seq<u8>, ModbusError>(error),
            },
    {
        let mut result: Vec<u8> = Vec::new();
        let ghost keys = vstd::std_specs::hash::spec_keys_iter(&self.on_going_queries).remaining();
        let ghost queries = self.on_going();
        assert(keys.unref().take(0) =~= Seq::<u16>::empty());
        for transaction_id in it: self.on_going_queries.keys()
            invariant
                it.seq() == keys,
                keys.no_duplicates(),
                keys.unref().to_set() == self.on_going_queries@.dom(),
                queries == self.on_going(),
                result@ == joined_frames(queries, subprotocol, keys.unref().take(it.index())),
                forall|i: int|
                    0 <= i < it.index() ==> (#[trigger] query_frame_in(
                        queries[keys.unref()[i]],
                        subprotocol,
                    )) is Ok,
        {
            let ghost sent = keys.unref().take(it.index());
            let ghost next = keys.unref().take(it.index() + 1);
            assert(keys.unref()[it.index()] == *transaction_id);
            assert(self.on_going_queries@.dom().contains(*transaction_id));
            assert(next.drop_last() =~= sent);
            assert(next.last() == *transaction_id);
            match self.on_going_queries.get(transaction_id) {
                Some(query) => {
                    match query.serialize(subprotocol) {
                        Ok(mut frame) => {
                            result.append(&mut frame);
                        },
                        Err(error) => {
                            assert(queries.contains_key(*transaction_id));
                            return Err(error);
                        },
                    }
                },
                None => {},
            }
        }
        proof {
            let order = keys.unref();
            assert(order.take(order.len() as int) =~= order);
            assert(order.no_duplicates()) by {
                assert forall|i: int, j: int|
                    0 <= i < order.len() && 0 <= j < order.len() && i != j implies order[i]
                    != order[j] by {
                    assert(keys[i] != keys[j]);
                }
            }
            assert(order.to_set() =~= queries.dom());
            assert(sending_order(queries, subprotocol, order));
        }
        Ok(result)
    }

    /// Applies one response, as `apply_response` says.
    fn process_modbus_response(
        &mut self,
        response: &ModbusResponse,
        address_map: &mut ModbusResultMap,
    ) -> (outcome: Result<(), ModbusError>)
        requires
            old(address_map).well_formed(),
        ensures
            final(address_map).well_formed(),
            final(self).queued_queries == old(self).queued_queries,
            final(self).next_transaction_id() == old(self).next_transaction_id(),
            ({
                let end = apply_response(
                    Progress {
                        on_going: old(self).on_going(),
                        results: old(address_map)@,
                        failed: false,
                    },
                    response@,
                );
                &&& final(self).on_going() == end.on_going
                &&& final(address_map)@ == end.results
                &&& outcome is Err <==> end.failed
                &&& outcome is Err ==> outcome == Err::<(), ModbusError>(
                    ModbusError::NoTableForFunctionCode,
                )
            }),
    {
        let header = *response.get_message_data();
        if let Some(transaction_id) = header.transaction_id {
            let ghost before = self.on_going();
            match self.on_going_queries.get(&transaction_id) {
                Some(query) => {
                    let table = match ModbusTable::get_table_from_function_code(
                        header.function_code,
                    ) {
                        Some(table) => table,
                        None => {
                            return Err(ModbusError::NoTableForFunctionCode);
                        },
                    };
                    project(query, response, table, address_map);
                    self.on_going_queries.remove(&transaction_id);
                    assert(self.on_going() =~= before.remove(transaction_id));
                },
                None => {},
            }
        }
        Ok(())
    }

    /// Matches each response to the query in flight with its transaction
    /// id, records what it says in `address_map` and takes the query out of
    /// the in-flight set. Responses that match no query are passed over.
    /// Stops with an error at the first matched response whose function code
    /// belongs to no table; what came before it stays applied.
    pub fn process_modbus_responses(
        &mut self,
        responses: Vec<ModbusResponse>,
        address_map: &mut ModbusResultMap,
    ) -> (outcome: Result<(), ModbusError>)
        requires
            old(address_map).well_formed(),
        ensures
            final(address_map).well_formed(),
            final(self).queued_queries == old(self).queued_queries,
            final(self).next_transaction_id() == old(self).next_transaction_id(),
            ({
                let end = apply_responses(
                    Progress {
                        on_going: old(self).on_going(),
                        results: old(address_map)@,
                        failed: false,
                    },
                    views(responses@),
                );
                &&& final(self).on_going() == end.on_going
                &&& final(address_map)@ == end.results
                &&& outcome is Err <==> end.failed
                &&& outcome is Err ==> outcome == Err::<(), ModbusError>(
                    ModbusError::NoTableForFunctionCode,
                )
            }),
    {
        let ghost start = Progress {
            on_going: self.on_going(),
            results: address_map@,
            failed: false,
        };
        let ghost models = views(responses@);
        let mut index: usize = 0;
        assert(models.take(0) =~= Seq::<ResponseModel>::empty());
        while index < responses.len()
            invariant
                index <= responses.len(),
                models == views(responses@),
                start == (Progress {
                    on_going: old(self).on_going(),
                    results: old(address_map)@,
                    failed: false,
                }),
                address_map.well_formed(),
                self.queued_queries == old(self).queued_queries,
                self.next_transaction_id() == old(self).next_transaction_id(),
                apply_responses(start, models.take(index as int)) == (Progress {
                    on_going: self.on_going(),
                    results: address_map@,
                    failed: false,
                }),
            decreases responses.len() - index,
        {
            let ghost seen = models.take(index as int + 1);
            let ghost prior = apply_responses(start, models.take(index as int));
            assert(seen.drop_last() =~= models.take(index as int));
            assert(seen.last() == responses@[index as int]@);
            assert(apply_responses(start, seen) == apply_response(prior, seen.last()));
            let outcome = self.process_modbus_response(&responses[index], address_map);
            if outcome.is_err() {
                proof {
                    lemma_failure_is_final(apply_responses(start, seen), models, index as int + 1);
                    lemma_apply_responses_split(start, models, index as int + 1);
                }
                return outcome;
            }
            index += 1;
        }
        assert(models.take(index as int) =~= models);
        Ok(())
    }

    /// Whether any query is in flight.
    pub fn has_on_going_queries(&self) -> (busy: bool)
        ensures
            busy == !(self.on_going() =~= Map::<u16, QueryModel>::empty()),
    {
        proof {
            if self.on_going_queries@.is_empty() {
                assert(self.on_going() =~= Map::<u16, QueryModel>::empty());
            } else {
                let transaction_id = choose|transaction_id: u16|
                    self.on_going_queries@.dom().contains(transaction_id);
                assert(self.on_going().contains_key(transaction_id));
            }
        }
        !self.on_going_queries.is_empty()
    }
}

/// Where one query of a batch is answered and nothing was learnt before,
/// the results are what the answer says about that query, no more and no
/// less, and the other queries stay in flight.
pub proof fn lemma_single_answer(
    on_going: Map<u16, QueryModel>,
    response: ResponseModel,
    transaction_id: u16,
    table: ModbusTable,
)
    requires
        response.message_data().transaction_id == Some(transaction_id),
        on_going.contains_key(transaction_id),
        ModbusTable::of_function_code(response.message_data().function_code) == Some(table),
    ensures
        apply_responses(
            Progress { on_going, results: Map::empty(), failed: false },
            seq![response],
        ) == (Progress {
            on_going: on_going.remove(transaction_id),
            results: projection(on_going[transaction_id], response, table),
            failed: false,
        }),
{
    let start = Progress { on_going, results: Map::empty(), failed: false };
    let responses = seq![response];
    assert(responses.drop_last() =~= Seq::<ResponseModel>::empty());
    assert(apply_responses(start, responses.drop_last()) == start);
    assert(responses.last() == response);
    assert(Map::<ModbusAddress, ModbusResult>::empty().union_prefer_right(
        projection(on_going[transaction_id], response, table),
    ) =~= projection(on_going[transaction_id], response, table));
}

/// Responses only ever take queries out of flight: whatever is in flight
/// after a list of responses was in flight before it, unchanged. So a batch
/// never has more transaction ids in flight than it was loaded with.
pub proof fn lemma_responses_only_answer(state: Progress, responses: Seq<ResponseModel>)
    ensures
        apply_responses(state, responses).on_going.submap_of(state.on_going),
    decreases responses.len(),
{
    if responses.len() > 0 {
        lemma_responses_only_answer(state, responses.drop_last());
        let before = apply_responses(state, responses.drop_last());
        assert(apply_response(before, responses.last()).on_going.submap_of(before.on_going));
    }
}

/// Applying `responses` is applying its first `cut` responses and then the
/// rest.
pub proof fn lemma_apply_responses_split(state: Progress, responses: Seq<ResponseModel>, cut: int)
    requires
        0 <= cut <= responses.len(),
    ensures
        apply_responses(state, responses) == apply_responses(
            apply_responses(state, responses.take(cut)),
            responses.skip(cut),
        ),
    decreases responses.len() - cut,
{
    if cut == responses.len() {
        assert(responses.take(cut) =~= responses);
        assert(responses.skip(cut) =~= Seq::<ResponseModel>::empty());
    } else {
        let shorter = responses.drop_last();
        lemma_apply_responses_split(state, shorter, cut);
        assert(shorter.take(cut) =~= responses.take(cut));
        assert(shorter.skip(cut) =~= responses.skip(cut).drop_last());
        assert(responses.skip(cut).last() == responses.last());
    }
}

/// Once the processing has stopped, further responses change nothing.
pub proof fn lemma_failure_is_final(state: Progress, responses: Seq<ResponseModel>, cut: int)
    requires
        0 <= cut <= responses.len(),
        state.failed,
    ensures
        apply_responses(state, responses.skip(cut)) == state,
    decreases responses.len() - cut,
{
    let rest = responses.skip(cut);
    if rest.len() > 0 {
        assert(rest.drop_last() =~= responses.drop_last().skip(cut));
        lemma_failure_is_final(state, responses.drop_last(), cut);
    }
}

} // verus!
