//! The master's transaction engine: a queue of queries, batches of queries
//! in flight, and the map of results that the responses fill.
//!
//! The engine does no input or output. Its caller sends the bytes of each
//! batch and hands back whatever bytes arrive, until the engine reports that
//! nothing is in flight or the caller's deadline ends the batch.

use vstd::prelude::*;
use crate::codec::ModbusSerialize;
use crate::common::{ModbusDataType, ModbusSubprotocol, ModbusTable};
use crate::error::ModbusError;
use crate::messages::query::{
    MultipleReadWriteQueryParameters,
    MultipleWriteQueryParameters,
    QueryModel,
    ReadQueryParameters,
    SingleWriteQueryParameters,
};
use crate::messages::response::tcp::parse_responses;
use crate::messages::response::ResponseModel;
use crate::messages::{FunctionCode, ModbusMessageData, ModbusQuery, ModbusResponse};

pub mod context;
pub mod projection;
pub mod results;

pub use context::ModbusContext;
pub use results::ModbusResultMap;

use context::{
    apply_responses,
    loaded,
    query_frame_in,
    joined_frames,
    sending_order,
    transaction_id_after,
    Progress,
};

verus! {

/// The header data of a query that has not been sent yet.
pub open spec fn unsent(slave_id: u8, function_code: FunctionCode) -> ModbusMessageData {
    ModbusMessageData { slave_id, function_code, transaction_id: None }
}

/// The coils with the given states.
pub open spec fn coils(states: Seq<bool>) -> Seq<ModbusDataType> {
    Seq::new(states.len(), |i: int| ModbusDataType::Coil(states[i]))
}

/// The registers with the given words.
pub open spec fn registers(words: Seq<u16>) -> Seq<ModbusDataType> {
    Seq::new(words.len(), |i: int| ModbusDataType::Register(words[i]))
}

/// The responses that a buffer decodes to in a subprotocol. Only the TCP
/// framing can be read.
pub open spec fn responses_in(bytes: Seq<u8>, subprotocol: ModbusSubprotocol) -> Result<
    Seq<ResponseModel>,
    ModbusError,
> {
    match subprotocol {
        ModbusSubprotocol::ModbusTCP => parse_responses(bytes),
        ModbusSubprotocol::ModbusRTU => Err(ModbusError::NotImplemented),
        ModbusSubprotocol::ModbusRTUOverTCP => Err(ModbusError::NotImplemented),
    }
}

/// How many batches it takes to send `queued` queries, at most `limit` at
/// a time. With a limit of zero nothing is ever sent.
pub open spec fn batches_needed(queued: nat, limit: nat) -> nat
    decreases queued,
{
    if queued == 0 || limit == 0 {
        0
    } else if queued <= limit {
        1
    } else {
        1 + batches_needed((queued - limit) as nat, limit)
    }
}

/// The queue is sent in as few batches as the limit allows: the number of
/// queries divided by the limit, rounded up.
pub proof fn lemma_batches_needed(queued: nat, limit: nat)
    requires
        limit > 0,
    ensures
        batches_needed(queued, limit) == (queued + limit - 1) / limit as int,
    decreases queued,
{
    if queued == 0 {
        assert((limit - 1) / limit as int == 0) by (nonlinear_arith)
            requires
                limit > 0,
        ;
    } else if queued <= limit {
        assert((queued + limit - 1) / limit as int == 1) by (nonlinear_arith)
            requires
                0 < queued <= limit,
        ;
    } else {
        lemma_batches_needed((queued - limit) as nat, limit);
        assert((queued + limit - 1) / limit as int == 1 + (queued - limit + limit - 1)
            / limit as int) by (nonlinear_arith)
            requires
                limit > 0,
                queued > limit,
        ;
    }
}

/// How the master paces its work: how long it waits for the answers to one
/// batch, in milliseconds, and how many queries one batch may hold.
#[derive(Clone, Copy, Debug, PartialEq, Eq)]
pub struct ModbusMasterConnectionParams {
    pub max_response_time_ms: u64,
    pub max_simultaneous_transactions: u32,
}

impl Default for ModbusMasterConnectionParams {
    /// Five seconds for every batch, and one query at a time.
    fn default() -> (params: Self)
        ensures
            params.max_response_time_ms == 5000,
            params.max_simultaneous_transactions == 1,
    {
        ModbusMasterConnectionParams { max_response_time_ms: 5000, max_simultaneous_transactions: 1 }
    }
}

/// What can happen while the master listens for the answers to a batch.
#[derive(Clone, Debug, PartialEq, Eq)]
pub enum MasterEvent {
    /// Bytes arrived on the connection.
    Received(Vec<u8>),
    /// Reading from the connection failed.
    ReadFailed,
    /// The time for the batch is up.
    TimedOut,
}

/// A master's side of a Modbus conversation.
pub struct ModbusMasterConnection {
    pub context: ModbusContext,
    pub subprotocol: ModbusSubprotocol,
}

impl ModbusMasterConnection {
    /// A master that speaks the TCP framing, with nothing queued or in
    /// flight.
    pub fn new_tcp() -> (connection: Self)
        ensures
            connection.subprotocol == ModbusSubprotocol::ModbusTCP,
            connection.context.queued() == Seq::<QueryModel>::empty(),
            connection.context.on_going() == Map::<u16, QueryModel>::empty(),
            connection.context.next_transaction_id() == 1,
    {
        let context = ModbusContext::new();
        ModbusMasterConnection { context, subprotocol: ModbusSubprotocol::ModbusTCP }
    }

    /// Whether the call left everything but the queue as it was and put
    /// `query` at the end of the queue.
    pub open spec fn enqueued(before: Self, after: Self, query: QueryModel) -> bool {
        &&& after.context.queued() == before.context.queued().push(query)
        &&& after.context.on_going_queries == before.context.on_going_queries
        &&& after.context.next_transaction_id() == before.context.next_transaction_id()
        &&& after.subprotocol == before.subprotocol
    }

    /// Puts `query` at the end of the queue.
    fn enqueue(&mut self, query: ModbusQuery)
        ensures
            Self::enqueued(*old(self), *final(self), query@),
    {
        self.context.queued_queries.push(query);
        assert(self.context.queued() =~= old(self).context.queued().push(query@));
    }

    /// Queues a read of `ammount` values from `address` on. Fails, and
    /// queues nothing, where the function code belongs to no table.
    pub fn add_read_query(
        &mut self,
        slave_id: u8,
        address: u16,
        ammount: u16,
        function_code: FunctionCode,
    ) -> (outcome: Result<(), ModbusError>)
        ensures
            match ModbusTable::of_function_code(function_code) {
                Some(table) => outcome is Ok && Self::enqueued(
                    *old(self),
                    *final(self),
                    QueryModel::Read {
                        message_data: unsent(slave_id, function_code),
                        table,
                        starting_address: address,
                        ammount,
                    },
                ),
                None => outcome == Err::<(), ModbusError>(ModbusError::NoTableForFunctionCode)
                    && *final(self) == *old(self),
            },
    {
        let message_data = ModbusMessageData { slave_id, function_code, transaction_id: None };
        let table = match ModbusTable::get_table_from_function_code(function_code) {
            Some(table) => table,
            None => {
                return Err(ModbusError::NoTableForFunctionCode);
            },
        };
        let params = ReadQueryParameters { starting_address: address, ammount, table };
        self.enqueue(ModbusQuery::ReadQuery { message_data, params });
        Ok(())
    }

    /// Queues a write of one value at `address`. Fails, and queues nothing,
    /// where the function code belongs to no table.
    pub fn add_single_write_query(
        &mut self,
        slave_id: u8,
        address: u16,
        value: ModbusDataType,
        function_code: FunctionCode,
    ) -> (outcome: Result<(), ModbusError>)
        ensures
            match ModbusTable::of_function_code(function_code) {
                Some(table) => outcome is Ok && Self::enqueued(
                    *old(self),
                    *final(self),
                    QueryModel::SingleWrite {
                        message_data: unsent(slave_id, function_code),
                        table,
                        starting_address: address,
                        value,
                    },
                ),
                None => outcome == Err::<(), ModbusError>(ModbusError::NoTableForFunctionCode)
                    && *final(self) == *old(self),
            },
    {
        let message_data = ModbusMessageData { slave_id, function_code, transaction_id: None };
        let table = match ModbusTable::get_table_from_function_code(function_code) {
            Some(table) => table,
            None => {
                return Err(ModbusError::NoTableForFunctionCode);
            },
        };
        let params = SingleWriteQueryParameters { starting_address: address, table, value };
        self.enqueue(ModbusQuery::SingleWriteQuery { message_data, params });
        Ok(())
    }

    /// Queues a write of `values` from `address` on. Fails, and queues
    /// nothing, where the function code belongs to no table.
    pub fn add_multiple_write_query(
        &mut self,
        slave_id: u8,
        address: u16,
        values: Vec<ModbusDataType>,
        function_code: FunctionCode,
    ) -> (outcome: Result<(), ModbusError>)
        ensures
            match ModbusTable::of_function_code(function_code) {
                Some(table) => outcome is Ok && Self::enqueued(
                    *old(self),
                    *final(self),
                    QueryModel::MultipleWrite {
                        message_data: unsent(slave_id, function_code),
                        table,
                        starting_address: address,
                        values: values@,
                    },
                ),
                None => outcome == Err::<(), ModbusError>(ModbusError::NoTableForFunctionCode)
                    && *final(self) == *old(self),
            },
    {
        let message_data = ModbusMessageData { slave_id, function_code, transaction_id: None };
        let table = match ModbusTable::get_table_from_function_code(function_code) {
            Some(table) => table,
            None => {
                return Err(ModbusError::NoTableForFunctionCode);
            },
        };
        let params = MultipleWriteQueryParameters { table, starting_address: address, values };
        self.enqueue(ModbusQuery::MultipleWriteQuery { message_data, params });
        Ok(())
    }

    /// Queues a write of `values` from `write_starting_address` on, followed
    /// by a read of `read_ammount` values from `read_starting_address` on.
    /// Fails, and queues nothing, where the function code belongs to no
    /// table.
    pub fn add_multiple_read_write_query(
        &mut self,
        slave_id: u8,
        read_starting_address: u16,
        read_ammount: u16,
        write_starting_address: u16,
        values: Vec<ModbusDataType>,
        function_code: FunctionCode,
    ) -> (outcome: Result<(), ModbusError>)
        ensures
            match ModbusTable::of_function_code(function_code) {
                Some(table) => outcome is Ok && Self::enqueued(
                    *old(self),
                    *final(self),
                    QueryModel::MultipleReadWrite {
                        message_data: unsent(slave_id, function_code),
                        table,
                        read_starting_address,
                        read_ammount,
                        write_starting_address,
                        values: values@,
                    },
                ),
                None => outcome == Err::<(), ModbusError>(ModbusError::NoTableForFunctionCode)
                    && *final(self) == *old(self),
            },
    {
        let message_data = ModbusMessageData { function_code, slave_id, transaction_id: None };
        let table = match ModbusTable::get_table_from_function_code(function_code) {
            Some(table) => table,
            None => {
                return Err(ModbusError::NoTableForFunctionCode);
            },
        };
        let params = MultipleReadWriteQueryParameters {
            table,
            read_starting_address,
            read_ammount,
            write_starting_address,
            values,
        };
        self.enqueue(ModbusQuery::MultipleReadWriteQuery { message_data, params });
        Ok(())
    }

    /// Queues a write of holding registers followed by a read of holding
    /// registers.
    pub fn add_multiple_read_write_holding_registers_query(
        &mut self,
        slave_id: u8,
        read_starting_address: u16,
        read_ammount: u16,
        write_starting_address: u16,
        values: Vec<u16>,
    ) -> (outcome: Result<(), ModbusError>)
        ensures
            outcome is Ok,
            Self::enqueued(
                *old(self),
                *final(self),
                QueryModel::MultipleReadWrite {
                    message_data: unsent(slave_id, FunctionCode::ReadWriteMultipleRegisters),
                    table: ModbusTable::HoldingRegisters,
                    read_starting_address,
                    read_ammount,
                    write_starting_address,
                    values: registers(values@),
                },
            ),
    {
        let modbus_values = registers_from(&values);
        self.add_multiple_read_write_query(
            slave_id,
            read_starting_address,
            read_ammount,
            write_starting_address,
            modbus_values,
            FunctionCode::ReadWriteMultipleRegisters,
        )
    }

    /// Queues a write of several coils.
    pub fn add_write_multiple_coils_query(&mut self, slave_id: u8, address: u16, values: Vec<bool>) -> (
        outcome: Result<(), ModbusError>
    )
        ensures
            outcome is Ok,
            Self::enqueued(
                *old(self),
                *final(self),
                QueryModel::MultipleWrite {
                    message_data: unsent(slave_id, FunctionCode::WriteMultipleCoils),
                    table: ModbusTable::Coils,
                    starting_address: address,
                    values: coils(values@),
                },
            ),
    {
        let modbus_values = coils_from(&values);
        self.add_multiple_write_query(
            slave_id,
            address,
            modbus_values,
            FunctionCode::WriteMultipleCoils,
        )
    }

    /// Queues a write of several holding registers.
    pub fn add_write_multiple_holding_registers_query(
        &mut self,
        slave_id: u8,
        address: u16,
        values: Vec<u16>,
    ) -> (outcome: Result<(), ModbusError>)
        ensures
            outcome is Ok,
            Self::enqueued(
                *old(self),
                *final(self),
                QueryModel::MultipleWrite {
                    message_data: unsent(slave_id, FunctionCode::WriteMultipleHoldingRegisters),
                    table: ModbusTable::HoldingRegisters,
                    starting_address: address,
                    values: registers(values@),
                },
            ),
    {
        let modbus_values = registers_from(&values);
        self.add_multiple_write_query(
            slave_id,
            address,
            modbus_values,
            FunctionCode::WriteMultipleHoldingRegisters,
        )
    }

    /// Queues a write of one coil.
    pub fn add_write_coil_query(&mut self, slave_id: u8, address: u16, value: bool) -> (outcome:
        Result<(), ModbusError>)
        ensures
            outcome is Ok,
            Self::enqueued(
                *old(self),
                *final(self),
                QueryModel::SingleWrite {
                    message_data: unsent(slave_id, FunctionCode::WriteSingleCoil),
                    table: ModbusTable::Coils,
                    starting_address: address,
                    value: ModbusDataType::Coil(value),
                },
            ),
    {
        self.add_single_write_query(
            slave_id,
            address,
            ModbusDataType::Coil(value),
            FunctionCode::WriteSingleCoil,
        )
    }

    /// Queues a write of one holding register.
    pub fn add_write_holding_register_query(&mut self, slave_id: u8, address: u16, value: u16) -> (
        outcome: Result<(), ModbusError>
    )
        ensures
            outcome is Ok,
            Self::enqueued(
                *old(self),
                *final(self),
                QueryModel::SingleWrite {
                    message_data: unsent(slave_id, FunctionCode::WriteSingleHoldingRegister),
                    table: ModbusTable::HoldingRegisters,
                    starting_address: address,
                    value: ModbusDataType::Register(value),
                },
            ),
    {
        self.add_single_write_query(
            slave_id,
            address,
            ModbusDataType::Register(value),
            FunctionCode::WriteSingleHoldingRegister,
        )
    }

    /// Queues a read of coils.
    pub fn add_read_coils_query(&mut self, slave_id: u8, address: u16, ammount: u16) -> (outcome:
        Result<(), ModbusError>)
        ensures
            outcome is Ok,
            Self::enqueued(
                *old(self),
                *final(self),
                QueryModel::Read {
                    message_data: unsent(slave_id, FunctionCode::ReadCoils),
                    table: ModbusTable::Coils,
                    starting_address: address,
                    ammount,
                },
            ),
    {
        self.add_read_query(slave_id, address, ammount, FunctionCode::ReadCoils)
    }

    /// Queues a read of holding registers.
    pub fn add_read_holding_registers_query(&mut self, slave_id: u8, address: u16, ammount: u16) -> (
        outcome: Result<(), ModbusError>
    )
        ensures
            outcome is Ok,
            Self::enqueued(
                *old(self),
                *final(self),
                QueryModel::Read {
                    message_data: unsent(slave_id, FunctionCode::ReadMultipleHoldingRegister),
                    table: ModbusTable::HoldingRegisters,
                    starting_address: address,
                    ammount,
                },
            ),
    {
        self.add_read_query(slave_id, address, ammount, FunctionCode::ReadMultipleHoldingRegister)
    }

    /// Queues a read of discrete inputs.
    pub fn add_read_discrete_inputs_query(&mut self, slave_id: u8, address: u16, ammount: u16) -> (
        outcome: Result<(), ModbusError>
    )
        ensures
            outcome is Ok,
            Self::enqueued(
                *old(self),
                *final(self),
                QueryModel::Read {
                    message_data: unsent(slave_id, FunctionCode::ReadDiscreteInputs),
                    table: ModbusTable::DiscreteInput,
                    starting_address: address,
                    ammount,
                },
            ),
    {
        self.add_read_query(slave_id, address, ammount, FunctionCode::ReadDiscreteInputs)
    }

    /// Queues a read of input registers.
    pub fn add_read_input_registers_query(&mut self, slave_id: u8, address: u16, ammount: u16) -> (
        outcome: Result<(), ModbusError>
    )
        ensures
            outcome is Ok,
            Self::enqueued(
                *old(self),
                *final(self),
                QueryModel::Read {
                    message_data: unsent(slave_id, FunctionCode::ReadInputRegisters),
                    table: ModbusTable::InputRegisters,
                    starting_address: address,
                    ammount,
                },
            ),
    {
        self.add_read_query(slave_id, address, ammount, FunctionCode::ReadInputRegisters)
    }

    /// How many queries the next batch takes from a queue of `waiting`
    /// queries under a limit: all of them, or as many as the limit allows.
    pub open spec fn batch_size(waiting: nat, limit: u32) -> nat {
        if (limit as nat) < waiting {
            limit as nat
        } else {
            waiting
        }
    }

    /// Starts the next batch, if queries are waiting, and returns the bytes
    /// to send for it.
    ///
    /// With an empty queue there is no batch and nothing changes. Otherwise
    /// the queries that were in flight are forgotten, up to
    /// `max_simultaneous_transactions` queries move from the end of the
    /// queue into flight, each with a fresh transaction id, and their frames
    /// are joined into one buffer in an order that is not fixed. Where one of
    /// them has no frame, its error is returned; the batch stays loaded.
    pub fn next_batch(&mut self, max_simultaneous_transactions: u32) -> (batch: Result<
        Option<Vec<u8>>,
        ModbusError,
    >)
        ensures
            final(self).subprotocol == old(self).subprotocol,
            old(self).context.queued().len() == 0 ==> batch == Ok::<
                Option<Vec<u8>>,
                ModbusError,
            >(None) && *final(self) == *old(self),
            old(self).context.queued().len() > 0 ==> ({
                let waiting = old(self).context.queued();
                let count = Self::batch_size(waiting.len(), max_simultaneous_transactions);
                let queries = final(self).context.on_going();
                &&& final(self).context.queued() == waiting.take(waiting.len() - count)
                &&& queries == loaded(waiting, old(self).context.next_transaction_id(), count)
                &&& final(self).context.next_transaction_id() == transaction_id_after(
                    old(self).context.next_transaction_id(),
                    count,
                )
                &&& queries.dom().finite()
                &&& queries.dom().len() <= max_simultaneous_transactions
                &&& match batch {
                    Ok(Some(bytes)) => exists|order: Seq<u16>| #[trigger]
                        sending_order(queries, final(self).subprotocol, order) && bytes@
                            == joined_frames(queries, final(self).subprotocol, order),
                    Ok(None) => false,
                    Err(error) => exists|transaction_id: u16| #[trigger]
                        queries.contains_key(transaction_id) && query_frame_in(
                            queries[transaction_id],
                            final(self).subprotocol,
                        ) == Err::<Seq<u8>, ModbusError>(error),
                }
            }),
    {
        if self.context.queued_queries.len() == 0 {
            return Ok(None);
        }
        self.context.load_queued_queries(max_simultaneous_transactions);
        match self.context.serialize_queries(self.subprotocol) {
            Ok(bytes) => Ok(Some(bytes)),
            Err(error) => Err(error),
        }
    }

    /// Takes in bytes that arrived for the batch in flight. The responses
    /// in them are matched to their queries and recorded in `results`.
    /// Returns whether queries are still in flight, that is, whether the
    /// caller should go on listening.
    ///
    /// Fails, and changes nothing, where the bytes cannot be decoded. Fails
    /// at the first matched response whose function code belongs to no
    /// table; what came before it stays applied.
    pub fn receive(&mut self, bytes: Vec<u8>, results: &mut ModbusResultMap) -> (listening: Result<
        bool,
        ModbusError,
    >)
        requires
            old(results).well_formed(),
        ensures
            final(results).well_formed(),
            final(self).subprotocol == old(self).subprotocol,
            final(self).context.queued_queries == old(self).context.queued_queries,
            final(self).context.next_transaction_id() == old(self).context.next_transaction_id(),
            match responses_in(bytes@, old(self).subprotocol) {
                Err(error) => {
                    &&& listening == Err::<bool, ModbusError>(error)
                    &&& final(self).context.on_going() == old(self).context.on_going()
                    &&& final(results)@ == old(results)@
                },
                Ok(responses) => ({
                    let end = apply_responses(
                        Progress {
                            on_going: old(self).context.on_going(),
                            results: old(results)@,
                            failed: false,
                        },
                        responses,
                    );
                    &&& final(self).context.on_going() == end.on_going
                    &&& final(results)@ == end.results
                    &&& listening == if end.failed {
                        Err::<bool, ModbusError>(ModbusError::NoTableForFunctionCode)
                    } else {
                        Ok::<bool, ModbusError>(
                            !(end.on_going =~= Map::<u16, QueryModel>::empty()),
                        )
                    }
                }),
            },
    {
        let responses = match ModbusResponse::deserialize(bytes, self.subprotocol) {
            Ok(responses) => responses,
            Err(error) => {
                return Err(error);
            },
        };
        match self.context.process_modbus_responses(responses, results) {
            Ok(_) => {},
            Err(error) => {
                return Err(error);
            },
        }
        Ok(self.context.has_on_going_queries())
    }

    /// Takes in what happened while the master listened for the answers to
    /// the batch in flight, and returns whether it should go on listening.
    ///
    /// Bytes are handed to `receive`. A failed read and the end of the
    /// batch's time both end the listening and change nothing: the queries
    /// that are still in flight stay unanswered and leave no results.
    pub fn handle_event(&mut self, event: MasterEvent, results: &mut ModbusResultMap) -> (listening:
        Result<bool, ModbusError>)
        requires
            old(results).well_formed(),
        ensures
            final(results).well_formed(),
            final(self).subprotocol == old(self).subprotocol,
            final(self).context.queued_queries == old(self).context.queued_queries,
            final(self).context.next_transaction_id() == old(self).context.next_transaction_id(),
            match event {
                MasterEvent::Received(bytes) => match responses_in(bytes@, old(self).subprotocol) {
                    Err(error) => {
                        &&& listening == Err::<bool, ModbusError>(error)
                        &&& final(self).context.on_going() == old(self).context.on_going()
                        &&& final(results)@ == old(results)@
                    },
                    Ok(responses) => ({
                        let end = apply_responses(
                            Progress {
                                on_going: old(self).context.on_going(),
                                results: old(results)@,
                                failed: false,
                            },
                            responses,
                        );
                        &&& final(self).context.on_going() == end.on_going
                        &&& final(results)@ == end.results
                        &&& listening == if end.failed {
                            Err::<bool, ModbusError>(ModbusError::NoTableForFunctionCode)
                        } else {
                            Ok::<bool, ModbusError>(
                                !(end.on_going =~= Map::<u16, QueryModel>::empty()),
                            )
                        }
                    }),
                },
                _ => {
                    &&& listening == Ok::<bool, ModbusError>(false)
                    &&& final(self).context.on_going() == old(self).context.on_going()
                    &&& final(results)@ == old(results)@
                },
            },
    {
        match event {
            MasterEvent::Received(bytes) => self.receive(bytes, results),
            MasterEvent::ReadFailed => Ok(false),
            MasterEvent::TimedOut => Ok(false),
        }
    }
}

/// The coils with the given states.
pub fn coils_from(states: &Vec<bool>) -> (values: Vec<ModbusDataType>)
    ensures
        values@ == coils(states@),
{
    let mut values: Vec<ModbusDataType> = Vec::new();
    let mut index: usize = 0;
    while index < states.len()
        invariant
            index <= states.len(),
            values@ == coils(states@.take(index as int)),
        decreases states.len() - index,
    {
        values.push(ModbusDataType::Coil(states[index]));
        index += 1;
        assert(values@ =~= coils(states@.take(index as int)));
    }
    assert(states@.take(index as int) =~= states@);
    values
}

/// The registers with the given words.
pub fn registers_from(words: &Vec<u16>) -> (values: Vec<ModbusDataType>)
    ensures
        values@ == registers(words@),
{
    let mut values: Vec<ModbusDataType> = Vec::new();
    let mut index: usize = 0;
    while index < words.len()
        invariant
            index <= words.len(),
            values@ == registers(words@.take(index as int)),
        decreases words.len() - index,
    {
        values.push(ModbusDataType::Register(words[index]));
        index += 1;
        assert(values@ =~= registers(words@.take(index as int)));
    }
    assert(words@.take(index as int) =~= words@);
    values
}

} // verus!
