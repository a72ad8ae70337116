//! From a response and the query it answers to results per address.

use vstd::prelude::*;
use crate::common::{ModbusAddress, ModbusDataType, ModbusResult, ModbusTable, SlaveId};
use crate::master::results::ModbusResultMap;
use crate::messages::query::QueryModel;
use crate::messages::response::ResponseModel;
use crate::messages::{ModbusQuery, ModbusResponse};

verus! {

/// The same result for each of `count` consecutive addresses from `start`
/// on. Addresses beyond `0xFFFF` do not exist and get no entry.
pub open spec fn range_results(
    slave_id: SlaveId,
    table: ModbusTable,
    start: u16,
    count: int,
    result: ModbusResult,
) -> Map<ModbusAddress, ModbusResult> {
    Map::new(
        |address: ModbusAddress|
            address.slave_id == slave_id && address.table == table && start <= address.address
                < start + count,
        |address: ModbusAddress| result,
    )
}

/// `values` as read results at consecutive addresses from `start` on.
/// Addresses beyond `0xFFFF` do not exist and get no entry.
pub open spec fn read_results(
    slave_id: SlaveId,
    table: ModbusTable,
    start: u16,
    values: Seq<ModbusDataType>,
) -> Map<ModbusAddress, ModbusResult> {
    Map::new(
        |address: ModbusAddress|
            address.slave_id == slave_id && address.table == table && start <= address.address
                < start + values.len(),
        |address: ModbusAddress| ModbusResult::ReadResult(values[address.address - start]),
    )
}

/// The first `ammount` of `values`, or all of them where there are fewer.
pub open spec fn truncated(values: Seq<ModbusDataType>, ammount: int) -> Seq<ModbusDataType> {
    if values.len() <= ammount {
        values
    } else {
        values.take(ammount)
    }
}

/// What `response` says about the addresses of the `query` it answers. The
/// slave id is the response's; `table` is the table of the response's
/// function code.
///
/// - An error marks every address that the query spoke of.
/// - A read response gives the query's read range its values, cut to the
///   amount the query asked for; it says nothing in answer to a write.
/// - A write response confirms every address it names.
pub open spec fn projection(query: QueryModel, response: ResponseModel, table: ModbusTable) -> Map<
    ModbusAddress,
    ModbusResult,
> {
    let slave_id = response.message_data().slave_id;
    match response {
        ResponseModel::Error { exception_code, .. } => {
            let result = ModbusResult::Error(exception_code);
            match query {
                QueryModel::Read { starting_address, ammount, .. } => range_results(
                    slave_id,
                    table,
                    starting_address,
                    ammount as int,
                    result,
                ),
                QueryModel::SingleWrite { starting_address, .. } => range_results(
                    slave_id,
                    table,
                    starting_address,
                    1,
                    result,
                ),
                QueryModel::MultipleWrite { starting_address, values, .. } => range_results(
                    slave_id,
                    table,
                    starting_address,
                    values.len() as int,
                    result,
                ),
                QueryModel::MultipleReadWrite {
                    read_starting_address,
                    read_ammount,
                    write_starting_address,
                    values,
                    ..
                } => range_results(
                    slave_id,
                    table,
                    read_starting_address,
                    read_ammount as int,
                    result,
                ).union_prefer_right(
                    range_results(
                        slave_id,
                        table,
                        write_starting_address,
                        values.len() as int,
                        result,
                    ),
                ),
            }
        },
        ResponseModel::Read { values, .. } => match query {
            QueryModel::Read { starting_address, ammount, .. } => read_results(
                slave_id,
                table,
                starting_address,
                truncated(values, ammount as int),
            ),
            QueryModel::MultipleReadWrite { read_starting_address, read_ammount, .. } => read_results(
                slave_id,
                table,
                read_starting_address,
                truncated(values, read_ammount as int),
            ),
            _ => Map::empty(),
        },
        ResponseModel::SingleWrite { address, .. } => range_results(
            slave_id,
            table,
            address,
            1,
            ModbusResult::WriteConfirmation,
        ),
        ResponseModel::MultipleWrite { address, ammount, .. } => range_results(
            slave_id,
            table,
            address,
            ammount as int,
            ModbusResult::WriteConfirmation,
        ),
    }
}

/// An error in answer to a read marks the addresses that the query asked
/// for, all of them and no others, each with the error's code.
pub proof fn lemma_error_marks_read_range(
    query: QueryModel,
    response: ResponseModel,
    table: ModbusTable,
    address: ModbusAddress,
)
    requires
        query is Read,
        response is Error,
    ensures
        projection(query, response, table).contains_key(address) <==> {
            &&& address.slave_id == response.message_data().slave_id
            &&& address.table == table
            &&& query->Read_starting_address <= address.address < query->Read_starting_address
                + query->Read_ammount
        },
        projection(query, response, table).contains_key(address) ==> projection(
            query,
            response,
            table,
        )[address] == ModbusResult::Error(response->Error_exception_code),
{
}

/// Records `result` for `count` consecutive addresses from `start` on.
pub fn insert_range(
    address_map: &mut ModbusResultMap,
    slave_id: SlaveId,
    table: ModbusTable,
    start: u16,
    count: usize,
    result: ModbusResult,
)
    requires
        old(address_map).well_formed(),
    ensures
        final(address_map).well_formed(),
        final(address_map)@ == old(address_map)@.union_prefer_right(
            range_results(slave_id, table, start, count as int, result),
        ),
{
    let room: usize = 0x1_0000 - start as usize;
    let limit: usize = if count < room {
        count
    } else {
        room
    };
    let mut offset: usize = 0;
    assert(address_map@ =~= old(address_map)@.union_prefer_right(
        range_results(slave_id, table, start, 0, result),
    ));
    while offset < limit
        invariant
            offset <= limit,
            limit as int + start as int <= 0x1_0000,
            address_map.well_formed(),
            address_map@ == old(address_map)@.union_prefer_right(
                range_results(slave_id, table, start, offset as int, result),
            ),
        decreases limit - offset,
    {
        let address = ModbusAddress { slave_id, table, address: (start as usize + offset) as u16 };
        address_map.insert(address, result);
        offset += 1;
        assert(address_map@ =~= old(address_map)@.union_prefer_right(
            range_results(slave_id, table, start, offset as int, result),
        ));
    }
    assert(range_results(slave_id, table, start, limit as int, result) =~= range_results(
        slave_id,
        table,
        start,
        count as int,
        result,
    ));
}

/// Records the first `ammount` of `values` as read results at consecutive
/// addresses from `start` on.
pub fn insert_values(
    address_map: &mut ModbusResultMap,
    slave_id: SlaveId,
    table: ModbusTable,
    start: u16,
    values: &Vec<ModbusDataType>,
    ammount: u16,
)
    requires
        old(address_map).well_formed(),
    ensures
        final(address_map).well_formed(),
        final(address_map)@ == old(address_map)@.union_prefer_right(
            read_results(slave_id, table, start, truncated(values@, ammount as int)),
        ),
{
    let room: usize = 0x1_0000 - start as usize;
    let wanted: usize = if values.len() <= ammount as usize {
        values.len()
    } else {
        ammount as usize
    };
    let limit: usize = if wanted < room {
        wanted
    } else {
        room
    };
    let ghost kept = truncated(values@, ammount as int);
    let mut offset: usize = 0;
    assert(address_map@ =~= old(address_map)@.union_prefer_right(
        read_results(slave_id, table, start, kept.take(0)),
    ));
    while offset < limit
        invariant
            offset <= limit <= kept.len(),
            limit as int + start as int <= 0x1_0000,
            kept == truncated(values@, ammount as int),
            address_map.well_formed(),
            address_map@ == old(address_map)@.union_prefer_right(
                read_results(slave_id, table, start, kept.take(offset as int)),
            ),
        decreases limit - offset,
    {
        let address = ModbusAddress { slave_id, table, address: (start as usize + offset) as u16 };
        address_map.insert(address, ModbusResult::ReadResult(values[offset]));
        offset += 1;
        assert(address_map@ =~= old(address_map)@.union_prefer_right(
            read_results(slave_id, table, start, kept.take(offset as int)),
        ));
    }
    assert(read_results(slave_id, table, start, kept.take(limit as int)) =~= read_results(
        slave_id,
        table,
        start,
        kept,
    ));
}

/// Records in `address_map` what `response` says about the addresses of the
/// `query` it answers.
pub fn project(
    query: &ModbusQuery,
    response: &ModbusResponse,
    table: ModbusTable,
    address_map: &mut ModbusResultMap,
)
    requires
        old(address_map).well_formed(),
    ensures
        final(address_map).well_formed(),
        final(address_map)@ == old(address_map)@.union_prefer_right(
            projection(query@, response@, table),
        ),
{
    match response {
        ModbusResponse::Error { message_data, exception_code } => {
            let slave_id = message_data.slave_id;
            let result = ModbusResult::Error(*exception_code);
            match query {
                ModbusQuery::ReadQuery { message_data: _message_data, params } => {
                    insert_range(
                        address_map,
                        slave_id,
                        table,
                        params.starting_address,
                        params.ammount as usize,
                        result,
                    );
                },
                ModbusQuery::SingleWriteQuery { message_data: _message_data, params } => {
                    insert_range(address_map, slave_id, table, params.starting_address, 1, result);
                },
                ModbusQuery::MultipleWriteQuery { message_data: _message_data, params } => {
                    insert_range(
                        address_map,
                        slave_id,
                        table,
                        params.starting_address,
                        params.values.len(),
                        result,
                    );
                },
                ModbusQuery::MultipleReadWriteQuery { message_data: _message_data, params } => {
                    insert_range(
                        address_map,
                        slave_id,
                        table,
                        params.read_starting_address,
                        params.read_ammount as usize,
                        result,
                    );
                    insert_range(
                        address_map,
                        slave_id,
                        table,
                        params.write_starting_address,
                        params.values.len(),
                        result,
                    );
                    assert(address_map@ =~= old(address_map)@.union_prefer_right(
                        projection(query@, response@, table),
                    ));
                },
            }
        },
        ModbusResponse::SingleWriteResponse { message_data, params } => {
            insert_range(
                address_map,
                message_data.slave_id,
                table,
                params.address,
                1,
                ModbusResult::WriteConfirmation,
            );
        },
        ModbusResponse::MultipleWriteResponse { message_data, params } => {
            insert_range(
                address_map,
                message_data.slave_id,
                table,
                params.address,
                params.ammount as usize,
                ModbusResult::WriteConfirmation,
            );
        },
        ModbusResponse::ReadResponse { message_data, params } => {
            match query {
                ModbusQuery::ReadQuery { message_data: _message_data, params: query_params } => {
                    insert_values(
                        address_map,
                        message_data.slave_id,
                        table,
                        query_params.starting_address,
                        &params.values,
                        query_params.ammount,
                    );
                },
                ModbusQuery::MultipleReadWriteQuery {
                    message_data: _message_data,
                    params: query_params,
                } => {
                    insert_values(
                        address_map,
                        message_data.slave_id,
                        table,
                        query_params.read_starting_address,
                        &params.values,
                        query_params.read_ammount,
                    );
                },
                _ => {
                    assert(address_map@ =~= old(address_map)@.union_prefer_right(
                        projection(query@, response@, table),
                    ));
                },
            }
        },
    }
}

} // verus!
