use modbus_engine::codec::tcp::ModbusTcpSerialize;
use modbus_engine::common::{
    ModbusAddress, ModbusDataType, ModbusResult, ModbusSubprotocol, ModbusTable,
};
use modbus_engine::error::ModbusError;
use modbus_engine::master::projection::{insert_range, insert_values, project};
use modbus_engine::master::{
    coils_from, registers_from, MasterEvent, ModbusContext, ModbusMasterConnection,
    ModbusMasterConnectionParams, ModbusResultMap,
};
use modbus_engine::messages::query::{
    MultipleReadWriteQueryParameters, MultipleWriteQueryParameters, ReadQueryParameters,
    SingleWriteQueryParameters,
};
use modbus_engine::messages::response::{
    MultipleWriteResponse, ReadResponseParameters, SingleWriteResponseParameters,
};
use modbus_engine::messages::{
    ExceptionCode, FunctionCode, ModbusMessageData, ModbusQuery, ModbusResponse,
};

fn header(
    slave_id: u8,
    function_code: FunctionCode,
    transaction_id: Option<u16>,
) -> ModbusMessageData {
    ModbusMessageData {
        slave_id,
        function_code,
        transaction_id,
    }
}

fn address(slave_id: u8, table: ModbusTable, address: u16) -> ModbusAddress {
    ModbusAddress {
        slave_id,
        table,
        address,
    }
}

fn read_holding(slave_id: u8, starting_address: u16, ammount: u16) -> ModbusQuery {
    ModbusQuery::ReadQuery {
        message_data: header(slave_id, FunctionCode::ReadMultipleHoldingRegister, None),
        params: ReadQueryParameters {
            table: ModbusTable::HoldingRegisters,
            starting_address,
            ammount,
        },
    }
}

fn sorted_entries(results: &ModbusResultMap) -> Vec<(ModbusAddress, ModbusResult)> {
    let mut entries = results.entries();
    entries.sort_by(|a, b| a.0.cmp(&b.0));
    entries
}

fn error_response(slave_id: u8, transaction_id: u16, code: ExceptionCode) -> ModbusResponse {
    ModbusResponse::Error {
        message_data: header(
            slave_id,
            FunctionCode::ReadMultipleHoldingRegister,
            Some(transaction_id),
        ),
        exception_code: code,
    }
}

fn register_response(slave_id: u8, transaction_id: u16, words: &[u16]) -> ModbusResponse {
    ModbusResponse::ReadResponse {
        message_data: header(
            slave_id,
            FunctionCode::ReadMultipleHoldingRegister,
            Some(transaction_id),
        ),
        params: ReadResponseParameters {
            table: ModbusTable::HoldingRegisters,
            values: words.iter().map(|w| ModbusDataType::Register(*w)).collect(),
        },
    }
}

#[test]
fn new_context_is_idle_and_starts_at_one() {
    let mut context = ModbusContext::new();
    assert!(context.queued_queries.is_empty());
    assert!(context.on_going_queries.is_empty());
    assert!(!context.has_on_going_queries());
    assert_eq!(context.get_next_free_transaction_id(), 1);
    assert_eq!(context.get_next_free_transaction_id(), 2);
}

#[test]
fn transaction_ids_wrap_to_zero() {
    let mut context = ModbusContext::new();
    context.current_transaction_id = 0xFFFF;
    assert_eq!(context.get_next_free_transaction_id(), 0xFFFF);
    assert_eq!(context.get_next_free_transaction_id(), 0);
    assert_eq!(context.get_next_free_transaction_id(), 1);
}

#[test]
fn queries_are_loaded_from_the_end_of_the_queue() {
    let mut context = ModbusContext::new();
    context.queued_queries.push(read_holding(1, 10, 1));
    context.queued_queries.push(read_holding(2, 20, 2));
    context.queued_queries.push(read_holding(3, 30, 3));
    context.load_queued_queries(2);

    assert_eq!(context.queued_queries, vec![read_holding(1, 10, 1)]);
    assert_eq!(context.on_going_queries.len(), 2);
    let mut first = read_holding(3, 30, 3);
    first.set_transaction_id(Some(1));
    let mut second = read_holding(2, 20, 2);
    second.set_transaction_id(Some(2));
    assert_eq!(context.on_going_queries.get(&1), Some(&first));
    assert_eq!(context.on_going_queries.get(&2), Some(&second));
    assert!(context.has_on_going_queries());

    context.load_queued_queries(5);
    assert!(context.queued_queries.is_empty());
    assert_eq!(context.on_going_queries.len(), 1);
    let mut third = read_holding(1, 10, 1);
    third.set_transaction_id(Some(3));
    assert_eq!(context.on_going_queries.get(&3), Some(&third));

    context.load_queued_queries(5);
    assert!(context.on_going_queries.is_empty());
    assert!(!context.has_on_going_queries());
}

#[test]
fn loading_nothing_clears_the_batch() {
    let mut context = ModbusContext::new();
    context.queued_queries.push(read_holding(1, 10, 1));
    context.load_queued_queries(1);
    context.queued_queries.push(read_holding(1, 10, 1));
    context.load_queued_queries(0);
    assert!(context.on_going_queries.is_empty());
    assert_eq!(context.queued_queries.len(), 1);
}

#[test]
fn batch_is_serialized_query_by_query() {
    let mut context = ModbusContext::new();
    context.queued_queries.push(read_holding(1, 10, 1));
    context.queued_queries.push(read_holding(2, 20, 2));
    context.load_queued_queries(2);
    let bytes = context
        .serialize_queries(ModbusSubprotocol::ModbusTCP)
        .unwrap();
    let mut decoded = ModbusQuery::tcp_deserialize(bytes).unwrap();
    decoded.sort_by_key(|query| query.get_message_data().transaction_id);
    let mut first = read_holding(2, 20, 2);
    first.set_transaction_id(Some(1));
    let mut second = read_holding(1, 10, 1);
    second.set_transaction_id(Some(2));
    assert_eq!(decoded, vec![first, second]);

    assert_eq!(
        context.serialize_queries(ModbusSubprotocol::ModbusRTU),
        Err(ModbusError::NotImplemented)
    );
    let idle = ModbusContext::new();
    assert_eq!(idle.serialize_queries(ModbusSubprotocol::ModbusRTU), Ok(vec![]));
}

#[test]
fn query_without_frame_fails_the_batch() {
    let mut context = ModbusContext::new();
    context.queued_queries.push(ModbusQuery::MultipleWriteQuery {
        message_data: header(1, FunctionCode::WriteMultipleCoils, None),
        params: MultipleWriteQueryParameters {
            table: ModbusTable::Coils,
            starting_address: 0,
            values: vec![],
        },
    });
    context.load_queued_queries(1);
    assert_eq!(
        context.serialize_queries(ModbusSubprotocol::ModbusTCP),
        Err(ModbusError::NoValues)
    );
}

#[test]
fn error_response_marks_the_whole_read_range() {
    let mut context = ModbusContext::new();
    context.queued_queries.push(read_holding(5, 10, 3));
    context.load_queued_queries(1);
    let mut results = ModbusResultMap::new();
    let outcome = context.process_modbus_responses(
        vec![error_response(5, 1, ExceptionCode::IllegalDataAddress)],
        &mut results,
    );
    assert_eq!(outcome, Ok(()));
    let expected = ModbusResult::Error(ExceptionCode::IllegalDataAddress);
    assert_eq!(
        sorted_entries(&results),
        vec![
            (address(5, ModbusTable::HoldingRegisters, 10), expected),
            (address(5, ModbusTable::HoldingRegisters, 11), expected),
            (address(5, ModbusTable::HoldingRegisters, 12), expected),
        ]
    );
    assert_eq!(results.len(), 3);
    assert!(!context.has_on_going_queries());
}

#[test]
fn error_response_marks_the_ranges_of_every_query_kind() {
    let code = ExceptionCode::ServerDeviceBusy;
    let error = ModbusResponse::Error {
        message_data: header(2, FunctionCode::WriteMultipleHoldingRegisters, Some(1)),
        exception_code: code,
    };
    let table = ModbusTable::HoldingRegisters;

    let single = ModbusQuery::SingleWriteQuery {
        message_data: header(2, FunctionCode::WriteSingleHoldingRegister, Some(1)),
        params: SingleWriteQueryParameters {
            table,
            starting_address: 7,
            value: ModbusDataType::Register(1),
        },
    };
    let mut results = ModbusResultMap::new();
    project(&single, &error, table, &mut results);
    assert_eq!(
        sorted_entries(&results),
        vec![(address(2, table, 7), ModbusResult::Error(code))]
    );

    let multiple = ModbusQuery::MultipleWriteQuery {
        message_data: header(2, FunctionCode::WriteMultipleHoldingRegisters, Some(1)),
        params: MultipleWriteQueryParameters {
            table,
            starting_address: 0xFFFE,
            values: vec![ModbusDataType::Register(1); 5],
        },
    };
    let mut results = ModbusResultMap::new();
    project(&multiple, &error, table, &mut results);
    assert_eq!(
        sorted_entries(&results),
        vec![
            (address(2, table, 0xFFFE), ModbusResult::Error(code)),
            (address(2, table, 0xFFFF), ModbusResult::Error(code)),
        ]
    );

    let read_write = ModbusQuery::MultipleReadWriteQuery {
        message_data: header(2, FunctionCode::ReadWriteMultipleRegisters, Some(1)),
        params: MultipleReadWriteQueryParameters {
            table,
            read_starting_address: 1,
            read_ammount: 2,
            write_starting_address: 2,
            values: vec![ModbusDataType::Register(1); 2],
        },
    };
    let mut results = ModbusResultMap::new();
    project(&read_write, &error, table, &mut results);
    assert_eq!(
        sorted_entries(&results),
        vec![
            (address(2, table, 1), ModbusResult::Error(code)),
            (address(2, table, 2), ModbusResult::Error(code)),
            (address(2, table, 3), ModbusResult::Error(code)),
        ]
    );
}

#[test]
fn read_response_is_cut_to_the_amount_asked_for() {
    let mut context = ModbusContext::new();
    context.queued_queries.push(read_holding(1, 100, 2));
    context.load_queued_queries(1);
    let mut results = ModbusResultMap::new();
    context
        .process_modbus_responses(vec![register_response(1, 1, &[7, 8, 9])], &mut results)
        .unwrap();
    assert_eq!(
        sorted_entries(&results),
        vec![
            (
                address(1, ModbusTable::HoldingRegisters, 100),
                ModbusResult::ReadResult(ModbusDataType::Register(7))
            ),
            (
                address(1, ModbusTable::HoldingRegisters, 101),
                ModbusResult::ReadResult(ModbusDataType::Register(8))
            ),
        ]
    );
}

#[test]
fn read_response_answers_a_combined_write_and_read() {
    let table = ModbusTable::HoldingRegisters;
    let query = ModbusQuery::MultipleReadWriteQuery {
        message_data: header(4, FunctionCode::ReadWriteMultipleRegisters, Some(1)),
        params: MultipleReadWriteQueryParameters {
            table,
            read_starting_address: 50,
            read_ammount: 2,
            write_starting_address: 2,
            values: vec![ModbusDataType::Register(1)],
        },
    };
    let response = ModbusResponse::ReadResponse {
        message_data: header(4, FunctionCode::ReadWriteMultipleRegisters, Some(1)),
        params: ReadResponseParameters {
            table,
            values: vec![ModbusDataType::Register(5), ModbusDataType::Register(6)],
        },
    };
    let mut results = ModbusResultMap::new();
    project(&query, &response, table, &mut results);
    assert_eq!(
        sorted_entries(&results),
        vec![
            (
                address(4, table, 50),
                ModbusResult::ReadResult(ModbusDataType::Register(5))
            ),
            (
                address(4, table, 51),
                ModbusResult::ReadResult(ModbusDataType::Register(6))
            ),
        ]
    );
}

#[test]
fn read_response_says_nothing_about_a_write() {
    let table = ModbusTable::HoldingRegisters;
    let query = ModbusQuery::SingleWriteQuery {
        message_data: header(4, FunctionCode::WriteSingleHoldingRegister, Some(1)),
        params: SingleWriteQueryParameters {
            table,
            starting_address: 7,
            value: ModbusDataType::Register(1),
        },
    };
    let mut results = ModbusResultMap::new();
    project(&query, &register_response(4, 1, &[1, 2]), table, &mut results);
    assert!(results.is_empty());
    assert_eq!(results.len(), 0);
}

#[test]
fn write_responses_confirm_their_addresses() {
    let mut context = ModbusContext::new();
    context.queued_queries.push(ModbusQuery::SingleWriteQuery {
        message_data: header(3, FunctionCode::WriteSingleCoil, None),
        params: SingleWriteQueryParameters {
            table: ModbusTable::Coils,
            starting_address: 9,
            value: ModbusDataType::Coil(true),
        },
    });
    context.queued_queries.push(ModbusQuery::MultipleWriteQuery {
        message_data: header(3, FunctionCode::WriteMultipleHoldingRegisters, None),
        params: MultipleWriteQueryParameters {
            table: ModbusTable::HoldingRegisters,
            starting_address: 20,
            values: vec![ModbusDataType::Register(1), ModbusDataType::Register(2)],
        },
    });
    context.load_queued_queries(2);
    let mut results = ModbusResultMap::new();
    let responses = vec![
        ModbusResponse::MultipleWriteResponse {
            message_data: header(3, FunctionCode::WriteMultipleHoldingRegisters, Some(1)),
            params: MultipleWriteResponse {
                table: ModbusTable::HoldingRegisters,
                address: 20,
                ammount: 2,
            },
        },
        ModbusResponse::SingleWriteResponse {
            message_data: header(3, FunctionCode::WriteSingleCoil, Some(2)),
            params: SingleWriteResponseParameters {
                table: ModbusTable::Coils,
                address: 9,
                value: ModbusDataType::Coil(true),
            },
        },
    ];
    context
        .process_modbus_responses(responses, &mut results)
        .unwrap();
    assert_eq!(
        sorted_entries(&results),
        vec![
            (
                address(3, ModbusTable::Coils, 9),
                ModbusResult::WriteConfirmation
            ),
            (
                address(3, ModbusTable::HoldingRegisters, 20),
                ModbusResult::WriteConfirmation
            ),
            (
                address(3, ModbusTable::HoldingRegisters, 21),
                ModbusResult::WriteConfirmation
            ),
        ]
    );
    assert!(!context.has_on_going_queries());
}

#[test]
fn responses_that_match_no_query_are_dropped() {
    let mut context = ModbusContext::new();
    context.queued_queries.push(read_holding(1, 100, 2));
    context.load_queued_queries(1);
    let mut results = ModbusResultMap::new();
    let mut without_id = register_response(1, 1, &[7, 8]);
    if let ModbusResponse::ReadResponse { message_data, .. } = &mut without_id {
        message_data.transaction_id = None;
    }
    let outcome = context.process_modbus_responses(
        vec![register_response(1, 2, &[7, 8]), without_id],
        &mut results,
    );
    assert_eq!(outcome, Ok(()));
    assert!(results.is_empty());
    assert!(context.has_on_going_queries());
}

#[test]
fn a_response_is_used_only_once() {
    let mut context = ModbusContext::new();
    context.queued_queries.push(read_holding(1, 100, 1));
    context.load_queued_queries(1);
    let mut results = ModbusResultMap::new();
    context
        .process_modbus_responses(
            vec![
                register_response(1, 1, &[7]),
                register_response(1, 1, &[8]),
            ],
            &mut results,
        )
        .unwrap();
    assert_eq!(
        results.get(&address(1, ModbusTable::HoldingRegisters, 100)),
        Some(ModbusResult::ReadResult(ModbusDataType::Register(7)))
    );
}

#[test]
fn function_code_without_table_stops_the_batch() {
    let mut context = ModbusContext::new();
    context.queued_queries.push(read_holding(1, 100, 1));
    context.queued_queries.push(read_holding(1, 200, 1));
    context.queued_queries.push(read_holding(1, 300, 1));
    context.load_queued_queries(3);
    let mut results = ModbusResultMap::new();
    let outcome = context.process_modbus_responses(
        vec![
            register_response(1, 1, &[7]),
            ModbusResponse::Error {
                message_data: header(1, FunctionCode::Diagnostic, Some(2)),
                exception_code: ExceptionCode::IllegalFunction,
            },
            register_response(1, 3, &[9]),
        ],
        &mut results,
    );
    assert_eq!(outcome, Err(ModbusError::NoTableForFunctionCode));
    assert_eq!(results.len(), 1);
    assert!(results.contains_key(&address(1, ModbusTable::HoldingRegisters, 300)));
    assert_eq!(context.on_going_queries.len(), 2);
    assert!(context.on_going_queries.contains_key(&2));
    assert!(context.on_going_queries.contains_key(&3));
}

#[test]
fn two_batches_for_three_queries_under_a_limit_of_two() {
    let mut master = ModbusMasterConnection::new_tcp();
    master.add_read_holding_registers_query(1, 10, 1).unwrap();
    master.add_read_holding_registers_query(1, 20, 1).unwrap();
    master.add_read_holding_registers_query(1, 30, 1).unwrap();
    let mut batches = 0;
    let mut sent = 0;
    while let Some(bytes) = master.next_batch(2).unwrap() {
        batches += 1;
        assert!(master.context.on_going_queries.len() <= 2);
        let queries = ModbusQuery::tcp_deserialize(bytes).unwrap();
        assert_eq!(queries.len(), master.context.on_going_queries.len());
        sent += queries.len();
    }
    assert_eq!(batches, 2);
    assert_eq!(sent, 3);
    assert!(master.context.queued_queries.is_empty());
}

#[test]
fn no_batch_without_queued_queries() {
    let mut master = ModbusMasterConnection::new_tcp();
    assert_eq!(master.next_batch(4), Ok(None));
    master.add_read_coils_query(1, 0, 1).unwrap();
    assert!(master.next_batch(4).unwrap().is_some());
    assert!(master.context.has_on_going_queries());
    assert_eq!(master.next_batch(4), Ok(None));
    assert!(master.context.has_on_going_queries());
}

#[test]
fn unanswered_query_leaves_no_entries() {
    let mut master = ModbusMasterConnection::new_tcp();
    master.add_read_holding_registers_query(1, 10, 2).unwrap();
    master.add_read_holding_registers_query(1, 50, 3).unwrap();
    let bytes = master.next_batch(2).unwrap().unwrap();
    assert_eq!(ModbusQuery::tcp_deserialize(bytes).unwrap().len(), 2);

    let answer = register_response(1, 1, &[0xAAAA, 0xBBBB, 0xCCCC])
        .tcp_serialize()
        .unwrap();
    let mut results = ModbusResultMap::new();
    assert_eq!(master.receive(answer, &mut results), Ok(true));
    assert_eq!(
        sorted_entries(&results),
        vec![
            (
                address(1, ModbusTable::HoldingRegisters, 50),
                ModbusResult::ReadResult(ModbusDataType::Register(0xAAAA))
            ),
            (
                address(1, ModbusTable::HoldingRegisters, 51),
                ModbusResult::ReadResult(ModbusDataType::Register(0xBBBB))
            ),
            (
                address(1, ModbusTable::HoldingRegisters, 52),
                ModbusResult::ReadResult(ModbusDataType::Register(0xCCCC))
            ),
        ]
    );
    assert_eq!(master.context.on_going_queries.len(), 1);
    assert!(master.context.on_going_queries.contains_key(&2));

    let late = register_response(1, 2, &[1, 2]).tcp_serialize().unwrap();
    assert_eq!(master.receive(late, &mut results), Ok(false));
    assert_eq!(results.len(), 5);
}

#[test]
fn undecodable_bytes_fail_the_batch_and_change_nothing() {
    let mut master = ModbusMasterConnection::new_tcp();
    master.add_read_holding_registers_query(1, 10, 2).unwrap();
    master.next_batch(1).unwrap();
    let mut results = ModbusResultMap::new();
    assert_eq!(
        master.receive(vec![0, 1, 0], &mut results),
        Err(ModbusError::IncompleteHeader)
    );
    assert!(results.is_empty());
    assert!(master.context.has_on_going_queries());
    assert_eq!(master.receive(vec![], &mut results), Ok(true));
}

#[test]
fn builders_queue_queries_without_transaction_id() {
    let mut master = ModbusMasterConnection::new_tcp();
    master.add_read_coils_query(1, 2, 3).unwrap();
    master.add_read_discrete_inputs_query(4, 5, 6).unwrap();
    master.add_read_holding_registers_query(7, 8, 9).unwrap();
    master.add_read_input_registers_query(10, 11, 12).unwrap();
    master.add_write_coil_query(13, 14, true).unwrap();
    master.add_write_holding_register_query(15, 16, 17).unwrap();
    master
        .add_write_multiple_coils_query(18, 19, vec![true, false])
        .unwrap();
    master
        .add_write_multiple_holding_registers_query(20, 21, vec![22, 23])
        .unwrap();
    master
        .add_multiple_read_write_holding_registers_query(24, 25, 26, 27, vec![28])
        .unwrap();

    let read = |slave_id, function_code, table, starting_address, ammount| ModbusQuery::ReadQuery {
        message_data: header(slave_id, function_code, None),
        params: ReadQueryParameters {
            table,
            starting_address,
            ammount,
        },
    };
    let expected = vec![
        read(1, FunctionCode::ReadCoils, ModbusTable::Coils, 2, 3),
        read(
            4,
            FunctionCode::ReadDiscreteInputs,
            ModbusTable::DiscreteInput,
            5,
            6,
        ),
        read(
            7,
            FunctionCode::ReadMultipleHoldingRegister,
            ModbusTable::HoldingRegisters,
            8,
            9,
        ),
        read(
            10,
            FunctionCode::ReadInputRegisters,
            ModbusTable::InputRegisters,
            11,
            12,
        ),
        ModbusQuery::SingleWriteQuery {
            message_data: header(13, FunctionCode::WriteSingleCoil, None),
            params: SingleWriteQueryParameters {
                table: ModbusTable::Coils,
                starting_address: 14,
                value: ModbusDataType::Coil(true),
            },
        },
        ModbusQuery::SingleWriteQuery {
            message_data: header(15, FunctionCode::WriteSingleHoldingRegister, None),
            params: SingleWriteQueryParameters {
                table: ModbusTable::HoldingRegisters,
                starting_address: 16,
                value: ModbusDataType::Register(17),
            },
        },
        ModbusQuery::MultipleWriteQuery {
            message_data: header(18, FunctionCode::WriteMultipleCoils, None),
            params: MultipleWriteQueryParameters {
                table: ModbusTable::Coils,
                starting_address: 19,
                values: vec![ModbusDataType::Coil(true), ModbusDataType::Coil(false)],
            },
        },
        ModbusQuery::MultipleWriteQuery {
            message_data: header(20, FunctionCode::WriteMultipleHoldingRegisters, None),
            params: MultipleWriteQueryParameters {
                table: ModbusTable::HoldingRegisters,
                starting_address: 21,
                values: vec![ModbusDataType::Register(22), ModbusDataType::Register(23)],
            },
        },
        ModbusQuery::MultipleReadWriteQuery {
            message_data: header(24, FunctionCode::ReadWriteMultipleRegisters, None),
            params: MultipleReadWriteQueryParameters {
                table: ModbusTable::HoldingRegisters,
                read_starting_address: 25,
                read_ammount: 26,
                write_starting_address: 27,
                values: vec![ModbusDataType::Register(28)],
            },
        },
    ];
    assert_eq!(master.context.queued_queries, expected);
    assert!(master.context.on_going_queries.is_empty());
}

#[test]
fn builders_refuse_function_codes_without_table() {
    let mut master = ModbusMasterConnection::new_tcp();
    assert_eq!(
        master.add_read_query(1, 2, 3, FunctionCode::Diagnostic),
        Err(ModbusError::NoTableForFunctionCode)
    );
    assert_eq!(
        master.add_single_write_query(
            1,
            2,
            ModbusDataType::Coil(true),
            FunctionCode::NoFunctionCode
        ),
        Err(ModbusError::NoTableForFunctionCode)
    );
    assert_eq!(
        master.add_multiple_write_query(1, 2, vec![], FunctionCode::ReadFIFOQueue),
        Err(ModbusError::NoTableForFunctionCode)
    );
    assert_eq!(
        master.add_multiple_read_write_query(1, 2, 3, 4, vec![], FunctionCode::ReportServerID),
        Err(ModbusError::NoTableForFunctionCode)
    );
    assert!(master.context.queued_queries.is_empty());
    assert_eq!(
        master.add_read_query(1, 2, 3, FunctionCode::WriteSingleCoil),
        Ok(())
    );
    assert_eq!(master.context.queued_queries.len(), 1);
}

#[test]
fn values_are_wrapped_one_for_one() {
    assert_eq!(
        coils_from(&vec![true, false, true]),
        vec![
            ModbusDataType::Coil(true),
            ModbusDataType::Coil(false),
            ModbusDataType::Coil(true)
        ]
    );
    assert_eq!(
        registers_from(&vec![1, 0xFFFF]),
        vec![ModbusDataType::Register(1), ModbusDataType::Register(0xFFFF)]
    );
    assert_eq!(coils_from(&vec![]), vec![]);
}

#[test]
fn results_end_with_the_address_space() {
    let mut results = ModbusResultMap::new();
    insert_range(
        &mut results,
        1,
        ModbusTable::Coils,
        0xFFFE,
        10,
        ModbusResult::WriteConfirmation,
    );
    assert_eq!(
        sorted_entries(&results),
        vec![
            (
                address(1, ModbusTable::Coils, 0xFFFE),
                ModbusResult::WriteConfirmation
            ),
            (
                address(1, ModbusTable::Coils, 0xFFFF),
                ModbusResult::WriteConfirmation
            ),
        ]
    );
    insert_values(
        &mut results,
        1,
        ModbusTable::Coils,
        0xFFFF,
        &vec![ModbusDataType::Coil(true), ModbusDataType::Coil(false)],
        2,
    );
    assert_eq!(
        results.get(&address(1, ModbusTable::Coils, 0xFFFF)),
        Some(ModbusResult::ReadResult(ModbusDataType::Coil(true)))
    );
    assert_eq!(results.len(), 2);
    insert_range(
        &mut results,
        1,
        ModbusTable::Coils,
        5,
        0,
        ModbusResult::WriteConfirmation,
    );
    assert_eq!(results.len(), 2);
}

#[test]
fn result_map_keeps_the_latest_result() {
    let mut results = ModbusResultMap::new();
    assert!(results.is_empty());
    let key = address(9, ModbusTable::InputRegisters, 77);
    assert_eq!(results.get(&key), None);
    assert!(!results.contains_key(&key));
    results.insert(key, ModbusResult::WriteConfirmation);
    results.insert(key, ModbusResult::Error(ExceptionCode::Acknowledge));
    results.insert(
        address(9, ModbusTable::HoldingRegisters, 77),
        ModbusResult::WriteConfirmation,
    );
    assert_eq!(
        results.get(&key),
        Some(ModbusResult::Error(ExceptionCode::Acknowledge))
    );
    assert!(results.contains_key(&key));
    assert!(!results.contains_key(&address(8, ModbusTable::InputRegisters, 77)));
    assert_eq!(results.len(), 2);
    assert!(!results.is_empty());
    assert_eq!(results.entries().len(), 2);
}

#[test]
fn read_failure_and_timeout_end_the_listening() {
    let mut master = ModbusMasterConnection::new_tcp();
    master.add_read_holding_registers_query(1, 10, 2).unwrap();
    master.add_read_holding_registers_query(1, 50, 1).unwrap();
    master.next_batch(2).unwrap();
    let mut results = ModbusResultMap::new();

    let answer = register_response(1, 2, &[5, 6]).tcp_serialize().unwrap();
    assert_eq!(
        master.handle_event(MasterEvent::Received(answer), &mut results),
        Ok(true)
    );
    assert_eq!(
        master.handle_event(MasterEvent::ReadFailed, &mut results),
        Ok(false)
    );
    assert_eq!(
        master.handle_event(MasterEvent::TimedOut, &mut results),
        Ok(false)
    );
    assert_eq!(
        sorted_entries(&results),
        vec![
            (
                address(1, ModbusTable::HoldingRegisters, 10),
                ModbusResult::ReadResult(ModbusDataType::Register(5))
            ),
            (
                address(1, ModbusTable::HoldingRegisters, 11),
                ModbusResult::ReadResult(ModbusDataType::Register(6))
            ),
        ]
    );
    assert_eq!(master.context.on_going_queries.len(), 1);
    assert_eq!(
        master.handle_event(MasterEvent::Received(vec![9]), &mut results),
        Err(ModbusError::IncompleteHeader)
    );
}

#[test]
fn default_pacing_is_one_query_and_five_seconds() {
    let params = ModbusMasterConnectionParams::default();
    assert_eq!(params.max_response_time_ms, 5000);
    assert_eq!(params.max_simultaneous_transactions, 1);
}
