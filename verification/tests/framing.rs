use modbus_engine::codec::cursor::ByteCursor;
use modbus_engine::codec::tcp::{deserialize_mbap, serialize_mbap, ModbusTcpSerialize};
use modbus_engine::codec::ModbusSerialize;
use modbus_engine::common::{ModbusDataType, ModbusSubprotocol, ModbusTable};
use modbus_engine::error::ModbusError;
use modbus_engine::messages::query::{
    MultipleReadWriteQueryParameters, MultipleWriteQueryParameters, ReadQueryParameters,
    SingleWriteQueryParameters,
};
use modbus_engine::messages::response::{
    MultipleWriteResponse, ReadResponseParameters, SingleWriteResponseParameters,
};
use modbus_engine::messages::{
    ExceptionCode, FunctionCode, ModbusMessageData, ModbusQuery, ModbusResponse,
};

fn header(slave_id: u8, function_code: FunctionCode, transaction_id: u16) -> ModbusMessageData {
    ModbusMessageData {
        slave_id,
        function_code,
        transaction_id: Some(transaction_id),
    }
}

fn read_query(
    slave_id: u8,
    function_code: FunctionCode,
    table: ModbusTable,
    starting_address: u16,
    ammount: u16,
) -> ModbusQuery {
    ModbusQuery::ReadQuery {
        message_data: header(slave_id, function_code, 7),
        params: ReadQueryParameters {
            table,
            starting_address,
            ammount,
        },
    }
}

fn round_trip_queries(input: Vec<ModbusQuery>) {
    let mut bytes = vec![];
    for query in &input {
        bytes.extend_from_slice(&query.serialize(ModbusSubprotocol::ModbusTCP).unwrap());
    }
    let output = ModbusQuery::deserialize(bytes, ModbusSubprotocol::ModbusTCP).unwrap();
    assert_eq!(input, output);
}

fn round_trip_responses(input: Vec<ModbusResponse>) {
    let mut bytes = vec![];
    for response in &input {
        bytes.extend_from_slice(&response.serialize(ModbusSubprotocol::ModbusTCP).unwrap());
    }
    let output = ModbusResponse::deserialize(bytes, ModbusSubprotocol::ModbusTCP).unwrap();
    assert_eq!(input, output);
}

#[test]
fn mbap_has_seven_bytes() {
    let bytes = serialize_mbap(&header(0x11, FunctionCode::ReadCoils, 0x0102), 0x0006).unwrap();
    assert_eq!(bytes, vec![0x01, 0x02, 0x00, 0x00, 0x00, 0x06, 0x11]);
}

#[test]
fn mbap_needs_a_transaction_id() {
    let message_data = ModbusMessageData {
        slave_id: 1,
        function_code: FunctionCode::ReadCoils,
        transaction_id: None,
    };
    let error = serialize_mbap(&message_data, 6).unwrap_err();
    assert_eq!(error, ModbusError::MissingTransactionId);
    assert!(error.message().contains("without transaction id"));
}

#[test]
fn mbap_is_read_back() {
    let mut cursor = ByteCursor::new(vec![0x01, 0x02, 0xAB, 0xCD, 0x00, 0x06, 0x11, 0x99]);
    let (message_data, length) = deserialize_mbap(&mut cursor).unwrap();
    assert_eq!(
        message_data,
        ModbusMessageData {
            slave_id: 0x11,
            function_code: FunctionCode::NoFunctionCode,
            transaction_id: Some(0x0102),
        }
    );
    assert_eq!(length, 5);
    assert_eq!(cursor.remaining(), 1);
}

#[test]
fn short_mbap_is_refused() {
    let mut cursor = ByteCursor::new(vec![0, 1, 0, 0, 0, 6]);
    assert_eq!(
        deserialize_mbap(&mut cursor),
        Err(ModbusError::IncompleteHeader)
    );
    assert_eq!(cursor.remaining(), 6);
}

#[test]
fn mbap_with_zero_length_is_refused() {
    let mut cursor = ByteCursor::new(vec![0, 1, 0, 0, 0, 0, 1]);
    assert_eq!(deserialize_mbap(&mut cursor), Err(ModbusError::InvalidLength));
    assert_eq!(cursor.remaining(), 7);
}

#[test]
fn read_query_frame_is_bit_exact() {
    let query = ModbusQuery::ReadQuery {
        message_data: header(1, FunctionCode::ReadCoils, 1),
        params: ReadQueryParameters {
            table: ModbusTable::Coils,
            starting_address: 0x00FF,
            ammount: 32,
        },
    };
    assert_eq!(
        query.tcp_serialize(),
        Ok(vec![0, 1, 0, 0, 0, 6, 1, 1, 0x00, 0xFF, 0, 32])
    );
}

#[test]
fn single_write_query_frame_is_bit_exact() {
    let query = ModbusQuery::SingleWriteQuery {
        message_data: header(3, FunctionCode::WriteSingleCoil, 0x2122),
        params: SingleWriteQueryParameters {
            table: ModbusTable::Coils,
            starting_address: 38,
            value: ModbusDataType::Coil(true),
        },
    };
    assert_eq!(
        query.tcp_serialize(),
        Ok(vec![0x21, 0x22, 0, 0, 0, 6, 3, 5, 0, 38, 0xFF, 0x00])
    );
}

#[test]
fn multiple_write_query_frame_is_bit_exact() {
    let query = ModbusQuery::MultipleWriteQuery {
        message_data: header(8, FunctionCode::WriteMultipleCoils, 67),
        params: MultipleWriteQueryParameters {
            table: ModbusTable::Coils,
            starting_address: 0x33,
            values: vec![
                ModbusDataType::Coil(false),
                ModbusDataType::Coil(false),
                ModbusDataType::Coil(true),
            ],
        },
    };
    assert_eq!(
        query.tcp_serialize(),
        Ok(vec![0, 67, 0, 0, 0, 8, 8, 15, 0, 0x33, 0, 3, 1, 0b100])
    );
}

#[test]
fn multiple_read_write_query_frame_is_bit_exact() {
    let query = ModbusQuery::MultipleReadWriteQuery {
        message_data: header(33, FunctionCode::ReadWriteMultipleRegisters, 83),
        params: MultipleReadWriteQueryParameters {
            table: ModbusTable::HoldingRegisters,
            read_starting_address: 1,
            read_ammount: 300,
            write_starting_address: 2,
            values: vec![ModbusDataType::Register(33), ModbusDataType::Register(0x1622)],
        },
    };
    assert_eq!(
        query.tcp_serialize(),
        Ok(vec![
            0, 83, 0, 0, 0, 15, 33, 23, 0, 1, 0x01, 0x2C, 0, 2, 0, 2, 4, 0, 33, 0x16, 0x22
        ])
    );
}

#[test]
fn response_frames_are_bit_exact() {
    let read = ModbusResponse::ReadResponse {
        message_data: header(89, FunctionCode::ReadMultipleHoldingRegister, 34),
        params: ReadResponseParameters {
            table: ModbusTable::HoldingRegisters,
            values: vec![ModbusDataType::Register(0xABCD)],
        },
    };
    assert_eq!(
        read.tcp_serialize(),
        Ok(vec![0, 34, 0, 0, 0, 5, 89, 3, 2, 0xAB, 0xCD])
    );
    let single = ModbusResponse::SingleWriteResponse {
        message_data: header(3, FunctionCode::WriteSingleHoldingRegister, 1),
        params: SingleWriteResponseParameters {
            table: ModbusTable::HoldingRegisters,
            address: 0x6000,
            value: ModbusDataType::Register(0x20),
        },
    };
    assert_eq!(
        single.tcp_serialize(),
        Ok(vec![0, 1, 0, 0, 0, 6, 3, 6, 0x60, 0x00, 0, 0x20])
    );
    let multiple = ModbusResponse::MultipleWriteResponse {
        message_data: header(29, FunctionCode::WriteMultipleCoils, 9093),
        params: MultipleWriteResponse {
            table: ModbusTable::Coils,
            address: 0x5555,
            ammount: 6,
        },
    };
    assert_eq!(
        multiple.tcp_serialize(),
        Ok(vec![0x23, 0x85, 0, 0, 0, 6, 29, 15, 0x55, 0x55, 0, 6])
    );
    let error = ModbusResponse::Error {
        message_data: header(9, FunctionCode::ReadCoils, 2),
        exception_code: ExceptionCode::IllegalDataAddress,
    };
    assert_eq!(
        error.tcp_serialize(),
        Ok(vec![0, 2, 0, 0, 0, 3, 9, 0x81, 2])
    );
}

#[test]
fn queries_without_transaction_id_do_not_serialize() {
    let query = ModbusQuery::ReadQuery {
        message_data: ModbusMessageData {
            slave_id: 1,
            function_code: FunctionCode::ReadCoils,
            transaction_id: None,
        },
        params: ReadQueryParameters {
            table: ModbusTable::Coils,
            starting_address: 0,
            ammount: 1,
        },
    };
    assert_eq!(
        query.serialize(ModbusSubprotocol::ModbusTCP),
        Err(ModbusError::MissingTransactionId)
    );
}

#[test]
fn value_errors_come_before_the_missing_transaction_id() {
    let query = ModbusQuery::MultipleWriteQuery {
        message_data: ModbusMessageData {
            slave_id: 1,
            function_code: FunctionCode::WriteMultipleCoils,
            transaction_id: None,
        },
        params: MultipleWriteQueryParameters {
            table: ModbusTable::Coils,
            starting_address: 0,
            values: vec![],
        },
    };
    assert_eq!(query.tcp_serialize(), Err(ModbusError::NoValues));
    let response = ModbusResponse::ReadResponse {
        message_data: header(1, FunctionCode::ReadCoils, 1),
        params: ReadResponseParameters {
            table: ModbusTable::Coils,
            values: vec![ModbusDataType::Coil(true), ModbusDataType::Register(3)],
        },
    };
    assert_eq!(response.tcp_serialize(), Err(ModbusError::MixedDataTypes));
}

#[test]
fn rtu_is_not_implemented() {
    let query = read_query(1, FunctionCode::ReadCoils, ModbusTable::Coils, 0, 1);
    for subprotocol in [
        ModbusSubprotocol::ModbusRTU,
        ModbusSubprotocol::ModbusRTUOverTCP,
    ] {
        let error = query.serialize(subprotocol).unwrap_err();
        assert_eq!(error, ModbusError::NotImplemented);
        assert!(error.message().contains("Not implemented"));
        assert_eq!(
            ModbusQuery::deserialize(vec![1, 2, 3], subprotocol),
            Err(ModbusError::NotImplemented)
        );
        assert_eq!(
            ModbusResponse::deserialize(vec![], subprotocol),
            Err(ModbusError::NotImplemented)
        );
    }
    let response = ModbusResponse::Error {
        message_data: header(1, FunctionCode::ReadCoils, 1),
        exception_code: ExceptionCode::Acknowledge,
    };
    assert_eq!(
        response.serialize(ModbusSubprotocol::ModbusRTU),
        Err(ModbusError::NotImplemented)
    );
}

#[test]
fn read_queries_round_trip_at_the_boundaries() {
    round_trip_queries(vec![
        read_query(1, FunctionCode::ReadCoils, ModbusTable::Coils, 0, 0),
        read_query(
            0xFF,
            FunctionCode::ReadDiscreteInputs,
            ModbusTable::DiscreteInput,
            0xFFFF,
            0xFFFF,
        ),
        read_query(
            0,
            FunctionCode::ReadInputRegisters,
            ModbusTable::InputRegisters,
            0x8000,
            1,
        ),
        read_query(
            7,
            FunctionCode::ReadMultipleHoldingRegister,
            ModbusTable::HoldingRegisters,
            0xFFFF,
            0,
        ),
    ]);
}

#[test]
fn write_queries_round_trip_at_the_boundaries() {
    round_trip_queries(vec![
        ModbusQuery::SingleWriteQuery {
            message_data: header(0xFF, FunctionCode::WriteSingleCoil, 0xFFFF),
            params: SingleWriteQueryParameters {
                table: ModbusTable::Coils,
                starting_address: 0xFFFF,
                value: ModbusDataType::Coil(true),
            },
        },
        ModbusQuery::SingleWriteQuery {
            message_data: header(1, FunctionCode::WriteSingleHoldingRegister, 0),
            params: SingleWriteQueryParameters {
                table: ModbusTable::HoldingRegisters,
                starting_address: 0,
                value: ModbusDataType::Register(0xFF00),
            },
        },
        ModbusQuery::MultipleWriteQuery {
            message_data: header(1, FunctionCode::WriteMultipleCoils, 5),
            params: MultipleWriteQueryParameters {
                table: ModbusTable::Coils,
                starting_address: 0xFFFF,
                values: (0..19).map(|i| ModbusDataType::Coil(i % 2 == 1)).collect(),
            },
        },
        ModbusQuery::MultipleWriteQuery {
            message_data: header(0xFF, FunctionCode::WriteMultipleHoldingRegisters, 6),
            params: MultipleWriteQueryParameters {
                table: ModbusTable::HoldingRegisters,
                starting_address: 0,
                values: (0..127).map(|i| ModbusDataType::Register(i * 513)).collect(),
            },
        },
        ModbusQuery::MultipleReadWriteQuery {
            message_data: header(0xFF, FunctionCode::ReadWriteMultipleRegisters, 0x8001),
            params: MultipleReadWriteQueryParameters {
                table: ModbusTable::HoldingRegisters,
                read_starting_address: 0xFFFF,
                read_ammount: 0xFFFF,
                write_starting_address: 0,
                values: vec![ModbusDataType::Register(0xFFFF)],
            },
        },
    ]);
}

#[test]
fn responses_round_trip_at_the_boundaries() {
    round_trip_responses(vec![
        ModbusResponse::ReadResponse {
            message_data: header(1, FunctionCode::ReadDiscreteInputs, 0),
            params: ReadResponseParameters {
                table: ModbusTable::DiscreteInput,
                values: (0..16).map(|i| ModbusDataType::Coil(i % 5 == 0)).collect(),
            },
        },
        ModbusResponse::ReadResponse {
            message_data: header(0xFF, FunctionCode::ReadInputRegisters, 0xFFFF),
            params: ReadResponseParameters {
                table: ModbusTable::InputRegisters,
                values: (0..127).map(|i| ModbusDataType::Register(0xFFFF - i)).collect(),
            },
        },
        ModbusResponse::ReadResponse {
            message_data: header(4, FunctionCode::ReadWriteMultipleRegisters, 9),
            params: ReadResponseParameters {
                table: ModbusTable::HoldingRegisters,
                values: vec![ModbusDataType::Register(1)],
            },
        },
        ModbusResponse::SingleWriteResponse {
            message_data: header(0xFF, FunctionCode::WriteSingleCoil, 0xFFFF),
            params: SingleWriteResponseParameters {
                table: ModbusTable::Coils,
                address: 0xFFFF,
                value: ModbusDataType::Coil(false),
            },
        },
        ModbusResponse::MultipleWriteResponse {
            message_data: header(1, FunctionCode::WriteMultipleHoldingRegisters, 1),
            params: MultipleWriteResponse {
                table: ModbusTable::HoldingRegisters,
                address: 0,
                ammount: 0xFFFF,
            },
        },
        ModbusResponse::Error {
            message_data: header(0xFF, FunctionCode::ReadWriteMultipleRegisters, 0xFFFF),
            exception_code: ExceptionCode::GatewayTargetDeviceFailedToRespond,
        },
        ModbusResponse::Error {
            message_data: header(1, FunctionCode::Diagnostic, 1),
            exception_code: ExceptionCode::IllegalFunction,
        },
    ]);
}

#[test]
fn coil_responses_come_back_in_whole_bytes() {
    let sent = ModbusResponse::ReadResponse {
        message_data: header(1, FunctionCode::ReadCoils, 1),
        params: ReadResponseParameters {
            table: ModbusTable::Coils,
            values: vec![
                ModbusDataType::Coil(true),
                ModbusDataType::Coil(false),
                ModbusDataType::Coil(true),
            ],
        },
    };
    let bytes = sent.tcp_serialize().unwrap();
    let received = ModbusResponse::tcp_deserialize(bytes).unwrap();
    let mut padded = vec![ModbusDataType::Coil(false); 8];
    padded[0] = ModbusDataType::Coil(true);
    padded[2] = ModbusDataType::Coil(true);
    assert_eq!(
        received,
        vec![ModbusResponse::ReadResponse {
            message_data: header(1, FunctionCode::ReadCoils, 1),
            params: ReadResponseParameters {
                table: ModbusTable::Coils,
                values: padded,
            },
        }]
    );
}

#[test]
fn empty_buffer_holds_no_messages() {
    assert_eq!(ModbusQuery::tcp_deserialize(vec![]), Ok(vec![]));
    assert_eq!(ModbusResponse::tcp_deserialize(vec![]), Ok(vec![]));
}

#[test]
fn unreadable_messages_are_skipped() {
    let good = read_query(1, FunctionCode::ReadCoils, ModbusTable::Coils, 3, 4);
    let mut bytes = vec![];
    // A single coil write whose value is neither 0xFF00 nor 0x0000.
    bytes.extend_from_slice(&[0, 9, 0, 0, 0, 6, 1, 5, 0, 1, 0x12, 0x34]);
    bytes.extend_from_slice(&good.tcp_serialize().unwrap());
    // A read query with one byte too many.
    bytes.extend_from_slice(&[0, 9, 0, 0, 0, 7, 1, 1, 0, 1, 0, 2, 0xEE]);
    // A function that is no query of this library.
    bytes.extend_from_slice(&[0, 9, 0, 0, 0, 2, 1, 8]);
    // A read query that is too short.
    bytes.extend_from_slice(&[0, 9, 0, 0, 0, 4, 1, 3, 0, 1]);
    assert_eq!(ModbusQuery::tcp_deserialize(bytes), Ok(vec![good]));
}

#[test]
fn unreadable_responses_are_skipped() {
    let good = ModbusResponse::Error {
        message_data: header(9, FunctionCode::ReadCoils, 2),
        exception_code: ExceptionCode::ServerDeviceBusy,
    };
    let mut bytes = vec![];
    // An exception code that does not exist.
    bytes.extend_from_slice(&[0, 1, 0, 0, 0, 3, 9, 0x81, 7]);
    // A register payload with an odd byte count.
    bytes.extend_from_slice(&[0, 1, 0, 0, 0, 6, 9, 3, 3, 1, 2, 3]);
    bytes.extend_from_slice(&good.tcp_serialize().unwrap());
    // A single write answer with bytes left over.
    bytes.extend_from_slice(&[0, 1, 0, 0, 0, 7, 9, 6, 0, 1, 0, 2, 3]);
    assert_eq!(ModbusResponse::tcp_deserialize(bytes), Ok(vec![good]));
}

#[test]
fn broken_framing_is_fatal() {
    let good = read_query(1, FunctionCode::ReadCoils, ModbusTable::Coils, 3, 4);
    let frame = good.tcp_serialize().unwrap();

    let mut truncated_header = frame.clone();
    truncated_header.extend_from_slice(&[0, 1, 0]);
    assert_eq!(
        ModbusQuery::tcp_deserialize(truncated_header),
        Err(ModbusError::IncompleteHeader)
    );

    let mut truncated_body = frame.clone();
    truncated_body.extend_from_slice(&[0, 1, 0, 0, 0, 6, 1, 1, 0]);
    assert_eq!(
        ModbusQuery::tcp_deserialize(truncated_body),
        Err(ModbusError::UnexpectedEndOfData)
    );

    let mut unknown_function = frame.clone();
    unknown_function.extend_from_slice(&[0, 1, 0, 0, 0, 2, 1, 99]);
    assert_eq!(
        ModbusQuery::tcp_deserialize(unknown_function),
        Err(ModbusError::UnknownFunctionCode(99))
    );

    let mut no_function = frame.clone();
    no_function.extend_from_slice(&[0, 1, 0, 0, 0, 1, 1]);
    assert_eq!(
        ModbusQuery::tcp_deserialize(no_function),
        Err(ModbusError::UnexpectedEndOfData)
    );

    let mut zero_length = frame;
    zero_length.extend_from_slice(&[0, 1, 0, 0, 0, 0, 1]);
    assert_eq!(
        ModbusQuery::tcp_deserialize(zero_length),
        Err(ModbusError::InvalidLength)
    );
}

#[test]
fn error_bit_marks_an_error_response() {
    assert_eq!(
        ModbusResponse::tcp_deserialize(vec![0, 5, 0, 0, 0, 3, 17, 0x90, 4]),
        Ok(vec![ModbusResponse::Error {
            message_data: header(17, FunctionCode::WriteMultipleHoldingRegisters, 5),
            exception_code: ExceptionCode::ServerDeviceFailure,
        }])
    );
    assert_eq!(
        ModbusResponse::tcp_deserialize(vec![0, 5, 0, 0, 0, 3, 17, 0x80, 4]),
        Err(ModbusError::UnknownFunctionCode(0x80))
    );
    assert_eq!(
        ModbusResponse::tcp_deserialize(vec![0, 5, 0, 0, 0, 3, 17, 0xFF, 4]),
        Err(ModbusError::UnknownFunctionCode(0xFF))
    );
    assert_eq!(
        ModbusResponse::tcp_deserialize(vec![0, 5, 0, 0, 0, 3, 17, 0x63, 4]),
        Err(ModbusError::UnknownFunctionCode(0x63))
    );
}

#[test]
fn every_error_has_a_message() {
    let errors = [
        ModbusError::NotImplemented,
        ModbusError::MissingTransactionId,
        ModbusError::MixedDataTypes,
        ModbusError::NoValues,
        ModbusError::TooManyValues,
        ModbusError::InvalidCoilValue(1),
        ModbusError::IncompleteHeader,
        ModbusError::InvalidLength,
        ModbusError::UnexpectedEndOfData,
        ModbusError::UnknownFunctionCode(99),
        ModbusError::UnknownExceptionCode(99),
        ModbusError::ByteCountMismatch {
            expected: 1,
            got: 2,
        },
        ModbusError::TrailingBytes(1),
        ModbusError::NoTableForFunctionCode,
    ];
    for (i, first) in errors.iter().enumerate() {
        assert!(!first.message().is_empty());
        for second in errors.iter().skip(i + 1) {
            assert_ne!(first.message(), second.message());
        }
    }
    assert_eq!(
        ModbusError::MixedDataTypes.message(),
        "All values in a query must have the same type"
    );
    assert_eq!(
        ModbusError::NoTableForFunctionCode.message(),
        "Function code doesn't address any table"
    );
}
