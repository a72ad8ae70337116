use modbus_engine::codec::ModbusSerialize;
use modbus_engine::common::{ModbusDataType, ModbusSubprotocol, ModbusTable};
use modbus_engine::messages::response::{
    MultipleWriteResponse, ReadResponseParameters, SingleWriteResponseParameters,
};
use modbus_engine::messages::{FunctionCode, ModbusMessageData, ModbusResponse};

fn test_response_serialization(input: Vec<ModbusResponse>) {
    let mut bytes = vec![];
    for input in input.clone() {
        let query_bytes = input.serialize(ModbusSubprotocol::ModbusTCP).unwrap();
        bytes.extend_from_slice(&query_bytes);
    }

    let output = ModbusResponse::deserialize(bytes, ModbusSubprotocol::ModbusTCP).unwrap();

    println!("{:?}", input);
    assert_eq!(input, output);
}

#[test]
fn test_serialization_deserialization_single_write_response() {
    let input = vec![
        ModbusResponse::SingleWriteResponse {
            message_data: ModbusMessageData {
                slave_id: 3,
                function_code: FunctionCode::WriteSingleCoil,
                transaction_id: Some(1),
            },
            params: SingleWriteResponseParameters {
                table: ModbusTable::Coils,
                address: 0x8000,
                value: ModbusDataType::Coil(true),
            },
        },
        ModbusResponse::SingleWriteResponse {
            message_data: ModbusMessageData {
                slave_id: 3,
                function_code: FunctionCode::WriteSingleHoldingRegister,
                transaction_id: Some(1),
            },
            params: SingleWriteResponseParameters {
                table: ModbusTable::HoldingRegisters,
                address: 0x6000,
                value: ModbusDataType::Register(0x20),
            },
        },
    ];

    test_response_serialization(input);
}

#[test]
fn test_serialization_deserialization_multiple_write_response() {
    let input = vec![
        ModbusResponse::MultipleWriteResponse {
            message_data: ModbusMessageData {
                slave_id: 33,
                function_code: FunctionCode::WriteMultipleHoldingRegisters,
                transaction_id: Some(23),
            },
            params: MultipleWriteResponse {
                table: ModbusTable::HoldingRegisters,
                address: 0x3030,
                ammount: 30,
            },
        },
        ModbusResponse::MultipleWriteResponse {
            message_data: ModbusMessageData {
                slave_id: 29,
                function_code: FunctionCode::WriteMultipleCoils,
                transaction_id: Some(9093),
            },
            params: MultipleWriteResponse {
                table: ModbusTable::Coils,
                address: 0x5555,
                ammount: 6,
            },
        },
    ];

    test_response_serialization(input);
}

#[test]
fn test_serialization_deserialization_read_response() {
    let input = vec![ModbusResponse::ReadResponse {
        message_data: ModbusMessageData {
            slave_id: 89,
            function_code: FunctionCode::ReadCoils,
            transaction_id: Some(34),
        },
        params: ReadResponseParameters {
            table: ModbusTable::Coils,
            values: vec![
                ModbusDataType::Coil(true),
                ModbusDataType::Coil(false),
                ModbusDataType::Coil(true),
                ModbusDataType::Coil(false),
                ModbusDataType::Coil(true),
                ModbusDataType::Coil(false),
                ModbusDataType::Coil(true),
                ModbusDataType::Coil(false),
            ],
        },
    }];

    test_response_serialization(input);
}
