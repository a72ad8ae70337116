//! Responses: what a slave answers.

use vstd::prelude::*;
use crate::codec::utils::{values_bytes, values_fit_table};
use crate::common::{ModbusDataType, ModbusTable};
use crate::messages::{ExceptionCode, FunctionCode, ModbusMessageData};

pub mod rtu;
pub mod rtu_over_tcp;
pub mod tcp;

verus! {

/// What a read answers: the values, in address order.
#[derive(Clone, PartialEq, Eq, Debug)]
pub struct ReadResponseParameters {
    pub table: ModbusTable,
    pub values: Vec<ModbusDataType>,
}

/// What a single write answers: the address and value that were written.
#[derive(Clone, Copy, PartialEq, Eq, Debug)]
pub struct SingleWriteResponseParameters {
    pub table: ModbusTable,
    pub address: u16,
    pub value: ModbusDataType,
}

/// What a write of several values answers: where it started and how many
/// values were written.
#[derive(Clone, Copy, PartialEq, Eq, Debug)]
pub struct MultipleWriteResponse {
    pub table: ModbusTable,
    pub address: u16,
    pub ammount: u16,
}

/// A response, in one of its four shapes.
#[allow(inconsistent_fields)]
#[derive(Clone, PartialEq, Eq, Debug)]
pub enum ModbusResponse {
    ReadResponse { message_data: ModbusMessageData, params: ReadResponseParameters },
    SingleWriteResponse { message_data: ModbusMessageData, params: SingleWriteResponseParameters },
    MultipleWriteResponse { message_data: ModbusMessageData, params: MultipleWriteResponse },
    Error { message_data: ModbusMessageData, exception_code: ExceptionCode },
}

/// A response as a mathematical value: the value list is a sequence.
pub enum ResponseModel {
    Read { message_data: ModbusMessageData, table: ModbusTable, values: Seq<ModbusDataType> },
    SingleWrite {
        message_data: ModbusMessageData,
        table: ModbusTable,
        address: u16,
        value: ModbusDataType,
    },
    MultipleWrite {
        message_data: ModbusMessageData,
        table: ModbusTable,
        address: u16,
        ammount: u16,
    },
    Error { message_data: ModbusMessageData, exception_code: ExceptionCode },
}

impl ResponseModel {
    /// Whether the parts of the response agree with each other: the
    /// function code is one of the response's kind, the table is the
    /// function code's, and the values are of the table's kind. An error
    /// answers a function whose code leaves the top bit free.
    pub open spec fn well_formed(self) -> bool {
        let function_code = self.message_data().function_code;
        match self {
            ResponseModel::Read { table, values, .. } => {
                &&& function_code == FunctionCode::ReadCoils || function_code
                    == FunctionCode::ReadDiscreteInputs || function_code
                    == FunctionCode::ReadInputRegisters || function_code
                    == FunctionCode::ReadMultipleHoldingRegister || function_code
                    == FunctionCode::ReadWriteMultipleRegisters
                &&& ModbusTable::of_function_code(function_code) == Some(table)
                &&& values_fit_table(values, table)
            },
            ResponseModel::SingleWrite { table, value, .. } => {
                &&& function_code == FunctionCode::WriteSingleCoil || function_code
                    == FunctionCode::WriteSingleHoldingRegister
                &&& ModbusTable::of_function_code(function_code) == Some(table)
                &&& value is Coil <==> table.holds_bits()
            },
            ResponseModel::MultipleWrite { table, .. } => {
                &&& function_code == FunctionCode::WriteMultipleCoils || function_code
                    == FunctionCode::WriteMultipleHoldingRegisters
                &&& ModbusTable::of_function_code(function_code) == Some(table)
            },
            ResponseModel::Error { .. } => function_code != FunctionCode::NoFunctionCode,
        }
    }

    /// Whether the response can be sent: it has a transaction id, and the
    /// values it carries, if it carries any, have a wire form.
    pub open spec fn sendable(self) -> bool {
        &&& self.message_data().transaction_id is Some
        &&& match self {
            ResponseModel::Read { values, .. } => values_bytes(values) is Ok,
            _ => true,
        }
    }

    /// Whether the reader can tell how many values the response carries.
    /// The count is not sent; the reader takes eight coils for every payload
    /// byte, so a list of coils is read back as it was only where its length
    /// is a multiple of eight.
    pub open spec fn count_is_recoverable(self) -> bool {
        match self {
            ResponseModel::Read { table, values, .. } => table.holds_bits() ==> values.len() % 8
                == 0,
            _ => true,
        }
    }

    /// The header data of the response.
    pub open spec fn message_data(self) -> ModbusMessageData {
        match self {
            ResponseModel::Read { message_data, .. } => message_data,
            ResponseModel::SingleWrite { message_data, .. } => message_data,
            ResponseModel::MultipleWrite { message_data, .. } => message_data,
            ResponseModel::Error { message_data, .. } => message_data,
        }
    }
}

impl View for ModbusResponse {
    type V = ResponseModel;

    open spec fn view(&self) -> ResponseModel {
        match *self {
            ModbusResponse::ReadResponse { message_data, params } => ResponseModel::Read {
                message_data,
                table: params.table,
                values: params.values@,
            },
            ModbusResponse::SingleWriteResponse {
                message_data,
                params,
            } => ResponseModel::SingleWrite {
                message_data,
                table: params.table,
                address: params.address,
                value: params.value,
            },
            ModbusResponse::MultipleWriteResponse {
                message_data,
                params,
            } => ResponseModel::MultipleWrite {
                message_data,
                table: params.table,
                address: params.address,
                ammount: params.ammount,
            },
            ModbusResponse::Error { message_data, exception_code } => ResponseModel::Error {
                message_data,
                exception_code,
            },
        }
    }
}

impl ModbusResponse {
    /// The header data of the response.
    pub fn get_message_data(&self) -> (message_data: &ModbusMessageData)
        ensures
            *message_data == self@.message_data(),
    {
        match self {
            ModbusResponse::ReadResponse { message_data, params: _params } => message_data,
            ModbusResponse::SingleWriteResponse { message_data, params: _params } => message_data,
            ModbusResponse::MultipleWriteResponse { message_data, params: _params } => message_data,
            ModbusResponse::Error {
                message_data,
                exception_code: _exception_code,
            } => message_data,
        }
    }
}

} // verus!
