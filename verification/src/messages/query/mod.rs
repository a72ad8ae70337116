//! Queries: what a master asks of a slave.

use vstd::prelude::*;
use crate::codec::utils::{values_bytes, values_fit_table};
use crate::common::{ModbusDataType, ModbusTable};
use crate::messages::{FunctionCode, ModbusMessageData};

pub mod rtu;
pub mod rtu_over_tcp;
pub mod tcp;

verus! {

/// What a read asks for: `ammount` values from `starting_address` on.
#[derive(Clone, Copy, PartialEq, Eq, Debug)]
pub struct ReadQueryParameters {
    pub table: ModbusTable,
    pub starting_address: u16,
    pub ammount: u16,
}

/// What a single write asks for: `value` stored at `starting_address`.
#[derive(Clone, Copy, PartialEq, Eq, Debug)]
pub struct SingleWriteQueryParameters {
    pub table: ModbusTable,
    pub starting_address: u16,
    pub value: ModbusDataType,
}

/// What a write of several values asks for: `values` stored from
/// `starting_address` on.
#[derive(Clone, PartialEq, Eq, Debug)]
pub struct MultipleWriteQueryParameters {
    pub table: ModbusTable,
    pub starting_address: u16,
    pub values: Vec<ModbusDataType>,
}

/// What a combined write and read asks for: `values` stored from
/// `write_starting_address` on, then `read_ammount` values read from
/// `read_starting_address` on.
#[derive(Clone, PartialEq, Eq, Debug)]
pub struct MultipleReadWriteQueryParameters {
    pub table: ModbusTable,
    pub read_starting_address: u16,
    pub read_ammount: u16,
    pub write_starting_address: u16,
    pub values: Vec<ModbusDataType>,
}

/// A query, in one of its four shapes.
#[allow(inconsistent_fields)]
#[derive(Clone, PartialEq, Eq, Debug)]
pub enum ModbusQuery {
    ReadQuery { message_data: ModbusMessageData, params: ReadQueryParameters },
    SingleWriteQuery { message_data: ModbusMessageData, params: SingleWriteQueryParameters },
    MultipleWriteQuery { message_data: ModbusMessageData, params: MultipleWriteQueryParameters },
    MultipleReadWriteQuery {
        message_data: ModbusMessageData,
        params: MultipleReadWriteQueryParameters,
    },
}

/// A query as a mathematical value: the value lists are sequences.
pub enum QueryModel {
    Read { message_data: ModbusMessageData, table: ModbusTable, starting_address: u16, ammount: u16 },
    SingleWrite {
        message_data: ModbusMessageData,
        table: ModbusTable,
        starting_address: u16,
        value: ModbusDataType,
    },
    MultipleWrite {
        message_data: ModbusMessageData,
        table: ModbusTable,
        starting_address: u16,
        values: Seq<ModbusDataType>,
    },
    MultipleReadWrite {
        message_data: ModbusMessageData,
        table: ModbusTable,
        read_starting_address: u16,
        read_ammount: u16,
        write_starting_address: u16,
        values: Seq<ModbusDataType>,
    },
}

impl QueryModel {
    /// The header data of the query.
    pub open spec fn message_data(self) -> ModbusMessageData {
        match self {
            QueryModel::Read { message_data, .. } => message_data,
            QueryModel::SingleWrite { message_data, .. } => message_data,
            QueryModel::MultipleWrite { message_data, .. } => message_data,
            QueryModel::MultipleReadWrite { message_data, .. } => message_data,
        }
    }

    /// Whether the parts of the query agree with each other: the function
    /// code is one of the query's kind, the table is the function code's,
    /// and the values written are of the table's kind.
    pub open spec fn well_formed(self) -> bool {
        let function_code = self.message_data().function_code;
        match self {
            QueryModel::Read { table, .. } => {
                &&& function_code == FunctionCode::ReadCoils || function_code
                    == FunctionCode::ReadDiscreteInputs || function_code
                    == FunctionCode::ReadInputRegisters || function_code
                    == FunctionCode::ReadMultipleHoldingRegister
                &&& ModbusTable::of_function_code(function_code) == Some(table)
            },
            QueryModel::SingleWrite { table, value, .. } => {
                &&& function_code == FunctionCode::WriteSingleCoil || function_code
                    == FunctionCode::WriteSingleHoldingRegister
                &&& ModbusTable::of_function_code(function_code) == Some(table)
                &&& value is Coil <==> table.holds_bits()
            },
            QueryModel::MultipleWrite { table, values, .. } => {
                &&& function_code == FunctionCode::WriteMultipleCoils || function_code
                    == FunctionCode::WriteMultipleHoldingRegisters
                &&& ModbusTable::of_function_code(function_code) == Some(table)
                &&& values_fit_table(values, table)
            },
            QueryModel::MultipleReadWrite { table, values, .. } => {
                &&& function_code == FunctionCode::ReadWriteMultipleRegisters
                &&& ModbusTable::of_function_code(function_code) == Some(table)
                &&& values_fit_table(values, table)
            },
        }
    }

    /// Whether the query can be sent: it has a transaction id, and the
    /// values it writes, if it writes several, have a wire form.
    pub open spec fn sendable(self) -> bool {
        &&& self.message_data().transaction_id is Some
        &&& match self {
            QueryModel::MultipleWrite { values, .. } => values_bytes(values) is Ok,
            QueryModel::MultipleReadWrite { values, .. } => values_bytes(values) is Ok,
            _ => true,
        }
    }

    /// The table that the query works on.
    pub open spec fn table(self) -> ModbusTable {
        match self {
            QueryModel::Read { table, .. } => table,
            QueryModel::SingleWrite { table, .. } => table,
            QueryModel::MultipleWrite { table, .. } => table,
            QueryModel::MultipleReadWrite { table, .. } => table,
        }
    }

    /// The same query with another transaction id.
    pub open spec fn with_transaction_id(self, transaction_id: Option<u16>) -> QueryModel {
        match self {
            QueryModel::Read { message_data, table, starting_address, ammount } => QueryModel::Read {
                message_data: ModbusMessageData { transaction_id, ..message_data },
                table,
                starting_address,
                ammount,
            },
            QueryModel::SingleWrite {
                message_data,
                table,
                starting_address,
                value,
            } => QueryModel::SingleWrite {
                message_data: ModbusMessageData { transaction_id, ..message_data },
                table,
                starting_address,
                value,
            },
            QueryModel::MultipleWrite {
                message_data,
                table,
                starting_address,
                values,
            } => QueryModel::MultipleWrite {
                message_data: ModbusMessageData { transaction_id, ..message_data },
                table,
                starting_address,
                values,
            },
            QueryModel::MultipleReadWrite {
                message_data,
                table,
                read_starting_address,
                read_ammount,
                write_starting_address,
                values,
            } => QueryModel::MultipleReadWrite {
                message_data: ModbusMessageData { transaction_id, ..message_data },
                table,
                read_starting_address,
                read_ammount,
                write_starting_address,
                values,
            },
        }
    }
}

impl View for ModbusQuery {
    type V = QueryModel;

    open spec fn view(&self) -> QueryModel {
        match *self {
            ModbusQuery::ReadQuery { message_data, params } => QueryModel::Read {
                message_data,
                table: params.table,
                starting_address: params.starting_address,
                ammount: params.ammount,
            },
            ModbusQuery::SingleWriteQuery { message_data, params } => QueryModel::SingleWrite {
                message_data,
                table: params.table,
                starting_address: params.starting_address,
                value: params.value,
            },
            ModbusQuery::MultipleWriteQuery { message_data, params } => QueryModel::MultipleWrite {
                message_data,
                table: params.table,
                starting_address: params.starting_address,
                values: params.values@,
            },
            ModbusQuery::MultipleReadWriteQuery {
                message_data,
                params,
            } => QueryModel::MultipleReadWrite {
                message_data,
                table: params.table,
                read_starting_address: params.read_starting_address,
                read_ammount: params.read_ammount,
                write_starting_address: params.write_starting_address,
                values: params.values@,
            },
        }
    }
}

impl ModbusQuery {
    /// The header data of the query.
    pub fn get_message_data(&self) -> (message_data: &ModbusMessageData)
        ensures
            *message_data == self@.message_data(),
    {
        match self {
            ModbusQuery::ReadQuery { message_data, params: _params } => message_data,
            ModbusQuery::SingleWriteQuery { message_data, params: _params } => message_data,
            ModbusQuery::MultipleWriteQuery { message_data, params: _params } => message_data,
            ModbusQuery::MultipleReadWriteQuery { message_data, params: _params } => message_data,
        }
    }

    /// Stamps the query with a transaction id, leaving everything else as it is.
    pub fn set_transaction_id(&mut self, transaction_id: Option<u16>)
        ensures
            final(self)@ == old(self)@.with_transaction_id(transaction_id),
    {
        match self {
            ModbusQuery::ReadQuery { message_data, params: _params } => {
                message_data.transaction_id = transaction_id;
            },
            ModbusQuery::SingleWriteQuery { message_data, params: _params } => {
                message_data.transaction_id = transaction_id;
            },
            ModbusQuery::MultipleWriteQuery { message_data, params: _params } => {
                message_data.transaction_id = transaction_id;
            },
            ModbusQuery::MultipleReadWriteQuery { message_data, params: _params } => {
                message_data.transaction_id = transaction_id;
            },
        }
    }
}

} // verus!
