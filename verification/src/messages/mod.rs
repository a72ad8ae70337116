//! The message model: function codes, exception codes and the header data
//! shared by every query and response.

use vstd::prelude::*;

pub mod query;
pub mod response;

pub use query::ModbusQuery;
pub use response::ModbusResponse;

verus! {

/// The Modbus function codes, plus `NoFunctionCode` for a message whose code
/// has not been read or chosen yet.
#[derive(Clone, Copy, PartialEq, Eq, Debug, Structural)]
pub enum FunctionCode {
    ReadCoils,
    ReadDiscreteInputs,
    ReadMultipleHoldingRegister,
    ReadInputRegisters,
    WriteSingleCoil,
    WriteSingleHoldingRegister,
    ReadExceptionStatus,
    Diagnostic,
    GetCommEventCounter,
    GetCommEventLog,
    WriteMultipleCoils,
    WriteMultipleHoldingRegisters,
    ReportServerID,
    ReadFileRecord,
    WriteFileRecord,
    MaskWriteRegister,
    ReadWriteMultipleRegisters,
    ReadFIFOQueue,
    ReadDeviceIdentification,
    NoFunctionCode,
}

impl FunctionCode {
    /// The byte that stands for this function code on the wire.
    pub open spec fn wire_code(self) -> u8 {
        match self {
            FunctionCode::ReadCoils => 1,
            FunctionCode::ReadDiscreteInputs => 2,
            FunctionCode::ReadMultipleHoldingRegister => 3,
            FunctionCode::ReadInputRegisters => 4,
            FunctionCode::WriteSingleCoil => 5,
            FunctionCode::WriteSingleHoldingRegister => 6,
            FunctionCode::ReadExceptionStatus => 7,
            FunctionCode::Diagnostic => 8,
            FunctionCode::GetCommEventCounter => 11,
            FunctionCode::GetCommEventLog => 12,
            FunctionCode::WriteMultipleCoils => 15,
            FunctionCode::WriteMultipleHoldingRegisters => 16,
            FunctionCode::ReportServerID => 17,
            FunctionCode::ReadFileRecord => 20,
            FunctionCode::WriteFileRecord => 21,
            FunctionCode::MaskWriteRegister => 22,
            FunctionCode::ReadWriteMultipleRegisters => 23,
            FunctionCode::ReadFIFOQueue => 24,
            FunctionCode::ReadDeviceIdentification => 43,
            FunctionCode::NoFunctionCode => 0xFF,
        }
    }

    /// The function code that a wire byte stands for, if any.
    pub open spec fn of_wire_code(raw: u8) -> Option<FunctionCode> {
        if raw == 1 {
            Some(FunctionCode::ReadCoils)
        } else if raw == 2 {
            Some(FunctionCode::ReadDiscreteInputs)
        } else if raw == 3 {
            Some(FunctionCode::ReadMultipleHoldingRegister)
        } else if raw == 4 {
            Some(FunctionCode::ReadInputRegisters)
        } else if raw == 5 {
            Some(FunctionCode::WriteSingleCoil)
        } else if raw == 6 {
            Some(FunctionCode::WriteSingleHoldingRegister)
        } else if raw == 7 {
            Some(FunctionCode::ReadExceptionStatus)
        } else if raw == 8 {
            Some(FunctionCode::Diagnostic)
        } else if raw == 11 {
            Some(FunctionCode::GetCommEventCounter)
        } else if raw == 12 {
            Some(FunctionCode::GetCommEventLog)
        } else if raw == 15 {
            Some(FunctionCode::WriteMultipleCoils)
        } else if raw == 16 {
            Some(FunctionCode::WriteMultipleHoldingRegisters)
        } else if raw == 17 {
            Some(FunctionCode::ReportServerID)
        } else if raw == 20 {
            Some(FunctionCode::ReadFileRecord)
        } else if raw == 21 {
            Some(FunctionCode::WriteFileRecord)
        } else if raw == 22 {
            Some(FunctionCode::MaskWriteRegister)
        } else if raw == 23 {
            Some(FunctionCode::ReadWriteMultipleRegisters)
        } else if raw == 24 {
            Some(FunctionCode::ReadFIFOQueue)
        } else if raw == 43 {
            Some(FunctionCode::ReadDeviceIdentification)
        } else if raw == 0xFF {
            Some(FunctionCode::NoFunctionCode)
        } else {
            None
        }
    }

    /// The wire byte of this function code.
    pub fn code(self) -> (raw: u8)
        ensures
            raw == self.wire_code(),
    {
        match self {
            FunctionCode::ReadCoils => 1,
            FunctionCode::ReadDiscreteInputs => 2,
            FunctionCode::ReadMultipleHoldingRegister => 3,
            FunctionCode::ReadInputRegisters => 4,
            FunctionCode::WriteSingleCoil => 5,
            FunctionCode::WriteSingleHoldingRegister => 6,
            FunctionCode::ReadExceptionStatus => 7,
            FunctionCode::Diagnostic => 8,
            FunctionCode::GetCommEventCounter => 11,
            FunctionCode::GetCommEventLog => 12,
            FunctionCode::WriteMultipleCoils => 15,
            FunctionCode::WriteMultipleHoldingRegisters => 16,
            FunctionCode::ReportServerID => 17,
            FunctionCode::ReadFileRecord => 20,
            FunctionCode::WriteFileRecord => 21,
            FunctionCode::MaskWriteRegister => 22,
            FunctionCode::ReadWriteMultipleRegisters => 23,
            FunctionCode::ReadFIFOQueue => 24,
            FunctionCode::ReadDeviceIdentification => 43,
            FunctionCode::NoFunctionCode => 0xFF,
        }
    }

    /// Reads a function code from its wire byte; `None` for a byte that names none.
    pub fn from_code(raw: u8) -> (code: Option<FunctionCode>)
        ensures
            code == FunctionCode::of_wire_code(raw),
    {
        match raw {
            1 => Some(FunctionCode::ReadCoils),
            2 => Some(FunctionCode::ReadDiscreteInputs),
            3 => Some(FunctionCode::ReadMultipleHoldingRegister),
            4 => Some(FunctionCode::ReadInputRegisters),
            5 => Some(FunctionCode::WriteSingleCoil),
            6 => Some(FunctionCode::WriteSingleHoldingRegister),
            7 => Some(FunctionCode::ReadExceptionStatus),
            8 => Some(FunctionCode::Diagnostic),
            11 => Some(FunctionCode::GetCommEventCounter),
            12 => Some(FunctionCode::GetCommEventLog),
            15 => Some(FunctionCode::WriteMultipleCoils),
            16 => Some(FunctionCode::WriteMultipleHoldingRegisters),
            17 => Some(FunctionCode::ReportServerID),
            20 => Some(FunctionCode::ReadFileRecord),
            21 => Some(FunctionCode::WriteFileRecord),
            22 => Some(FunctionCode::MaskWriteRegister),
            23 => Some(FunctionCode::ReadWriteMultipleRegisters),
            24 => Some(FunctionCode::ReadFIFOQueue),
            43 => Some(FunctionCode::ReadDeviceIdentification),
            0xFF => Some(FunctionCode::NoFunctionCode),
            _ => None,
        }
    }

    /// Every function code is read back from its own wire byte, and a byte
    /// that decodes to a function code is that code's wire byte.
    pub proof fn lemma_code_round_trip(code: FunctionCode, raw: u8)
        ensures
            FunctionCode::of_wire_code(code.wire_code()) == Some(code),
            FunctionCode::of_wire_code(raw) == Some(code) ==> code.wire_code() == raw,
    {
    }
}

/// The Modbus exception codes a device may answer with.
#[derive(Clone, Copy, PartialEq, Eq, Debug, Structural)]
pub enum ExceptionCode {
    IllegalFunction,
    IllegalDataAddress,
    IllegalDataValue,
    ServerDeviceFailure,
    Acknowledge,
    ServerDeviceBusy,
    MemoryParityError,
    GatewayPathUnavailable,
    GatewayTargetDeviceFailedToRespond,
}

impl ExceptionCode {
    /// The byte that stands for this exception code on the wire.
    pub open spec fn wire_code(self) -> u8 {
        match self {
            ExceptionCode::IllegalFunction => 1,
            ExceptionCode::IllegalDataAddress => 2,
            ExceptionCode::IllegalDataValue => 3,
            ExceptionCode::ServerDeviceFailure => 4,
            ExceptionCode::Acknowledge => 5,
            ExceptionCode::ServerDeviceBusy => 6,
            ExceptionCode::MemoryParityError => 8,
            ExceptionCode::GatewayPathUnavailable => 0xA,
            ExceptionCode::GatewayTargetDeviceFailedToRespond => 0xB,
        }
    }

    /// The exception code that a wire byte stands for, if any.
    pub open spec fn of_wire_code(raw: u8) -> Option<ExceptionCode> {
        if raw == 1 {
            Some(ExceptionCode::IllegalFunction)
        } else if raw == 2 {
            Some(ExceptionCode::IllegalDataAddress)
        } else if raw == 3 {
            Some(ExceptionCode::IllegalDataValue)
        } else if raw == 4 {
            Some(ExceptionCode::ServerDeviceFailure)
        } else if raw == 5 {
            Some(ExceptionCode::Acknowledge)
        } else if raw == 6 {
            Some(ExceptionCode::ServerDeviceBusy)
        } else if raw == 8 {
            Some(ExceptionCode::MemoryParityError)
        } else if raw == 0xA {
            Some(ExceptionCode::GatewayPathUnavailable)
        } else if raw == 0xB {
            Some(ExceptionCode::GatewayTargetDeviceFailedToRespond)
        } else {
            None
        }
    }

    /// The wire byte of this exception code.
    pub fn code(self) -> (raw: u8)
        ensures
            raw == self.wire_code(),
    {
        match self {
            ExceptionCode::IllegalFunction => 1,
            ExceptionCode::IllegalDataAddress => 2,
            ExceptionCode::IllegalDataValue => 3,
            ExceptionCode::ServerDeviceFailure => 4,
            ExceptionCode::Acknowledge => 5,
            ExceptionCode::ServerDeviceBusy => 6,
            ExceptionCode::MemoryParityError => 8,
            ExceptionCode::GatewayPathUnavailable => 0xA,
            ExceptionCode::GatewayTargetDeviceFailedToRespond => 0xB,
        }
    }

    /// Reads an exception code from its wire byte; `None` for a byte that names none.
    pub fn from_code(raw: u8) -> (code: Option<ExceptionCode>)
        ensures
            code == ExceptionCode::of_wire_code(raw),
    {
        match raw {
            1 => Some(ExceptionCode::IllegalFunction),
            2 => Some(ExceptionCode::IllegalDataAddress),
            3 => Some(ExceptionCode::IllegalDataValue),
            4 => Some(ExceptionCode::ServerDeviceFailure),
            5 => Some(ExceptionCode::Acknowledge),
            6 => Some(ExceptionCode::ServerDeviceBusy),
            8 => Some(ExceptionCode::MemoryParityError),
            0xA => Some(ExceptionCode::GatewayPathUnavailable),
            0xB => Some(ExceptionCode::GatewayTargetDeviceFailedToRespond),
            _ => None,
        }
    }

    /// Every exception code is read back from its own wire byte, and a byte
    /// that decodes to an exception code is that code's wire byte.
    pub proof fn lemma_code_round_trip(code: ExceptionCode, raw: u8)
        ensures
            ExceptionCode::of_wire_code(code.wire_code()) == Some(code),
            ExceptionCode::of_wire_code(raw) == Some(code) ==> code.wire_code() == raw,
    {
    }
}

/// What every message carries besides its function-specific parameters.
///
/// A query is built without a transaction id; the master assigns one just
/// before sending. A decoded message carries the id that came on the wire.
#[derive(Clone, Copy, PartialEq, Eq, Debug)]
pub struct ModbusMessageData {
    pub slave_id: u8,
    pub function_code: FunctionCode,
    pub transaction_id: Option<u16>,
}

} // verus!
