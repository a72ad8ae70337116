//! A response in the serial framing over TCP, which this library does not speak
//! yet.

use vstd::prelude::*;
use crate::codec::rtu_over_tcp::ModbusRtuOverTcpSerialize;
use crate::error::ModbusError;
use crate::messages::response::ResponseModel;
use crate::messages::ModbusResponse;

verus! {

impl ModbusRtuOverTcpSerialize for ModbusResponse {
    open spec fn rtu_over_tcp_frame(&self) -> Result<Seq<u8>, ModbusError> {
        Err(ModbusError::NotImplemented)
    }

    open spec fn rtu_over_tcp_messages(data: Seq<u8>) -> Result<Seq<ResponseModel>, ModbusError> {
        Err(ModbusError::NotImplemented)
    }

    fn rtu_over_tcp_deserialize(_data: Vec<u8>) -> (messages: Result<Vec<Self>, ModbusError>) {
        Err(ModbusError::NotImplemented)
    }

    fn rtu_over_tcp_serialize(&self) -> (bytes: Result<Vec<u8>, ModbusError>) {
        Err(ModbusError::NotImplemented)
    }
}

} // verus!
