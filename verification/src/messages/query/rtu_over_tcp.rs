//! A query in the serial framing over TCP, which this library does not speak
//! yet.

use vstd::prelude::*;
use crate::codec::rtu_over_tcp::ModbusRtuOverTcpSerialize;
use crate::error::ModbusError;
use crate::messages::query::QueryModel;
use crate::messages::ModbusQuery;

verus! {

impl ModbusRtuOverTcpSerialize for ModbusQuery {
    open spec fn rtu_over_tcp_frame(&self) -> Result<Seq<u8>, ModbusError> {
        Err(ModbusError::NotImplemented)
    }

    open spec fn rtu_over_tcp_messages(data: Seq<u8>) -> Result<Seq<QueryModel>, ModbusError> {
        Err(ModbusError::NotImplemented)
    }

    fn rtu_over_tcp_deserialize(_data: Vec<u8>) -> (messages: Result<Vec<Self>, ModbusError>) {
        Err(ModbusError::NotImplemented)
    }

    fn rtu_over_tcp_serialize(&self) -> (bytes: Result<Vec<u8>, ModbusError>) {
        Err(ModbusError::NotImplemented)
    }
}

} // verus!
