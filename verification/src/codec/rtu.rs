//! The serial (RTU) framing.

use vstd::prelude::*;
use crate::error::ModbusError;

verus! {

/// A message type with a Modbus RTU wire form.
pub trait ModbusRtuSerialize: Sized + View {
    /// The frame that carries this message, or the reason it has none.
    spec fn rtu_frame(&self) -> Result<Seq<u8>, ModbusError>;

    /// The messages that a buffer of frames decodes to, or the reason the
    /// buffer is refused.
    spec fn rtu_messages(data: Seq<u8>) -> Result<Seq<Self::V>, ModbusError>;

    /// Encodes the message as one frame.
    fn rtu_serialize(&self) -> (bytes: Result<Vec<u8>, ModbusError>)
        ensures
            match bytes {
                Ok(bytes) => self.rtu_frame() == Ok::<Seq<u8>, ModbusError>(bytes@),
                Err(error) => self.rtu_frame() == Err::<Seq<u8>, ModbusError>(error),
            },
    ;

    /// Decodes every message in a buffer of frames.
    fn rtu_deserialize(data: Vec<u8>) -> (messages: Result<Vec<Self>, ModbusError>)
        ensures
            match messages {
                Ok(messages) => Self::rtu_messages(data@) == Ok::<Seq<Self::V>, ModbusError>(
                    crate::codec::views(messages@),
                ),
                Err(error) => Self::rtu_messages(data@) == Err::<Seq<Self::V>, ModbusError>(error),
            },
    ;
}

} // verus!
