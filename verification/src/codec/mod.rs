//! The wire codec: messages to bytes and back, per subprotocol.

use vstd::prelude::*;
use crate::common::ModbusSubprotocol;
use crate::error::ModbusError;

pub mod cursor;
pub mod rtu;
pub mod rtu_over_tcp;
pub mod tcp;
pub mod utils;

use rtu::ModbusRtuSerialize;
use rtu_over_tcp::ModbusRtuOverTcpSerialize;
use tcp::ModbusTcpSerialize;

verus! {

/// The messages of `list`, each as a mathematical value.
pub open spec fn views<T: View>(list: Seq<T>) -> Seq<T::V> {
    Seq::new(list.len(), |i: int| list[i]@)
}

/// A message type that can travel in every subprotocol.
pub trait ModbusSerialize: ModbusRtuOverTcpSerialize + ModbusTcpSerialize + ModbusRtuSerialize {
    /// Encodes the message in the framing of `subprotocol`.
    fn serialize(&self, subprotocol: ModbusSubprotocol) -> (bytes: Result<Vec<u8>, ModbusError>)
        ensures
            ({
                let frame = match subprotocol {
                    ModbusSubprotocol::ModbusTCP => self.tcp_frame(),
                    ModbusSubprotocol::ModbusRTU => self.rtu_frame(),
                    ModbusSubprotocol::ModbusRTUOverTCP => self.rtu_over_tcp_frame(),
                };
                match bytes {
                    Ok(bytes) => frame == Ok::<Seq<u8>, ModbusError>(bytes@),
                    Err(error) => frame == Err::<Seq<u8>, ModbusError>(error),
                }
            }),
    {
        match subprotocol {
            ModbusSubprotocol::ModbusTCP => self.tcp_serialize(),
            ModbusSubprotocol::ModbusRTU => self.rtu_serialize(),
            ModbusSubprotocol::ModbusRTUOverTCP => self.rtu_over_tcp_serialize(),
        }
    }

    /// Decodes every message in a buffer that is framed as `subprotocol`
    /// says.
    fn deserialize(data: Vec<u8>, subprotocol: ModbusSubprotocol) -> (messages: Result<
        Vec<Self>,
        ModbusError,
    >)
        ensures
            ({
                let decoded = match subprotocol {
                    ModbusSubprotocol::ModbusTCP => Self::tcp_messages(data@),
                    ModbusSubprotocol::ModbusRTU => Self::rtu_messages(data@),
                    ModbusSubprotocol::ModbusRTUOverTCP => Self::rtu_over_tcp_messages(data@),
                };
                match messages {
                    Ok(messages) => decoded == Ok::<Seq<<Self as View>::V>, ModbusError>(
                        views(messages@),
                    ),
                    Err(error) => decoded == Err::<Seq<<Self as View>::V>, ModbusError>(error),
                }
            }),
    {
        match subprotocol {
            ModbusSubprotocol::ModbusTCP => Self::tcp_deserialize(data),
            ModbusSubprotocol::ModbusRTU => Self::rtu_deserialize(data),
            ModbusSubprotocol::ModbusRTUOverTCP => Self::rtu_over_tcp_deserialize(data),
        }
    }
}

} // verus!
