//! Modbus protocol engine: typed messages, the Modbus/TCP wire codec, the
//! master's transaction bookkeeping and the slave's query dispatch.

pub mod codec;
pub mod common;
pub mod error;
pub mod master;
pub mod messages;
pub mod slave;

pub use master::ModbusMasterConnection;
pub use master::ModbusResultMap;

pub use slave::ModbusSlaveConnection;
pub use slave::ModbusSlaveConnectionContext;
pub use slave::ModbusSlaveConnectionParameters;

pub use common::ModbusAddress;
pub use common::ModbusDataType;
pub use common::ModbusResult;
pub use common::ModbusTable;
pub use error::ModbusError;
pub use messages::ExceptionCode;
