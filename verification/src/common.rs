//! Values, tables, addresses and results: the vocabulary shared by the codec
//! and both engines.

use vstd::prelude::*;
use core::cmp::Ordering;
use crate::error::ModbusError;
use crate::messages::{ExceptionCode, FunctionCode};

verus! {

/// The place of a value in its table.
pub type Address = u16;

/// The unit id of a device.
pub type SlaveId = u8;

/// One Modbus value: a single-bit coil or a 16-bit register.
#[derive(Clone, Copy, PartialEq, Eq, Debug, Structural)]
pub enum ModbusDataType {
    Coil(bool),
    Register(u16),
}

impl ModbusDataType {
    /// The 16-bit word that stands for this value where a single value is
    /// sent: `0xFF00` and `0x0000` for a coil that is on and off, the register
    /// itself otherwise.
    pub open spec fn representation(self) -> u16 {
        match self {
            ModbusDataType::Coil(value) => if value {
                0xFF00
            } else {
                0x0000
            },
            ModbusDataType::Register(value) => value,
        }
    }

    /// The coil that a 16-bit word stands for, or the reason it stands for none.
    pub open spec fn coil_of_representation(raw_value: u16) -> Result<ModbusDataType, ModbusError> {
        if raw_value == 0xFF00 {
            Ok(ModbusDataType::Coil(true))
        } else if raw_value == 0x0000 {
            Ok(ModbusDataType::Coil(false))
        } else {
            Err(ModbusError::InvalidCoilValue(raw_value))
        }
    }

    /// The 16-bit word that stands for this value where a single value is sent.
    pub fn get_representation(&self) -> (raw_value: u16)
        ensures
            raw_value == self.representation(),
    {
        match self {
            ModbusDataType::Coil(value) => {
                if *value {
                    0xFF00
                } else {
                    0x0000
                }
            },
            ModbusDataType::Register(value) => *value,
        }
    }

    /// Reads a coil from its 16-bit word. Fails for a word that is neither
    /// `0xFF00` nor `0x0000`.
    pub fn coil_from_representation(raw_value: u16) -> (coil: Result<Self, ModbusError>)
        ensures
            coil == Self::coil_of_representation(raw_value),
    {
        match raw_value {
            0xFF00 => Ok(ModbusDataType::Coil(true)),
            0x0000 => Ok(ModbusDataType::Coil(false)),
            _ => Err(ModbusError::InvalidCoilValue(raw_value)),
        }
    }
}

/// The framings a Modbus message can travel in.
#[derive(Clone, Copy, Debug, PartialEq, Eq, Structural)]
pub enum ModbusSubprotocol {
    ModbusTCP,
    ModbusRTU,
    ModbusRTUOverTCP,
}

/// What the master reports for one address.
#[derive(Clone, Copy, Debug, PartialEq, Eq, Structural)]
pub enum ModbusResult {
    Error(ExceptionCode),
    ReadResult(ModbusDataType),
    WriteConfirmation,
}

/// The four Modbus address spaces.
#[derive(Clone, Copy, PartialEq, Debug, Eq, Hash, PartialOrd, Ord, Structural)]
pub enum ModbusTable {
    DiscreteInput,
    Coils,
    InputRegisters,
    HoldingRegisters,
}

impl ModbusTable {
    /// The table that a function code works on; `None` for a code outside the
    /// read and write families.
    pub open spec fn of_function_code(function_code: FunctionCode) -> Option<ModbusTable> {
        match function_code {
            FunctionCode::WriteSingleCoil
            | FunctionCode::ReadCoils
            | FunctionCode::WriteMultipleCoils => Some(ModbusTable::Coils),
            FunctionCode::WriteSingleHoldingRegister
            | FunctionCode::ReadMultipleHoldingRegister
            | FunctionCode::WriteMultipleHoldingRegisters
            | FunctionCode::ReadWriteMultipleRegisters => Some(ModbusTable::HoldingRegisters),
            FunctionCode::ReadInputRegisters => Some(ModbusTable::InputRegisters),
            FunctionCode::ReadDiscreteInputs => Some(ModbusTable::DiscreteInput),
            _ => None,
        }
    }

    /// Whether the table holds single bits rather than 16-bit registers.
    pub open spec fn holds_bits(self) -> bool {
        self == ModbusTable::Coils || self == ModbusTable::DiscreteInput
    }

    /// The table's position in the order of tables, from 1 to 4.
    pub open spec fn rank(self) -> int {
        match self {
            ModbusTable::DiscreteInput => 1,
            ModbusTable::Coils => 2,
            ModbusTable::InputRegisters => 3,
            ModbusTable::HoldingRegisters => 4,
        }
    }

    /// The table with the given rank; `None` for a number outside 1 to 4.
    pub open spec fn of_rank(rank: int) -> Option<ModbusTable> {
        if rank == 1 {
            Some(ModbusTable::DiscreteInput)
        } else if rank == 2 {
            Some(ModbusTable::Coils)
        } else if rank == 3 {
            Some(ModbusTable::InputRegisters)
        } else if rank == 4 {
            Some(ModbusTable::HoldingRegisters)
        } else {
            None
        }
    }

    /// The table that a function code works on, if it works on one.
    pub fn get_table_from_function_code(function_code: FunctionCode) -> (table: Option<
        ModbusTable,
    >)
        ensures
            table == Self::of_function_code(function_code),
    {
        match function_code {
            FunctionCode::WriteSingleCoil
            | FunctionCode::ReadCoils
            | FunctionCode::WriteMultipleCoils => Some(ModbusTable::Coils),
            FunctionCode::WriteSingleHoldingRegister
            | FunctionCode::ReadMultipleHoldingRegister
            | FunctionCode::WriteMultipleHoldingRegisters
            | FunctionCode::ReadWriteMultipleRegisters => Some(ModbusTable::HoldingRegisters),
            FunctionCode::ReadInputRegisters => Some(ModbusTable::InputRegisters),
            FunctionCode::ReadDiscreteInputs => Some(ModbusTable::DiscreteInput),
            _ => None,
        }
    }

    /// The table's position in the order of tables.
    pub fn position(&self) -> (rank: u8)
        ensures
            rank == self.rank(),
    {
        match self {
            ModbusTable::DiscreteInput => 1,
            ModbusTable::Coils => 2,
            ModbusTable::InputRegisters => 3,
            ModbusTable::HoldingRegisters => 4,
        }
    }

    /// True for the two tables whose values are coils.
    pub fn is_bit_table(&self) -> (bits: bool)
        ensures
            bits == self.holds_bits(),
    {
        match self {
            ModbusTable::Coils | ModbusTable::DiscreteInput => true,
            ModbusTable::InputRegisters | ModbusTable::HoldingRegisters => false,
        }
    }
}

/// One addressable value of one device: the key of every result map.
///
/// Addresses are ordered by slave id, then by table, then by address.
#[derive(Clone, Copy, Debug, PartialEq, Eq, Hash, Ord, Structural)]
pub struct ModbusAddress {
    pub slave_id: SlaveId,
    pub table: ModbusTable,
    pub address: Address,
}

impl ModbusAddress {
    /// The address as one number: slave id, table rank and address, most
    /// significant first. Distinct addresses have distinct keys.
    pub open spec fn key(self) -> int {
        self.slave_id as int * 0x100_0000 + self.table.rank() * 0x1_0000 + self.address as int
    }

    /// The address that a key stands for; `None` for a number that is no key.
    pub open spec fn of_key(key: int) -> Option<ModbusAddress> {
        if 0 <= key < 0x1_0000_0000 {
            match ModbusTable::of_rank((key / 0x1_0000) % 0x100) {
                Some(table) => Some(
                    ModbusAddress {
                        slave_id: (key / 0x100_0000) as u8,
                        table,
                        address: (key % 0x1_0000) as u16,
                    },
                ),
                None => None,
            }
        } else {
            None
        }
    }

    /// Lexicographic order by slave id, then table, then address.
    pub open spec fn precedes(self, other: ModbusAddress) -> bool {
        self.slave_id < other.slave_id || (self.slave_id == other.slave_id && (self.table.rank()
            < other.table.rank() || (self.table == other.table && self.address < other.address)))
    }

    /// The key of this address.
    pub fn to_key(&self) -> (key: u32)
        ensures
            key as int == self.key(),
    {
        let rank: u32 = self.table.position() as u32;
        (self.slave_id as u32) * 0x100_0000 + rank * 0x1_0000 + self.address as u32
    }

    /// Reads an address back from a key.
    pub fn from_key(key: u32) -> (address: Option<ModbusAddress>)
        ensures
            address == Self::of_key(key as int),
    {
        let rank: u32 = (key / 0x1_0000) % 0x100;
        let table = if rank == 1 {
            ModbusTable::DiscreteInput
        } else if rank == 2 {
            ModbusTable::Coils
        } else if rank == 3 {
            ModbusTable::InputRegisters
        } else if rank == 4 {
            ModbusTable::HoldingRegisters
        } else {
            return None;
        };
        Some(
            ModbusAddress {
                slave_id: (key / 0x100_0000) as u8,
                table,
                address: (key % 0x1_0000) as u16,
            },
        )
    }

    /// True when this address comes before `other` in the order of addresses.
    pub fn is_before(&self, other: &ModbusAddress) -> (before: bool)
        ensures
            before == self.precedes(*other),
    {
        *self < *other
    }

    /// An address is read back from its own key, and a number that decodes
    /// to an address is that address's key.
    pub proof fn lemma_key_round_trip(address: ModbusAddress, key: int)
        ensures
            0 <= address.key() < 0x1_0000_0000,
            Self::of_key(address.key()) == Some(address),
            Self::of_key(key) == Some(address) ==> address.key() == key,
    {
    }

    /// Keys are ordered as their addresses are, and equal only for equal addresses.
    pub proof fn lemma_key_order(a: ModbusAddress, b: ModbusAddress)
        ensures
            a.precedes(b) <==> a.key() < b.key(),
            a == b <==> a.key() == b.key(),
    {
    }
}

impl PartialOrd for ModbusAddress {
    fn partial_cmp(&self, other: &Self) -> (order: Option<Ordering>) {
        if self.slave_id < other.slave_id {
            Some(Ordering::Less)
        } else if self.slave_id > other.slave_id {
            Some(Ordering::Greater)
        } else if self.table.position() < other.table.position() {
            Some(Ordering::Less)
        } else if self.table.position() > other.table.position() {
            Some(Ordering::Greater)
        } else if self.address < other.address {
            Some(Ordering::Less)
        } else if self.address > other.address {
            Some(Ordering::Greater)
        } else {
            Some(Ordering::Equal)
        }
    }
}

impl vstd::std_specs::cmp::PartialOrdSpecImpl for ModbusAddress {
    open spec fn obeys_partial_cmp_spec() -> bool {
        true
    }

    open spec fn partial_cmp_spec(&self, other: &Self) -> Option<Ordering> {
        if self.precedes(*other) {
            Some(Ordering::Less)
        } else if other.precedes(*self) {
            Some(Ordering::Greater)
        } else {
            Some(Ordering::Equal)
        }
    }
}

} // verus!
