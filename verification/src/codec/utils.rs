//! Value lists on the wire: a byte count, then coils packed eight to a byte
//! or registers as big-endian words.

use vstd::prelude::*;
use crate::codec::cursor::{be_bytes, be_u16, push_u16, ByteCursor};
use crate::common::{ModbusDataType, ModbusTable};
use crate::error::ModbusError;

verus! {

/// All values are coils, or all are registers. An empty list is both.
pub open spec fn same_variant(values: Seq<ModbusDataType>) -> bool {
    forall|i: int| 0 <= i < values.len() ==> ((#[trigger] values[i]) is Coil <==> values[0] is Coil)
}

/// The value of bit `position` of a byte, for positions 0 to 7.
pub open spec fn bit_weight(position: int) -> int {
    if position == 0 {
        1
    } else if position == 1 {
        2
    } else if position == 2 {
        4
    } else if position == 3 {
        8
    } else if position == 4 {
        16
    } else if position == 5 {
        32
    } else if position == 6 {
        64
    } else {
        128
    }
}

/// 1 where `values` holds a coil that is on at `index`, 0 anywhere else.
pub open spec fn coil_bit(values: Seq<ModbusDataType>, index: int) -> int {
    if 0 <= index < values.len() && values[index] == ModbusDataType::Coil(true) {
        1
    } else {
        0
    }
}

/// Byte number `chunk` of the packed coils: coil `8 * chunk` in the least
/// significant bit, the seven after it in the bits above, zero bits where
/// the list has ended.
pub open spec fn packed_byte(values: Seq<ModbusDataType>, chunk: int) -> u8 {
    let base = 8 * chunk;
    (coil_bit(values, base) + 2 * coil_bit(values, base + 1) + 4 * coil_bit(values, base + 2) + 8
        * coil_bit(values, base + 3) + 16 * coil_bit(values, base + 4) + 32 * coil_bit(
        values,
        base + 5,
    ) + 64 * coil_bit(values, base + 6) + 128 * coil_bit(values, base + 7)) as u8
}

/// The coils of `values` packed eight to a byte, first coil first.
pub open spec fn packed_coils(values: Seq<ModbusDataType>) -> Seq<u8> {
    Seq::new(((values.len() + 7) / 8) as nat, |chunk: int| packed_byte(values, chunk))
}

/// Whether bit `index` of packed coils is set.
pub open spec fn packed_bit(bytes: Seq<u8>, index: int) -> bool {
    (bytes[index / 8] as int / bit_weight(index % 8)) % 2 == 1
}

/// The first `count` coils packed in `bytes`.
pub open spec fn unpacked_coils(bytes: Seq<u8>, count: int) -> Seq<ModbusDataType> {
    Seq::new(count as nat, |index: int| ModbusDataType::Coil(packed_bit(bytes, index)))
}

/// The 16-bit word that stands for a value in a list of registers.
pub open spec fn register_word(value: ModbusDataType) -> u16 {
    match value {
        ModbusDataType::Register(word) => word,
        ModbusDataType::Coil(_) => 0,
    }
}

/// The registers of `values` as big-endian words, one after the other.
pub open spec fn register_bytes(values: Seq<ModbusDataType>) -> Seq<u8> {
    Seq::new(
        2 * values.len(),
        |place: int| be_bytes(register_word(values[place / 2]))[place % 2],
    )
}

/// The first `count` registers among the big-endian words of `bytes`.
pub open spec fn unpacked_registers(bytes: Seq<u8>, count: int) -> Seq<ModbusDataType> {
    Seq::new(
        count as nat,
        |index: int| ModbusDataType::Register(be_u16(bytes[2 * index], bytes[2 * index + 1])),
    )
}

/// How many payload bytes `count` values of a table take: one bit per coil,
/// rounded up to whole bytes, or two bytes per register.
pub open spec fn payload_len(bits: bool, count: int) -> int {
    if bits {
        (count + 7) / 8
    } else {
        2 * count
    }
}

/// The wire form of a value list: the payload's byte count, then the
/// payload. A list that mixes coils and registers, an empty list and a list
/// whose payload is longer than 255 bytes have no wire form.
pub open spec fn values_bytes(values: Seq<ModbusDataType>) -> Result<Seq<u8>, ModbusError> {
    if !same_variant(values) {
        Err(ModbusError::MixedDataTypes)
    } else if values.len() == 0 {
        Err(ModbusError::NoValues)
    } else if payload_len(values[0] is Coil, values.len() as int) > 255 {
        Err(ModbusError::TooManyValues)
    } else if values[0] is Coil {
        Ok(seq![payload_len(true, values.len() as int) as u8] + packed_coils(values))
    } else {
        Ok(seq![payload_len(false, values.len() as int) as u8] + register_bytes(values))
    }
}

/// What a value list at the front of `bytes` decodes to, and how many bytes
/// it takes.
///
/// The first byte counts the payload bytes. The number of values is
/// `ammount` where the caller knows it, else what the byte count implies for
/// the table: eight coils per byte, or one register per two bytes. The byte
/// count has to be the one that this number of values takes, and that many
/// bytes have to follow.
pub open spec fn decoded_values(table: ModbusTable, ammount: Option<u16>, bytes: Seq<u8>) -> Result<
    (Seq<ModbusDataType>, int),
    ModbusError,
> {
    if bytes.len() < 1 {
        Err(ModbusError::UnexpectedEndOfData)
    } else {
        let byte_count = bytes[0] as int;
        let bits = table.holds_bits();
        let count = match ammount {
            Some(ammount) => ammount as int,
            None => if bits {
                byte_count * 8
            } else {
                byte_count / 2
            },
        };
        let expected = payload_len(bits, count);
        if expected != byte_count {
            Err(
                ModbusError::ByteCountMismatch {
                    expected: expected as u32,
                    got: byte_count as u32,
                },
            )
        } else if bytes.len() - 1 < byte_count {
            Err(ModbusError::UnexpectedEndOfData)
        } else {
            let payload = bytes.subrange(1, 1 + byte_count);
            Ok(
                (
                    if bits {
                        unpacked_coils(payload, count)
                    } else {
                        unpacked_registers(payload, count)
                    },
                    1 + byte_count,
                ),
            )
        }
    }
}

/// Packing keeps every coil: a list of coils takes one byte per eight coils,
/// rounded up; reading that many coils back from the packed bytes gives the
/// list again, in its order; and the bits after the last coil are zero.
pub proof fn lemma_coil_packing_round_trip(values: Seq<ModbusDataType>)
    requires
        forall|i: int| 0 <= i < values.len() ==> (#[trigger] values[i]) is Coil,
    ensures
        packed_coils(values).len() == (values.len() + 7) / 8,
        unpacked_coils(packed_coils(values), values.len() as int) == values,
        forall|index: int|
            values.len() <= index < 8 * packed_coils(values).len() ==> !#[trigger] packed_bit(
                packed_coils(values),
                index,
            ),
{
    let packed = packed_coils(values);
    assert forall|index: int| 0 <= index < 8 * packed.len() implies #[trigger] packed_bit(
        packed,
        index,
    ) == (coil_bit(values, index) == 1) by {
        lemma_packed_bit(values, index);
    }
    assert forall|index: int| 0 <= index < values.len() implies unpacked_coils(
        packed,
        values.len() as int,
    )[index] == values[index] by {
        assert(values[index] is Coil);
        assert(packed_bit(packed, index) == (coil_bit(values, index) == 1));
    }
    assert(unpacked_coils(packed, values.len() as int) =~= values);
}

/// Bit `index` of the packed coils is set exactly where coil `index` is on.
pub proof fn lemma_packed_bit(values: Seq<ModbusDataType>, index: int)
    requires
        0 <= index < 8 * packed_coils(values).len(),
    ensures
        packed_bit(packed_coils(values), index) == (coil_bit(values, index) == 1),
{
    let chunk = index / 8;
    let position = index % 8;
    let base = 8 * chunk;
    let b0 = coil_bit(values, base);
    let b1 = coil_bit(values, base + 1);
    let b2 = coil_bit(values, base + 2);
    let b3 = coil_bit(values, base + 3);
    let b4 = coil_bit(values, base + 4);
    let b5 = coil_bit(values, base + 5);
    let b6 = coil_bit(values, base + 6);
    let b7 = coil_bit(values, base + 7);
    let total = b0 + 2 * b1 + 4 * b2 + 8 * b3 + 16 * b4 + 32 * b5 + 64 * b6 + 128 * b7;
    assert(packed_coils(values)[chunk] as int == total);
    assert(index == base + position);
    if position == 0 {
        assert(total / 1 % 2 == b0);
    } else if position == 1 {
        assert(total / 2 % 2 == b1);
    } else if position == 2 {
        assert(total / 4 % 2 == b2);
    } else if position == 3 {
        assert(total / 8 % 2 == b3);
    } else if position == 4 {
        assert(total / 16 % 2 == b4);
    } else if position == 5 {
        assert(total / 32 % 2 == b5);
    } else if position == 6 {
        assert(total / 64 % 2 == b6);
    } else {
        assert(total / 128 % 2 == b7);
    }
}

/// Reading registers back from their big-endian words gives the list again.
pub proof fn lemma_register_bytes_round_trip(values: Seq<ModbusDataType>)
    requires
        forall|i: int| 0 <= i < values.len() ==> (#[trigger] values[i]) is Register,
    ensures
        register_bytes(values).len() == 2 * values.len(),
        unpacked_registers(register_bytes(values), values.len() as int) == values,
{
    assert forall|index: int| 0 <= index < values.len() implies unpacked_registers(
        register_bytes(values),
        values.len() as int,
    )[index] == values[index] by {
        assert(values[index] is Register);
        let word = register_word(values[index]);
        assert((2 * index) / 2 == index && (2 * index) % 2 == 0);
        assert((2 * index + 1) / 2 == index && (2 * index + 1) % 2 == 1);
        crate::codec::cursor::lemma_be_round_trip(word, 0, 0);
    }
    assert(unpacked_registers(register_bytes(values), values.len() as int) =~= values);
}

/// Whether every value of the list is of the kind that the table holds:
/// coils for a table of bits, registers otherwise.
pub open spec fn values_fit_table(values: Seq<ModbusDataType>, table: ModbusTable) -> bool {
    forall|i: int| 0 <= i < values.len() ==> ((#[trigger] values[i]) is Coil <==> table.holds_bits())
}

/// A value list that has a wire form is read back from it.
///
/// The list has to be of the table's kind, and `ammount` has to be its
/// length where the reader knows the count. A reader that infers the count
/// from the byte count reads coils back in whole bytes, so the list comes
/// back only where its length is a multiple of eight, or where it holds
/// registers. Bytes after the wire form are left alone.
pub proof fn lemma_values_round_trip(
    values: Seq<ModbusDataType>,
    table: ModbusTable,
    ammount: Option<u16>,
    rest: Seq<u8>,
)
    requires
        values_fit_table(values, table),
        values_bytes(values) is Ok,
        match ammount {
            Some(ammount) => ammount as int == values.len(),
            None => table.holds_bits() ==> values.len() % 8 == 0,
        },
    ensures
        decoded_values(table, ammount, values_bytes(values)->Ok_0 + rest) == Ok::<
            (Seq<ModbusDataType>, int),
            ModbusError,
        >((values, values_bytes(values)->Ok_0.len() as int)),
{
    let encoded = values_bytes(values)->Ok_0;
    let bytes = encoded + rest;
    let bits = table.holds_bits();
    let byte_count = payload_len(bits, values.len() as int);
    assert(values[0] is Coil <==> bits);
    assert(bytes[0] as int == byte_count);
    let payload = bytes.subrange(1, 1 + byte_count);
    if bits {
        lemma_coil_packing_round_trip(values);
        assert(encoded =~= seq![byte_count as u8] + packed_coils(values));
        assert(payload =~= packed_coils(values));
    } else {
        lemma_register_bytes_round_trip(values);
        assert(encoded =~= seq![byte_count as u8] + register_bytes(values));
        assert(payload =~= register_bytes(values));
    }
}

/// The coils that a reader without the count takes from the wire form of
/// `values`: one for every bit of the payload.
pub open spec fn padded_coils(values: Seq<ModbusDataType>) -> Seq<ModbusDataType> {
    unpacked_coils(packed_coils(values), 8 * ((values.len() as int + 7) / 8))
}

/// A reader that does not know the count reads a list of coils back in whole
/// bytes: the list that was sent, then a coil that is off for every bit that
/// fills up the last byte.
pub proof fn lemma_coils_read_in_whole_bytes(
    values: Seq<ModbusDataType>,
    table: ModbusTable,
    rest: Seq<u8>,
)
    requires
        values_fit_table(values, table),
        table.holds_bits(),
        values_bytes(values) is Ok,
    ensures
        decoded_values(table, None, values_bytes(values)->Ok_0 + rest) == Ok::<
            (Seq<ModbusDataType>, int),
            ModbusError,
        >((padded_coils(values), values_bytes(values)->Ok_0.len() as int)),
        padded_coils(values).len() == 8 * ((values.len() as int + 7) / 8),
        padded_coils(values).take(values.len() as int) == values,
        forall|i: int|
            values.len() <= i < padded_coils(values).len() ==> #[trigger] padded_coils(values)[i]
                == ModbusDataType::Coil(false),
{
    let encoded = values_bytes(values)->Ok_0;
    let bytes = encoded + rest;
    let packed = packed_coils(values);
    let byte_count = payload_len(true, values.len() as int);
    let padded = padded_coils(values);
    assert(values[0] is Coil);
    lemma_coil_packing_round_trip(values);
    assert(encoded =~= seq![byte_count as u8] + packed);
    assert(bytes[0] as int == byte_count);
    assert(bytes.subrange(1, 1 + byte_count) =~= packed);
    assert(payload_len(true, byte_count * 8) == byte_count);
    assert(padded.take(values.len() as int) =~= values) by {
        assert forall|i: int| 0 <= i < values.len() implies padded[i] == values[i] by {
            assert(unpacked_coils(packed, values.len() as int)[i] == values[i]);
        }
    }
    assert forall|i: int| values.len() <= i < padded.len() implies #[trigger] padded[i]
        == ModbusDataType::Coil(false) by {
        assert(!packed_bit(packed, i));
    }
}

/// The wire form of a value list is the count byte and at most 255 payload
/// bytes.
pub proof fn lemma_values_bytes_len(values: Seq<ModbusDataType>)
    requires
        values_bytes(values) is Ok,
    ensures
        values_bytes(values)->Ok_0.len() == 1 + payload_len(
            values[0] is Coil,
            values.len() as int,
        ),
        0 < payload_len(values[0] is Coil, values.len() as int) <= 255,
{
}

/// True where the values are all coils or all registers.
pub fn check_same_data_type_variant(values: &Vec<ModbusDataType>) -> (same: bool)
    ensures
        same == same_variant(values@),
{
    if values.len() == 0 {
        return true;
    }
    let first_is_coil = is_coil(&values[0]);
    let mut index: usize = 1;
    while index < values.len()
        invariant
            1 <= index <= values.len(),
            first_is_coil == (values@[0] is Coil),
            forall|i: int|
                0 <= i < index ==> ((#[trigger] values@[i]) is Coil <==> values@[0] is Coil),
        decreases values.len() - index,
    {
        if is_coil(&values[index]) != first_is_coil {
            return false;
        }
        index += 1;
    }
    true
}

/// True for a coil, false for a register.
pub fn is_coil(value: &ModbusDataType) -> (coil: bool)
    ensures
        coil == (*value is Coil),
{
    match value {
        ModbusDataType::Coil(_) => true,
        ModbusDataType::Register(_) => false,
    }
}

/// 1 where `values` holds a coil that is on `offset` places after `base`, 0
/// anywhere else.
fn coil_bit_at(values: &Vec<ModbusDataType>, base: usize, offset: usize) -> (bit: u8)
    requires
        base < values@.len(),
    ensures
        bit as int == coil_bit(values@, base + offset),
{
    if offset < values.len() - base {
        match values[base + offset] {
            ModbusDataType::Coil(true) => 1,
            _ => 0,
        }
    } else {
        0
    }
}

/// Packs coils eight to a byte: the first coil in the least significant bit
/// of the first byte. A register in the list counts as a coil that is off.
pub fn pack_coils(values: &Vec<ModbusDataType>) -> (bytes: Vec<u8>)
    ensures
        bytes@ == packed_coils(values@),
{
    let chunks = if values.len() % 8 == 0 {
        values.len() / 8
    } else {
        values.len() / 8 + 1
    };
    let mut bytes: Vec<u8> = Vec::new();
    let mut chunk: usize = 0;
    while chunk < chunks
        invariant
            chunk <= chunks,
            chunks == (values@.len() + 7) / 8,
            bytes@ == packed_coils(values@).take(chunk as int),
        decreases chunks - chunk,
    {
        assert(8 * chunk < values.len());
        let base = 8 * chunk;
        let byte = coil_bit_at(values, base, 0) + 2 * coil_bit_at(values, base, 1) + 4
            * coil_bit_at(values, base, 2) + 8 * coil_bit_at(values, base, 3) + 16 * coil_bit_at(
            values,
            base,
            4,
        ) + 32 * coil_bit_at(values, base, 5) + 64 * coil_bit_at(values, base, 6) + 128
            * coil_bit_at(values, base, 7);
        bytes.push(byte);
        chunk += 1;
        assert(bytes@ =~= packed_coils(values@).take(chunk as int));
    }
    assert(packed_coils(values@).take(chunk as int) =~= packed_coils(values@));
    bytes
}

/// The value of bit `position` of a byte.
fn weight_of(position: usize) -> (weight: u8)
    requires
        position < 8,
    ensures
        weight as int == bit_weight(position as int),
{
    if position == 0 {
        1
    } else if position == 1 {
        2
    } else if position == 2 {
        4
    } else if position == 3 {
        8
    } else if position == 4 {
        16
    } else if position == 5 {
        32
    } else if position == 6 {
        64
    } else {
        128
    }
}

/// Reads `count` coils from packed bytes, first coil first. Fails where the
/// bytes hold fewer than `count` bits.
pub fn unpack_coils(bytes: &Vec<u8>, count: usize) -> (values: Result<
    Vec<ModbusDataType>,
    ModbusError,
>)
    ensures
        match values {
            Ok(values) => count <= 8 * bytes@.len() && values@ == unpacked_coils(
                bytes@,
                count as int,
            ),
            Err(error) => count > 8 * bytes@.len() && error == ModbusError::UnexpectedEndOfData,
        },
{
    if count / 8 > bytes.len() || (count / 8 == bytes.len() && count % 8 != 0) {
        return Err(ModbusError::UnexpectedEndOfData);
    }
    let mut values: Vec<ModbusDataType> = Vec::new();
    let mut index: usize = 0;
    while index < count
        invariant
            index <= count <= 8 * bytes@.len(),
            values@ == unpacked_coils(bytes@, index as int),
        decreases count - index,
    {
        let byte = bytes[index / 8];
        let weight = weight_of(index % 8);
        values.push(ModbusDataType::Coil((byte / weight) % 2 == 1));
        index += 1;
        assert(values@ =~= unpacked_coils(bytes@, index as int));
    }
    Ok(values)
}

/// Encodes a value list: the payload's byte count, then the payload.
/// Fails on a list that mixes coils and registers, on an empty list, and on
/// a list whose payload would be longer than 255 bytes.
pub fn serialize_values(values: &Vec<ModbusDataType>) -> (bytes: Result<Vec<u8>, ModbusError>)
    ensures
        match bytes {
            Ok(bytes) => values_bytes(values@) == Ok::<Seq<u8>, ModbusError>(bytes@),
            Err(error) => values_bytes(values@) == Err::<Seq<u8>, ModbusError>(error),
        },
{
    if !check_same_data_type_variant(values) {
        return Err(ModbusError::MixedDataTypes);
    }
    if values.len() == 0 {
        return Err(ModbusError::NoValues);
    }
    let mut result: Vec<u8> = Vec::new();
    if is_coil(&values[0]) {
        if values.len() > 8 * 255 {
            return Err(ModbusError::TooManyValues);
        }
        let length = ((values.len() + 7) / 8) as u8;
        result.push(length);
        let mut packed = pack_coils(values);
        result.append(&mut packed);
        assert(result@ =~= seq![length] + packed_coils(values@));
    } else {
        if values.len() > 127 {
            return Err(ModbusError::TooManyValues);
        }
        let length = (values.len() * 2) as u8;
        result.push(length);
        let mut index: usize = 0;
        while index < values.len()
            invariant
                index <= values.len() <= 127,
                same_variant(values@),
                values@[0] is Register,
                result@ == seq![length] + register_bytes(values@).take(2 * index as int),
            decreases values.len() - index,
        {
            assert(values@[index as int] is Register);
            match values[index] {
                ModbusDataType::Register(word) => {
                    push_u16(&mut result, word);
                },
                ModbusDataType::Coil(_) => {},
            }
            index += 1;
            assert(result@ =~= seq![length] + register_bytes(values@).take(2 * index as int)) by {
                assert((2 * index - 2) / 2 == index - 1 && (2 * index - 2) % 2 == 0);
                assert((2 * index - 1) / 2 == index - 1 && (2 * index - 1) % 2 == 1);
            }
        }
        assert(register_bytes(values@).take(2 * index as int) =~= register_bytes(values@));
    }
    Ok(result)
}

/// Decodes the value list at the cursor and moves past it. On an error the
/// cursor stays where it was.
pub fn deserialize_values(table: ModbusTable, ammount: Option<u16>, data: &mut ByteCursor) -> (values:
    Result<Vec<ModbusDataType>, ModbusError>)
    ensures
        match values {
            Ok(values) => decoded_values(table, ammount, old(data)@) == Ok::<
                (Seq<ModbusDataType>, int),
                ModbusError,
            >((values@, 1 + old(data)@[0] as int)) && final(data)@ == old(data)@.skip(
                1 + old(data)@[0] as int,
            ),
            Err(error) => decoded_values(table, ammount, old(data)@) == Err::<
                (Seq<ModbusDataType>, int),
                ModbusError,
            >(error) && final(data)@ == old(data)@,
        },
{
    if data.remaining() < 1 {
        return Err(ModbusError::UnexpectedEndOfData);
    }
    let byte_count = data.peek_u8(0) as u32;
    let bits = table.is_bit_table();
    let count: u32 = match ammount {
        Some(ammount) => ammount as u32,
        None => if bits {
            byte_count * 8
        } else {
            byte_count / 2
        },
    };
    let expected: u32 = if bits {
        (count + 7) / 8
    } else {
        2 * count
    };
    if expected != byte_count {
        return Err(ModbusError::ByteCountMismatch { expected, got: byte_count });
    }
    if data.remaining() - 1 < byte_count as usize {
        return Err(ModbusError::UnexpectedEndOfData);
    }
    let ghost payload = data@.subrange(1, 1 + byte_count as int);
    let mut values: Vec<ModbusDataType> = Vec::new();
    let mut index: u32 = 0;
    if bits {
        while index < count
            invariant
                index <= count <= 8 * byte_count,
                byte_count <= 255,
                1 + byte_count <= data@.len(),
                payload == data@.subrange(1, 1 + byte_count as int),
                values@ == unpacked_coils(payload, index as int),
            decreases count - index,
        {
            let byte = data.peek_u8(1 + (index / 8) as usize);
            let weight = weight_of((index % 8) as usize);
            values.push(ModbusDataType::Coil((byte / weight) % 2 == 1));
            index += 1;
            assert(values@ =~= unpacked_coils(payload, index as int));
        }
    } else {
        while index < count
            invariant
                index <= count,
                2 * count == byte_count,
                byte_count <= 255,
                1 + byte_count <= data@.len(),
                payload == data@.subrange(1, 1 + byte_count as int),
                values@ == unpacked_registers(payload, index as int),
            decreases count - index,
        {
            let word = data.peek_u16(1 + 2 * index as usize);
            values.push(ModbusDataType::Register(word));
            index += 1;
            assert(values@ =~= unpacked_registers(payload, index as int));
        }
    }
    data.advance(1 + byte_count as usize);
    Ok(values)
}

} // verus!
