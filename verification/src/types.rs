//! Types for the Binary Info system

use crate::consts::{GpioFunction, TAG_RASPBERRY_PI};
use vstd::prelude::*;

verus! {

// ----- the pin mask of `PinsWithName` -----------------------------------

/// Bit `i` of `x` is set.
pub open spec fn bit_set(x: u32, i: u32) -> bool {
    (x >> i) & 1u32 == 1u32
}

/// Every pin number is below 32 (a bit of a `u32` mask).
pub open spec fn pins_below_32(pins: Seq<u32>) -> bool {
    forall|k: int| 0 <= k < pins.len() ==> pins[k] < 32
}

/// The pin numbers go strictly up.
pub open spec fn pins_strictly_ascending(pins: Seq<u32>) -> bool {
    forall|k: int, l: int| 0 <= k < l < pins.len() ==> pins[k] < pins[l]
}

/// The inputs that `PinsWithName::fold_config` folds without a panic: pins
/// below 32, in strictly increasing order, and a starting mask whose bits
/// all lie below the first pin.
pub open spec fn fold_config_accepts(mask: u32, pins: Seq<u32>) -> bool {
    &&& pins_below_32(pins)
    &&& pins_strictly_ascending(pins)
    &&& pins.len() > 0 ==> mask < (1u32 << pins[0])
}

/// The bits of `pins`, or-ed together.
pub open spec fn pins_bits(pins: Seq<u32>) -> u32
    decreases pins.len(),
{
    if pins.len() == 0 {
        0
    } else {
        pins_bits(pins.drop_last()) | (1u32 << pins.last())
    }
}

proof fn lemma_or_bit(a: u32, p: u32, i: u32)
    requires
        p < 32,
        i < 32,
    ensures
        bit_set(a | (1u32 << p), i) <==> (bit_set(a, i) || i == p),
{
    assert(((a | (1u32 << p)) >> i) & 1u32 == 1u32 <==> (((a >> i) & 1u32 == 1u32) || i == p))
        by (bit_vector)
        requires
            p < 32,
            i < 32,
    ;
}

pub(crate) proof fn lemma_or_below(a: u32, p: u32, q: u32)
    requires
        a < (1u32 << p),
        p < q,
        q < 32,
    ensures
        (a | (1u32 << p)) < (1u32 << q),
{
    assert((a | (1u32 << p)) < (1u32 << q)) by (bit_vector)
        requires
            a < (1u32 << p),
            p < q,
            q < 32,
    ;
}

// ----- the pin encoding of `PinsWithFunction` ---------------------------

/// The low bits of an encoding that lists the pins one by one.
pub const BI_PINS_ENCODING_MULTI: u32 = 2;

/// The low bits of an encoding that gives a range of pins.
pub const BI_PINS_ENCODING_RANGE: u32 = 1;

/// A pin number moved to slot `slot` of a multi-pin encoding: slot 0 starts
/// at bit 7 and each slot is 5 bits wide. Bits shifted past bit 31 are lost.
pub open spec fn pin_slot(pin: u32, slot: int) -> u32 {
    pin << ((7 + 5 * slot) as u32)
}

/// The slots of `values`, the first in slot `position`, or-ed together.
pub open spec fn slots(values: Seq<u32>, position: int) -> u32
    decreases values.len(),
{
    if values.len() == 0 {
        0
    } else {
        slots(values.drop_last(), position) | pin_slot(values.last(), position + values.len() - 1)
    }
}

/// What `PinsWithFunction::fold_iter` builds: `initial` with each value in
/// its slot, and, shifted 5 bits further up, the last value once more (or
/// `last_value` where there is no value).
pub open spec fn multi_encoding(initial: u32, values: Seq<u32>, position: int, last_value: u32) -> u32 {
    if values.len() == 0 {
        initial | (last_value << 5u32)
    } else {
        initial | slots(values, position) | (pin_slot(values.last(), position + values.len() - 1)
            << 5u32)
    }
}

/// The encoding that `PinsWithFunction::new` stores for `pins` and a function
/// numbered `code`.
pub open spec fn pins_encoding(pins: Seq<u32>, code: u32) -> u32 {
    multi_encoding(BI_PINS_ENCODING_MULTI | (code << 3u32), pins, 0, 0)
}

/// The encoding that `PinsWithFunction::new_range` stores.
pub open spec fn range_encoding(pin_low: u32, pin_high: u32, code: u32) -> u32 {
    BI_PINS_ENCODING_RANGE | (code << 3u32) | (pin_low << 7u32) | (pin_high << 12u32)
}

proof fn lemma_or_assoc(a: u32, b: u32, c: u32)
    ensures
        (a | b) | c == a | (b | c),
{
    assert((a | b) | c == a | (b | c)) by (bit_vector);
}


// ----- entry kinds ------------------------------------------------------

/// This is the set of data types that `picotool` supports.
#[derive(Clone, Copy, Debug, PartialEq, Eq, Structural)]
pub enum DataType {
    /// Raw data
    Raw,
    /// Data with a size
    SizedData,
    /// A list of binary data
    BinaryInfoListZeroTerminated,
    /// A BSON encoded blob
    Bson,
    /// An Integer with an ID
    IdAndInt,
    /// A string with an Id
    IdAndString,
    /// A block device
    BlockDevice,
    /// GPIO pins, with their function
    PinsWithFunction,
    /// GPIO pins, with their name
    PinsWithName,
    /// GPIO pins, with multiple names?
    PinsWithNames,
}

impl DataType {
    /// The `u16` that `picotool` reads for this data type.
    pub open spec fn spec_code(self) -> u16 {
        match self {
            DataType::Raw => 1,
            DataType::SizedData => 2,
            DataType::BinaryInfoListZeroTerminated => 3,
            DataType::Bson => 4,
            DataType::IdAndInt => 5,
            DataType::IdAndString => 6,
            DataType::BlockDevice => 7,
            DataType::PinsWithFunction => 8,
            DataType::PinsWithName => 9,
            DataType::PinsWithNames => 10,
        }
    }

    /// The `u16` that `picotool` reads for this data type (`Raw` is 1, and
    /// the others count up from there in the order above).
    pub fn code(&self) -> (r: u16)
        ensures
            r == self.spec_code(),
    {
        match self {
            DataType::Raw => 1,
            DataType::SizedData => 2,
            DataType::BinaryInfoListZeroTerminated => 3,
            DataType::Bson => 4,
            DataType::IdAndInt => 5,
            DataType::IdAndString => 6,
            DataType::BlockDevice => 7,
            DataType::PinsWithFunction => 8,
            DataType::PinsWithName => 9,
            DataType::PinsWithNames => 10,
        }
    }
}

/// All Entries start with this common header
#[derive(Clone, Copy, Debug, PartialEq, Eq, Structural)]
pub struct EntryCommon {
    /// What kind of entry follows
    pub data_type: DataType,
    /// Whose entry it is (e.g. `TAG_RASPBERRY_PI`)
    pub tag: u16,
}

/// The address of `value` in memory.
///
/// Trusted: calls `core::ptr::from_ref` and takes the pointer's address.
/// The contract claims only that it is not zero, as a reference is never
/// null; which address comes back is the machine's to choose.
#[verifier::external_body]
fn address_of<T>(value: &T) -> (r: usize)
    ensures
        r != 0,
{
    core::ptr::from_ref(value) as usize
}

/// The address of the first element of `table`.
///
/// Trusted: calls `<[T]>::as_ptr` and takes the pointer's address. The
/// contract claims only that it is not zero, as the pointer of a slice
/// reference is never null (not even for an empty slice); which address
/// comes back is the machine's to choose.
#[verifier::external_body]
fn table_address(table: &[MappingTableEntry]) -> (r: usize)
    ensures
        r != 0,
{
    table.as_ptr() as usize
}

/// This is the 'Binary Info' header block that `picotool` looks for in your UF2
/// file/ELF file/Pico in Bootloader Mode to give you useful metadata about your
/// program.
///
/// It should be placed in the first 4096 bytes of flash. Addresses are held
/// as plain numbers.
#[derive(Clone, Copy, Debug, PartialEq, Eq, Structural)]
pub struct Header {
    /// Must be equal to `Header::MARKER_START`
    pub marker_start: u32,
    /// The address of the first in our table of pointers to Entries
    pub entries_start: usize,
    /// The address of the last in our table of pointers to Entries
    pub entries_end: usize,
    /// The address of the first entry in a null-terminated RAM/Flash mapping table
    pub mapping_table: usize,
    /// Must be equal to `Header::MARKER_END`
    pub marker_end: u32,
}

impl Header {
    /// This is the `BINARY_INFO_MARKER_START` magic value from `picotool`
    pub const MARKER_START: u32 = 0x7188ebf2;

    /// This is the `BINARY_INFO_MARKER_END` magic value from `picotool`
    pub const MARKER_END: u32 = 0xe71aa390;

    /// Create a new `picotool` compatible header.
    ///
    /// * `entries_start` - the address of the first [`EntryAddr`] in the table
    /// * `entries_end` - the address of the last [`EntryAddr`] in the table
    /// * `mapping_table` - the RAM/Flash address mapping table
    pub fn new(
        entries_start: usize,
        entries_end: usize,
        mapping_table: &'static [MappingTableEntry],
    ) -> (r: Self)
        ensures
            r.marker_start == Header::MARKER_START,
            r.marker_start == 0x7188ebf2,
            r.entries_start == entries_start,
            r.entries_end == entries_end,
            r.mapping_table != 0,
            r.marker_end == Header::MARKER_END,
            r.marker_end == 0xe71aa390,
    {
        let mapping_table = table_address(mapping_table);
        Self::from_addresses(entries_start, entries_end, mapping_table)
    }

    /// Create a new `picotool` compatible header from the addresses of the
    /// first and last [`EntryAddr`] and of the RAM/Flash address mapping
    /// table.
    pub fn from_addresses(entries_start: usize, entries_end: usize, mapping_table: usize) -> (r:
        Self)
        ensures
            r == (Header {
                marker_start: 0x7188ebf2,
                entries_start,
                entries_end,
                mapping_table,
                marker_end: 0xe71aa390,
            }),
            r.marker_start == Header::MARKER_START,
            r.marker_end == Header::MARKER_END,
    {
        Header {
            marker_start: Self::MARKER_START,
            entries_start,
            entries_end,
            mapping_table,
            marker_end: Self::MARKER_END,
        }
    }
}

/// This is a reference to an entry: the address of an Entry, whose run-time
/// type is encoded into the Entry itself in very specific way.
#[derive(Clone, Copy, Debug, PartialEq, Eq, Structural)]
pub struct EntryAddr(pub usize);

/// Allows us to tell picotool where values are in the UF2 given their run-time
/// address.
///
/// The most obvious example is RAM variables, which must be found in the
/// `.data` section of the UF2.
#[derive(Clone, Copy, Debug, PartialEq, Eq, Structural)]
pub struct MappingTableEntry {
    /// The start address in RAM (or wherever the address picotool finds will
    /// point)
    pub source_addr_start: usize,
    /// The start address in flash (or whever the data actually lives in the
    /// ELF)
    pub dest_addr_start: usize,
    /// The end address in flash
    pub dest_addr_end: usize,
}

impl MappingTableEntry {
    /// Generate a null entry to mark the end of the list
    pub fn null() -> (r: MappingTableEntry)
        ensures
            r.source_addr_start == 0,
            r.dest_addr_start == 0,
            r.dest_addr_end == 0,
    {
        MappingTableEntry { source_addr_start: 0, dest_addr_start: 0, dest_addr_end: 0 }
    }
}

/// An entry which contains both an ID (e.g. `ID_RP_PROGRAM_NAME`) and a
/// null-terminated string, held here by its text.
#[derive(Debug)]
pub struct StringEntry {
    /// Always `IdAndString` data
    pub header: EntryCommon,
    /// What the string says (e.g. `ID_RP_PROGRAM_NAME`)
    pub id: u32,
    /// The text of the string, without its terminating NUL
    pub value: Vec<u8>,
}

impl StringEntry {
    /// Create a new `StringEntry`; `value` is the text of a C string (no NUL
    /// in it).
    pub fn new(tag: u16, id: u32, value: Vec<u8>) -> (r: StringEntry)
        requires
            !value@.contains(0u8),
        ensures
            r.header == (EntryCommon { data_type: DataType::IdAndString, tag }),
            r.id == id,
            r.value@ == value@,
    {
        StringEntry { header: EntryCommon { data_type: DataType::IdAndString, tag }, id, value }
    }

    /// Get this entry's address
    pub fn addr(&self) -> (r: EntryAddr)
        ensures
            r.0 != 0,
    {
        EntryAddr(address_of(self))
    }
}

/// An entry which contains both an ID (e.g. `ID_RP_BINARY_END`) and an integer.
#[derive(Clone, Copy, Debug, PartialEq, Eq, Structural)]
pub struct IntegerEntry {
    /// Always `IdAndInt` data
    pub header: EntryCommon,
    /// What the integer says
    pub id: u32,
    /// The integer
    pub value: u32,
}

impl IntegerEntry {
    /// Create a new `IntegerEntry`
    pub fn new(tag: u16, id: u32, value: u32) -> (r: IntegerEntry)
        ensures
            r == (IntegerEntry {
                header: EntryCommon { data_type: DataType::IdAndInt, tag },
                id,
                value,
            }),
    {
        IntegerEntry { header: EntryCommon { data_type: DataType::IdAndInt, tag }, id, value }
    }

    /// Get this entry's address
    pub fn addr(&self) -> (r: EntryAddr)
        ensures
            r.0 != 0,
    {
        EntryAddr(address_of(self))
    }
}

/// An alias for IntegerEntry, taking a pointer (an address) instead of an integer
#[derive(Clone, Copy, Debug, PartialEq, Eq, Structural)]
pub struct PointerEntry {
    /// Always `IdAndInt` data
    pub header: EntryCommon,
    /// What the pointer says
    pub id: u32,
    /// The address
    pub value: usize,
}

impl PointerEntry {
    /// Create a new `PointerEntry`
    ///
    /// Pointers will be marked as 32-bit integers in the binary information
    /// structure, as there is no separate data type tag for pointers. This
    /// assumes that pointers are 32 bit wide, which is obviously true for
    /// rp2040/rp2350. On 64 bit architectures, it will create a binary
    /// structure that likely can't be parsed by picotool.
    pub fn new(tag: u16, id: u32, value: usize) -> (r: PointerEntry)
        ensures
            r == (PointerEntry {
                header: EntryCommon { data_type: DataType::IdAndInt, tag },
                id,
                value,
            }),
    {
        PointerEntry { header: EntryCommon { data_type: DataType::IdAndInt, tag }, id, value }
    }

    /// Get this entry's address
    pub fn addr(&self) -> (r: EntryAddr)
        ensures
            r.0 != 0,
    {
        EntryAddr(address_of(self))
    }
}

/// A structure for multiple pins with name info
#[derive(Debug)]
pub struct PinsWithName {
    /// Always `PinsWithName` data, tagged `TAG_RASPBERRY_PI`
    pub header: EntryCommon,
    /// Bit `n` is set for pin `n`
    pub mask: u32,
    /// The text of the label, without its terminating NUL
    pub label: Vec<u8>,
}

impl PinsWithName {
    /// Or the bit of each pin of `rest` into `mask`.
    ///
    /// The pins must be below 32 and strictly increasing, and the bits of
    /// `mask` must all lie below the first pin.
    pub fn fold_config(mask: u32, rest: &[u32]) -> (r: u32)
        requires
            fold_config_accepts(mask, rest@),
        ensures
            r == mask | pins_bits(rest@),
            forall|i: u32| i < 32 ==> (bit_set(r, i) <==> (bit_set(mask, i) || rest@.contains(i))),
    {
        let mut acc: u32 = mask;
        let mut k: usize = 0;
        proof {
            assert(rest@.take(0) =~= Seq::<u32>::empty());
            assert(mask | 0u32 == mask) by (bit_vector);
        }
        while k < rest.len()
            invariant
                k <= rest.len(),
                fold_config_accepts(mask, rest@),
                acc == mask | pins_bits(rest@.take(k as int)),
                k < rest.len() ==> acc < (1u32 << rest@[k as int]),
                forall|i: u32|
                    i < 32 ==> (bit_set(acc, i) <==> (bit_set(mask, i) || rest@.take(
                        k as int,
                    ).contains(i))),
            decreases rest.len() - k,
        {
            let pin: u32 = rest[k];
            let masked_pin: u32 = 1u32 << pin;
            let ghost old_acc = acc;
            proof {
                if k + 1 < rest.len() {
                    lemma_or_below(acc, pin, rest@[k + 1]);
                }
            }
            acc = acc | masked_pin;
            k = k + 1;
            proof {
                let t0 = rest@.take(k - 1);
                let t1 = rest@.take(k as int);
                assert(t1 =~= t0.push(pin));
                assert(t1.drop_last() =~= t0);
                lemma_or_assoc(mask, pins_bits(t0), masked_pin);
                assert forall|i: u32| i < 32 implies (bit_set(acc, i) <==> (bit_set(mask, i)
                    || t1.contains(i))) by {
                    lemma_or_bit(old_acc, pin, i);
                    if i == pin {
                        assert(t1[k - 1] == pin);
                    }
                    if t0.contains(i) {
                        let w = choose|w: int| 0 <= w < t0.len() && t0[w] == i;
                        assert(t1[w] == i);
                    }
                    if t1.contains(i) {
                        let w = choose|w: int| 0 <= w < t1.len() && t1[w] == i;
                        if w < k - 1 {
                            assert(t0[w] == i);
                        }
                    }
                }
            }
        }
        proof {
            assert(rest@.take(k as int) =~= rest@);
        }
        acc
    }

    /// Create a new `PinWithName`
    ///
    /// Represents names info for multiple pins: `pins` strictly ascending and
    /// below 32, `label` the text of a C string (no NUL in it).
    pub fn new(pins: &[u32], label: Vec<u8>) -> (r: Self)
        requires
            fold_config_accepts(0, pins@),
            !label@.contains(0u8),
        ensures
            r.header == (EntryCommon { data_type: DataType::PinsWithName, tag: TAG_RASPBERRY_PI }),
            r.mask == pins_bits(pins@),
            forall|i: u32| i < 32 ==> (bit_set(r.mask, i) <==> pins@.contains(i)),
            r.label@ == label@,
    {
        let mask = Self::fold_config(0, pins);
        proof {
            let b = pins_bits(pins@);
            assert(0u32 | b == b) by (bit_vector);
            assert forall|i: u32| i < 32 implies !bit_set(0u32, i) by {
                assert(((0u32 >> i) & 1u32) == 0u32) by (bit_vector);
            }
        }
        PinsWithName {
            header: EntryCommon { data_type: DataType::PinsWithName, tag: TAG_RASPBERRY_PI },
            mask,
            label,
        }
    }

    /// Get this entry's address
    pub fn addr(&self) -> (r: EntryAddr)
        ensures
            r.0 != 0,
    {
        EntryAddr(address_of(self))
    }
}

/// A structure for multiple pins with function definition
#[derive(Clone, Copy, Debug, PartialEq, Eq, Structural)]
pub struct PinsWithFunction {
    /// Always `PinsWithFunction` data, tagged `TAG_RASPBERRY_PI`
    pub header: EntryCommon,
    /// The pins and their function, packed as `picotool` reads them
    pub encoding: u32,
}

impl PinsWithFunction {
    /// Put each of `values` in its 5-bit slot, the first in slot `position`,
    /// over `initial_value`, and the last one once more in the slot after
    /// it (`last_value` in the slot above 0 where `values` is empty).
    ///
    /// `None` where a value would go to slot 5 or beyond, whose shift is 32
    /// bits or more.
    pub fn fold_iter(initial_value: u32, values: &[u32], position: u32, last_value: u32) -> (r:
        Option<u32>)
        requires
            values.len() > 0 ==> 7 + 5 * position <= u32::MAX,
        ensures
            r == (if values.len() == 0 || position + values.len() <= 5 {
                Some(multi_encoding(initial_value, values@, position as int, last_value))
            } else {
                None
            }),
    {
        if values.len() == 0 {
            return Some(initial_value | (last_value << 5u32));
        }
        if position >= 5 {
            return None;
        }
        let mut acc: u32 = initial_value;
        let mut last: u32 = last_value;
        proof {
            assert(values@.take(0) =~= Seq::<u32>::empty());
            assert(initial_value | 0u32 == initial_value) by (bit_vector);
        }
        let mut k: usize = 0;
        while k < values.len()
            invariant
                0 < values.len(),
                position < 5,
                k <= values.len(),
                position + k <= 5,
                acc == initial_value | slots(values@.take(k as int), position as int),
                k > 0 ==> last == pin_slot(values@[k - 1], position + k - 1),
            decreases values.len() - k,
        {
            if position + (k as u32) >= 5 {
                return None;
            }
            let shift: u32 = 7 + 5 * (position + (k as u32));
            let value: u32 = values[k] << shift;
            proof {
                let t = values@.take(k + 1);
                assert(t.drop_last() =~= values@.take(k as int));
                assert(t.last() == values@[k as int]);
                assert(slots(t, position as int) == slots(values@.take(k as int), position as int)
                    | pin_slot(values@[k as int], position + k));
                lemma_or_assoc(
                    initial_value,
                    slots(values@.take(k as int), position as int),
                    pin_slot(values@[k as int], position + k),
                );
            }
            acc = acc | value;
            last = value;
            k = k + 1;
        }
        proof {
            assert(values@.take(k as int) =~= values@);
        }
        Some(acc | (last << 5u32))
    }

    /// Create a new `PinWithFunction` for multiple pins: at most 5 of them
    /// (a sixth would need a shift of 32 bits).
    pub fn new(pins: &[u32], func: GpioFunction) -> (r: Self)
        requires
            pins.len() <= 5,
        ensures
            r.header == (EntryCommon {
                data_type: DataType::PinsWithFunction,
                tag: TAG_RASPBERRY_PI,
            }),
            r.encoding == pins_encoding(pins@, func.spec_code()),
    {
        let func: u32 = func.code() << 3u32;
        let base: u32 = BI_PINS_ENCODING_MULTI | func;
        let encoding = match Self::fold_iter(base, pins, 0, 0) {
            Some(e) => e,
            None => {
                proof {
                    assert(false);
                }
                0
            },
        };
        PinsWithFunction {
            header: EntryCommon { data_type: DataType::PinsWithFunction, tag: TAG_RASPBERRY_PI },
            encoding,
        }
    }

    /// Create a new `PinsWithFunction` from a pins range
    ///
    /// Apply function `func` to pins range going from `pin_low` to `pin_high`
    pub fn new_range(pin_low: u32, pin_high: u32, func: GpioFunction) -> (r: Self)
        ensures
            r.header == (EntryCommon {
                data_type: DataType::PinsWithFunction,
                tag: TAG_RASPBERRY_PI,
            }),
            r.encoding == range_encoding(pin_low, pin_high, func.spec_code()),
    {
        let func: u32 = func.code() << 3u32;
        let base: u32 = BI_PINS_ENCODING_RANGE | func | (pin_low << 7u32) | (pin_high << 12u32);
        PinsWithFunction {
            header: EntryCommon { data_type: DataType::PinsWithFunction, tag: TAG_RASPBERRY_PI },
            encoding: base,
        }
    }

    /// Get this entry's address
    pub fn addr(&self) -> (r: EntryAddr)
        ensures
            r.0 != 0,
    {
        EntryAddr(address_of(self))
    }
}

} // verus!
