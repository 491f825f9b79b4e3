//! What the compositor tells of the buffers it takes.

use vstd::prelude::*;

verus! {

/// Eight bytes as a number, the least significant one first.
pub open spec fn word64(bytes: Seq<u8>) -> int {
    bytes[0] + 0x100 * bytes[1] + 0x1_0000 * bytes[2] + 0x100_0000 * bytes[3] + 0x1_0000_0000
        * bytes[4] + 0x100_0000_0000 * bytes[5] + 0x1_0000_0000_0000 * bytes[6]
        + 0x100_0000_0000_0000 * bytes[7]
}

/// Four bytes as a number, the least significant one first.
pub open spec fn word32(bytes: Seq<u8>) -> int {
    bytes[0] + 0x100 * bytes[1] + 0x1_0000 * bytes[2] + 0x100_0000 * bytes[3]
}

/// Bytes, the least significant one first.
pub open spec fn ordered(bytes: Seq<u8>, little_endian: bool) -> Seq<u8> {
    if little_endian {
        bytes
    } else {
        bytes.reverse()
    }
}

/// The major number in a device number as Linux packs it.
pub open spec fn major_of(device: u64) -> u32 {
    (((device >> 8) & 0xfff) | ((device >> 32) & 0xffff_ffff_ffff_f000)) as u32
}

/// The minor number in a device number as Linux packs it.
pub open spec fn minor_of(device: u64) -> u32 {
    ((device & 0xff) | ((device >> 12) & 0xffff_ffff_ffff_ff00)) as u32
}

/// A device number as Linux packs it.
pub open spec fn packed(major: u32, minor: u32) -> u64 {
    ((major as u64 & 0xfff) << 8) | ((major as u64 & 0xffff_f000) << 32) | (minor as u64 & 0xff) | ((
    minor as u64 & 0xffff_ff00) << 12)
}

/// The device that the compositor names.
pub open spec fn named_device(device: Seq<u8>, little_endian: bool) -> Option<(u32, u32)> {
    if device.len() < 8 {
        None
    } else {
        let number = word64(ordered(device.take(8), little_endian)) as u64;
        Some((major_of(number), minor_of(number)))
    }
}

/// An entry of the format table: a format code and, after four bytes of padding, a
/// modifier.
pub open spec fn table_entry(table: Seq<u8>, index: int, little_endian: bool) -> (u32, u64) {
    let start = 16 * index;
    (
        word32(ordered(table.subrange(start, start + 4), little_endian)) as u32,
        word64(ordered(table.subrange(start + 8, start + 16), little_endian)) as u64,
    )
}

/// The entries of the format table. Bytes that are left over at its end do not
/// count.
pub open spec fn table_entries(table: Seq<u8>, little_endian: bool) -> Seq<(u32, u64)> {
    Seq::new(table.len() / 16, |index: int| table_entry(table, index, little_endian))
}

/// A device number and its two parts tell the same.
pub proof fn device_number_round_trips(major: u32, minor: u32)
    ensures
        major_of(packed(major, minor)) == major,
        minor_of(packed(major, minor)) == minor,
{
    let device = packed(major, minor);
    assert(((((device >> 8) & 0xfff) | ((device >> 32) & 0xffff_ffff_ffff_f000)) as u32) == major)
        by (bit_vector)
        requires
            device == ((major as u64 & 0xfff) << 8) | ((major as u64 & 0xffff_f000) << 32) | (
            minor as u64 & 0xff) | ((minor as u64 & 0xffff_ff00) << 12),
    ;
    assert((((device & 0xff) | ((device >> 12) & 0xffff_ffff_ffff_ff00)) as u32) == minor)
        by (bit_vector)
        requires
            device == ((major as u64 & 0xfff) << 8) | ((major as u64 & 0xffff_f000) << 32) | (
            minor as u64 & 0xff) | ((minor as u64 & 0xffff_ff00) << 12),
    ;
}

/// Calls `u16::from_ne_bytes`. Claimed is that the two bytes are read in one of the
/// two orders; which one depends on the machine.
#[verifier::external_body]
fn from_native_bytes(bytes: [u8; 2]) -> (value: u16)
    ensures
        value == bytes@[0] + 0x100 * bytes@[1] || value == bytes@[1] + 0x100 * bytes@[0],
{
    u16::from_ne_bytes(bytes)
}

/// Whether an order is one that the machine was seen to read in: the bytes one and
/// zero come to one where the least significant byte stands first.
pub closed spec fn machine_order(little_endian: bool) -> bool {
    exists|bytes: [u8; 2], value: u16| #[trigger]
        call_ensures(from_native_bytes, (bytes,), value) && bytes@ == seq![1u8, 0u8]
            && little_endian == (value == 1)
}

/// Whether the machine reads the least significant byte first.
fn machine_is_little_endian() -> (little_endian: bool)
    ensures
        machine_order(little_endian),
{
    from_native_bytes([1, 0]) == 1
}

fn read_word64(bytes: &[u8], start: usize, little_endian: bool) -> (value: u64)
    requires
        start + 8 <= bytes@.len(),
    ensures
        value == word64(ordered(bytes@.subrange(start as int, start + 8), little_endian)),
{
    let ghost word = bytes@.subrange(start as int, start + 8);
    assert(word.reverse() =~= seq![
        word[7],
        word[6],
        word[5],
        word[4],
        word[3],
        word[2],
        word[1],
        word[0],
    ]);
    let b0: u64 = bytes[start] as u64;
    let b1: u64 = bytes[start + 1] as u64;
    let b2: u64 = bytes[start + 2] as u64;
    let b3: u64 = bytes[start + 3] as u64;
    let b4: u64 = bytes[start + 4] as u64;
    let b5: u64 = bytes[start + 5] as u64;
    let b6: u64 = bytes[start + 6] as u64;
    let b7: u64 = bytes[start + 7] as u64;
    if little_endian {
        b0 + 0x100 * b1 + 0x1_0000 * b2 + 0x100_0000 * b3 + 0x1_0000_0000 * b4 + 0x100_0000_0000
            * b5 + 0x1_0000_0000_0000 * b6 + 0x100_0000_0000_0000 * b7
    } else {
        b7 + 0x100 * b6 + 0x1_0000 * b5 + 0x100_0000 * b4 + 0x1_0000_0000 * b3 + 0x100_0000_0000
            * b2 + 0x1_0000_0000_0000 * b1 + 0x100_0000_0000_0000 * b0
    }
}

fn read_word32(bytes: &[u8], start: usize, little_endian: bool) -> (value: u32)
    requires
        start + 4 <= bytes@.len(),
    ensures
        value == word32(ordered(bytes@.subrange(start as int, start + 4), little_endian)),
{
    let ghost word = bytes@.subrange(start as int, start + 4);
    assert(word.reverse() =~= seq![word[3], word[2], word[1], word[0]]);
    let b0: u32 = bytes[start] as u32;
    let b1: u32 = bytes[start + 1] as u32;
    let b2: u32 = bytes[start + 2] as u32;
    let b3: u32 = bytes[start + 3] as u32;
    if little_endian {
        b0 + 0x100 * b1 + 0x1_0000 * b2 + 0x100_0000 * b3
    } else {
        b3 + 0x100 * b2 + 0x1_0000 * b1 + 0x100_0000 * b0
    }
}

/// The major and the minor number in a device number.
pub fn device_numbers(device: u64) -> (numbers: (u32, u32))
    ensures
        numbers == (major_of(device), minor_of(device)),
{
    let major: u32 = (((device >> 8) & 0xfff) | ((device >> 32) & 0xffff_ffff_ffff_f000)) as u32;
    let minor: u32 = ((device & 0xff) | ((device >> 12) & 0xffff_ffff_ffff_ff00)) as u32;
    (major, minor)
}

/// The device that the compositor names, in a given byte order: none where the
/// name is too short.
pub fn main_device_in_order(device: &[u8], little_endian: bool) -> (numbers: Option<(u32, u32)>)
    ensures
        numbers == named_device(device@, little_endian),
{
    if device.len() < 8 {
        return None;
    }
    assert(device@.take(8) =~= device@.subrange(0, 8));
    Some(device_numbers(read_word64(device, 0, little_endian)))
}

/// The device that the compositor names, in the byte order of the machine: none
/// where the name is too short.
pub fn main_device(device: &[u8]) -> (numbers: Option<(u32, u32)>)
    ensures
        numbers is Some <==> device@.len() >= 8,
        exists|little_endian: bool| #[trigger]
            machine_order(little_endian) && numbers == named_device(device@, little_endian),
{
    let little_endian: bool = machine_is_little_endian();
    main_device_in_order(device, little_endian)
}

/// The entries of the format table, in a given byte order.
pub fn format_table_in_order(table: &[u8], little_endian: bool) -> (entries: Vec<(u32, u64)>)
    ensures
        entries@ == table_entries(table@, little_endian),
{
    let size: usize = table.len();
    let count: usize = size / 16;
    let mut entries: Vec<(u32, u64)> = Vec::new();
    for index in 0..count
        invariant
            size == table@.len(),
            count == size / 16,
            entries@ == table_entries(table@, little_endian).take(index as int),
    {
        let start: usize = index * 16;
        let format: u32 = read_word32(table, start, little_endian);
        let modifier: u64 = read_word64(table, start + 8, little_endian);
        entries.push((format, modifier));
        assert(entries@ =~= table_entries(table@, little_endian).take(index + 1));
    }
    assert(entries@ =~= table_entries(table@, little_endian));
    entries
}

/// The entries of the format table, in the byte order of the machine.
pub fn format_table(table: &[u8]) -> (entries: Vec<(u32, u64)>)
    ensures
        exists|little_endian: bool| #[trigger]
            machine_order(little_endian) && entries@ == table_entries(table@, little_endian),
{
    let little_endian: bool = machine_is_little_endian();
    format_table_in_order(table, little_endian)
}

/// A device number that was packed from two parts is read as these parts.
pub proof fn packed_numbers_are_read_back(major: u32, minor: u32, numbers: (u32, u32))
    requires
        call_ensures(device_numbers, (packed(major, minor),), numbers),
    ensures
        numbers == (major, minor),
{
    device_number_round_trips(major, minor);
}

/// The device is named by the first eight bytes alone, the least significant one at the
/// end that the byte order says; fewer bytes name none.
pub proof fn device_is_named_by_eight_bytes(
    device: &[u8],
    backwards: &[u8],
    numbers: Option<(u32, u32)>,
    reversed: Option<(u32, u32)>,
    number: u64,
    parts: (u32, u32),
)
    requires
        call_ensures(main_device_in_order, (device, true), numbers),
        call_ensures(main_device_in_order, (backwards, false), reversed),
        call_ensures(device_numbers, (number,), parts),
        device@.len() >= 8 && backwards@.len() >= 8 ==> forall|at: int|
            0 <= at < 8 ==> #[trigger] backwards@[at] == device@[7 - at],
        device@.len() >= 8 ==> number == device@[0] + 0x100 * device@[1] + 0x1_0000 * device@[2]
            + 0x100_0000 * device@[3] + 0x1_0000_0000 * device@[4] + 0x100_0000_0000 * device@[5]
            + 0x1_0000_0000_0000 * device@[6] + 0x100_0000_0000_0000 * device@[7],
    ensures
        numbers is None <==> device@.len() < 8,
        reversed is None <==> backwards@.len() < 8,
        device@.len() >= 8 ==> numbers == Some(parts),
        device@.len() >= 8 && backwards@.len() >= 8 ==> reversed == numbers,
{
    if device@.len() >= 8 && backwards@.len() >= 8 {
        assert(backwards@.take(8).reverse() =~= device@.take(8));
    }
}

/// The table has an entry for every sixteen bytes: the format in the first four, the
/// modifier in the last eight, each with the least significant byte at the end that the
/// byte order says.
pub proof fn table_is_read_entry_by_entry(
    table: &[u8],
    entries: Vec<(u32, u64)>,
    swapped: Vec<(u32, u64)>,
    index: int,
)
    requires
        call_ensures(format_table_in_order, (table, true), entries),
        call_ensures(format_table_in_order, (table, false), swapped),
    ensures
        entries@.len() == table@.len() / 16,
        swapped@.len() == table@.len() / 16,
        0 <= index < entries@.len() ==> {
            let at = 16 * index;
            &&& entries@[index].0 == table@[at] + 0x100 * table@[at + 1] + 0x1_0000 * table@[at + 2]
                + 0x100_0000 * table@[at + 3]
            &&& swapped@[index].0 == table@[at + 3] + 0x100 * table@[at + 2] + 0x1_0000 * table@[at
                + 1] + 0x100_0000 * table@[at]
            &&& entries@[index].1 == table@[at + 8] + 0x100 * table@[at + 9] + 0x1_0000 * table@[at
                + 10] + 0x100_0000 * table@[at + 11] + 0x1_0000_0000 * table@[at + 12]
                + 0x100_0000_0000 * table@[at + 13] + 0x1_0000_0000_0000 * table@[at + 14]
                + 0x100_0000_0000_0000 * table@[at + 15]
            &&& swapped@[index].1 == table@[at + 15] + 0x100 * table@[at + 14] + 0x1_0000 * table@[at
                + 13] + 0x100_0000 * table@[at + 12] + 0x1_0000_0000 * table@[at + 11]
                + 0x100_0000_0000 * table@[at + 10] + 0x1_0000_0000_0000 * table@[at + 9]
                + 0x100_0000_0000_0000 * table@[at + 8]
        },
{
    if 0 <= index < entries@.len() {
        let at = 16 * index;
        let format = table@.subrange(at, at + 4);
        let modifier = table@.subrange(at + 8, at + 16);
        assert(entries@[index] == table_entry(table@, index, true));
        assert(swapped@[index] == table_entry(table@, index, false));
        assert(format.reverse() =~= seq![format[3], format[2], format[1], format[0]]);
        assert(modifier.reverse() =~= seq![
            modifier[7],
            modifier[6],
            modifier[5],
            modifier[4],
            modifier[3],
            modifier[2],
            modifier[1],
            modifier[0],
        ]);
    }
}

} // verus!
