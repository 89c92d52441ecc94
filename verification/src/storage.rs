//! Calibration-table banks in external flash: where each bank lives and
//! when its contents may be trusted.

use crc::{Crc, CRC_32_ISO_HDLC};
use vstd::prelude::*;

verus! {

/// The header that precedes the calibration tables of a flash bank.
#[derive(Debug, Clone, Copy, PartialEq, Eq, Structural)]
pub struct TableHeader {
    pub magic: u32,
    pub version: u32,
    pub size: u32,
    pub crc32: u32,
    pub is_active: bool,
}

/// The magic number of a written bank header.
pub const TABLE_MAGIC: u32 = 0xDEADBEEF;

/// Distance between the starts of consecutive banks.
pub const BANK_STRIDE: u32 = 0x100000;

/// The in-memory size of a packed header: four 32-bit fields and a flag.
pub const HEADER_SIZE: u32 = 17;

/// The number of table bytes read from a bank.
pub const TABLE_AREA: usize = 1024;

/// The CRC-32/ISO-HDLC checksum of `data`, as the `crc` crate computes it.
pub uninterp spec fn crc32_iso_hdlc(data: Seq<u8>) -> u32;

/// `Crc::<u32>::checksum` with the `CRC_32_ISO_HDLC` algorithm; its value
/// is left to the name `crc32_iso_hdlc`, a function of the bytes alone.
#[verifier::external_body]
fn crc32_checksum(data: &[u8]) -> (c: u32)
    ensures
        c == crc32_iso_hdlc(data@),
{
    Crc::<u32>::new(&CRC_32_ISO_HDLC).checksum(data)
}

/// The CRC-32/ISO-HDLC checksum of `data`.
pub fn table_checksum(data: &[u8]) -> (c: u32)
    ensures
        c == crc32_iso_hdlc(data@),
{
    crc32_checksum(data)
}

/// Where the header of `bank` starts.
pub fn header_address(bank: u32) -> (a: u32)
    requires
        bank * BANK_STRIDE <= u32::MAX,
    ensures
        a == bank * BANK_STRIDE,
{
    bank * BANK_STRIDE
}

/// Where the tables of `bank` start: right after its header.
pub fn table_address(bank: u32) -> (a: u32)
    requires
        bank * BANK_STRIDE + HEADER_SIZE <= u32::MAX,
    ensures
        a == bank * BANK_STRIDE + HEADER_SIZE,
{
    bank * BANK_STRIDE + HEADER_SIZE
}

/// A bank's tables are trusted when its header carries the magic number,
/// is marked active, and the checksum of the first `size` table bytes
/// matches the header.
pub open spec fn bank_valid(header: TableHeader, table: Seq<u8>) -> bool {
    &&& header.magic == TABLE_MAGIC
    &&& header.is_active
    &&& crc32_iso_hdlc(table.take(header.size as int)) == header.crc32
}

/// Whether a bank's header lets its tables be read at all: it carries the
/// magic number and is marked active.
pub fn header_admits_tables(header: &TableHeader) -> (ok: bool)
    ensures
        ok == (header.magic == TABLE_MAGIC && header.is_active),
{
    header.magic == TABLE_MAGIC && header.is_active
}

/// Checks a bank's header against its table bytes. A header that passes
/// the magic and active checks must not claim more bytes than were read.
pub fn check_bank(header: &TableHeader, table: &[u8]) -> (r: Result<(), ()>)
    requires
        header.magic == TABLE_MAGIC && header.is_active ==> header.size <= table@.len(),
    ensures
        r is Ok <==> bank_valid(*header, table@),
{
    if !header_admits_tables(header) {
        return Err(());
    }
    let used = &table[0..header.size as usize];
    proof {
        assert(used@ =~= table@.take(header.size as int));
    }
    if crc32_checksum(used) != header.crc32 {
        return Err(());
    }
    Ok(())
}

/// The bank to try after `failed_bank` turned out invalid: the backup bank
/// after the primary one, then none (the built-in defaults are used).
pub fn next_bank_to_try(failed_bank: u32) -> (next: Option<u32>)
    ensures
        next == (if failed_bank == 0 { Some(1u32) } else { None::<u32> }),
{
    if failed_bank == 0 {
        Some(1)
    } else {
        None
    }
}

/// A bank is never trusted with a header that is inactive or lacks the
/// magic number, whatever its contents.
pub proof fn lemma_inactive_bank_rejected(header: TableHeader, table: Seq<u8>)
    requires
        header.magic != TABLE_MAGIC || !header.is_active,
    ensures
        !bank_valid(header, table),
{
}

} // verus!
