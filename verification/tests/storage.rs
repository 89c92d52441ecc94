use oxide_motive::storage::{
    check_bank, header_address, header_admits_tables, next_bank_to_try, table_address, table_checksum, TableHeader,
    TABLE_MAGIC,
};

#[test]
fn checksum_is_crc32_iso_hdlc() {
    assert_eq!(table_checksum(b"123456789"), 0xCBF4_3926);
    assert_eq!(table_checksum(&[]), 0);
}

fn header(size: u32, crc32: u32, is_active: bool) -> TableHeader {
    TableHeader { magic: TABLE_MAGIC, version: 1, size, crc32, is_active }
}

#[test]
fn bank_with_matching_checksum_is_trusted() {
    let mut table = [0xFFu8; 1024];
    table[..9].copy_from_slice(b"123456789");
    assert_eq!(check_bank(&header(9, 0xCBF4_3926, true), &table), Ok(()));
}

#[test]
fn bank_with_wrong_checksum_magic_or_flag_is_rejected() {
    let mut table = [0xFFu8; 1024];
    table[..9].copy_from_slice(b"123456789");
    assert_eq!(check_bank(&header(9, 0xCBF4_3927, true), &table), Err(()));
    assert_eq!(check_bank(&header(8, 0xCBF4_3926, true), &table), Err(()));
    assert_eq!(check_bank(&header(9, 0xCBF4_3926, false), &table), Err(()));
    let mut wrong_magic = header(9, 0xCBF4_3926, true);
    wrong_magic.magic = 0xFEED_BEEF;
    assert_eq!(check_bank(&wrong_magic, &table), Err(()));
    // An inactive header is rejected whatever size it claims.
    assert_eq!(check_bank(&header(5000, 0, false), &table), Err(()));
}

#[test]
fn bank_addresses() {
    assert_eq!(header_address(0), 0);
    assert_eq!(header_address(1), 0x10_0000);
    assert_eq!(table_address(0), 17);
    assert_eq!(table_address(1), 0x10_0011);
    assert_eq!(next_bank_to_try(0), Some(1));
    assert_eq!(next_bank_to_try(1), None);
}

#[test]
fn header_admits_tables_needs_magic_and_active_flag() {
    assert!(header_admits_tables(&header(0, 0, true)));
    assert!(!header_admits_tables(&header(0, 0, false)));
    let mut h = header(0, 0, true);
    h.magic = 0;
    assert!(!header_admits_tables(&h));
}
