//! Length-prefixed message framing between host processes.

use vstd::prelude::*;

verus! {

/// An IPC channel on Redox OS, through a scheme file descriptor.
pub struct RedoxIpc {
    pub fd: usize,
}

/// A 32-bit big-endian length.
pub open spec fn be32(n: u32) -> Seq<u8> {
    seq![(n / 0x1000000) as u8, ((n / 0x10000) % 256) as u8, ((n / 0x100) % 256) as u8, (n % 256) as u8]
}

/// The value of a 32-bit big-endian length.
pub open spec fn be32_value(b: Seq<u8>) -> int {
    b[0] * 0x1000000 + b[1] * 0x10000 + b[2] * 0x100 + b[3]
}

/// The four-byte length prefix sent before a message of `len` bytes; the
/// length is sent as a 32-bit value.
pub fn length_prefix(len: usize) -> (prefix: [u8; 4])
    ensures
        prefix@ == be32(len as u32),
{
    let n: u32 = len as u32;
    let prefix: [u8; 4] = [
        (n / 0x1000000) as u8,
        ((n / 0x10000) % 256) as u8,
        ((n / 0x100) % 256) as u8,
        (n % 256) as u8,
    ];
    proof {
        assert(prefix@ =~= be32(n));
    }
    prefix
}

/// The message length announced by a received prefix.
pub fn prefix_length(prefix: [u8; 4]) -> (len: u32)
    ensures
        len == be32_value(prefix@),
{
    (prefix[0] as u32) * 0x1000000 + (prefix[1] as u32) * 0x10000 + (prefix[2] as u32) * 0x100 + (prefix[3] as u32)
}

/// A prefix announces the length it was made for, for any message shorter
/// than 4 GiB.
pub proof fn lemma_prefix_round_trip(len: u32)
    ensures
        be32_value(be32(len)) == len,
{
    let b = be32(len);
    assert(b[0] == len / 0x1000000);
    assert(b[1] == (len / 0x10000) % 256);
    assert(b[2] == (len / 0x100) % 256);
    assert(b[3] == len % 256);
    assert(len == (len / 0x1000000) * 0x1000000 + ((len / 0x10000) % 256) * 0x10000 + ((len / 0x100) % 256) * 0x100
        + len % 256) by (nonlinear_arith);
}

} // verus!
