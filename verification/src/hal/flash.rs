//! Internal flash programming.

use vstd::prelude::*;

verus! {

/// Bank-erasable, page-programmable internal flash.
pub trait Flash {
    type Error;

    /// Erases every sector of `bank`.
    fn erase_bank(&mut self, bank: u8) -> Result<(), Self::Error>;

    /// Programs `data` at `page_address`.
    fn program_page(&mut self, page_address: u32, data: &[u8]) -> Result<(), Self::Error>;
}

} // verus!
