use vstd::prelude::*;

verus! {

/// Why an instruction is refused.
#[derive(Clone, Copy, Debug, PartialEq, Eq)]
pub enum ErrorCode {
    /// The parameters chosen for a new tranche are refused.
    InvalidInput,
    /// The tranche token amounts, or the amounts they entitle to, do not add up.
    InvalidTrancheAmount,
}

} // verus!
