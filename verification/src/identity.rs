//! Identities: the 32-byte addresses that name holders and authorities.

use anchor_lang::prelude::Pubkey;
use vstd::prelude::*;

verus! {

/// `Pubkey` is carried through the ledger as an opaque value: the ledger
/// stores identities and compares them, and never looks at their bytes.
#[verifier::external_type_specification]
#[verifier::external_body]
pub struct ExPubkey(Pubkey);

/// Whether two identities are the same one.
///
/// Trusted, not proved. The body calls `PartialEq::eq` of `Pubkey`, which
/// the address crate derives for its one field, the array of 32 bytes. The
/// contract claims that this comparison returns `true` exactly when the two
/// values are equal as Verus sees them, that is, when nothing tells them
/// apart.
#[verifier::external_body]
pub(crate) fn same_identity(a: &Pubkey, b: &Pubkey) -> (same: bool)
    ensures
        same == (*a == *b),
{
    a == b
}

} // verus!
