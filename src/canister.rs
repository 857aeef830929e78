//! Rules of the canister's interface that do not depend on the EVM canister.

use crate::error::Error;
use vstd::prelude::*;

verus! {

/// Source of price data for a manual update.
#[derive(Debug, Clone, Copy, PartialEq, Eq)]
pub enum ApiType {
    Coinbase,
    Coingecko,
}

/// Bytes of the anonymous principal.
pub open spec fn anonymous_bytes() -> Seq<u8> {
    seq![4u8]
}

/// Whether `caller` may change the canister: it is the owner, or no owner
/// has been set (the owner is the anonymous principal).
pub open spec fn owner_allows(owner: Seq<u8>, caller: Seq<u8>) -> bool {
    owner == caller || owner == anonymous_bytes()
}

/// Relies on `candid::Principal::anonymous`: the principal made of the single
/// byte 4.
#[verifier::external_body]
fn anonymous_principal() -> (r: Vec<u8>)
    ensures
        r@ == anonymous_bytes(),
{
    candid::Principal::anonymous().as_slice().to_vec()
}

fn same_bytes(a: &Vec<u8>, b: &Vec<u8>) -> (r: bool)
    ensures
        r == (a@ == b@),
{
    if a.len() != b.len() {
        return false;
    }
    let mut i: usize = 0;
    while i < a.len()
        invariant
            i <= a@.len(),
            a@.len() == b@.len(),
            forall|j: int| 0 <= j < i ==> a@[j] == b@[j],
        decreases a@.len() - i,
    {
        if a[i] != b[i] {
            return false;
        }
        i = i + 1;
    }
    assert(a@ =~= b@);
    true
}

/// Lets the owner through, and anyone while no owner has been set; principals
/// are given by their bytes.
pub fn check_owner(owner: &Vec<u8>, caller: &Vec<u8>) -> (r: Result<(), Error>)
    ensures
        owner_allows(owner@, caller@) ==> r == Ok::<(), Error>(()),
        !owner_allows(owner@, caller@) ==> r == Err::<(), Error>(Error::NotAuthorized),
{
    let anonymous = anonymous_principal();
    if same_bytes(owner, caller) || same_bytes(owner, &anonymous) {
        Ok(())
    } else {
        Err(Error::NotAuthorized)
    }
}

} // verus!
