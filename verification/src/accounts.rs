//! Ledger identities, account handles, and the ownership check.

use vstd::prelude::*;

use crate::errors::ErrorCode;

verus! {

/// A 32-byte ledger identity (a public key).
pub struct AccountId {
    pub bytes: Vec<u8>,
}

impl View for AccountId {
    type V = Seq<u8>;

    open spec fn view(&self) -> Seq<u8> {
        self.bytes@
    }
}

impl AccountId {
    /// A well-formed identity is exactly 32 bytes long.
    pub open spec fn wf(&self) -> bool {
        self@.len() == 32
    }

    /// Byte-for-byte equality of two identities.
    pub fn eq_id(&self, other: &AccountId) -> (r: bool)
        ensures
            r == (self@ == other@),
    {
        if self.bytes.len() != other.bytes.len() {
            return false;
        }
        let n = self.bytes.len();
        let mut i: usize = 0;
        while i < n
            invariant
                0 <= i <= n,
                n == self@.len(),
                n == other@.len(),
                forall|j: int| 0 <= j < i ==> self@[j] == other@[j],
            decreases n - i,
        {
            if self.bytes[i] != other.bytes[i] {
                return false;
            }
            i = i + 1;
        }
        proof {
            assert(self@ =~= other@);
        }
        true
    }
}

/// A handle on a ledger-resident account: its address, the identity of the
/// program that owns it, its raw data blob, and its mutability flag. The
/// backing storage belongs to the runtime; this core only inspects it.
pub struct AccountHandle {
    pub key: AccountId,
    pub owner: AccountId,
    pub data: Vec<u8>,
    pub is_writable: bool,
}

impl AccountHandle {
    pub open spec fn wf(&self) -> bool {
        self.key.wf() && self.owner.wf()
    }
}

/// Checks that `account` is owned by `owner`: an exact identity match is
/// required, and any mismatch fails with `IncorrectOwner`.
pub fn assert_owned_by(account: &AccountHandle, owner: &AccountId) -> (r: Result<(), ErrorCode>)
    ensures
        r is Ok <==> account.owner@ == owner@,
        r is Err ==> r == Err::<(), ErrorCode>(ErrorCode::IncorrectOwner),
{
    if account.owner.eq_id(owner) {
        Ok(())
    } else {
        Err(ErrorCode::IncorrectOwner)
    }
}

/// The ownership check fails exactly when the two identities differ in at
/// least one byte position (the lengths being equal).
pub proof fn lemma_owner_mismatch_iff_byte_differs(a: Seq<u8>, b: Seq<u8>)
    requires
        a.len() == b.len(),
    ensures
        (a != b) <==> (exists|i: int| 0 <= i < a.len() && a[i] != b[i]),
{
    if forall|i: int| 0 <= i < a.len() ==> a[i] == b[i] {
        assert(a =~= b);
    }
}

} // verus!
