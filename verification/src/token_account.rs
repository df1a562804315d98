//! Decoding a ledger account blob into a token-account record, and the
//! initialization check.

use vstd::prelude::*;

use crate::accounts::AccountHandle;
use crate::errors::ErrorCode;

verus! {

/// The fields of a token-account record that this core reads: the token
/// mint, the holding authority, the balance, and whether the record has been
/// initialized.
#[derive(Debug)]
pub struct TokenRecord {
    pub mint: Vec<u8>,
    pub owner: Vec<u8>,
    pub amount: u64,
    pub initialized: bool,
}

/// Mathematical model of a token-account record.
pub struct TokenRecordView {
    pub mint: Seq<u8>,
    pub owner: Seq<u8>,
    pub amount: u64,
    pub initialized: bool,
}

impl View for TokenRecord {
    type V = TokenRecordView;

    open spec fn view(&self) -> TokenRecordView {
        TokenRecordView {
            mint: self.mint@,
            owner: self.owner@,
            amount: self.amount,
            initialized: self.initialized,
        }
    }
}

/// The record that the token program's account layout gives for `data`, or
/// `None` where `data` does not decode to one. The decode is a function of
/// the bytes alone.
pub uninterp spec fn token_account_of(data: Seq<u8>) -> Option<TokenRecordView>;

/// Relies on `spl_token::state::Account::unpack_unchecked`: it decodes a
/// token-account blob without strict validation of internal fields, failing
/// exactly on bytes that are no well-formed record, and the record is a
/// function of the bytes alone. The record counts as initialized when its
/// state is not the uninitialized one.
#[verifier::external_body]
pub(crate) fn unpack_token_account(data: &[u8]) -> (r: Result<TokenRecord, ErrorCode>)
    ensures
        r is Ok <==> token_account_of(data@) is Some,
        r matches Ok(rec) ==> token_account_of(data@) == Some(rec@),
        r matches Err(e) ==> e == ErrorCode::DecodeFailed,
{
    match <spl_token::state::Account as solana_program::program_pack::Pack>::unpack_unchecked(data) {
        Ok(acc) => Ok(TokenRecord {
            mint: acc.mint.to_bytes().to_vec(),
            owner: acc.owner.to_bytes().to_vec(),
            amount: acc.amount,
            initialized: match acc.state {
                spl_token::state::AccountState::Uninitialized => false,
                _ => true,
            },
        }),
        Err(_) => Err(ErrorCode::DecodeFailed),
    }
}

/// What `assert_initialized` returns for an account whose data is `data`:
/// the decoded record where it decodes and is initialized, `Uninitialized`
/// where it decodes with the flag false, and `DecodeFailed` where it does
/// not decode.
pub open spec fn assert_initialized_spec(data: Seq<u8>) -> Result<TokenRecordView, ErrorCode> {
    match token_account_of(data) {
        Option::None => Result::Err(ErrorCode::DecodeFailed),
        Option::Some(rec) => if rec.initialized {
            Result::Ok(rec)
        } else {
            Result::Err(ErrorCode::Uninitialized)
        },
    }
}

/// Decodes the account's data blob into a token-account record without
/// strict validation, then requires the record's initialized flag to be
/// true. Returns the decoded record on success; fails with `Uninitialized`
/// on a record whose flag is false, and with the decode-error kind on bytes
/// that are no record at all. The check is pure: no state is touched.
pub fn assert_initialized(account: &AccountHandle) -> (r: Result<TokenRecord, ErrorCode>)
    ensures
        r matches Ok(rec) ==> assert_initialized_spec(account.data@) == Result::<TokenRecordView, ErrorCode>::Ok(rec@),
        r matches Err(e) ==> assert_initialized_spec(account.data@) == Result::<TokenRecordView, ErrorCode>::Err(e),
{
    match unpack_token_account(account.data.as_slice()) {
        Err(e) => Err(e),
        Ok(rec) => {
            if rec.initialized {
                Ok(rec)
            } else {
                Err(ErrorCode::Uninitialized)
            }
        },
    }
}

} // verus!
