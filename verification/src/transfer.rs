//! The balance-transfer executor: preparing an authorized token transfer
//! under a seed-derived authority, and interpreting the runtime's outcome.

use vstd::prelude::*;

use crate::accounts::AccountHandle;
use crate::errors::ErrorCode;
use crate::instructions::{
    InstructionModel, build_token_transfer_ix, spl_token_program_id, token_transfer_ix,
};

verus! {

/// Everything one authorized token transfer needs: source, destination and
/// authority accounts, the amount, the token-program identity, and the seed
/// material from which the runtime derives the authority's signature proof.
/// The seeds are transient — used for one call, never persisted.
pub struct TokenTransferParams {
    pub source: AccountHandle,
    pub destination: AccountHandle,
    pub amount: u64,
    pub authority: AccountHandle,
    pub authority_signer_seeds: Vec<Vec<u8>>,
    pub token_program: AccountHandle,
}

impl TokenTransferParams {
    pub open spec fn wf(&self) -> bool {
        &&& self.source.wf()
        &&& self.destination.wf()
        &&& self.authority.wf()
        &&& self.token_program.wf()
    }
}

/// Prepares the transfer instruction for the given parameters: addressed to
/// the token program, naming source, destination and authority with zero
/// multi-signer co-signers, for the exact amount. The runtime executes it
/// under the seed-derived authority proof; preparation itself fails exactly
/// when the named token-program identity is not the token program's.
pub fn spl_token_transfer(params: &TokenTransferParams) -> (r: Result<InstructionModel, ErrorCode>)
    requires
        params.wf(),
    ensures
        r is Ok <==> params.token_program.key@ == spl_token_program_id(),
        r matches Ok(ix) ==> ix@ == token_transfer_ix(
            params.token_program.key@,
            params.source.key@,
            params.destination.key@,
            params.authority.key@,
            params.amount,
        ),
        r matches Err(e) ==> e == ErrorCode::IncorrectProgramId,
{
    build_token_transfer_ix(
        &params.token_program.key,
        &params.source.key,
        &params.destination.key,
        &params.authority.key,
        params.amount,
    )
}

/// Collapses the runtime's execution outcome of a prepared token transfer to
/// this core's single error kind: any failure — insufficient balance, frozen
/// account, bad mint, wrong program — becomes `TokenTransferFailed`, and the
/// original cause is not preserved at this layer.
pub fn collapse_transfer_outcome(executed: bool) -> (r: Result<(), ErrorCode>)
    ensures
        executed ==> r is Ok,
        !executed ==> r == Err::<(), ErrorCode>(ErrorCode::TokenTransferFailed),
{
    if executed {
        Ok(())
    } else {
        Err(ErrorCode::TokenTransferFailed)
    }
}

} // verus!
