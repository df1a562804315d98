//! Models of the runtime instructions this core prepares, and the trusted
//! builders that produce them from the token program and the system program.

use vstd::prelude::*;

use solana_program::pubkey::Pubkey;

use crate::accounts::AccountId;
use crate::errors::ErrorCode;

verus! {

/// One account named by an instruction, with its signer and writability
/// flags.
#[derive(Debug, PartialEq, Eq)]
pub struct AccountMetaModel {
    pub pubkey: Vec<u8>,
    pub is_signer: bool,
    pub is_writable: bool,
}

/// Mathematical model of an account named by an instruction.
pub struct AccountMetaView {
    pub pubkey: Seq<u8>,
    pub is_signer: bool,
    pub is_writable: bool,
}

impl View for AccountMetaModel {
    type V = AccountMetaView;

    open spec fn view(&self) -> AccountMetaView {
        AccountMetaView { pubkey: self.pubkey@, is_signer: self.is_signer, is_writable: self.is_writable }
    }
}

/// A runtime instruction: the program addressed, the accounts it touches,
/// and its serialized payload. The enclosing runtime executes it; this core
/// only constructs it.
#[derive(Debug, PartialEq, Eq)]
pub struct InstructionModel {
    pub program_id: Vec<u8>,
    pub accounts: Vec<AccountMetaModel>,
    pub data: Vec<u8>,
}

/// Mathematical model of a runtime instruction.
pub struct InstructionView {
    pub program_id: Seq<u8>,
    pub accounts: Seq<AccountMetaView>,
    pub data: Seq<u8>,
}

impl View for InstructionModel {
    type V = InstructionView;

    open spec fn view(&self) -> InstructionView {
        InstructionView {
            program_id: self.program_id@,
            accounts: self.accounts@.map_values(|m: AccountMetaModel| m@),
            data: self.data@,
        }
    }
}

/// The eight bytes of `x` in little-endian order.
pub open spec fn le_bytes64(x: u64) -> Seq<u8> {
    seq![
        x as u8,
        (x >> 8) as u8,
        (x >> 16) as u8,
        (x >> 24) as u8,
        (x >> 32) as u8,
        (x >> 40) as u8,
        (x >> 48) as u8,
        (x >> 56) as u8,
    ]
}

/// The token program's identity.
pub open spec fn spl_token_program_id() -> Seq<u8> {
    seq![
        6u8, 221u8, 246u8, 225u8, 215u8, 101u8, 161u8, 147u8,
        217u8, 203u8, 225u8, 70u8, 206u8, 235u8, 121u8, 172u8,
        28u8, 180u8, 133u8, 237u8, 95u8, 91u8, 55u8, 145u8,
        58u8, 140u8, 245u8, 133u8, 126u8, 255u8, 0u8, 169u8,
    ]
}

/// The token program's identity as a value, for callers and for holding the
/// constant against the token program itself.
pub fn spl_token_program_id_bytes() -> (r: Vec<u8>)
    ensures
        r@ == spl_token_program_id(),
{
    let r: Vec<u8> = vec![
        6u8, 221u8, 246u8, 225u8, 215u8, 101u8, 161u8, 147u8,
        217u8, 203u8, 225u8, 70u8, 206u8, 235u8, 121u8, 172u8,
        28u8, 180u8, 133u8, 237u8, 95u8, 91u8, 55u8, 145u8,
        58u8, 140u8, 245u8, 133u8, 126u8, 255u8, 0u8, 169u8,
    ];
    proof {
        assert(r@ =~= spl_token_program_id());
    }
    r
}

/// The system program's identity: thirty-two zero bytes.
pub open spec fn system_program_id() -> Seq<u8> {
    Seq::new(32, |i: int| 0u8)
}

/// The token-program transfer instruction for `amount` tokens from `source`
/// to `dest`, authorized by `authority` with no additional co-signers: the
/// source and destination are writable, the authority is the sole signer,
/// and the payload is the transfer tag byte followed by the amount in
/// little-endian order.
pub open spec fn token_transfer_ix(
    program: Seq<u8>,
    source: Seq<u8>,
    dest: Seq<u8>,
    authority: Seq<u8>,
    amount: u64,
) -> InstructionView {
    InstructionView {
        program_id: program,
        accounts: seq![
            AccountMetaView { pubkey: source, is_signer: false, is_writable: true },
            AccountMetaView { pubkey: dest, is_signer: false, is_writable: true },
            AccountMetaView { pubkey: authority, is_signer: true, is_writable: false },
        ],
        data: seq![3u8] + le_bytes64(amount),
    }
}

/// The system-program transfer instruction moving `lamports` of native
/// currency from `from` to `to`: the funding account signs and both accounts
/// are writable, and the payload is the transfer variant index as four
/// little-endian bytes followed by the amount in little-endian order.
pub open spec fn system_transfer_ix(from: Seq<u8>, to: Seq<u8>, lamports: u64) -> InstructionView {
    InstructionView {
        program_id: system_program_id(),
        accounts: seq![
            AccountMetaView { pubkey: from, is_signer: true, is_writable: true },
            AccountMetaView { pubkey: to, is_signer: false, is_writable: true },
        ],
        data: seq![2u8, 0u8, 0u8, 0u8] + le_bytes64(lamports),
    }
}

/// Relies on `spl_token::instruction::transfer`: it returns the transfer
/// instruction addressed to `token_program` — writable source and
/// destination, the authority as sole read-only signer, and a payload of the
/// tag byte 3 followed by the amount in little-endian order — and fails with
/// the runtime's incorrect-program-id error exactly when `token_program` is
/// not the token program's identity.
#[verifier::external_body]
#[allow(deprecated)]
pub(crate) fn build_token_transfer_ix(
    token_program: &AccountId,
    source: &AccountId,
    destination: &AccountId,
    authority: &AccountId,
    amount: u64,
) -> (r: Result<InstructionModel, ErrorCode>)
    requires
        token_program.wf(),
        source.wf(),
        destination.wf(),
        authority.wf(),
    ensures
        r is Ok <==> token_program@ == spl_token_program_id(),
        r matches Ok(ix) ==> ix@ == token_transfer_ix(token_program@, source@, destination@, authority@, amount),
        r matches Err(e) ==> e == ErrorCode::IncorrectProgramId,
{
    let k = [token_program, source, destination, authority]
        .map(|a| Pubkey::try_from(a.bytes.as_slice()).unwrap());
    match spl_token::instruction::transfer(&k[0], &k[1], &k[2], &k[3], &[], amount) {
        Ok(ix) => Ok(InstructionModel {
            program_id: ix.program_id.to_bytes().to_vec(),
            accounts: ix.accounts.iter().map(|m| AccountMetaModel {
                pubkey: m.pubkey.to_bytes().to_vec(), is_signer: m.is_signer, is_writable: m.is_writable,
            }).collect(),
            data: ix.data,
        }),
        Err(_) => Err(ErrorCode::IncorrectProgramId),
    }
}

/// Relies on `solana_program::system_instruction::transfer`: it returns the
/// system program's transfer instruction — the funding account as writable
/// signer, the recipient writable, and a payload of the transfer variant
/// index 2 as four little-endian bytes followed by the amount in
/// little-endian order — and cannot fail.
#[verifier::external_body]
#[allow(deprecated)]
pub(crate) fn build_system_transfer_ix(from: &AccountId, to: &AccountId, lamports: u64) -> (r: InstructionModel)
    requires
        from.wf(),
        to.wf(),
    ensures
        r@ == system_transfer_ix(from@, to@, lamports),
{
    let from_key = Pubkey::try_from(from.bytes.as_slice()).unwrap();
    let to_key = Pubkey::try_from(to.bytes.as_slice()).unwrap();
    let ix = solana_program::system_instruction::transfer(&from_key, &to_key, lamports);
    InstructionModel {
        program_id: ix.program_id.to_bytes().to_vec(),
        accounts: ix.accounts.iter().map(|m| AccountMetaModel {
            pubkey: m.pubkey.to_bytes().to_vec(), is_signer: m.is_signer, is_writable: m.is_writable,
        }).collect(),
        data: ix.data,
    }
}

} // verus!
