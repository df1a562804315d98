//! Payment-settlement and account-validation core for a fixed-price minting
//! program: it validates account ownership and initialization, prepares
//! authorized token-transfer instructions for a seed-derived authority, and
//! splits a sale price among registered creators in proportion to their
//! shares. The instructions it builds are executed by the enclosing runtime;
//! this crate holds the decisions and the arithmetic.

pub mod accounts;
pub mod errors;
pub mod instructions;
pub mod splitter;
pub mod token_account;
pub mod transfer;

pub use accounts::{AccountHandle, AccountId, assert_owned_by};
pub use errors::ErrorCode;
pub use instructions::{AccountMetaModel, InstructionModel, spl_token_program_id_bytes};
pub use splitter::{CandyMachine, CandyMachineData, ConfigData, Creator, creator_share_lamports, find_creator, send_mint_part};
pub use token_account::{TokenRecord, assert_initialized};
pub use transfer::{TokenTransferParams, spl_token_transfer};
