use nft_candy_machine::{
    AccountHandle, AccountId, CandyMachine, CandyMachineData, ConfigData, Creator, ErrorCode,
    InstructionModel, creator_share_lamports, send_mint_part,
};

fn id_of(byte: u8) -> AccountId {
    AccountId { bytes: vec![byte; 32] }
}

fn handle_of(key: u8, owner: u8) -> AccountHandle {
    AccountHandle { key: id_of(key), owner: id_of(owner), data: Vec::new(), is_writable: true }
}

fn machine(price: u64) -> CandyMachine {
    CandyMachine { data: CandyMachineData { price } }
}

fn config(entries: &[(u8, u8)]) -> ConfigData {
    ConfigData {
        creators: entries
            .iter()
            .map(|&(key, share)| Creator { address: id_of(key), share })
            .collect(),
    }
}

fn le64(x: u64) -> Vec<u8> {
    x.to_le_bytes().to_vec()
}

#[test]
fn share_is_floor_of_proportion() {
    assert_eq!(creator_share_lamports(200, 25), Ok(50));
    assert_eq!(creator_share_lamports(99, 50), Ok(49));
    assert_eq!(creator_share_lamports(7, 100), Ok(7));
    assert_eq!(creator_share_lamports(u64::MAX, 0), Ok(0));
    assert_eq!(creator_share_lamports(0, 77), Ok(0));
    assert_eq!(creator_share_lamports(1_000_000_000, 5), Ok(50_000_000));
}

#[test]
fn max_price_full_share_overflows() {
    assert_eq!(creator_share_lamports(u64::MAX, 100), Err(ErrorCode::ArithmeticOverflow));
    assert_eq!(creator_share_lamports(u64::MAX, 2), Err(ErrorCode::ArithmeticOverflow));
}

#[test]
fn send_mint_part_prepares_exact_transfer() {
    let payer = handle_of(1, 9);
    let creator = handle_of(2, 9);
    let cfg = config(&[(7, 30), (2, 25)]);
    let r = send_mint_part(&payer, &machine(1000), &cfg, &creator);
    let ix = r.expect("creator is registered");
    assert_eq!(ix.program_id, vec![0u8; 32]);
    let mut expected_data = vec![2u8, 0, 0, 0];
    expected_data.extend_from_slice(&le64(250));
    assert_eq!(ix.data, expected_data);
    assert_eq!(ix.accounts.len(), 2);
    assert_eq!(ix.accounts[0].pubkey, vec![1u8; 32]);
    assert!(ix.accounts[0].is_signer);
    assert!(ix.accounts[0].is_writable);
    assert_eq!(ix.accounts[1].pubkey, vec![2u8; 32]);
    assert!(!ix.accounts[1].is_signer);
    assert!(ix.accounts[1].is_writable);
}

#[test]
fn send_mint_part_matches_runtime_builder() {
    let payer = handle_of(11, 9);
    let creator = handle_of(22, 9);
    let cfg = config(&[(22, 40)]);
    let model: InstructionModel =
        send_mint_part(&payer, &machine(500), &cfg, &creator).expect("creator is registered");

    let from = solana_program::pubkey::Pubkey::new_from_array([11u8; 32]);
    let to = solana_program::pubkey::Pubkey::new_from_array([22u8; 32]);
    #[allow(deprecated)]
    let ix = solana_program::system_instruction::transfer(&from, &to, 200);
    assert_eq!(model.program_id, ix.program_id.to_bytes().to_vec());
    assert_eq!(model.data, ix.data);
    assert_eq!(model.accounts.len(), ix.accounts.len());
    for (m, a) in model.accounts.iter().zip(ix.accounts.iter()) {
        assert_eq!(m.pubkey, a.pubkey.to_bytes().to_vec());
        assert_eq!(m.is_signer, a.is_signer);
        assert_eq!(m.is_writable, a.is_writable);
    }
}

#[test]
fn absent_creator_fails_without_transfer() {
    let payer = handle_of(1, 9);
    let creator = handle_of(3, 9);
    let cfg = config(&[(7, 30), (2, 25)]);
    let r = send_mint_part(&payer, &machine(1000), &cfg, &creator);
    assert_eq!(r, Err(ErrorCode::CreatorNotFound));
}

#[test]
fn empty_creator_list_fails() {
    let payer = handle_of(1, 9);
    let creator = handle_of(3, 9);
    let cfg = config(&[]);
    let r = send_mint_part(&payer, &machine(1000), &cfg, &creator);
    assert_eq!(r, Err(ErrorCode::CreatorNotFound));
}

#[test]
fn duplicate_creator_first_match_wins() {
    let payer = handle_of(1, 9);
    let creator = handle_of(5, 9);
    let cfg = config(&[(5, 10), (5, 90)]);
    let ix = send_mint_part(&payer, &machine(1000), &cfg, &creator).expect("creator is registered");
    let mut expected_data = vec![2u8, 0, 0, 0];
    expected_data.extend_from_slice(&le64(100));
    assert_eq!(ix.data, expected_data);
}

#[test]
fn overflowing_cut_fails_without_transfer() {
    let payer = handle_of(1, 9);
    let creator = handle_of(5, 9);
    let cfg = config(&[(5, 100)]);
    let r = send_mint_part(&payer, &machine(u64::MAX), &cfg, &creator);
    assert_eq!(r, Err(ErrorCode::ArithmeticOverflow));
}

#[test]
fn find_creator_returns_first_matching_index() {
    let cfg = config(&[(9, 10), (5, 20), (5, 30)]);
    assert_eq!(nft_candy_machine::find_creator(&cfg, &id_of(5)), Some(1));
    assert_eq!(nft_candy_machine::find_creator(&cfg, &id_of(6)), None);
}

#[test]
fn payouts_never_exceed_price_when_shares_sum_to_hundred() {
    for price in [0u64, 1, 99, 100, 101, 1000, 123_456_789] {
        for shares in [vec![30u8, 30, 40], vec![33, 33, 33], vec![100], vec![1; 100]] {
            let total: u64 = shares
                .iter()
                .map(|&s| creator_share_lamports(price, s).unwrap())
                .sum();
            assert!(total <= price, "total {} exceeds price {}", total, price);
        }
    }
}
