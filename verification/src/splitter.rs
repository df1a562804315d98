//! The payment splitter: looking up a creator's registered share of a sale
//! price and preparing the proportional native-currency transfer from the
//! payer to the creator.

use vstd::prelude::*;

use vstd::arithmetic::div_mod::{
    lemma_div_is_ordered, lemma_div_multiples_vanish, lemma_fundamental_div_mod, lemma_mod_bound,
};
use vstd::arithmetic::mul::{
    lemma_mul_inequality, lemma_mul_is_distributive_add, lemma_mul_nonnegative,
};

use crate::accounts::{AccountHandle, AccountId};
use crate::errors::ErrorCode;
use crate::instructions::{InstructionModel, build_system_transfer_ix, system_transfer_ix};

verus! {

/// A registered creator: an identity and its integer percentage share of the
/// sale price.
pub struct Creator {
    pub address: AccountId,
    pub share: u8,
}

/// Mathematical model of a registered creator.
pub struct CreatorView {
    pub address: Seq<u8>,
    pub share: u8,
}

impl View for Creator {
    type V = CreatorView;

    open spec fn view(&self) -> CreatorView {
        CreatorView { address: self.address@, share: self.share }
    }
}

/// A sale configuration's ordered list of registered creators. That the
/// shares sum to at most 100 is enforced upstream and not re-validated here.
pub struct ConfigData {
    pub creators: Vec<Creator>,
}

impl View for ConfigData {
    type V = Seq<CreatorView>;

    open spec fn view(&self) -> Seq<CreatorView> {
        self.creators@.map_values(|c: Creator| c@)
    }
}

/// The priced mint configuration: the sale price in the smallest currency
/// unit.
pub struct CandyMachineData {
    pub price: u64,
}

/// The mint account this core settles payments for.
pub struct CandyMachine {
    pub data: CandyMachineData,
}

/// The first creator in the list whose address equals `key`, if any.
/// Duplicates are not deduplicated: the first match wins.
pub open spec fn first_creator_match(creators: Seq<CreatorView>, key: Seq<u8>) -> Option<CreatorView>
    decreases creators.len(),
{
    if creators.len() == 0 {
        Option::None
    } else if creators[0].address == key {
        Option::Some(creators[0])
    } else {
        first_creator_match(creators.drop_first(), key)
    }
}

/// Skipping a prefix in which no creator matches leaves the first match
/// unchanged.
proof fn lemma_first_match_skip(creators: Seq<CreatorView>, key: Seq<u8>, i: int)
    requires
        0 <= i <= creators.len(),
        forall|j: int| 0 <= j < i ==> creators[j].address != key,
    ensures
        first_creator_match(creators, key) == first_creator_match(creators.skip(i), key),
    decreases i,
{
    if i == 0 {
        assert(creators.skip(0) =~= creators);
    } else {
        assert(creators[0].address != key);
        lemma_first_match_skip(creators.drop_first(), key, i - 1);
        assert(creators.drop_first().skip(i - 1) =~= creators.skip(i));
    }
}

/// The index of the first creator in `config` whose address equals `key`, or
/// `None` where no creator matches.
pub fn find_creator(config: &ConfigData, key: &AccountId) -> (r: Option<usize>)
    ensures
        r matches Some(i) ==> i < config@.len() && first_creator_match(config@, key@) == Some(config@[i as int]),
        r is None ==> first_creator_match(config@, key@) is None,
{
    let n = config.creators.len();
    let mut i: usize = 0;
    while i < n
        invariant
            0 <= i <= n,
            n == config.creators@.len(),
            config@ == config.creators@.map_values(|c: Creator| c@),
            forall|j: int| 0 <= j < i ==> config@[j].address != key@,
        decreases n - i,
    {
        if config.creators[i].address.eq_id(key) {
            proof {
                lemma_first_match_skip(config@, key@, i as int);
                assert(config@.skip(i as int)[0] == config@[i as int]);
            }
            return Some(i);
        }
        i = i + 1;
    }
    proof {
        lemma_first_match_skip(config@, key@, n as int);
        assert(config@.skip(n as int).len() == 0);
    }
    None
}

/// The creator's cut of the price: the floor of `price * share / 100`.
pub open spec fn share_amount(price: u64, share: u8) -> int {
    (price as int * share as int) / 100
}

/// Whether computing the cut overflows the checked 64-bit multiplication.
pub open spec fn share_overflows(price: u64, share: u8) -> bool {
    price as int * share as int > u64::MAX as int
}

/// Computes a creator's proportional cut of a sale price with checked
/// arithmetic: exactly the floor of `price * share / 100`, and an
/// `ArithmeticOverflow` failure — never a wrapped or truncated value — where
/// the multiplication leaves the 64-bit range. Both historical call shapes
/// of the splitter reduce to this one computation.
pub fn creator_share_lamports(price: u64, share: u8) -> (r: Result<u64, ErrorCode>)
    ensures
        !share_overflows(price, share) ==> (r matches Ok(l) && l == share_amount(price, share)),
        share_overflows(price, share) ==> r == Err::<u64, ErrorCode>(ErrorCode::ArithmeticOverflow),
{
    match price.checked_mul(share as u64) {
        Option::None => Err(ErrorCode::ArithmeticOverflow),
        Option::Some(product) => match product.checked_div(100) {
            Option::None => Err(ErrorCode::ArithmeticOverflow),
            Option::Some(lamports) => Ok(lamports),
        },
    }
}

/// What `send_mint_part` decides for a creator identity `key` against a
/// configuration `creators` and a sale price `price`: the lamports to move,
/// `CreatorNotFound` where no creator matches, and `ArithmeticOverflow`
/// where the cut cannot be computed.
pub open spec fn send_mint_part_spec(creators: Seq<CreatorView>, key: Seq<u8>, price: u64) -> Result<int, ErrorCode> {
    match first_creator_match(creators, key) {
        Option::None => Result::Err(ErrorCode::CreatorNotFound),
        Option::Some(c) => if share_overflows(price, c.share) {
            Result::Err(ErrorCode::ArithmeticOverflow)
        } else {
            Result::Ok(share_amount(price, c.share))
        },
    }
}

/// Looks the creator up in the sale configuration, computes its cut of the
/// mint price, and prepares the native-currency transfer of exactly that cut
/// from the payer to the creator. No transfer is prepared on any failure: an
/// absent creator fails with `CreatorNotFound`, an overflowing cut with
/// `ArithmeticOverflow`.
pub fn send_mint_part(
    payer: &AccountHandle,
    candy_machine: &CandyMachine,
    config_data: &ConfigData,
    creator_info: &AccountHandle,
) -> (r: Result<InstructionModel, ErrorCode>)
    requires
        payer.wf(),
        creator_info.wf(),
    ensures
        r matches Ok(ix) ==> (send_mint_part_spec(config_data@, creator_info.key@, candy_machine.data.price)
            matches Ok(lamports)
            && ix@ == system_transfer_ix(payer.key@, creator_info.key@, lamports as u64)),
        r matches Err(e) ==> send_mint_part_spec(config_data@, creator_info.key@, candy_machine.data.price)
            == Result::<int, ErrorCode>::Err(e),
{
    match find_creator(config_data, &creator_info.key) {
        Option::None => Err(ErrorCode::CreatorNotFound),
        Option::Some(i) => {
            let share = config_data.creators[i].share;
            match creator_share_lamports(candy_machine.data.price, share) {
                Err(e) => Err(e),
                Ok(lamports) => Ok(build_system_transfer_ix(&payer.key, &creator_info.key, lamports)),
            }
        },
    }
}

/// The sum of the creators' percentage shares.
pub open spec fn sum_shares(creators: Seq<CreatorView>) -> int
    decreases creators.len(),
{
    if creators.len() == 0 {
        0
    } else {
        creators[0].share + sum_shares(creators.drop_first())
    }
}

/// The total payout: the sum over the creators of each one's cut of `price`.
pub open spec fn sum_share_amounts(price: u64, creators: Seq<CreatorView>) -> int
    decreases creators.len(),
{
    if creators.len() == 0 {
        0
    } else {
        share_amount(price, creators[0].share) + sum_share_amounts(price, creators.drop_first())
    }
}

/// For nonnegative numerators, the sum of two floored quotients is at most
/// the floored quotient of the sum.
proof fn lemma_div_add_le(a: int, b: int)
    requires
        a >= 0,
        b >= 0,
    ensures
        a / 100 + b / 100 <= (a + b) / 100,
{
    let qa = a / 100;
    let qb = b / 100;
    lemma_fundamental_div_mod(a, 100);
    lemma_fundamental_div_mod(b, 100);
    lemma_mod_bound(a, 100);
    lemma_mod_bound(b, 100);
    assert(a + b >= 100 * (qa + qb)) by {
        lemma_mul_is_distributive_add(100, qa, qb);
    }
    lemma_div_is_ordered(100 * (qa + qb), a + b, 100);
    lemma_div_multiples_vanish(qa + qb, 100);
}

/// The sum of the shares is never negative.
proof fn lemma_sum_shares_nonneg(creators: Seq<CreatorView>)
    ensures
        sum_shares(creators) >= 0,
    decreases creators.len(),
{
    if creators.len() > 0 {
        lemma_sum_shares_nonneg(creators.drop_first());
    }
}

/// The total payout is at most the cut that the summed shares would take of
/// the price.
proof fn lemma_sum_amounts_le(price: u64, creators: Seq<CreatorView>)
    ensures
        sum_share_amounts(price, creators) <= (price as int * sum_shares(creators)) / 100,
    decreases creators.len(),
{
    if creators.len() > 0 {
        let rest = creators.drop_first();
        let s0 = creators[0].share as int;
        let t = sum_shares(rest);
        lemma_sum_amounts_le(price, rest);
        lemma_sum_shares_nonneg(rest);
        lemma_mul_nonnegative(price as int, s0);
        lemma_mul_nonnegative(price as int, t);
        lemma_div_add_le(price as int * s0, price as int * t);
        assert(price as int * s0 + price as int * t == price as int * (s0 + t)) by {
            lemma_mul_is_distributive_add(price as int, s0, t);
        }
    }
}

/// Where the creators' shares sum to at most 100, the total payout — the sum
/// over the creators of the floor of `price * share / 100` — never exceeds
/// the price.
pub proof fn lemma_total_payout_bounded(price: u64, creators: Seq<CreatorView>)
    requires
        sum_shares(creators) <= 100,
    ensures
        sum_share_amounts(price, creators) <= price as int,
{
    let t = sum_shares(creators);
    lemma_sum_amounts_le(price, creators);
    lemma_sum_shares_nonneg(creators);
    lemma_mul_nonnegative(price as int, t);
    lemma_mul_inequality(t, 100, price as int);
    assert(t * price as int == price as int * t) by {
        vstd::arithmetic::mul::lemma_mul_is_commutative(t, price as int);
    }
    assert(100 * price as int == price as int * 100) by {
        vstd::arithmetic::mul::lemma_mul_is_commutative(100, price as int);
    }
    lemma_div_is_ordered(price as int * t, price as int * 100, 100);
    lemma_div_multiples_vanish(price as int, 100);
    assert(100 * price as int == price as int * 100) by {
        vstd::arithmetic::mul::lemma_mul_is_commutative(100, price as int);
    }
}

} // verus!
