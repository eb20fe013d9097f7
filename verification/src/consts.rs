//! The seed registry: the fixed identities, bump tags, command tags, engine
//! error codes and seed byte patterns of the protocol, together with the
//! pool-seed formatter.

use vstd::prelude::*;

use crate::decimal::dec_rep;
use crate::decimal::lemma_dec_rep_ascii;
use crate::decimal::lemma_dec_rep_len_u64;
use crate::decimal::push_decimal;
use crate::derivation::derive_identity;
use crate::derivation::derive_of;
use crate::derivation::owner_pda_marked;
use crate::derivation::pda_marker_seq;
use crate::derivation::seed_is_ascii;
use crate::identity::Identity;

verus! {

// Command tags, one byte each, in the engine's reserved low range.
pub const CMD_ADD_USER_AND_DEPOSIT: u8 = 0x10;

pub const CMD_DEPOSIT: u8 = 0x11;

pub const CMD_WITHDRAW: u8 = 0x12;

pub const CMD_BORROW: u8 = 0x13;

pub const CMD_REPAY: u8 = 0x14;

pub const CMD_EXTERN_LIQUIDATE: u8 = 0x15;

pub const CMD_SELF_LIQUIDATE: u8 = 0x16;

pub const CMD_UPDATE_USER_CONFIG: u8 = 0x17;

pub const CMD_MARGIN_SWAP: u8 = 0x18;

pub const CMD_UPDATE_USER_ASSET_CONFIG: u8 = 0x19;

pub const CMD_WITHDRAW_AND_REMOVE_USER: u8 = 0x1a;

// Engine error codes, passed through to callers unmodified.
// 0x1000s: account or address mismatches.
pub const ERR_INCORRECT_BASE_PDA: u32 = 0x1000;

pub const ERR_INCORRECT_USER_PAGES_STATS: u32 = 0x1001;

pub const ERR_INCORRECT_USERS_PAGE: u32 = 0x1002;

pub const ERR_INCORRECT_USER_INFO: u32 = 0x1003;

pub const ERR_INCORRECT_ASSET_POOL: u32 = 0x1004;

pub const ERR_INCORRECT_ASSET_PRICE: u32 = 0x1005;

pub const ERR_INCORRECT_ASSET_POOL_SPL: u32 = 0x1006;

pub const ERR_INCORRECT_USER_ASSET_INFO: u32 = 0x1007;

pub const ERR_MISSING_ACTIVE_ACCOUNTS: u32 = 0x1008;

pub const ERR_INCORRECT_INTERMEDIATE_SPL: u32 = 0x1009;

pub const ERR_INCORRECT_SELL_MARKET: u32 = 0x100a;

pub const ERR_INCORRECT_BUY_MARKET: u32 = 0x100b;

pub const ERR_INCORRECT_SERUM_PROGRAM: u32 = 0x100c;

pub const ERR_INCORRECT_ADMIN: u32 = 0x100d;

pub const ERR_INCORRECT_INTERMEDIATE_SPL_OWNER: u32 = 0x100e;

pub const ERR_INCORRECT_POOL_LIST: u32 = 0x100f;

pub const ERR_INCORRECT_POOL_SUMMARIES: u32 = 0x1010;

pub const ERR_INCORRECT_PRICE_SUMMARIES: u32 = 0x1011;

pub const ERR_INCORRECT_PRICE_PDA: u32 = 0x1012;

// 0x2000s: malformed request data.
pub const ERR_MISSING_PAGE_ID: u32 = 0x2000;

pub const ERR_PAGE_ID_TOO_LARGE: u32 = 0x2001;

pub const ERR_MISSING_AMOUNT: u32 = 0x2002;

pub const ERR_MISSING_MINT_SEED_STR: u32 = 0x2003;

pub const ERR_MISSING_ACTIVE_MINT_SEED_STR: u32 = 0x2004;

pub const ERR_WRONG_DATA_SIZE: u32 = 0x2005;

// 0x3000s: internal bookkeeping violations.
pub const ERR_ACCOUNT_ALREADY_ADDED: u32 = 0x3000;

pub const ERR_NO_AVAILABLE_SLOTS: u32 = 0x3001;

pub const ERR_ACCOUNT_NOT_ADDED: u32 = 0x3002;

pub const ERR_WALLET_DID_NOT_SIGN: u32 = 0x3003;

pub const ERR_MAXIMUM_NUM_POOLS_REACHED: u32 = 0x3004;

pub const ERR_USER_HAS_NO_SUCH_ASSET: u32 = 0x3005;

pub const ERR_NEED_AT_LEAST_BUY_OR_SELL: u32 = 0x3006;

pub const ERR_INSUFFICIENT_FEES: u32 = 0x3007;

// 0x4000s: user-level policy violations.
pub const ERR_DEPOSIT_LESS_THAN_MINIMUM: u32 = 0x4000;

pub const ERR_INSUFFICIENT_DEPOSIT: u32 = 0x4001;

pub const ERR_POOL_NO_FREE_FUND: u32 = 0x4002;

pub const ERR_PLEASE_WITHDRAW_ALL: u32 = 0x4003;

pub const ERR_INSUFFICIENT_BORROW_POWER: u32 = 0x4004;

pub const ERR_CANNOT_REPAY_MORE_THAN_DEBT: u32 = 0x4005;

pub const ERR_WITHDRAWL_BELOW_MIN_COLLATERAL_RATIO: u32 = 0x4006;

pub const ERR_LIQUIDATION_NOT_REACHED: u32 = 0x4007;

pub const ERR_LIQUIDATOR_ASKED_TOO_MUCH_COLLATERAL: u32 = 0x4008;

pub const ERR_ACCOUNT_NOT_ENOUGH_DEBT_FOR_LIQUIDATION: u32 = 0x4009;

pub const ERR_ACCOUNT_NOT_ENOUGH_COLLATERAL_FOR_LIQUIDATION: u32 = 0x400a;

pub const ERR_EXCEEDS_LIQUIDATION_LIMIT: u32 = 0x400b;

pub const ERR_SELF_LIQUIDATION_THRESHOLD_TOO_SMALL: u32 = 0x400c;

pub const ERR_POST_SELF_LIQUIDATION_TARGET_TOO_SMALL: u32 = 0x400d;

pub const ERR_POST_EXTERN_LIQUIDATION_TARGET_TOO_SMALL: u32 = 0x400e;

pub const ERR_SELF_LIQUIDATION_NOT_REACHED: u32 = 0x400f;

pub const ERR_SELF_LIQUIDATION_TARGET_EXCEEDED: u32 = 0x4010;

pub const ERR_SELF_LIQUIDATION_HIGH_SLIPPAGE: u32 = 0x4011;

pub const ERR_MAX_NUM_ASSETS_REACHED: u32 = 0x4012;

pub const ERR_SWAP_BOUGHT_LESS_THAN_MIN: u32 = 0x4013;

pub const ERR_ASSET_NOT_USED_AS_COLLATERAL: u32 = 0x4014;

// Bump tags paired with the two derivation-base identities. They are kept
// for compatibility and documentation; no computation uses them.
pub const BASE_PDA_BUMP: u8 = 255;

pub const PRICE_PDA_BUMP: u8 = 254;

/// The bytes of the literal seed string `"UserInfo"`.
pub open spec fn user_info_seed_seq() -> Seq<u8> {
    seq![85u8, 115u8, 101u8, 114u8, 73u8, 110u8, 102u8, 111u8]
}

/// The bytes of the literal seed string `"UserPagesStats"`.
pub open spec fn user_pages_stats_seed_seq() -> Seq<u8> {
    seq![85u8, 115u8, 101u8, 114u8, 80u8, 97u8, 103u8, 101u8, 115u8, 83u8, 116u8, 97u8, 116u8, 115u8]
}

/// The bytes of the literal prefix `"UsersPage_"` of the per-page seed.
pub open spec fn users_page_seed_prefix_seq() -> Seq<u8> {
    seq![85u8, 115u8, 101u8, 114u8, 115u8, 80u8, 97u8, 103u8, 101u8, 95u8]
}

/// The seed string `"UserInfo"`, as bytes.
pub fn user_info_seed() -> (r: Vec<u8>)
    ensures
        r@ == user_info_seed_seq(),
{
    let r: Vec<u8> = vec![85u8, 115, 101, 114, 73, 110, 102, 111];
    proof {
        assert(r@ =~= user_info_seed_seq());
    }
    r
}

/// The seed string `"UserPagesStats"`, as bytes.
pub fn user_pages_stats_seed() -> (r: Vec<u8>)
    ensures
        r@ == user_pages_stats_seed_seq(),
{
    let r: Vec<u8> = vec![85u8, 115, 101, 114, 80, 97, 103, 101, 115, 83, 116, 97, 116, 115];
    proof {
        assert(r@ =~= user_pages_stats_seed_seq());
    }
    r
}

/// The canonical 8-byte pool seed for a pool index: the pattern `POOL____`
/// with the last two bytes replaced by a base-16-in-letters rendering of the
/// index, `'a' + pool_id / 16` and `'a' + pool_id % 16`.
pub open spec fn pool_seed_seq(pool_id: u8) -> Seq<u8> {
    seq![
        80u8,
        79u8,
        79u8,
        76u8,
        95u8,
        95u8,
        (97 + pool_id / 16) as u8,
        (97 + pool_id % 16) as u8,
    ]
}

/// Formats a pool index into its canonical 8-byte seed.
pub fn pool_id_to_seed_str(pool_id: u8) -> (r: Vec<u8>)
    ensures
        r@ == pool_seed_seq(pool_id),
        r@.len() == 8,
{
    proof {
        lemma_pool_seed_digit_bounds(pool_id);
    }
    let mut r: Vec<u8> = Vec::new();
    r.push(80);
    r.push(79);
    r.push(79);
    r.push(76);
    r.push(95);
    r.push(95);
    r.push(97 + pool_id / 16);
    r.push(97 + pool_id % 16);
    proof {
        assert(r@ =~= pool_seed_seq(pool_id));
    }
    r
}

/// The two index digits of a pool seed lie in `0..16`.
proof fn lemma_pool_seed_digit_bounds(pool_id: u8)
    ensures
        pool_id / 16 < 16,
        pool_id % 16 < 16,
{
    assert(pool_id / 16 < 16 && pool_id % 16 < 16) by (bit_vector);
}

/// Every pool seed is exactly 8 bytes: the fixed prefix `POOL__` followed by
/// two letter-encoded digits, each in `'a' ..= 'p'`.
pub proof fn lemma_pool_seed_shape(pool_id: u8)
    ensures
        pool_seed_seq(pool_id).len() == 8,
        pool_seed_seq(pool_id)[0] == 80,
        pool_seed_seq(pool_id)[1] == 79,
        pool_seed_seq(pool_id)[2] == 79,
        pool_seed_seq(pool_id)[3] == 76,
        pool_seed_seq(pool_id)[4] == 95,
        pool_seed_seq(pool_id)[5] == 95,
        97 <= pool_seed_seq(pool_id)[6] <= 112,
        97 <= pool_seed_seq(pool_id)[7] <= 112,
{
    lemma_pool_seed_digit_bounds(pool_id);
}

/// The pool-seed formatter is injective: distinct pool indices always format
/// to distinct seeds.
pub proof fn lemma_pool_seed_injective(p1: u8, p2: u8)
    requires
        p1 != p2,
    ensures
        pool_seed_seq(p1) != pool_seed_seq(p2),
{
    lemma_pool_seed_digit_bounds(p1);
    lemma_pool_seed_digit_bounds(p2);
    if p1 / 16 == p2 / 16 && p1 % 16 == p2 % 16 {
        assert(p1 == p2) by (bit_vector)
            requires
                p1 / 16 == p2 / 16 && p1 % 16 == p2 % 16,
        ;
    } else if p1 / 16 != p2 / 16 {
        assert(pool_seed_seq(p1)[6] != pool_seed_seq(p2)[6]);
    } else {
        assert(pool_seed_seq(p1)[7] != pool_seed_seq(p2)[7]);
    }
}

/// The identity of the execution engine's program.
pub open spec fn program_id_seq() -> Seq<u8> {
    seq![
        248u8, 100u8, 213u8, 131u8, 46u8, 110u8, 148u8, 43u8,
        172u8, 179u8, 61u8, 219u8, 242u8, 24u8, 249u8, 162u8,
        174u8, 1u8, 120u8, 140u8, 191u8, 176u8, 18u8, 220u8,
        252u8, 179u8, 48u8, 70u8, 235u8, 148u8, 141u8, 236u8,
    ]
}

/// The privileged derivation-base identity used for protocol-owned cells.
pub open spec fn base_pda_seq() -> Seq<u8> {
    seq![
        255u8, 67u8, 12u8, 185u8, 234u8, 96u8, 94u8, 60u8,
        97u8, 7u8, 52u8, 184u8, 184u8, 101u8, 105u8, 83u8,
        221u8, 227u8, 217u8, 88u8, 16u8, 178u8, 193u8, 172u8,
        126u8, 69u8, 225u8, 128u8, 125u8, 245u8, 140u8, 170u8,
    ]
}

/// The privileged derivation-base identity used for price cells.
pub open spec fn price_pda_seq() -> Seq<u8> {
    seq![
        154u8, 77u8, 248u8, 27u8, 190u8, 139u8, 56u8, 78u8,
        69u8, 22u8, 29u8, 47u8, 73u8, 140u8, 130u8, 150u8,
        98u8, 34u8, 176u8, 178u8, 8u8, 138u8, 201u8, 205u8,
        180u8, 201u8, 90u8, 95u8, 135u8, 250u8, 69u8, 125u8,
    ]
}

/// The identity of the global pool-summaries cell.
pub open spec fn pool_summaries_seq() -> Seq<u8> {
    seq![
        13u8, 198u8, 150u8, 119u8, 199u8, 205u8, 137u8, 215u8,
        210u8, 47u8, 19u8, 133u8, 20u8, 1u8, 237u8, 15u8,
        250u8, 144u8, 39u8, 127u8, 75u8, 149u8, 124u8, 144u8,
        38u8, 71u8, 89u8, 194u8, 147u8, 62u8, 131u8, 144u8,
    ]
}

/// The identity of the global price-summaries cell.
pub open spec fn price_summaries_seq() -> Seq<u8> {
    seq![
        223u8, 7u8, 189u8, 179u8, 41u8, 184u8, 57u8, 165u8,
        82u8, 142u8, 21u8, 176u8, 132u8, 176u8, 110u8, 139u8,
        206u8, 145u8, 61u8, 51u8, 87u8, 61u8, 78u8, 170u8,
        134u8, 142u8, 52u8, 175u8, 239u8, 8u8, 192u8, 2u8,
    ]
}

/// The program identity as a value.
pub fn program_id() -> (r: Identity)
    ensures
        r@ == program_id_seq(),
{
    let r = Identity::new(
        [
            248u8, 100, 213, 131, 46, 110, 148, 43,
            172, 179, 61, 219, 242, 24, 249, 162,
            174, 1, 120, 140, 191, 176, 18, 220,
            252, 179, 48, 70, 235, 148, 141, 236,
        ],
    );
    proof {
        assert(r@ =~= program_id_seq());
    }
    r
}

/// The protocol derivation-base identity as a value.
pub fn get_base_pda() -> (r: Identity)
    ensures
        r@ == base_pda_seq(),
{
    let r = Identity::new(
        [
            255u8, 67, 12, 185, 234, 96, 94, 60,
            97, 7, 52, 184, 184, 101, 105, 83,
            221, 227, 217, 88, 16, 178, 193, 172,
            126, 69, 225, 128, 125, 245, 140, 170,
        ],
    );
    proof {
        assert(r@ =~= base_pda_seq());
    }
    r
}

/// The price derivation-base identity as a value.
pub fn get_price_pda() -> (r: Identity)
    ensures
        r@ == price_pda_seq(),
{
    let r = Identity::new(
        [
            154u8, 77, 248, 27, 190, 139, 56, 78,
            69, 22, 29, 47, 73, 140, 130, 150,
            98, 34, 176, 178, 8, 138, 201, 205,
            180, 201, 90, 95, 135, 250, 69, 125,
        ],
    );
    proof {
        assert(r@ =~= price_pda_seq());
    }
    r
}

/// The global pool-summaries identity as a value.
pub fn get_pool_summaries_k() -> (r: Identity)
    ensures
        r@ == pool_summaries_seq(),
{
    let r = Identity::new(
        [
            13u8, 198, 150, 119, 199, 205, 137, 215,
            210, 47, 19, 133, 20, 1, 237, 15,
            250, 144, 39, 127, 75, 149, 124, 144,
            38, 71, 89, 194, 147, 62, 131, 144,
        ],
    );
    proof {
        assert(r@ =~= pool_summaries_seq());
    }
    r
}

/// The global price-summaries identity as a value.
pub fn get_price_summaries_k() -> (r: Identity)
    ensures
        r@ == price_summaries_seq(),
{
    let r = Identity::new(
        [
            223u8, 7, 189, 179, 41, 184, 57, 165,
            82, 142, 21, 176, 132, 176, 110, 139,
            206, 145, 61, 51, 87, 61, 78, 170,
            134, 142, 52, 175, 239, 8, 192, 2,
        ],
    );
    proof {
        assert(r@ =~= price_summaries_seq());
    }
    r
}

/// The identity of the canonical token-owning program.
pub open spec fn spl_token_id_seq() -> Seq<u8> {
    seq![
        6u8, 221u8, 246u8, 225u8, 215u8, 101u8, 161u8, 147u8,
        217u8, 203u8, 225u8, 70u8, 206u8, 235u8, 121u8, 172u8,
        28u8, 180u8, 133u8, 237u8, 95u8, 91u8, 55u8, 145u8,
        58u8, 140u8, 245u8, 133u8, 126u8, 255u8, 0u8, 169u8,
    ]
}

/// Relies on `spl_token::ID`: the fixed, compiled-in identity of the token
/// program, whose 32 bytes are the base58 decoding of
/// `TokenkegQfeZyiNwAJbNbGKPFXCWuBvf9Ss623VQ5DA`.
#[verifier::external_body]
pub(crate) fn spl_token_program() -> (r: Identity)
    ensures
        r@ == spl_token_id_seq(),
{
    Identity { bytes: spl_token::ID.to_bytes() }
}

/// The literal seed strings and the pool pattern consist of 7-bit ASCII
/// bytes only.
pub proof fn lemma_fixed_seeds_ascii(pool_id: u8)
    ensures
        seed_is_ascii(user_info_seed_seq()),
        seed_is_ascii(user_pages_stats_seed_seq()),
        seed_is_ascii(users_page_seed_prefix_seq()),
        seed_is_ascii(pool_seed_seq(pool_id)),
{
    lemma_pool_seed_digit_bounds(pool_id);
    assert forall|i: int| 0 <= i < user_info_seed_seq().len() implies user_info_seed_seq()[i]
        < 128 by {}
    assert forall|i: int|
        0 <= i < user_pages_stats_seed_seq().len() implies user_pages_stats_seed_seq()[i]
        < 128 by {}
    assert forall|i: int|
        0 <= i < users_page_seed_prefix_seq().len() implies users_page_seed_prefix_seq()[i]
        < 128 by {}
    assert forall|i: int| 0 <= i < pool_seed_seq(pool_id).len() implies pool_seed_seq(pool_id)[i]
        < 128 by {}
}

/// Neither the program identity nor the token-program identity carries the
/// derived-identity marker, so both may own derived cells.
pub proof fn lemma_namespaces_not_marked()
    ensures
        !owner_pda_marked(program_id_seq()),
        !owner_pda_marked(spl_token_id_seq()),
{
    if owner_pda_marked(program_id_seq()) {
        assert(program_id_seq().subrange(11, 32)[0] == pda_marker_seq()[0]);
        assert(program_id_seq()[11] == 219);
        assert(pda_marker_seq()[0] == 80);
    }
    if owner_pda_marked(spl_token_id_seq()) {
        assert(spl_token_id_seq().subrange(11, 32)[0] == pda_marker_seq()[0]);
        assert(spl_token_id_seq()[11] == 70);
        assert(pda_marker_seq()[0] == 80);
    }
}

/// The identity of a user's protocol account: derived from the user's wallet
/// under the seed `"UserInfo"` in the program's namespace.
pub fn get_user_info_k(user_wallet: &Identity) -> (r: Identity)
    ensures
        r@ == derive_of(user_wallet@, user_info_seed_seq(), program_id_seq()),
{
    let seed = user_info_seed();
    let pid = program_id();
    proof {
        lemma_fixed_seeds_ascii(0);
        lemma_namespaces_not_marked();
    }
    match derive_identity(user_wallet, &seed, &pid) {
        Ok(id) => id,
        Err(_) => {
            proof {
                assert(false);
            }
            pid
        },
    }
}

/// The identity of the global user-pages statistics cell: derived from the
/// protocol base under the seed `"UserPagesStats"`.
pub fn get_user_pages_stats_k() -> (r: Identity)
    ensures
        r@ == derive_of(base_pda_seq(), user_pages_stats_seed_seq(), program_id_seq()),
{
    let base = get_base_pda();
    let seed = user_pages_stats_seed();
    let pid = program_id();
    proof {
        lemma_fixed_seeds_ascii(0);
        lemma_namespaces_not_marked();
    }
    match derive_identity(&base, &seed, &pid) {
        Ok(id) => id,
        Err(_) => {
            proof {
                assert(false);
            }
            pid
        },
    }
}

/// The seed for the users page with the given index: `"UsersPage_"` followed
/// by the index's decimal digits.
pub open spec fn users_page_seed_seq(page_id: nat) -> Seq<u8> {
    users_page_seed_prefix_seq() + dec_rep(page_id)
}

/// The identity of a users page: derived from the protocol base under the
/// seed `"UsersPage_{page_id}"`.
pub fn get_users_page_k(page_id: usize) -> (r: Identity)
    ensures
        r@ == derive_of(base_pda_seq(), users_page_seed_seq(page_id as nat), program_id_seq()),
{
    let base = get_base_pda();
    let pid = program_id();
    let mut seed: Vec<u8> = vec![85u8, 115, 101, 114, 115, 80, 97, 103, 101, 95];
    proof {
        assert(seed@ =~= users_page_seed_prefix_seq());
    }
    push_decimal(&mut seed, page_id as u64);
    proof {
        assert((page_id as u64) as nat == page_id as nat);
        assert(seed@ == users_page_seed_seq(page_id as nat));
        lemma_fixed_seeds_ascii(0);
        lemma_dec_rep_ascii(page_id as nat);
        assert forall|i: int| 0 <= i < seed@.len() implies seed@[i] < 128 by {
            if i < users_page_seed_prefix_seq().len() {
                assert(seed@[i] == users_page_seed_prefix_seq()[i]);
            } else {
                assert(seed@[i] == dec_rep(page_id as nat)[i - 10]);
            }
        }
        lemma_dec_rep_len_u64(page_id as u64);
        assert(seed@.len() <= 30);
        lemma_namespaces_not_marked();
    }
    match derive_identity(&base, &seed, &pid) {
        Ok(id) => id,
        Err(_) => {
            proof {
                assert(false);
            }
            pid
        },
    }
}

/// The identity of an asset pool: derived from the protocol base under the
/// pool's canonical seed in the program's namespace.
pub fn get_asset_pool_k(pool_id: u8) -> (r: Identity)
    ensures
        r@ == derive_of(base_pda_seq(), pool_seed_seq(pool_id), program_id_seq()),
{
    let base = get_base_pda();
    let seed = pool_id_to_seed_str(pool_id);
    let pid = program_id();
    proof {
        lemma_fixed_seeds_ascii(pool_id);
        lemma_namespaces_not_marked();
    }
    match derive_identity(&base, &seed, &pid) {
        Ok(id) => id,
        Err(_) => {
            proof {
                assert(false);
            }
            pid
        },
    }
}

/// The identity of an asset pool's token account: derived from the protocol
/// base under the pool's canonical seed in the token program's namespace.
/// The token-owning program must not carry the derived-identity marker.
pub fn get_asset_pool_spl_k(token_program_id: &Identity, pool_id: u8) -> (r: Identity)
    requires
        !owner_pda_marked(token_program_id@),
    ensures
        r@ == derive_of(base_pda_seq(), pool_seed_seq(pool_id), token_program_id@),
{
    let base = get_base_pda();
    let seed = pool_id_to_seed_str(pool_id);
    proof {
        lemma_fixed_seeds_ascii(pool_id);
    }
    match derive_identity(&base, &seed, token_program_id) {
        Ok(id) => id,
        Err(_) => {
            proof {
                assert(false);
            }
            base
        },
    }
}

} // verus!
