//! The instruction assembler: per-command builders that pair a target
//! program identity and an ordered list of tagged account references with an
//! encoded command payload.
//!
//! Each command comes in two layers: a convenience builder that derives
//! every non-caller-supplied identity internally under the canonical
//! defaults, and a full builder that accepts every account identity
//! explicitly. The per-command account order is fixed wire contract; the
//! engine binds parameters by account index.

use vstd::prelude::*;

use crate::consts::base_pda_seq;
use crate::consts::get_asset_pool_k;
use crate::consts::get_asset_pool_spl_k;
use crate::consts::get_base_pda;
use crate::consts::get_pool_summaries_k;
use crate::consts::get_price_summaries_k;
use crate::consts::get_user_info_k;
use crate::consts::lemma_namespaces_not_marked;
use crate::consts::pool_seed_seq;
use crate::consts::pool_summaries_seq;
use crate::consts::price_summaries_seq;
use crate::consts::program_id;
use crate::consts::program_id_seq;
use crate::consts::spl_token_id_seq;
use crate::consts::spl_token_program;
use crate::consts::user_info_seed_seq;
use crate::derivation::derive_of;
use crate::identity::Identity;
use crate::payload::bool_byte;
use crate::payload::borrow_payload;
use crate::payload::deposit_payload;
use crate::payload::encode_borrow;
use crate::payload::encode_deposit;
use crate::payload::encode_extern_liquidate;
use crate::payload::encode_repay;
use crate::payload::encode_withdraw;
use crate::payload::extern_liquidate_payload;
use crate::payload::repay_payload;
use crate::payload::withdraw_payload;
use crate::payload::BorrowParam;
use crate::payload::DepositParam;
use crate::payload::ExternLiquidateParam;
use crate::payload::RepayParam;
use crate::payload::WithdrawParam;

verus! {

/// A reference to one account of a request: the account's identity and
/// whether the engine may write it and must see the owner's signature.
#[derive(Clone, Copy, Debug, PartialEq, Eq)]
pub struct AccountReference {
    pub id: Identity,
    pub is_writable: bool,
    pub is_signer: bool,
}

/// An assembled request: the target program, the ordered account
/// references, and the encoded command payload. Created fresh per call and
/// never mutated after assembly.
#[derive(Clone, Debug, PartialEq, Eq)]
pub struct Request {
    pub target_program: Identity,
    pub accounts: Vec<AccountReference>,
    pub payload: Vec<u8>,
}

/// Whether an account reference names `id` with exactly the given tags.
pub open spec fn account_is(a: AccountReference, id: Seq<u8>, writable: bool, signer: bool) -> bool {
    a.id@ == id && a.is_writable == writable && a.is_signer == signer
}

/// Whether two account references agree byte for byte.
pub open spec fn account_obs_eq(a1: AccountReference, a2: AccountReference) -> bool {
    a1.id@ == a2.id@ && a1.is_writable == a2.is_writable && a1.is_signer == a2.is_signer
}

/// Whether two requests agree byte for byte: same target, same payload,
/// and the same account references in the same order.
pub open spec fn request_obs_eq(r1: Request, r2: Request) -> bool {
    &&& r1.target_program@ == r2.target_program@
    &&& r1.payload@ == r2.payload@
    &&& r1.accounts@.len() == r2.accounts@.len()
    &&& forall|i: int|
        0 <= i < r1.accounts@.len() ==> account_obs_eq(
            #[trigger] r1.accounts@[i],
            r2.accounts@[i],
        )
}

/// The deposit/repay account order: seven references, the wallet signing
/// read-only, everything writable but the token program.
pub open spec fn deposit_order_request(
    r: Request,
    user_wallet: Seq<u8>,
    user_spl: Seq<u8>,
    user_info: Seq<u8>,
    asset_pool: Seq<u8>,
    asset_pool_spl: Seq<u8>,
    pool_summaries: Seq<u8>,
    token_program: Seq<u8>,
    program_id: Seq<u8>,
    payload: Seq<u8>,
) -> bool {
    &&& r.target_program@ == program_id
    &&& r.payload@ == payload
    &&& r.accounts@.len() == 7
    &&& account_is(r.accounts@[0], user_wallet, false, true)
    &&& account_is(r.accounts@[1], user_spl, true, false)
    &&& account_is(r.accounts@[2], user_info, true, false)
    &&& account_is(r.accounts@[3], asset_pool, true, false)
    &&& account_is(r.accounts@[4], asset_pool_spl, true, false)
    &&& account_is(r.accounts@[5], pool_summaries, true, false)
    &&& account_is(r.accounts@[6], token_program, false, false)
}

/// The withdraw/borrow account order: the deposit order with the price
/// summaries and the derivation base inserted before the token program,
/// both read-only.
pub open spec fn withdraw_order_request(
    r: Request,
    user_wallet: Seq<u8>,
    user_spl: Seq<u8>,
    user_info: Seq<u8>,
    asset_pool: Seq<u8>,
    asset_pool_spl: Seq<u8>,
    pool_summaries: Seq<u8>,
    price_summaries: Seq<u8>,
    base_pda: Seq<u8>,
    token_program: Seq<u8>,
    program_id: Seq<u8>,
    payload: Seq<u8>,
) -> bool {
    &&& r.target_program@ == program_id
    &&& r.payload@ == payload
    &&& r.accounts@.len() == 9
    &&& account_is(r.accounts@[0], user_wallet, false, true)
    &&& account_is(r.accounts@[1], user_spl, true, false)
    &&& account_is(r.accounts@[2], user_info, true, false)
    &&& account_is(r.accounts@[3], asset_pool, true, false)
    &&& account_is(r.accounts@[4], asset_pool_spl, true, false)
    &&& account_is(r.accounts@[5], pool_summaries, true, false)
    &&& account_is(r.accounts@[6], price_summaries, false, false)
    &&& account_is(r.accounts@[7], base_pda, false, false)
    &&& account_is(r.accounts@[8], token_program, false, false)
}

/// The external-liquidation account order: twelve references, the
/// liquidator signing read-only.
pub open spec fn liquidate_order_request(
    r: Request,
    liquidated_wallet: Seq<u8>,
    liquidator_wallet: Seq<u8>,
    user_info: Seq<u8>,
    base_pda: Seq<u8>,
    liquidator_collateral_spl: Seq<u8>,
    liquidator_borrowed_spl: Seq<u8>,
    collateral_asset_pool: Seq<u8>,
    collateral_asset_pool_spl: Seq<u8>,
    borrowed_asset_pool: Seq<u8>,
    borrowed_asset_pool_spl: Seq<u8>,
    pool_summaries: Seq<u8>,
    token_program: Seq<u8>,
    program_id: Seq<u8>,
    payload: Seq<u8>,
) -> bool {
    &&& r.target_program@ == program_id
    &&& r.payload@ == payload
    &&& r.accounts@.len() == 12
    &&& account_is(r.accounts@[0], liquidated_wallet, false, false)
    &&& account_is(r.accounts@[1], liquidator_wallet, false, true)
    &&& account_is(r.accounts@[2], user_info, true, false)
    &&& account_is(r.accounts@[3], base_pda, false, false)
    &&& account_is(r.accounts@[4], liquidator_collateral_spl, true, false)
    &&& account_is(r.accounts@[5], liquidator_borrowed_spl, true, false)
    &&& account_is(r.accounts@[6], collateral_asset_pool, true, false)
    &&& account_is(r.accounts@[7], collateral_asset_pool_spl, true, false)
    &&& account_is(r.accounts@[8], borrowed_asset_pool, true, false)
    &&& account_is(r.accounts@[9], borrowed_asset_pool_spl, true, false)
    &&& account_is(r.accounts@[10], pool_summaries, true, false)
    &&& account_is(r.accounts@[11], token_program, false, false)
}

/// Builds a deposit request from explicitly supplied account identities.
pub fn deposit_full(
    user_wallet: &Identity,
    user_spl: &Identity,
    user_info: &Identity,
    asset_pool: &Identity,
    asset_pool_spl: &Identity,
    pool_summaries: &Identity,
    token_program: &Identity,
    program_id: &Identity,
    amount: u64,
    pool_id: u8,
) -> (r: Request)
    ensures
        deposit_order_request(
            r,
            user_wallet@,
            user_spl@,
            user_info@,
            asset_pool@,
            asset_pool_spl@,
            pool_summaries@,
            token_program@,
            program_id@,
            deposit_payload((DepositParam { amount, pool_id })),
        ),
{
    let payload = encode_deposit(&DepositParam { amount, pool_id });
    let mut accounts: Vec<AccountReference> = Vec::new();
    accounts.push(AccountReference { id: *user_wallet, is_writable: false, is_signer: true });
    accounts.push(AccountReference { id: *user_spl, is_writable: true, is_signer: false });
    accounts.push(AccountReference { id: *user_info, is_writable: true, is_signer: false });
    accounts.push(AccountReference { id: *asset_pool, is_writable: true, is_signer: false });
    accounts.push(AccountReference { id: *asset_pool_spl, is_writable: true, is_signer: false });
    accounts.push(AccountReference { id: *pool_summaries, is_writable: true, is_signer: false });
    accounts.push(AccountReference { id: *token_program, is_writable: false, is_signer: false });
    Request { target_program: *program_id, accounts, payload }
}

/// Builds a withdraw request from explicitly supplied account identities.
pub fn withdraw_full(
    user_wallet: &Identity,
    user_spl: &Identity,
    user_info: &Identity,
    asset_pool: &Identity,
    asset_pool_spl: &Identity,
    pool_summaries: &Identity,
    price_summaries: &Identity,
    base_pda: &Identity,
    token_program: &Identity,
    program_id: &Identity,
    withdraw_all: bool,
    amount: u64,
    pool_id: u8,
) -> (r: Request)
    ensures
        withdraw_order_request(
            r,
            user_wallet@,
            user_spl@,
            user_info@,
            asset_pool@,
            asset_pool_spl@,
            pool_summaries@,
            price_summaries@,
            base_pda@,
            token_program@,
            program_id@,
            withdraw_payload(
                (WithdrawParam { withdraw_all: bool_byte(withdraw_all), amount, pool_id }),
            ),
        ),
{
    let flag: u8 = if withdraw_all {
        1
    } else {
        0
    };
    let payload = encode_withdraw(&WithdrawParam { withdraw_all: flag, amount, pool_id });
    let mut accounts: Vec<AccountReference> = Vec::new();
    accounts.push(AccountReference { id: *user_wallet, is_writable: false, is_signer: true });
    accounts.push(AccountReference { id: *user_spl, is_writable: true, is_signer: false });
    accounts.push(AccountReference { id: *user_info, is_writable: true, is_signer: false });
    accounts.push(AccountReference { id: *asset_pool, is_writable: true, is_signer: false });
    accounts.push(AccountReference { id: *asset_pool_spl, is_writable: true, is_signer: false });
    accounts.push(AccountReference { id: *pool_summaries, is_writable: true, is_signer: false });
    accounts.push(AccountReference { id: *price_summaries, is_writable: false, is_signer: false });
    accounts.push(AccountReference { id: *base_pda, is_writable: false, is_signer: false });
    accounts.push(AccountReference { id: *token_program, is_writable: false, is_signer: false });
    Request { target_program: *program_id, accounts, payload }
}

/// Builds a borrow request from explicitly supplied account identities.
pub fn borrow_full(
    user_wallet: &Identity,
    user_spl: &Identity,
    user_info: &Identity,
    asset_pool: &Identity,
    asset_pool_spl: &Identity,
    pool_summaries: &Identity,
    price_summaries: &Identity,
    base_pda: &Identity,
    token_program: &Identity,
    program_id: &Identity,
    amount: u64,
    pool_id: u8,
) -> (r: Request)
    ensures
        withdraw_order_request(
            r,
            user_wallet@,
            user_spl@,
            user_info@,
            asset_pool@,
            asset_pool_spl@,
            pool_summaries@,
            price_summaries@,
            base_pda@,
            token_program@,
            program_id@,
            borrow_payload((BorrowParam { amount, pool_id })),
        ),
{
    let payload = encode_borrow(&BorrowParam { amount, pool_id });
    let mut accounts: Vec<AccountReference> = Vec::new();
    accounts.push(AccountReference { id: *user_wallet, is_writable: false, is_signer: true });
    accounts.push(AccountReference { id: *user_spl, is_writable: true, is_signer: false });
    accounts.push(AccountReference { id: *user_info, is_writable: true, is_signer: false });
    accounts.push(AccountReference { id: *asset_pool, is_writable: true, is_signer: false });
    accounts.push(AccountReference { id: *asset_pool_spl, is_writable: true, is_signer: false });
    accounts.push(AccountReference { id: *pool_summaries, is_writable: true, is_signer: false });
    accounts.push(AccountReference { id: *price_summaries, is_writable: false, is_signer: false });
    accounts.push(AccountReference { id: *base_pda, is_writable: false, is_signer: false });
    accounts.push(AccountReference { id: *token_program, is_writable: false, is_signer: false });
    Request { target_program: *program_id, accounts, payload }
}

/// Builds a repay request from explicitly supplied account identities.
pub fn repay_full(
    user_wallet: &Identity,
    user_spl: &Identity,
    user_info: &Identity,
    asset_pool: &Identity,
    asset_pool_spl: &Identity,
    pool_summaries: &Identity,
    token_program: &Identity,
    program_id: &Identity,
    repay_all: bool,
    amount: u64,
    pool_id: u8,
) -> (r: Request)
    ensures
        deposit_order_request(
            r,
            user_wallet@,
            user_spl@,
            user_info@,
            asset_pool@,
            asset_pool_spl@,
            pool_summaries@,
            token_program@,
            program_id@,
            repay_payload((RepayParam { repay_all: bool_byte(repay_all), amount, pool_id })),
        ),
{
    let flag: u8 = if repay_all {
        1
    } else {
        0
    };
    let payload = encode_repay(&RepayParam { repay_all: flag, amount, pool_id });
    let mut accounts: Vec<AccountReference> = Vec::new();
    accounts.push(AccountReference { id: *user_wallet, is_writable: false, is_signer: true });
    accounts.push(AccountReference { id: *user_spl, is_writable: true, is_signer: false });
    accounts.push(AccountReference { id: *user_info, is_writable: true, is_signer: false });
    accounts.push(AccountReference { id: *asset_pool, is_writable: true, is_signer: false });
    accounts.push(AccountReference { id: *asset_pool_spl, is_writable: true, is_signer: false });
    accounts.push(AccountReference { id: *pool_summaries, is_writable: true, is_signer: false });
    accounts.push(AccountReference { id: *token_program, is_writable: false, is_signer: false });
    Request { target_program: *program_id, accounts, payload }
}

/// Builds an external-liquidation request from explicitly supplied account
/// identities. The liquidator helps repay the borrowed asset and in
/// exchange receives the collateral asset at a discount.
pub fn extern_liquidate_full(
    liquidated_wallet: &Identity,
    liquidator_wallet: &Identity,
    user_info: &Identity,
    base_pda: &Identity,
    liquidator_collateral_spl: &Identity,
    liquidator_borrowed_spl: &Identity,
    collateral_asset_pool: &Identity,
    collateral_asset_pool_spl: &Identity,
    borrowed_asset_pool: &Identity,
    borrowed_asset_pool_spl: &Identity,
    pool_summaries: &Identity,
    token_program: &Identity,
    program_id: &Identity,
    repaid_borrow_amount: u64,
    min_collateral_amount: u64,
    borrowed_pool_id: u8,
    collateral_pool_id: u8,
) -> (r: Request)
    ensures
        liquidate_order_request(
            r,
            liquidated_wallet@,
            liquidator_wallet@,
            user_info@,
            base_pda@,
            liquidator_collateral_spl@,
            liquidator_borrowed_spl@,
            collateral_asset_pool@,
            collateral_asset_pool_spl@,
            borrowed_asset_pool@,
            borrowed_asset_pool_spl@,
            pool_summaries@,
            token_program@,
            program_id@,
            extern_liquidate_payload(
                (ExternLiquidateParam {
                    min_collateral_amount,
                    repaid_borrow_amount,
                    collateral_pool_id,
                    borrowed_pool_id,
                }),
            ),
        ),
{
    let payload = encode_extern_liquidate(
        &ExternLiquidateParam {
            min_collateral_amount,
            repaid_borrow_amount,
            collateral_pool_id,
            borrowed_pool_id,
        },
    );
    let mut accounts: Vec<AccountReference> = Vec::new();
    accounts.push(AccountReference { id: *liquidated_wallet, is_writable: false, is_signer: false });
    accounts.push(AccountReference { id: *liquidator_wallet, is_writable: false, is_signer: true });
    accounts.push(AccountReference { id: *user_info, is_writable: true, is_signer: false });
    accounts.push(AccountReference { id: *base_pda, is_writable: false, is_signer: false });
    accounts.push(
        AccountReference { id: *liquidator_collateral_spl, is_writable: true, is_signer: false },
    );
    accounts.push(
        AccountReference { id: *liquidator_borrowed_spl, is_writable: true, is_signer: false },
    );
    accounts.push(
        AccountReference { id: *collateral_asset_pool, is_writable: true, is_signer: false },
    );
    accounts.push(
        AccountReference { id: *collateral_asset_pool_spl, is_writable: true, is_signer: false },
    );
    accounts.push(
        AccountReference { id: *borrowed_asset_pool, is_writable: true, is_signer: false },
    );
    accounts.push(
        AccountReference { id: *borrowed_asset_pool_spl, is_writable: true, is_signer: false },
    );
    accounts.push(AccountReference { id: *pool_summaries, is_writable: true, is_signer: false });
    accounts.push(AccountReference { id: *token_program, is_writable: false, is_signer: false });
    Request { target_program: *program_id, accounts, payload }
}

/// Builds a deposit request, deriving every non-caller-supplied identity
/// under the canonical defaults: the protocol's own program and the
/// canonical token-owning program.
pub fn deposit(user_wallet: &Identity, user_spl: &Identity, amount: u64, pool_id: u8) -> (r:
    Request)
    ensures
        deposit_order_request(
            r,
            user_wallet@,
            user_spl@,
            derive_of(user_wallet@, user_info_seed_seq(), program_id_seq()),
            derive_of(base_pda_seq(), pool_seed_seq(pool_id), program_id_seq()),
            derive_of(base_pda_seq(), pool_seed_seq(pool_id), spl_token_id_seq()),
            pool_summaries_seq(),
            spl_token_id_seq(),
            program_id_seq(),
            deposit_payload((DepositParam { amount, pool_id })),
        ),
{
    let spl = spl_token_program();
    proof {
        lemma_namespaces_not_marked();
    }
    let user_info = get_user_info_k(user_wallet);
    let asset_pool = get_asset_pool_k(pool_id);
    let asset_pool_spl = get_asset_pool_spl_k(&spl, pool_id);
    let pool_summaries = get_pool_summaries_k();
    let pid = program_id();
    deposit_full(
        user_wallet,
        user_spl,
        &user_info,
        &asset_pool,
        &asset_pool_spl,
        &pool_summaries,
        &spl,
        &pid,
        amount,
        pool_id,
    )
}

/// Builds a withdraw request, deriving every non-caller-supplied identity
/// under the canonical defaults.
pub fn withdraw(
    user_wallet: &Identity,
    user_spl: &Identity,
    withdraw_all: bool,
    amount: u64,
    pool_id: u8,
) -> (r: Request)
    ensures
        withdraw_order_request(
            r,
            user_wallet@,
            user_spl@,
            derive_of(user_wallet@, user_info_seed_seq(), program_id_seq()),
            derive_of(base_pda_seq(), pool_seed_seq(pool_id), program_id_seq()),
            derive_of(base_pda_seq(), pool_seed_seq(pool_id), spl_token_id_seq()),
            pool_summaries_seq(),
            price_summaries_seq(),
            base_pda_seq(),
            spl_token_id_seq(),
            program_id_seq(),
            withdraw_payload(
                (WithdrawParam { withdraw_all: bool_byte(withdraw_all), amount, pool_id }),
            ),
        ),
{
    let spl = spl_token_program();
    proof {
        lemma_namespaces_not_marked();
    }
    let user_info = get_user_info_k(user_wallet);
    let asset_pool = get_asset_pool_k(pool_id);
    let asset_pool_spl = get_asset_pool_spl_k(&spl, pool_id);
    let pool_summaries = get_pool_summaries_k();
    let price_summaries = get_price_summaries_k();
    let base_pda = get_base_pda();
    let pid = program_id();
    withdraw_full(
        user_wallet,
        user_spl,
        &user_info,
        &asset_pool,
        &asset_pool_spl,
        &pool_summaries,
        &price_summaries,
        &base_pda,
        &spl,
        &pid,
        withdraw_all,
        amount,
        pool_id,
    )
}

/// Builds a borrow request, deriving every non-caller-supplied identity
/// under the canonical defaults.
pub fn borrow(user_wallet: &Identity, user_spl: &Identity, amount: u64, pool_id: u8) -> (r:
    Request)
    ensures
        withdraw_order_request(
            r,
            user_wallet@,
            user_spl@,
            derive_of(user_wallet@, user_info_seed_seq(), program_id_seq()),
            derive_of(base_pda_seq(), pool_seed_seq(pool_id), program_id_seq()),
            derive_of(base_pda_seq(), pool_seed_seq(pool_id), spl_token_id_seq()),
            pool_summaries_seq(),
            price_summaries_seq(),
            base_pda_seq(),
            spl_token_id_seq(),
            program_id_seq(),
            borrow_payload((BorrowParam { amount, pool_id })),
        ),
{
    let spl = spl_token_program();
    proof {
        lemma_namespaces_not_marked();
    }
    let user_info = get_user_info_k(user_wallet);
    let asset_pool = get_asset_pool_k(pool_id);
    let asset_pool_spl = get_asset_pool_spl_k(&spl, pool_id);
    let pool_summaries = get_pool_summaries_k();
    let price_summaries = get_price_summaries_k();
    let base_pda = get_base_pda();
    let pid = program_id();
    borrow_full(
        user_wallet,
        user_spl,
        &user_info,
        &asset_pool,
        &asset_pool_spl,
        &pool_summaries,
        &price_summaries,
        &base_pda,
        &spl,
        &pid,
        amount,
        pool_id,
    )
}

/// Builds a repay request, deriving every non-caller-supplied identity
/// under the canonical defaults.
pub fn repay(
    user_wallet: &Identity,
    user_spl: &Identity,
    repay_all: bool,
    amount: u64,
    pool_id: u8,
) -> (r: Request)
    ensures
        deposit_order_request(
            r,
            user_wallet@,
            user_spl@,
            derive_of(user_wallet@, user_info_seed_seq(), program_id_seq()),
            derive_of(base_pda_seq(), pool_seed_seq(pool_id), program_id_seq()),
            derive_of(base_pda_seq(), pool_seed_seq(pool_id), spl_token_id_seq()),
            pool_summaries_seq(),
            spl_token_id_seq(),
            program_id_seq(),
            repay_payload((RepayParam { repay_all: bool_byte(repay_all), amount, pool_id })),
        ),
{
    let spl = spl_token_program();
    proof {
        lemma_namespaces_not_marked();
    }
    let user_info = get_user_info_k(user_wallet);
    let asset_pool = get_asset_pool_k(pool_id);
    let asset_pool_spl = get_asset_pool_spl_k(&spl, pool_id);
    let pool_summaries = get_pool_summaries_k();
    let pid = program_id();
    repay_full(
        user_wallet,
        user_spl,
        &user_info,
        &asset_pool,
        &asset_pool_spl,
        &pool_summaries,
        &spl,
        &pid,
        repay_all,
        amount,
        pool_id,
    )
}

/// Builds an external-liquidation request, deriving every
/// non-caller-supplied identity under the canonical defaults. The user-info
/// account is the liquidated wallet's.
pub fn extern_liquidate(
    liquidated_wallet: &Identity,
    liquidator_wallet: &Identity,
    liquidator_collateral_spl: &Identity,
    liquidator_borrowed_spl: &Identity,
    repaid_borrow_amount: u64,
    min_collateral_amount: u64,
    borrowed_pool_id: u8,
    collateral_pool_id: u8,
) -> (r: Request)
    ensures
        liquidate_order_request(
            r,
            liquidated_wallet@,
            liquidator_wallet@,
            derive_of(liquidated_wallet@, user_info_seed_seq(), program_id_seq()),
            base_pda_seq(),
            liquidator_collateral_spl@,
            liquidator_borrowed_spl@,
            derive_of(base_pda_seq(), pool_seed_seq(collateral_pool_id), program_id_seq()),
            derive_of(base_pda_seq(), pool_seed_seq(collateral_pool_id), spl_token_id_seq()),
            derive_of(base_pda_seq(), pool_seed_seq(borrowed_pool_id), program_id_seq()),
            derive_of(base_pda_seq(), pool_seed_seq(borrowed_pool_id), spl_token_id_seq()),
            pool_summaries_seq(),
            spl_token_id_seq(),
            program_id_seq(),
            extern_liquidate_payload(
                (ExternLiquidateParam {
                    min_collateral_amount,
                    repaid_borrow_amount,
                    collateral_pool_id,
                    borrowed_pool_id,
                }),
            ),
        ),
{
    let spl = spl_token_program();
    proof {
        lemma_namespaces_not_marked();
    }
    let user_info = get_user_info_k(liquidated_wallet);
    let base_pda = get_base_pda();
    let collateral_asset_pool = get_asset_pool_k(collateral_pool_id);
    let collateral_asset_pool_spl = get_asset_pool_spl_k(&spl, collateral_pool_id);
    let borrowed_asset_pool = get_asset_pool_k(borrowed_pool_id);
    let borrowed_asset_pool_spl = get_asset_pool_spl_k(&spl, borrowed_pool_id);
    let pool_summaries = get_pool_summaries_k();
    let pid = program_id();
    extern_liquidate_full(
        liquidated_wallet,
        liquidator_wallet,
        &user_info,
        &base_pda,
        liquidator_collateral_spl,
        liquidator_borrowed_spl,
        &collateral_asset_pool,
        &collateral_asset_pool_spl,
        &borrowed_asset_pool,
        &borrowed_asset_pool_spl,
        &pool_summaries,
        &spl,
        &pid,
        repaid_borrow_amount,
        min_collateral_amount,
        borrowed_pool_id,
        collateral_pool_id,
    )
}

/// Building a deposit-ordered request twice from identical arguments gives
/// byte-identical requests.
pub proof fn lemma_deposit_order_identical(
    r1: Request,
    r2: Request,
    user_wallet: Seq<u8>,
    user_spl: Seq<u8>,
    user_info: Seq<u8>,
    asset_pool: Seq<u8>,
    asset_pool_spl: Seq<u8>,
    pool_summaries: Seq<u8>,
    token_program: Seq<u8>,
    program_id: Seq<u8>,
    payload: Seq<u8>,
)
    requires
        deposit_order_request(
            r1,
            user_wallet,
            user_spl,
            user_info,
            asset_pool,
            asset_pool_spl,
            pool_summaries,
            token_program,
            program_id,
            payload,
        ),
        deposit_order_request(
            r2,
            user_wallet,
            user_spl,
            user_info,
            asset_pool,
            asset_pool_spl,
            pool_summaries,
            token_program,
            program_id,
            payload,
        ),
    ensures
        request_obs_eq(r1, r2),
{
    assert forall|i: int| 0 <= i < r1.accounts@.len() implies account_obs_eq(
        #[trigger] r1.accounts@[i],
        r2.accounts@[i],
    ) by {
        if i == 0 {
        } else if i == 1 {
        } else if i == 2 {
        } else if i == 3 {
        } else if i == 4 {
        } else if i == 5 {
        } else {
            assert(i == 6);
        }
    }
}

/// Building a withdraw-ordered request twice from identical arguments gives
/// byte-identical requests.
pub proof fn lemma_withdraw_order_identical(
    r1: Request,
    r2: Request,
    user_wallet: Seq<u8>,
    user_spl: Seq<u8>,
    user_info: Seq<u8>,
    asset_pool: Seq<u8>,
    asset_pool_spl: Seq<u8>,
    pool_summaries: Seq<u8>,
    price_summaries: Seq<u8>,
    base_pda: Seq<u8>,
    token_program: Seq<u8>,
    program_id: Seq<u8>,
    payload: Seq<u8>,
)
    requires
        withdraw_order_request(
            r1,
            user_wallet,
            user_spl,
            user_info,
            asset_pool,
            asset_pool_spl,
            pool_summaries,
            price_summaries,
            base_pda,
            token_program,
            program_id,
            payload,
        ),
        withdraw_order_request(
            r2,
            user_wallet,
            user_spl,
            user_info,
            asset_pool,
            asset_pool_spl,
            pool_summaries,
            price_summaries,
            base_pda,
            token_program,
            program_id,
            payload,
        ),
    ensures
        request_obs_eq(r1, r2),
{
    assert forall|i: int| 0 <= i < r1.accounts@.len() implies account_obs_eq(
        #[trigger] r1.accounts@[i],
        r2.accounts@[i],
    ) by {
        if i == 0 {
        } else if i == 1 {
        } else if i == 2 {
        } else if i == 3 {
        } else if i == 4 {
        } else if i == 5 {
        } else if i == 6 {
        } else if i == 7 {
        } else {
            assert(i == 8);
        }
    }
}

/// Building a liquidation-ordered request twice from identical arguments
/// gives byte-identical requests.
pub proof fn lemma_liquidate_order_identical(
    r1: Request,
    r2: Request,
    liquidated_wallet: Seq<u8>,
    liquidator_wallet: Seq<u8>,
    user_info: Seq<u8>,
    base_pda: Seq<u8>,
    liquidator_collateral_spl: Seq<u8>,
    liquidator_borrowed_spl: Seq<u8>,
    collateral_asset_pool: Seq<u8>,
    collateral_asset_pool_spl: Seq<u8>,
    borrowed_asset_pool: Seq<u8>,
    borrowed_asset_pool_spl: Seq<u8>,
    pool_summaries: Seq<u8>,
    token_program: Seq<u8>,
    program_id: Seq<u8>,
    payload: Seq<u8>,
)
    requires
        liquidate_order_request(
            r1,
            liquidated_wallet,
            liquidator_wallet,
            user_info,
            base_pda,
            liquidator_collateral_spl,
            liquidator_borrowed_spl,
            collateral_asset_pool,
            collateral_asset_pool_spl,
            borrowed_asset_pool,
            borrowed_asset_pool_spl,
            pool_summaries,
            token_program,
            program_id,
            payload,
        ),
        liquidate_order_request(
            r2,
            liquidated_wallet,
            liquidator_wallet,
            user_info,
            base_pda,
            liquidator_collateral_spl,
            liquidator_borrowed_spl,
            collateral_asset_pool,
            collateral_asset_pool_spl,
            borrowed_asset_pool,
            borrowed_asset_pool_spl,
            pool_summaries,
            token_program,
            program_id,
            payload,
        ),
    ensures
        request_obs_eq(r1, r2),
{
    assert forall|i: int| 0 <= i < r1.accounts@.len() implies account_obs_eq(
        #[trigger] r1.accounts@[i],
        r2.accounts@[i],
    ) by {
        if i == 0 {
        } else if i == 1 {
        } else if i == 2 {
        } else if i == 3 {
        } else if i == 4 {
        } else if i == 5 {
        } else if i == 6 {
        } else if i == 7 {
        } else if i == 8 {
        } else if i == 9 {
        } else if i == 10 {
        } else {
            assert(i == 11);
        }
    }
}

} // verus!
