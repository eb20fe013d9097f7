//! The command payload encoder: serializes typed command parameters into the
//! engine's fixed binary layouts. Byte 0 is the command tag; the following
//! bytes are the parameter fields in declared order, integers little-endian
//! and fixed-width, booleans one byte, with no padding and no length prefix.

use vstd::prelude::*;

use crate::consts::CMD_BORROW;
use crate::consts::CMD_DEPOSIT;
use crate::consts::CMD_EXTERN_LIQUIDATE;
use crate::consts::CMD_MARGIN_SWAP;
use crate::consts::CMD_REPAY;
use crate::consts::CMD_SELF_LIQUIDATE;
use crate::consts::CMD_UPDATE_USER_ASSET_CONFIG;
use crate::consts::CMD_WITHDRAW;

verus! {

/// Parameters of the asset-config update command.
#[derive(Clone, Copy, Debug, PartialEq, Eq, Structural)]
pub struct UpdateUserAssetConfigParam {
    pub use_as_collateral: u8,
    pub pool_id: u8,
}

/// Parameters of the deposit command.
#[derive(Clone, Copy, Debug, PartialEq, Eq, Structural)]
#[verifier::ext_equal]
pub struct DepositParam {
    pub amount: u64,
    pub pool_id: u8,
}

/// Parameters of the withdraw command.
#[derive(Clone, Copy, Debug, PartialEq, Eq, Structural)]
pub struct WithdrawParam {
    pub withdraw_all: u8,
    pub amount: u64,
    pub pool_id: u8,
}

/// Parameters of the borrow command.
#[derive(Clone, Copy, Debug, PartialEq, Eq, Structural)]
pub struct BorrowParam {
    pub amount: u64,
    pub pool_id: u8,
}

/// Parameters of the repay command.
#[derive(Clone, Copy, Debug, PartialEq, Eq, Structural)]
pub struct RepayParam {
    pub repay_all: u8,
    pub amount: u64,
    pub pool_id: u8,
}

/// Parameters of the external-liquidation command.
#[derive(Clone, Copy, Debug, PartialEq, Eq, Structural)]
pub struct ExternLiquidateParam {
    /// How much collateral the liquidator wants to receive.
    pub min_collateral_amount: u64,
    /// How much debt the liquidator wants to help repay.
    pub repaid_borrow_amount: u64,
    pub collateral_pool_id: u8,
    pub borrowed_pool_id: u8,
}

/// Parameters of the self-liquidation command.
#[derive(Clone, Copy, Debug, PartialEq, Eq, Structural)]
pub struct SelfLiquidateParam {
    pub need_to_sell: u8,
    pub need_to_buy: u8,
    pub sell_collateral_amount: u64,
    pub buy_borrowed_amount: u64,
    pub collateral_pool_id: u8,
    pub borrowed_pool_id: u8,
}

/// Parameters of the margin-swap command.
///
/// About `need_to_sell` and `need_to_buy`: when swapping from the quote
/// asset a single bid order suffices, so there is no need to sell; when
/// swapping to the quote asset a single ask order suffices, so there is no
/// need to buy.
#[derive(Clone, Copy, Debug, PartialEq, Eq, Structural)]
pub struct MarginSwapParam {
    pub need_to_sell: u8,
    pub need_to_buy: u8,
    pub sell_amount: u64,
    pub min_buy_amount: u64,
    pub sell_pool_id: u8,
    pub buy_pool_id: u8,
}

/// The eight little-endian bytes of a 64-bit integer.
pub open spec fn u64_le_seq(x: u64) -> Seq<u8> {
    seq![
        (x & 0xff) as u8,
        ((x >> 8) & 0xff) as u8,
        ((x >> 16) & 0xff) as u8,
        ((x >> 24) & 0xff) as u8,
        ((x >> 32) & 0xff) as u8,
        ((x >> 40) & 0xff) as u8,
        ((x >> 48) & 0xff) as u8,
        ((x >> 56) & 0xff) as u8,
    ]
}

/// The single wire byte of a boolean: 1 for true, 0 for false.
pub open spec fn bool_byte(b: bool) -> u8 {
    if b {
        1
    } else {
        0
    }
}

/// Appends the eight little-endian bytes of `x` to `buf`.
pub fn push_u64_le(buf: &mut Vec<u8>, x: u64)
    ensures
        final(buf)@ == old(buf)@ + u64_le_seq(x),
{
    buf.push((x & 0xff) as u8);
    buf.push(((x >> 8) & 0xff) as u8);
    buf.push(((x >> 16) & 0xff) as u8);
    buf.push(((x >> 24) & 0xff) as u8);
    buf.push(((x >> 32) & 0xff) as u8);
    buf.push(((x >> 40) & 0xff) as u8);
    buf.push(((x >> 48) & 0xff) as u8);
    buf.push(((x >> 56) & 0xff) as u8);
    proof {
        assert(buf@ =~= old(buf)@ + u64_le_seq(x));
    }
}

/// Reads a 64-bit little-endian integer from `data` at byte offset `off`.
pub fn read_u64_le(data: &Vec<u8>, off: usize) -> (x: u64)
    requires
        off + 8 <= data@.len(),
    ensures
        u64_le_seq(x) == data@.subrange(off as int, off as int + 8),
{
    let n: usize = data.len();
    assert(off + 8 <= n);
    let b0: u8 = data[off];
    let b1: u8 = data[off + 1];
    let b2: u8 = data[off + 2];
    let b3: u8 = data[off + 3];
    let b4: u8 = data[off + 4];
    let b5: u8 = data[off + 5];
    let b6: u8 = data[off + 6];
    let b7: u8 = data[off + 7];
    let x: u64 = (b0 as u64) | ((b1 as u64) << 8) | ((b2 as u64) << 16) | ((b3 as u64) << 24) | (
    (b4 as u64) << 32) | ((b5 as u64) << 40) | ((b6 as u64) << 48) | ((b7 as u64) << 56);
    proof {
        assert((x & 0xff) as u8 == b0 && ((x >> 8) & 0xff) as u8 == b1 && ((x >> 16) & 0xff) as u8
            == b2 && ((x >> 24) & 0xff) as u8 == b3 && ((x >> 32) & 0xff) as u8 == b4 && ((x >> 40)
            & 0xff) as u8 == b5 && ((x >> 48) & 0xff) as u8 == b6 && ((x >> 56) & 0xff) as u8
            == b7) by (bit_vector)
            requires
                x == (b0 as u64) | ((b1 as u64) << 8) | ((b2 as u64) << 16) | ((b3 as u64) << 24)
                    | ((b4 as u64) << 32) | ((b5 as u64) << 40) | ((b6 as u64) << 48) | ((
                b7 as u64) << 56),
        ;
        assert(u64_le_seq(x) =~= data@.subrange(off as int, off as int + 8));
    }
    x
}

/// Two 64-bit integers with the same little-endian bytes are the same.
pub proof fn lemma_u64_le_injective(x: u64, y: u64)
    requires
        u64_le_seq(x) == u64_le_seq(y),
    ensures
        x == y,
{
    assert(u64_le_seq(x)[0] == u64_le_seq(y)[0]);
    assert(u64_le_seq(x)[1] == u64_le_seq(y)[1]);
    assert(u64_le_seq(x)[2] == u64_le_seq(y)[2]);
    assert(u64_le_seq(x)[3] == u64_le_seq(y)[3]);
    assert(u64_le_seq(x)[4] == u64_le_seq(y)[4]);
    assert(u64_le_seq(x)[5] == u64_le_seq(y)[5]);
    assert(u64_le_seq(x)[6] == u64_le_seq(y)[6]);
    assert(u64_le_seq(x)[7] == u64_le_seq(y)[7]);
    assert(x == y) by (bit_vector)
        requires
            (x & 0xff) as u8 == (y & 0xff) as u8,
            ((x >> 8) & 0xff) as u8 == ((y >> 8) & 0xff) as u8,
            ((x >> 16) & 0xff) as u8 == ((y >> 16) & 0xff) as u8,
            ((x >> 24) & 0xff) as u8 == ((y >> 24) & 0xff) as u8,
            ((x >> 32) & 0xff) as u8 == ((y >> 32) & 0xff) as u8,
            ((x >> 40) & 0xff) as u8 == ((y >> 40) & 0xff) as u8,
            ((x >> 48) & 0xff) as u8 == ((y >> 48) & 0xff) as u8,
            ((x >> 56) & 0xff) as u8 == ((y >> 56) & 0xff) as u8,
    ;
}

/// The wire bytes of a deposit command.
pub open spec fn deposit_payload(p: DepositParam) -> Seq<u8> {
    seq![CMD_DEPOSIT] + u64_le_seq(p.amount) + seq![p.pool_id]
}

/// The wire bytes of a withdraw command.
pub open spec fn withdraw_payload(p: WithdrawParam) -> Seq<u8> {
    seq![CMD_WITHDRAW, p.withdraw_all] + u64_le_seq(p.amount) + seq![p.pool_id]
}

/// The wire bytes of a borrow command.
pub open spec fn borrow_payload(p: BorrowParam) -> Seq<u8> {
    seq![CMD_BORROW] + u64_le_seq(p.amount) + seq![p.pool_id]
}

/// The wire bytes of a repay command.
pub open spec fn repay_payload(p: RepayParam) -> Seq<u8> {
    seq![CMD_REPAY, p.repay_all] + u64_le_seq(p.amount) + seq![p.pool_id]
}

/// The wire bytes of an external-liquidation command.
pub open spec fn extern_liquidate_payload(p: ExternLiquidateParam) -> Seq<u8> {
    seq![CMD_EXTERN_LIQUIDATE] + u64_le_seq(p.min_collateral_amount) + u64_le_seq(
        p.repaid_borrow_amount,
    ) + seq![p.collateral_pool_id, p.borrowed_pool_id]
}

/// The wire bytes of a self-liquidation command.
pub open spec fn self_liquidate_payload(p: SelfLiquidateParam) -> Seq<u8> {
    seq![CMD_SELF_LIQUIDATE, p.need_to_sell, p.need_to_buy] + u64_le_seq(p.sell_collateral_amount)
        + u64_le_seq(p.buy_borrowed_amount) + seq![p.collateral_pool_id, p.borrowed_pool_id]
}

/// The wire bytes of a margin-swap command.
pub open spec fn margin_swap_payload(p: MarginSwapParam) -> Seq<u8> {
    seq![CMD_MARGIN_SWAP, p.need_to_sell, p.need_to_buy] + u64_le_seq(p.sell_amount) + u64_le_seq(
        p.min_buy_amount,
    ) + seq![p.sell_pool_id, p.buy_pool_id]
}

/// The wire bytes of an asset-config update command.
pub open spec fn update_user_asset_config_payload(p: UpdateUserAssetConfigParam) -> Seq<u8> {
    seq![CMD_UPDATE_USER_ASSET_CONFIG, p.use_as_collateral, p.pool_id]
}

/// Encodes a deposit command: tag, then amount and pool index.
pub fn encode_deposit(p: &DepositParam) -> (r: Vec<u8>)
    ensures
        r@ == deposit_payload(*p),
        r@.len() == 10,
{
    let mut r: Vec<u8> = Vec::new();
    r.push(CMD_DEPOSIT);
    push_u64_le(&mut r, p.amount);
    r.push(p.pool_id);
    proof {
        assert(r@ =~= deposit_payload(*p));
    }
    r
}

/// Encodes a withdraw command: tag, withdraw-all flag, amount, pool index.
pub fn encode_withdraw(p: &WithdrawParam) -> (r: Vec<u8>)
    ensures
        r@ == withdraw_payload(*p),
        r@.len() == 11,
{
    let mut r: Vec<u8> = Vec::new();
    r.push(CMD_WITHDRAW);
    r.push(p.withdraw_all);
    push_u64_le(&mut r, p.amount);
    r.push(p.pool_id);
    proof {
        assert(r@ =~= withdraw_payload(*p));
    }
    r
}

/// Encodes a borrow command: tag, then amount and pool index.
pub fn encode_borrow(p: &BorrowParam) -> (r: Vec<u8>)
    ensures
        r@ == borrow_payload(*p),
        r@.len() == 10,
{
    let mut r: Vec<u8> = Vec::new();
    r.push(CMD_BORROW);
    push_u64_le(&mut r, p.amount);
    r.push(p.pool_id);
    proof {
        assert(r@ =~= borrow_payload(*p));
    }
    r
}

/// Encodes a repay command: tag, repay-all flag, amount, pool index.
pub fn encode_repay(p: &RepayParam) -> (r: Vec<u8>)
    ensures
        r@ == repay_payload(*p),
        r@.len() == 11,
{
    let mut r: Vec<u8> = Vec::new();
    r.push(CMD_REPAY);
    r.push(p.repay_all);
    push_u64_le(&mut r, p.amount);
    r.push(p.pool_id);
    proof {
        assert(r@ =~= repay_payload(*p));
    }
    r
}

/// Encodes an external-liquidation command: tag, minimum collateral amount,
/// repaid borrow amount, collateral pool index, borrowed pool index.
pub fn encode_extern_liquidate(p: &ExternLiquidateParam) -> (r: Vec<u8>)
    ensures
        r@ == extern_liquidate_payload(*p),
        r@.len() == 19,
{
    let mut r: Vec<u8> = Vec::new();
    r.push(CMD_EXTERN_LIQUIDATE);
    push_u64_le(&mut r, p.min_collateral_amount);
    push_u64_le(&mut r, p.repaid_borrow_amount);
    r.push(p.collateral_pool_id);
    r.push(p.borrowed_pool_id);
    proof {
        assert(r@ =~= extern_liquidate_payload(*p));
    }
    r
}

/// Encodes a self-liquidation command: tag, the two need flags, the two
/// amounts, the two pool indices.
pub fn encode_self_liquidate(p: &SelfLiquidateParam) -> (r: Vec<u8>)
    ensures
        r@ == self_liquidate_payload(*p),
        r@.len() == 21,
{
    let mut r: Vec<u8> = Vec::new();
    r.push(CMD_SELF_LIQUIDATE);
    r.push(p.need_to_sell);
    r.push(p.need_to_buy);
    push_u64_le(&mut r, p.sell_collateral_amount);
    push_u64_le(&mut r, p.buy_borrowed_amount);
    r.push(p.collateral_pool_id);
    r.push(p.borrowed_pool_id);
    proof {
        assert(r@ =~= self_liquidate_payload(*p));
    }
    r
}

/// Encodes a margin-swap command: tag, the two need flags, the two amounts,
/// the two pool indices.
pub fn encode_margin_swap(p: &MarginSwapParam) -> (r: Vec<u8>)
    ensures
        r@ == margin_swap_payload(*p),
        r@.len() == 21,
{
    let mut r: Vec<u8> = Vec::new();
    r.push(CMD_MARGIN_SWAP);
    r.push(p.need_to_sell);
    r.push(p.need_to_buy);
    push_u64_le(&mut r, p.sell_amount);
    push_u64_le(&mut r, p.min_buy_amount);
    r.push(p.sell_pool_id);
    r.push(p.buy_pool_id);
    proof {
        assert(r@ =~= margin_swap_payload(*p));
    }
    r
}

/// Encodes an asset-config update command: tag, collateral flag, pool index.
pub fn encode_update_user_asset_config(p: &UpdateUserAssetConfigParam) -> (r: Vec<u8>)
    ensures
        r@ == update_user_asset_config_payload(*p),
        r@.len() == 3,
{
    let mut r: Vec<u8> = Vec::new();
    r.push(CMD_UPDATE_USER_ASSET_CONFIG);
    r.push(p.use_as_collateral);
    r.push(p.pool_id);
    proof {
        assert(r@ =~= update_user_asset_config_payload(*p));
    }
    r
}

/// Decodes a deposit payload. Succeeds exactly on 10-byte buffers that carry
/// the deposit tag, and then returns the unique parameters whose encoding is
/// the given buffer.
pub fn decode_deposit(data: &Vec<u8>) -> (r: Option<DepositParam>)
    ensures
        match r {
            Some(p) => data@ == deposit_payload(p),
            None => !(data@.len() == 10 && data@[0] == CMD_DEPOSIT),
        },
        data@.len() == 10 && data@[0] == CMD_DEPOSIT ==> r is Some,
{
    if data.len() != 10 {
        return None;
    }
    if data[0] != CMD_DEPOSIT {
        return None;
    }
    let amount = read_u64_le(data, 1);
    let pool_id = data[9];
    let p = DepositParam { amount, pool_id };
    proof {
        assert forall|i: int| 0 <= i < 10 implies deposit_payload(p)[i] == data@[i] by {
            if 1 <= i < 9 {
                assert(deposit_payload(p)[i] == u64_le_seq(amount)[i - 1]);
                assert(data@.subrange(1, 9)[i - 1] == data@[i]);
            }
        }
        assert(data@ =~= deposit_payload(p));
    }
    Some(p)
}

/// The external-liquidation payload is 19 bytes in the declared field
/// order: the tag, the minimum collateral amount at offsets 1..9, the
/// repaid borrow amount at offsets 9..17, then the collateral and borrowed
/// pool indices at 17 and 18.
pub proof fn lemma_extern_liquidate_payload_offsets(p: ExternLiquidateParam)
    ensures
        extern_liquidate_payload(p).len() == 19,
        extern_liquidate_payload(p)[0] == CMD_EXTERN_LIQUIDATE,
        extern_liquidate_payload(p).subrange(1, 9) == u64_le_seq(p.min_collateral_amount),
        extern_liquidate_payload(p).subrange(9, 17) == u64_le_seq(p.repaid_borrow_amount),
        extern_liquidate_payload(p)[17] == p.collateral_pool_id,
        extern_liquidate_payload(p)[18] == p.borrowed_pool_id,
{
    assert(u64_le_seq(p.min_collateral_amount).len() == 8);
    assert(u64_le_seq(p.repaid_borrow_amount).len() == 8);
    assert(extern_liquidate_payload(p).subrange(1, 9) =~= u64_le_seq(p.min_collateral_amount));
    assert(extern_liquidate_payload(p).subrange(9, 17) =~= u64_le_seq(p.repaid_borrow_amount));
}

/// The deposit encoding is injective: a payload determines its parameters,
/// so decoding recovers exactly what was encoded, with no extra bytes.
pub proof fn lemma_deposit_payload_injective(p1: DepositParam, p2: DepositParam)
    requires
        deposit_payload(p1) == deposit_payload(p2),
    ensures
        p1 == p2,
{
    assert(u64_le_seq(p1.amount).len() == 8);
    assert(u64_le_seq(p2.amount).len() == 8);
    assert forall|i: int| 0 <= i < 8 implies u64_le_seq(p1.amount)[i] == u64_le_seq(
        p2.amount,
    )[i] by {
        assert(deposit_payload(p1)[i + 1] == u64_le_seq(p1.amount)[i]);
        assert(deposit_payload(p2)[i + 1] == u64_le_seq(p2.amount)[i]);
    }
    assert(u64_le_seq(p1.amount) =~= u64_le_seq(p2.amount));
    lemma_u64_le_injective(p1.amount, p2.amount);
    assert(deposit_payload(p1)[9] == p1.pool_id);
    assert(deposit_payload(p2)[9] == p2.pool_id);
    assert(p1 =~= p2);
}

} // verus!
