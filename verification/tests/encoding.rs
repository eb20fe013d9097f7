//! The command payload encoder: fixed layouts, little-endian fields, and
//! the deposit round trip.

use lending_client::consts::CMD_BORROW;
use lending_client::consts::CMD_DEPOSIT;
use lending_client::consts::CMD_EXTERN_LIQUIDATE;
use lending_client::consts::CMD_MARGIN_SWAP;
use lending_client::consts::CMD_REPAY;
use lending_client::consts::CMD_SELF_LIQUIDATE;
use lending_client::consts::CMD_UPDATE_USER_ASSET_CONFIG;
use lending_client::consts::CMD_WITHDRAW;
use lending_client::payload::decode_deposit;
use lending_client::payload::encode_borrow;
use lending_client::payload::encode_deposit;
use lending_client::payload::encode_extern_liquidate;
use lending_client::payload::encode_margin_swap;
use lending_client::payload::encode_repay;
use lending_client::payload::encode_self_liquidate;
use lending_client::payload::encode_update_user_asset_config;
use lending_client::payload::encode_withdraw;
use lending_client::payload::BorrowParam;
use lending_client::payload::DepositParam;
use lending_client::payload::ExternLiquidateParam;
use lending_client::payload::MarginSwapParam;
use lending_client::payload::RepayParam;
use lending_client::payload::SelfLiquidateParam;
use lending_client::payload::UpdateUserAssetConfigParam;
use lending_client::payload::WithdrawParam;

#[test]
fn deposit_round_trip() {
    let param = DepositParam { amount: 1234, pool_id: 7 };
    let encoded = encode_deposit(&param);
    assert_eq!(encoded.len(), 10);
    assert_eq!(encoded[0], 0x11);
    let decoded = decode_deposit(&encoded).unwrap();
    assert_eq!(decoded, param);
    assert_eq!(decoded.amount, 1234);
    assert_eq!(decoded.pool_id, 7);
}

#[test]
fn deposit_exact_bytes() {
    let param = DepositParam { amount: 1234, pool_id: 7 };
    let encoded = encode_deposit(&param);
    let mut expected = vec![CMD_DEPOSIT];
    expected.extend_from_slice(&1234u64.to_le_bytes());
    expected.push(7);
    assert_eq!(encoded, expected);
}

#[test]
fn decode_deposit_rejects_bad_input() {
    assert_eq!(decode_deposit(&vec![]), None);
    assert_eq!(decode_deposit(&vec![CMD_DEPOSIT; 9]), None);
    assert_eq!(decode_deposit(&vec![CMD_DEPOSIT; 11]), None);
    let mut wrong_tag = vec![CMD_BORROW];
    wrong_tag.extend_from_slice(&[0u8; 9]);
    assert_eq!(decode_deposit(&wrong_tag), None);
}

#[test]
fn withdraw_exact_bytes() {
    let param = WithdrawParam { withdraw_all: 1, amount: 0x0102030405060708, pool_id: 9 };
    let encoded = encode_withdraw(&param);
    assert_eq!(encoded.len(), 11);
    assert_eq!(encoded[0], CMD_WITHDRAW);
    assert_eq!(encoded[1], 1);
    assert_eq!(&encoded[2..10], &0x0102030405060708u64.to_le_bytes());
    assert_eq!(encoded[10], 9);
}

#[test]
fn borrow_exact_bytes() {
    let param = BorrowParam { amount: u64::MAX, pool_id: 255 };
    let encoded = encode_borrow(&param);
    assert_eq!(encoded.len(), 10);
    assert_eq!(encoded[0], CMD_BORROW);
    assert_eq!(&encoded[1..9], &[0xff; 8]);
    assert_eq!(encoded[9], 255);
}

#[test]
fn repay_exact_bytes() {
    let param = RepayParam { repay_all: 0, amount: 0, pool_id: 0 };
    let encoded = encode_repay(&param);
    assert_eq!(encoded, {
        let mut expected = vec![CMD_REPAY, 0];
        expected.extend_from_slice(&[0u8; 8]);
        expected.push(0);
        expected
    });
}

#[test]
fn extern_liquidate_byte_offsets() {
    let param = ExternLiquidateParam {
        min_collateral_amount: 10,
        repaid_borrow_amount: 500,
        collateral_pool_id: 5,
        borrowed_pool_id: 2,
    };
    let encoded = encode_extern_liquidate(&param);
    assert_eq!(encoded.len(), 19);
    assert_eq!(encoded[0], CMD_EXTERN_LIQUIDATE);
    assert_eq!(&encoded[1..9], &10u64.to_le_bytes());
    assert_eq!(&encoded[9..17], &500u64.to_le_bytes());
    assert_eq!(encoded[17], 5);
    assert_eq!(encoded[18], 2);
}

#[test]
fn self_liquidate_exact_bytes() {
    let param = SelfLiquidateParam {
        need_to_sell: 1,
        need_to_buy: 0,
        sell_collateral_amount: 77,
        buy_borrowed_amount: 88,
        collateral_pool_id: 3,
        borrowed_pool_id: 4,
    };
    let encoded = encode_self_liquidate(&param);
    assert_eq!(encoded.len(), 21);
    assert_eq!(encoded[0], CMD_SELF_LIQUIDATE);
    assert_eq!(encoded[1], 1);
    assert_eq!(encoded[2], 0);
    assert_eq!(&encoded[3..11], &77u64.to_le_bytes());
    assert_eq!(&encoded[11..19], &88u64.to_le_bytes());
    assert_eq!(encoded[19], 3);
    assert_eq!(encoded[20], 4);
}

#[test]
fn margin_swap_exact_bytes() {
    let param = MarginSwapParam {
        need_to_sell: 0,
        need_to_buy: 1,
        sell_amount: 1,
        min_buy_amount: 2,
        sell_pool_id: 11,
        buy_pool_id: 12,
    };
    let encoded = encode_margin_swap(&param);
    assert_eq!(encoded.len(), 21);
    assert_eq!(encoded[0], CMD_MARGIN_SWAP);
    assert_eq!(encoded[1], 0);
    assert_eq!(encoded[2], 1);
    assert_eq!(&encoded[3..11], &1u64.to_le_bytes());
    assert_eq!(&encoded[11..19], &2u64.to_le_bytes());
    assert_eq!(encoded[19], 11);
    assert_eq!(encoded[20], 12);
}

#[test]
fn update_user_asset_config_exact_bytes() {
    let param = UpdateUserAssetConfigParam { use_as_collateral: 1, pool_id: 6 };
    let encoded = encode_update_user_asset_config(&param);
    assert_eq!(encoded, vec![CMD_UPDATE_USER_ASSET_CONFIG, 1, 6]);
}

#[test]
fn command_tags_cover_reserved_range() {
    assert_eq!(lending_client::consts::CMD_ADD_USER_AND_DEPOSIT, 0x10);
    assert_eq!(CMD_DEPOSIT, 0x11);
    assert_eq!(CMD_WITHDRAW, 0x12);
    assert_eq!(CMD_BORROW, 0x13);
    assert_eq!(CMD_REPAY, 0x14);
    assert_eq!(CMD_EXTERN_LIQUIDATE, 0x15);
    assert_eq!(CMD_SELF_LIQUIDATE, 0x16);
    assert_eq!(lending_client::consts::CMD_UPDATE_USER_CONFIG, 0x17);
    assert_eq!(CMD_MARGIN_SWAP, 0x18);
    assert_eq!(CMD_UPDATE_USER_ASSET_CONFIG, 0x19);
    assert_eq!(lending_client::consts::CMD_WITHDRAW_AND_REMOVE_USER, 0x1a);
}
