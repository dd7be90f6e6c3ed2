use carteira::error::AppError;
use carteira::ledger::{transaction_role, TransactionKind};
use carteira::policy::{
    authorize_price_update, authorize_trade, require_admin, require_asset, require_user,
};

#[test]
fn trade_without_user_is_missing_authorization() {
    let outcome = authorize_trade::<i64>(None, true, Some(true));
    assert!(matches!(outcome, Err(AppError::MissingAuthorization)));
}

#[test]
fn trade_with_non_positive_quantity_is_invalid_quantity() {
    let outcome = authorize_trade(Some(1i64), true, Some(true));
    assert!(matches!(outcome, Err(AppError::InvalidQuantity)));
    let outcome = authorize_trade(Some(1i64), true, None);
    assert!(matches!(outcome, Err(AppError::InvalidQuantity)));
}

#[test]
fn trade_with_non_positive_price_is_invalid_unit_price() {
    let outcome = authorize_trade(Some(1i64), false, Some(true));
    assert!(matches!(outcome, Err(AppError::InvalidUnitPrice)));
}

#[test]
fn valid_trade_goes_through_with_its_user() {
    assert!(matches!(authorize_trade(Some(5i64), false, None), Ok(5)));
    assert!(matches!(authorize_trade(Some(5i64), false, Some(false)), Ok(5)));
}

#[test]
fn trade_checks_follow_the_float_comparisons() {
    // a quantity or price must be greater than zero
    let checks = |quantity: f64, price: Option<f64>| {
        authorize_trade(Some(1i64), !(quantity > 0.0), price.map(|p| !(p > 0.0)))
    };
    assert!(matches!(checks(0.0, None), Err(AppError::InvalidQuantity)));
    assert!(matches!(checks(-1.5, Some(3.0)), Err(AppError::InvalidQuantity)));
    assert!(matches!(checks(2.5, Some(0.0)), Err(AppError::InvalidUnitPrice)));
    assert!(matches!(checks(2.5, Some(10.0)), Ok(1)));
    assert!(matches!(checks(f64::NAN, None), Err(AppError::InvalidQuantity)));
    assert!(matches!(checks(2.5, Some(f64::NAN)), Err(AppError::InvalidUnitPrice)));
}

#[test]
fn price_update_needs_the_admin() {
    assert!(matches!(authorize_price_update(None, false), Err(AppError::MissingAuthorization)));
    assert!(matches!(authorize_price_update(Some("John"), false), Err(AppError::Unauthorized)));
    assert!(matches!(authorize_price_update(Some("John"), true), Err(AppError::Unauthorized)));
    assert!(matches!(authorize_price_update(Some("admin"), true), Err(AppError::InvalidUnitPrice)));
    assert!(authorize_price_update(Some("admin"), false).is_ok());
}

#[test]
fn admin_only_requests() {
    assert!(matches!(require_admin(None), Err(AppError::MissingAuthorization)));
    assert!(matches!(require_admin(Some("Marie")), Err(AppError::Unauthorized)));
    assert!(require_admin(Some("admin")).is_ok());
}

#[test]
fn signed_in_requests() {
    assert!(matches!(require_user::<&str>(None), Err(AppError::MissingAuthorization)));
    assert!(matches!(require_user(Some("John")), Ok("John")));
}

#[test]
fn missing_asset_is_asset_does_not_exist() {
    assert!(matches!(require_asset::<(i64, String)>(None), Err(AppError::AssetDoesNotExist)));
    let found = require_asset(Some((1i64, "Ethereum".to_string()))).expect("asset exists");
    assert_eq!(found.0, 1);
    assert_eq!(found.1, "Ethereum");
}

#[test]
fn transaction_roles() {
    let sell = transaction_role("sell");
    assert!(sell.realized && !sell.counts_toward_cost);
    let buy = transaction_role("buy");
    assert!(!buy.realized && buy.counts_toward_cost);
    let other = transaction_role("transfer");
    assert!(!other.realized && !other.counts_toward_cost);
    let upper = transaction_role("SELL");
    assert!(!upper.realized && !upper.counts_toward_cost);
}

#[test]
fn stored_kind_names_read_back_as_their_roles() {
    assert_eq!(TransactionKind::Buy.as_str(), "buy");
    assert_eq!(TransactionKind::Sell.as_str(), "sell");
    assert!(transaction_role(TransactionKind::Sell.as_str()).realized);
    assert!(transaction_role(TransactionKind::Buy.as_str()).counts_toward_cost);
}
