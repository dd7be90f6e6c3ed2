use vstd::prelude::*;

use crate::auth::{admin_username, is_admin};
use crate::error::AppError;

verus! {

/// What a request that needs a signed-in user is answered when `maybe_user`
/// is what the session gave: the user, or `MissingAuthorization`.
pub open spec fn user_outcome<U>(maybe_user: Option<U>) -> Result<U, AppError> {
    match maybe_user {
        Some(user) => Ok(user),
        None => Err(AppError::MissingAuthorization),
    }
}

/// Lets a request through only when a user is signed in.
pub fn require_user<U>(maybe_user: Option<U>) -> (outcome: Result<U, AppError>)
    ensures
        outcome == user_outcome(maybe_user),
        maybe_user is None ==> outcome == Err::<U, AppError>(AppError::MissingAuthorization),
        maybe_user matches Some(user) ==> outcome == Ok::<U, AppError>(user),
{
    match maybe_user {
        Some(user) => Ok(user),
        None => Err(AppError::MissingAuthorization),
    }
}

/// What a request that only the administrator may make is answered, given the
/// name of the signed-in user, if any.
pub open spec fn admin_outcome(maybe_username: Option<Seq<char>>) -> Result<(), AppError> {
    match maybe_username {
        None => Err(AppError::MissingAuthorization),
        Some(name) => if name == admin_username() {
            Ok(())
        } else {
            Err(AppError::Unauthorized)
        },
    }
}

/// The view of an optional name.
pub open spec fn name_view(maybe_username: Option<&str>) -> Option<Seq<char>> {
    match maybe_username {
        Some(name) => Some(name@),
        None => None,
    }
}

/// Lets a request through only when the administrator is signed in: with no
/// user it is refused with `MissingAuthorization`, with another user with
/// `Unauthorized`.
pub fn require_admin(maybe_username: Option<&str>) -> (outcome: Result<(), AppError>)
    ensures
        outcome == admin_outcome(name_view(maybe_username)),
        maybe_username is None ==> outcome == Err::<(), AppError>(AppError::MissingAuthorization),
        maybe_username matches Some(name) ==> (name@ == "admin"@ ==> outcome is Ok),
        maybe_username matches Some(name) ==> (name@ != "admin"@ ==> outcome == Err::<(), AppError>(
            AppError::Unauthorized,
        )),
{
    match maybe_username {
        None => Err(AppError::MissingAuthorization),
        Some(name) => if is_admin(name) {
            Ok(())
        } else {
            Err(AppError::Unauthorized)
        },
    }
}

/// What a buy or sell form is answered before it reaches the store.
///
/// `quantity_not_positive` tells whether the quantity is not greater than
/// zero, and `price_not_positive` whether the optional price, when one is
/// given, is not greater than zero (a value that is not a number is not
/// greater than zero). The checks come in this order: a signed-in user, a positive
/// quantity, a positive price.
pub open spec fn trade_outcome<U>(
    maybe_user: Option<U>,
    quantity_not_positive: bool,
    price_not_positive: Option<bool>,
) -> Result<U, AppError> {
    match maybe_user {
        None => Err(AppError::MissingAuthorization),
        Some(user) => if quantity_not_positive {
            Err(AppError::InvalidQuantity)
        } else if price_not_positive == Some(true) {
            Err(AppError::InvalidUnitPrice)
        } else {
            Ok(user)
        },
    }
}

/// Checks a buy or sell form: the user who may trade, or the reason why not.
pub fn authorize_trade<U>(
    maybe_user: Option<U>,
    quantity_not_positive: bool,
    price_not_positive: Option<bool>,
) -> (outcome: Result<U, AppError>)
    ensures
        outcome == trade_outcome(maybe_user, quantity_not_positive, price_not_positive),
        maybe_user is None ==> outcome == Err::<U, AppError>(AppError::MissingAuthorization),
        maybe_user is Some && quantity_not_positive ==> outcome == Err::<U, AppError>(
            AppError::InvalidQuantity,
        ),
        maybe_user is Some && !quantity_not_positive && price_not_positive == Some(true)
            ==> outcome == Err::<U, AppError>(AppError::InvalidUnitPrice),
        maybe_user matches Some(user) ==> (!quantity_not_positive && price_not_positive != Some(
            true,
        ) ==> outcome == Ok::<U, AppError>(user)),
{
    let user = match maybe_user {
        None => return Err(AppError::MissingAuthorization),
        Some(user) => user,
    };
    if quantity_not_positive {
        return Err(AppError::InvalidQuantity);
    }
    match price_not_positive {
        Some(true) => Err(AppError::InvalidUnitPrice),
        _ => Ok(user),
    }
}

/// What a form that sets the market price of an asset is answered before it
/// reaches the store: only the administrator may set a price, and only a
/// positive one.
pub open spec fn price_update_outcome(
    maybe_username: Option<Seq<char>>,
    price_not_positive: bool,
) -> Result<(), AppError> {
    match admin_outcome(maybe_username) {
        Err(e) => Err(e),
        Ok(()) => if price_not_positive {
            Err(AppError::InvalidUnitPrice)
        } else {
            Ok(())
        },
    }
}

/// Checks a form that sets the market price of an asset;
/// `price_not_positive` tells whether the new price is not greater than zero.
pub fn authorize_price_update(maybe_username: Option<&str>, price_not_positive: bool) -> (outcome:
    Result<(), AppError>)
    ensures
        outcome == price_update_outcome(name_view(maybe_username), price_not_positive),
        maybe_username is None ==> outcome == Err::<(), AppError>(AppError::MissingAuthorization),
        maybe_username matches Some(name) ==> (name@ != "admin"@ ==> outcome == Err::<(), AppError>(
            AppError::Unauthorized,
        )),
        maybe_username matches Some(name) ==> (name@ == "admin"@ && price_not_positive ==> outcome
            == Err::<(), AppError>(AppError::InvalidUnitPrice)),
        maybe_username matches Some(name) ==> (name@ == "admin"@ && !price_not_positive ==> outcome
            is Ok),
{
    match require_admin(maybe_username) {
        Err(e) => Err(e),
        Ok(()) => if price_not_positive {
            Err(AppError::InvalidUnitPrice)
        } else {
            Ok(())
        },
    }
}

/// A trade that the checks let through comes from a signed-in user, has a
/// positive quantity and, when it names a price, a positive price; and every
/// such trade is let through.
pub proof fn lemma_accepted_trades<U>(
    maybe_user: Option<U>,
    quantity_not_positive: bool,
    price_not_positive: Option<bool>,
)
    ensures
        trade_outcome(maybe_user, quantity_not_positive, price_not_positive) is Ok <==> (
        maybe_user is Some && !quantity_not_positive && price_not_positive != Some(true)),
        trade_outcome(maybe_user, quantity_not_positive, price_not_positive) matches Ok(user)
            ==> maybe_user == Some(user),
{
}

/// A market price is set only by the administrator and only to a positive
/// value; and the administrator may always set a positive one.
pub proof fn lemma_accepted_price_updates(
    maybe_username: Option<Seq<char>>,
    price_not_positive: bool,
)
    ensures
        price_update_outcome(maybe_username, price_not_positive) is Ok <==> (maybe_username
            == Some(admin_username()) && !price_not_positive),
{
}

/// With nobody signed in, a trade is refused for missing authorization,
/// whatever the form holds; a positive quantity is never refused as an
/// invalid quantity, and a positive or absent price never as an invalid price.
pub proof fn lemma_trade_refusals<U>()
    ensures
        forall|q: bool, p: Option<bool>|
            #[trigger] trade_outcome::<U>(None, q, p) == Err::<U, AppError>(
                AppError::MissingAuthorization,
            ),
        forall|u: Option<U>, p: Option<bool>|
            #[trigger] trade_outcome::<U>(u, false, p) != Err::<U, AppError>(
                AppError::InvalidQuantity,
            ),
        forall|u: Option<U>, q: bool|
            #[trigger] trade_outcome::<U>(u, q, Some(false)) != Err::<U, AppError>(
                AppError::InvalidUnitPrice,
            ) && trade_outcome::<U>(u, q, None) != Err::<U, AppError>(AppError::InvalidUnitPrice),
        forall|user: U, p: Option<bool>|
            #[trigger] trade_outcome::<U>(Some(user), true, p) == Err::<U, AppError>(
                AppError::InvalidQuantity,
            ),
{
}

/// An administrator-only request is refused for missing authorization
/// exactly when nobody is signed in, refused as unauthorized for every
/// signed-in user other than `admin`, and let through for `admin`.
pub proof fn lemma_admin_gate()
    ensures
        admin_outcome(None) == Err::<(), AppError>(AppError::MissingAuthorization),
        forall|name: Seq<char>|
            name != "admin"@ ==> #[trigger] admin_outcome(Some(name)) == Err::<(), AppError>(
                AppError::Unauthorized,
            ),
        admin_outcome(Some("admin"@)) == Ok::<(), AppError>(()),
        forall|m: Option<Seq<char>>|
            #[trigger] admin_outcome(m) == Err::<(), AppError>(AppError::MissingAuthorization)
                <==> m is None,
{
}

/// A price update from a signed-in user other than `admin` is refused as
/// unauthorized whatever the price; with nobody signed in it is refused for
/// missing authorization; the administrator is refused only a price that is
/// not positive.
pub proof fn lemma_price_update_refusals()
    ensures
        forall|b: bool|
            #[trigger] price_update_outcome(None, b) == Err::<(), AppError>(
                AppError::MissingAuthorization,
            ),
        forall|name: Seq<char>, b: bool|
            name != "admin"@ ==> #[trigger] price_update_outcome(Some(name), b) == Err::<
                (),
                AppError,
            >(AppError::Unauthorized),
        price_update_outcome(Some("admin"@), true) == Err::<(), AppError>(
            AppError::InvalidUnitPrice,
        ),
        price_update_outcome(Some("admin"@), false) == Ok::<(), AppError>(()),
{
}

/// What an update of an asset is answered, given what the store returned:
/// the updated asset, or `AssetDoesNotExist` when no asset has that key.
pub open spec fn asset_outcome<T>(updated: Option<T>) -> Result<T, AppError> {
    match updated {
        Some(asset) => Ok(asset),
        None => Err(AppError::AssetDoesNotExist),
    }
}

/// Answers an update of an asset from what the store returned.
pub fn require_asset<T>(updated: Option<T>) -> (outcome: Result<T, AppError>)
    ensures
        outcome == asset_outcome(updated),
        updated is None ==> outcome == Err::<T, AppError>(AppError::AssetDoesNotExist),
        updated matches Some(asset) ==> outcome == Ok::<T, AppError>(asset),
{
    match updated {
        Some(asset) => Ok(asset),
        None => Err(AppError::AssetDoesNotExist),
    }
}

} // verus!
