//! Verified core of the "Carteira Digital" investment wallet: the error
//! model of the web application and its mapping to HTTP answers, user
//! registration and login, the checks that the request handlers make before
//! they reach the store, and the roles of the recorded transactions.

pub mod auth;
pub mod error;
pub mod ledger;
pub mod models;
pub mod policy;
