//! Client library for an exchange REST API: request signing, private-request
//! preparation and the success/error response envelope.

pub mod client;
pub mod decimal;
pub mod endpoints;
pub mod error;
pub mod response;
pub mod signature;

pub use crate::client::{
    KrakenClient, PrivateRequest, FORM_URL_ENCODED, HEADER_API_KEY, HEADER_API_SIGN, KRAKEN_BASE_URL,
};
pub use crate::decimal::decimal_string;
pub use crate::endpoints::{join_assets, ASSETS_PATH, BALANCE_PATH};
pub use crate::error::Error;
pub use crate::response::KrakenResponse;
pub use crate::signature::{get_signature, nonce, nonce_message_bytes, sign_with_key, signing_input_bytes};
