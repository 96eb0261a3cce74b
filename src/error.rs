use vstd::prelude::*;

verus! {

/// Marks `base64::DecodeError` as a type that signatures and fields may carry.
#[verifier::external_type_specification]
#[verifier::external_body]
pub struct ExDecodeError(base64::DecodeError);

/// Marks `std::time::SystemTimeError` as a type that signatures and fields may carry.
#[verifier::external_type_specification]
#[verifier::external_body]
pub struct ExSystemTimeError(std::time::SystemTimeError);

/// Every way a call can fail. Business errors of the exchange are not here:
/// they arrive inside a decoded `KrakenResponse`.
#[derive(Debug)]
pub enum Error {
    /// The request could not be sent or its answer not received.
    HttpError { status: Option<u16>, message: String },
    /// The answer's body does not match the expected schema.
    DecodeError { status: Option<u16>, message: String },
    /// The system clock reads a time before the Unix epoch.
    SystemTimeError(std::time::SystemTimeError),
    /// The API secret is not valid base64.
    Base64DecodeError(base64::DecodeError),
    /// A private call was attempted without both an API key and an API secret.
    Unauthorized,
}

} // verus!
