use vstd::prelude::*;

verus! {

/// The closed set of failures the service reports. No variant carries a payload,
/// so no internal detail reaches a caller beyond the fixed message of its kind.
#[derive(Debug, Clone, Copy, PartialEq, Eq, Structural)]
pub enum ServiceError {
    ServiceBusy,
    InvalidCiphertextFormat,
    DecryptionFailed,
    InvalidBase64,
    PublicKeyReadError,
    UnknownError,
}

/// Errors caused by what the caller sent; every other kind is the server's.
pub open spec fn is_client_error(e: ServiceError) -> bool {
    e == ServiceError::InvalidBase64 || e == ServiceError::InvalidCiphertextFormat
}

/// The HTTP status of each kind: 400 for client errors, 500 for the rest.
pub open spec fn status_of(e: ServiceError) -> u16 {
    if is_client_error(e) {
        400
    } else {
        500
    }
}

/// The fixed message of each kind.
pub open spec fn message_of(e: ServiceError) -> Seq<char> {
    match e {
        ServiceError::InvalidCiphertextFormat => "Invalid ciphertext format"@,
        ServiceError::DecryptionFailed => "Decryption failed"@,
        ServiceError::InvalidBase64 => "Invalid base64 encoding"@,
        ServiceError::ServiceBusy => "Service is busy"@,
        ServiceError::PublicKeyReadError => "Unable to read public key"@,
        ServiceError::UnknownError => "Unknown Error"@,
    }
}

impl ServiceError {
    /// The message shown to callers for this kind.
    pub fn message(&self) -> (r: &'static str)
        ensures
            r@ == message_of(*self),
    {
        match *self {
            ServiceError::InvalidCiphertextFormat => "Invalid ciphertext format",
            ServiceError::DecryptionFailed => "Decryption failed",
            ServiceError::InvalidBase64 => "Invalid base64 encoding",
            ServiceError::ServiceBusy => "Service is busy",
            ServiceError::PublicKeyReadError => "Unable to read public key",
            ServiceError::UnknownError => "Unknown Error",
        }
    }

    /// The message as an owned string.
    pub fn to_string(&self) -> (r: String)
        ensures
            r@ == message_of(*self),
    {
        String::from_str(self.message())
    }

    /// Whether the caller's input caused this error.
    pub fn is_client_error(&self) -> (r: bool)
        ensures
            r == is_client_error(*self),
    {
        match *self {
            ServiceError::InvalidBase64 | ServiceError::InvalidCiphertextFormat => true,
            _ => false,
        }
    }

    /// The HTTP status code a response for this kind carries.
    pub fn status_code(&self) -> (r: u16)
        ensures
            r == status_of(*self),
            r == 400 || r == 500,
    {
        if self.is_client_error() {
            400
        } else {
            500
        }
    }
}

} // verus!
