//! The two error kinds: an invalid credential combination, and a failure of
//! the external QR encoder.

use vstd::prelude::*;

use crate::descriptor::SecurityTypes;

verus! {

/// Declares the external encoder's error type so values of it can be carried
/// through; it is opaque here.
#[verifier::external_type_specification]
#[verifier::external_body]
pub struct ExEncodeError(qrcode_generator::EncodeError);

/// Why no QR code was produced: the credentials were invalid, or the external
/// encoder could not represent the descriptor at the requested level.
#[derive(Debug)]
pub enum QrError {
    /// A security standard was stated (the carried one) but no password was
    /// supplied: a protected network must have a password.
    MissingPassword(SecurityTypes),
    /// The external encoder rejected the descriptor, for its carried reason
    /// (for example, the text is too long for the symbol capacity).
    Encoding(qrcode_generator::EncodeError),
}

} // verus!
