//! The end-to-end pipeline: build the connection descriptor, have the external
//! QR encoder turn it into a module matrix, and render that matrix as text.

use vstd::prelude::*;

use crate::descriptor::{assemble_qr_string, spec_valid_combination, Credentials};
use crate::error::QrError;
use crate::render::{get_bool_matrix_as_string, spec_matrix};

verus! {

/// The four error-correction levels of the external encoder, in order of
/// increasing redundancy and decreasing data capacity.
#[derive(Clone, Copy, Debug, PartialEq, Eq, Structural)]
pub enum ECCLevel {
    Low,
    Medium,
    Quartile,
    High,
}

impl ECCLevel {
    /// The position of this level in the ordered list of levels.
    pub open spec fn spec_ordinal(self) -> int {
        match self {
            ECCLevel::Low => 0,
            ECCLevel::Medium => 1,
            ECCLevel::Quartile => 2,
            ECCLevel::High => 3,
        }
    }
}

/// The module matrix the external encoder produces for a given text and
/// error-correction level (by its ordinal), or `None` where the text cannot be
/// represented at that level; a function of those two arguments alone.
pub uninterp spec fn qr_matrix_of(text: Seq<char>, ecc: int) -> Option<Seq<Seq<bool>>>;

/// Relies on qrcode_generator's Model 2 QR encoder: `qr::Encoder::new` and
/// `Encoder::encode_text` produce a symbol from the text and the
/// error-correction level alone, and `Symbol::to_matrix` copies the symbol's
/// square module grid into one row per module line, so on success every row's
/// length equals the row count.
#[verifier::external_body]
fn encode_text_to_matrix(text: &str, ecc: ECCLevel) -> (r: Result<
    Vec<Vec<bool>>,
    qrcode_generator::EncodeError,
>)
    ensures
        r is Ok <==> qr_matrix_of(text@, ecc.spec_ordinal()) is Some,
        r is Ok ==> r->Ok_0.deep_view() == qr_matrix_of(text@, ecc.spec_ordinal())->Some_0,
        r is Ok ==> forall|i: int|
            0 <= i < r->Ok_0@.len() ==> (#[trigger] r->Ok_0@[i])@.len() == r->Ok_0@.len(),
{
    let level = match ecc {
        ECCLevel::Low => qrcode_generator::qr::ErrorCorrection::Low,
        ECCLevel::Medium => qrcode_generator::qr::ErrorCorrection::Medium,
        ECCLevel::Quartile => qrcode_generator::qr::ErrorCorrection::Quartile,
        ECCLevel::High => qrcode_generator::qr::ErrorCorrection::High,
    };
    qrcode_generator::qr::Encoder::new(level).encode_text(text).map(|s| s.to_matrix())
}

/// Serializes the credentials, encodes the descriptor as a QR module matrix at
/// the given error-correction level, and renders the matrix as a printable
/// text block; fails on an invalid credential combination or when the encoder
/// cannot represent the descriptor.
pub fn generate_qr_text(creds: &Credentials, ecc: ECCLevel) -> (r: Result<String, QrError>)
    ensures
        ({
            let valid = spec_valid_combination(creds.sec, creds.spec_password());
            let encoded = qr_matrix_of(creds.spec_descriptor_of(), ecc.spec_ordinal());
            &&& r is Ok <==> (valid && encoded is Some)
            &&& r is Ok ==> r->Ok_0@ == spec_matrix(encoded->Some_0)
            &&& !valid ==> (r->Err_0 matches QrError::MissingPassword(s) && creds.sec == Some(s))
            &&& (valid && encoded is None) ==> r->Err_0 is Encoding
        }),
{
    let descriptor: String = match assemble_qr_string(creds) {
        Ok(d) => d,
        Err(e) => {
            return Err(e);
        },
    };
    let matrix: Vec<Vec<bool>> = match encode_text_to_matrix(descriptor.as_str(), ecc) {
        Ok(m) => m,
        Err(e) => {
            return Err(QrError::Encoding(e));
        },
    };
    Ok(get_bool_matrix_as_string(matrix))
}

} // verus!
