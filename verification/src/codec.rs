use vstd::prelude::*;
use crate::grid::PixelGrid;

verus! {

/// What `base64::decode` returns for a given payload: the decoded
/// bytes, or the display text of the decoding error.  Decoding is a
/// pure function of the payload, so its outcome carries a single name.
pub uninterp spec fn base64_decoded(s: Seq<char>) -> Result<Seq<u8>, Seq<char>>;

/// Relies on `base64::decode`: decodes standard-alphabet base64 text,
/// deterministically in the payload; on failure the error's display
/// text — which is never empty — is returned.
#[verifier::external_body]
fn decode_base64(payload: &str) -> (r: Result<Vec<u8>, String>)
    ensures
        match r {
            Ok(d) => base64_decoded(payload@) == Ok::<Seq<u8>, Seq<char>>(d@),
            Err(e) => base64_decoded(payload@) == Err::<Seq<u8>, Seq<char>>(e@) && e@.len() > 0,
        },
{
    match base64::decode(payload) {
        Ok(d) => Ok(d),
        Err(e) => Err(e.to_string()),
    }
}

/// Relies on `image::load_from_memory` (format auto-detection and
/// parsing), `DynamicImage::to_luma8` (the luminance reduction) and
/// `ImageBuffer::dimensions` / `into_raw`, whose buffer holds exactly
/// width·height one-byte samples.  Some decoders pick their kernels by
/// CPU feature detection, so the samples may differ in rounding between
/// machines: nothing here ties them to the bytes; every later stage is
/// verified for whatever grid comes back.  On failure the error's
/// display text — which is never empty — is returned.
#[verifier::external_body]
fn decode_luma(bytes: &Vec<u8>) -> (r: Result<(u32, u32, Vec<u8>), String>)
    ensures
        match r {
            Ok(t) => t.2@.len() == (t.0 as nat) * (t.1 as nat),
            Err(e) => e@.len() > 0,
        },
{
    match image::load_from_memory(bytes.as_slice()) {
        Ok(img) => {
            let gray = img.to_luma8();
            let (w, h) = gray.dimensions();
            Ok((w, h, gray.into_raw()))
        },
        Err(e) => Err(e.to_string()),
    }
}

/// The cause text reported for an image whose grid cannot be analyzed.
pub open spec fn degenerate_cause() -> Seq<char> {
    "image has no analyzable pixel grid"@
}

fn degenerate_cause_str() -> (s: &'static str)
    ensures
        s@ == degenerate_cause(),
{
    "image has no analyzable pixel grid"
}

/// Why a payload yielded no analyzable grid.
pub enum DecodeError {
    /// The payload is not valid base64 text.
    Encoding(String),
    /// The decoded bytes are not a parsable raster image.
    Format(String),
    /// The decoded image has a zero — or unanalyzably large — area.
    Degenerate,
}

impl DecodeError {
    /// The human-readable cause of the failure.
    pub open spec fn spec_cause(self) -> Seq<char> {
        match self {
            DecodeError::Encoding(c) => c@,
            DecodeError::Format(c) => c@,
            DecodeError::Degenerate => degenerate_cause(),
        }
    }

    pub fn cause(&self) -> (c: String)
        ensures
            c@ == self.spec_cause(),
    {
        match self {
            DecodeError::Encoding(c) => c.clone(),
            DecodeError::Format(c) => c.clone(),
            DecodeError::Degenerate => degenerate_cause_str().to_owned(),
        }
    }
}

/// Decodes a text payload into a pixel grid: base64 text to bytes,
/// bytes to a luminance grid, then the degenerate-dimensions check.
/// The base64 stage is pinned exactly by its name; past it, the call
/// yields a well-formed grid, or the image parser's error with its
/// non-empty cause, or the degenerate-image rejection.
pub fn decode_payload(payload: &str) -> (r: Result<PixelGrid, DecodeError>)
    ensures
        match base64_decoded(payload@) {
            Err(c) => r matches Err(DecodeError::Encoding(m)) && m@ == c && c.len() > 0,
            Ok(_) => match r {
                Ok(g) => g.wf(),
                Err(e) => (e matches DecodeError::Format(m) && m@.len() > 0) || (
                e matches DecodeError::Degenerate),
            },
        },
{
    let bytes = match decode_base64(payload) {
        Ok(b) => b,
        Err(e) => { return Err(DecodeError::Encoding(e)); },
    };
    let (w, h, data) = match decode_luma(&bytes) {
        Ok(t) => t,
        Err(e) => { return Err(DecodeError::Format(e)); },
    };
    match PixelGrid::try_new(w, h, data) {
        Some(g) => Ok(g),
        None => Err(DecodeError::Degenerate),
    }
}

} // verus!
