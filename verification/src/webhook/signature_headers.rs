//! The signature headers that Discord sends with each request

use vstd::prelude::*;

verus! {

/// The signature and timestamp headers of a request
#[derive(Clone, Debug)]
pub struct SignatureHeaders {
    /// The `X-Signature-Ed25519` header: the hex text of the request's signature
    pub signature: Vec<u8>,
    /// The `X-Signature-Timestamp` header
    pub timestamp: Vec<u8>,
}

/// Why a request's signature headers could not be read
#[derive(Clone, Copy, Debug, PartialEq, Eq, Structural)]
pub enum SignatureHeaderError {
    /// The `X-Signature-Ed25519` header is missing
    MissingSignature,
    /// The `X-Signature-Timestamp` header is missing
    MissingTimestamp,
}

impl SignatureHeaders {
    /// The signature headers from the values of the two headers, when both are present
    /// (a request without them is refused as unauthorized)
    pub fn from_headers(signature: Option<&[u8]>, timestamp: Option<&[u8]>) -> (r: Result<SignatureHeaders, SignatureHeaderError>)
        ensures
            match signature {
                None => r == Err::<SignatureHeaders, SignatureHeaderError>(SignatureHeaderError::MissingSignature),
                Some(s) => match timestamp {
                    None => r == Err::<SignatureHeaders, SignatureHeaderError>(SignatureHeaderError::MissingTimestamp),
                    Some(t) => r matches Ok(h) && h.signature@ == s@ && h.timestamp@ == t@,
                },
            },
    {
        let s = match signature {
            Some(s) => s,
            None => { return Err(SignatureHeaderError::MissingSignature); },
        };
        let t = match timestamp {
            Some(t) => t,
            None => { return Err(SignatureHeaderError::MissingTimestamp); },
        };
        Ok(SignatureHeaders { signature: vstd::slice::slice_to_vec(s), timestamp: vstd::slice::slice_to_vec(t) })
    }
}

} // verus!
