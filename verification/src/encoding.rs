use vstd::prelude::*;

verus! {

/// The standard base64 text (with padding) of a byte sequence.
pub uninterp spec fn base64_text(bytes: Seq<u8>) -> Seq<char>;

/// The standard base32 text (with padding) of a byte sequence.
pub uninterp spec fn base32_text(bytes: Seq<u8>) -> Seq<char>;

/// The checksummed text form of a 32-byte account key.
pub uninterp spec fn address_text(key: Seq<u8>) -> Seq<char>;

/// The account key that an address text stands for, if it is a valid address.
pub uninterp spec fn address_key(text: Seq<char>) -> Option<Seq<u8>>;

/// Calls `data_encoding::BASE64.encode`. Trusted: the result is a function of
/// the bytes alone, named `base64_text`.
#[verifier::external_body]
pub(crate) fn base64_encode(bytes: &[u8]) -> (r: String)
    ensures
        r@ == base64_text(bytes@),
{
    data_encoding::BASE64.encode(bytes)
}

/// Calls `data_encoding::BASE32.encode`. Trusted: the result is a function of
/// the bytes alone, named `base32_text`.
#[verifier::external_body]
pub(crate) fn base32_encode(bytes: &[u8]) -> (r: String)
    ensures
        r@ == base32_text(bytes@),
{
    data_encoding::BASE32.encode(bytes)
}

/// Calls `to_string` on an `algonaut::core::Address` made of `key`. Trusted:
/// the result is a function of the key alone, named `address_text`.
#[verifier::external_body]
pub(crate) fn address_to_string(key: &[u8; 32]) -> (r: String)
    ensures
        r@ == address_text(key@),
{
    algonaut::core::Address(*key).to_string()
}

/// Calls `str::parse` for `algonaut::core::Address`. Trusted: whether the text
/// is accepted, and the key it gives, depend on the text alone; `address_key`
/// names that outcome.
#[verifier::external_body]
pub(crate) fn address_from_str(text: &str) -> (r: Option<[u8; 32]>)
    ensures
        match r {
            Some(key) => address_key(text@) == Some(key@),
            None => address_key(text@) is None,
        },
{
    match text.parse::<algonaut::core::Address>() {
        Ok(address) => Some(address.0),
        Err(_) => None,
    }
}

} // verus!
