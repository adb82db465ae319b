//! The wallet secret: when it can be typed, and how it is encoded.

use vstd::prelude::*;

verus! {

/// Lowest byte of the directly typeable range (space).
pub const TYPEABLE_MIN: u8 = 32;

/// Highest byte of the directly typeable range (tilde).
pub const TYPEABLE_MAX: u8 = 126;

/// A byte is typeable when it is a printable ASCII character, space to tilde.
pub open spec fn typeable_byte(b: u8) -> bool {
    TYPEABLE_MIN <= b <= TYPEABLE_MAX
}

/// A secret is typeable when every one of its bytes is.
pub open spec fn typeable(pw: Seq<u8>) -> bool {
    forall|i: int| 0 <= i < pw.len() ==> typeable_byte(#[trigger] pw[i])
}

/// Whether a stored secret can be typed directly on a keyboard.
pub fn pw_is_typeable(pw: &[u8]) -> (ok: bool)
    ensures
        ok == typeable(pw@),
{
    let mut i: usize = 0;
    while i < pw.len()
        invariant
            i <= pw.len(),
            forall|k: int| 0 <= k < i ==> typeable_byte(#[trigger] pw@[k]),
        decreases pw.len() - i,
    {
        let b: u8 = pw[i];
        if b < TYPEABLE_MIN || b > TYPEABLE_MAX {
            return false;
        }
        i += 1;
    }
    true
}

/// Longest secret that the encoders take: the encoded forms of anything longer
/// could exceed what a 32-bit address space can hold in one allocation.
pub const MAX_SECRET_LEN: usize = 0x2000_0000;

/// Longest input of the base64 encoder; every base32 form of a secret fits.
pub const MAX_BASE64_INPUT: usize = 0x4000_0000;

/// The unpadded RFC 4648 base32 form of `data`, as ASCII bytes.
pub uninterp spec fn base32_bytes(data: Seq<u8>) -> Seq<u8>;

/// The padded standard-alphabet base64 form of `data`.
pub uninterp spec fn base64_text(data: Seq<u8>) -> Seq<char>;

/// A symbol of the RFC 4648 base32 alphabet: `A` to `Z` or `2` to `7`.
pub open spec fn base32_symbol(b: u8) -> bool {
    (0x41 <= b <= 0x5A) || (0x32 <= b <= 0x37)
}

/// Number of base32 symbols that encode `n` bytes without padding.
pub open spec fn base32_len(n: nat) -> nat {
    ((8 * n + 4) / 5) as nat
}

/// `base32::encode` with the RFC 4648 alphabet and no padding, its `String`
/// turned into bytes. Trusted: the result is the base32 form of `data`, every
/// byte of it is drawn from the 32-symbol alphabet, and five bits of input
/// make one symbol, the last one filled up with zero bits.
#[verifier::external_body]
fn base32_encode(data: &[u8]) -> (out: Vec<u8>)
    requires
        data.len() <= MAX_SECRET_LEN,
    ensures
        out@ == base32_bytes(data@),
        out.len() == base32_len(data@.len()),
        forall|i: int| 0 <= i < out.len() ==> base32_symbol(#[trigger] out@[i]),
{
    base32::encode(base32::Alphabet::RFC4648 { padding: false }, data).into_bytes()
}

/// `base64::encode`. Trusted: the result is the base64 form of `data`.
#[verifier::external_body]
fn base64_encode(data: &[u8]) -> (text: String)
    requires
        data.len() <= MAX_BASE64_INPUT,
    ensures
        text@ == base64_text(data@),
{
    base64::encode(data)
}

/// A secret made of base32 symbols alone can be typed.
pub proof fn lemma_base32_symbols_typeable(out: Seq<u8>)
    requires
        forall|i: int| 0 <= i < out.len() ==> base32_symbol(#[trigger] out[i]),
    ensures
        typeable(out),
{
    assert forall|i: int| 0 <= i < out.len() implies typeable_byte(#[trigger] out[i]) by {
        assert(base32_symbol(out[i]));
    }
}

/// Encodes a secret, or fresh random bytes, as a secret that can be typed:
/// its base32 form.
pub fn encode_typeable(data: &[u8]) -> (out: Vec<u8>)
    requires
        data.len() <= MAX_SECRET_LEN,
    ensures
        out@ == base32_bytes(data@),
        out.len() == base32_len(data@.len()),
        out.len() <= MAX_BASE64_INPUT,
        typeable(out@),
{
    let out = base32_encode(data);
    proof {
        lemma_base32_symbols_typeable(out@);
    }
    out
}

/// The form in which a secret travels inside a request: base64.
pub fn password_field(secret: &[u8]) -> (text: String)
    requires
        secret.len() <= MAX_BASE64_INPUT,
    ensures
        text@ == base64_text(secret@),
{
    base64_encode(secret)
}

} // verus!
