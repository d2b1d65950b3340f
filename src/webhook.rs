//! Authenticity of inbound events: a keyed SHA-256 hash over the raw body,
//! sent as `sha256=<lower-case hex>`.

use vstd::prelude::*;
use vstd::utf8::encode_utf8;
use hmac::Mac;

verus! {

/// HMAC-SHA256 of `message` under `key`, as the `hmac` and `sha2` crates
/// compute it.
pub uninterp spec fn hmac_sha256_of(key: Seq<u8>, message: Seq<u8>) -> Seq<u8>;

/// Relies on hmac::Hmac::<sha2::Sha256>::new_from_slice, Mac::update and
/// Mac::finalize. `new_from_slice` hashes keys longer than a block and pads
/// the others, so it accepts a key of any length.
#[verifier::external_body]
fn hmac_sha256(key: &[u8], message: &[u8]) -> (r: Option<Vec<u8>>)
    ensures
        r is Some,
        r->0@ == hmac_sha256_of(key@, message@),
{
    let mut mac = hmac::Hmac::<sha2::Sha256>::new_from_slice(key).ok()?;
    mac.update(message);
    Some(mac.finalize().into_bytes().to_vec())
}

/// Lower-case hexadecimal digit of a value below 16.
pub open spec fn hex_digit(v: nat) -> char {
    "0123456789abcdef"@[v as int]
}

/// Two lower-case hexadecimal digits per byte, high half first.
pub open spec fn hex_lower(b: Seq<u8>) -> Seq<char> {
    Seq::new(
        2 * b.len(),
        |i: int|
            if i % 2 == 0 {
                hex_digit((b[i / 2] / 16) as nat)
            } else {
                hex_digit((b[i / 2] % 16) as nat)
            },
    )
}

/// Relies on hex::encode: two lower-case digits for each byte, in order.
#[verifier::external_body]
fn to_hex(b: &[u8]) -> (r: String)
    ensures
        r@ == hex_lower(b@),
{
    hex::encode(b)
}

/// The prefix that names the hash in a signature header.
pub open spec fn signature_prefix() -> Seq<char> {
    "sha256="@
}

/// Whether `header` signs `body` under `secret`.
pub open spec fn signature_valid(secret: Seq<char>, header: Seq<char>, body: Seq<char>) -> bool {
    &&& header.len() >= 7
    &&& header.subrange(0, 7) == signature_prefix()
    &&& header.subrange(7, header.len() as int) == hex_lower(
        hmac_sha256_of(encode_utf8(secret), encode_utf8(body)),
    )
}

/// Checks the signature of inbound events against a shared secret.
#[derive(Debug, Clone)]
pub struct WebhookHandler {
    secret: String,
}

impl WebhookHandler {
    /// The shared secret.
    pub closed spec fn secret(&self) -> Seq<char> {
        self.secret@
    }

    pub fn new(secret: &str) -> (r: WebhookHandler)
        ensures
            r.secret() == secret@,
    {
        WebhookHandler { secret: String::from_str(secret) }
    }

    /// Whether the signature header, if one came, signs `body`.
    pub fn verify_signature(&self, signature: Option<&str>, body: &str) -> (r: bool)
        ensures
            r == (signature matches Some(h) && signature_valid(self.secret(), h@, body@)),
    {
        let header = match signature {
            Some(h) => h,
            None => return false,
        };
        let n = header.unicode_len();
        if n < 7 {
            return false;
        }
        proof { reveal_strlit("sha256="); }
        let prefix = String::from_str(header.substring_char(0, 7));
        if !(prefix == String::from_str("sha256=")) {
            return false;
        }
        let expected = String::from_str(header.substring_char(7, n));
        let digest = match hmac_sha256(self.secret.as_str().as_bytes(), body.as_bytes()) {
            Some(d) => d,
            None => return false,
        };
        let computed = to_hex(digest.as_slice());
        computed == expected
    }
}

} // verus!
