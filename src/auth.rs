use vstd::prelude::*;

use crate::error::{Error, Result};
use crate::timestamp::Timestamp;
use crate::utils::{base64_of, base64_standard};

verus! {

/// Key material that the keyed digest refused.
#[verifier::external_type_specification]
#[verifier::external_body]
pub struct ExInvalidLength(hmac::digest::InvalidLength);

/// The HMAC-SHA256 tag of the UTF-8 bytes of `message` under the UTF-8
/// bytes of `key`.
pub uninterp spec fn hmac_sha256_of(key: Seq<char>, message: Seq<char>) -> Seq<u8>;

/// Relies on `hmac::Hmac<sha2::Sha256>`: `Mac::new_from_slice` followed by
/// `chain_update` and `finalize`. For HMAC, `new_from_slice` accepts a key of
/// any length, empty included, so it never returns its error.
#[verifier::external_body]
fn hmac_sha256(key: &str, message: &str) -> (r: core::result::Result<Vec<u8>, hmac::digest::InvalidLength>)
    ensures
        r is Ok,
        r matches Ok(tag) ==> tag@ == hmac_sha256_of(key@, message@),
{
    match <hmac::Hmac<sha2::Sha256> as hmac::Mac>::new_from_slice(key.as_bytes()) {
        Ok(mac) => Ok(hmac::Mac::finalize(hmac::Mac::chain_update(mac, message.as_bytes())).into_bytes().to_vec()),
        Err(e) => Err(e),
    }
}

/// The message that a signature covers: the partner id, the timestamp's
/// text and the payload, in that order, with nothing between them.
pub open spec fn signed_message(partner_id: Seq<char>, timestamp: Seq<char>, payload: Seq<char>) -> Seq<char> {
    partner_id + timestamp + payload
}

/// The signature of a request: the base64 text of the HMAC-SHA256 tag of
/// the signed message under the secret key.
pub open spec fn signature_of(
    api_key: Seq<char>,
    partner_id: Seq<char>,
    timestamp: Seq<char>,
    payload: Seq<char>,
) -> Seq<char> {
    base64_of(hmac_sha256_of(api_key, signed_message(partner_id, timestamp, payload)))
}

/// The credentials that requests are signed with.
#[derive(Clone, Debug)]
pub struct Auth {
    api_key: String,
    partner_id: String,
}

impl Auth {
    /// The secret key.
    pub closed spec fn key(&self) -> Seq<char> {
        self.api_key@
    }

    /// The partner id.
    pub closed spec fn partner(&self) -> Seq<char> {
        self.partner_id@
    }

    pub fn new(api_key: &str, partner_id: &str) -> (r: Auth)
        ensures
            r.key() == api_key@,
            r.partner() == partner_id@,
    {
        Auth { api_key: api_key.to_owned(), partner_id: partner_id.to_owned() }
    }

    /// What this key signs a request with, where `timestamp` is the text of
    /// the request's timestamp.
    pub open spec fn spec_signature(&self, timestamp: Seq<char>, payload: Seq<char>) -> Seq<char> {
        signature_of(self.key(), self.partner(), timestamp, payload)
    }

    /// Whether `signature` is what this key signs `payload` with at the
    /// instant whose text is `timestamp`.
    pub open spec fn spec_verify(&self, signature: Seq<char>, timestamp: Seq<char>, payload: Seq<char>) -> bool {
        signature == self.spec_signature(timestamp, payload)
    }

    /// Signs `payload`, the exact body that will be sent, for the instant
    /// `timestamp`.
    pub fn generate_signature(&self, timestamp: &Timestamp, payload: &str) -> (r: Result<String>)
        ensures
            r matches Ok(sig) && sig@ == self.spec_signature(timestamp.spec_text(), payload@),
    {
        let text = timestamp.to_rfc3339();
        self.sign_text(text.as_str(), payload)
    }

    /// Signs `payload` for a timestamp already rendered as `timestamp`.
    pub fn sign_text(&self, timestamp: &str, payload: &str) -> (r: Result<String>)
        ensures
            r matches Ok(sig) && sig@ == self.spec_signature(timestamp@, payload@),
    {
        let mut message = self.partner_id.clone();
        message.append(timestamp);
        message.append(payload);
        assert(message@ == signed_message(self.partner(), timestamp@, payload@));
        match hmac_sha256(self.api_key.as_str(), message.as_str()) {
            Ok(tag) => Ok(base64_standard(tag.as_slice())),
            Err(_) => Err(Error::Auth(String::from_str("the signing key cannot be used"))),
        }
    }

    /// Whether `signature` is what this key signs `payload` with for the
    /// instant `timestamp`.
    pub fn verify_signature(&self, signature: &str, timestamp: &Timestamp, payload: &str) -> (r: Result<bool>)
        ensures
            r matches Ok(b) && b == self.spec_verify(signature@, timestamp.spec_text(), payload@),
    {
        let expected = self.generate_signature(timestamp, payload)?;
        let given = signature.to_owned();
        Ok(given == expected)
    }

    pub fn partner_id(&self) -> (r: &str)
        ensures
            r@ == self.partner(),
    {
        self.partner_id.as_str()
    }
}

/// Signing is deterministic: two signers made from the same key and partner
/// id sign the same timestamp and payload alike.
pub proof fn lemma_sign_deterministic(a: Auth, b: Auth, timestamp: Seq<char>, payload: Seq<char>)
    requires
        a.key() == b.key(),
        a.partner() == b.partner(),
    ensures
        a.spec_signature(timestamp, payload) == b.spec_signature(timestamp, payload),
{
}

/// A signature verifies against the partner id, timestamp and payload that
/// it was made for.
pub proof fn lemma_verify_own_signature(auth: Auth, timestamp: Seq<char>, payload: Seq<char>)
    ensures
        auth.spec_verify(auth.spec_signature(timestamp, payload), timestamp, payload),
{
}

/// Changing exactly one of the partner id, the timestamp text or the payload
/// changes the signed message. (That the keyed digest of distinct messages
/// differs is the digest's collision resistance, which no proof here covers.)
pub proof fn lemma_signed_message_changes(
    p: Seq<char>,
    t: Seq<char>,
    m: Seq<char>,
    p_alt: Seq<char>,
    t_alt: Seq<char>,
    m_alt: Seq<char>,
)
    requires
        (p_alt != p && t_alt == t && m_alt == m)
            || (p_alt == p && t_alt != t && m_alt == m)
            || (p_alt == p && t_alt == t && m_alt != m),
    ensures
        signed_message(p_alt, t_alt, m_alt) != signed_message(p, t, m),
{
    let x = signed_message(p, t, m);
    let y = signed_message(p_alt, t_alt, m_alt);
    if x == y {
        assert(x.len() == y.len());
        if p_alt != p {
            assert(p_alt.len() == p.len());
            assert(x.subrange(0, p.len() as int) =~= p);
            assert(y.subrange(0, p_alt.len() as int) =~= p_alt);
        } else if t_alt != t {
            assert(t_alt.len() == t.len());
            assert(x.subrange(p.len() as int, (p.len() + t.len()) as int) =~= t);
            assert(y.subrange(p.len() as int, (p.len() + t_alt.len()) as int) =~= t_alt);
        } else {
            assert(m_alt.len() == m.len());
            assert(x.subrange((p.len() + t.len()) as int, x.len() as int) =~= m);
            assert(y.subrange((p.len() + t.len()) as int, y.len() as int) =~= m_alt);
        }
    }
}

} // verus!
