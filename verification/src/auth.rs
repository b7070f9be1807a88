//! Proof of identity: the signed assertion that a client sends to sign up or
//! sign in, and the reading of a homeserver's refusal.

use crate::bytes::{append_bytes, equal_bytes};
use crate::keys::{ed25519_signature, Keypair, PublicKey};
use crate::transport::Response;
use vstd::bytes::{spec_u64_from_le_bytes, spec_u64_to_le_bytes, u64_to_le_bytes};
use vstd::prelude::*;
use vstd::utf8::encode_utf8;

verus! {

/// What an assertion asks the homeserver for.
#[derive(Clone, Copy, Debug, PartialEq, Eq, Structural)]
pub enum Intent {
    Signup,
    Signin,
}

/// The byte that stands for an intent in the signed message.
pub open spec fn intent_code(intent: Intent) -> u8 {
    match intent {
        Intent::Signup => 0,
        Intent::Signin => 1,
    }
}

/// The ten bytes `PUBKY:AUTH`, which open every signed message so that a
/// signature made for this protocol fits no other.
pub open spec fn namespace() -> Seq<u8> {
    seq![80u8, 85u8, 66u8, 75u8, 89u8, 58u8, 65u8, 85u8, 84u8, 72u8]
}

/// The message that an assertion signs: the namespace, the intent, the
/// freshness in eight little-endian bytes, the identity and the homeserver.
pub open spec fn signable(
    identity: Seq<u8>,
    homeserver: Seq<u8>,
    intent: Intent,
    freshness: u64,
) -> Seq<u8> {
    namespace() + seq![intent_code(intent)] + spec_u64_to_le_bytes(freshness) + identity
        + homeserver
}

/// A one-time signed statement that binds an identity to a homeserver, an
/// intent and a moment.
#[derive(Clone, Copy, Debug, PartialEq, Eq)]
pub struct AuthAssertion {
    pub identity: [u8; 32],
    pub homeserver: [u8; 32],
    pub intent: Intent,
    pub freshness: u64,
    pub signature: [u8; 64],
}

impl AuthAssertion {
    /// The message that this assertion signs.
    pub open spec fn message(&self) -> Seq<u8> {
        signable(self.identity@, self.homeserver@, self.intent, self.freshness)
    }

    /// The assertion as it is sent: the signature, then the signed message.
    pub open spec fn wire(&self) -> Seq<u8> {
        self.signature@ + self.message()
    }

    /// The signed message as bytes.
    pub fn signed_bytes(&self) -> (out: Vec<u8>)
        ensures
            out@ == self.message(),
    {
        signable_bytes(&self.identity, &self.homeserver, self.intent, self.freshness)
    }

    /// The assertion as bytes to send.
    pub fn to_bytes(&self) -> (out: Vec<u8>)
        ensures
            out@ == self.wire(),
    {
        let mut out: Vec<u8> = Vec::new();
        append_bytes(&mut out, &self.signature);
        let message = self.signed_bytes();
        append_bytes(&mut out, message.as_slice());
        assert(out@ =~= self.wire());
        out
    }
}

/// The message to sign, as bytes.
pub fn signable_bytes(
    identity: &[u8; 32],
    homeserver: &[u8; 32],
    intent: Intent,
    freshness: u64,
) -> (out: Vec<u8>)
    ensures
        out@ == signable(identity@, homeserver@, intent, freshness),
{
    let mut out: Vec<u8> = Vec::new();
    out.push(80);
    out.push(85);
    out.push(66);
    out.push(75);
    out.push(89);
    out.push(58);
    out.push(65);
    out.push(85);
    out.push(84);
    out.push(72);
    assert(out@ =~= namespace());
    let code: u8 = match intent {
        Intent::Signup => 0,
        Intent::Signin => 1,
    };
    out.push(code);
    let moment = u64_to_le_bytes(freshness);
    append_bytes(&mut out, moment.as_slice());
    append_bytes(&mut out, identity);
    append_bytes(&mut out, homeserver);
    assert(out@ =~= signable(identity@, homeserver@, intent, freshness));
    out
}

/// Signs an assertion for `keypair`'s identity towards a homeserver.  The
/// freshness is the caller's: a value that it uses once.  Everything else is
/// determined by the arguments.
pub fn sign_assertion(
    keypair: &Keypair,
    homeserver: &PublicKey,
    intent: Intent,
    freshness: u64,
) -> (assertion: AuthAssertion)
    ensures
        assertion.identity@ == keypair.public_spec()@,
        assertion.homeserver@ == homeserver@,
        assertion.intent == intent,
        assertion.freshness == freshness,
        assertion.signature@ == ed25519_signature(
            keypair.secret_spec(),
            signable(keypair.public_spec()@, homeserver@, intent, freshness),
        ),
{
    let identity = keypair.public_key().to_bytes();
    let target = homeserver.to_bytes();
    let message = signable_bytes(&identity, &target, intent, freshness);
    let signature = keypair.sign(message.as_slice());
    AuthAssertion { identity, homeserver: target, intent, freshness, signature }
}

/// The signed message tells its parts apart: two messages over 32-byte keys
/// are equal only if identity, homeserver, intent and freshness all agree.
/// So an assertion made with a fresh value differs from every earlier one.
pub proof fn lemma_signable_binds(
    identity1: Seq<u8>,
    homeserver1: Seq<u8>,
    intent1: Intent,
    freshness1: u64,
    identity2: Seq<u8>,
    homeserver2: Seq<u8>,
    intent2: Intent,
    freshness2: u64,
)
    requires
        identity1.len() == 32,
        identity2.len() == 32,
        homeserver1.len() == 32,
        homeserver2.len() == 32,
        signable(identity1, homeserver1, intent1, freshness1) == signable(
            identity2,
            homeserver2,
            intent2,
            freshness2,
        ),
    ensures
        identity1 == identity2,
        homeserver1 == homeserver2,
        intent1 == intent2,
        freshness1 == freshness2,
{
    vstd::bytes::lemma_auto_spec_u64_to_from_le_bytes();
    let m1 = signable(identity1, homeserver1, intent1, freshness1);
    let m2 = signable(identity2, homeserver2, intent2, freshness2);
    let t1 = spec_u64_to_le_bytes(freshness1);
    let t2 = spec_u64_to_le_bytes(freshness2);
    assert(t1.len() == 8 && t2.len() == 8);
    assert(m1[10] == intent_code(intent1));
    assert(m2[10] == intent_code(intent2));
    assert(m1.subrange(11, 19) =~= t1);
    assert(m2.subrange(11, 19) =~= t2);
    assert(spec_u64_from_le_bytes(t1) == freshness1);
    assert(spec_u64_from_le_bytes(t2) == freshness2);
    assert(m1.subrange(19, 51) =~= identity1);
    assert(m2.subrange(19, 51) =~= identity2);
    assert(m1.subrange(51, 83) =~= homeserver1);
    assert(m2.subrange(51, 83) =~= homeserver2);
}

/// Why a homeserver refused a proof of identity or a credential.
#[derive(Clone, Copy, Debug, PartialEq, Eq, Structural)]
pub enum AuthReason {
    /// The signature does not fit the assertion.
    BadSignature,
    /// The assertion is not fresh: its moment is too far from the
    /// homeserver's clock, or it was used before.
    Expired,
    /// The homeserver does not know the identity.
    UnknownIdentity,
    /// The homeserver could not read the assertion or the credential.
    Malformed,
}

/// A refusal, as the caller gets it.
#[derive(Clone, Copy, Debug, PartialEq, Eq, Structural)]
pub struct AuthError {
    pub reason: AuthReason,
}

/// What the homeserver's verifier can find wrong with an assertion.
#[derive(Clone, Copy, Debug, PartialEq, Eq, Structural)]
pub enum Verdict {
    InvalidSignature,
    Expired,
    TooFarInTheFuture,
    AlreadyUsed,
    UnknownVersion,
}

/// The words in which the homeserver's verifier reports a verdict.
pub open spec fn verdict_text(verdict: Verdict) -> Seq<char> {
    match verdict {
        Verdict::InvalidSignature => "Invalid Signature"@,
        Verdict::Expired => "AuthToken has a timestamp that is more than 3 minutes in the past"@,
        Verdict::TooFarInTheFuture =>
            "AuthToken has a timestamp that is more than 3 minutes in the future"@,
        Verdict::AlreadyUsed => "AuthToken already used"@,
        Verdict::UnknownVersion => "Unknown version"@,
    }
}

/// Calls `to_string` on a variant of `pubky_common::auth::Error`, the error
/// that the homeserver's verifier returns and that the homeserver sends as
/// the body of its refusal.  Claimed: the text is the message that the crate
/// declares for that variant.
#[verifier::external_body]
fn verdict_words(verdict: Verdict) -> (text: String)
    ensures
        text@ == verdict_text(verdict),
{
    match verdict {
        Verdict::InvalidSignature => pubky_common::auth::Error::InvalidSignature.to_string(),
        Verdict::Expired => pubky_common::auth::Error::Expired.to_string(),
        Verdict::TooFarInTheFuture => pubky_common::auth::Error::TooFarInTheFuture.to_string(),
        Verdict::AlreadyUsed => pubky_common::auth::Error::AlreadyUsed.to_string(),
        Verdict::UnknownVersion => pubky_common::auth::Error::UnknownVersion.to_string(),
    }
}

/// Whether a body is the report of a verdict.
pub open spec fn reports(body: Seq<u8>, verdict: Verdict) -> bool {
    body == encode_utf8(verdict_text(verdict))
}

/// The reason that a body gives in the verifier's words, if it gives one:
/// a bad signature; an assertion that is not fresh, because its moment is
/// outside the window or because it was used before; or a version that the
/// verifier cannot read.
pub open spec fn reason_in_words(body: Seq<u8>) -> Option<AuthReason> {
    if reports(body, Verdict::InvalidSignature) {
        Some(AuthReason::BadSignature)
    } else if reports(body, Verdict::Expired) || reports(body, Verdict::TooFarInTheFuture)
        || reports(body, Verdict::AlreadyUsed) {
        Some(AuthReason::Expired)
    } else if reports(body, Verdict::UnknownVersion) {
        Some(AuthReason::Malformed)
    } else {
        None
    }
}

/// How a response refuses authentication, if it does.  Status 403 says that
/// the homeserver does not know the identity.  Status 401 refuses the proof
/// or the credential, and the body tells why; a body that tells nothing
/// stands for something the homeserver could not read.  Status 400 is a
/// refusal where the body is a verdict in the verifier's words, which is how
/// a homeserver answers an assertion that does not verify; any other 400 is
/// none.  No other status is a refusal.
pub open spec fn rejection(status: u16, body: Seq<u8>) -> Option<AuthReason> {
    if status == 403 {
        Some(AuthReason::UnknownIdentity)
    } else if status == 401 {
        match reason_in_words(body) {
            Some(reason) => Some(reason),
            None => Some(AuthReason::Malformed),
        }
    } else if status == 400 {
        reason_in_words(body)
    } else {
        None
    }
}

/// Whether the body of a response is the report of a verdict.
fn body_reports(body: &Vec<u8>, verdict: Verdict) -> (yes: bool)
    ensures
        yes == reports(body@, verdict),
{
    let text = verdict_words(verdict);
    equal_bytes(body.as_slice(), text.as_str().as_bytes())
}

/// The reason that a body gives in the verifier's words, if it gives one.
fn body_reason(body: &Vec<u8>) -> (reason: Option<AuthReason>)
    ensures
        reason == reason_in_words(body@),
{
    if body_reports(body, Verdict::InvalidSignature) {
        Some(AuthReason::BadSignature)
    } else if body_reports(body, Verdict::Expired) || body_reports(body, Verdict::TooFarInTheFuture)
        || body_reports(body, Verdict::AlreadyUsed) {
        Some(AuthReason::Expired)
    } else if body_reports(body, Verdict::UnknownVersion) {
        Some(AuthReason::Malformed)
    } else {
        None
    }
}

/// Reads a homeserver's answer as a refusal of authentication.  A refusal
/// is an expected outcome: it comes back as a value, and an answer that is
/// no refusal gives `None`.
pub fn validate_rejection(response: &Response) -> (refusal: Option<AuthError>)
    ensures
        refusal is Some <==> rejection(response.status, response.body@) is Some,
        refusal is Some ==> Some(refusal->Some_0.reason) == rejection(
            response.status,
            response.body@,
        ),
{
    if response.status == 403 {
        Some(AuthError { reason: AuthReason::UnknownIdentity })
    } else if response.status == 401 {
        match body_reason(&response.body) {
            Some(reason) => Some(AuthError { reason }),
            None => Some(AuthError { reason: AuthReason::Malformed }),
        }
    } else if response.status == 400 {
        match body_reason(&response.body) {
            Some(reason) => Some(AuthError { reason }),
            None => None,
        }
    } else {
        None
    }
}

} // verus!
