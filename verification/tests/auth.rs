use pubky::auth::{
    sign_assertion, signable_bytes, validate_rejection, AuthError, AuthReason, Intent,
};
use pubky::keys::Keypair;
use pubky::transport::Response;

fn answer(status: u16, body: &[u8]) -> Response {
    Response { status, body: body.to_vec(), credential: None }
}

#[test]
fn signable_bytes_lays_out_the_message() {
    let bytes = signable_bytes(&[1u8; 32], &[2u8; 32], Intent::Signin, 0x0102030405060708);
    let mut expected = b"PUBKY:AUTH".to_vec();
    expected.push(1);
    expected.extend_from_slice(&[8, 7, 6, 5, 4, 3, 2, 1]);
    expected.extend_from_slice(&[1u8; 32]);
    expected.extend_from_slice(&[2u8; 32]);
    assert_eq!(bytes, expected);
    assert_eq!(bytes.len(), 83);
}

#[test]
fn signable_bytes_marks_a_signup_with_zero() {
    let bytes = signable_bytes(&[0u8; 32], &[0u8; 32], Intent::Signup, 0);
    assert_eq!(bytes[10], 0);
    assert_eq!(&bytes[..10], b"PUBKY:AUTH");
}

#[test]
fn assertion_binds_identity_homeserver_intent_and_moment() {
    let keypair = Keypair::from_secret([11u8; 32]);
    let homeserver = Keypair::from_secret([12u8; 32]);
    let assertion = sign_assertion(&keypair, homeserver.public_key(), Intent::Signup, 42);
    assert_eq!(assertion.identity, keypair.public_key().to_bytes());
    assert_eq!(assertion.homeserver, homeserver.public_key().to_bytes());
    assert_eq!(assertion.intent, Intent::Signup);
    assert_eq!(assertion.freshness, 42);
    let message = assertion.signed_bytes();
    assert_eq!(
        message,
        signable_bytes(&assertion.identity, &assertion.homeserver, Intent::Signup, 42)
    );
    assert_eq!(assertion.signature, keypair.sign(&message));
}

#[test]
fn assertion_signature_verifies() {
    let keypair = Keypair::from_secret([13u8; 32]);
    let homeserver = Keypair::from_secret([14u8; 32]);
    let assertion = sign_assertion(&keypair, homeserver.public_key(), Intent::Signin, 7);
    let wire = assertion.to_bytes();
    assert_eq!(wire.len(), 64 + 83);
    assert_eq!(&wire[..64], &assertion.signature[..]);
    assert_eq!(&wire[64..], &assertion.signed_bytes()[..]);
    let verifier = pkarr::PublicKey::try_from(&assertion.identity).unwrap();
    let mut signature = [0u8; 64];
    signature.copy_from_slice(&wire[..64]);
    let parsed = pubky_common::crypto::Signature::from_bytes(&signature);
    assert!(verifier.verify(&wire[64..], &parsed).is_ok());
}

#[test]
fn fresh_values_give_different_assertions() {
    let keypair = Keypair::from_secret([15u8; 32]);
    let homeserver = Keypair::from_secret([16u8; 32]);
    let one = sign_assertion(&keypair, homeserver.public_key(), Intent::Signin, 1);
    let two = sign_assertion(&keypair, homeserver.public_key(), Intent::Signin, 2);
    let again = sign_assertion(&keypair, homeserver.public_key(), Intent::Signin, 1);
    assert_ne!(one.to_bytes(), two.to_bytes());
    assert_ne!(one.signature, two.signature);
    assert_eq!(one, again);
}

#[test]
fn intent_changes_the_assertion() {
    let keypair = Keypair::from_secret([17u8; 32]);
    let homeserver = Keypair::from_secret([18u8; 32]);
    let up = sign_assertion(&keypair, homeserver.public_key(), Intent::Signup, 5);
    let into = sign_assertion(&keypair, homeserver.public_key(), Intent::Signin, 5);
    assert_ne!(up.signed_bytes(), into.signed_bytes());
    assert_ne!(up.signature, into.signature);
}

#[test]
fn rejection_with_invalid_signature() {
    let refusal = validate_rejection(&answer(401, b"Invalid Signature"));
    assert_eq!(refusal, Some(AuthError { reason: AuthReason::BadSignature }));
}

#[test]
fn rejection_speaks_the_words_of_the_verifier() {
    let words = pubky_common::auth::Error::InvalidSignature.to_string();
    let refusal = validate_rejection(&answer(401, words.as_bytes()));
    assert_eq!(refusal, Some(AuthError { reason: AuthReason::BadSignature }));
    let words = pubky_common::auth::Error::Expired.to_string();
    let refusal = validate_rejection(&answer(401, words.as_bytes()));
    assert_eq!(refusal, Some(AuthError { reason: AuthReason::Expired }));
    let words = pubky_common::auth::Error::TooFarInTheFuture.to_string();
    let refusal = validate_rejection(&answer(401, words.as_bytes()));
    assert_eq!(refusal, Some(AuthError { reason: AuthReason::Expired }));
}

#[test]
fn rejection_with_expired_assertion() {
    let body = b"AuthToken has a timestamp that is more than 3 minutes in the past";
    let refusal = validate_rejection(&answer(401, body));
    assert_eq!(refusal, Some(AuthError { reason: AuthReason::Expired }));
    let body = b"AuthToken has a timestamp that is more than 3 minutes in the future";
    let refusal = validate_rejection(&answer(401, body));
    assert_eq!(refusal, Some(AuthError { reason: AuthReason::Expired }));
}

#[test]
fn rejection_that_cannot_be_read() {
    let refusal = validate_rejection(&answer(401, b""));
    assert_eq!(refusal, Some(AuthError { reason: AuthReason::Malformed }));
    let refusal = validate_rejection(&answer(401, b"invalid signature"));
    assert_eq!(refusal, Some(AuthError { reason: AuthReason::Malformed }));
}

#[test]
fn rejection_of_an_unknown_identity() {
    let refusal = validate_rejection(&answer(403, b"Invalid Signature"));
    assert_eq!(refusal, Some(AuthError { reason: AuthReason::UnknownIdentity }));
}

#[test]
fn other_answers_are_no_rejection() {
    assert_eq!(validate_rejection(&answer(200, b"Invalid Signature")), None);
    assert_eq!(validate_rejection(&answer(400, b"")), None);
    assert_eq!(validate_rejection(&answer(400, b"missing field")), None);
    assert_eq!(validate_rejection(&answer(402, b"Invalid Signature")), None);
    assert_eq!(validate_rejection(&answer(404, b"")), None);
    assert_eq!(validate_rejection(&answer(500, b"")), None);
}

#[test]
fn bad_request_in_the_words_of_the_verifier_is_a_rejection() {
    let refused = |body: &[u8]| validate_rejection(&answer(400, body)).map(|refusal| refusal.reason);
    assert_eq!(refused(b"Invalid Signature"), Some(AuthReason::BadSignature));
    assert_eq!(
        refused(b"AuthToken has a timestamp that is more than 3 minutes in the past"),
        Some(AuthReason::Expired)
    );
    assert_eq!(
        refused(b"AuthToken has a timestamp that is more than 3 minutes in the future"),
        Some(AuthReason::Expired)
    );
    assert_eq!(refused(b"AuthToken already used"), Some(AuthReason::Expired));
    assert_eq!(refused(b"Unknown version"), Some(AuthReason::Malformed));
}

#[test]
fn rejection_reads_every_verdict_of_the_verifier() {
    let refused = |error: pubky_common::auth::Error| {
        validate_rejection(&answer(400, error.to_string().as_bytes())).map(|refusal| refusal.reason)
    };
    assert_eq!(refused(pubky_common::auth::Error::InvalidSignature), Some(AuthReason::BadSignature));
    assert_eq!(refused(pubky_common::auth::Error::Expired), Some(AuthReason::Expired));
    assert_eq!(refused(pubky_common::auth::Error::TooFarInTheFuture), Some(AuthReason::Expired));
    assert_eq!(refused(pubky_common::auth::Error::AlreadyUsed), Some(AuthReason::Expired));
    assert_eq!(refused(pubky_common::auth::Error::UnknownVersion), Some(AuthReason::Malformed));
}

#[test]
fn unauthorized_with_other_verdicts() {
    let refused = |body: &[u8]| validate_rejection(&answer(401, body)).map(|refusal| refusal.reason);
    assert_eq!(refused(b"AuthToken already used"), Some(AuthReason::Expired));
    assert_eq!(refused(b"Unknown version"), Some(AuthReason::Malformed));
}
