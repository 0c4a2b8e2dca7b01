use token_issuer::challenge::{header_answer, header_max_age, HeaderRequest, TokenChallenge};
use token_issuer::keys::TokenType;
use token_issuer::{gen_token_challenge, gen_www_authenticate_header, PrivacyPass};

#[test]
fn challenge_keeps_its_parts() {
    let origins = vec!["a.example".to_string(), "b.example".to_string()];
    let challenge = TokenChallenge::new(
        TokenType::BatchedTokenRistretto255,
        "issuer.example",
        Some([5u8; 32]),
        &origins,
    );
    assert_eq!(challenge.token_type(), TokenType::BatchedTokenRistretto255);
    assert_eq!(challenge.issuer_name(), "issuer.example");
    assert_eq!(challenge.redemption_context(), Some([5u8; 32]));
    assert_eq!(challenge.origin_info(), &origins[..]);
}

#[test]
fn challenge_for_one_origin() {
    let challenge = gen_token_challenge("issuer.example", "origin.example");
    assert_eq!(challenge.issuer_name(), "issuer.example");
    assert_eq!(challenge.origin_info(), &["origin.example".to_string()][..]);
    assert_eq!(challenge.redemption_context(), None);
    assert_eq!(challenge.token_type(), TokenType::BatchedTokenRistretto255);
}

#[test]
fn challenge_of_the_issuer_itself() {
    let challenge = PrivacyPass::gen_token_challenge();
    assert_eq!(challenge.issuer_name(), "privacy-pass-issuer.kagi.com");
    assert_eq!(challenge.origin_info(), &["privacy-pass-origin.kagi.com".to_string()][..]);
    assert_eq!(challenge.redemption_context(), None);
    assert_eq!(challenge, PrivacyPass::gen_token_challenge());
}

#[test]
fn zero_seconds_stand_for_no_limit() {
    assert_eq!(header_max_age(0), None);
    assert_eq!(header_max_age(1), Some(1));
    assert_eq!(header_max_age(u32::MAX), Some(u32::MAX));
}

#[test]
fn header_of_key_text() {
    assert_eq!(
        gen_www_authenticate_header("-_8=", 600),
        Some(HeaderRequest { challenge: None, token_key: vec![0xfb, 0xff], max_age: Some(600) })
    );
    assert_eq!(
        gen_www_authenticate_header("aGk=", 0),
        Some(HeaderRequest { challenge: None, token_key: b"hi".to_vec(), max_age: None })
    );
}

#[test]
fn header_of_key_text_that_does_not_decode() {
    assert_eq!(gen_www_authenticate_header("-_8", 600), None);
    assert_eq!(gen_www_authenticate_header("%%%%", 0), None);
}

#[test]
fn header_of_the_issuer_itself() {
    let request = PrivacyPass::gen_www_authenticate_header(&[1, 2, 3]);
    assert_eq!(request.challenge, Some(PrivacyPass::gen_token_challenge()));
    assert_eq!(request.token_key, vec![1, 2, 3]);
    assert_eq!(request.max_age, None);
}

#[test]
fn header_that_was_built_is_handed_on() {
    let built = ("WWW-Authenticate".to_string(), "PrivateToken challenge=x".to_string());
    assert_eq!(header_answer(Some(built.clone())), Ok(built));
}

#[test]
fn header_that_was_not_built_is_an_invalid_challenge() {
    let built: Option<(String, String)> = None;
    assert_eq!(header_answer(built), Err("invalid token challenge".to_string()));
}
