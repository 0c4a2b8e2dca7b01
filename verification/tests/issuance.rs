use base64::engine::general_purpose::URL_SAFE;
use base64::Engine;
use token_issuer::errors::{ErrorKind, GenTokenResponseError};
use token_issuer::issue::{check_request_count, Issuance, IssuanceAction, IssuanceEvent};
use token_issuer::request::{MyTokenRequest, TokenRequest};
use token_issuer::{gen_token_response, PrivacyPass};

const KEY: [u8; 32] = [3u8; 32];

fn request_bytes(fills: &[u8]) -> Vec<u8> {
    let elements: Vec<[u8; 32]> = fills.iter().map(|fill| [*fill; 32]).collect();
    MyTokenRequest::new(0xF91A, 42, elements).tls_serialize_detached().unwrap()
}

fn request(fills: &[u8]) -> TokenRequest {
    TokenRequest::tls_deserialize(&request_bytes(fills)).unwrap()
}

#[test]
fn count_check_allows_up_to_the_limit() {
    assert_eq!(check_request_count(0, 0), Ok(()));
    assert_eq!(check_request_count(3, 3), Ok(()));
    assert_eq!(check_request_count(2, 3), Ok(()));
    assert_eq!(
        check_request_count(4, 3),
        Err(GenTokenResponseError::RequestedTooManyTokens(4, 3))
    );
    assert_eq!(
        check_request_count(1, 0),
        Err(GenTokenResponseError::RequestedTooManyTokens(1, 0))
    );
}

#[test]
fn rejecting_refuses_a_request_over_the_limit() {
    let mut issuance = PrivacyPass::new().gen_token_response(&KEY, request(&[1, 2, 3, 4, 5]), 3);
    let refused =
        IssuanceAction::Finish(Err(GenTokenResponseError::RequestedTooManyTokens(5, 3)));
    assert_eq!(issuance.action(), refused);
    assert_eq!(issuance.step(IssuanceEvent::KeyLoaded(true)), refused);
    assert_eq!(issuance.step(IssuanceEvent::Evaluated(Some(vec![1]))), refused);
    assert_eq!(
        GenTokenResponseError::RequestedTooManyTokens(5, 3).kind(),
        ErrorKind::PolicyViolation
    );
}

#[test]
fn rejecting_issues_for_a_request_within_the_limit() {
    let mut issuance = PrivacyPass::new().gen_token_response(&KEY, request(&[1, 2, 3]), 3);
    assert_eq!(issuance.action(), IssuanceAction::LoadKey);
    assert_eq!(issuance.secret_key(), &KEY[..]);
    assert_eq!(issuance.step(IssuanceEvent::KeyLoaded(true)), IssuanceAction::BlindEvaluate);
    assert_eq!(issuance.request().unwrap().as_bytes(), &request_bytes(&[1, 2, 3])[..]);
    assert_eq!(
        issuance.step(IssuanceEvent::Evaluated(Some(vec![9, 8, 7]))),
        IssuanceAction::Finish(Ok(vec![9, 8, 7]))
    );
    assert_eq!(issuance.action(), IssuanceAction::Finish(Ok(vec![9, 8, 7])));
}

#[test]
fn truncating_cuts_a_request_over_the_limit() {
    let issuance = Issuance::truncating(&KEY, request(&[1, 2, 3, 4, 5]), 3);
    assert_eq!(issuance.action(), IssuanceAction::LoadKey);
    let asked = issuance.request().unwrap();
    assert_eq!(asked.nr(), 3);
    assert_eq!(asked.as_bytes(), &request_bytes(&[1, 2, 3])[..]);
}

#[test]
fn truncating_with_limit_zero_asks_for_an_empty_evaluation() {
    let mut issuance = Issuance::truncating(&KEY, request(&[1, 2]), 0);
    assert_eq!(issuance.request().unwrap().nr(), 0);
    assert_eq!(issuance.step(IssuanceEvent::KeyLoaded(true)), IssuanceAction::BlindEvaluate);
    assert_eq!(
        issuance.step(IssuanceEvent::Evaluated(Some(vec![]))),
        IssuanceAction::Finish(Ok(vec![]))
    );
}

#[test]
fn key_that_does_not_load_ends_the_issuance() {
    let mut issuance = Issuance::rejecting(&KEY, request(&[1]), 1);
    let failed = IssuanceAction::Finish(Err(GenTokenResponseError::CreateKeypair));
    assert_eq!(issuance.step(IssuanceEvent::KeyLoaded(false)), failed);
    assert_eq!(issuance.step(IssuanceEvent::Evaluated(Some(vec![1]))), failed);
    assert_eq!(GenTokenResponseError::CreateKeypair.kind(), ErrorKind::KeyManagementFailure);
}

#[test]
fn failed_evaluation_ends_the_issuance() {
    let mut issuance = Issuance::rejecting(&KEY, request(&[1]), 1);
    issuance.step(IssuanceEvent::KeyLoaded(true));
    assert_eq!(
        issuance.step(IssuanceEvent::Evaluated(None)),
        IssuanceAction::Finish(Err(GenTokenResponseError::IssueTokenResponse))
    );
    assert_eq!(GenTokenResponseError::IssueTokenResponse.kind(), ErrorKind::InputMalformed);
}

#[test]
fn evaluation_is_not_taken_before_the_key_is_loaded() {
    let mut issuance = Issuance::rejecting(&KEY, request(&[1]), 1);
    assert_eq!(issuance.step(IssuanceEvent::Evaluated(Some(vec![1]))), IssuanceAction::LoadKey);
    assert_eq!(issuance.step(IssuanceEvent::KeyLoaded(true)), IssuanceAction::BlindEvaluate);
    assert_eq!(issuance.step(IssuanceEvent::KeyLoaded(false)), IssuanceAction::BlindEvaluate);
}

#[test]
fn text_form_is_decoded_parsed_and_cut() {
    let key_text = URL_SAFE.encode(KEY);
    let request_text = URL_SAFE.encode(request_bytes(&[1, 2, 3, 4, 5]));
    let issuance = gen_token_response(&key_text, &request_text, 3);
    assert_eq!(issuance.action(), IssuanceAction::LoadKey);
    assert_eq!(issuance.secret_key(), &KEY[..]);
    assert_eq!(issuance.request().unwrap().as_bytes(), &request_bytes(&[1, 2, 3])[..]);
}

#[test]
fn text_form_within_the_limit_is_kept() {
    let key_text = URL_SAFE.encode(KEY);
    let request_text = URL_SAFE.encode(request_bytes(&[1, 2]));
    let issuance = gen_token_response(&key_text, &request_text, 2);
    assert_eq!(issuance.request().unwrap().as_bytes(), &request_bytes(&[1, 2])[..]);
}

#[test]
fn key_text_that_does_not_decode_is_refused() {
    let request_text = URL_SAFE.encode(request_bytes(&[1]));
    let issuance = gen_token_response("***", &request_text, 3);
    assert_eq!(
        issuance.action(),
        IssuanceAction::Finish(Err(GenTokenResponseError::Base64Decode))
    );
    assert!(issuance.request().is_none());
    assert_eq!(GenTokenResponseError::Base64Decode.kind(), ErrorKind::InputMalformed);
}

#[test]
fn request_text_that_does_not_decode_is_refused() {
    let issuance = gen_token_response(&URL_SAFE.encode(KEY), "a", 3);
    assert_eq!(
        issuance.action(),
        IssuanceAction::Finish(Err(GenTokenResponseError::Base64Decode))
    );
}

#[test]
fn request_bytes_that_do_not_parse_are_refused() {
    let mut bytes = request_bytes(&[1, 2]);
    bytes.pop();
    let issuance = gen_token_response(&URL_SAFE.encode(KEY), &URL_SAFE.encode(bytes), 3);
    assert_eq!(
        issuance.action(),
        IssuanceAction::Finish(Err(GenTokenResponseError::TlsDeserialize))
    );
    assert_eq!(GenTokenResponseError::TlsDeserialize.kind(), ErrorKind::InputMalformed);
}
