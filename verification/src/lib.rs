//! Server side of an anonymous rate-limiting token protocol: key lifecycle,
//! challenge construction, request governance, blind issuance and redemption.
//!
//! The library decides; it does not store keys or nonces and does no
//! cryptography of its own beyond deriving a secret key. Each operation that
//! needs the key store, the codec or the cryptographic engine is a value
//! that names the next call it is owed and takes the result of that call:
//! see [`keys::KeyGeneration`], [`issue::Issuance`] and
//! [`redeem::Validation`]. The order of the checks, and what each failure is
//! answered with, are fixed here.

use vstd::prelude::*;

pub mod challenge;
pub mod elements;
pub mod errors;
pub mod issue;
pub mod issue_laws;
pub mod keys;
pub mod redeem;
pub mod redeem_laws;
pub mod request;
pub mod transport;
pub mod wire;

use crate::challenge::{header_max_age, max_age_of, HeaderRequest, TokenChallenge};
use crate::issue::{first_of_text, first_stage_rejecting, Issuance};
use crate::keys::{KeyGeneration, KeyStage, TokenType};
use crate::errors::GenKeysError;
use crate::redeem::{decoded_token, first_stage, first_stage_of_text, Validation};
use crate::request::TokenRequest;
use crate::transport::{decode_url_safe, url_safe_bytes};

verus! {

/// Handle through which the issuer's operations are reached. It holds no
/// state: keys and spent nonces are kept by the caller.
pub struct PrivacyPass {}

impl PrivacyPass {
    /// A handle.
    pub fn new() -> (handle: Self)
        ensures
            handle == (PrivacyPass {}),
    {
        PrivacyPass {}
    }

    /// Starts the validation of a token given as raw bytes, under the given
    /// secret key. A token of the wrong size is refused at once. The token
    /// must be bound to the challenge that it is presented for: once it has
    /// parsed, the validation asks for that challenge's digest, and a token
    /// that holds another digest is refused before redemption.
    pub fn validate_token(&self, token: &[u8], private_key: &[u8]) -> (validation: Validation)
        ensures
            validation@.stage == first_stage(token@),
            validation@.token == token@,
            validation@.secret_key == private_key@,
    {
        Validation::of_bytes(token, private_key)
    }

    /// Starts the generation of a key pair from a fresh random seed.
    pub fn gen_keys(&self) -> (generation: KeyGeneration)
        ensures
            generation@.seed.len() == 32,
            generation@.stage == KeyStage::CreatingKeypair || generation@.stage == (
            KeyStage::Finished { answer: Err(GenKeysError::SeedUnavailable) }),
    {
        KeyGeneration::start()
    }

    /// What the header that carries this issuer's challenge is built of, for
    /// the given public key: the challenge of [`Self::gen_token_challenge`],
    /// the key, and no limit on the challenge's age.
    pub fn gen_www_authenticate_header(token_key: &[u8]) -> (request: HeaderRequest)
        ensures
            request.challenge matches Some(challenge) && is_own_challenge(challenge),
            request.token_key@ == token_key@,
            request.max_age is None,
    {
        HeaderRequest {
            challenge: Some(Self::gen_token_challenge()),
            token_key: vstd::slice::slice_to_vec(token_key),
            max_age: None,
        }
    }

    /// The challenge of this issuer for its one origin, with no redemption
    /// context.
    pub fn gen_token_challenge() -> (challenge: TokenChallenge)
        ensures
            is_own_challenge(challenge),
    {
        let origins: Vec<String> = vec!["privacy-pass-origin.kagi.com".to_owned()];
        let challenge = TokenChallenge::new(
            TokenType::BatchedTokenRistretto255,
            "privacy-pass-issuer.kagi.com",
            None,
            origins.as_slice(),
        );
        assert(challenge@.origin_info =~= seq!["privacy-pass-origin.kagi.com"@]);
        challenge
    }

    /// Starts the issuance of a token response under the policy that refuses
    /// a request over the limit.
    pub fn gen_token_response(
        &self,
        private_key: &[u8],
        token_request: TokenRequest,
        max_requests: usize,
    ) -> (issuance: Issuance)
        ensures
            issuance@.stage == first_stage_rejecting(
                token_request@.blinded_elements.len(),
                max_requests as nat,
            ),
            issuance@.request == Some(token_request@),
            issuance@.secret_key == private_key@,
    {
        Issuance::rejecting(private_key, token_request, max_requests)
    }
}

impl Default for PrivacyPass {
    fn default() -> (handle: Self)
        ensures
            handle == (PrivacyPass {}),
    {
        Self::new()
    }
}

/// The challenge is the one that this issuer puts for its one origin.
pub open spec fn is_own_challenge(challenge: TokenChallenge) -> bool {
    &&& challenge@.token_type == TokenType::BatchedTokenRistretto255
    &&& challenge@.issuer_name == "privacy-pass-issuer.kagi.com"@
    &&& challenge@.redemption_context is None
    &&& challenge@.origin_info == seq!["privacy-pass-origin.kagi.com"@]
}

/// Starts the generation of a key pair from a fresh random seed. The key
/// pair that comes of it goes into its text form with
/// [`keys::encode_keypair`].
pub fn gen_keys() -> (generation: KeyGeneration)
    ensures
        generation@.seed.len() == 32,
        generation@.stage == KeyStage::CreatingKeypair || generation@.stage == (
        KeyStage::Finished { answer: Err(GenKeysError::SeedUnavailable) }),
{
    KeyGeneration::start()
}

/// The challenge of the named issuer for the one named origin, with no
/// redemption context.
pub fn gen_token_challenge(issuer_name: &str, origin_info: &str) -> (challenge: TokenChallenge)
    ensures
        challenge@.token_type == TokenType::BatchedTokenRistretto255,
        challenge@.issuer_name == issuer_name@,
        challenge@.redemption_context is None,
        challenge@.origin_info == seq![origin_info@],
{
    let origins: Vec<String> = vec![origin_info.to_owned()];
    let challenge = TokenChallenge::new(
        TokenType::BatchedTokenRistretto255,
        issuer_name,
        None,
        origins.as_slice(),
    );
    assert(challenge@.origin_info =~= seq![origin_info@]);
    challenge
}

/// What a header is built of, for a public key that comes as text and a
/// limit on the challenge's age in seconds, where zero stands for no limit.
/// There is nothing to build where the text of the key does not decode.
pub fn gen_www_authenticate_header(token_key_text: &str, max_age_seconds: u32) -> (request: Option<
    HeaderRequest,
>)
    ensures
        match request {
            Some(request) => {
                &&& url_safe_bytes(token_key_text@) == Some(request.token_key@)
                &&& request.max_age == max_age_of(max_age_seconds)
                &&& request.challenge is None
            },
            None => url_safe_bytes(token_key_text@) is None,
        },
{
    match decode_url_safe(token_key_text) {
        Ok(token_key) => Some(
            HeaderRequest { challenge: None, token_key, max_age: header_max_age(max_age_seconds) },
        ),
        Err(_) => None,
    }
}

/// Starts the issuance of a token response from a secret key and a request
/// in their text form, under the policy that cuts a request over the limit
/// down to it.
pub fn gen_token_response(secret_key_text: &str, request_text: &str, max_nr: u16) -> (issuance:
    Issuance)
    ensures
        issuance@ == first_of_text(secret_key_text@, request_text@, max_nr),
{
    Issuance::of_text(secret_key_text, request_text, max_nr)
}

/// Starts the validation of a token in its text form, under the given secret
/// key. The token must be bound to a challenge, whose digest the validation
/// asks for. A text that does not decode, decodes to the wrong size, or is
/// not the canonical text of its bytes is refused at once.
pub fn validate_token(private_key: &[u8], token_text: &str) -> (validation: Validation)
    ensures
        validation@.stage == first_stage_of_text(token_text@),
        validation@.token == decoded_token(token_text@),
        validation@.secret_key == private_key@,
{
    Validation::of_text(token_text, private_key)
}

} // verus!
