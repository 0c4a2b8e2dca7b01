use base64::engine::general_purpose::URL_SAFE;
use base64::Engine;
use rand::rngs::OsRng;
use std::collections::HashSet;
use token_issuer::errors::ValidateTokenError;
use token_issuer::issue::{Issuance, IssuanceAction, IssuanceEvent};
use token_issuer::keys::{KeyAction, KeyEvent, KeyGeneration, RustKeypair};
use token_issuer::redeem::{RedeemOutcome, Validation, ValidationAction, ValidationEvent};
use token_issuer::request::MyTokenRequest;
use token_issuer::{validate_token, PrivacyPass};
use voprf::{
    BlindedElement, EvaluationElement, Group, Proof, Ristretto255, VoprfClient, VoprfServer,
};

const CHALLENGE_DIGEST: [u8; 32] = [0x42; 32];
const KEY_ID: [u8; 32] = [0x07; 32];

/// Stands in for the key store, the nonce store, the codec and the engine.
struct Stand {
    key: Option<VoprfServer<Ristretto255>>,
    nonces: HashSet<[u8; 32]>,
    elements_evaluated: usize,
    redemptions_asked: usize,
    challenge_digest: [u8; 32],
}

impl Stand {
    fn new() -> Self {
        Stand {
            key: None,
            nonces: HashSet::new(),
            elements_evaluated: 0,
            redemptions_asked: 0,
            challenge_digest: CHALLENGE_DIGEST,
        }
    }

    fn load_key(&mut self, secret_key: &[u8]) -> bool {
        self.key = VoprfServer::<Ristretto255>::new_with_key(secret_key).ok();
        self.key.is_some()
    }

    fn evaluate(&mut self, request: &[u8]) -> Option<Vec<u8>> {
        let server = self.key.as_ref()?;
        let elements = MyTokenRequest::tls_deserialize(request).ok()?.blinded_elements();
        let mut response = Vec::new();
        for element in elements {
            let blinded = BlindedElement::<Ristretto255>::deserialize(&element).ok()?;
            let evaluated = server.blind_evaluate(&mut OsRng, &blinded);
            response.extend_from_slice(&evaluated.message.serialize());
            response.extend_from_slice(&evaluated.proof.serialize());
            self.elements_evaluated += 1;
        }
        Some(response)
    }

    fn redeem(&mut self, token: &[u8]) -> RedeemOutcome {
        self.redemptions_asked += 1;
        let nonce: [u8; 32] = token[2..34].try_into().unwrap();
        if self.nonces.contains(&nonce) {
            return RedeemOutcome::DoubleSpending;
        }
        if token[66..98] != KEY_ID {
            return RedeemOutcome::KeyIdNotFound;
        }
        let Some(server) = self.key.as_ref() else {
            return RedeemOutcome::KeyIdNotFound;
        };
        match server.evaluate(&token[..98]) {
            Ok(authenticator) if authenticator[..] == token[98..] => {
                self.nonces.insert(nonce);
                RedeemOutcome::Redeemed
            }
            _ => RedeemOutcome::InvalidToken,
        }
    }
}

fn generate_keys(seed: [u8; 32]) -> RustKeypair {
    let mut generation = KeyGeneration::from_seed(seed);
    let server =
        VoprfServer::<Ristretto255>::new_from_seed(&generation.seed(), &generation.info()).unwrap();
    let public_key = Ristretto255::serialize_elem(server.get_public_key()).to_vec();
    match generation.step(KeyEvent::KeypairCreated(Some(public_key))) {
        KeyAction::Finish(Ok(keypair)) => keypair,
        other => panic!("no key pair: {:?}", other),
    }
}

fn token_input(nonce: [u8; 32]) -> Vec<u8> {
    let mut input = vec![0xF9, 0x1A];
    input.extend_from_slice(&nonce);
    input.extend_from_slice(&CHALLENGE_DIGEST);
    input.extend_from_slice(&KEY_ID);
    input
}

fn issue(engine: &mut Stand, mut issuance: Issuance) -> Vec<u8> {
    let mut action = issuance.action();
    loop {
        action = match action {
            IssuanceAction::LoadKey => {
                let loaded = engine.load_key(issuance.secret_key());
                issuance.step(IssuanceEvent::KeyLoaded(loaded))
            }
            IssuanceAction::BlindEvaluate => {
                let response = engine.evaluate(issuance.request().unwrap().as_bytes());
                issuance.step(IssuanceEvent::Evaluated(response))
            }
            IssuanceAction::Finish(answer) => return answer.unwrap(),
        };
    }
}

fn validate(engine: &mut Stand, mut validation: Validation) -> Result<bool, ValidateTokenError> {
    let mut action = validation.action();
    loop {
        action = match action {
            ValidationAction::LoadKey => {
                let loaded = engine.load_key(validation.secret_key());
                validation.step(ValidationEvent::KeyLoaded(loaded))
            }
            ValidationAction::DecodeToken => {
                let digest: [u8; 32] = validation.token()[34..66].try_into().unwrap();
                validation.step(ValidationEvent::TokenDecoded(Some(digest)))
            }
            ValidationAction::DigestChallenge => {
                validation.step(ValidationEvent::ChallengeDigested(Some(engine.challenge_digest)))
            }
            ValidationAction::Redeem => {
                let outcome = engine.redeem(validation.token());
                validation.step(ValidationEvent::Redeemed(outcome))
            }
            ValidationAction::Finish(answer) => return answer,
        };
    }
}

/// Issues tokens for the given nonces under a limit, and returns the text of
/// each token that a response came for.
fn issue_tokens(
    engine: &mut Stand,
    keypair: &RustKeypair,
    nonces: &[[u8; 32]],
    limit: usize,
) -> Vec<String> {
    let mut clients = Vec::new();
    let mut elements = Vec::new();
    for nonce in nonces {
        let blinded = VoprfClient::<Ristretto255>::blind(&token_input(*nonce), &mut OsRng).unwrap();
        let element: [u8; 32] = blinded.message.serialize()[..].try_into().unwrap();
        elements.push(element);
        clients.push(blinded.state);
    }
    let request = MyTokenRequest::new(0xF91A, KEY_ID[31], elements).to_token_request().unwrap();
    let response = issue(engine, Issuance::truncating(&keypair.secret_key, request, limit));
    assert_eq!(response.len() % 96, 0);
    let public_key = Ristretto255::deserialize_elem(&keypair.public_key).unwrap();
    let mut tokens = Vec::new();
    for (k, part) in response.chunks(96).enumerate() {
        let evaluated = EvaluationElement::<Ristretto255>::deserialize(&part[..32]).unwrap();
        let proof = Proof::<Ristretto255>::deserialize(&part[32..]).unwrap();
        let input = token_input(nonces[k]);
        let authenticator = clients[k].finalize(&input, &evaluated, &proof, public_key).unwrap();
        let mut token = input;
        token.extend_from_slice(&authenticator);
        assert_eq!(token.len(), 162);
        tokens.push(URL_SAFE.encode(token));
    }
    tokens
}

#[test]
fn issued_token_validates_against_a_fresh_nonce_store() {
    let keypair = generate_keys([0x5a; 32]);
    let mut issuer = Stand::new();
    let tokens = issue_tokens(&mut issuer, &keypair, &[[1u8; 32]], 10);
    assert_eq!(tokens.len(), 1);
    let mut redeemer = Stand::new();
    let answer = validate(&mut redeemer, validate_token(&keypair.secret_key, &tokens[0]));
    assert_eq!(answer, Ok(true));
}

#[test]
fn second_validation_against_the_same_nonce_store_is_double_spending() {
    let keypair = generate_keys([0x5b; 32]);
    let mut engine = Stand::new();
    let tokens = issue_tokens(&mut engine, &keypair, &[[2u8; 32]], 10);
    let first = validate(&mut engine, validate_token(&keypair.secret_key, &tokens[0]));
    let second = validate(&mut engine, validate_token(&keypair.secret_key, &tokens[0]));
    assert_eq!(first, Ok(true));
    assert_eq!(second, Err(ValidateTokenError::DoubleSpending));
    let mut fresh = Stand::new();
    let third = validate(&mut fresh, validate_token(&keypair.secret_key, &tokens[0]));
    assert_eq!(third, Ok(true));
}

#[test]
fn tampered_token_is_answered_with_false() {
    let keypair = generate_keys([0x5c; 32]);
    let mut engine = Stand::new();
    let tokens = issue_tokens(&mut engine, &keypair, &[[3u8; 32]], 10);
    let mut bytes = URL_SAFE.decode(&tokens[0]).unwrap();
    bytes[161] ^= 1;
    let answer =
        validate(&mut engine, validate_token(&keypair.secret_key, &URL_SAFE.encode(&bytes)));
    assert_eq!(answer, Ok(false));
    let untouched = validate(&mut engine, validate_token(&keypair.secret_key, &tokens[0]));
    assert_eq!(untouched, Ok(true));
}

#[test]
fn token_under_another_key_is_answered_with_false() {
    let keypair = generate_keys([0x5d; 32]);
    let other = generate_keys([0x5e; 32]);
    let mut engine = Stand::new();
    let tokens = issue_tokens(&mut engine, &keypair, &[[4u8; 32]], 10);
    let answer = validate(&mut engine, validate_token(&other.secret_key, &tokens[0]));
    assert_eq!(answer, Ok(false));
}

#[test]
fn elements_over_the_limit_never_reach_the_engine() {
    let keypair = generate_keys([0x5f; 32]);
    let mut engine = Stand::new();
    let nonces: Vec<[u8; 32]> = (10..15u8).map(|fill| [fill; 32]).collect();
    let tokens = issue_tokens(&mut engine, &keypair, &nonces, 3);
    assert_eq!(engine.elements_evaluated, 3);
    assert_eq!(tokens.len(), 3);
    for token in &tokens {
        assert_eq!(validate(&mut engine, validate_token(&keypair.secret_key, token)), Ok(true));
    }
}

#[test]
fn token_bound_to_another_challenge_is_never_redeemed() {
    let keypair = generate_keys([0x60; 32]);
    let mut engine = Stand::new();
    let tokens = issue_tokens(&mut engine, &keypair, &[[6u8; 32]], 10);
    let mut validation = validate_token(&keypair.secret_key, &tokens[0]);
    validation.step(ValidationEvent::KeyLoaded(true));
    validation.step(ValidationEvent::TokenDecoded(Some(CHALLENGE_DIGEST)));
    let action = validation.step(ValidationEvent::ChallengeDigested(Some([0x43; 32])));
    assert_eq!(action, ValidationAction::Finish(Err(ValidateTokenError::ChallengeDigest)));
    assert!(engine.nonces.is_empty());
}

#[test]
fn raw_token_that_verifies_is_valid_for_its_challenge() {
    let keypair = generate_keys([0x61; 32]);
    let mut engine = Stand::new();
    let tokens = issue_tokens(&mut engine, &keypair, &[[7u8; 32]], 10);
    let bytes = URL_SAFE.decode(&tokens[0]).unwrap();
    let validation = PrivacyPass::new().validate_token(&bytes, &keypair.secret_key);
    assert_eq!(validate(&mut engine, validation), Ok(true));
    assert_eq!(engine.redemptions_asked, 1);
}

#[test]
fn raw_token_that_verifies_is_refused_for_another_challenge() {
    let keypair = generate_keys([0x62; 32]);
    let mut engine = Stand::new();
    let tokens = issue_tokens(&mut engine, &keypair, &[[8u8; 32]], 10);
    let bytes = URL_SAFE.decode(&tokens[0]).unwrap();
    engine.challenge_digest = [0x43; 32];
    let validation = PrivacyPass::new().validate_token(&bytes, &keypair.secret_key);
    assert_eq!(validate(&mut engine, validation), Err(ValidateTokenError::ChallengeDigest));
    assert_eq!(engine.redemptions_asked, 0);
    assert!(engine.nonces.is_empty());
    engine.challenge_digest = CHALLENGE_DIGEST;
    let again = PrivacyPass::new().validate_token(&bytes, &keypair.secret_key);
    assert_eq!(validate(&mut engine, again), Ok(true));
}
