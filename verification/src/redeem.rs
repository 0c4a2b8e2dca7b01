//! Redemption: the checks that a presented token passes, one after the
//! other, before it counts as valid.
//!
//! The checks that need the key store, the codec or the cryptographic engine
//! are not made here. A [`Validation`] says which of them is owed next, the
//! caller has it made and reports what came of it, and the validation decides
//! how to go on. A failed check ends the validation at once.

use crate::errors::ValidateTokenError;
use crate::transport::{
    decode_url_safe, encode_url_safe, same_bytes, same_text, url_safe_bytes, url_safe_text,
};
use vstd::prelude::*;
use vstd::slice::slice_to_vec;

verus! {

/// The size of a token in bytes: a two-byte type, a nonce, a challenge
/// digest and a key identifier of 32 bytes each, and an authenticator of 64.
pub const TOKEN_SIZE: usize = 162;

/// What the engine made of a token that it was asked to redeem.
#[derive(Clone, Copy, Debug, PartialEq, Eq)]
pub enum RedeemOutcome {
    /// The token verifies and was not seen before.
    Redeemed,
    /// The token does not verify.
    InvalidToken,
    /// The token's nonce was recorded by an earlier redemption.
    DoubleSpending,
    /// The token names a key that the key store does not hold.
    KeyIdNotFound,
    /// A failure that the engine has no other name for.
    Other,
}

/// What a report to a [`Validation`] says.
#[derive(Clone, Copy, Debug, PartialEq, Eq)]
pub enum ValidationEvent {
    /// The secret key was loaded into the key store, or could not be.
    KeyLoaded(bool),
    /// The token's bytes were parsed; with the challenge digest found inside
    /// the token, or with nothing where they do not parse.
    TokenDecoded(Option<[u8; 32]>),
    /// The digest of the challenge was taken; with nothing where the
    /// challenge has no byte form.
    ChallengeDigested(Option<[u8; 32]>),
    /// The engine was asked to redeem the token.
    Redeemed(RedeemOutcome),
}

/// What a [`Validation`] asks its caller to do next.
#[derive(Clone, Copy, Debug, PartialEq, Eq)]
pub enum ValidationAction {
    /// Load the secret key into the key store.
    LoadKey,
    /// Parse the token's bytes.
    DecodeToken,
    /// Take the digest of the challenge.
    DigestChallenge,
    /// Ask the engine to redeem the token.
    Redeem,
    /// Nothing: the validation has ended with this answer.
    Finish(Result<bool, ValidateTokenError>),
}

/// How far a validation has come.
#[derive(Clone, Copy, Debug, PartialEq, Eq)]
pub enum ValidationStage {
    /// Size and encoding are in order; the key is to be loaded.
    LoadingKey,
    /// The key is loaded; the token is to be parsed.
    Decoding,
    /// The token parsed and holds this digest; the challenge's is awaited.
    Digesting { token_digest: [u8; 32] },
    /// All checks before redemption passed; the engine is to redeem.
    Redeeming,
    /// The validation has ended with this answer.
    Finished { answer: Result<bool, ValidateTokenError> },
}

/// The stage that a token of raw bytes starts in: it must have the size of a
/// token.
pub open spec fn first_stage(token: Seq<u8>) -> ValidationStage {
    if token.len() == TOKEN_SIZE {
        ValidationStage::LoadingKey
    } else {
        ValidationStage::Finished {
            answer: Err(ValidateTokenError::WrongTokenSize(token.len() as usize)),
        }
    }
}

/// The stage that a token in its text form starts in: the text must decode,
/// the bytes must have the size of a token, and the text must be the one
/// that those bytes encode to.
pub open spec fn first_stage_of_text(text: Seq<char>) -> ValidationStage {
    match url_safe_bytes(text) {
        None => ValidationStage::Finished { answer: Err(ValidateTokenError::Base64Decode) },
        Some(token) => if token.len() != TOKEN_SIZE {
            first_stage(token)
        } else if url_safe_text(token) != text {
            ValidationStage::Finished { answer: Err(ValidateTokenError::NonCanonicalEncoding) }
        } else {
            ValidationStage::LoadingKey
        },
    }
}

/// The bytes of a token that came as text: what the text decodes to, and
/// none where it does not decode.
pub open spec fn decoded_token(text: Seq<char>) -> Seq<u8> {
    match url_safe_bytes(text) {
        Some(token) => token,
        None => Seq::empty(),
    }
}

/// The answer that an outcome of redemption stands for. A token that does
/// not verify is answered with `false`; only a redeemed one with `true`.
pub open spec fn verdict(outcome: RedeemOutcome) -> Result<bool, ValidateTokenError> {
    match outcome {
        RedeemOutcome::Redeemed => Ok(true),
        RedeemOutcome::InvalidToken => Ok(false),
        RedeemOutcome::DoubleSpending => Err(ValidateTokenError::DoubleSpending),
        RedeemOutcome::KeyIdNotFound => Err(ValidateTokenError::KeyIdNotFound),
        RedeemOutcome::Other => Err(ValidateTokenError::RedeemToken),
    }
}

/// What is owed in a stage.
pub open spec fn owed(stage: ValidationStage) -> ValidationAction {
    match stage {
        ValidationStage::LoadingKey => ValidationAction::LoadKey,
        ValidationStage::Decoding => ValidationAction::DecodeToken,
        ValidationStage::Digesting { .. } => ValidationAction::DigestChallenge,
        ValidationStage::Redeeming => ValidationAction::Redeem,
        ValidationStage::Finished { answer } => ValidationAction::Finish(answer),
    }
}

/// The stage that follows on a report. Every token must be bound to the
/// challenge: once it has parsed, the challenge's digest is asked for, and
/// redemption follows only where the two digests are the same. A report that
/// does not answer what is owed changes nothing.
pub open spec fn next_stage(stage: ValidationStage, event: ValidationEvent) -> ValidationStage {
    match (stage, event) {
        (ValidationStage::LoadingKey, ValidationEvent::KeyLoaded(loaded)) => if loaded {
            ValidationStage::Decoding
        } else {
            ValidationStage::Finished { answer: Err(ValidateTokenError::CreateKeypair) }
        },
        (ValidationStage::Decoding, ValidationEvent::TokenDecoded(decoded)) => match decoded {
            None => ValidationStage::Finished { answer: Err(ValidateTokenError::TlsDeserialize) },
            Some(token_digest) => ValidationStage::Digesting { token_digest },
        },
        (
            ValidationStage::Digesting { token_digest },
            ValidationEvent::ChallengeDigested(digested),
        ) => match digested {
            None => ValidationStage::Finished { answer: Err(ValidateTokenError::Serialize) },
            Some(challenge_digest) => if token_digest@ == challenge_digest@ {
                ValidationStage::Redeeming
            } else {
                ValidationStage::Finished { answer: Err(ValidateTokenError::ChallengeDigest) }
            },
        },
        (ValidationStage::Redeeming, ValidationEvent::Redeemed(outcome)) => {
            ValidationStage::Finished { answer: verdict(outcome) }
        },
        _ => stage,
    }
}

/// The size check: a token has exactly [`TOKEN_SIZE`] bytes.
pub fn check_token_size(token: &[u8]) -> (checked: Result<(), ValidateTokenError>)
    ensures
        token@.len() == TOKEN_SIZE ==> checked is Ok,
        token@.len() != TOKEN_SIZE ==> checked == Err::<(), ValidateTokenError>(
            ValidateTokenError::WrongTokenSize(token@.len() as usize),
        ),
{
    if token.len() == TOKEN_SIZE {
        Ok(())
    } else {
        Err(ValidateTokenError::WrongTokenSize(token.len()))
    }
}

/// The encoding check: the text that a token came in must be, character for
/// character, the text that its bytes encode to.
pub fn check_canonical(token_text: &str, encoded_again: &str) -> (checked: Result<
    (),
    ValidateTokenError,
>)
    ensures
        token_text@ == encoded_again@ ==> checked is Ok,
        token_text@ != encoded_again@ ==> checked == Err::<(), ValidateTokenError>(
            ValidateTokenError::NonCanonicalEncoding,
        ),
{
    if same_text(token_text, encoded_again) {
        Ok(())
    } else {
        Err(ValidateTokenError::NonCanonicalEncoding)
    }
}

/// The binding check: the digest inside the token must be the digest of the
/// challenge.
pub fn check_challenge_digest(token_digest: &[u8; 32], challenge_digest: &[u8; 32]) -> (checked:
    Result<(), ValidateTokenError>)
    ensures
        token_digest@ == challenge_digest@ ==> checked is Ok,
        token_digest@ != challenge_digest@ ==> checked == Err::<(), ValidateTokenError>(
            ValidateTokenError::ChallengeDigest,
        ),
{
    if same_bytes(token_digest.as_slice(), challenge_digest.as_slice()) {
        Ok(())
    } else {
        Err(ValidateTokenError::ChallengeDigest)
    }
}

/// The answer that an outcome of redemption stands for.
pub fn redeem_verdict(outcome: RedeemOutcome) -> (answer: Result<bool, ValidateTokenError>)
    ensures
        answer == verdict(outcome),
{
    match outcome {
        RedeemOutcome::Redeemed => Ok(true),
        RedeemOutcome::InvalidToken => Ok(false),
        RedeemOutcome::DoubleSpending => Err(ValidateTokenError::DoubleSpending),
        RedeemOutcome::KeyIdNotFound => Err(ValidateTokenError::KeyIdNotFound),
        RedeemOutcome::Other => Err(ValidateTokenError::RedeemToken),
    }
}

/// What a validation is about, apart from how it is stored.
pub struct ValidationView {
    /// How far the validation has come.
    pub stage: ValidationStage,
    /// The token's bytes.
    pub token: Seq<u8>,
    /// The secret key that the token is checked under.
    pub secret_key: Seq<u8>,
}

/// One validation of one token, from the first check to the answer.
pub struct Validation {
    stage: ValidationStage,
    token: Vec<u8>,
    secret_key: Vec<u8>,
}

impl View for Validation {
    type V = ValidationView;

    closed spec fn view(&self) -> ValidationView {
        ValidationView {
            stage: self.stage,
            token: self.token@,
            secret_key: self.secret_key@,
        }
    }
}

impl Validation {
    /// Starts the validation of a token given as raw bytes. A token of the
    /// wrong size is refused here, before anything else is asked for.
    pub fn of_bytes(token: &[u8], private_key: &[u8]) -> (validation: Self)
        ensures
            validation@.stage == first_stage(token@),
            validation@.token == token@,
            validation@.secret_key == private_key@,
    {
        let stage = match check_token_size(token) {
            Ok(()) => ValidationStage::LoadingKey,
            Err(error) => ValidationStage::Finished { answer: Err(error) },
        };
        Validation {
            stage,
            token: slice_to_vec(token),
            secret_key: slice_to_vec(private_key),
        }
    }

    /// Starts the validation of a token given in its text form. The text is
    /// decoded, the size of the bytes is checked, and the bytes are encoded
    /// again to see that the text is the canonical one; the first of these
    /// that fails ends the validation before anything else is asked for.
    pub fn of_text(token_text: &str, private_key: &[u8]) -> (validation: Self)
        ensures
            validation@.stage == first_stage_of_text(token_text@),
            validation@.token == decoded_token(token_text@),
            validation@.secret_key == private_key@,
    {
        let secret_key = slice_to_vec(private_key);
        let token = match decode_url_safe(token_text) {
            Ok(token) => token,
            Err(_) => {
                return Validation {
                    stage: ValidationStage::Finished {
                        answer: Err(ValidateTokenError::Base64Decode),
                    },
                    token: Vec::new(),
                    secret_key,
                };
            },
        };
        let stage = match check_token_size(token.as_slice()) {
            Err(error) => ValidationStage::Finished { answer: Err(error) },
            Ok(()) => {
                let encoded_again = encode_url_safe(token.as_slice());
                match check_canonical(token_text, encoded_again.as_str()) {
                    Err(error) => ValidationStage::Finished { answer: Err(error) },
                    Ok(()) => ValidationStage::LoadingKey,
                }
            },
        };
        Validation { stage, token, secret_key }
    }

    /// What the caller is asked to do now.
    pub fn action(&self) -> (action: ValidationAction)
        ensures
            action == owed(self@.stage),
    {
        match self.stage {
            ValidationStage::LoadingKey => ValidationAction::LoadKey,
            ValidationStage::Decoding => ValidationAction::DecodeToken,
            ValidationStage::Digesting { .. } => ValidationAction::DigestChallenge,
            ValidationStage::Redeeming => ValidationAction::Redeem,
            ValidationStage::Finished { answer } => ValidationAction::Finish(answer),
        }
    }

    /// The token's bytes, for parsing and for redemption.
    pub fn token(&self) -> (token: &[u8])
        ensures
            token@ == self@.token,
    {
        self.token.as_slice()
    }

    /// The secret key, for loading into the key store.
    pub fn secret_key(&self) -> (secret_key: &[u8])
        ensures
            secret_key@ == self@.secret_key,
    {
        self.secret_key.as_slice()
    }

    /// Takes a report and says what is to be done next. The token and the
    /// key stay as they are; the stage moves as [`next_stage`] says.
    pub fn step(&mut self, event: ValidationEvent) -> (action: ValidationAction)
        ensures
            final(self)@.stage == next_stage(old(self)@.stage, event),
            final(self)@.token == old(self)@.token,
            final(self)@.secret_key == old(self)@.secret_key,
            action == owed(final(self)@.stage),
    {
        let stage = match (self.stage, event) {
            (ValidationStage::LoadingKey, ValidationEvent::KeyLoaded(loaded)) => if loaded {
                ValidationStage::Decoding
            } else {
                ValidationStage::Finished { answer: Err(ValidateTokenError::CreateKeypair) }
            },
            (ValidationStage::Decoding, ValidationEvent::TokenDecoded(decoded)) => match decoded {
                None => ValidationStage::Finished {
                    answer: Err(ValidateTokenError::TlsDeserialize),
                },
                Some(token_digest) => ValidationStage::Digesting { token_digest },
            },
            (
                ValidationStage::Digesting { token_digest },
                ValidationEvent::ChallengeDigested(digested),
            ) => match digested {
                None => ValidationStage::Finished { answer: Err(ValidateTokenError::Serialize) },
                Some(challenge_digest) => match check_challenge_digest(
                    &token_digest,
                    &challenge_digest,
                ) {
                    Ok(()) => ValidationStage::Redeeming,
                    Err(error) => ValidationStage::Finished { answer: Err(error) },
                },
            },
            (ValidationStage::Redeeming, ValidationEvent::Redeemed(outcome)) => {
                ValidationStage::Finished { answer: redeem_verdict(outcome) }
            },
            (stage, _) => stage,
        };
        self.stage = stage;
        self.action()
    }
}

/// The text that stands for an answer where answers travel as text.
pub fn validity_flag(valid: bool) -> (flag: &'static str)
    ensures
        flag@ == (if valid {
            "1"@
        } else {
            "0"@
        }),
{
    if valid {
        "1"
    } else {
        "0"
    }
}

} // verus!
