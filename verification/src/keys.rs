//! Key generation: a fresh seed, the key pair that the engine makes of it,
//! and the secret key derived from the same seed.
//!
//! The engine's key store is the caller's: a [`KeyGeneration`] asks for the
//! key pair to be created there and, told the public key, derives the secret
//! key itself.

use crate::errors::GenKeysError;
use crate::transport::{encode_url_safe, fits_encoding, url_safe_text};
use generic_array::GenericArray;
use rand::rngs::OsRng;
use rand::RngCore;
use vstd::prelude::*;
use vstd::slice::slice_to_vec;

verus! {

/// The error type of the random source. It is carried along, never looked
/// into.
#[verifier::external_type_specification]
#[verifier::external_body]
pub struct ExRandomError(rand::Error);

/// The error type of the key derivation. It is carried along, never looked
/// into.
#[verifier::external_type_specification]
#[verifier::external_body]
pub struct ExDerivationError(voprf::Error);

/// The kind of token that a key issues.
#[derive(Clone, Copy, Debug, PartialEq, Eq)]
pub enum TokenType {
    /// Batched tokens over the group ristretto255.
    BatchedTokenRistretto255,
}

/// The bytes of the text "PrivacyPass", which separates the keys derived
/// for this protocol from keys derived from the same seed for another.
pub open spec fn key_info() -> Seq<u8> {
    seq![80u8, 114u8, 105u8, 118u8, 97u8, 99u8, 121u8, 80u8, 97u8, 115u8, 115u8]
}

/// The secret key that a seed and an info string derive, for the group
/// ristretto255 in the verifiable mode; nothing where the derivation fails.
pub uninterp spec fn derived_key(seed: Seq<u8>, info: Seq<u8>) -> Option<Seq<u8>>;

/// `OsRng::try_fill_bytes` on an array of the length of the group's scalars:
/// 32 bytes from the operating system, or its error. Nothing is known of the
/// bytes.
#[verifier::external_body]
pub(crate) fn sample_seed() -> (seed: Result<[u8; 32], rand::Error>) {
    let mut seed = GenericArray::<u8, <voprf::Ristretto255 as voprf::Group>::ScalarLen>::default();
    OsRng.try_fill_bytes(&mut seed)?;
    let mut bytes = [0u8; 32];
    bytes.copy_from_slice(&seed);
    Ok(bytes)
}

/// `voprf::derive_key` for the group ristretto255 in the verifiable mode,
/// and `Scalar::to_bytes` on what it returns: the secret key that the seed
/// and the info string derive, as 32 bytes, or the derivation's error.
#[verifier::external_body]
pub(crate) fn derive_secret_key(seed: &[u8], info: &[u8]) -> (derived: Result<
    [u8; 32],
    voprf::Error,
>)
    ensures
        match derived {
            Ok(key) => derived_key(seed@, info@) == Some(key@),
            Err(_) => derived_key(seed@, info@) is None,
        },
{
    match voprf::derive_key::<voprf::Ristretto255>(seed, info, voprf::Mode::Voprf) {
        Ok(scalar) => Ok(scalar.to_bytes()),
        Err(error) => Err(error),
    }
}

/// A key pair, apart from how it is stored.
pub struct KeypairView {
    pub public_key: Seq<u8>,
    pub secret_key: Seq<u8>,
    pub token_type: TokenType,
}

/// The two halves of an issuer's key, and the kind of token it issues.
#[derive(Debug, PartialEq, Eq)]
pub struct RustKeypair {
    pub public_key: Vec<u8>,
    pub secret_key: [u8; 32],
    pub token_type: TokenType,
}

impl View for RustKeypair {
    type V = KeypairView;

    open spec fn view(&self) -> KeypairView {
        KeypairView {
            public_key: self.public_key@,
            secret_key: self.secret_key@,
            token_type: self.token_type,
        }
    }
}

/// A key pair in its text form.
#[derive(Debug, PartialEq, Eq)]
pub struct KeyPairText {
    /// The text of the secret key.
    pub sk: String,
    /// The text of the public key.
    pub pk: String,
}

/// The answer that a public key and a derivation stand for: the key pair, or
/// the failure of the derivation.
pub open spec fn keypair_answer(public_key: Seq<u8>, derived: Option<Seq<u8>>) -> Result<
    KeypairView,
    GenKeysError,
> {
    match derived {
        Some(secret_key) => Ok(
            KeypairView {
                public_key,
                secret_key,
                token_type: TokenType::BatchedTokenRistretto255,
            },
        ),
        None => Err(GenKeysError::DeriveKey),
    }
}

/// The info string as bytes.
pub fn key_info_bytes() -> (info: Vec<u8>)
    ensures
        info@ == key_info(),
{
    let info: Vec<u8> = vec![
        80u8, 114u8, 105u8, 118u8, 97u8, 99u8, 121u8, 80u8, 97u8, 115u8, 115u8,
    ];
    assert(info@ =~= key_info());
    info
}

/// Puts a key pair together from the public key that the engine made and
/// from what the derivation of the secret key gave.
pub fn finish_keypair(public_key: Vec<u8>, derived: Result<[u8; 32], voprf::Error>) -> (answer:
    Result<RustKeypair, GenKeysError>)
    ensures
        match answer {
            Ok(keypair) => derived matches Ok(secret_key) && keypair@ == (KeypairView {
                public_key: public_key@,
                secret_key: secret_key@,
                token_type: TokenType::BatchedTokenRistretto255,
            }),
            Err(error) => derived is Err && error == GenKeysError::DeriveKey,
        },
{
    match derived {
        Ok(secret_key) => Ok(
            RustKeypair { public_key, secret_key, token_type: TokenType::BatchedTokenRistretto255 },
        ),
        Err(_) => Err(GenKeysError::DeriveKey),
    }
}

/// The text form of a key pair: each half in URL-safe base64.
pub fn encode_keypair(keypair: &RustKeypair) -> (text: KeyPairText)
    requires
        fits_encoding(keypair@.public_key.len()),
    ensures
        text.sk@ == url_safe_text(keypair@.secret_key),
        text.pk@ == url_safe_text(keypair@.public_key),
{
    KeyPairText {
        sk: encode_url_safe(keypair.secret_key.as_slice()),
        pk: encode_url_safe(keypair.public_key.as_slice()),
    }
}

/// What a report to a [`KeyGeneration`] says.
#[derive(Debug, PartialEq, Eq)]
pub enum KeyEvent {
    /// The engine was asked to create the key pair of the seed; with the
    /// bytes of the public key, or with nothing where it failed.
    KeypairCreated(Option<Vec<u8>>),
}

/// What a report says, apart from how it is stored.
pub enum KeyEventView {
    KeypairCreated(Option<Seq<u8>>),
}

impl View for KeyEvent {
    type V = KeyEventView;

    open spec fn view(&self) -> KeyEventView {
        match self {
            KeyEvent::KeypairCreated(Some(public_key)) => KeyEventView::KeypairCreated(
                Some(public_key@),
            ),
            KeyEvent::KeypairCreated(None) => KeyEventView::KeypairCreated(None),
        }
    }
}

/// What a [`KeyGeneration`] asks its caller to do next.
#[derive(Debug, PartialEq, Eq)]
pub enum KeyAction {
    /// Have the engine create the key pair of the generation's seed and info
    /// string, and keep it in the key store.
    CreateKeypair,
    /// Nothing: the generation has ended, with the key pair or a failure.
    Finish(Result<RustKeypair, GenKeysError>),
}

/// What is asked, apart from how it is stored.
pub enum KeyActionView {
    CreateKeypair,
    Finish(Result<KeypairView, GenKeysError>),
}

impl View for KeyAction {
    type V = KeyActionView;

    open spec fn view(&self) -> KeyActionView {
        match self {
            KeyAction::CreateKeypair => KeyActionView::CreateKeypair,
            KeyAction::Finish(Ok(keypair)) => KeyActionView::Finish(Ok(keypair@)),
            KeyAction::Finish(Err(error)) => KeyActionView::Finish(Err(*error)),
        }
    }
}

/// How far a key generation has come.
pub enum KeyStage {
    /// The seed is there; the engine is to create the key pair.
    CreatingKeypair,
    /// The generation has ended with this answer.
    Finished { answer: Result<KeypairView, GenKeysError> },
}

/// What is owed in a stage.
pub open spec fn owed(stage: KeyStage) -> KeyActionView {
    match stage {
        KeyStage::CreatingKeypair => KeyActionView::CreateKeypair,
        KeyStage::Finished { answer } => KeyActionView::Finish(answer),
    }
}

/// The stage that follows on a report, for a generation with this seed. Once
/// the engine has made the key pair, the secret key is derived from the same
/// seed and info string. A report to a generation that has ended changes
/// nothing.
pub open spec fn next_stage(stage: KeyStage, seed: Seq<u8>, event: KeyEventView) -> KeyStage {
    match (stage, event) {
        (KeyStage::CreatingKeypair, KeyEventView::KeypairCreated(Some(public_key))) => {
            KeyStage::Finished {
                answer: keypair_answer(public_key, derived_key(seed, key_info())),
            }
        },
        (KeyStage::CreatingKeypair, KeyEventView::KeypairCreated(None)) => KeyStage::Finished {
            answer: Err(GenKeysError::CreateKeypair),
        },
        _ => stage,
    }
}

/// A key pair is given out only where the engine made its public key, and
/// its secret key is the one that the generation's seed derives: the same
/// seed gives the same secret key every time.
pub proof fn law_keypair_comes_of_the_seed(seed: Seq<u8>, event: KeyEventView)
    requires
        next_stage(KeyStage::CreatingKeypair, seed, event) matches KeyStage::Finished {
            answer: Ok(_),
        },
    ensures
        ({
            let keypair = next_stage(KeyStage::CreatingKeypair, seed, event)->answer->Ok_0;
            &&& event == KeyEventView::KeypairCreated(Some(keypair.public_key))
            &&& derived_key(seed, key_info()) == Some(keypair.secret_key)
            &&& keypair.token_type == TokenType::BatchedTokenRistretto255
        }),
{
}

/// What a key generation is about, apart from how it is stored.
pub struct KeyGenerationView {
    /// How far the generation has come.
    pub stage: KeyStage,
    /// The seed that the keys are made of.
    pub seed: Seq<u8>,
}

/// The stage as it is stored.
enum Progress {
    CreatingKeypair,
    Finished(Result<RustKeypair, GenKeysError>),
}

/// One generation of a key pair, from the seed to the two keys.
pub struct KeyGeneration {
    progress: Progress,
    seed: [u8; 32],
}

impl View for KeyGeneration {
    type V = KeyGenerationView;

    closed spec fn view(&self) -> KeyGenerationView {
        KeyGenerationView {
            stage: match self.progress {
                Progress::CreatingKeypair => KeyStage::CreatingKeypair,
                Progress::Finished(Ok(keypair)) => KeyStage::Finished { answer: Ok(keypair@) },
                Progress::Finished(Err(error)) => KeyStage::Finished { answer: Err(error) },
            },
            seed: self.seed@,
        }
    }
}

/// A copy of a key pair.
fn copy_keypair(keypair: &RustKeypair) -> (copy: RustKeypair)
    ensures
        copy@ == keypair@,
{
    RustKeypair {
        public_key: slice_to_vec(keypair.public_key.as_slice()),
        secret_key: keypair.secret_key,
        token_type: keypair.token_type,
    }
}

impl KeyGeneration {
    /// Starts a generation with a seed from the operating system. Where the
    /// system gives none, the generation has ended before it began.
    pub fn start() -> (generation: Self)
        ensures
            generation@.seed.len() == 32,
            generation@.stage == KeyStage::CreatingKeypair || generation@.stage == (
            KeyStage::Finished { answer: Err(GenKeysError::SeedUnavailable) }),
    {
        match sample_seed() {
            Ok(seed) => Self::from_seed(seed),
            Err(_) => KeyGeneration {
                progress: Progress::Finished(Err(GenKeysError::SeedUnavailable)),
                seed: [0u8; 32],
            },
        }
    }

    /// Starts a generation with the given seed.
    pub fn from_seed(seed: [u8; 32]) -> (generation: Self)
        ensures
            generation@.seed == seed@,
            generation@.stage == KeyStage::CreatingKeypair,
    {
        KeyGeneration { progress: Progress::CreatingKeypair, seed }
    }

    /// What the caller is asked to do now.
    pub fn action(&self) -> (action: KeyAction)
        ensures
            action@ == owed(self@.stage),
    {
        match &self.progress {
            Progress::CreatingKeypair => KeyAction::CreateKeypair,
            Progress::Finished(Ok(keypair)) => KeyAction::Finish(Ok(copy_keypair(keypair))),
            Progress::Finished(Err(error)) => KeyAction::Finish(Err(*error)),
        }
    }

    /// The seed, for the engine to create the key pair of.
    pub fn seed(&self) -> (seed: [u8; 32])
        ensures
            seed@ == self@.seed,
    {
        self.seed
    }

    /// The info string, for the engine to create the key pair with.
    pub fn info(&self) -> (info: Vec<u8>)
        ensures
            info@ == key_info(),
    {
        key_info_bytes()
    }

    /// Takes a report and says what is to be done next. The seed stays as it
    /// is; the stage moves as [`next_stage`] says.
    pub fn step(&mut self, event: KeyEvent) -> (action: KeyAction)
        ensures
            final(self)@.stage == next_stage(old(self)@.stage, old(self)@.seed, event@),
            final(self)@.seed == old(self)@.seed,
            action@ == owed(final(self)@.stage),
    {
        let moved = match (&self.progress, event) {
            (Progress::CreatingKeypair, KeyEvent::KeypairCreated(Some(public_key))) => {
                let info = key_info_bytes();
                let derived = derive_secret_key(self.seed.as_slice(), info.as_slice());
                Some(Progress::Finished(finish_keypair(public_key, derived)))
            },
            (Progress::CreatingKeypair, KeyEvent::KeypairCreated(None)) => Some(
                Progress::Finished(Err(GenKeysError::CreateKeypair)),
            ),
            _ => None,
        };
        match moved {
            Some(progress) => {
                self.progress = progress;
            },
            None => {},
        }
        self.action()
    }
}

} // verus!
