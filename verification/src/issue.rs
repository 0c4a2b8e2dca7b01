//! Issuance: from a token request to a token response, under a limit on the
//! number of blinded elements.
//!
//! There are two policies for a request over the limit, and each has its own
//! entry: [`Issuance::rejecting`] refuses it, [`Issuance::truncating`] cuts it
//! down to the limit. Either way the limit is applied before the engine is
//! asked for anything. The key store and the engine are the caller's: an
//! [`Issuance`] says what is owed next and decides on what is reported.

use crate::errors::GenTokenResponseError;
use crate::request::{govern, governed, TokenRequest};
use crate::transport::{decode_url_safe, url_safe_bytes};
use crate::wire::{parse, RequestView};
use vstd::prelude::*;
use vstd::slice::slice_to_vec;

verus! {

/// What a report to an [`Issuance`] says.
#[derive(Debug, PartialEq, Eq)]
pub enum IssuanceEvent {
    /// The secret key was loaded into the key store, or could not be.
    KeyLoaded(bool),
    /// The engine was asked to evaluate the request; with the bytes of the
    /// token response, or with nothing where it failed.
    Evaluated(Option<Vec<u8>>),
}

/// What a report says, apart from how it is stored.
pub enum IssuanceEventView {
    KeyLoaded(bool),
    Evaluated(Option<Seq<u8>>),
}

impl View for IssuanceEvent {
    type V = IssuanceEventView;

    open spec fn view(&self) -> IssuanceEventView {
        match self {
            IssuanceEvent::KeyLoaded(loaded) => IssuanceEventView::KeyLoaded(*loaded),
            IssuanceEvent::Evaluated(Some(response)) => IssuanceEventView::Evaluated(
                Some(response@),
            ),
            IssuanceEvent::Evaluated(None) => IssuanceEventView::Evaluated(None),
        }
    }
}

/// What an [`Issuance`] asks its caller to do next.
#[derive(Debug, PartialEq, Eq)]
pub enum IssuanceAction {
    /// Load the secret key into the key store.
    LoadKey,
    /// Ask the engine for one blind evaluation per blinded element of the
    /// issuance's request, in their order.
    BlindEvaluate,
    /// Nothing: the issuance has ended, with the bytes of the token response
    /// or with a failure.
    Finish(Result<Vec<u8>, GenTokenResponseError>),
}

/// What is asked, apart from how it is stored.
pub enum IssuanceActionView {
    LoadKey,
    BlindEvaluate,
    Finish(Result<Seq<u8>, GenTokenResponseError>),
}

impl View for IssuanceAction {
    type V = IssuanceActionView;

    open spec fn view(&self) -> IssuanceActionView {
        match self {
            IssuanceAction::LoadKey => IssuanceActionView::LoadKey,
            IssuanceAction::BlindEvaluate => IssuanceActionView::BlindEvaluate,
            IssuanceAction::Finish(Ok(response)) => IssuanceActionView::Finish(Ok(response@)),
            IssuanceAction::Finish(Err(error)) => IssuanceActionView::Finish(Err(*error)),
        }
    }
}

/// How far an issuance has come.
pub enum IssuanceStage {
    /// The request is within the limit; the key is to be loaded.
    LoadingKey,
    /// The key is loaded; the engine is to evaluate the request.
    Evaluating,
    /// The issuance has ended with this answer.
    Finished { answer: Result<Seq<u8>, GenTokenResponseError> },
}

/// What is owed in a stage.
pub open spec fn owed(stage: IssuanceStage) -> IssuanceActionView {
    match stage {
        IssuanceStage::LoadingKey => IssuanceActionView::LoadKey,
        IssuanceStage::Evaluating => IssuanceActionView::BlindEvaluate,
        IssuanceStage::Finished { answer } => IssuanceActionView::Finish(answer),
    }
}

/// The stage that follows on a report. A report that does not answer what is
/// owed changes nothing.
pub open spec fn next_stage(stage: IssuanceStage, event: IssuanceEventView) -> IssuanceStage {
    match (stage, event) {
        (IssuanceStage::LoadingKey, IssuanceEventView::KeyLoaded(loaded)) => if loaded {
            IssuanceStage::Evaluating
        } else {
            IssuanceStage::Finished { answer: Err(GenTokenResponseError::CreateKeypair) }
        },
        (IssuanceStage::Evaluating, IssuanceEventView::Evaluated(evaluated)) => match evaluated {
            Some(response) => IssuanceStage::Finished { answer: Ok(response) },
            None => IssuanceStage::Finished {
                answer: Err(GenTokenResponseError::IssueTokenResponse),
            },
        },
        _ => stage,
    }
}

/// The stage that the rejecting policy starts a request in.
pub open spec fn first_stage_rejecting(elements: nat, max_requests: nat) -> IssuanceStage {
    if elements > max_requests {
        IssuanceStage::Finished {
            answer: Err(
                GenTokenResponseError::RequestedTooManyTokens(
                    elements as usize,
                    max_requests as usize,
                ),
            ),
        }
    } else {
        IssuanceStage::LoadingKey
    }
}

/// The policy that refuses: a request is in order where it holds no more
/// blinded elements than the limit allows.
pub fn check_request_count(elements: usize, max_requests: usize) -> (checked: Result<
    (),
    GenTokenResponseError,
>)
    ensures
        elements <= max_requests ==> checked is Ok,
        elements > max_requests ==> checked == Err::<(), GenTokenResponseError>(
            GenTokenResponseError::RequestedTooManyTokens(elements, max_requests),
        ),
{
    if elements > max_requests {
        Err(GenTokenResponseError::RequestedTooManyTokens(elements, max_requests))
    } else {
        Ok(())
    }
}

/// What an issuance is about, apart from how it is stored.
pub struct IssuanceView {
    /// How far the issuance has come.
    pub stage: IssuanceStage,
    /// The request that the engine is asked with, the limit applied; none
    /// where the request never came to be read.
    pub request: Option<RequestView>,
    /// The secret key that the response is issued under.
    pub secret_key: Seq<u8>,
}

/// The issuance as it stands before anything is reported, for a secret key
/// and a request that come as text: both must decode, the request's bytes
/// must stand for a request, and a request over the limit is cut down to it.
pub open spec fn first_of_text(secret_key_text: Seq<char>, request_text: Seq<char>, max_nr: u16)
    -> IssuanceView {
    let refused = |error: GenTokenResponseError, secret_key: Seq<u8>|
        IssuanceView {
            stage: IssuanceStage::Finished { answer: Err(error) },
            request: None,
            secret_key,
        };
    match url_safe_bytes(secret_key_text) {
        None => refused(GenTokenResponseError::Base64Decode, Seq::empty()),
        Some(secret_key) => match url_safe_bytes(request_text) {
            None => refused(GenTokenResponseError::Base64Decode, secret_key),
            Some(bytes) => match parse(bytes) {
                Err(_) => refused(GenTokenResponseError::TlsDeserialize, secret_key),
                Ok(request) => IssuanceView {
                    stage: IssuanceStage::LoadingKey,
                    request: Some(governed(request, max_nr as nat)),
                    secret_key,
                },
            },
        },
    }
}

/// The stage as it is stored.
enum Progress {
    LoadingKey,
    Evaluating,
    Finished(Result<Vec<u8>, GenTokenResponseError>),
}

/// One issuance, from the check of the limit to the response.
pub struct Issuance {
    progress: Progress,
    request: Option<TokenRequest>,
    secret_key: Vec<u8>,
}

impl View for Issuance {
    type V = IssuanceView;

    closed spec fn view(&self) -> IssuanceView {
        IssuanceView {
            stage: match self.progress {
                Progress::LoadingKey => IssuanceStage::LoadingKey,
                Progress::Evaluating => IssuanceStage::Evaluating,
                Progress::Finished(Ok(response)) => IssuanceStage::Finished {
                    answer: Ok(response@),
                },
                Progress::Finished(Err(error)) => IssuanceStage::Finished { answer: Err(error) },
            },
            request: match self.request {
                Some(request) => Some(request@),
                None => None,
            },
            secret_key: self.secret_key@,
        }
    }
}

impl Issuance {
    /// Starts an issuance that refuses a request over the limit: such a
    /// request ends it at once, with the number of elements asked for and
    /// the limit, and nothing is asked of the key store or of the engine.
    pub fn rejecting(
        private_key: &[u8],
        token_request: TokenRequest,
        max_requests: usize,
    ) -> (issuance: Self)
        ensures
            issuance@.stage == first_stage_rejecting(
                token_request@.blinded_elements.len(),
                max_requests as nat,
            ),
            issuance@.request == Some(token_request@),
            issuance@.secret_key == private_key@,
    {
        let progress = match check_request_count(token_request.nr(), max_requests) {
            Ok(()) => Progress::LoadingKey,
            Err(error) => Progress::Finished(Err(error)),
        };
        Issuance { progress, request: Some(token_request), secret_key: slice_to_vec(private_key) }
    }

    /// Starts an issuance that cuts a request over the limit down to its
    /// first `max_elements` blinded elements. The elements cut off are gone
    /// before the engine is asked for anything.
    pub fn truncating(
        private_key: &[u8],
        token_request: TokenRequest,
        max_elements: usize,
    ) -> (issuance: Self)
        ensures
            issuance@.stage == IssuanceStage::LoadingKey,
            issuance@.request == Some(governed(token_request@, max_elements as nat)),
            issuance@.secret_key == private_key@,
    {
        Issuance {
            progress: Progress::LoadingKey,
            request: Some(govern(token_request, max_elements)),
            secret_key: slice_to_vec(private_key),
        }
    }

    /// Starts an issuance from a secret key and a request in their text
    /// form; a request over the limit is cut down to it.
    pub fn of_text(secret_key_text: &str, request_text: &str, max_nr: u16) -> (issuance: Self)
        ensures
            issuance@ == first_of_text(secret_key_text@, request_text@, max_nr),
    {
        let secret_key = match decode_url_safe(secret_key_text) {
            Ok(secret_key) => secret_key,
            Err(_) => {
                return Issuance {
                    progress: Progress::Finished(Err(GenTokenResponseError::Base64Decode)),
                    request: None,
                    secret_key: Vec::new(),
                };
            },
        };
        let bytes = match decode_url_safe(request_text) {
            Ok(bytes) => bytes,
            Err(_) => {
                return Issuance {
                    progress: Progress::Finished(Err(GenTokenResponseError::Base64Decode)),
                    request: None,
                    secret_key,
                };
            },
        };
        match TokenRequest::tls_deserialize(bytes.as_slice()) {
            Err(_) => Issuance {
                progress: Progress::Finished(Err(GenTokenResponseError::TlsDeserialize)),
                request: None,
                secret_key,
            },
            Ok(token_request) => Issuance {
                progress: Progress::LoadingKey,
                request: Some(govern(token_request, max_nr as usize)),
                secret_key,
            },
        }
    }

    /// What the caller is asked to do now.
    pub fn action(&self) -> (action: IssuanceAction)
        ensures
            action@ == owed(self@.stage),
    {
        match &self.progress {
            Progress::LoadingKey => IssuanceAction::LoadKey,
            Progress::Evaluating => IssuanceAction::BlindEvaluate,
            Progress::Finished(Ok(response)) => IssuanceAction::Finish(
                Ok(slice_to_vec(response.as_slice())),
            ),
            Progress::Finished(Err(error)) => IssuanceAction::Finish(Err(*error)),
        }
    }

    /// The request that the engine is to be asked with.
    pub fn request(&self) -> (request: Option<&TokenRequest>)
        ensures
            match request {
                Some(request) => self@.request == Some(request@),
                None => self@.request is None,
            },
    {
        self.request.as_ref()
    }

    /// The secret key, for loading into the key store.
    pub fn secret_key(&self) -> (secret_key: &[u8])
        ensures
            secret_key@ == self@.secret_key,
    {
        self.secret_key.as_slice()
    }

    /// Takes a report and says what is to be done next. The request and the
    /// key stay as they are; the stage moves as [`next_stage`] says.
    pub fn step(&mut self, event: IssuanceEvent) -> (action: IssuanceAction)
        ensures
            final(self)@.stage == next_stage(old(self)@.stage, event@),
            final(self)@.request == old(self)@.request,
            final(self)@.secret_key == old(self)@.secret_key,
            action@ == owed(final(self)@.stage),
    {
        let moved = match (&self.progress, event) {
            (Progress::LoadingKey, IssuanceEvent::KeyLoaded(true)) => Some(Progress::Evaluating),
            (Progress::LoadingKey, IssuanceEvent::KeyLoaded(false)) => Some(
                Progress::Finished(Err(GenTokenResponseError::CreateKeypair)),
            ),
            (Progress::Evaluating, IssuanceEvent::Evaluated(Some(response))) => Some(
                Progress::Finished(Ok(response)),
            ),
            (Progress::Evaluating, IssuanceEvent::Evaluated(None)) => Some(
                Progress::Finished(Err(GenTokenResponseError::IssueTokenResponse)),
            ),
            _ => None,
        };
        match moved {
            Some(progress) => {
                self.progress = progress;
            },
            None => {},
        }
        self.action()
    }
}

} // verus!
