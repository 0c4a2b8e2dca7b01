//! What holds of every issuance, and of the limit on a request.

use crate::errors::{ErrorKind, GenTokenResponseError};
use crate::issue::{first_stage_rejecting, next_stage, IssuanceEventView, IssuanceStage};
use crate::request::governed;
use crate::wire::{encodable, RequestView};
use vstd::prelude::*;

verus! {

/// The stage that a series of reports leads to, taken in their order.
pub open spec fn stage_after(stage: IssuanceStage, events: Seq<IssuanceEventView>) -> IssuanceStage
    decreases events.len(),
{
    if events.len() == 0 {
        stage
    } else {
        next_stage(stage_after(stage, events.drop_last()), events.last())
    }
}

/// A request over the limit is left with exactly as many blinded elements as
/// the limit allows, and they are its first ones in their order.
pub proof fn law_over_the_limit_is_cut(request: RequestView, max_elements: nat)
    requires
        request.blinded_elements.len() > max_elements,
    ensures
        governed(request, max_elements).blinded_elements.len() == max_elements,
        forall|k: int|
            0 <= k < max_elements ==> governed(request, max_elements).blinded_elements[k]
                == request.blinded_elements[k],
        governed(request, max_elements).token_type == request.token_type,
        governed(request, max_elements).truncated_token_key_id == request.truncated_token_key_id,
{
}

/// A request within the limit is left as it is.
pub proof fn law_within_the_limit_is_kept(request: RequestView, max_elements: nat)
    requires
        request.blinded_elements.len() <= max_elements,
    ensures
        governed(request, max_elements) == request,
{
}

/// Whatever the limit, what is left of a request has no more blinded
/// elements than the limit allows; and a request that had a byte form still
/// has one.
pub proof fn law_limit_holds(request: RequestView, max_elements: nat)
    ensures
        governed(request, max_elements).blinded_elements.len() <= max_elements,
        governed(request, max_elements).blinded_elements.len() <= request.blinded_elements.len(),
        encodable(request) ==> encodable(governed(request, max_elements)),
{
}

/// To apply a limit twice is to apply it once.
pub proof fn law_limit_once_is_enough(request: RequestView, max_elements: nat)
    ensures
        governed(governed(request, max_elements), max_elements) == governed(request, max_elements),
{
}

/// Under the policy that refuses, a request over the limit is answered with
/// a violation of the policy that names both numbers, and no report changes
/// that: nothing is ever asked of the key store or of the engine.
pub proof fn law_refused_request_asks_nothing(
    elements: nat,
    max_requests: nat,
    events: Seq<IssuanceEventView>,
)
    requires
        elements > max_requests,
    ensures
        first_stage_rejecting(elements, max_requests) == (IssuanceStage::Finished {
            answer: Err(
                GenTokenResponseError::RequestedTooManyTokens(
                    elements as usize,
                    max_requests as usize,
                ),
            ),
        }),
        GenTokenResponseError::RequestedTooManyTokens(
            elements as usize,
            max_requests as usize,
        ).kind_of() == ErrorKind::PolicyViolation,
        stage_after(first_stage_rejecting(elements, max_requests), events) == first_stage_rejecting(
            elements,
            max_requests,
        ),
{
    let refused = GenTokenResponseError::RequestedTooManyTokens(
        elements as usize,
        max_requests as usize,
    );
    law_answer_is_final(
        Err(refused),
        events,
    );
}

/// An answer, once given, stays: no later report changes it.
pub proof fn law_answer_is_final(
    answer: Result<Seq<u8>, GenTokenResponseError>,
    events: Seq<IssuanceEventView>,
)
    ensures
        stage_after(IssuanceStage::Finished { answer }, events) == (IssuanceStage::Finished {
            answer,
        }),
    decreases events.len(),
{
    if events.len() > 0 {
        law_answer_is_final(answer, events.drop_last());
    }
}

/// What the reports so far must hold for an issuance that began with the
/// loading of the key to stand in `stage`.
pub open spec fn earned(stage: IssuanceStage, events: Seq<IssuanceEventView>) -> bool {
    match stage {
        IssuanceStage::LoadingKey => true,
        IssuanceStage::Evaluating => events.contains(IssuanceEventView::KeyLoaded(true)),
        IssuanceStage::Finished { answer } => answer matches Ok(response) ==> {
            &&& events.contains(IssuanceEventView::KeyLoaded(true))
            &&& events.contains(IssuanceEventView::Evaluated(Some(response)))
        },
    }
}

/// A response is given out only where the key was loaded and the engine
/// made that very response; and the engine is asked only once the key was
/// loaded.
pub proof fn law_response_is_the_engines(events: Seq<IssuanceEventView>)
    ensures
        earned(stage_after(IssuanceStage::LoadingKey, events), events),
    decreases events.len(),
{
    if events.len() > 0 {
        let before = events.drop_last();
        let last = events.last();
        law_response_is_the_engines(before);
        assert(events[events.len() - 1] == last);
        assert(events.contains(last));
        assert forall|event: IssuanceEventView| before.contains(event) implies events.contains(
            event,
        ) by {
            let i = choose|i: int| 0 <= i < before.len() && before[i] == event;
            assert(events[i] == event);
        }
    }
}

} // verus!
