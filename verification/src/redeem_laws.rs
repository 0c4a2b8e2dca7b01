//! What holds of every validation, whatever is reported to it.

use crate::errors::{ErrorKind, ValidateTokenError};
use crate::redeem::{
    first_stage, first_stage_of_text, next_stage, owed, RedeemOutcome, ValidationAction,
    ValidationEvent, ValidationStage, TOKEN_SIZE,
};
use crate::transport::{url_safe_bytes, url_safe_text};
use vstd::prelude::*;

verus! {

/// The stage that a series of reports leads to, taken in their order.
pub open spec fn stage_after(stage: ValidationStage, events: Seq<ValidationEvent>)
    -> ValidationStage
    decreases events.len(),
{
    if events.len() == 0 {
        stage
    } else {
        next_stage(stage_after(stage, events.drop_last()), events.last())
    }
}

/// Among the reports, the token parsed with a digest and the challenge gave
/// the same digest.
pub open spec fn saw_binding(events: Seq<ValidationEvent>) -> bool {
    exists|digest: [u8; 32]|
        {
            &&& #[trigger] events.contains(ValidationEvent::TokenDecoded(Some(digest)))
            &&& events.contains(ValidationEvent::ChallengeDigested(Some(digest)))
        }
}

/// What the reports so far must hold for a validation that began with the
/// loading of the key to stand in `stage`.
pub open spec fn earned(stage: ValidationStage, events: Seq<ValidationEvent>) -> bool {
    match stage {
        ValidationStage::LoadingKey => true,
        ValidationStage::Decoding => events.contains(ValidationEvent::KeyLoaded(true)),
        ValidationStage::Digesting { token_digest } => {
            &&& events.contains(ValidationEvent::KeyLoaded(true))
            &&& events.contains(ValidationEvent::TokenDecoded(Some(token_digest)))
        },
        ValidationStage::Redeeming => {
            &&& events.contains(ValidationEvent::KeyLoaded(true))
            &&& saw_binding(events)
        },
        ValidationStage::Finished { answer } => answer matches Ok(valid) ==> {
            &&& events.contains(ValidationEvent::KeyLoaded(true))
            &&& saw_binding(events)
            &&& events.contains(
                ValidationEvent::Redeemed(
                    if valid {
                        RedeemOutcome::Redeemed
                    } else {
                        RedeemOutcome::InvalidToken
                    },
                ),
            )
        },
    }
}

/// A token of the wrong size is refused as malformed input at the start, and
/// no report changes that: nothing is ever asked of the key store, of the
/// codec or of the engine.
pub proof fn law_wrong_size_is_refused_first(token: Seq<u8>, events: Seq<ValidationEvent>)
    requires
        token.len() != TOKEN_SIZE,
    ensures
        first_stage(token) == (ValidationStage::Finished {
            answer: Err(ValidateTokenError::WrongTokenSize(token.len() as usize)),
        }),
        ValidateTokenError::WrongTokenSize(token.len() as usize).kind_of()
            == ErrorKind::InputMalformed,
        stage_after(first_stage(token), events) == first_stage(token),
{
    let answer = Err(ValidateTokenError::WrongTokenSize(token.len() as usize));
    law_answer_is_final(answer, events);
}

/// A text that decodes to bytes of the wrong size is refused in the same
/// way.
pub proof fn law_wrong_size_of_text_is_refused_first(
    text: Seq<char>,
    events: Seq<ValidationEvent>,
)
    requires
        url_safe_bytes(text) matches Some(token) && token.len() != TOKEN_SIZE,
    ensures
        first_stage_of_text(text) == first_stage(url_safe_bytes(text)->Some_0),
        stage_after(first_stage_of_text(text), events) == first_stage_of_text(text),
        owed(first_stage_of_text(text)) == ValidationAction::Finish(
            Err(
                ValidateTokenError::WrongTokenSize(url_safe_bytes(text)->Some_0.len() as usize),
            ),
        ),
{
    law_wrong_size_is_refused_first(url_safe_bytes(text)->Some_0, events);
}

/// A text that decodes to bytes of the right size, but is not the text that
/// those bytes encode to, is refused as not canonical, and no report changes
/// that.
pub proof fn law_other_encoding_is_refused(text: Seq<char>, events: Seq<ValidationEvent>)
    requires
        url_safe_bytes(text) matches Some(token) && token.len() == TOKEN_SIZE && url_safe_text(
            token,
        ) != text,
    ensures
        first_stage_of_text(text) == (ValidationStage::Finished {
            answer: Err(ValidateTokenError::NonCanonicalEncoding),
        }),
        ValidateTokenError::NonCanonicalEncoding.kind_of() == ErrorKind::InputMalformed,
        stage_after(first_stage_of_text(text), events) == first_stage_of_text(text),
{
    law_answer_is_final(Err(ValidateTokenError::NonCanonicalEncoding), events);
}

/// An answer, once given, stays: no later report changes it.
pub proof fn law_answer_is_final(
    answer: Result<bool, ValidateTokenError>,
    events: Seq<ValidationEvent>,
)
    ensures
        stage_after(ValidationStage::Finished { answer }, events) == (ValidationStage::Finished {
            answer,
        }),
    decreases events.len(),
{
    if events.len() > 0 {
        law_answer_is_final(answer, events.drop_last());
    }
}

/// A series of reports can be taken in two parts, one after the other.
pub proof fn lemma_stage_after_both(
    stage: ValidationStage,
    first: Seq<ValidationEvent>,
    then: Seq<ValidationEvent>,
)
    ensures
        stage_after(stage, first + then) == stage_after(stage_after(stage, first), then),
    decreases then.len(),
{
    if then.len() == 0 {
        assert(first + then =~= first);
    } else {
        lemma_stage_after_both(stage, first, then.drop_last());
        assert((first + then).drop_last() =~= first + then.drop_last());
        assert((first + then).last() == then.last());
    }
}

/// A token whose digest is not that of the challenge is refused when the
/// challenge's digest comes in: the answer is the error of the digest, it
/// stays whatever is reported later, and redemption is never asked for. This
/// holds of every validation, however the token was given.
pub proof fn law_unbound_token_is_never_redeemed(
    token_digest: [u8; 32],
    challenge_digest: [u8; 32],
    events: Seq<ValidationEvent>,
)
    requires
        token_digest@ != challenge_digest@,
    ensures
        stage_after(
            ValidationStage::LoadingKey,
            seq![
                ValidationEvent::KeyLoaded(true),
                ValidationEvent::TokenDecoded(Some(token_digest)),
                ValidationEvent::ChallengeDigested(Some(challenge_digest)),
            ] + events,
        ) == (ValidationStage::Finished { answer: Err(ValidateTokenError::ChallengeDigest) }),
        owed(
            stage_after(
                ValidationStage::LoadingKey,
                seq![
                    ValidationEvent::KeyLoaded(true),
                    ValidationEvent::TokenDecoded(Some(token_digest)),
                    ValidationEvent::ChallengeDigested(Some(challenge_digest)),
                ] + events,
            ),
        ) != ValidationAction::Redeem,
        ValidateTokenError::ChallengeDigest.kind_of() == ErrorKind::ProtocolIntegrityFailure,
{
    let e1 = ValidationEvent::KeyLoaded(true);
    let e2 = ValidationEvent::TokenDecoded(Some(token_digest));
    let e3 = ValidationEvent::ChallengeDigested(Some(challenge_digest));
    let start = ValidationStage::LoadingKey;
    assert(seq![e1, e2, e3].drop_last() =~= seq![e1, e2]);
    assert(seq![e1, e2].drop_last() =~= seq![e1]);
    assert(seq![e1].drop_last() =~= Seq::<ValidationEvent>::empty());
    reveal_with_fuel(stage_after, 4);
    assert(stage_after(start, seq![e1]) == ValidationStage::Decoding);
    assert(stage_after(start, seq![e1, e2]) == ValidationStage::Digesting { token_digest });
    assert(stage_after(start, seq![e1, e2, e3]) == ValidationStage::Finished {
        answer: Err(ValidateTokenError::ChallengeDigest),
    });
    lemma_stage_after_both(start, seq![e1, e2, e3], events);
    law_answer_is_final(Err(ValidateTokenError::ChallengeDigest), events);
}

/// Where every check passes and the engine redeems the token, the answer is
/// `true`.
pub proof fn law_redeemed_token_is_valid(digest: [u8; 32])
    ensures
        stage_after(
            ValidationStage::LoadingKey,
            seq![
                ValidationEvent::KeyLoaded(true),
                ValidationEvent::TokenDecoded(Some(digest)),
                ValidationEvent::ChallengeDigested(Some(digest)),
                ValidationEvent::Redeemed(RedeemOutcome::Redeemed),
            ],
        ) == (ValidationStage::Finished { answer: Ok(true) }),
{
    let e1 = ValidationEvent::KeyLoaded(true);
    let e2 = ValidationEvent::TokenDecoded(Some(digest));
    let e3 = ValidationEvent::ChallengeDigested(Some(digest));
    let e4 = ValidationEvent::Redeemed(RedeemOutcome::Redeemed);
    let start = ValidationStage::LoadingKey;
    assert(seq![e1, e2, e3, e4].drop_last() =~= seq![e1, e2, e3]);
    assert(seq![e1, e2, e3].drop_last() =~= seq![e1, e2]);
    assert(seq![e1, e2].drop_last() =~= seq![e1]);
    assert(seq![e1].drop_last() =~= Seq::<ValidationEvent>::empty());
    reveal_with_fuel(stage_after, 5);
    assert(stage_after(start, seq![e1]) == ValidationStage::Decoding);
    assert(stage_after(start, seq![e1, e2]) == ValidationStage::Digesting {
        token_digest: digest,
    });
    assert(stage_after(start, seq![e1, e2, e3]) == ValidationStage::Redeeming);
}

/// A token that the engine reports as spent before is answered with the
/// error of double spending, never with `true` or `false`.
pub proof fn law_spent_token_is_an_error(events: Seq<ValidationEvent>)
    ensures
        next_stage(
            ValidationStage::Redeeming,
            ValidationEvent::Redeemed(RedeemOutcome::DoubleSpending),
        ) == (ValidationStage::Finished { answer: Err(ValidateTokenError::DoubleSpending) }),
        stage_after(
            ValidationStage::Finished { answer: Err(ValidateTokenError::DoubleSpending) },
            events,
        ) == (ValidationStage::Finished { answer: Err(ValidateTokenError::DoubleSpending) }),
        ValidateTokenError::DoubleSpending.kind_of() == ErrorKind::DoubleSpend,
{
    law_answer_is_final(Err(ValidateTokenError::DoubleSpending), events);
}

/// Each stage is earned: whatever is reported, and in whatever order, a
/// validation stands in a stage only where the reports hold what that stage
/// stands for.
pub proof fn law_stages_are_earned(events: Seq<ValidationEvent>)
    ensures
        earned(stage_after(ValidationStage::LoadingKey, events), events),
    decreases events.len(),
{
    if events.len() > 0 {
        let before = events.drop_last();
        let last = events.last();
        let stage = stage_after(ValidationStage::LoadingKey, before);
        law_stages_are_earned(before);
        assert(events[events.len() - 1] == last);
        assert(events.contains(last));
        let reached = next_stage(stage, last);
        assert(reached == stage_after(ValidationStage::LoadingKey, events));
        assert forall|event: ValidationEvent| before.contains(event) implies events.contains(
            event,
        ) by {
            let i = choose|i: int| 0 <= i < before.len() && before[i] == event;
            assert(events[i] == event);
        }
        if saw_binding(before) {
            let digest = choose|digest: [u8; 32]|
                {
                    &&& #[trigger] before.contains(ValidationEvent::TokenDecoded(Some(digest)))
                    &&& before.contains(ValidationEvent::ChallengeDigested(Some(digest)))
                };
            assert(events.contains(ValidationEvent::TokenDecoded(Some(digest))));
            assert(events.contains(ValidationEvent::ChallengeDigested(Some(digest))));
        }
        match (stage, last) {
            (
                ValidationStage::Digesting { token_digest },
                ValidationEvent::ChallengeDigested(Some(challenge_digest)),
            ) => {
                if token_digest@ == challenge_digest@ {
                    assert(token_digest =~= challenge_digest);
                    assert(events.contains(ValidationEvent::TokenDecoded(Some(token_digest))));
                    assert(saw_binding(events));
                }
            },
            _ => {},
        }
        assert(earned(reached, events));
    }
}

/// Redemption is asked for only where the key was loaded, the token parsed,
/// and the token's digest was that of the challenge.
pub proof fn law_redemption_needs_binding(events: Seq<ValidationEvent>)
    requires
        owed(stage_after(ValidationStage::LoadingKey, events)) == ValidationAction::Redeem,
    ensures
        events.contains(ValidationEvent::KeyLoaded(true)),
        saw_binding(events),
{
    law_stages_are_earned(events);
}

/// The answer `true` is given only where the key was loaded, the token
/// parsed, the token's digest was that of the challenge, and the engine
/// redeemed the token.
pub proof fn law_valid_needs_redemption(events: Seq<ValidationEvent>)
    requires
        stage_after(ValidationStage::LoadingKey, events) == (ValidationStage::Finished {
            answer: Ok(true),
        }),
    ensures
        events.contains(ValidationEvent::KeyLoaded(true)),
        saw_binding(events),
        events.contains(ValidationEvent::Redeemed(RedeemOutcome::Redeemed)),
{
    law_stages_are_earned(events);
}

} // verus!
