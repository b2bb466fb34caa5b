use vstd::prelude::*;

use crate::bundle::{decodes_to, well_formed, KeyBundle};
use crate::error::AgentError;
use crate::wire::{base64_decoded, base64_encoded, encode_base64, read_bundle};

verus! {

/// Where one call of the exchange stands.
#[derive(Clone, Copy, Debug, PartialEq, Eq, Structural)]
pub enum Stage {
    Start,
    Parsed,
    SessionEstablished,
    Encrypted,
    Done,
    Failed(AgentError),
}

/// The stage that follows `s` once the step it waits for has ended with `outcome`:
/// a success moves one stage on, a failure ends the call with its kind, and a call
/// that is done or failed stays so.
pub open spec fn next_stage(s: Stage, outcome: Result<(), AgentError>) -> Stage {
    match s {
        Stage::Done => Stage::Done,
        Stage::Failed(k) => Stage::Failed(k),
        _ => match outcome {
            Err(k) => Stage::Failed(k),
            Ok(_) => match s {
                Stage::Start => Stage::Parsed,
                Stage::Parsed => Stage::SessionEstablished,
                Stage::SessionEstablished => Stage::Encrypted,
                _ => Stage::Done,
            },
        },
    }
}

/// The stage reached from `s` after the steps that ended with `outcomes`, in order.
pub open spec fn run(s: Stage, outcomes: Seq<Result<(), AgentError>>) -> Stage
    decreases outcomes.len(),
{
    if outcomes.len() == 0 {
        s
    } else {
        run(next_stage(s, outcomes[0]), outcomes.drop_first())
    }
}

/// The outcome of a step, with its value left out.
pub open spec fn outcome_of<T>(r: Result<T, AgentError>) -> Result<(), AgentError> {
    match r {
        Ok(_) => Ok(()),
        Err(k) => Err(k),
    }
}

/// The stage that follows `stage` once its step has ended with `outcome`.
pub fn advance(stage: Stage, outcome: Result<(), AgentError>) -> (r: Stage)
    ensures
        r == next_stage(stage, outcome),
{
    match stage {
        Stage::Done => Stage::Done,
        Stage::Failed(k) => Stage::Failed(k),
        _ => match outcome {
            Err(k) => Stage::Failed(k),
            Ok(_) => match stage {
                Stage::Start => Stage::Parsed,
                Stage::Parsed => Stage::SessionEstablished,
                Stage::SessionEstablished => Stage::Encrypted,
                _ => Stage::Done,
            },
        },
    }
}

/// The state of one call: created at its start, owned by it, dropped at its end.
pub struct Exchange {
    stage: Stage,
}

impl View for Exchange {
    type V = Stage;

    closed spec fn view(&self) -> Stage {
        self.stage
    }
}

impl Exchange {
    /// A call that has done nothing yet.
    pub fn new() -> (r: Exchange)
        ensures
            r@ == Stage::Start,
    {
        Exchange { stage: Stage::Start }
    }

    /// Where the call stands.
    pub fn stage(&self) -> (r: Stage)
        ensures
            r == self@,
    {
        self.stage
    }

    /// Records how the step that the call waits for has ended.
    pub fn record(&mut self, outcome: Result<(), AgentError>)
        ensures
            final(self)@ == next_stage(old(self)@, outcome),
    {
        self.stage = advance(self.stage, outcome);
    }

    /// The first step: takes the remote bundle off its transport text.
    pub fn accept_bundle(&mut self, text: &str) -> (r: Result<KeyBundle, AgentError>)
        requires
            old(self)@ == Stage::Start,
        ensures
            final(self)@ == next_stage(Stage::Start, outcome_of(r)),
            match base64_decoded(text@) {
                None => r == Err::<KeyBundle, AgentError>(AgentError::MalformedBundle),
                Some(b) => {
                    &&& r.is_ok() <==> well_formed(b)
                    &&& r is Err ==> r == Err::<KeyBundle, AgentError>(AgentError::MalformedBundle)
                    &&& r matches Ok(k) ==> decodes_to(b, k)
                },
            },
    {
        let r = read_bundle(text);
        let outcome: Result<(), AgentError> = match &r {
            Ok(_) => Ok(()),
            Err(k) => Err(*k),
        };
        self.record(outcome);
        r
    }

    /// The last step: encodes the serialized envelope for transport and ends the call.
    pub fn finish(&mut self, envelope: &[u8]) -> (r: String)
        requires
            old(self)@ == Stage::Encrypted,
            4 * ((envelope@.len() + 2) / 3) <= usize::MAX,
        ensures
            final(self)@ == Stage::Done,
            r@ == base64_encoded(envelope@),
            r@.len() == 4 * ((envelope@.len() + 2) / 3),
    {
        let text = encode_base64(envelope);
        self.record(Ok(()));
        text
    }
}

/// A call that has failed stays failed with the same kind, whatever is recorded after.
pub proof fn lemma_failure_is_terminal(k: AgentError, outcomes: Seq<Result<(), AgentError>>)
    ensures
        run(Stage::Failed(k), outcomes) == Stage::Failed(k),
    decreases outcomes.len(),
{
    if outcomes.len() > 0 {
        lemma_failure_is_terminal(k, outcomes.drop_first());
    }
}

/// A bundle that the signature check rejects ends the call as `UntrustedBundle`; no
/// session is ever established after it, whatever the later steps report.
pub proof fn lemma_untrusted_bundle_never_establishes(outcomes: Seq<Result<(), AgentError>>)
    ensures
        run(Stage::Parsed, seq![Err(AgentError::UntrustedBundle)] + outcomes)
            == Stage::Failed(AgentError::UntrustedBundle),
{
    let all = seq![Err(AgentError::UntrustedBundle)] + outcomes;
    assert(all.drop_first() =~= outcomes);
    lemma_failure_is_terminal(AgentError::UntrustedBundle, outcomes);
}

/// A call reaches `Done` only through four successes in a row, one per step: parse,
/// handshake, encryption and encoding.
pub proof fn lemma_done_needs_every_step(outcomes: Seq<Result<(), AgentError>>)
    requires
        run(Stage::Start, outcomes) == Stage::Done,
    ensures
        outcomes.len() >= 4,
        forall|i: int| 0 <= i < 4 ==> outcomes[i] is Ok,
{
    lemma_steps_before_done(Stage::Start, outcomes);
}

/// The number of steps that a call in stage `s` has behind it.
pub open spec fn steps_taken(s: Stage) -> int {
    match s {
        Stage::Start => 0,
        Stage::Parsed => 1,
        Stage::SessionEstablished => 2,
        Stage::Encrypted => 3,
        _ => 4,
    }
}

proof fn lemma_steps_before_done(s: Stage, outcomes: Seq<Result<(), AgentError>>)
    requires
        steps_taken(s) < 4,
        !(s is Failed),
        run(s, outcomes) == Stage::Done,
    ensures
        outcomes.len() >= 4 - steps_taken(s),
        forall|i: int| 0 <= i < 4 - steps_taken(s) ==> outcomes[i] is Ok,
    decreases outcomes.len(),
{
    if outcomes.len() == 0 {
    } else {
        match outcomes[0] {
            Err(k) => {
                lemma_failure_is_terminal(k, outcomes.drop_first());
            },
            Ok(_) => {
                let t = next_stage(s, outcomes[0]);
                if steps_taken(s) < 3 {
                    lemma_steps_before_done(t, outcomes.drop_first());
                    assert forall|i: int| 0 <= i < 4 - steps_taken(s) implies outcomes[i] is Ok by {
                        if i > 0 {
                            assert(outcomes[i] == outcomes.drop_first()[i - 1]);
                        }
                    }
                }
            },
        }
    }
}

} // verus!
