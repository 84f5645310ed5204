//! Decisions around the backend's RPC calls. Signing is a small state
//! machine: the caller performs the action it returns (a sign call, an unlock
//! call) and hands back what came of it. A declined signature gets exactly one
//! unlock and one more sign call; nothing is tried a third time.
use vstd::prelude::*;
use vstd::string::StringExecFns;

use crate::wire::opt_bytes;

verus! {

/// What the base64 crate decodes from a text, with the standard alphabet.
pub uninterp spec fn base64_decoding(text: Seq<char>) -> Option<Seq<u8>>;

/// Relies on base64::decode (standard alphabet, padded): the bytes a text
/// encodes, or an error.
#[verifier::external_body]
fn decode_base64(text: &str) -> (r: Option<Vec<u8>>)
    ensures
        opt_bytes(&r) == base64_decoding(text@),
{
    base64::decode(text).ok()
}

/// What the JSON crate reads as the string member `member` of a JSON object.
pub uninterp spec fn json_string_member(text: Seq<char>, member: Seq<char>) -> Option<Seq<char>>;

/// Relies on serde_json::from_str, Value::get and Value::as_str: the string
/// member of an object, or nothing.
#[verifier::external_body]
fn string_member(json: &str, member: &str) -> (r: Option<String>)
    ensures
        r is None <==> json_string_member(json@, member@) is None,
        r matches Some(s) ==> json_string_member(json@, member@) == Some(s@),
{
    let value: serde_json::Value = serde_json::from_str(json).ok()?;
    value.get(member)?.as_str().map(String::from)
}

pub open spec fn opt_text(o: Option<String>) -> Option<Seq<char>> {
    match o {
        Some(s) => Some(s@),
        None => None,
    }
}

/// What one sign call to the backend came to.
pub enum SignOutput {
    /// A signature.
    Signature(Vec<u8>),
    /// An empty result: the backend declined, e.g. because it is locked.
    Declined,
    /// The call failed or its output was not base64.
    Failed,
}

/// What one sign call came to, as contracts see it: the signature, or
/// `Some(empty)` for a decline, or `None` for a failure.
pub open spec fn sign_outcome(output: Option<Seq<char>>) -> Option<Seq<u8>> {
    match output {
        Some(text) => base64_decoding(text),
        None => None,
    }
}

/// Reads the output of a sign call (`None` where the call itself failed).
pub fn sign_output(output: &Option<String>) -> (r: SignOutput)
    ensures
        r matches SignOutput::Signature(s) ==> sign_outcome(opt_text(*output)) == Some(s@) && s@.len()
            > 0,
        r is Declined <==> sign_outcome(opt_text(*output)) == Some(Seq::<u8>::empty()),
        r is Failed <==> sign_outcome(opt_text(*output)) is None,
{
    match output {
        Some(text) => match decode_base64(text.as_str()) {
            Some(bytes) => {
                if bytes.len() == 0 {
                    assert(bytes@ =~= Seq::<u8>::empty());
                    SignOutput::Declined
                } else {
                    SignOutput::Signature(bytes)
                }
            },
            None => SignOutput::Failed,
        },
        None => SignOutput::Failed,
    }
}

/// Whether the output of an unlock call reports success: a JSON object whose
/// "auth_result" is a string other than "AUTH_RESULT_FAILURE".
pub open spec fn unlock_succeeded(output: Option<Seq<char>>) -> bool {
    match output {
        Some(text) => match json_string_member(text, "auth_result"@) {
            Some(result) => result != "AUTH_RESULT_FAILURE"@,
            None => false,
        },
        None => false,
    }
}

/// Reads the output of an unlock call (`None` where the call itself failed).
pub fn unlock_output(output: &Option<String>) -> (r: bool)
    ensures
        r == unlock_succeeded(opt_text(*output)),
{
    match output {
        Some(text) => {
            let member = String::from_str("auth_result");
            match string_member(text.as_str(), member.as_str()) {
                Some(result) => !(result == String::from_str("AUTH_RESULT_FAILURE")),
                None => false,
            }
        },
        None => false,
    }
}

/// Where a sign attempt stands.
#[derive(Clone, Copy, Debug, PartialEq, Eq, Structural)]
pub enum SignPhase {
    /// Nothing asked yet.
    Start,
    /// The first sign call is out.
    FirstSign,
    /// The first call was declined; the unlock call is out.
    Unlocking,
    /// The backend was unlocked; the second sign call is out.
    SecondSign,
    /// The attempt is over.
    Done,
}

/// What happened last.
pub enum BackendEvent {
    /// The attempt begins.
    Begin,
    /// A sign call returned this output (`None`: the call failed).
    SignReturned(Option<String>),
    /// The unlock call returned this output (`None`: the call failed).
    UnlockReturned(Option<String>),
}

/// What to do next.
pub enum BackendAction {
    /// Call the backend's sign.
    Sign,
    /// Call the backend's unlock.
    Unlock,
    /// The attempt is over, with the signature or without one.
    Finish(Option<Vec<u8>>),
}

/// An event as contracts see it.
pub enum EventView {
    Begin,
    SignReturned(Option<Seq<char>>),
    UnlockReturned(Option<Seq<char>>),
}

/// An action as contracts see it.
pub enum ActionView {
    Sign,
    Unlock,
    Finish(Option<Seq<u8>>),
}

impl View for BackendEvent {
    type V = EventView;

    open spec fn view(&self) -> EventView {
        match self {
            BackendEvent::Begin => EventView::Begin,
            BackendEvent::SignReturned(o) => EventView::SignReturned(opt_text(*o)),
            BackendEvent::UnlockReturned(o) => EventView::UnlockReturned(opt_text(*o)),
        }
    }
}

impl View for BackendAction {
    type V = ActionView;

    open spec fn view(&self) -> ActionView {
        match self {
            BackendAction::Sign => ActionView::Sign,
            BackendAction::Unlock => ActionView::Unlock,
            BackendAction::Finish(s) => ActionView::Finish(opt_bytes(s)),
        }
    }
}

/// The next phase and action of a sign attempt after an event. An event that
/// does not fit the phase ends the attempt without a signature.
pub open spec fn sign_step(phase: SignPhase, event: EventView) -> (SignPhase, ActionView) {
    match (phase, event) {
        (SignPhase::Start, EventView::Begin) => (SignPhase::FirstSign, ActionView::Sign),
        (SignPhase::FirstSign, EventView::SignReturned(o)) => match sign_outcome(o) {
            Some(s) => if s.len() > 0 {
                (SignPhase::Done, ActionView::Finish(Some(s)))
            } else {
                (SignPhase::Unlocking, ActionView::Unlock)
            },
            None => (SignPhase::Done, ActionView::Finish(None)),
        },
        (SignPhase::Unlocking, EventView::UnlockReturned(o)) => if unlock_succeeded(o) {
            (SignPhase::SecondSign, ActionView::Sign)
        } else {
            (SignPhase::Done, ActionView::Finish(None))
        },
        (SignPhase::SecondSign, EventView::SignReturned(o)) => match sign_outcome(o) {
            Some(s) => if s.len() > 0 {
                (SignPhase::Done, ActionView::Finish(Some(s)))
            } else {
                (SignPhase::Done, ActionView::Finish(None))
            },
            None => (SignPhase::Done, ActionView::Finish(None)),
        },
        _ => (SignPhase::Done, ActionView::Finish(None)),
    }
}

/// Takes a sign attempt one step: updates the phase and returns what to do.
pub fn sign(phase: &mut SignPhase, event: BackendEvent) -> (r: BackendAction)
    ensures
        (*final(phase), r@) == sign_step(*old(phase), event@),
{
    let current = *phase;
    match (current, event) {
        (SignPhase::Start, BackendEvent::Begin) => {
            *phase = SignPhase::FirstSign;
            BackendAction::Sign
        },
        (SignPhase::FirstSign, BackendEvent::SignReturned(o)) => match sign_output(&o) {
            SignOutput::Signature(s) => {
                *phase = SignPhase::Done;
                BackendAction::Finish(Some(s))
            },
            SignOutput::Declined => {
                *phase = SignPhase::Unlocking;
                BackendAction::Unlock
            },
            SignOutput::Failed => {
                *phase = SignPhase::Done;
                BackendAction::Finish(None)
            },
        },
        (SignPhase::Unlocking, BackendEvent::UnlockReturned(o)) => {
            if unlock_output(&o) {
                *phase = SignPhase::SecondSign;
                BackendAction::Sign
            } else {
                *phase = SignPhase::Done;
                BackendAction::Finish(None)
            }
        },
        (SignPhase::SecondSign, BackendEvent::SignReturned(o)) => match sign_output(&o) {
            SignOutput::Signature(s) => {
                *phase = SignPhase::Done;
                BackendAction::Finish(Some(s))
            },
            _ => {
                *phase = SignPhase::Done;
                BackendAction::Finish(None)
            },
        },
        _ => {
            *phase = SignPhase::Done;
            BackendAction::Finish(None)
        },
    }
}

/// The actions a sign attempt takes, from `phase`, over a sequence of events.
pub open spec fn sign_run(phase: SignPhase, events: Seq<EventView>) -> Seq<ActionView>
    decreases events.len(),
{
    if events.len() == 0 {
        seq![]
    } else {
        let (next, action) = sign_step(phase, events[0]);
        seq![action] + sign_run(next, events.drop_first())
    }
}

/// How many of the actions are unlock calls.
pub open spec fn unlock_count(actions: Seq<ActionView>) -> nat
    decreases actions.len(),
{
    if actions.len() == 0 {
        0
    } else {
        (if actions[0] is Unlock {
            1nat
        } else {
            0nat
        }) + unlock_count(actions.drop_first())
    }
}

/// How many of the actions are sign calls.
pub open spec fn sign_count(actions: Seq<ActionView>) -> nat
    decreases actions.len(),
{
    if actions.len() == 0 {
        0
    } else {
        (if actions[0] is Sign {
            1nat
        } else {
            0nat
        }) + sign_count(actions.drop_first())
    }
}

spec fn unlocks_left(phase: SignPhase) -> nat {
    match phase {
        SignPhase::Start | SignPhase::FirstSign => 1,
        _ => 0,
    }
}

spec fn signs_left(phase: SignPhase) -> nat {
    match phase {
        SignPhase::Start => 2,
        SignPhase::FirstSign | SignPhase::Unlocking => 1,
        _ => 0,
    }
}

proof fn lemma_run_bounds(phase: SignPhase, events: Seq<EventView>)
    ensures
        unlock_count(sign_run(phase, events)) <= unlocks_left(phase),
        sign_count(sign_run(phase, events)) <= signs_left(phase),
    decreases events.len(),
{
    if events.len() > 0 {
        let (next, action) = sign_step(phase, events[0]);
        lemma_run_bounds(next, events.drop_first());
        let run = sign_run(phase, events);
        assert(run.drop_first() =~= sign_run(next, events.drop_first()));
        assert(run[0] == action);
    }
}

/// However the backend answers, one sign attempt makes at most one unlock
/// call and at most two sign calls.
pub proof fn sign_attempt_is_bounded(events: Seq<EventView>)
    ensures
        unlock_count(sign_run(SignPhase::Start, events)) <= 1,
        sign_count(sign_run(SignPhase::Start, events)) <= 2,
{
    lemma_run_bounds(SignPhase::Start, events);
}

/// Two declined sign calls, with a successful unlock between them, make one
/// unlock call and end the attempt without a signature.
pub proof fn two_declines_end_in_failure(
    first: Option<Seq<char>>,
    unlock: Option<Seq<char>>,
    second: Option<Seq<char>>,
)
    requires
        sign_outcome(first) == Some(Seq::<u8>::empty()),
        unlock_succeeded(unlock),
        sign_outcome(second) == Some(Seq::<u8>::empty()),
    ensures
        sign_run(
            SignPhase::Start,
            seq![
                EventView::Begin,
                EventView::SignReturned(first),
                EventView::UnlockReturned(unlock),
                EventView::SignReturned(second),
            ],
        ) == seq![ActionView::Sign, ActionView::Unlock, ActionView::Sign, ActionView::Finish(None)],
{
    let events = seq![
        EventView::Begin,
        EventView::SignReturned(first),
        EventView::UnlockReturned(unlock),
        EventView::SignReturned(second),
    ];
    assert(events.drop_first().drop_first().drop_first().drop_first() =~= Seq::<EventView>::empty());
    reveal_with_fuel(sign_run, 5);
    assert(sign_run(SignPhase::Start, events) =~= seq![
        ActionView::Sign,
        ActionView::Unlock,
        ActionView::Sign,
        ActionView::Finish(None),
    ]);
}

} // verus!
