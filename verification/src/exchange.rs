//! One exchange with the endpoint, as a machine that the host drives.
//!
//! The host reports what happened as an [`Event`]; [`step`] answers with the
//! next phase and the [`Action`] to perform. The machine sends once, asks for
//! the body to be decoded once, and resolves once.

use crate::http::{build_request, request_for, HttpRequest, HttpRequestModel};
use vstd::prelude::*;

verus! {

/// Where an exchange stands.
#[derive(Clone, Copy, Debug, PartialEq, Eq, Structural)]
pub enum Phase {
    /// Nothing has been asked yet.
    Idle,
    /// The request was handed to the host; its response is awaited.
    AwaitingResponse,
    /// A response arrived; the decoding of its body is awaited.
    AwaitingBody,
    /// The exchange has its result. No event is accepted any more.
    Resolved,
}

/// Why an exchange failed, with the cause `E` that the host reported.
#[derive(Clone, Debug)]
pub enum BridgeError<E> {
    /// The host could not construct the request, as for a credential that is
    /// no legal header value.
    Construction(E),
    /// The network round-trip failed.
    Transport(E),
    /// The body of the response was not JSON, or ended early.
    Decode(E),
}

/// What the host reports. `J` is the host's decoded JSON value, `E` its
/// error value.
#[derive(Debug)]
pub enum Event<J, E> {
    /// The caller asks for a reply to `user_input`, with the credential `api_key`.
    Invoke { user_input: String, api_key: String },
    /// The host refused to construct the request.
    RequestRejected(E),
    /// The transport failed.
    TransportFailed(E),
    /// A response arrived, with whatever status the endpoint chose.
    ResponseArrived { status: u16 },
    /// The body was decoded as JSON.
    BodyDecoded(J),
    /// The body could not be decoded as JSON.
    BodyMalformed(E),
}

/// What the host is to do next.
#[derive(Debug)]
pub enum Action<J, E> {
    /// Dispatch this request and report the response or the failure.
    Send(HttpRequest),
    /// Decode the body of the response as JSON and report the outcome.
    DecodeBody,
    /// Hand this result to the caller.
    Resolve(Result<J, BridgeError<E>>),
}

/// An action, with the request to send taken by its view.
pub enum ActionModel<J, E> {
    Send(HttpRequestModel),
    DecodeBody,
    Resolve(Result<J, BridgeError<E>>),
}

impl<J, E> View for Action<J, E> {
    type V = ActionModel<J, E>;

    open spec fn view(&self) -> ActionModel<J, E> {
        match *self {
            Action::Send(request) => ActionModel::Send(request@),
            Action::DecodeBody => ActionModel::DecodeBody,
            Action::Resolve(result) => ActionModel::Resolve(result),
        }
    }
}

/// The answer of the machine in `phase` to `event`: the next phase and the
/// action, or `None` where the event does not belong to the phase.
///
/// A response leads to the decoding of its body whatever its status; a
/// decoded body is the result as it stands.
pub open spec fn step_spec<J, E>(phase: Phase, event: Event<J, E>) -> Option<
    (Phase, ActionModel<J, E>),
> {
    match (phase, event) {
        (Phase::Idle, Event::Invoke { user_input, api_key }) => Some(
            (Phase::AwaitingResponse, ActionModel::Send(request_for(user_input@, api_key@))),
        ),
        (Phase::AwaitingResponse, Event::RequestRejected(cause)) => Some(
            (Phase::Resolved, ActionModel::Resolve(Err(BridgeError::Construction(cause)))),
        ),
        (Phase::AwaitingResponse, Event::TransportFailed(cause)) => Some(
            (Phase::Resolved, ActionModel::Resolve(Err(BridgeError::Transport(cause)))),
        ),
        (Phase::AwaitingResponse, Event::ResponseArrived { status }) => Some(
            (Phase::AwaitingBody, ActionModel::DecodeBody),
        ),
        (Phase::AwaitingBody, Event::BodyDecoded(json)) => Some(
            (Phase::Resolved, ActionModel::Resolve(Ok(json))),
        ),
        (Phase::AwaitingBody, Event::BodyMalformed(cause)) => Some(
            (Phase::Resolved, ActionModel::Resolve(Err(BridgeError::Decode(cause)))),
        ),
        _ => None,
    }
}

/// Whether `out` is the answer that `step_spec` gives, the request of a
/// `Send` taken by its view.
pub open spec fn answers<J, E>(
    out: Option<(Phase, Action<J, E>)>,
    expected: Option<(Phase, ActionModel<J, E>)>,
) -> bool {
    match out {
        Some((next, action)) => expected == Some((next, action@)),
        None => expected is None,
    }
}

/// Advances an exchange by one event. Returns the next phase and the action
/// for the host, or `None`, with nothing changed, where the event does not
/// belong to the phase.
pub fn step<J, E>(phase: Phase, event: Event<J, E>) -> (out: Option<(Phase, Action<J, E>)>)
    ensures
        answers(out, step_spec(phase, event)),
{
    match phase {
        Phase::Idle => match event {
            Event::Invoke { user_input, api_key } => {
                let request = build_request(user_input.as_str(), api_key.as_str());
                Some((Phase::AwaitingResponse, Action::Send(request)))
            },
            _ => None,
        },
        Phase::AwaitingResponse => match event {
            Event::RequestRejected(cause) => Some(
                (Phase::Resolved, Action::Resolve(Err(BridgeError::Construction(cause)))),
            ),
            Event::TransportFailed(cause) => Some(
                (Phase::Resolved, Action::Resolve(Err(BridgeError::Transport(cause)))),
            ),
            Event::ResponseArrived { status: _ } => Some((Phase::AwaitingBody, Action::DecodeBody)),
            _ => None,
        },
        Phase::AwaitingBody => match event {
            Event::BodyDecoded(json) => Some((Phase::Resolved, Action::Resolve(Ok(json)))),
            Event::BodyMalformed(cause) => Some(
                (Phase::Resolved, Action::Resolve(Err(BridgeError::Decode(cause)))),
            ),
            _ => None,
        },
        Phase::Resolved => None,
    }
}

/// The phase reached from `phase` by the events in order, and the actions
/// asked for on the way. An event that does not belong to the phase it meets
/// changes nothing.
pub open spec fn run<J, E>(phase: Phase, events: Seq<Event<J, E>>) -> (Phase, Seq<ActionModel<J, E>>)
    decreases events.len(),
{
    if events.len() == 0 {
        (phase, Seq::empty())
    } else {
        match step_spec(phase, events[0]) {
            Some((next, action)) => {
                let rest = run(next, events.skip(1));
                (rest.0, seq![action] + rest.1)
            },
            None => run(phase, events.skip(1)),
        }
    }
}

/// How many of the actions dispatch a request.
pub open spec fn count_sends<J, E>(actions: Seq<ActionModel<J, E>>) -> nat
    decreases actions.len(),
{
    if actions.len() == 0 {
        0
    } else {
        count_sends(actions.skip(1)) + if actions[0] is Send {
            1nat
        } else {
            0nat
        }
    }
}

/// How many of the actions hand a result to the caller.
pub open spec fn count_resolves<J, E>(actions: Seq<ActionModel<J, E>>) -> nat
    decreases actions.len(),
{
    if actions.len() == 0 {
        0
    } else {
        count_resolves(actions.skip(1)) + if actions[0] is Resolve {
            1nat
        } else {
            0nat
        }
    }
}

/// A run that starts with `first` is the answer to `first` followed by the
/// run of the rest.
pub proof fn lemma_run_first<J, E>(phase: Phase, first: Event<J, E>, rest: Seq<Event<J, E>>)
    ensures
        run(phase, seq![first] + rest) == match step_spec(phase, first) {
            Some((next, action)) => (run(next, rest).0, seq![action] + run(next, rest).1),
            None => run(phase, rest),
        },
{
    let events = seq![first] + rest;
    assert(events[0] == first);
    assert(events.skip(1) =~= rest);
}

/// A resolved exchange stays resolved and asks for nothing more, whatever
/// is reported to it.
pub proof fn law_resolved_is_final<J, E>(events: Seq<Event<J, E>>)
    ensures
        run(Phase::Resolved, events) == (Phase::Resolved, Seq::<ActionModel<J, E>>::empty()),
    decreases events.len(),
{
    if events.len() > 0 {
        law_resolved_is_final(events.skip(1));
    }
}

/// A decoded body is the result, unchanged, whatever the status of the
/// response was; the request was sent once and nothing follows the result.
pub proof fn law_response_passes_through<J, E>(
    user_input: String,
    api_key: String,
    status: u16,
    json: J,
    later: Seq<Event<J, E>>,
)
    ensures
        run(
            Phase::Idle,
            seq![
                Event::Invoke { user_input, api_key },
                Event::ResponseArrived { status },
                Event::BodyDecoded(json),
            ] + later,
        ) == (
            Phase::Resolved,
            seq![
                ActionModel::<J, E>::Send(request_for(user_input@, api_key@)),
                ActionModel::DecodeBody,
                ActionModel::Resolve(Ok(json)),
            ],
        ),
{
    let e0 = Event::<J, E>::Invoke { user_input, api_key };
    let e1 = Event::<J, E>::ResponseArrived { status };
    let e2 = Event::<J, E>::BodyDecoded(json);
    let a0 = ActionModel::<J, E>::Send(request_for(user_input@, api_key@));
    let a1 = ActionModel::<J, E>::DecodeBody;
    let a2 = ActionModel::<J, E>::Resolve(Ok(json));
    law_resolved_is_final(later);
    lemma_run_first(Phase::AwaitingBody, e2, later);
    lemma_run_first(Phase::AwaitingResponse, e1, seq![e2] + later);
    lemma_run_first(Phase::Idle, e0, seq![e1] + (seq![e2] + later));
    assert(seq![e0, e1, e2] + later =~= seq![e0] + (seq![e1] + (seq![e2] + later)));
    assert(seq![a0, a1, a2] =~= seq![a0] + (seq![a1] + (seq![a2] + Seq::empty())));
}

/// A failed transport fails the exchange with the host's cause, classified
/// as a transport failure. The request was sent once: no event that follows
/// makes the machine send again.
pub proof fn law_transport_failure_is_final<J, E>(
    user_input: String,
    api_key: String,
    cause: E,
    later: Seq<Event<J, E>>,
)
    ensures
        run(
            Phase::Idle,
            seq![Event::Invoke { user_input, api_key }, Event::TransportFailed(cause)] + later,
        ) == (
            Phase::Resolved,
            seq![
                ActionModel::<J, E>::Send(request_for(user_input@, api_key@)),
                ActionModel::Resolve(Err(BridgeError::Transport(cause))),
            ],
        ),
{
    let e0 = Event::<J, E>::Invoke { user_input, api_key };
    let e1 = Event::<J, E>::TransportFailed(cause);
    let a0 = ActionModel::<J, E>::Send(request_for(user_input@, api_key@));
    let a1 = ActionModel::<J, E>::Resolve(Err(BridgeError::Transport(cause)));
    law_resolved_is_final(later);
    lemma_run_first(Phase::AwaitingResponse, e1, later);
    lemma_run_first(Phase::Idle, e0, seq![e1] + later);
    assert(seq![e0, e1] + later =~= seq![e0] + (seq![e1] + later));
    assert(seq![a0, a1] =~= seq![a0] + (seq![a1] + Seq::empty()));
}

/// A request that the host refuses to construct fails the exchange with the
/// host's cause, classified as a construction failure, and nothing follows.
pub proof fn law_rejected_request_is_final<J, E>(
    user_input: String,
    api_key: String,
    cause: E,
    later: Seq<Event<J, E>>,
)
    ensures
        run(
            Phase::Idle,
            seq![Event::Invoke { user_input, api_key }, Event::RequestRejected(cause)] + later,
        ) == (
            Phase::Resolved,
            seq![
                ActionModel::<J, E>::Send(request_for(user_input@, api_key@)),
                ActionModel::Resolve(Err(BridgeError::Construction(cause))),
            ],
        ),
{
    let e0 = Event::<J, E>::Invoke { user_input, api_key };
    let e1 = Event::<J, E>::RequestRejected(cause);
    let a0 = ActionModel::<J, E>::Send(request_for(user_input@, api_key@));
    let a1 = ActionModel::<J, E>::Resolve(Err(BridgeError::Construction(cause)));
    law_resolved_is_final(later);
    lemma_run_first(Phase::AwaitingResponse, e1, later);
    lemma_run_first(Phase::Idle, e0, seq![e1] + later);
    assert(seq![e0, e1] + later =~= seq![e0] + (seq![e1] + later));
    assert(seq![a0, a1] =~= seq![a0] + (seq![a1] + Seq::empty()));
}

/// A body that cannot be decoded fails the exchange with the host's cause,
/// classified as a decode failure, whatever the status of the response was.
pub proof fn law_malformed_body_is_decode_error<J, E>(
    user_input: String,
    api_key: String,
    status: u16,
    cause: E,
    later: Seq<Event<J, E>>,
)
    ensures
        run(
            Phase::Idle,
            seq![
                Event::Invoke { user_input, api_key },
                Event::ResponseArrived { status },
                Event::BodyMalformed(cause),
            ] + later,
        ) == (
            Phase::Resolved,
            seq![
                ActionModel::<J, E>::Send(request_for(user_input@, api_key@)),
                ActionModel::DecodeBody,
                ActionModel::Resolve(Err(BridgeError::Decode(cause))),
            ],
        ),
{
    let e0 = Event::<J, E>::Invoke { user_input, api_key };
    let e1 = Event::<J, E>::ResponseArrived { status };
    let e2 = Event::<J, E>::BodyMalformed(cause);
    let a0 = ActionModel::<J, E>::Send(request_for(user_input@, api_key@));
    let a1 = ActionModel::<J, E>::DecodeBody;
    let a2 = ActionModel::<J, E>::Resolve(Err(BridgeError::Decode(cause)));
    law_resolved_is_final(later);
    lemma_run_first(Phase::AwaitingBody, e2, later);
    lemma_run_first(Phase::AwaitingResponse, e1, seq![e2] + later);
    lemma_run_first(Phase::Idle, e0, seq![e1] + (seq![e2] + later));
    assert(seq![e0, e1, e2] + later =~= seq![e0] + (seq![e1] + (seq![e2] + later)));
    assert(seq![a0, a1, a2] =~= seq![a0] + (seq![a1] + (seq![a2] + Seq::empty())));
}

/// From any phase and under any events, the machine sends only from `Idle`
/// and then once, and resolves at most once, never from `Resolved`.
pub proof fn lemma_run_counts<J, E>(phase: Phase, events: Seq<Event<J, E>>)
    ensures
        count_sends(run(phase, events).1) <= if phase == Phase::Idle {
            1nat
        } else {
            0nat
        },
        count_resolves(run(phase, events).1) <= if phase == Phase::Resolved {
            0nat
        } else {
            1nat
        },
        run(phase, events).0 == Phase::Resolved ==> phase == Phase::Resolved || count_resolves(
            run(phase, events).1,
        ) == 1,
    decreases events.len(),
{
    if events.len() > 0 {
        match step_spec(phase, events[0]) {
            Some((next, action)) => {
                let rest = run(next, events.skip(1));
                lemma_run_counts(next, events.skip(1));
                assert((seq![action] + rest.1).skip(1) =~= rest.1);
            },
            None => {
                lemma_run_counts(phase, events.skip(1));
            },
        }
    }
}

/// Whatever is reported to a fresh exchange, and in whatever order, it
/// dispatches at most one request and hands over at most one result; once
/// resolved, it has handed over exactly one.
pub proof fn law_sends_and_resolves_once<J, E>(events: Seq<Event<J, E>>)
    ensures
        count_sends(run(Phase::Idle, events).1) <= 1,
        count_resolves(run(Phase::Idle, events).1) <= 1,
        run(Phase::Idle, events).0 == Phase::Resolved ==> count_resolves(
            run(Phase::Idle, events).1,
        ) == 1,
{
    lemma_run_counts(Phase::Idle, events);
}

} // verus!
