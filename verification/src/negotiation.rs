use vstd::prelude::*;

verus! {

/// The Q-method state of one direction of one option (RFC 1143): disabled,
/// enabled, a request in flight, or a request in flight with the opposite
/// intent already queued behind it.
#[derive(Clone, Copy, Debug, Eq, PartialEq, Structural)]
pub enum NegotiationState {
    /// Disabled, no negotiation in flight.
    No,
    /// We sent a request to disable; awaiting the peer's reply.
    WantNo,
    /// While WantNo was pending, local intent flipped to enable.
    WantNoOpposite,
    /// Enabled, no negotiation in flight.
    Yes,
    /// We sent a request to enable; awaiting the peer's reply.
    WantYes,
    /// While WantYes was pending, local intent flipped to disable.
    WantYesOpposite,
}

/// What one negotiation event does to one direction: the state it leads to,
/// the frame to put on the wire (`Some(true)` a positive WILL or DO,
/// `Some(false)` a negative WONT or DONT), and whether the event was a
/// contradictory request or a protocol violation.
pub struct QStep {
    pub next: NegotiationState,
    pub emit: Option<bool>,
    pub error: bool,
}

/// A negotiation event for one direction of one option: a local intent to
/// enable or disable, or a received positive or negative reply together with
/// the direction's policy flag at that moment.
pub enum QEvent {
    /// `Intent(true)` asks to enable, `Intent(false)` to disable.
    Intent(bool),
    /// `Receive(positive, allowed)`: a peer frame for this direction;
    /// `allowed` is whether policy permits enabling the direction.
    Receive(bool, bool),
}

/// The transition on a local intent to enable (`enable`) or disable.
pub open spec fn spec_intent(s: NegotiationState, enable: bool) -> QStep {
    if enable {
        match s {
            NegotiationState::No => QStep { next: NegotiationState::WantYes, emit: Some(true), error: false },
            NegotiationState::Yes => QStep { next: NegotiationState::Yes, emit: None, error: false },
            NegotiationState::WantNo => QStep {
                next: NegotiationState::WantNoOpposite,
                emit: None,
                error: true,
            },
            NegotiationState::WantNoOpposite => QStep {
                next: NegotiationState::WantNoOpposite,
                emit: None,
                error: false,
            },
            NegotiationState::WantYes => QStep { next: NegotiationState::WantYes, emit: None, error: false },
            NegotiationState::WantYesOpposite => QStep {
                next: NegotiationState::WantYes,
                emit: None,
                error: false,
            },
        }
    } else {
        match s {
            NegotiationState::No => QStep { next: NegotiationState::No, emit: None, error: false },
            NegotiationState::Yes => QStep { next: NegotiationState::WantNo, emit: Some(false), error: false },
            NegotiationState::WantNo => QStep { next: NegotiationState::WantNo, emit: None, error: false },
            NegotiationState::WantNoOpposite => QStep {
                next: NegotiationState::WantNo,
                emit: None,
                error: false,
            },
            NegotiationState::WantYes => QStep {
                next: NegotiationState::WantYesOpposite,
                emit: None,
                error: true,
            },
            NegotiationState::WantYesOpposite => QStep {
                next: NegotiationState::WantYesOpposite,
                emit: None,
                error: false,
            },
        }
    }
}

/// The transition on a received reply: positive (WILL toward the remote
/// track, DO toward the local track) or negative (WONT, DONT).  `allowed`
/// is the policy flag for the direction.
pub open spec fn spec_receive(s: NegotiationState, positive: bool, allowed: bool) -> QStep {
    if positive {
        match s {
            NegotiationState::No => if allowed {
                QStep { next: NegotiationState::Yes, emit: Some(true), error: false }
            } else {
                QStep { next: NegotiationState::No, emit: Some(false), error: false }
            },
            NegotiationState::Yes => QStep { next: NegotiationState::Yes, emit: None, error: false },
            NegotiationState::WantYes => QStep { next: NegotiationState::Yes, emit: None, error: false },
            NegotiationState::WantYesOpposite => QStep {
                next: NegotiationState::WantNo,
                emit: Some(false),
                error: false,
            },
            NegotiationState::WantNo => QStep { next: NegotiationState::No, emit: None, error: true },
            NegotiationState::WantNoOpposite => QStep { next: NegotiationState::Yes, emit: None, error: true },
        }
    } else {
        match s {
            NegotiationState::No => QStep { next: NegotiationState::No, emit: None, error: false },
            NegotiationState::Yes => QStep { next: NegotiationState::No, emit: Some(false), error: false },
            NegotiationState::WantYes => QStep { next: NegotiationState::No, emit: None, error: false },
            NegotiationState::WantYesOpposite => QStep {
                next: NegotiationState::No,
                emit: None,
                error: false,
            },
            NegotiationState::WantNo => QStep { next: NegotiationState::No, emit: None, error: false },
            NegotiationState::WantNoOpposite => QStep {
                next: NegotiationState::Yes,
                emit: Some(true),
                error: false,
            },
        }
    }
}

/// One event, either kind.
pub open spec fn spec_apply(s: NegotiationState, event: QEvent) -> QStep {
    match event {
        QEvent::Intent(enable) => spec_intent(s, enable),
        QEvent::Receive(positive, allowed) => spec_receive(s, positive, allowed),
    }
}

/// A direction is settled when no negotiation is in flight.
pub open spec fn spec_is_terminal(s: NegotiationState) -> bool {
    s == NegotiationState::No || s == NegotiationState::Yes
}

/// How many outbound negotiation frames for this direction are awaiting a
/// peer reply: one while a request is in flight, none otherwise.
pub open spec fn spec_outstanding(s: NegotiationState) -> int {
    match s {
        NegotiationState::No => 0,
        NegotiationState::Yes => 0,
        _ => 1,
    }
}

/// How many peer replies this direction still needs before it settles: the
/// request in flight, plus one more exchange if the opposite intent is
/// queued behind it.
pub open spec fn spec_pending_replies(s: NegotiationState) -> nat {
    match s {
        NegotiationState::No => 0,
        NegotiationState::Yes => 0,
        NegotiationState::WantNo => 1,
        NegotiationState::WantYes => 1,
        NegotiationState::WantNoOpposite => 2,
        NegotiationState::WantYesOpposite => 2,
    }
}

/// The state after a sequence of received replies.
pub open spec fn spec_run_receives(s: NegotiationState, replies: Seq<(bool, bool)>) -> NegotiationState
    decreases replies.len(),
{
    if replies.len() == 0 {
        s
    } else {
        spec_run_receives(spec_receive(s, replies[0].0, replies[0].1).next, replies.skip(1))
    }
}

/// The exec transition on a local intent; its result is exactly the spec
/// transition table.
pub fn q_intent(s: NegotiationState, enable: bool) -> (r: QStep)
    ensures
        r == spec_intent(s, enable),
{
    if enable {
        match s {
            NegotiationState::No => QStep { next: NegotiationState::WantYes, emit: Some(true), error: false },
            NegotiationState::Yes => QStep { next: NegotiationState::Yes, emit: None, error: false },
            NegotiationState::WantNo => QStep {
                next: NegotiationState::WantNoOpposite,
                emit: None,
                error: true,
            },
            NegotiationState::WantNoOpposite => QStep {
                next: NegotiationState::WantNoOpposite,
                emit: None,
                error: false,
            },
            NegotiationState::WantYes => QStep { next: NegotiationState::WantYes, emit: None, error: false },
            NegotiationState::WantYesOpposite => QStep {
                next: NegotiationState::WantYes,
                emit: None,
                error: false,
            },
        }
    } else {
        match s {
            NegotiationState::No => QStep { next: NegotiationState::No, emit: None, error: false },
            NegotiationState::Yes => QStep { next: NegotiationState::WantNo, emit: Some(false), error: false },
            NegotiationState::WantNo => QStep { next: NegotiationState::WantNo, emit: None, error: false },
            NegotiationState::WantNoOpposite => QStep {
                next: NegotiationState::WantNo,
                emit: None,
                error: false,
            },
            NegotiationState::WantYes => QStep {
                next: NegotiationState::WantYesOpposite,
                emit: None,
                error: true,
            },
            NegotiationState::WantYesOpposite => QStep {
                next: NegotiationState::WantYesOpposite,
                emit: None,
                error: false,
            },
        }
    }
}

/// The exec transition on a received reply; its result is exactly the spec
/// transition table.
pub fn q_receive(s: NegotiationState, positive: bool, allowed: bool) -> (r: QStep)
    ensures
        r == spec_receive(s, positive, allowed),
{
    if positive {
        match s {
            NegotiationState::No => if allowed {
                QStep { next: NegotiationState::Yes, emit: Some(true), error: false }
            } else {
                QStep { next: NegotiationState::No, emit: Some(false), error: false }
            },
            NegotiationState::Yes => QStep { next: NegotiationState::Yes, emit: None, error: false },
            NegotiationState::WantYes => QStep { next: NegotiationState::Yes, emit: None, error: false },
            NegotiationState::WantYesOpposite => QStep {
                next: NegotiationState::WantNo,
                emit: Some(false),
                error: false,
            },
            NegotiationState::WantNo => QStep { next: NegotiationState::No, emit: None, error: true },
            NegotiationState::WantNoOpposite => QStep { next: NegotiationState::Yes, emit: None, error: true },
        }
    } else {
        match s {
            NegotiationState::No => QStep { next: NegotiationState::No, emit: None, error: false },
            NegotiationState::Yes => QStep { next: NegotiationState::No, emit: Some(false), error: false },
            NegotiationState::WantYes => QStep { next: NegotiationState::No, emit: None, error: false },
            NegotiationState::WantYesOpposite => QStep {
                next: NegotiationState::No,
                emit: None,
                error: false,
            },
            NegotiationState::WantNo => QStep { next: NegotiationState::No, emit: None, error: false },
            NegotiationState::WantNoOpposite => QStep {
                next: NegotiationState::Yes,
                emit: Some(true),
                error: false,
            },
        }
    }
}

/// Every received reply brings the direction strictly closer to settled,
/// and a settled direction stays settled.
pub proof fn lemma_receive_progress(s: NegotiationState, positive: bool, allowed: bool)
    ensures
        !spec_is_terminal(s) ==> spec_pending_replies(spec_receive(s, positive, allowed).next)
            < spec_pending_replies(s),
        spec_is_terminal(s) ==> spec_is_terminal(spec_receive(s, positive, allowed).next),
{
}

/// Q-method termination: once every reply the direction is waiting for has
/// arrived, the state is terminal (Yes or No) - however the peer replied,
/// and whatever the policy was at each reply.
pub proof fn lemma_negotiation_terminates(s: NegotiationState, replies: Seq<(bool, bool)>)
    requires
        replies.len() >= spec_pending_replies(s),
    ensures
        spec_is_terminal(spec_run_receives(s, replies)),
    decreases replies.len(),
{
    if replies.len() == 0 {
    } else {
        let next = spec_receive(s, replies[0].0, replies[0].1).next;
        lemma_receive_progress(s, replies[0].0, replies[0].1);
        if spec_is_terminal(next) {
            lemma_terminal_stays(next, replies.skip(1));
        } else {
            lemma_negotiation_terminates(next, replies.skip(1));
        }
    }
}

/// A settled direction only moves between the two settled states under
/// received replies.
pub proof fn lemma_terminal_stays(s: NegotiationState, replies: Seq<(bool, bool)>)
    requires
        spec_is_terminal(s),
    ensures
        spec_is_terminal(spec_run_receives(s, replies)),
    decreases replies.len(),
{
    if replies.len() > 0 {
        lemma_terminal_stays(spec_receive(s, replies[0].0, replies[0].1).next, replies.skip(1));
    }
}

/// The frame one event emits is a new request exactly when it leaves a
/// request in flight; a frame emitted while the direction settles is a
/// reply, not a request.
pub open spec fn spec_emits_request(s: NegotiationState, event: QEvent) -> int {
    let st = spec_apply(s, event);
    if st.emit is Some && !spec_is_terminal(st.next) {
        1
    } else {
        0
    }
}

/// A received reply answers our outstanding request exactly when one was in
/// flight.
pub open spec fn spec_answers_request(s: NegotiationState, event: QEvent) -> int {
    match event {
        QEvent::Intent(_) => 0,
        QEvent::Receive(_, _) => spec_outstanding(s),
    }
}

/// The state after a sequence of events of either kind.
pub open spec fn spec_run_events(s: NegotiationState, events: Seq<QEvent>) -> NegotiationState
    decreases events.len(),
{
    if events.len() == 0 {
        s
    } else {
        spec_run_events(spec_apply(s, events[0]).next, events.skip(1))
    }
}

/// The number of requests a sequence of events sends on the wire.
pub open spec fn spec_requests_sent(s: NegotiationState, events: Seq<QEvent>) -> int
    decreases events.len(),
{
    if events.len() == 0 {
        0
    } else {
        spec_emits_request(s, events[0]) + spec_requests_sent(spec_apply(s, events[0]).next, events.skip(1))
    }
}

/// The number of received replies that answer a request of ours.
pub open spec fn spec_requests_answered(s: NegotiationState, events: Seq<QEvent>) -> int
    decreases events.len(),
{
    if events.len() == 0 {
        0
    } else {
        spec_answers_request(s, events[0]) + spec_requests_answered(
            spec_apply(s, events[0]).next,
            events.skip(1),
        )
    }
}

/// One event's bookkeeping: what is outstanding afterwards is what was
/// outstanding before, minus the reply that answered it, plus the request
/// the event sent.
pub proof fn lemma_event_accounting(s: NegotiationState, event: QEvent)
    ensures
        spec_outstanding(spec_apply(s, event).next) == spec_outstanding(s) - spec_answers_request(s, event)
            + spec_emits_request(s, event),
{
}

/// At most one negotiation in flight: over any sequence of events from any
/// start, the requests sent and not yet answered are exactly what the final
/// state says is outstanding - never more than one.
pub proof fn lemma_at_most_one_in_flight(s: NegotiationState, events: Seq<QEvent>)
    ensures
        spec_requests_sent(s, events) - spec_requests_answered(s, events) == spec_outstanding(
            spec_run_events(s, events),
        ) - spec_outstanding(s),
        0 <= spec_outstanding(spec_run_events(s, events)) <= 1,
    decreases events.len(),
{
    if events.len() == 0 {
    } else {
        lemma_event_accounting(s, events[0]);
        lemma_at_most_one_in_flight(spec_apply(s, events[0]).next, events.skip(1));
    }
}

} // verus!
