//! Live streams of board events.
//!
//! A stream opens with a cutover, follows one or more topics, and sends a
//! heartbeat now and then. Before each wait it looks at the clock: an expired
//! token ends it, and on a private board so does a permission that was taken
//! away. An error is always the last thing on a stream.
use crate::clock::unix_millis;
use crate::context::AuthContext;
use crate::status::{fault, Code, Status, StatusView};
use crate::timestamp::Timestamp;
use vstd::prelude::*;
use vstd::string::*;

verus! {

/// What an envelope of the stream's own carries.
#[derive(Clone, Copy, Debug, PartialEq, Eq, Structural)]
pub enum EnvelopePayload {
    /// Events up to this sequence number have been replayed.
    Cutover { last_replay_nats_seq: u64 },
    /// The stream is alive.
    Heartbeat { server_time_ms: u64 },
}

/// An envelope that the stream makes itself.
#[derive(Debug)]
pub struct BoardEventEnvelope {
    pub board_id: String,
    pub event_id: String,
    pub nats_seq: u64,
    pub board_revision: u64,
    pub emitted_at: Option<Timestamp>,
    pub emitter_pod_id: String,
    pub actor_subject: String,
    pub payload: EnvelopePayload,
}

/// `e` comes from the system, is no event of a board and carries `payload`.
pub open spec fn is_system_envelope(e: BoardEventEnvelope, payload: EnvelopePayload) -> bool {
    &&& e.board_id@.len() == 0
    &&& e.event_id@.len() == 0
    &&& e.nats_seq == 0
    &&& e.board_revision == 0
    &&& e.emitted_at is None
    &&& e.emitter_pod_id@.len() == 0
    &&& e.actor_subject@ == "system"@
    &&& e.payload == payload
}

fn system_envelope(payload: EnvelopePayload) -> (r: BoardEventEnvelope)
    ensures
        is_system_envelope(r, payload),
{
    BoardEventEnvelope {
        board_id: String::new(),
        event_id: String::new(),
        nats_seq: 0,
        board_revision: 0,
        emitted_at: None,
        emitter_pod_id: String::new(),
        actor_subject: "system".to_owned(),
        payload,
    }
}

/// The envelope that says up to where events have been replayed.
pub fn cutover_envelope(last_replay_nats_seq: u64) -> (r: BoardEventEnvelope)
    ensures
        is_system_envelope(r, (EnvelopePayload::Cutover { last_replay_nats_seq })),
{
    system_envelope(EnvelopePayload::Cutover { last_replay_nats_seq })
}

/// The envelope that says that the stream was alive at the given time.
pub fn heartbeat_at(server_time_ms: u64) -> (r: BoardEventEnvelope)
    ensures
        is_system_envelope(r, (EnvelopePayload::Heartbeat { server_time_ms })),
{
    system_envelope(EnvelopePayload::Heartbeat { server_time_ms })
}

/// The envelope that says that the stream is alive now.
pub fn heartbeat_envelope() -> (r: BoardEventEnvelope)
    ensures
        r.payload is Heartbeat,
        is_system_envelope(r, r.payload),
{
    heartbeat_at(unix_millis())
}

/// The token has not expired: its expiry, where it has one, is in the future.
pub open spec fn is_live(expires_at: Option<i64>, now: i64) -> bool {
    match expires_at {
        Some(exp) => now < exp,
        None => true,
    }
}

/// Whether the caller's token is still good at the time `now`, in seconds since
/// the Unix epoch. A token that was revoked never gets here.
pub fn revalidate_token(auth: &AuthContext, now: i64) -> (r: bool)
    ensures
        r == is_live(auth.exp, now),
{
    live(auth.exp, now)
}

fn live(expires_at: Option<i64>, now: i64) -> (r: bool)
    ensures
        r == is_live(expires_at, now),
{
    match expires_at {
        Some(exp) => now < exp,
        None => true,
    }
}

/// A stream's settings.
#[derive(Debug)]
pub struct StreamConfig {
    /// What to follow, in order.
    pub topics: Vec<String>,
    /// The kind of object that the permission to follow is held on.
    pub namespace: &'static str,
    /// The object that the permission to follow is held on.
    pub object_id: String,
    /// The caller; empty where the token names none.
    pub subject: String,
    /// When the token expires, where that ends the stream.
    pub expires_at: Option<i64>,
    pub is_private: bool,
    /// How long a permission is good for.
    pub recheck_interval_ms: u64,
}

/// Where a stream is.
#[derive(Clone, Copy, Debug, PartialEq, Eq, Structural)]
pub enum Phase {
    Opening,
    /// Following the topics; so many are followed already.
    Subscribing(usize),
    /// About to look at the clock.
    Checking,
    /// Waiting for the permission backend.
    Rechecking,
    /// Waiting for an event or a heartbeat.
    Waiting,
    Ended,
}

/// A stream's state.
#[derive(Clone, Copy, Debug, PartialEq, Eq, Structural)]
pub struct StreamState {
    pub phase: Phase,
    /// When the permission was last known to hold, on a clock that only goes
    /// forward.
    pub checked_at_ms: u64,
}

/// What the tracker of replayed events says of a live event.
#[derive(Clone, Copy, Debug, PartialEq, Eq, Structural)]
pub enum Outcome {
    Emit,
    Drop,
    OutOfOrder,
}

/// What happened.
#[derive(Debug)]
pub enum StreamInput {
    /// The stream was asked for its first item.
    Open,
    Subscribed { at_ms: u64 },
    SubscribeFailed { error: String },
    /// The clocks were read.
    Clock { now: i64, at_ms: u64 },
    Granted { at_ms: u64 },
    Revoked,
    CheckFailed,
    /// An event came.
    Live(Outcome),
    /// Events were lost because the stream was too slow.
    Lagged,
    /// There will be no more events.
    Closed,
    /// A heartbeat is due.
    Tick { server_time_ms: u64 },
}

/// What goes out on the stream.
#[derive(Debug)]
pub enum StreamItem {
    Envelope(BoardEventEnvelope),
    /// The event that came.
    Event,
    Fault(Status),
}

/// What the stream needs next.
#[derive(Debug)]
pub enum StreamNext {
    Subscribe { topic: String },
    ReadClock,
    CheckPermission {
        namespace: &'static str,
        object_id: String,
        relation: &'static str,
        subject: String,
    },
    /// Wait for an event or a heartbeat.
    Wait,
    Stop,
}

/// One step of a stream.
#[derive(Debug)]
pub struct StreamStep {
    pub state: StreamState,
    pub item: Option<StreamItem>,
    pub next: StreamNext,
}

/// A new stream.
pub fn new_stream() -> (r: StreamState)
    ensures
        r == (StreamState { phase: Phase::Opening, checked_at_ms: 0 }),
{
    StreamState { phase: Phase::Opening, checked_at_ms: 0 }
}

/// The stream ends without a word.
pub open spec fn ends(r: StreamStep, state: StreamState) -> bool {
    &&& r.state == (StreamState { phase: Phase::Ended, checked_at_ms: state.checked_at_ms })
    &&& r.item is None
    &&& r.next is Stop
}

/// The stream ends with an error.
pub open spec fn fails(r: StreamStep, state: StreamState, f: StatusView) -> bool {
    &&& r.state == (StreamState { phase: Phase::Ended, checked_at_ms: state.checked_at_ms })
    &&& r.item matches Some(StreamItem::Fault(e)) && e@ == f
    &&& r.next is Stop
}

/// The stream looks at the clock next.
pub open spec fn goes_on(r: StreamStep, checked_at_ms: u64) -> bool {
    &&& r.state == (StreamState { phase: Phase::Checking, checked_at_ms })
    &&& r.next is ReadClock
}

/// The stream follows topic `i`, or, where it follows all, looks at the clock.
pub open spec fn follows(r: StreamStep, config: StreamConfig, i: int, checked_at_ms: u64) -> bool {
    if i < config.topics.len() {
        &&& r.state == (StreamState { phase: Phase::Subscribing(i as usize), checked_at_ms })
        &&& r.next == (StreamNext::Subscribe { topic: config.topics@[i] })
    } else {
        goes_on(r, checked_at_ms)
    }
}

/// How long after `since` the time `at` is; nothing where the clock was set
/// back.
pub open spec fn elapsed(at: u64, since: u64) -> int {
    if at >= since {
        at - since
    } else {
        0
    }
}

/// The permission is due to be checked again: only on a private board, and only
/// once the time it is good for has passed.
pub open spec fn recheck_due(config: StreamConfig, state: StreamState, at_ms: u64) -> bool {
    config.is_private && elapsed(at_ms, state.checked_at_ms) >= config.recheck_interval_ms
}

/// Step `r` is what `input` leads to.
pub open spec fn leads_to(
    config: StreamConfig,
    state: StreamState,
    input: StreamInput,
    r: StreamStep,
) -> bool {
    match (state.phase, input) {
        (Phase::Opening, StreamInput::Open) => {
            &&& follows(r, config, 0, state.checked_at_ms)
            &&& r.item matches Some(StreamItem::Envelope(e)) && is_system_envelope(
                e,
                (EnvelopePayload::Cutover { last_replay_nats_seq: 0 }),
            )
        },
        (Phase::Subscribing(i), StreamInput::Subscribed { at_ms }) => {
            &&& follows(r, config, i + 1, at_ms)
            &&& r.item is None
        },
        (Phase::Subscribing(_), StreamInput::SubscribeFailed { error }) => fails(
            r,
            state,
            StatusView { code: Code::Internal, message: "subscribe: "@ + error@ },
        ),
        (Phase::Checking, StreamInput::Clock { now, at_ms }) => if !is_live(
            config.expires_at,
            now,
        ) {
            fails(r, state, fault(Code::Unauthenticated, "token expired"))
        } else if recheck_due(config, state, at_ms) {
            &&& r.state == (StreamState { phase: Phase::Rechecking, ..state })
            &&& r.item is None
            &&& r.next matches StreamNext::CheckPermission {
                namespace,
                object_id,
                relation,
                subject,
            } && namespace == config.namespace && object_id == config.object_id && relation@
                == "view"@ && subject == config.subject
        } else {
            &&& r.state == (StreamState { phase: Phase::Waiting, ..state })
            &&& r.item is None
            &&& r.next is Wait
        },
        (Phase::Rechecking, StreamInput::Granted { at_ms }) => {
            &&& r.state == (StreamState { phase: Phase::Waiting, checked_at_ms: at_ms })
            &&& r.item is None
            &&& r.next is Wait
        },
        (Phase::Rechecking, StreamInput::Revoked) => fails(
            r,
            state,
            fault(Code::PermissionDenied, "permission revoked mid-stream"),
        ),
        (Phase::Rechecking, StreamInput::CheckFailed) => fails(
            r,
            state,
            fault(Code::Internal, "authorization check failed"),
        ),
        (Phase::Waiting, StreamInput::Live(outcome)) => {
            &&& goes_on(r, state.checked_at_ms)
            &&& r.item == if outcome == Outcome::Emit {
                Some(StreamItem::Event)
            } else {
                None
            }
        },
        (Phase::Waiting, StreamInput::Lagged) => fails(
            r,
            state,
            fault(Code::ResourceExhausted, "stream lagged; reconnect with last seq"),
        ),
        (Phase::Waiting, StreamInput::Tick { server_time_ms }) => {
            &&& goes_on(r, state.checked_at_ms)
            &&& r.item matches Some(StreamItem::Envelope(e)) && is_system_envelope(
                e,
                (EnvelopePayload::Heartbeat { server_time_ms }),
            )
        },
        _ => ends(r, state),
    }
}

fn end(state: &StreamState, item: Option<StreamItem>) -> (r: StreamStep)
    ensures
        r.state == (StreamState { phase: Phase::Ended, checked_at_ms: state.checked_at_ms }),
        r.item == item,
        r.next is Stop,
{
    StreamStep {
        state: StreamState { phase: Phase::Ended, checked_at_ms: state.checked_at_ms },
        item,
        next: StreamNext::Stop,
    }
}

fn go_on(checked_at_ms: u64, item: Option<StreamItem>) -> (r: StreamStep)
    ensures
        goes_on(r, checked_at_ms),
        r.item == item,
{
    StreamStep {
        state: StreamState { phase: Phase::Checking, checked_at_ms },
        item,
        next: StreamNext::ReadClock,
    }
}

fn follow(config: &StreamConfig, i: usize, checked_at_ms: u64, item: Option<StreamItem>) -> (r:
    StreamStep)
    ensures
        follows(r, *config, i as int, checked_at_ms),
        r.item == item,
{
    if i < config.topics.len() {
        StreamStep {
            state: StreamState { phase: Phase::Subscribing(i), checked_at_ms },
            item,
            next: StreamNext::Subscribe { topic: config.topics[i].clone() },
        }
    } else {
        go_on(checked_at_ms, item)
    }
}

fn check(config: &StreamConfig, state: &StreamState, now: i64, at_ms: u64) -> (r: StreamStep)
    requires
        state.phase == Phase::Checking,
    ensures
        leads_to(*config, *state, (StreamInput::Clock { now, at_ms }), r),
{
    if !live(config.expires_at, now) {
        return end(state, Some(StreamItem::Fault(Status::unauthenticated("token expired"))));
    }
    if config.is_private && at_ms.saturating_sub(state.checked_at_ms)
        >= config.recheck_interval_ms {
        return StreamStep {
            state: StreamState { phase: Phase::Rechecking, checked_at_ms: state.checked_at_ms },
            item: None,
            next: StreamNext::CheckPermission {
                namespace: config.namespace,
                object_id: config.object_id.clone(),
                relation: "view",
                subject: config.subject.clone(),
            },
        };
    }
    StreamStep {
        state: StreamState { phase: Phase::Waiting, checked_at_ms: state.checked_at_ms },
        item: None,
        next: StreamNext::Wait,
    }
}

/// Takes a stream one step further. What cannot happen in its state ends it.
pub fn advance(config: &StreamConfig, state: &StreamState, input: StreamInput) -> (r: StreamStep)
    ensures
        leads_to(*config, *state, input, r),
{
    match (state.phase, input) {
        (Phase::Opening, StreamInput::Open) => follow(
            config,
            0,
            state.checked_at_ms,
            Some(StreamItem::Envelope(cutover_envelope(0))),
        ),
        (Phase::Subscribing(i), StreamInput::Subscribed { at_ms }) => if i < config.topics.len() {
            follow(config, i + 1, at_ms, None)
        } else {
            go_on(at_ms, None)
        },
        (Phase::Subscribing(_), StreamInput::SubscribeFailed { error }) => {
            let mut message: String = "subscribe: ".to_owned();
            message.append(error.as_str());
            end(state, Some(StreamItem::Fault(Status { code: Code::Internal, message })))
        },
        (Phase::Checking, StreamInput::Clock { now, at_ms }) => check(config, state, now, at_ms),
        (Phase::Rechecking, StreamInput::Granted { at_ms }) => StreamStep {
            state: StreamState { phase: Phase::Waiting, checked_at_ms: at_ms },
            item: None,
            next: StreamNext::Wait,
        },
        (Phase::Rechecking, StreamInput::Revoked) => end(
            state,
            Some(StreamItem::Fault(Status::permission_denied("permission revoked mid-stream"))),
        ),
        (Phase::Rechecking, StreamInput::CheckFailed) => end(
            state,
            Some(StreamItem::Fault(Status::internal("authorization check failed"))),
        ),
        (Phase::Waiting, StreamInput::Live(outcome)) => go_on(
            state.checked_at_ms,
            if outcome == Outcome::Emit {
                Some(StreamItem::Event)
            } else {
                None
            },
        ),
        (Phase::Waiting, StreamInput::Lagged) => end(
            state,
            Some(
                StreamItem::Fault(
                    Status::new(
                        Code::ResourceExhausted,
                        "stream lagged; reconnect with last seq",
                    ),
                ),
            ),
        ),
        (Phase::Waiting, StreamInput::Tick { server_time_ms }) => go_on(
            state.checked_at_ms,
            Some(StreamItem::Envelope(heartbeat_at(server_time_ms))),
        ),
        _ => end(state, None),
    }
}

/// The first item of every stream is a cutover with nothing replayed.
pub proof fn law_stream_opens_with_cutover(config: StreamConfig, state: StreamState, r: StreamStep)
    requires
        state.phase == Phase::Opening,
        leads_to(config, state, StreamInput::Open, r),
    ensures
        r.item matches Some(StreamItem::Envelope(e)) && is_system_envelope(
            e,
            (EnvelopePayload::Cutover { last_replay_nats_seq: 0 }),
        ),
{
}

/// An error is the last item of a stream: with it the stream ends, and an ended
/// stream sends nothing more.
pub proof fn law_nothing_follows_an_error(
    config: StreamConfig,
    state: StreamState,
    input: StreamInput,
    r: StreamStep,
)
    requires
        leads_to(config, state, input, r),
    ensures
        r.item matches Some(StreamItem::Fault(_)) ==> r.state.phase == Phase::Ended
            && r.next is Stop,
        state.phase == Phase::Ended ==> r.state.phase == Phase::Ended && r.item is None
            && r.next is Stop,
{
}

/// An event goes out only from a stream that waits, and a stream waits only
/// after it has found the token good.
pub proof fn law_no_event_without_a_good_token(
    config: StreamConfig,
    state: StreamState,
    input: StreamInput,
    r: StreamStep,
)
    requires
        leads_to(config, state, input, r),
    ensures
        r.item matches Some(StreamItem::Event) ==> state.phase == Phase::Waiting
            && r.next is ReadClock,
        state.phase == Phase::Checking && r.state.phase != Phase::Ended ==> (
        input matches StreamInput::Clock { now, .. } && is_live(config.expires_at, now)),
        r.state.phase == Phase::Waiting ==> state.phase == Phase::Checking || state.phase
            == Phase::Rechecking,
        r.state.phase == Phase::Rechecking ==> state.phase == Phase::Checking,
{
}

/// A stream of a board that is not private never asks for a permission.
pub proof fn law_open_board_is_never_rechecked(
    config: StreamConfig,
    state: StreamState,
    input: StreamInput,
    r: StreamStep,
)
    requires
        !config.is_private,
        leads_to(config, state, input, r),
    ensures
        !(r.next is CheckPermission),
{
}

/// On a private board no wait begins with a permission older than it is good
/// for, on a clock that only goes forward.
pub proof fn law_private_board_is_rechecked(
    config: StreamConfig,
    state: StreamState,
    now: i64,
    at_ms: u64,
    r: StreamStep,
)
    requires
        config.is_private,
        state.phase == Phase::Checking,
        state.checked_at_ms <= at_ms,
        leads_to(config, state, (StreamInput::Clock { now, at_ms }), r),
    ensures
        r.next is Wait ==> at_ms - r.state.checked_at_ms < config.recheck_interval_ms,
{
}

/// An envelope of the system itself names no board and no event, and carries
/// what it is for.
pub proof fn law_system_envelope_names_nothing(e: BoardEventEnvelope, payload: EnvelopePayload)
    requires
        is_system_envelope(e, payload),
    ensures
        e.board_id@.len() == 0,
        e.event_id@.len() == 0,
        e.nats_seq == 0,
        e.board_revision == 0,
        e.emitted_at is None,
        e.emitter_pod_id@.len() == 0,
        e.actor_subject@ == "system"@,
        e.payload == payload,
{
}

/// A token is good until the second in which it expires, and one that never
/// expires is always good. A permission is asked again once it is as old as the
/// interval, of a private board only.
pub proof fn law_token_and_permission_run_out(
    expires_at: Option<i64>,
    now: i64,
    config: StreamConfig,
    state: StreamState,
    at_ms: u64,
)
    ensures
        expires_at is None ==> is_live(expires_at, now),
        expires_at is Some ==> (is_live(expires_at, now) <==> now < expires_at->Some_0),
        !config.is_private ==> !recheck_due(config, state, at_ms),
        config.is_private && at_ms >= state.checked_at_ms ==> (recheck_due(config, state, at_ms)
            <==> at_ms - state.checked_at_ms >= config.recheck_interval_ms),
        config.is_private && at_ms < state.checked_at_ms ==> (recheck_due(config, state, at_ms)
            <==> config.recheck_interval_ms == 0),
{
}

/// A stream follows all its topics, one after the other in their order, before
/// it looks at the clock for the first time.
pub proof fn law_all_topics_are_followed_in_order(
    config: StreamConfig,
    state: StreamState,
    r: StreamStep,
    i: usize,
    at_ms: u64,
)
    requires
        i < usize::MAX,
    ensures
        state.phase == Phase::Opening && leads_to(config, state, StreamInput::Open, r) ==> {
            &&& r.state.checked_at_ms == state.checked_at_ms
            &&& config.topics.len() > 0 ==> r.next == (StreamNext::Subscribe {
                topic: config.topics[0],
            }) && r.state.phase == Phase::Subscribing(0)
            &&& config.topics.len() == 0 ==> r.next is ReadClock && r.state.phase
                == Phase::Checking
        },
        state.phase == Phase::Subscribing(i) && leads_to(
            config,
            state,
            (StreamInput::Subscribed { at_ms }),
            r,
        ) ==> {
            &&& r.item is None
            &&& r.state.checked_at_ms == at_ms
            &&& i + 1 < config.topics.len() ==> r.next == (StreamNext::Subscribe {
                topic: config.topics[i + 1],
            }) && r.state.phase == Phase::Subscribing((i + 1) as usize)
            &&& i + 1 >= config.topics.len() ==> r.next is ReadClock && r.state.phase
                == Phase::Checking
        },
{
}

/// A stream whose token and permission hold waits for what comes. It is asked
/// for the permission to view the object that it follows, on behalf of its
/// caller, and ends with an error where the token has run out, the permission is
/// taken away or cannot be asked.
pub proof fn law_stream_ends_with_token_or_permission(
    config: StreamConfig,
    state: StreamState,
    r: StreamStep,
    now: i64,
    at_ms: u64,
)
    ensures
        state.phase == Phase::Checking && leads_to(
            config,
            state,
            (StreamInput::Clock { now, at_ms }),
            r,
        ) ==> {
            &&& !is_live(config.expires_at, now) ==> r.next is Stop && r.state.phase == Phase::Ended
                && (r.item matches Some(StreamItem::Fault(e)) && e.code == Code::Unauthenticated
                && e.message@ == "token expired"@)
            &&& is_live(config.expires_at, now) && recheck_due(config, state, at_ms)
                ==> r.item is None && r.state == (StreamState {
                phase: Phase::Rechecking,
                checked_at_ms: state.checked_at_ms,
            }) && (r.next matches StreamNext::CheckPermission {
                namespace,
                object_id,
                relation,
                subject,
            } && namespace == config.namespace && object_id == config.object_id && relation@
                == "view"@ && subject == config.subject)
            &&& is_live(config.expires_at, now) && !recheck_due(config, state, at_ms)
                ==> r.item is None && r.next is Wait && r.state == (StreamState {
                phase: Phase::Waiting,
                checked_at_ms: state.checked_at_ms,
            })
        },
        state.phase == Phase::Rechecking && leads_to(
            config,
            state,
            (StreamInput::Granted { at_ms }),
            r,
        ) ==> r.item is None && r.next is Wait && r.state == (StreamState {
            phase: Phase::Waiting,
            checked_at_ms: at_ms,
        }),
        state.phase == Phase::Rechecking && leads_to(config, state, StreamInput::Revoked, r)
            ==> r.next is Stop && r.state.phase == Phase::Ended && (r.item matches Some(
            StreamItem::Fault(e),
        ) && e.code == Code::PermissionDenied && e.message@ == "permission revoked mid-stream"@),
        state.phase == Phase::Rechecking && leads_to(config, state, StreamInput::CheckFailed, r)
            ==> r.next is Stop && r.state.phase == Phase::Ended && (r.item matches Some(
            StreamItem::Fault(e),
        ) && e.code == Code::Internal && e.message@ == "authorization check failed"@),
{
}

/// A stream that waits passes on exactly the events that are to be emitted and
/// the heartbeats, each once, and looks at the clock again after each; one that
/// was too slow ends with an error, and one that is closed ends.
pub proof fn law_waiting_stream_passes_events_on(
    config: StreamConfig,
    state: StreamState,
    r: StreamStep,
    outcome: Outcome,
    server_time_ms: u64,
    error: String,
)
    ensures
        state.phase == Phase::Waiting && leads_to(config, state, StreamInput::Live(outcome), r)
            ==> {
            &&& r.next is ReadClock
            &&& r.state == (StreamState {
                phase: Phase::Checking,
                checked_at_ms: state.checked_at_ms,
            })
            &&& outcome == Outcome::Emit ==> r.item == Some(StreamItem::Event)
            &&& outcome != Outcome::Emit ==> r.item is None
        },
        state.phase == Phase::Waiting && leads_to(
            config,
            state,
            (StreamInput::Tick { server_time_ms }),
            r,
        ) ==> {
            &&& r.next is ReadClock
            &&& r.state == (StreamState {
                phase: Phase::Checking,
                checked_at_ms: state.checked_at_ms,
            })
            &&& r.item matches Some(StreamItem::Envelope(e)) && is_system_envelope(
                e,
                (EnvelopePayload::Heartbeat { server_time_ms }),
            )
        },
        state.phase == Phase::Waiting && leads_to(config, state, StreamInput::Lagged, r)
            ==> r.next is Stop && r.state.phase == Phase::Ended && (r.item matches Some(
            StreamItem::Fault(e),
        ) && e.code == Code::ResourceExhausted && e.message@
            == "stream lagged; reconnect with last seq"@),
        state.phase == Phase::Waiting && leads_to(config, state, StreamInput::Closed, r)
            ==> r.next is Stop && r.state.phase == Phase::Ended && r.item is None,
        state.phase == Phase::Subscribing(0) && leads_to(
            config,
            state,
            (StreamInput::SubscribeFailed { error }),
            r,
        ) ==> r.next is Stop && r.state.phase == Phase::Ended && (r.item matches Some(
            StreamItem::Fault(e),
        ) && e.code == Code::Internal && e.message@ == "subscribe: "@ + error@),
{
}

} // verus!
