//! The per-connection notification session: an explicit state machine fed
//! timer ticks, inbound frames and poll results, emitting messages and
//! control actions.

use vstd::prelude::*;
use crate::strfmt::{dec_str, spec_trim, str_eq, str_trim, usize_to_string};

verus! {

/// How often heartbeat pings are sent, in milliseconds.
pub const HEARTBEAT_INTERVAL_MS: u64 = 5000;

/// How long without a liveness signal before the session is torn down,
/// in milliseconds.
pub const CLIENT_TIMEOUT_MS: u64 = 10000;

/// How often state changes are polled for, in milliseconds.
pub const ALERT_CHECK_INTERVAL_MS: u64 = 30000;

/// A message pushed to the client.
#[derive(Clone, Debug)]
pub enum NotificationMessage {
    Alert { severity: String, title: String, message: String, source: String, timestamp: String },
    StatsUpdate { argocd_issues: usize, error_pods: usize, warning_events: usize },
    Connected { message: String },
    Heartbeat { timestamp: String },
}

/// A notification on its way out.
#[derive(Clone, Debug)]
pub struct SendNotification(pub NotificationMessage);

/// The three counts a stats poll yields.
#[derive(Clone, Copy, Debug, PartialEq, Eq, Structural)]
pub struct StatsCounts {
    pub argocd_issues: usize,
    pub error_pods: usize,
    pub warning_events: usize,
}

/// Where a session stands in its life cycle.
#[derive(Clone, Copy, Debug, PartialEq, Eq, Structural)]
pub enum SessionPhase {
    Connecting,
    Active,
    Closing,
    Closed,
}

/// What reaches a session: timer ticks, poll outcomes, inbound frames.
#[derive(Clone, Debug)]
pub enum SessionEvent {
    HeartbeatTick,
    PollTick,
    StatsResult { counts: StatsCounts },
    PollResult { counts: StatsCounts },
    Ping { payload: Vec<u8> },
    Pong,
    Text { text: String },
    Binary,
    Close,
    ProtocolError,
}

/// What a session asks its transport to do.
#[derive(Clone, Debug)]
pub enum SessionAction {
    Send(NotificationMessage),
    SendPing,
    SendPong(Vec<u8>),
    RequestStats,
    RequestPoll,
    CloseConnection,
}

/// One client's session: its phase, the time of the last liveness signal,
/// and the last counts known to it.
#[derive(Clone, Copy, Debug, PartialEq, Eq, Structural)]
pub struct NotificationSession {
    pub phase: SessionPhase,
    pub hb: u64,
    pub last_argocd_issues: usize,
    pub last_error_pods: usize,
    pub last_warning_events: usize,
}

// ---------------------------------------------------------------------------
// Rows: the mathematical content of messages and actions
// ---------------------------------------------------------------------------

#[verifier::ext_equal]
pub enum MessageRow {
    Alert {
        severity: Seq<char>,
        title: Seq<char>,
        message: Seq<char>,
        source: Seq<char>,
        timestamp: Seq<char>,
    },
    StatsUpdate { argocd_issues: int, error_pods: int, warning_events: int },
    Connected { message: Seq<char> },
    Heartbeat { timestamp: Seq<char> },
}

#[verifier::ext_equal]
pub enum ActionRow {
    Send(MessageRow),
    SendPing,
    SendPong(Seq<u8>),
    RequestStats,
    RequestPoll,
    CloseConnection,
}

pub open spec fn message_row_of(m: NotificationMessage) -> MessageRow {
    match m {
        NotificationMessage::Alert { severity, title, message, source, timestamp } => {
            MessageRow::Alert {
                severity: severity@,
                title: title@,
                message: message@,
                source: source@,
                timestamp: timestamp@,
            }
        },
        NotificationMessage::StatsUpdate { argocd_issues, error_pods, warning_events } => {
            MessageRow::StatsUpdate {
                argocd_issues: argocd_issues as int,
                error_pods: error_pods as int,
                warning_events: warning_events as int,
            }
        },
        NotificationMessage::Connected { message } => {
            MessageRow::Connected { message: message@ }
        },
        NotificationMessage::Heartbeat { timestamp } => {
            MessageRow::Heartbeat { timestamp: timestamp@ }
        },
    }
}

pub open spec fn action_row_of(a: SessionAction) -> ActionRow {
    match a {
        SessionAction::Send(m) => ActionRow::Send(message_row_of(m)),
        SessionAction::SendPing => ActionRow::SendPing,
        SessionAction::SendPong(p) => ActionRow::SendPong(p@),
        SessionAction::RequestStats => ActionRow::RequestStats,
        SessionAction::RequestPoll => ActionRow::RequestPoll,
        SessionAction::CloseConnection => ActionRow::CloseConnection,
    }
}

pub open spec fn action_rows_of(v: Seq<SessionAction>) -> Seq<ActionRow> {
    v.map_values(|a: SessionAction| action_row_of(a))
}

// ---------------------------------------------------------------------------
// The step function
// ---------------------------------------------------------------------------

/// The liveness check: the time since the last signal exceeds the timeout.
pub open spec fn spec_timed_out(s: NotificationSession, now_ms: u64) -> bool {
    now_ms as int - s.hb as int > CLIENT_TIMEOUT_MS as int
}

/// Any count grew against what the session last knew.
pub open spec fn spec_counts_increased(s: NotificationSession, c: StatsCounts) -> bool {
    ||| c.argocd_issues > s.last_argocd_issues
    ||| c.error_pods > s.last_error_pods
    ||| c.warning_events > s.last_warning_events
}

/// The count dimensions an alert can speak about.
pub enum AlertDim {
    Workloads,
    Pods,
    Events,
}

/// How much each count grew; a shrinking count grew by nothing.
pub open spec fn spec_growth(old: int, new: int) -> int {
    if new > old {
        new - old
    } else {
        0
    }
}

/// The dimension with the largest growth; earlier dimensions win ties.
pub open spec fn spec_dominant_dim(s: NotificationSession, c: StatsCounts) -> AlertDim {
    let ga = spec_growth(s.last_argocd_issues as int, c.argocd_issues as int);
    let gp = spec_growth(s.last_error_pods as int, c.error_pods as int);
    let ge = spec_growth(s.last_warning_events as int, c.warning_events as int);
    if ga >= gp && ga >= ge {
        AlertDim::Workloads
    } else if gp >= ge {
        AlertDim::Pods
    } else {
        AlertDim::Events
    }
}

/// The alert row announcing the dominant grown dimension.
pub open spec fn spec_alert_for(s: NotificationSession, c: StatsCounts, now_str: Seq<char>)
    -> MessageRow {
    match spec_dominant_dim(s, c) {
        AlertDim::Workloads => MessageRow::Alert {
            severity: "warning"@,
            title: "ArgoCD Apps Unhealthy"@,
            message: dec_str(c.argocd_issues as nat) + " applications need attention"@,
            source: "argocd"@,
            timestamp: now_str,
        },
        AlertDim::Pods => MessageRow::Alert {
            severity: "error"@,
            title: "Pods in Error"@,
            message: dec_str(c.error_pods as nat) + " pods are in error state"@,
            source: "pods"@,
            timestamp: now_str,
        },
        AlertDim::Events => MessageRow::Alert {
            severity: "warning"@,
            title: "Warning Events"@,
            message: dec_str(c.warning_events as nat) + " warning events in the last hour"@,
            source: "events"@,
            timestamp: now_str,
        },
    }
}

/// One step of the session state machine: the next state and the actions
/// emitted, for a session in the `Active` phase.
pub open spec fn spec_step_active(
    s: NotificationSession,
    ev: SessionEvent,
    now_ms: u64,
    now_str: Seq<char>,
) -> (NotificationSession, Seq<ActionRow>) {
    match ev {
        SessionEvent::HeartbeatTick => {
            if spec_timed_out(s, now_ms) {
                (
                    NotificationSession { phase: SessionPhase::Closing, ..s },
                    seq![ActionRow::CloseConnection],
                )
            } else {
                (s, seq![ActionRow::SendPing])
            }
        },
        SessionEvent::PollTick => (s, seq![ActionRow::RequestPoll]),
        SessionEvent::StatsResult { counts } => (
            s,
            seq![
                ActionRow::Send(
                    MessageRow::StatsUpdate {
                        argocd_issues: counts.argocd_issues as int,
                        error_pods: counts.error_pods as int,
                        warning_events: counts.warning_events as int,
                    },
                ),
            ],
        ),
        SessionEvent::PollResult { counts } => {
            if spec_counts_increased(s, counts) {
                (
                    NotificationSession {
                        last_argocd_issues: counts.argocd_issues,
                        last_error_pods: counts.error_pods,
                        last_warning_events: counts.warning_events,
                        ..s
                    },
                    seq![ActionRow::Send(spec_alert_for(s, counts, now_str))],
                )
            } else {
                (s, Seq::<ActionRow>::empty())
            }
        },
        SessionEvent::Ping { payload } => (
            NotificationSession { hb: now_ms, ..s },
            seq![ActionRow::SendPong(payload@)],
        ),
        SessionEvent::Pong => (NotificationSession { hb: now_ms, ..s }, Seq::<ActionRow>::empty()),
        SessionEvent::Text { text } => {
            let t = NotificationSession { hb: now_ms, ..s };
            if spec_trim(text@) == "ping"@ {
                (t, seq![ActionRow::Send(MessageRow::Heartbeat { timestamp: now_str })])
            } else if spec_trim(text@) == "stats"@ {
                (t, seq![ActionRow::RequestStats])
            } else {
                (t, Seq::<ActionRow>::empty())
            }
        },
        SessionEvent::Binary => (
            NotificationSession { hb: now_ms, ..s },
            Seq::<ActionRow>::empty(),
        ),
        SessionEvent::Close => (
            NotificationSession { phase: SessionPhase::Closing, ..s },
            seq![ActionRow::CloseConnection],
        ),
        SessionEvent::ProtocolError => (
            NotificationSession { phase: SessionPhase::Closing, ..s },
            seq![ActionRow::CloseConnection],
        ),
    }
}

/// One step of the session state machine, in any phase: only an `Active`
/// session reacts; elsewhere events are dropped.
pub open spec fn spec_step(
    s: NotificationSession,
    ev: SessionEvent,
    now_ms: u64,
    now_str: Seq<char>,
) -> (NotificationSession, Seq<ActionRow>) {
    if s.phase == SessionPhase::Active {
        spec_step_active(s, ev, now_ms, now_str)
    } else {
        (s, Seq::<ActionRow>::empty())
    }
}

// ---------------------------------------------------------------------------
// The executable session
// ---------------------------------------------------------------------------

impl NotificationSession {
    /// A fresh session: connecting, last liveness signal at `now_ms`,
    /// no counts known.
    pub fn new(now_ms: u64) -> (s: NotificationSession)
        ensures
            s.phase == SessionPhase::Connecting,
            s.hb == now_ms,
            s.last_argocd_issues == 0,
            s.last_error_pods == 0,
            s.last_warning_events == 0,
    {
        NotificationSession {
            phase: SessionPhase::Connecting,
            hb: now_ms,
            last_argocd_issues: 0,
            last_error_pods: 0,
            last_warning_events: 0,
        }
    }

    /// Connection established: greets the client and asks for one
    /// immediate stats poll. A session in any other phase stays put.
    pub fn started(&mut self) -> (actions: Vec<SessionAction>)
        ensures
            old(self).phase == SessionPhase::Connecting ==> final(self).phase
                == SessionPhase::Active && action_rows_of(actions@) == seq![
                ActionRow::Send(
                    MessageRow::Connected { message: "Connected to Kusanagi notifications"@ },
                ),
                ActionRow::RequestStats,
            ],
            old(self).phase != SessionPhase::Connecting ==> *final(self) == *old(self)
                && actions@.len() == 0,
            final(self).hb == old(self).hb,
            final(self).last_argocd_issues == old(self).last_argocd_issues,
            final(self).last_error_pods == old(self).last_error_pods,
            final(self).last_warning_events == old(self).last_warning_events,
    {
        if matches!(self.phase, SessionPhase::Connecting) {
            self.phase = SessionPhase::Active;
            let mut actions: Vec<SessionAction> = Vec::new();
            actions.push(
                SessionAction::Send(
                    NotificationMessage::Connected {
                        message: String::from_str("Connected to Kusanagi notifications"),
                    },
                ),
            );
            actions.push(SessionAction::RequestStats);
            proof {
                assert(action_rows_of(actions@) =~= seq![
                    ActionRow::Send(
                        MessageRow::Connected {
                            message: "Connected to Kusanagi notifications"@,
                        },
                    ),
                    ActionRow::RequestStats,
                ]);
            }
            actions
        } else {
            Vec::new()
        }
    }

    /// Transport shut down: the session is closed for good.
    pub fn stopped(&mut self)
        ensures
            final(self).phase == SessionPhase::Closed,
            final(self).hb == old(self).hb,
            final(self).last_argocd_issues == old(self).last_argocd_issues,
            final(self).last_error_pods == old(self).last_error_pods,
            final(self).last_warning_events == old(self).last_warning_events,
    {
        self.phase = SessionPhase::Closed;
    }

    /// Feeds one event to the session at time `now_ms` (monotonic
    /// milliseconds), with `now_rfc3339` the same instant rendered for
    /// outbound timestamps. Follows `spec_step` exactly.
    pub fn handle(&mut self, event: SessionEvent, now_ms: u64, now_rfc3339: &str) -> (actions:
        Vec<SessionAction>)
        ensures
            *final(self) == spec_step(*old(self), event, now_ms, now_rfc3339@).0,
            action_rows_of(actions@) == spec_step(*old(self), event, now_ms, now_rfc3339@).1,
    {
        if !matches!(self.phase, SessionPhase::Active) {
            let actions: Vec<SessionAction> = Vec::new();
            proof {
                assert(action_rows_of(actions@) =~= Seq::<ActionRow>::empty());
            }
            return actions;
        }
        let mut actions: Vec<SessionAction> = Vec::new();
        match event {
            SessionEvent::HeartbeatTick => {
                let expired = now_ms > self.hb && now_ms - self.hb > CLIENT_TIMEOUT_MS;
                if expired {
                    self.phase = SessionPhase::Closing;
                    actions.push(SessionAction::CloseConnection);
                    proof {
                        assert(action_rows_of(actions@) =~= seq![ActionRow::CloseConnection]);
                    }
                } else {
                    actions.push(SessionAction::SendPing);
                    proof {
                        assert(action_rows_of(actions@) =~= seq![ActionRow::SendPing]);
                    }
                }
            },
            SessionEvent::PollTick => {
                actions.push(SessionAction::RequestPoll);
                proof {
                    assert(action_rows_of(actions@) =~= seq![ActionRow::RequestPoll]);
                }
            },
            SessionEvent::StatsResult { counts } => {
                actions.push(
                    SessionAction::Send(
                        NotificationMessage::StatsUpdate {
                            argocd_issues: counts.argocd_issues,
                            error_pods: counts.error_pods,
                            warning_events: counts.warning_events,
                        },
                    ),
                );
                proof {
                    assert(action_rows_of(actions@) =~= spec_step(
                        *old(self),
                        event,
                        now_ms,
                        now_rfc3339@,
                    ).1);
                }
            },
            SessionEvent::PollResult { counts } => {
                let increased = counts.argocd_issues > self.last_argocd_issues
                    || counts.error_pods > self.last_error_pods || counts.warning_events
                    > self.last_warning_events;
                if increased {
                    let alert = self.build_alert(&counts, now_rfc3339);
                    self.last_argocd_issues = counts.argocd_issues;
                    self.last_error_pods = counts.error_pods;
                    self.last_warning_events = counts.warning_events;
                    actions.push(SessionAction::Send(alert));
                    proof {
                        assert(action_rows_of(actions@) =~= seq![
                            ActionRow::Send(
                                spec_alert_for(*old(self), counts, now_rfc3339@),
                            ),
                        ]);
                    }
                } else {
                    proof {
                        assert(action_rows_of(actions@) =~= Seq::<ActionRow>::empty());
                    }
                }
            },
            SessionEvent::Ping { payload } => {
                self.hb = now_ms;
                proof {
                    assert(action_rows_of(actions@.push(SessionAction::SendPong(payload)))
                        =~= seq![ActionRow::SendPong(payload@)]);
                }
                actions.push(SessionAction::SendPong(payload));
            },
            SessionEvent::Pong => {
                self.hb = now_ms;
                proof {
                    assert(action_rows_of(actions@) =~= Seq::<ActionRow>::empty());
                }
            },
            SessionEvent::Text { text } => {
                self.hb = now_ms;
                let trimmed = str_trim(text.as_str());
                if str_eq(trimmed.as_str(), "ping") {
                    actions.push(
                        SessionAction::Send(
                            NotificationMessage::Heartbeat {
                                timestamp: String::from_str(now_rfc3339),
                            },
                        ),
                    );
                    proof {
                        assert(action_rows_of(actions@) =~= seq![
                            ActionRow::Send(MessageRow::Heartbeat { timestamp: now_rfc3339@ }),
                        ]);
                    }
                } else if str_eq(trimmed.as_str(), "stats") {
                    actions.push(SessionAction::RequestStats);
                    proof {
                        assert(action_rows_of(actions@) =~= seq![ActionRow::RequestStats]);
                    }
                } else {
                    proof {
                        assert(action_rows_of(actions@) =~= Seq::<ActionRow>::empty());
                    }
                }
            },
            SessionEvent::Binary => {
                self.hb = now_ms;
                proof {
                    assert(action_rows_of(actions@) =~= Seq::<ActionRow>::empty());
                }
            },
            SessionEvent::Close => {
                self.phase = SessionPhase::Closing;
                actions.push(SessionAction::CloseConnection);
                proof {
                    assert(action_rows_of(actions@) =~= seq![ActionRow::CloseConnection]);
                }
            },
            SessionEvent::ProtocolError => {
                self.phase = SessionPhase::Closing;
                actions.push(SessionAction::CloseConnection);
                proof {
                    assert(action_rows_of(actions@) =~= seq![ActionRow::CloseConnection]);
                }
            },
        }
        actions
    }

    /// Builds the alert for the dominant grown dimension.
    fn build_alert(&self, counts: &StatsCounts, now_rfc3339: &str) -> (m: NotificationMessage)
        ensures
            message_row_of(m) == spec_alert_for(*self, *counts, now_rfc3339@),
    {
        let ga = growth(self.last_argocd_issues, counts.argocd_issues);
        let gp = growth(self.last_error_pods, counts.error_pods);
        let ge = growth(self.last_warning_events, counts.warning_events);
        if ga >= gp && ga >= ge {
            let mut message = usize_to_string(counts.argocd_issues);
            message.append(" applications need attention");
            NotificationMessage::Alert {
                severity: String::from_str("warning"),
                title: String::from_str("ArgoCD Apps Unhealthy"),
                message,
                source: String::from_str("argocd"),
                timestamp: String::from_str(now_rfc3339),
            }
        } else if gp >= ge {
            let mut message = usize_to_string(counts.error_pods);
            message.append(" pods are in error state");
            NotificationMessage::Alert {
                severity: String::from_str("error"),
                title: String::from_str("Pods in Error"),
                message,
                source: String::from_str("pods"),
                timestamp: String::from_str(now_rfc3339),
            }
        } else {
            let mut message = usize_to_string(counts.warning_events);
            message.append(" warning events in the last hour");
            NotificationMessage::Alert {
                severity: String::from_str("warning"),
                title: String::from_str("Warning Events"),
                message,
                source: String::from_str("events"),
                timestamp: String::from_str(now_rfc3339),
            }
        }
    }
}

fn growth(old_v: usize, new_v: usize) -> (g: usize)
    ensures
        g as int == spec_growth(old_v as int, new_v as int),
{
    if new_v > old_v {
        new_v - old_v
    } else {
        0
    }
}

// ---------------------------------------------------------------------------
// Laws
// ---------------------------------------------------------------------------

/// A silent session times out: an active session whose last liveness
/// signal lies more than the timeout in the past leaves `Active` for
/// `Closing` on the next heartbeat tick, asking for the connection to be
/// closed; confirming the shutdown then closes it for good.
pub proof fn lemma_timeout_closes(
    s: NotificationSession,
    now_ms: u64,
    now_str: Seq<char>,
)
    requires
        s.phase == SessionPhase::Active,
        now_ms as int - s.hb as int > CLIENT_TIMEOUT_MS as int,
    ensures
        spec_step(s, SessionEvent::HeartbeatTick, now_ms, now_str).0.phase
            == SessionPhase::Closing,
        spec_step(s, SessionEvent::HeartbeatTick, now_ms, now_str).1 == seq![
            ActionRow::CloseConnection,
        ],
{
}

/// A live session stays active: a heartbeat tick within the timeout keeps
/// the session `Active` and only pings the client.
pub proof fn lemma_live_session_pings(s: NotificationSession, now_ms: u64, now_str: Seq<char>)
    requires
        s.phase == SessionPhase::Active,
        now_ms as int - s.hb as int <= CLIENT_TIMEOUT_MS as int,
    ensures
        spec_step(s, SessionEvent::HeartbeatTick, now_ms, now_str).0 == s,
        spec_step(s, SessionEvent::HeartbeatTick, now_ms, now_str).1 == seq![ActionRow::SendPing],
{
}

/// A trace of timestamped events.
pub struct TraceEvent {
    pub event: SessionEvent,
    pub now_ms: u64,
    pub now_str: Seq<char>,
}

/// The session after feeding a whole trace.
pub open spec fn spec_run(s: NotificationSession, tr: Seq<TraceEvent>) -> NotificationSession
    decreases tr.len(),
{
    if tr.len() == 0 {
        s
    } else {
        spec_run(
            spec_step(s, tr.first().event, tr.first().now_ms, tr.first().now_str).0,
            tr.drop_first(),
        )
    }
}

/// A trace keeps a session alive: no close or protocol error arrives, and
/// every heartbeat tick falls within the timeout of the liveness state the
/// session has at that point.
pub open spec fn spec_timely(s: NotificationSession, tr: Seq<TraceEvent>) -> bool
    decreases tr.len(),
{
    if tr.len() == 0 {
        true
    } else {
        let e = tr.first();
        &&& !(e.event is Close)
        &&& !(e.event is ProtocolError)
        &&& (e.event is HeartbeatTick ==> e.now_ms as int - s.hb as int
            <= CLIENT_TIMEOUT_MS as int)
        &&& spec_timely(spec_step(s, e.event, e.now_ms, e.now_str).0, tr.drop_first())
    }
}

/// A session that answers in time never closes: an active session fed any
/// timely trace — every ping answered promptly, however long the trace —
/// is still active at its end.
pub proof fn lemma_timely_trace_stays_active(s: NotificationSession, tr: Seq<TraceEvent>)
    requires
        s.phase == SessionPhase::Active,
        spec_timely(s, tr),
    ensures
        spec_run(s, tr).phase == SessionPhase::Active,
    decreases tr.len(),
{
    if tr.len() > 0 {
        let e = tr.first();
        let s2 = spec_step(s, e.event, e.now_ms, e.now_str).0;
        assert(s2.phase == SessionPhase::Active);
        lemma_timely_trace_stays_active(s2, tr.drop_first());
    }
}

/// The `stats` command asks for exactly one poll: an active session given
/// the text `stats` emits exactly one stats request and nothing else,
/// whatever the poll timer is doing.
pub proof fn lemma_stats_command_requests_once(
    s: NotificationSession,
    text: String,
    now_ms: u64,
    now_str: Seq<char>,
)
    requires
        s.phase == SessionPhase::Active,
        spec_trim(text@) == "stats"@,
        spec_trim(text@) != "ping"@,
    ensures
        spec_step(s, SessionEvent::Text { text }, now_ms, now_str).1 == seq![
            ActionRow::RequestStats,
        ],
{
}

/// Each poll the request triggers answers with exactly one stats update,
/// carrying exactly the polled counts, and the session state is untouched.
pub proof fn lemma_stats_result_updates_once(
    s: NotificationSession,
    counts: StatsCounts,
    now_ms: u64,
    now_str: Seq<char>,
)
    requires
        s.phase == SessionPhase::Active,
    ensures
        spec_step(s, SessionEvent::StatsResult { counts }, now_ms, now_str).0 == s,
        spec_step(s, SessionEvent::StatsResult { counts }, now_ms, now_str).1 == seq![
            ActionRow::Send(
                MessageRow::StatsUpdate {
                    argocd_issues: counts.argocd_issues as int,
                    error_pods: counts.error_pods as int,
                    warning_events: counts.warning_events as int,
                },
            ),
        ],
{
}

/// Liveness is touched only by inbound frames: timer ticks and poll
/// results never move the liveness timestamp.
pub proof fn lemma_timers_leave_liveness_alone(
    s: NotificationSession,
    ev: SessionEvent,
    now_ms: u64,
    now_str: Seq<char>,
)
    requires
        ev is HeartbeatTick || ev is PollTick || ev is StatsResult || ev is PollResult,
    ensures
        spec_step(s, ev, now_ms, now_str).0.hb == s.hb,
{
}

/// Unchanged or shrinking counts raise no alert: a poll result that grew
/// in no dimension emits nothing and leaves the stored counts alone.
pub proof fn lemma_no_growth_no_alert(
    s: NotificationSession,
    counts: StatsCounts,
    now_ms: u64,
    now_str: Seq<char>,
)
    requires
        counts.argocd_issues <= s.last_argocd_issues,
        counts.error_pods <= s.last_error_pods,
        counts.warning_events <= s.last_warning_events,
    ensures
        spec_step(s, SessionEvent::PollResult { counts }, now_ms, now_str).0 == s,
        spec_step(s, SessionEvent::PollResult { counts }, now_ms, now_str).1
            == Seq::<ActionRow>::empty(),
{
}

// ---------------------------------------------------------------------------
// Stats from provider outcomes
// ---------------------------------------------------------------------------

/// Counts from three independent poll outcomes, each defaulting to zero
/// on failure.
pub open spec fn spec_stats_counts(
    argocd_unhealthy: Option<usize>,
    error_pods: Option<usize>,
    warning_events: Option<usize>,
) -> StatsCounts {
    StatsCounts {
        argocd_issues: match argocd_unhealthy {
            Some(v) => v,
            None => 0,
        },
        error_pods: match error_pods {
            Some(v) => v,
            None => 0,
        },
        warning_events: match warning_events {
            Some(v) => v,
            None => 0,
        },
    }
}

/// Assembles stats counts from the three poll outcomes; a failed poll
/// counts zero.
pub fn get_current_stats(
    argocd_unhealthy: Option<usize>,
    error_pods: Option<usize>,
    warning_events: Option<usize>,
) -> (c: StatsCounts)
    ensures
        c == spec_stats_counts(argocd_unhealthy, error_pods, warning_events),
{
    StatsCounts {
        argocd_issues: match argocd_unhealthy {
            Some(v) => v,
            None => 0,
        },
        error_pods: match error_pods {
            Some(v) => v,
            None => 0,
        },
        warning_events: match warning_events {
            Some(v) => v,
            None => 0,
        },
    }
}

} // verus!
