//! Continuous distraction sessions: a session exists while the focused
//! application is a browser, the system is active and the browser shows
//! YouTube Shorts or Instagram Reels. Sessions report elapsed thresholds once.

use crate::activity::ActivityCategory;
use crate::browser::BrowserActivity;
use vstd::prelude::*;

verus! {

pub const FIRST_THRESHOLD_SECONDS: u64 = 10;

pub const SECOND_THRESHOLD_SECONDS: u64 = 20;

pub const THIRD_THRESHOLD_SECONDS: u64 = 30;

/// Number of thresholds a session reports.
pub const THRESHOLD_COUNT: usize = 3;

/// Timestamps and durations of this module are monotonic nanoseconds.
pub const NANOS_PER_SECOND: u64 = 1_000_000_000;

pub const NANOS_PER_MILLISECOND: u64 = 1_000_000;

/// The thresholds, in seconds, in the order a session reaches them.
pub open spec fn spec_thresholds() -> Seq<u64> {
    seq![FIRST_THRESHOLD_SECONDS, SECOND_THRESHOLD_SECONDS, THIRD_THRESHOLD_SECONDS]
}

/// The threshold with the given index, if there is one.
pub fn threshold_seconds(index: usize) -> (seconds: Option<u64>)
    ensures
        index < THRESHOLD_COUNT ==> seconds == Some(spec_thresholds()[index as int]),
        index >= THRESHOLD_COUNT ==> seconds is None,
{
    if index == 0 {
        Some(FIRST_THRESHOLD_SECONDS)
    } else if index == 1 {
        Some(SECOND_THRESHOLD_SECONDS)
    } else if index == 2 {
        Some(THIRD_THRESHOLD_SECONDS)
    } else {
        None
    }
}

#[derive(Clone, Copy, Debug, PartialEq, Eq, Structural)]
pub enum DistractionKind {
    YouTubeShorts,
    InstagramReels,
}

/// One continuous session.
#[derive(Clone, Copy, Debug, PartialEq, Eq, Structural)]
pub struct DistractionSession {
    pub kind: DistractionKind,
    pub started_at_nanos: u64,
    /// Index of the next threshold not yet reported.
    pub next_threshold: usize,
}

#[derive(Clone, Copy, Debug, PartialEq, Eq, Structural)]
pub enum DistractionEvent {
    Started(DistractionKind),
    Threshold { kind: DistractionKind, seconds: u64 },
    Ended { kind: DistractionKind, elapsed_nanos: u64 },
}

/// Time from `start` to `now`, zero when `now` is earlier.
pub open spec fn spec_elapsed(now: u64, start: u64) -> u64 {
    if now >= start {
        (now - start) as u64
    } else {
        0
    }
}

/// The threshold events, starting at index `next`, that `elapsed`
/// nanoseconds have reached.
pub open spec fn crossed_thresholds(kind: DistractionKind, next: int, elapsed: u64) -> Seq<
    DistractionEvent,
>
    decreases THRESHOLD_COUNT - next,
{
    if 0 <= next < THRESHOLD_COUNT && elapsed >= spec_thresholds()[next] * NANOS_PER_SECOND {
        seq![DistractionEvent::Threshold { kind, seconds: spec_thresholds()[next] }]
            + crossed_thresholds(kind, next + 1, elapsed)
    } else {
        Seq::empty()
    }
}

pub open spec fn session_kind(session: Option<DistractionSession>) -> Option<DistractionKind> {
    match session {
        Some(s) => Some(s.kind),
        None => None,
    }
}

/// Combines the desktop category, the browser category and the system-idle
/// status into the current session.
#[derive(Clone, Copy, Debug, PartialEq, Eq, Structural)]
pub struct DistractionTracker {
    pub desktop_activity: Option<ActivityCategory>,
    pub browser_activity: Option<BrowserActivity>,
    pub system_idle: bool,
    pub session: Option<DistractionSession>,
}

impl DistractionTracker {
    /// The kind of session the current context calls for.
    pub open spec fn spec_desired_kind(self) -> Option<DistractionKind> {
        if self.system_idle || self.desktop_activity != Some(ActivityCategory::Browser) {
            None
        } else {
            match self.browser_activity {
                Some(BrowserActivity::YouTubeShorts) => Some(DistractionKind::YouTubeShorts),
                Some(BrowserActivity::InstagramReels) => Some(DistractionKind::InstagramReels),
                _ => None,
            }
        }
    }

    /// Reports the thresholds the current session has reached since the last
    /// report.
    pub open spec fn spec_check_thresholds(self, now: u64) -> (DistractionTracker, Seq<
        DistractionEvent,
    >) {
        match self.session {
            None => (self, Seq::empty()),
            Some(s) => {
                let events = crossed_thresholds(
                    s.kind,
                    s.next_threshold as int,
                    spec_elapsed(now, s.started_at_nanos),
                );
                (
                    DistractionTracker {
                        session: Some(
                            DistractionSession {
                                next_threshold: (s.next_threshold + events.len()) as usize,
                                ..s
                            },
                        ),
                        ..self
                    },
                    events,
                )
            },
        }
    }

    /// Brings the session in line with the context: thresholds first, then,
    /// when the session kind changes, the end of the old session and the
    /// start of a fresh one.
    pub open spec fn spec_evaluate(self, now: u64) -> (DistractionTracker, Seq<DistractionEvent>) {
        let desired = self.spec_desired_kind();
        let (checked, events) = self.spec_check_thresholds(now);
        if session_kind(self.session) == desired {
            (checked, events)
        } else {
            let ended = match checked.session {
                Some(s) => seq![
                    DistractionEvent::Ended {
                        kind: s.kind,
                        elapsed_nanos: spec_elapsed(now, s.started_at_nanos),
                    },
                ],
                None => Seq::empty(),
            };
            let (session, started) = match desired {
                Some(kind) => (
                    Some(
                        DistractionSession { kind, started_at_nanos: now, next_threshold: 0 },
                    ),
                    seq![DistractionEvent::Started(kind)],
                ),
                None => (None, Seq::empty()),
            };
            (DistractionTracker { session, ..checked }, events + ended + started)
        }
    }

    pub fn new() -> (tracker: Self)
        ensures
            tracker == (DistractionTracker {
                desktop_activity: None,
                browser_activity: None,
                system_idle: false,
                session: None,
            }),
    {
        DistractionTracker {
            desktop_activity: None,
            browser_activity: None,
            system_idle: false,
            session: None,
        }
    }

    pub fn update_desktop_activity(&mut self, activity: ActivityCategory, now: u64) -> (events:
        Vec<DistractionEvent>)
        ensures
            old(self).well_formed() ==> final(self).well_formed(),
            (*final(self), events@) == (DistractionTracker {
                desktop_activity: Some(activity),
                ..*old(self)
            }).spec_evaluate(now),
            session_kind(final(self).session) == final(self).spec_desired_kind(),
    {
        self.desktop_activity = Some(activity);
        self.evaluate_session(now)
    }

    pub fn update_browser_activity(&mut self, activity: BrowserActivity, now: u64) -> (events:
        Vec<DistractionEvent>)
        ensures
            old(self).well_formed() ==> final(self).well_formed(),
            (*final(self), events@) == (DistractionTracker {
                browser_activity: Some(activity),
                ..*old(self)
            }).spec_evaluate(now),
            session_kind(final(self).session) == final(self).spec_desired_kind(),
    {
        self.browser_activity = Some(activity);
        self.evaluate_session(now)
    }

    /// The Firefox connection ended: the browser category is unknown again.
    pub fn browser_unavailable(&mut self, now: u64) -> (events: Vec<DistractionEvent>)
        ensures
            old(self).well_formed() ==> final(self).well_formed(),
            (*final(self), events@) == (DistractionTracker {
                browser_activity: None,
                ..*old(self)
            }).spec_evaluate(now),
            final(self).session is None,
    {
        self.browser_activity = None;
        self.evaluate_session(now)
    }

    pub fn update_system_idle(&mut self, system_idle: bool, now: u64) -> (events: Vec<
        DistractionEvent,
    >)
        ensures
            old(self).well_formed() ==> final(self).well_formed(),
            (*final(self), events@) == (DistractionTracker { system_idle, ..*old(self) }).spec_evaluate(
                now,
            ),
            session_kind(final(self).session) == final(self).spec_desired_kind(),
            system_idle ==> final(self).session is None,
    {
        self.system_idle = system_idle;
        self.evaluate_session(now)
    }

    /// Reports every threshold reached since the last report, each once.
    pub fn check_thresholds(&mut self, now: u64) -> (events: Vec<DistractionEvent>)
        ensures
            old(self).well_formed() ==> final(self).well_formed(),
            (*final(self), events@) == old(self).spec_check_thresholds(now),
    {
        match self.session {
            None => Vec::new(),
            Some(session) => {
                let elapsed = now.saturating_sub(session.started_at_nanos);
                let mut next = session.next_threshold;
                let mut events: Vec<DistractionEvent> = Vec::new();
                while next < THRESHOLD_COUNT && elapsed >= threshold_seconds(next).unwrap()
                    * NANOS_PER_SECOND
                    invariant
                        elapsed == spec_elapsed(now, session.started_at_nanos),
                        next == session.next_threshold + events@.len(),
                        next <= THRESHOLD_COUNT || events@.len() == 0,
                        events@ + crossed_thresholds(session.kind, next as int, elapsed)
                            == crossed_thresholds(
                            session.kind,
                            session.next_threshold as int,
                            elapsed,
                        ),
                    decreases THRESHOLD_COUNT - next,
                {
                    let seconds = threshold_seconds(next).unwrap();
                    let event = DistractionEvent::Threshold { kind: session.kind, seconds };
                    let ghost before = events@;
                    events.push(event);
                    assert(crossed_thresholds(session.kind, next as int, elapsed) == seq![event]
                        + crossed_thresholds(session.kind, next + 1, elapsed));
                    assert(events@ + crossed_thresholds(session.kind, next + 1, elapsed) =~= before
                        + crossed_thresholds(session.kind, next as int, elapsed));
                    next = next + 1;
                }
                assert(crossed_thresholds(session.kind, next as int, elapsed) =~= Seq::empty());
                assert(events@ + Seq::<DistractionEvent>::empty() =~= events@);
                self.session = Some(DistractionSession { next_threshold: next, ..session });
                events
            },
        }
    }

    pub fn desired_kind(&self) -> (kind: Option<DistractionKind>)
        ensures
            kind == self.spec_desired_kind(),
    {
        if self.system_idle {
            return None;
        }
        match self.desktop_activity {
            Some(ActivityCategory::Browser) => {},
            _ => {
                return None;
            },
        }
        match self.browser_activity {
            Some(BrowserActivity::YouTubeShorts) => Some(DistractionKind::YouTubeShorts),
            Some(BrowserActivity::InstagramReels) => Some(DistractionKind::InstagramReels),
            _ => None,
        }
    }

    pub fn evaluate_session(&mut self, now: u64) -> (events: Vec<DistractionEvent>)
        ensures
            old(self).well_formed() ==> final(self).well_formed(),
            (*final(self), events@) == old(self).spec_evaluate(now),
            session_kind(final(self).session) == final(self).spec_desired_kind(),
    {
        proof {
            if old(self).well_formed() {
                lemma_operations_keep_tracker_well_formed(*old(self), now);
            }
        }
        let desired = self.desired_kind();
        let current = match self.session {
            Some(session) => Some(session.kind),
            None => None,
        };
        if same_kind(current, desired) {
            let events = self.check_thresholds(now);
            return events;
        }
        let mut events = self.check_thresholds(now);
        let ghost checked = events@;
        match self.session {
            Some(session) => {
                self.session = None;
                events.push(
                    DistractionEvent::Ended {
                        kind: session.kind,
                        elapsed_nanos: now.saturating_sub(session.started_at_nanos),
                    },
                );
            },
            None => {},
        }
        let ghost ended = events@;
        match desired {
            Some(kind) => {
                self.session = Some(
                    DistractionSession { kind, started_at_nanos: now, next_threshold: 0 },
                );
                events.push(DistractionEvent::Started(kind));
            },
            None => {},
        }
        assert(events@ =~= old(self).spec_evaluate(now).1);
        events
    }
}

fn same_kind(a: Option<DistractionKind>, b: Option<DistractionKind>) -> (same: bool)
    ensures
        same == (a == b),
{
    match (a, b) {
        (None, None) => true,
        (Some(x), Some(y)) => x == y,
        _ => false,
    }
}

proof fn lemma_crossed_split(kind: DistractionKind, next: int, early: u64, late: u64)
    requires
        early <= late,
    ensures
        crossed_thresholds(kind, next, early) + crossed_thresholds(
            kind,
            next + crossed_thresholds(kind, next, early).len(),
            late,
        ) == crossed_thresholds(kind, next, late),
    decreases THRESHOLD_COUNT - next,
{
    let first = crossed_thresholds(kind, next, early);
    if 0 <= next < THRESHOLD_COUNT && early >= spec_thresholds()[next] * NANOS_PER_SECOND {
        lemma_crossed_split(kind, next + 1, early, late);
        let rest = crossed_thresholds(kind, next + 1, early);
        assert(first.len() == rest.len() + 1);
        assert(next + first.len() == next + 1 + rest.len());
        assert(first + crossed_thresholds(kind, next + first.len(), late) =~= seq![
            DistractionEvent::Threshold { kind, seconds: spec_thresholds()[next] },
        ] + (rest + crossed_thresholds(kind, next + 1 + rest.len(), late)));
    } else {
        assert(first =~= Seq::empty());
        assert(first + crossed_thresholds(kind, next, late) =~= crossed_thresholds(
            kind,
            next,
            late,
        ));
    }
}

/// Thresholds fire exactly once: checking at `early` and then at `late`
/// reports the same thresholds, in the same order, and leaves the same
/// tracker as a single check at `late`, however many deadlines one check
/// crosses.
pub proof fn lemma_thresholds_fire_once(tracker: DistractionTracker, early: u64, late: u64)
    requires
        early <= late,
    ensures
        ({
            let (after_early, first) = tracker.spec_check_thresholds(early);
            let (after_late, second) = after_early.spec_check_thresholds(late);
            let (direct, all) = tracker.spec_check_thresholds(late);
            &&& after_late == direct
            &&& first + second == all
        }),
{
    match tracker.session {
        None => {
            assert(Seq::<DistractionEvent>::empty() + Seq::<DistractionEvent>::empty()
                =~= Seq::<DistractionEvent>::empty());
        },
        Some(s) => {
            let e1 = spec_elapsed(early, s.started_at_nanos);
            let e2 = spec_elapsed(late, s.started_at_nanos);
            lemma_crossed_split(s.kind, s.next_threshold as int, e1, e2);
            lemma_crossed_length(s.kind, s.next_threshold as int, e1);
            lemma_crossed_length(s.kind, s.next_threshold as int, e2);
        },
    }
}

proof fn lemma_crossed_length(kind: DistractionKind, next: int, elapsed: u64)
    ensures
        0 <= next <= THRESHOLD_COUNT ==> next + crossed_thresholds(kind, next, elapsed).len()
            <= THRESHOLD_COUNT,
        !(0 <= next < THRESHOLD_COUNT) ==> crossed_thresholds(kind, next, elapsed).len() == 0,
    decreases THRESHOLD_COUNT - next,
{
    if 0 <= next < THRESHOLD_COUNT {
        lemma_crossed_length(kind, next + 1, elapsed);
    }
}

impl DistractionTracker {
    /// The session's next threshold index lies within the thresholds.
    pub open spec fn well_formed(self) -> bool {
        self.session matches Some(s) ==> s.next_threshold <= THRESHOLD_COUNT
    }
}

/// A session that has reported no threshold yet reports, at one check, the
/// 10-, 20- and 30-second thresholds that the time since its start has
/// reached, in that order, each once, and remembers how many it reported.
pub proof fn lemma_documented_thresholds(tracker: DistractionTracker, now: u64)
    requires
        tracker.session matches Some(s) && s.next_threshold == 0,
    ensures
        ({
            let s = tracker.session->0;
            let elapsed: int = if now >= s.started_at_nanos {
                now - s.started_at_nanos
            } else {
                0
            };
            let t = |seconds: u64| DistractionEvent::Threshold { kind: s.kind, seconds };
            let (next, events) = tracker.spec_check_thresholds(now);
            &&& events == (if elapsed < 10_000_000_000 {
                Seq::<DistractionEvent>::empty()
            } else if elapsed < 20_000_000_000 {
                seq![t(10)]
            } else if elapsed < 30_000_000_000 {
                seq![t(10), t(20)]
            } else {
                seq![t(10), t(20), t(30)]
            })
            &&& next.session == Some(DistractionSession { next_threshold: events.len() as usize, ..s })
            &&& next.desktop_activity == tracker.desktop_activity
            &&& next.browser_activity == tracker.browser_activity
            &&& next.system_idle == tracker.system_idle
        }),
{
    let s = tracker.session->0;
    let e = spec_elapsed(now, s.started_at_nanos);
    reveal_with_fuel(crossed_thresholds, 4);
    assert(spec_thresholds()[0] == 10 && spec_thresholds()[1] == 20 && spec_thresholds()[2] == 30);
    let c = crossed_thresholds(s.kind, 0, e);
    assert(crossed_thresholds(s.kind, 3, e) =~= Seq::<DistractionEvent>::empty());
    if e < 10_000_000_000 {
        assert(c =~= Seq::<DistractionEvent>::empty());
    } else if e < 20_000_000_000 {
        assert(crossed_thresholds(s.kind, 1, e) =~= Seq::<DistractionEvent>::empty());
    } else if e < 30_000_000_000 {
        assert(crossed_thresholds(s.kind, 2, e) =~= Seq::<DistractionEvent>::empty());
    }
}

/// Every tracker operation keeps the next-threshold index within the
/// thresholds: a fresh tracker has no session, a new session starts at the
/// first threshold, and a check advances the index at most to the end.
pub proof fn lemma_operations_keep_tracker_well_formed(tracker: DistractionTracker, now: u64)
    requires
        tracker.well_formed(),
    ensures
        tracker.spec_check_thresholds(now).0.well_formed(),
        tracker.spec_evaluate(now).0.well_formed(),
        (DistractionTracker {
            desktop_activity: None,
            browser_activity: None,
            system_idle: false,
            session: None,
        }).well_formed(),
{
    if let Some(s) = tracker.session {
        lemma_crossed_length(s.kind, s.next_threshold as int, spec_elapsed(now, s.started_at_nanos));
    }
}

/// Sessions exist only while the user is distracted: after the tracker
/// brings its session in line with its inputs, a session exists exactly when
/// the system is awake, the focused application is a browser and the browser
/// shows YouTube Shorts or Instagram Reels, and it is of that kind. A session
/// that does not go on unchanged is reported ended, with the time since it
/// started; a threshold check never starts or ends one.
pub proof fn lemma_sessions_only_while_distracted(tracker: DistractionTracker, now: u64)
    ensures
        ({
            let (next, events) = tracker.spec_evaluate(now);
            let distracted = !tracker.system_idle && tracker.desktop_activity == Some(
                ActivityCategory::Browser,
            ) && (tracker.browser_activity == Some(BrowserActivity::YouTubeShorts)
                || tracker.browser_activity == Some(BrowserActivity::InstagramReels));
            &&& (next.session is Some) == distracted
            &&& next.session matches Some(n) ==> (n.kind == DistractionKind::YouTubeShorts) == (
            tracker.browser_activity == Some(BrowserActivity::YouTubeShorts))
            &&& tracker.session matches Some(s) ==> (!(next.session matches Some(n) && n.kind
                == s.kind) ==> events.contains(
                DistractionEvent::Ended {
                    kind: s.kind,
                    elapsed_nanos: if now >= s.started_at_nanos {
                        (now - s.started_at_nanos) as u64
                    } else {
                        0
                    },
                },
            ))
        }),
        (tracker.spec_check_thresholds(now).0.session is Some) == (tracker.session is Some),
{
    let (next, events) = tracker.spec_evaluate(now);
    let (checked, found) = tracker.spec_check_thresholds(now);
    if let Some(s) = tracker.session {
        if !(next.session matches Some(n) && n.kind == s.kind) {
            let ended = DistractionEvent::Ended {
                kind: s.kind,
                elapsed_nanos: spec_elapsed(now, s.started_at_nanos),
            };
            let started: Seq<DistractionEvent> = match tracker.spec_desired_kind() {
                Some(kind) => seq![DistractionEvent::Started(kind)],
                None => Seq::empty(),
            };
            assert(events == found + seq![ended] + started);
            assert(events[found.len() as int] == ended);
        }
    }
}

/// `Instant`: a point of the monotonic clock.
#[verifier::external_type_specification]
#[verifier::external_body]
pub struct ExInstant(std::time::Instant);

/// `Instant::now`: the current point of the monotonic clock.
#[verifier::external_body]
fn instant_now() -> (now: std::time::Instant) {
    std::time::Instant::now()
}

/// `Instant::elapsed`: the time since `origin` by the monotonic clock.
/// Nothing is promised of the value: it is a reading of the clock.
#[verifier::external_body]
fn elapsed_since(origin: &std::time::Instant) -> (elapsed: std::time::Duration) {
    origin.elapsed()
}

/// `Duration::as_nanos`: the whole nanoseconds of a duration. The duration
/// is opaque here, so nothing is stated of the number.
#[verifier::external_body]
fn whole_nanos(duration: &std::time::Duration) -> (nanos: u128) {
    duration.as_nanos()
}

/// Nanoseconds of the monotonic clock since `origin`, saturated at the
/// largest `u64`.
fn nanos_since(origin: &std::time::Instant) -> (nanos: u64) {
    let nanos = whole_nanos(&elapsed_since(origin));
    if nanos > 0xffff_ffff_ffff_ffffu128 {
        0xffff_ffff_ffff_ffffu64
    } else {
        nanos as u64
    }
}

/// The distraction controller: the tracker fed with readings of the
/// monotonic clock, and the handler that receives its events in order.
pub struct DistractionController<F: Fn(DistractionEvent)> {
    tracker: DistractionTracker,
    origin: std::time::Instant,
    event_handler: F,
    delivered: Ghost<Seq<DistractionEvent>>,
}

impl<F: Fn(DistractionEvent)> DistractionController<F> {
    pub closed spec fn tracker(self) -> DistractionTracker {
        self.tracker
    }

    /// Every event delivered to the handler so far, in order.
    pub closed spec fn delivered(self) -> Seq<DistractionEvent> {
        self.delivered@
    }

    /// The handler that receives the events.
    pub closed spec fn event_handler(self) -> F {
        self.event_handler
    }

    /// Each delivered event was handed to the handler: a call of the handler
    /// with that event returned.
    pub open spec fn delivered_by_calls(self) -> bool {
        forall|i: int|
            0 <= i < self.delivered().len() ==> call_ensures(
                self.event_handler(),
                (#[trigger] self.delivered()[i],),
                (),
            )
    }

    /// `next` is this controller after `changed` (this controller's tracker
    /// with one input replaced) was evaluated at some reading of the clock and
    /// the resulting events were delivered in order.
    pub open spec fn evaluated_into(self, next: Self, changed: DistractionTracker) -> bool {
        exists|now: u64|
            #![trigger changed.spec_evaluate(now)]
            {
                &&& next.tracker() == changed.spec_evaluate(now).0
                &&& next.delivered() == self.delivered() + changed.spec_evaluate(now).1
            }
    }

    #[verifier::type_invariant]
    closed spec fn handler_callable(self) -> bool {
        &&& forall|e: DistractionEvent| self.event_handler.requires((e,))
        &&& self.tracker.well_formed()
        &&& forall|i: int|
            0 <= i < self.delivered@.len() ==> call_ensures(
                self.event_handler,
                (#[trigger] self.delivered@[i],),
                (),
            )
    }

    pub fn new(event_handler: F) -> (controller: Self)
        requires
            forall|e: DistractionEvent| event_handler.requires((e,)),
        ensures
            controller.tracker() == (DistractionTracker {
                desktop_activity: None,
                browser_activity: None,
                system_idle: false,
                session: None,
            }),
            controller.delivered() == Seq::<DistractionEvent>::empty(),
            controller.event_handler() == event_handler,
            controller.delivered_by_calls(),
    {
        DistractionController {
            tracker: DistractionTracker::new(),
            origin: instant_now(),
            event_handler,
            delivered: Ghost(Seq::empty()),
        }
    }

    /// The timer check: thresholds reached at the current time.
    pub fn check_thresholds(&mut self)
        ensures
            final(self).event_handler() == old(self).event_handler(),
            final(self).delivered_by_calls(),
            final(self).tracker().well_formed(),
            exists|now: u64|
                #![trigger old(self).tracker().spec_check_thresholds(now)]
                {
                    &&& final(self).tracker() == old(self).tracker().spec_check_thresholds(now).0
                    &&& final(self).delivered() == old(self).delivered() + old(
                        self,
                    ).tracker().spec_check_thresholds(now).1
                },
    {
        proof {
            use_type_invariant(&*self);
        }
        let now = nanos_since(&self.origin);
        let mut tracker = self.tracker;
        let events = tracker.check_thresholds(now);
        self.tracker = tracker;
        self.handle_events(events);
    }

    pub fn update_desktop_activity(&mut self, activity: ActivityCategory)
        ensures
            final(self).event_handler() == old(self).event_handler(),
            final(self).delivered_by_calls(),
            final(self).tracker().well_formed(),
            old(self).evaluated_into(
                *final(self),
                DistractionTracker { desktop_activity: Some(activity), ..old(self).tracker() },
            ),
    {
        proof {
            use_type_invariant(&*self);
        }
        let now = nanos_since(&self.origin);
        let mut tracker = self.tracker;
        let events = tracker.update_desktop_activity(activity, now);
        self.tracker = tracker;
        self.handle_events(events);
    }

    pub fn update_browser_activity(&mut self, activity: BrowserActivity)
        ensures
            final(self).event_handler() == old(self).event_handler(),
            final(self).delivered_by_calls(),
            final(self).tracker().well_formed(),
            old(self).evaluated_into(
                *final(self),
                DistractionTracker { browser_activity: Some(activity), ..old(self).tracker() },
            ),
    {
        proof {
            use_type_invariant(&*self);
        }
        let now = nanos_since(&self.origin);
        let mut tracker = self.tracker;
        let events = tracker.update_browser_activity(activity, now);
        self.tracker = tracker;
        self.handle_events(events);
    }

    pub fn browser_unavailable(&mut self)
        ensures
            final(self).event_handler() == old(self).event_handler(),
            final(self).delivered_by_calls(),
            final(self).tracker().well_formed(),
            old(self).evaluated_into(
                *final(self),
                DistractionTracker { browser_activity: None, ..old(self).tracker() },
            ),
            final(self).tracker().session is None,
    {
        proof {
            use_type_invariant(&*self);
        }
        let now = nanos_since(&self.origin);
        let mut tracker = self.tracker;
        let events = tracker.browser_unavailable(now);
        self.tracker = tracker;
        self.handle_events(events);
    }

    pub fn update_system_idle(&mut self, system_idle: bool)
        ensures
            final(self).event_handler() == old(self).event_handler(),
            final(self).delivered_by_calls(),
            final(self).tracker().well_formed(),
            old(self).evaluated_into(
                *final(self),
                DistractionTracker { system_idle, ..old(self).tracker() },
            ),
            system_idle ==> final(self).tracker().session is None,
    {
        proof {
            use_type_invariant(&*self);
        }
        let now = nanos_since(&self.origin);
        let mut tracker = self.tracker;
        let events = tracker.update_system_idle(system_idle, now);
        self.tracker = tracker;
        self.handle_events(events);
    }

    fn handle_events(&mut self, events: Vec<DistractionEvent>)
        ensures
            final(self).event_handler() == old(self).event_handler(),
            final(self).delivered_by_calls(),
            final(self).tracker() == old(self).tracker(),
            final(self).delivered() == old(self).delivered() + events@,
    {
        proof {
            use_type_invariant(&*self);
        }
        let mut index: usize = 0;
        while index < events.len()
            invariant
                0 <= index <= events@.len(),
                self.tracker == old(self).tracker,
                self.delivered@ == old(self).delivered@ + events@.subrange(0, index as int),
                self.event_handler == old(self).event_handler,
                self.tracker.well_formed(),
                forall|e: DistractionEvent| self.event_handler.requires((e,)),
                forall|i: int|
                    0 <= i < self.delivered@.len() ==> call_ensures(
                        self.event_handler,
                        (#[trigger] self.delivered@[i],),
                        (),
                    ),
            decreases events@.len() - index,
        {
            let event = events[index];
            (self.event_handler)(event);
            proof {
                self.delivered@ = self.delivered@.push(event);
            }
            assert(events@.subrange(0, index + 1) =~= events@.subrange(0, index as int).push(event));
            index = index + 1;
        }
        assert(events@.subrange(0, events@.len() as int) =~= events@);
    }
}

} // verus!
