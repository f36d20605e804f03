use milo::activity::ActivityCategory;
use milo::browser::BrowserActivity;
use milo::distraction::{
    threshold_seconds, DistractionController, DistractionEvent, DistractionKind,
    DistractionTracker, FIRST_THRESHOLD_SECONDS, NANOS_PER_MILLISECOND, NANOS_PER_SECOND,
    SECOND_THRESHOLD_SECONDS, THIRD_THRESHOLD_SECONDS,
};
use std::cell::RefCell;
use std::rc::Rc;

/// An arbitrary start of the monotonic clock, in nanoseconds.
const NOW: u64 = 5_000 * NANOS_PER_SECOND;

fn secs(seconds: u64) -> u64 {
    seconds * NANOS_PER_SECOND
}

fn millis(milliseconds: u64) -> u64 {
    milliseconds * NANOS_PER_MILLISECOND
}

fn started(kind: DistractionKind) -> Vec<DistractionEvent> {
    vec![DistractionEvent::Started(kind)]
}

fn active_session(browser_activity: BrowserActivity, started_at: u64) -> DistractionTracker {
    let mut tracker = DistractionTracker::new();
    tracker.update_desktop_activity(ActivityCategory::Browser, started_at);
    tracker.update_browser_activity(browser_activity, started_at);
    tracker
}

#[test]
fn browser_and_youtube_shorts_starts_a_session_in_either_update_order() {
    let now = NOW;
    let mut desktop_first = DistractionTracker::new();
    assert!(desktop_first
        .update_desktop_activity(ActivityCategory::Browser, now)
        .is_empty());
    assert_eq!(
        desktop_first.update_browser_activity(BrowserActivity::YouTubeShorts, now),
        started(DistractionKind::YouTubeShorts)
    );

    let mut browser_first = DistractionTracker::new();
    assert!(browser_first
        .update_browser_activity(BrowserActivity::YouTubeShorts, now)
        .is_empty());
    assert_eq!(
        browser_first.update_desktop_activity(ActivityCategory::Browser, now),
        started(DistractionKind::YouTubeShorts)
    );
}

#[test]
fn terminal_and_youtube_shorts_does_not_start_a_session() {
    let now = NOW;
    let mut tracker = DistractionTracker::new();
    tracker.update_browser_activity(BrowserActivity::YouTubeShorts, now);

    assert!(tracker
        .update_desktop_activity(ActivityCategory::Terminal, now)
        .is_empty());
    assert!(tracker.session.is_none());
}

#[test]
fn normal_browser_activities_never_start_a_session() {
    let now = NOW;
    for browser_activity in [
        BrowserActivity::YouTube,
        BrowserActivity::Instagram,
        BrowserActivity::Other,
    ] {
        let mut tracker = DistractionTracker::new();
        tracker.update_desktop_activity(ActivityCategory::Browser, now);

        assert!(tracker
            .update_browser_activity(browser_activity, now)
            .is_empty());
        assert!(tracker.session.is_none());
    }
}

#[test]
fn leaving_browser_ends_a_shorts_session() {
    let started_at = NOW;
    let mut tracker = active_session(BrowserActivity::YouTubeShorts, started_at);
    let ended_at = started_at + secs(8);

    assert_eq!(
        tracker.update_desktop_activity(ActivityCategory::Terminal, ended_at),
        vec![DistractionEvent::Ended {
            kind: DistractionKind::YouTubeShorts,
            elapsed_nanos: secs(8),
        }]
    );
}

#[test]
fn normal_youtube_ends_a_shorts_session() {
    let started_at = NOW;
    let mut tracker = active_session(BrowserActivity::YouTubeShorts, started_at);

    assert_eq!(
        tracker.update_browser_activity(BrowserActivity::YouTube, started_at + secs(4)),
        vec![DistractionEvent::Ended {
            kind: DistractionKind::YouTubeShorts,
            elapsed_nanos: secs(4),
        }]
    );
}

#[test]
fn changing_distraction_kind_ends_then_starts() {
    let started_at = NOW;
    let mut tracker = active_session(BrowserActivity::YouTubeShorts, started_at);
    let changed_at = started_at + secs(6);

    assert_eq!(
        tracker.update_browser_activity(BrowserActivity::InstagramReels, changed_at),
        vec![
            DistractionEvent::Ended {
                kind: DistractionKind::YouTubeShorts,
                elapsed_nanos: secs(6),
            },
            DistractionEvent::Started(DistractionKind::InstagramReels),
        ]
    );
    assert_eq!(tracker.session.unwrap().started_at_nanos, changed_at);
}

#[test]
fn leaving_and_returning_starts_a_fresh_continuous_session() {
    let first_start = NOW;
    let mut tracker = active_session(BrowserActivity::YouTubeShorts, first_start);
    tracker.update_desktop_activity(ActivityCategory::Terminal, first_start + secs(8));
    let second_start = first_start + secs(20);

    assert_eq!(
        tracker.update_desktop_activity(ActivityCategory::Browser, second_start),
        started(DistractionKind::YouTubeShorts)
    );
    assert_eq!(tracker.session.as_ref().unwrap().started_at_nanos, second_start);
    assert_eq!(
        tracker.check_thresholds(second_start + secs(10)),
        vec![DistractionEvent::Threshold {
            kind: DistractionKind::YouTubeShorts,
            seconds: FIRST_THRESHOLD_SECONDS,
        }]
    );
}

#[test]
fn thresholds_each_fire_only_once_without_waiting() {
    let started_at = NOW;
    let mut tracker = active_session(BrowserActivity::InstagramReels, started_at);

    assert_eq!(
        tracker.check_thresholds(started_at + secs(20)),
        vec![
            DistractionEvent::Threshold {
                kind: DistractionKind::InstagramReels,
                seconds: FIRST_THRESHOLD_SECONDS,
            },
            DistractionEvent::Threshold {
                kind: DistractionKind::InstagramReels,
                seconds: SECOND_THRESHOLD_SECONDS,
            },
        ]
    );
    assert!(tracker.check_thresholds(started_at + secs(20)).is_empty());
    assert_eq!(
        tracker.check_thresholds(started_at + secs(31)),
        vec![DistractionEvent::Threshold {
            kind: DistractionKind::InstagramReels,
            seconds: THIRD_THRESHOLD_SECONDS,
        }]
    );
    assert!(tracker.check_thresholds(started_at + secs(60)).is_empty());
}

#[test]
fn ending_a_session_reports_any_just_crossed_threshold_first() {
    let started_at = NOW;
    let mut tracker = active_session(BrowserActivity::YouTubeShorts, started_at);
    let ended_at = started_at + millis(20_400);

    assert_eq!(
        tracker.update_browser_activity(BrowserActivity::Other, ended_at),
        vec![
            DistractionEvent::Threshold {
                kind: DistractionKind::YouTubeShorts,
                seconds: FIRST_THRESHOLD_SECONDS,
            },
            DistractionEvent::Threshold {
                kind: DistractionKind::YouTubeShorts,
                seconds: SECOND_THRESHOLD_SECONDS,
            },
            DistractionEvent::Ended {
                kind: DistractionKind::YouTubeShorts,
                elapsed_nanos: millis(20_400),
            },
        ]
    );
}

#[test]
fn system_idle_ends_session_and_resume_starts_a_new_one() {
    let started_at = NOW;
    let mut tracker = active_session(BrowserActivity::YouTubeShorts, started_at);
    let idle_at = started_at + secs(7);

    assert_eq!(
        tracker.update_system_idle(true, idle_at),
        vec![DistractionEvent::Ended {
            kind: DistractionKind::YouTubeShorts,
            elapsed_nanos: secs(7),
        }]
    );
    let resumed_at = idle_at + secs(20);
    assert_eq!(
        tracker.update_system_idle(false, resumed_at),
        started(DistractionKind::YouTubeShorts)
    );
    assert_eq!(tracker.session.unwrap().started_at_nanos, resumed_at);
}

#[test]
fn browser_disconnect_ends_session() {
    let started_at = NOW;
    let mut tracker = active_session(BrowserActivity::InstagramReels, started_at);

    assert_eq!(
        tracker.browser_unavailable(started_at + secs(3)),
        vec![DistractionEvent::Ended {
            kind: DistractionKind::InstagramReels,
            elapsed_nanos: secs(3),
        }]
    );
}

#[test]
fn checking_once_late_equals_checking_early_then_late() {
    let started_at = NOW;
    let mut stepwise = active_session(BrowserActivity::YouTubeShorts, started_at);
    let mut direct = stepwise;
    let mut events = stepwise.check_thresholds(started_at + secs(12));
    events.extend(stepwise.check_thresholds(started_at + secs(35)));
    assert_eq!(events, direct.check_thresholds(started_at + secs(35)));
    assert_eq!(stepwise, direct);
}

#[test]
fn a_clock_reading_before_the_start_counts_as_no_time() {
    let started_at = NOW;
    let mut tracker = active_session(BrowserActivity::YouTubeShorts, started_at);
    assert!(tracker.check_thresholds(started_at - secs(100)).is_empty());
    assert_eq!(
        tracker.update_desktop_activity(ActivityCategory::Other, started_at - secs(1)),
        vec![DistractionEvent::Ended {
            kind: DistractionKind::YouTubeShorts,
            elapsed_nanos: 0,
        }]
    );
}

#[test]
fn thresholds_are_listed_in_order() {
    assert_eq!(threshold_seconds(0), Some(FIRST_THRESHOLD_SECONDS));
    assert_eq!(threshold_seconds(1), Some(SECOND_THRESHOLD_SECONDS));
    assert_eq!(threshold_seconds(2), Some(THIRD_THRESHOLD_SECONDS));
    assert_eq!(threshold_seconds(3), None);
}

#[test]
fn controller_delivers_events_to_its_handler_in_order() {
    let delivered = Rc::new(RefCell::new(Vec::new()));
    let sink = Rc::clone(&delivered);
    let mut controller = DistractionController::new(move |event| sink.borrow_mut().push(event));
    controller.update_desktop_activity(ActivityCategory::Browser);
    controller.update_browser_activity(BrowserActivity::InstagramReels);
    controller.check_thresholds();
    controller.update_system_idle(true);
    controller.update_system_idle(false);
    controller.browser_unavailable();

    let events = delivered.borrow();
    assert_eq!(events.len(), 4);
    assert_eq!(events[0], DistractionEvent::Started(DistractionKind::InstagramReels));
    assert!(matches!(
        events[1],
        DistractionEvent::Ended {
            kind: DistractionKind::InstagramReels,
            ..
        }
    ));
    assert_eq!(events[2], DistractionEvent::Started(DistractionKind::InstagramReels));
    assert!(matches!(
        events[3],
        DistractionEvent::Ended {
            kind: DistractionKind::InstagramReels,
            ..
        }
    ));
}
