use milo::activity::{
    classify_window, listener_step, parse_active_window_event, parse_hyprctl_active_window,
    ActiveWindow, ActivityCategory, ActivityContext, ActivityUpdate, ListenerAction,
    ListenerEvent,
};

fn window(class: &str, title: &str) -> ActiveWindow {
    ActiveWindow {
        class: class.to_owned(),
        title: title.to_owned(),
    }
}

#[test]
fn parses_title_with_commas() {
    assert_eq!(
        parse_active_window_event("activewindow>>firefox,One, two, three"),
        Some(ActiveWindow {
            class: "firefox".to_owned(),
            title: "One, two, three".to_owned(),
        })
    );
}

#[test]
fn ignores_unrelated_and_malformed_events() {
    assert_eq!(parse_active_window_event("workspace>>2"), None);
    assert_eq!(parse_active_window_event("activewindow>>firefox"), None);
}

#[test]
fn parses_initial_hyprctl_window() {
    let output = "Window 123 -> Project:\n\tclass: kitty\n\ttitle: Project, notes\n";

    assert_eq!(
        parse_hyprctl_active_window(output),
        Some(ActiveWindow {
            class: "kitty".to_owned(),
            title: "Project, notes".to_owned(),
        })
    );
}

#[test]
fn classifies_classes_case_insensitively() {
    let window = ActiveWindow {
        class: "FiReFoX".to_owned(),
        title: String::new(),
    };

    assert_eq!(classify_window(&window), ActivityCategory::Browser);
}

#[test]
fn retains_last_meaningful_window_when_milo_is_focused() {
    let mut context = ActivityContext::new("com.milo.desktop");
    let kitty = ActiveWindow {
        class: "kitty".to_owned(),
        title: "project".to_owned(),
    };
    let milo = ActiveWindow {
        class: "COM.MILO.DESKTOP".to_owned(),
        title: "Milo".to_owned(),
    };

    assert_eq!(context.observe(kitty.clone()), None);
    assert_eq!(context.observe(milo), None);
    assert_eq!(context.current.as_ref(), Some(&kitty));
}

#[test]
fn does_not_report_an_unchanged_window_twice() {
    let mut context = ActivityContext::new("com.milo.desktop");
    let window = ActiveWindow {
        class: "code".to_owned(),
        title: "Milo".to_owned(),
    };

    assert_eq!(context.observe(window.clone()), None);
    assert_eq!(context.observe(window), None);
}

#[test]
fn title_only_changes_update_context_without_reporting_a_transition() {
    let mut context = ActivityContext::new("com.milo.desktop");
    let first = ActiveWindow {
        class: "kitty".to_owned(),
        title: "fish".to_owned(),
    };
    let second = ActiveWindow {
        class: "kitty".to_owned(),
        title: "~/Projects/BloomAway".to_owned(),
    };

    assert_eq!(context.observe(first), None);
    assert_eq!(context.observe(second.clone()), None);
    assert_eq!(context.current.as_ref(), Some(&second));
}

#[test]
fn reports_only_category_transitions() {
    let mut context = ActivityContext::new("com.milo.desktop");
    let terminal = ActiveWindow {
        class: "kitty".to_owned(),
        title: "project".to_owned(),
    };
    let browser = ActiveWindow {
        class: "firefox".to_owned(),
        title: "Milo docs".to_owned(),
    };

    assert_eq!(context.observe(terminal), None);
    assert_eq!(
        context.observe(browser),
        Some((ActivityCategory::Terminal, ActivityCategory::Browser))
    );
}

#[test]
fn different_apps_in_the_same_category_do_not_report_a_transition() {
    let mut context = ActivityContext::new("com.milo.desktop");
    let firefox = ActiveWindow {
        class: "firefox".to_owned(),
        title: "Tab A".to_owned(),
    };
    let chromium = ActiveWindow {
        class: "chromium".to_owned(),
        title: "Tab B".to_owned(),
    };

    assert_eq!(context.observe(firefox), None);
    assert_eq!(context.observe(chromium), None);
}

#[test]
fn classifies_every_known_family() {
    assert_eq!(classify_window(&window("  Code-OSS ", "")), ActivityCategory::Development);
    assert_eq!(classify_window(&window("Alacritty", "")), ActivityCategory::Terminal);
    assert_eq!(classify_window(&window("steam", "")), ActivityCategory::Gaming);
    assert_eq!(classify_window(&window("Spotify", "")), ActivityCategory::Media);
    assert_eq!(classify_window(&window("mpv", "")), ActivityCategory::Other);
    assert_eq!(classify_window(&window("org.gnome.Nautilus", "")), ActivityCategory::Other);
}

#[test]
fn blank_class_is_ignored() {
    let mut context = ActivityContext::new("com.milo.desktop");
    assert_eq!(context.observe(window("kitty", "a")), None);
    assert_eq!(context.observe(window("   ", "b")), None);
    assert_eq!(context.current.as_ref(), Some(&window("kitty", "a")));
}

#[test]
fn observe_window_reports_the_first_category_and_changes_only() {
    let mut context = ActivityContext::new("com.milo.desktop");
    assert_eq!(
        context.observe_window(window("kitty", "a")),
        ActivityUpdate {
            current_category: Some(ActivityCategory::Terminal),
            transition: None,
        }
    );
    assert_eq!(
        context.observe_window(window("Alacritty", "b")),
        ActivityUpdate {
            current_category: None,
            transition: None,
        }
    );
    assert_eq!(
        context.observe_window(window("firefox", "c")),
        ActivityUpdate {
            current_category: Some(ActivityCategory::Browser),
            transition: Some((ActivityCategory::Terminal, ActivityCategory::Browser)),
        }
    );
}

#[test]
fn hyprctl_output_without_a_class_is_none() {
    assert_eq!(parse_hyprctl_active_window("Invalid\n\ttitle: x\n"), None);
    assert_eq!(parse_hyprctl_active_window(""), None);
}

#[test]
fn hyprland_listener_reconnects_until_nobody_listens() {
    assert_eq!(
        listener_step(ListenerEvent::StreamEnded {
            receiver_closed: false
        }),
        ListenerAction::WaitAndReconnect
    );
    assert_eq!(
        listener_step(ListenerEvent::StreamEnded {
            receiver_closed: true
        }),
        ListenerAction::Stop
    );
    assert_eq!(
        listener_step(ListenerEvent::ConnectAttempt {
            connected: false,
            receiver_closed: false
        }),
        ListenerAction::WaitAndReconnect
    );
    assert_eq!(
        listener_step(ListenerEvent::ConnectAttempt {
            connected: false,
            receiver_closed: true
        }),
        ListenerAction::Stop
    );
    assert_eq!(
        listener_step(ListenerEvent::ConnectAttempt {
            connected: true,
            receiver_closed: false
        }),
        ListenerAction::Forward
    );
}
