use cosmic_applet_app_title::event_loop::{connection_source, ConnectionSource, Stage};
use cosmic_applet_app_title::wayland::{
    ActiveWindow, AppData, OutputId, PanelFeed, ToplevelInfo, ToplevelState, WaylandUpdate,
    WindowHandle,
};

fn toplevel(handle: u64, title: &str, app_id: &str, active: bool, output: u64) -> ToplevelInfo {
    ToplevelInfo {
        handle: WindowHandle(handle),
        title: title.to_string(),
        app_id: app_id.to_string(),
        identifier: String::new(),
        state: if active {
            vec![ToplevelState::Maximized, ToplevelState::Activated]
        } else {
            vec![ToplevelState::Sticky]
        },
        output: vec![OutputId(output)],
    }
}

fn window(title: &str, app_id: Option<&str>) -> ActiveWindow {
    ActiveWindow {
        title: title.to_string(),
        app_id: app_id.map(str::to_string),
        identifier: None,
    }
}

fn told(update: Option<WaylandUpdate>) -> Option<Option<ActiveWindow>> {
    match update {
        Some(WaylandUpdate::ActiveWindow(window)) => Some(window),
        Some(WaylandUpdate::Finished) => panic!("no end was due"),
        None => None,
    }
}

#[test]
fn a_window_is_shown_by_its_title() {
    let mut info = toplevel(1, " Inbox ", "org.mail", true, 1);
    info.identifier = " id-7 ".to_string();
    let shown = AppData::active_window_for(&info).unwrap();
    assert_eq!(shown.title, "Inbox");
    assert_eq!(shown.app_id.as_deref(), Some("org.mail"));
    assert_eq!(shown.identifier.as_deref(), Some("id-7"));
}

#[test]
fn a_window_without_a_title_is_shown_by_its_application() {
    let info = toplevel(1, "  ", " org.mail", true, 1);
    assert_eq!(AppData::active_window_for(&info), Some(window("org.mail", Some("org.mail"))));
    let info = toplevel(1, "Title", " ", true, 1);
    assert_eq!(AppData::active_window_for(&info), Some(window("Title", None)));
    let info = toplevel(1, " ", "\t", true, 1);
    assert_eq!(AppData::active_window_for(&info), None);
}

#[test]
fn trimming_goes_through_the_state() {
    assert_eq!(AppData::trimmed(" x "), Some("x".to_string()));
    assert_eq!(AppData::trimmed("  "), None);
}

#[test]
fn the_panel_output_comes_first() {
    let tops = vec![
        toplevel(1, "other", "a", true, 1),
        toplevel(2, "idle", "a", false, 2),
        toplevel(3, "here", "a", true, 2),
        toplevel(4, "also here", "a", true, 2),
    ];
    let mut data = AppData::new(Some("DP-1".to_string()));
    assert_eq!(data.current_window(&tops).unwrap().title, "other");
    assert!(data.sync_expected_output(OutputId(2), &Some("DP-1".to_string())));
    assert_eq!(data.current_window(&tops).unwrap().title, "here");
    assert_eq!(data.current_toplevel(&tops).unwrap().handle, WindowHandle(3));
}

#[test]
fn a_blank_window_on_the_panel_output_hides_the_others() {
    let tops = vec![toplevel(1, "other", "a", true, 1), toplevel(2, "", "", true, 2)];
    let mut data = AppData::new(Some("DP-1".to_string()));
    data.sync_expected_output(OutputId(2), &Some("DP-1".to_string()));
    assert_eq!(data.current_window(&tops), None);
}

#[test]
fn without_the_panel_output_blank_windows_are_passed_over() {
    let tops = vec![toplevel(1, "", "", true, 1), toplevel(2, "second", "", true, 2)];
    let data = AppData::new(None);
    assert_eq!(data.current_window(&tops), Some(window("second", None)));
    assert_eq!(data.current_window(&vec![toplevel(1, "idle", "", false, 1)]), None);
    assert_eq!(data.current_window(&vec![]), None);
}

#[test]
fn a_window_is_told_once() {
    let mut data = AppData::new(None);
    let tops = vec![toplevel(1, "one", "a", true, 1)];
    assert_eq!(told(data.publish_window(&vec![])), None);
    assert_eq!(told(data.publish_window(&tops)), Some(Some(window("one", Some("a")))));
    assert_eq!(told(data.publish_window(&tops)), None);
    assert_eq!(data.last_window, Some(window("one", Some("a"))));
    assert_eq!(told(data.publish_window(&vec![])), Some(None));
    assert_eq!(told(data.publish_window(&vec![])), None);
}

#[test]
fn a_change_of_the_application_is_told() {
    let mut data = AppData::new(None);
    data.publish_window(&vec![toplevel(1, "one", "a", true, 1)]);
    assert_eq!(
        told(data.publish_window(&vec![toplevel(1, "one", "b", true, 1)])),
        Some(Some(window("one", Some("b"))))
    );
}

#[test]
fn an_empty_output_name_counts_as_none() {
    let mut data = AppData::new(Some(String::new()));
    assert_eq!(data.configured_output, None);
    assert!(!data.sync_expected_output(OutputId(1), &Some(String::new())));
    assert_eq!(data.expected_output, None);
}

#[test]
fn the_expected_output_follows_its_name() {
    let name = Some("DP-1".to_string());
    let other = Some("HDMI-1".to_string());
    let mut data = AppData::new(name.clone());
    assert!(!data.sync_expected_output(OutputId(1), &other));
    assert!(!data.sync_expected_output(OutputId(1), &None));
    assert!(data.sync_expected_output(OutputId(1), &name));
    assert!(!data.sync_expected_output(OutputId(1), &name));
    assert!(!data.sync_expected_output(OutputId(2), &other));
    assert_eq!(data.expected_output, Some(OutputId(1)));
    assert!(data.sync_expected_output(OutputId(2), &name));
    assert_eq!(data.expected_output, Some(OutputId(2)));
    assert!(data.sync_expected_output(OutputId(2), &other));
    assert_eq!(data.expected_output, None);
}

#[test]
fn outputs_publish_the_window_where_they_matter() {
    let name = Some("DP-1".to_string());
    let tops = vec![toplevel(1, "far", "", true, 1), toplevel(2, "near", "", true, 2)];
    let mut data = AppData::new(name.clone());
    assert_eq!(told(data.publish_window(&tops)), Some(Some(window("far", None))));
    assert_eq!(told(data.new_output(OutputId(1), &None, &tops)), None);
    assert_eq!(told(data.new_output(OutputId(2), &name, &tops)), Some(Some(window("near", None))));
    assert_eq!(told(data.update_output(OutputId(2), &name, &tops)), None);
    assert_eq!(told(data.output_destroyed(OutputId(1), &tops)), None);
    assert_eq!(told(data.output_destroyed(OutputId(2), &tops)), Some(Some(window("far", None))));
    assert_eq!(data.expected_output, None);
    assert_eq!(told(data.update_output(OutputId(1), &name, &tops)), None);
    assert_eq!(data.expected_output, Some(OutputId(1)));
}

#[test]
fn the_thread_goes_through_its_stages() {
    let mut stage = Stage::Connect;
    for next in [
        Stage::InitRegistry,
        Stage::CreateEventLoop,
        Stage::InsertSource,
        Stage::BindToplevelInfo,
        Stage::Dispatch,
        Stage::Dispatch,
    ] {
        let (after, sent) = stage.advance(true);
        assert_eq!(after, next);
        assert!(sent.is_none());
        stage = after;
    }
}

#[test]
fn the_end_is_told_once() {
    for stage in [
        Stage::Connect,
        Stage::InitRegistry,
        Stage::CreateEventLoop,
        Stage::InsertSource,
        Stage::BindToplevelInfo,
        Stage::Dispatch,
    ] {
        let (after, sent) = stage.advance(false);
        assert_eq!(after, Stage::Stopped);
        assert!(matches!(sent, Some(WaylandUpdate::Finished)));
        assert!(after.advance(false).1.is_none());
        assert_eq!(after.advance(true).0, Stage::Stopped);
        assert!(after.advance(true).1.is_none());
    }
}

#[test]
fn a_number_names_the_socket() {
    let source = |text: &str| connection_source(&Some(text.to_string()));
    assert_eq!(source("7"), ConnectionSource::Socket(7));
    assert_eq!(source("+12"), ConnectionSource::Socket(12));
    assert_eq!(source("-1"), ConnectionSource::Socket(-1));
    assert_eq!(source("007"), ConnectionSource::Socket(7));
    assert_eq!(source("2147483647"), ConnectionSource::Socket(i32::MAX));
    assert_eq!(source("-2147483648"), ConnectionSource::Socket(i32::MIN));
}

#[test]
fn anything_else_means_the_environment() {
    for text in ["", "+", "-", " 7", "7 ", "x", "1.0", "2147483648", "-2147483649", "+-1", "\u{663}"] {
        assert_eq!(
            connection_source(&Some(text.to_string())),
            ConnectionSource::Environment,
            "{}",
            text
        );
    }
    assert_eq!(connection_source(&None), ConnectionSource::Environment);
}

#[test]
fn the_panel_is_sent_what_has_changed() {
    let data = AppData::new(None);
    let mut feed = PanelFeed::new();
    let mut tops = vec![toplevel(1, "", "", false, 1)];
    assert!(feed.refresh(&data, &tops).is_none());
    tops.push(toplevel(2, "Inbox", "mail", true, 1));
    tops[1].state = vec![ToplevelState::Activated];
    let windows = feed.refresh(&data, &tops).unwrap();
    assert_eq!(windows.len(), 1);
    assert_eq!(windows[0].title, "Inbox");
    assert_eq!(windows[0].handle, WindowHandle(2));
    assert!(windows[0].is_active);
    assert!(!windows[0].is_maximized);
    assert!(feed.refresh(&data, &tops).is_none());
    tops[1].state.push(ToplevelState::Maximized);
    assert!(feed.refresh(&data, &tops).unwrap()[0].is_maximized);
    tops[1].handle = WindowHandle(3);
    assert_eq!(feed.refresh(&data, &tops).unwrap()[0].handle, WindowHandle(3));
    tops[1].title = "Outbox".to_string();
    assert_eq!(feed.refresh(&data, &tops).unwrap()[0].title, "Outbox");
    assert!(feed.refresh(&data, &tops).is_none());
    tops.clear();
    assert!(feed.refresh(&data, &tops).unwrap().is_empty());
    assert!(feed.refresh(&data, &tops).is_none());
}
