use cosmic_applet_app_title::applet::{
    AnchorRect, Applet, Command, CursorPosition, DeferredMenuAction, Message, PopupId,
    WindowControlAction, WorkspaceUpdate,
};
use cosmic_applet_app_title::config::{AppletConfig, TitleLimits};
use cosmic_applet_app_title::desktop::{
    CatalogueAnswers, FoundEntry, WindowMenuAction, WorkspaceWindow,
};
use cosmic_applet_app_title::wayland::WindowHandle;
use freedesktop_desktop_entry::DesktopEntry;

const CONFIG: AppletConfig =
    AppletConfig { max_title_chars: 20, middle_click_closes: true, show_app_icons: true };
const LIMITS: TitleLimits = TitleLimits { min: 10, max: 60 };
const MENU: PopupId = PopupId(1);
const SETTINGS: PopupId = PopupId(2);

fn applet() -> Applet {
    Applet::init(CONFIG, LIMITS)
}

fn with_menu() -> Applet {
    let mut applet = applet();
    assert!(matches!(
        applet.update(Message::OpenWindowContextMenu(WindowHandle(7))),
        Command::OpenContextMenu
    ));
    applet.context_menu_opened(MENU);
    applet
}

fn action(name: &str) -> WindowMenuAction {
    WindowMenuAction {
        app_id: Some("app".to_string()),
        command: "run".to_string(),
        name: name.to_string(),
        terminal: false,
    }
}

fn window(handle: u64) -> WorkspaceWindow {
    WorkspaceWindow {
        app_id: Some("org.app".to_string()),
        identifier: None,
        title: "Title".to_string(),
        handle: WindowHandle(handle),
        is_active: false,
        is_maximized: true,
    }
}

fn show(applet: &mut Applet, handles: &[u64]) {
    let windows: Vec<WorkspaceWindow> = handles.iter().map(|handle| window(*handle)).collect();
    let entries: Vec<Option<FoundEntry>> = handles.iter().map(|_| None).collect();
    assert!(matches!(
        applet.update(Message::Wayland(WorkspaceUpdate::WorkspaceWindows(windows))),
        Command::RebuildWindows
    ));
    applet.rebuild_windows(&entries, &Vec::new());
}

#[test]
fn an_applet_starts_empty() {
    let applet = applet();
    assert_eq!(applet.config, CONFIG);
    assert_eq!(applet.max_chars(), 20);
    assert!(!applet.config_dirty);
    assert!(applet.windows.is_empty());
    assert!(applet.source_windows.is_empty());
    assert_eq!(applet.context_menu_popup, None);
    assert_eq!(applet.settings_popup, None);
    assert!(applet.selected_context_window().is_none());
}

#[test]
fn hovering_follows_the_tiles() {
    let mut applet = applet();
    applet.update(Message::HoverWindow(WindowHandle(1)));
    assert_eq!(applet.hovered_window, Some(WindowHandle(1)));
    applet.update(Message::HoverWindow(WindowHandle(2)));
    applet.update(Message::ClearHoveredWindow(WindowHandle(1)));
    assert_eq!(applet.hovered_window, Some(WindowHandle(2)));
    applet.update(Message::ClearHoveredWindow(WindowHandle(2)));
    assert_eq!(applet.hovered_window, None);
    applet.update(Message::HoverWindow(WindowHandle(3)));
    applet.update(Message::UpdateAppletCursor(CursorPosition { x: 4, y: 5 }));
    applet.update(Message::ClearHoveredWindowGlobal);
    assert_eq!(applet.hovered_window, None);
    assert_eq!(applet.cursor_in_applet, None);
}

#[test]
fn a_press_gives_the_focus() {
    let reply = applet().update(Message::FocusWindow(WindowHandle(4)));
    assert!(matches!(reply, Command::FocusWindow(WindowHandle(4))));
}

#[test]
fn actions_are_done_at_once_without_a_menu() {
    let mut applet = applet();
    assert!(matches!(
        applet.update(Message::CloseWindow(WindowHandle(4))),
        Command::ControlWindow(WindowControlAction::Close(WindowHandle(4)))
    ));
    assert!(matches!(
        applet.update(Message::MinimizeWindow(WindowHandle(4))),
        Command::ControlWindow(WindowControlAction::Minimize(WindowHandle(4)))
    ));
    assert!(matches!(
        applet.update(Message::SetWindowMaximized(WindowHandle(4), true)),
        Command::ControlWindow(WindowControlAction::SetMaximized(WindowHandle(4), true))
    ));
    assert!(matches!(applet.update(Message::OpenSettingsPopup), Command::OpenSettings));
    match applet.update(Message::RunWindowAction(action("Go"))) {
        Command::Launch(action) => assert_eq!(action.name, "Go"),
        other => panic!("{:?}", other),
    }
    assert!(matches!(applet.update(Message::DesktopActionFinished), Command::Nothing));
}

#[test]
fn actions_wait_for_the_menu_to_close() {
    let mut applet = with_menu();
    let reply = applet.update(Message::RunWindowAction(action("Go")));
    assert!(matches!(reply, Command::DestroyPopup(MENU)));
    assert!(matches!(
        applet.pending_menu_action,
        Some(DeferredMenuAction::LaunchDesktopAction(_))
    ));
    match applet.update(Message::PopupClosed(MENU)) {
        Command::Launch(action) => assert_eq!(action.name, "Go"),
        other => panic!("{:?}", other),
    }
    assert_eq!(applet.context_menu_popup, None);
    assert_eq!(applet.context_menu_window, None);
    assert!(applet.pending_menu_action.is_none());
    assert!(matches!(applet.update(Message::PopupClosed(MENU)), Command::Nothing));
}

#[test]
fn the_last_request_wins() {
    let mut applet = with_menu();
    applet.update(Message::CloseWindow(WindowHandle(4)));
    applet.update(Message::OpenWindowContextMenu(WindowHandle(5)));
    assert!(applet.pending_menu_action.is_none());
    assert_eq!(applet.pending_context_menu_window, Some(WindowHandle(5)));
    applet.update(Message::OpenSettingsPopup);
    assert_eq!(applet.pending_context_menu_window, None);
    assert!(matches!(applet.update(Message::PopupClosed(MENU)), Command::OpenSettings));
}

#[test]
fn the_next_menu_opens_after_the_last() {
    let mut applet = with_menu();
    assert_eq!(applet.context_menu_window, Some(WindowHandle(7)));
    let reply = applet.update(Message::OpenWindowContextMenu(WindowHandle(8)));
    assert!(matches!(reply, Command::DestroyPopup(MENU)));
    assert_eq!(applet.context_menu_window, Some(WindowHandle(7)));
    let reply = applet.update(Applet::on_close_requested(MENU));
    assert!(matches!(reply, Command::OpenContextMenu));
    assert_eq!(applet.context_menu_window, Some(WindowHandle(8)));
    assert_eq!(applet.pending_context_menu_window, None);
}

#[test]
fn open_settings_block_the_popups() {
    let mut applet = applet();
    applet.settings_opened(SETTINGS);
    assert!(matches!(applet.update(Message::OpenSettingsPopup), Command::Nothing));
    assert!(matches!(
        applet.update(Message::OpenWindowContextMenu(WindowHandle(1))),
        Command::Nothing
    ));
    assert_eq!(applet.context_menu_window, None);
}

#[test]
fn popups_are_anchored_at_the_cursor() {
    let mut applet = applet();
    assert_eq!(applet.context_menu_opened(MENU), None);
    assert_eq!(applet.context_menu_popup, Some(MENU));
    applet.update(Message::UpdateAppletCursor(CursorPosition { x: -3, y: 12 }));
    assert_eq!(
        applet.settings_opened(SETTINGS),
        Some(AnchorRect { x: -3, y: 12, width: 1, height: 1 })
    );
    assert_eq!(applet.settings_popup, Some(SETTINGS));
}

#[test]
fn settings_are_stored_when_they_are_closed() {
    let mut applet = applet();
    applet.settings_opened(SETTINGS);
    assert!(matches!(applet.update(Message::SetMiddleClickCloses(false)), Command::Nothing));
    assert!(applet.config_dirty);
    match applet.update(Message::PopupClosed(SETTINGS)) {
        Command::SaveConfig(config) => {
            assert_eq!(config, AppletConfig { middle_click_closes: false, ..CONFIG });
        }
        other => panic!("{:?}", other),
    }
    assert!(!applet.config_dirty);
    assert_eq!(applet.settings_popup, None);
    assert!(matches!(applet.update(Message::PopupClosed(SETTINGS)), Command::Nothing));
}

#[test]
fn unchanged_settings_are_not_stored() {
    let mut applet = applet();
    applet.settings_opened(SETTINGS);
    applet.update(Message::SetMiddleClickCloses(true));
    applet.update(Message::SetMaxTitleChars(20));
    assert!(matches!(applet.update(Message::SetShowAppIcons(true)), Command::Nothing));
    assert!(!applet.config_dirty);
    assert!(matches!(applet.update(Message::PopupClosed(SETTINGS)), Command::Nothing));
    assert_eq!(applet.settings_popup, None);
}

#[test]
fn another_popup_stores_nothing() {
    let mut applet = with_menu();
    applet.settings_opened(SETTINGS);
    applet.update(Message::SetMiddleClickCloses(false));
    assert!(matches!(applet.update(Message::PopupClosed(MENU)), Command::Nothing));
    assert!(matches!(applet.update(Message::PopupClosed(PopupId(9))), Command::Nothing));
    assert!(applet.config_dirty);
    assert_eq!(applet.settings_popup, Some(SETTINGS));
    assert!(applet.persist_config_if_dirty().is_some());
    assert!(applet.persist_config_if_dirty().is_none());
}

#[test]
fn title_limits_hold() {
    let mut applet = applet();
    applet.update(Message::SetMaxTitleChars(1));
    assert_eq!(applet.config.max_title_chars, 10);
    applet.update(Message::SetMaxTitleChars(61));
    assert_eq!(applet.config.max_title_chars, 60);
    applet.update(Message::SetMaxTitleChars(33));
    assert_eq!(applet.config.max_title_chars, 33);
    assert_eq!(LIMITS.clamp(9), 10);
    assert_eq!(LIMITS.clamp(60), 60);
}

#[test]
fn icons_are_switched_by_a_rebuild() {
    let mut applet = applet();
    show(&mut applet, &[1]);
    let entry = DesktopEntry::from_appid("org.app".to_string());
    let answers = CatalogueAnswers { name: None, action_names: vec![] };
    let entries = vec![Some(FoundEntry { entry, answers })];
    applet.rebuild_windows(&entries, &Vec::new());
    assert_eq!(applet.windows[0].icon.as_deref(), Some("org.app"));
    assert_eq!(applet.windows[0].app_name, "app");
    assert!(matches!(applet.update(Message::SetShowAppIcons(false)), Command::RebuildWindows));
    assert!(applet.config_dirty);
    applet.rebuild_windows(&entries, &Vec::new());
    assert_eq!(applet.windows[0].icon, None);
}

#[test]
fn windows_are_those_of_the_workspace() {
    let mut applet = applet();
    show(&mut applet, &[3, 1, 2]);
    let handles: Vec<u64> = applet.windows.iter().map(|window| window.handle.0).collect();
    assert_eq!(handles, vec![3, 1, 2]);
    let lookups = applet.desktop_lookups();
    assert_eq!(lookups.len(), 3);
    assert_eq!(lookups[0].as_ref().unwrap().app_id, "org.app");
    assert!(matches!(
        applet.update(Message::Wayland(WorkspaceUpdate::Finished)),
        Command::Nothing
    ));
    assert_eq!(applet.windows.len(), 3);
}

#[test]
fn what_refers_to_a_gone_window_is_dropped() {
    let mut applet = with_menu();
    show(&mut applet, &[7, 8]);
    applet.update(Message::HoverWindow(WindowHandle(8)));
    applet.update(Message::OpenWindowContextMenu(WindowHandle(8)));
    assert_eq!(applet.selected_context_window().unwrap().handle, WindowHandle(7));
    show(&mut applet, &[8]);
    assert_eq!(applet.context_menu_window, None);
    assert_eq!(applet.hovered_window, Some(WindowHandle(8)));
    assert_eq!(applet.pending_context_menu_window, Some(WindowHandle(8)));
    show(&mut applet, &[]);
    assert_eq!(applet.hovered_window, None);
    assert_eq!(applet.pending_context_menu_window, None);
    assert!(matches!(applet.update(Message::PopupClosed(MENU)), Command::Nothing));
}

#[test]
fn a_deferred_action_can_be_run_by_itself() {
    assert!(matches!(
        Applet::run_deferred_menu_action(DeferredMenuAction::OpenSettings),
        Command::OpenSettings
    ));
    let mut applet = with_menu();
    assert!(matches!(
        applet.queue_or_run_menu_action(DeferredMenuAction::OpenSettings),
        Command::DestroyPopup(MENU)
    ));
}
