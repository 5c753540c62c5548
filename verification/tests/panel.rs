use cosmic_applet_app_title::applet::{Applet, Message, PopupId, WorkspaceUpdate};
use cosmic_applet_app_title::config::{AppletConfig, TitleLimits};
use cosmic_applet_app_title::desktop::{CatalogueAnswers, FoundEntry, WorkspaceWindow};
use cosmic_applet_app_title::panel::{
    context_menu_window_controls, tile_style, ContextMenuPanel, MenuEntry, MenuItem, MenuTitle,
    Padding, PopupView, SettingsControl, ThemeColor, Tile, TileStyle,
};
use cosmic_applet_app_title::wayland::{
    AppData, OutputId, ToplevelInfo, ToplevelState, WindowHandle,
};
use freedesktop_desktop_entry::DesktopEntry;

const ENTRY: &str = "[Desktop Entry]
Name=Editor
Icon=editor
Exec=editor
";

fn applet(max_title_chars: usize, middle_click_closes: bool) -> Applet {
    Applet::init(
        AppletConfig { max_title_chars, middle_click_closes, show_app_icons: true },
        TitleLimits { min: 8, max: 80 },
    )
}

fn window(handle: u64, title: &str) -> WorkspaceWindow {
    WorkspaceWindow {
        app_id: Some("editor".to_string()),
        identifier: None,
        title: title.to_string(),
        handle: WindowHandle(handle),
        is_active: handle == 1,
        is_maximized: handle == 2,
    }
}

fn entry() -> Option<FoundEntry> {
    let entry = DesktopEntry::from_str("editor.desktop", ENTRY, None::<&[&str]>).ok()?;
    Some(FoundEntry { entry, answers: CatalogueAnswers { name: None, action_names: vec![] } })
}

fn show(applet: &mut Applet, windows: Vec<WorkspaceWindow>, with_entries: bool) {
    let entries: Vec<Option<FoundEntry>> =
        windows.iter().map(|_| if with_entries { entry() } else { None }).collect();
    applet.update(Message::Wayland(WorkspaceUpdate::WorkspaceWindows(windows)));
    applet.rebuild_windows(&entries, &Vec::new());
}

#[test]
fn tiles_are_drawn_by_focus_and_hovering() {
    assert_eq!(
        tile_style(true, true),
        TileStyle {
            background: ThemeColor::AccentButtonHover,
            foreground: ThemeColor::AccentButtonOn,
            border_color: ThemeColor::AccentBase,
            border_width: 1,
        }
    );
    assert_eq!(
        tile_style(true, false),
        TileStyle {
            background: ThemeColor::AccentButtonBase,
            foreground: ThemeColor::AccentButtonOn,
            border_color: ThemeColor::Transparent,
            border_width: 0,
        }
    );
    assert_eq!(
        tile_style(false, true),
        TileStyle {
            background: ThemeColor::BackgroundComponentHover,
            foreground: ThemeColor::BackgroundComponentOn,
            border_color: ThemeColor::BackgroundDivider,
            border_width: 1,
        }
    );
    assert_eq!(
        tile_style(false, false),
        TileStyle {
            background: ThemeColor::BackgroundComponentBase,
            foreground: ThemeColor::BackgroundComponentOn,
            border_color: ThemeColor::Transparent,
            border_width: 0,
        }
    );
}

#[test]
fn a_tile_has_the_title_and_the_messages_of_its_window() {
    let mut applet = applet(10, true);
    show(&mut applet, vec![window(1, "A title that is long")], true);
    applet.update(Message::HoverWindow(WindowHandle(1)));
    let tile = applet.window_tile(&applet.windows[0]);
    assert_eq!(tile.text, "A title...");
    assert_eq!(tile.icon.as_deref(), Some("editor"));
    assert_eq!(tile.style, tile_style(true, true));
    assert!(matches!(tile.on_enter, Message::HoverWindow(WindowHandle(1))));
    assert!(matches!(tile.on_move, Message::HoverWindow(WindowHandle(1))));
    assert!(matches!(tile.on_exit, Message::ClearHoveredWindow(WindowHandle(1))));
    assert!(matches!(tile.on_press, Message::FocusWindow(WindowHandle(1))));
    assert!(matches!(tile.on_right_press, Message::OpenWindowContextMenu(WindowHandle(1))));
    assert!(matches!(tile.on_middle_press, Some(Message::CloseWindow(WindowHandle(1)))));
}

#[test]
fn a_middle_click_closes_only_where_it_is_on() {
    let mut applet = applet(10, false);
    show(&mut applet, vec![window(2, "Two")], false);
    assert!(applet.window_tile(&applet.windows[0]).on_middle_press.is_none());
    applet.update(Message::SetMiddleClickCloses(true));
    assert!(applet.window_tile(&applet.windows[0]).on_middle_press.is_some());
}

#[test]
fn the_panel_has_a_tile_for_each_window() {
    let mut applet = applet(20, false);
    show(&mut applet, vec![window(2, "Two"), window(1, "One")], true);
    let view = applet.view((16, 24), (4, 3));
    assert_eq!(view.height, 30);
    assert_eq!(view.icon_size, 16);
    assert_eq!(view.side_padding, 4);
    let texts: Vec<&str> = view
        .tiles
        .iter()
        .map(|tile| match tile {
            Tile::Window(tile) => tile.text.as_str(),
            Tile::Empty(_) => panic!("there are windows"),
        })
        .collect();
    assert_eq!(texts, vec!["Two", "One"]);
}

#[test]
fn an_empty_panel_shows_the_desktop() {
    let view = applet(20, false).view((u16::MAX, u16::MAX), (0, 0));
    assert_eq!(view.height, u16::MAX);
    assert_eq!(view.tiles.len(), 1);
    match &view.tiles[0] {
        Tile::Empty(tile) => {
            assert_eq!(tile.text, "Desktop");
            assert_eq!(tile.background, ThemeColor::BackgroundComponentBase);
            assert_eq!(tile.foreground, ThemeColor::BackgroundComponentOn);
        }
        Tile::Window(_) => panic!("there is no window"),
    }
}

#[test]
fn the_menu_controls_its_window() {
    let mut applet = applet(20, false);
    show(&mut applet, vec![window(1, "One"), window(2, "Two")], false);
    let buttons = context_menu_window_controls(&applet.windows[0]);
    let names: Vec<&str> = buttons.iter().map(|button| button.icon_name).collect();
    assert_eq!(
        names,
        vec!["window-minimize-symbolic", "window-maximize-symbolic", "window-close-symbolic"]
    );
    assert!(matches!(buttons[0].on_press, Message::MinimizeWindow(WindowHandle(1))));
    assert!(matches!(buttons[1].on_press, Message::SetWindowMaximized(WindowHandle(1), true)));
    assert!(matches!(buttons[2].on_press, Message::CloseWindow(WindowHandle(1))));
    assert!(buttons.iter().all(|button| button.is_selected));
    assert_eq!(buttons[1].padding, Padding { top: 8, right: 8, bottom: 8, left: 8 });
    assert_eq!(buttons[2].padding, Padding { top: 8, right: 4, bottom: 8, left: 8 });
    let buttons = context_menu_window_controls(&applet.windows[1]);
    assert_eq!(buttons[1].icon_name, "window-restore-symbolic");
    assert!(matches!(buttons[1].on_press, Message::SetWindowMaximized(WindowHandle(2), false)));
    assert!(!buttons[1].is_selected);
}

fn title_of(panel: &ContextMenuPanel) -> &MenuTitle {
    match &panel.items[0] {
        MenuItem::Title(title) => title,
        other => panic!("{:?}", other),
    }
}

fn entry_at(panel: &ContextMenuPanel, place: usize) -> &MenuEntry {
    match &panel.items[place] {
        MenuItem::Entry(entry) => entry,
        other => panic!("{:?}", other),
    }
}

#[test]
fn the_menu_offers_the_actions() {
    let mut applet = applet(20, false);
    show(&mut applet, vec![window(1, "One")], true);
    applet.update(Message::OpenWindowContextMenu(WindowHandle(1)));
    let panel = applet.context_menu_panel();
    assert_eq!(panel.items.len(), 5);
    let title = title_of(&panel);
    assert_eq!(title.icon.as_deref(), Some("editor"));
    assert_eq!(title.label, "Editor");
    assert_eq!(title.controls.len(), 3);
    assert!(matches!(panel.items[1], MenuItem::Divider));
    let offered = entry_at(&panel, 2);
    assert_eq!(offered.label, "New Window");
    match &offered.on_press {
        Some(Message::RunWindowAction(action)) => assert_eq!(action.command, "editor"),
        other => panic!("{:?}", other),
    }
    assert!(matches!(panel.items[3], MenuItem::Divider));
    let settings = entry_at(&panel, 4);
    assert_eq!(settings.label, "Workspace Windows Settings");
    assert!(matches!(settings.on_press, Some(Message::OpenSettingsPopup)));
}

#[test]
fn the_menu_says_where_there_is_nothing() {
    let mut applet = applet(20, false);
    show(&mut applet, vec![window(1, "One")], false);
    applet.update(Message::OpenWindowContextMenu(WindowHandle(1)));
    let panel = applet.context_menu_panel();
    assert_eq!(panel.items.len(), 5);
    assert_eq!(title_of(&panel).label, "editor");
    assert_eq!(entry_at(&panel, 2).label, "No application actions");
    assert!(entry_at(&panel, 2).on_press.is_none());
    show(&mut applet, vec![], false);
    let panel = applet.context_menu_panel();
    assert_eq!(panel.items.len(), 5);
    assert_eq!(title_of(&panel).icon, None);
    assert_eq!(title_of(&panel).label, "Workspace Windows");
    assert!(title_of(&panel).controls.is_empty());
    assert_eq!(entry_at(&panel, 2).label, "Window unavailable");
    assert!(entry_at(&panel, 2).on_press.is_none());
    assert_eq!(entry_at(&panel, 4).label, "Workspace Windows Settings");
}

#[test]
fn the_settings_show_their_values() {
    let panel = applet(33, true).settings_panel();
    assert_eq!(panel.title, "Workspace Windows");
    assert_eq!(panel.caption, "Changes apply immediately and are saved automatically.");
    assert_eq!(panel.sections.len(), 2);
    assert_eq!(panel.sections[0].title, "Display");
    assert_eq!(panel.sections[0].items[0].label, "Show application icons");
    assert_eq!(panel.sections[0].items[0].control, SettingsControl::ShowAppIcons(true));
    assert_eq!(panel.sections[0].items[1].label, "Maximum title length");
    assert_eq!(
        panel.sections[0].items[1].control,
        SettingsControl::MaxTitleChars { value: 33, step: 1, min: 8, max: 80 }
    );
    assert_eq!(panel.sections[1].title, "Actions");
    assert_eq!(panel.sections[1].items[0].label, "Middle-click closes windows");
    assert_eq!(panel.sections[1].items[0].control, SettingsControl::MiddleClickCloses(true));
}

#[test]
fn the_settings_send_their_messages() {
    let icons = SettingsControl::ShowAppIcons(true);
    let middle = SettingsControl::MiddleClickCloses(true);
    let chars = SettingsControl::MaxTitleChars { value: 9, step: 1, min: 8, max: 80 };
    assert!(matches!(icons.on_toggle(false), Some(Message::SetShowAppIcons(false))));
    assert!(matches!(middle.on_toggle(true), Some(Message::SetMiddleClickCloses(true))));
    assert!(chars.on_toggle(true).is_none());
    assert!(matches!(chars.on_change(12), Some(Message::SetMaxTitleChars(12))));
    assert!(icons.on_change(12).is_none());
    assert!(middle.on_change(12).is_none());
}

#[test]
fn each_popup_has_its_contents() {
    let mut applet = applet(20, false);
    applet.context_menu_opened(PopupId(1));
    applet.settings_opened(PopupId(2));
    assert!(matches!(applet.view_window(PopupId(1)), PopupView::ContextMenu(_)));
    assert!(matches!(applet.view_window(PopupId(2)), PopupView::Settings(_)));
    assert!(matches!(applet.view_window(PopupId(3)), PopupView::Empty));
    applet.settings_opened(PopupId(1));
    assert!(matches!(applet.view_window(PopupId(1)), PopupView::Settings(_)));
}

#[test]
fn the_panel_shows_the_active_window_of_its_output() {
    let toplevel = |handle: u64, title: &str, output: u64| ToplevelInfo {
        handle: WindowHandle(handle),
        title: title.to_string(),
        app_id: "app".to_string(),
        identifier: "id".to_string(),
        state: vec![ToplevelState::Activated, ToplevelState::Maximized],
        output: vec![OutputId(output)],
    };
    let toplevels = vec![toplevel(5, "Elsewhere", 1), toplevel(6, " On the panel's output ", 2)];
    let mut data = AppData::new(Some("DP-2".to_string()));
    data.new_output(OutputId(2), &Some("DP-2".to_string()), &toplevels);
    let windows = data.active_windows(&toplevels);
    assert_eq!(windows.len(), 1);
    assert_eq!(windows[0].handle, WindowHandle(6));
    assert_eq!(windows[0].app_id.as_deref(), Some("app"));
    assert_eq!(windows[0].identifier.as_deref(), Some("id"));
    assert!(windows[0].is_active);
    assert!(windows[0].is_maximized);
    let mut applet = applet(12, false);
    show(&mut applet, windows, false);
    let view = applet.view((16, 16), (2, 2));
    assert_eq!(view.tiles.len(), 1);
    match &view.tiles[0] {
        Tile::Window(tile) => assert_eq!(tile.text, "On the pa..."),
        Tile::Empty(_) => panic!("a window has the focus"),
    }
    show(&mut applet, data.active_windows(&vec![]), false);
    assert!(matches!(applet.view((16, 16), (2, 2)).tiles[0], Tile::Empty(_)));
}
