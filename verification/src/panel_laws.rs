//! What is seen of the applet, and what the mouse does to it.

use vstd::prelude::*;

use crate::applet::{Applet, Command, Message, PopupId, WindowControlAction};
use crate::applet_laws::leads_to;
use crate::config::AppletConfig;
use crate::desktop::{DisplayWindow, WindowMenuAction};
use crate::panel::{
    are_controls_of, are_tiles_of, style_of, ContextMenuPanel, ControlButton, MenuItem, PopupView,
    SettingsControl, SettingsPanel, ThemeColor, Tile, WindowTile,
};

verus! {

/// The action that an item of the context menu runs, if it runs one.
pub open spec fn runs(item: MenuItem) -> Option<WindowMenuAction> {
    match item {
        MenuItem::Entry(entry) => match entry.on_press {
            Some(Message::RunWindowAction(action)) => Some(action),
            _ => None,
        },
        _ => None,
    }
}

/// An entry of the context menu that runs an action is labelled with that action's name. The
/// actions that the entries run are those of the window, each by one entry, in their order; what
/// stands around them runs none.
pub proof fn law_each_entry_runs_the_action_that_it_names(
    panel: ContextMenuPanel,
    window: DisplayWindow,
)
    requires
        panel.is_about(Some(window)),
    ensures
        forall|k: int|
            0 <= k < panel.items@.len() && runs(#[trigger] panel.items@[k]) is Some
                ==> panel.items@[k]->Entry_0.label@ == runs(panel.items@[k])->0.name@,
        forall|i: int|
            #![trigger window.menu_actions@[i]]
            0 <= i < window.menu_actions@.len() ==> runs(panel.items@[2 + i]) == Some(
                window.menu_actions@[i],
            ),
        forall|k: int|
            0 <= k < panel.items@.len() && runs(#[trigger] panel.items@[k]) is Some ==> 2 <= k < 2
                + window.menu_actions@.len(),
        panel.items@.len() == if window.menu_actions@.len() == 0 {
            5
        } else {
            4 + window.menu_actions@.len()
        },
{
}

/// The context menu has its title first and the way to the settings last, each behind a divider
/// from what is between. The title is that of the window's application, with its icon. A window
/// without actions, and a menu whose window is gone, say so in an entry that cannot be pressed.
pub proof fn law_the_menu_is_laid_out(panel: ContextMenuPanel, window: Option<DisplayWindow>)
    requires
        panel.is_about(window),
    ensures
        ({
            let items = panel.items@;
            let n = items.len() as int;
            &&& n >= 5
            &&& items[0] matches MenuItem::Title(title) && (window matches Some(window) ==> title.label@
                == window.app_name@ && title.icon == window.icon) && (window is None
                ==> title.label@ == "Workspace Windows"@ && title.icon is None
                && title.controls@.len() == 0)
            &&& items[1] is Divider
            &&& items[n - 2] is Divider
            &&& items[n - 1] matches MenuItem::Entry(entry) && entry.label@
                == "Workspace Windows Settings"@ && entry.on_press == Some(
                Message::OpenSettingsPopup,
            )
            &&& forall|k: int| 2 <= k < n - 2 ==> (#[trigger] items[k]) is Entry
            &&& (window matches Some(window) && window.menu_actions@.len() == 0 ==> n == 5
                && items[2]->Entry_0.label@ == "No application actions"@
                && items[2]->Entry_0.on_press is None)
            &&& (window is None ==> n == 5 && items[2]->Entry_0.label@ == "Window unavailable"@
                && items[2]->Entry_0.on_press is None)
        }),
{
}

/// The buttons in the menu's title minimize that window, maximize it where it is not maximized and
/// restore it where it is, and close it. The second shows which of the two it does.
pub proof fn law_the_buttons_control_their_window(
    applet: Applet,
    panel: ContextMenuPanel,
    window: DisplayWindow,
)
    requires
        panel.is_about(Some(window)),
    ensures
        panel.items@[0] matches MenuItem::Title(title) && {
            let buttons = title.controls@;
            let handle = window.handle;
            &&& buttons.len() == 3
            &&& leads_to(
                applet,
                buttons[0].on_press,
                Command::ControlWindow(WindowControlAction::Minimize(handle)),
            )
            &&& leads_to(
                applet,
                buttons[1].on_press,
                Command::ControlWindow(
                    WindowControlAction::SetMaximized(handle, !window.is_maximized),
                ),
            )
            &&& leads_to(
                applet,
                buttons[2].on_press,
                Command::ControlWindow(WindowControlAction::Close(handle)),
            )
        },
{
}

/// The buttons have the icons of what they do, are lit while the window has the focus, and stand
/// apart by the same space, but for the edge of the last.
pub proof fn law_the_buttons_show_what_they_do(
    buttons: Seq<ControlButton>,
    window: DisplayWindow,
)
    requires
        are_controls_of(buttons, window),
    ensures
        buttons.len() == 3,
        buttons[0].icon_name@ == "window-minimize-symbolic"@,
        window.is_maximized ==> buttons[1].icon_name@ == "window-restore-symbolic"@,
        !window.is_maximized ==> buttons[1].icon_name@ == "window-maximize-symbolic"@,
        buttons[2].icon_name@ == "window-close-symbolic"@,
        forall|i: int|
            0 <= i < 3 ==> (#[trigger] buttons[i]).is_selected == window.is_active
                && buttons[i].padding.top == 8 && buttons[i].padding.bottom == 8
                && buttons[i].padding.left == 8 && buttons[i].padding.right == if i == 2 {
                4u16
            } else {
                8u16
            },
{
}

/// A press on an entry of the context menu starts the action that the entry names, once the menu
/// has closed.
pub proof fn law_a_pressed_entry_starts_its_action(
    applet: Applet,
    panel: ContextMenuPanel,
    window: DisplayWindow,
    i: int,
)
    requires
        panel.is_about(Some(window)),
        0 <= i < window.menu_actions@.len(),
    ensures
        panel.items@[2 + i] matches MenuItem::Entry(entry) && entry.label@
            == window.menu_actions@[i].name@ && (entry.on_press matches Some(message) && leads_to(
            applet,
            message,
            Command::Launch(window.menu_actions@[i]),
        )),
{
}

/// A press on a tile gives its window the focus, one with the right button opens the menu of that
/// window, and one with the middle button closes it, where that is on. The cursor on a tile hovers
/// over its window and no longer when it leaves.
pub proof fn law_a_tile_acts_on_its_window(applet: Applet, tile: WindowTile, window: DisplayWindow)
    requires
        tile.shows(applet, window),
    ensures
        applet.reply(tile.on_press) == Command::FocusWindow(window.handle),
        applet.settings_popup is None && applet.context_menu_popup is None ==> applet.reply(
            tile.on_right_press,
        ) == Command::OpenContextMenu && applet.after(tile.on_right_press).context_menu_window
            == Some(window.handle),
        tile.on_middle_press is Some <==> applet.config.middle_click_closes,
        tile.on_middle_press matches Some(message) ==> leads_to(
            applet,
            message,
            Command::ControlWindow(WindowControlAction::Close(window.handle)),
        ),
        applet.after(tile.on_enter).hovered_window == Some(window.handle),
        applet.after(tile.on_move).hovered_window == Some(window.handle),
        applet.after(tile.on_enter).after(tile.on_exit).hovered_window is None,
{
}

/// The tile that the cursor is on, and no other, is drawn with a line around it; the tile of the
/// window with the focus, and no other, in the colour of the accent.
pub proof fn law_a_tile_shows_focus_and_cursor(
    applet: Applet,
    tile: WindowTile,
    window: DisplayWindow,
)
    requires
        tile.shows(applet, window),
    ensures
        ({
            let style = tile.style;
            let hovered = applet.hovered_window == Some(window.handle);
            &&& hovered ==> style.border_width == 1 && style.border_color != ThemeColor::Transparent
            &&& !hovered ==> style.border_width == 0 && style.border_color
                == ThemeColor::Transparent
            &&& window.is_active ==> style.foreground == ThemeColor::AccentButtonOn
            &&& !window.is_active ==> style.foreground == ThemeColor::BackgroundComponentOn
            &&& window.is_active ==> style.background == if hovered {
                ThemeColor::AccentButtonHover
            } else {
                ThemeColor::AccentButtonBase
            }
            &&& !window.is_active ==> style.background == if hovered {
                ThemeColor::BackgroundComponentHover
            } else {
                ThemeColor::BackgroundComponentBase
            }
            &&& hovered ==> style.border_color == if window.is_active {
                ThemeColor::AccentBase
            } else {
                ThemeColor::BackgroundDivider
            }
        }),
{
}

/// No two of the four ways to draw a tile look the same.
pub proof fn law_styles_tell_tiles_apart(a: bool, b: bool, c: bool, d: bool)
    ensures
        style_of(a, b) == style_of(c, d) <==> a == c && b == d,
{
}

/// The panel has a tile for each window, in their order, with the window's icon and its title, of
/// which as much is shown as the limit allows. Without windows it has one tile, which says
/// `Desktop`.
pub proof fn law_each_window_has_its_tile(tiles: Seq<Tile>, applet: Applet)
    requires
        are_tiles_of(tiles, applet),
    ensures
        applet.windows@.len() == 0 ==> tiles.len() == 1 && (tiles[0] matches Tile::Empty(tile)
            && tile.text@ == "Desktop"@ && tile.background == ThemeColor::BackgroundComponentBase
            && tile.foreground == ThemeColor::BackgroundComponentOn),
        applet.windows@.len() > 0 ==> tiles.len() == applet.windows@.len(),
        forall|i: int|
            #![trigger applet.windows@[i]]
            0 <= i < applet.windows@.len() ==> (tiles[i] matches Tile::Window(tile) && tile.shows(
                applet,
                applet.windows@[i],
            ) && tile.icon == applet.windows@[i].icon && is_title_within(
                tile.text@,
                applet.windows@[i].title@,
                applet.config.max_title_chars as int,
            )),
{
    assert forall|i: int|
        #![trigger applet.windows@[i]]
        0 <= i < applet.windows@.len() implies (tiles[i] matches Tile::Window(tile) && tile.shows(
        applet,
        applet.windows@[i],
    ) && is_title_within(
        tile.text@,
        applet.windows@[i].title@,
        applet.config.max_title_chars as int,
    )) by {
        assert(tiles[i] is Window);
    }
}

/// Whether `text` is `title` where that has at most `limit` characters, and else as much of its
/// beginning as leaves room for three dots, and the dots.
pub open spec fn is_title_within(text: Seq<char>, title: Seq<char>, limit: int) -> bool {
    if title.len() <= limit {
        text == title
    } else {
        let keep = if limit < 3 { 0 } else { limit - 3 };
        &&& text.len() == keep + 3
        &&& forall|i: int| 0 <= i < keep ==> #[trigger] text[i] == title[i]
        &&& forall|i: int| keep <= i < keep + 3 ==> #[trigger] text[i] == '.'
    }
}

/// The settings show what is set, each under its own words, and to change one changes what it
/// shows.
pub proof fn law_the_settings_show_what_is_set(panel: SettingsPanel, applet: Applet)
    requires
        panel.is_of(applet),
    ensures
        panel.title@ == "Workspace Windows"@,
        panel.caption@ == "Changes apply immediately and are saved automatically."@,
        panel.sections@.len() == 2,
        panel.sections@[0].title@ == "Display"@,
        panel.sections@[1].title@ == "Actions"@,
        panel.sections@[0].items@.len() == 2,
        panel.sections@[1].items@.len() == 1,
        ({
            let item = panel.sections@[0].items@[0];
            &&& item.label@ == "Show application icons"@
            &&& item.description@ == "Display the desktop icon before each window title."@
            &&& item.control == SettingsControl::ShowAppIcons(applet.config.show_app_icons)
        }),
        ({
            let item = panel.sections@[0].items@[1];
            &&& item.label@ == "Maximum title length"@
            &&& item.description@ == "Limit how many characters each window title can use."@
            &&& item.control matches SettingsControl::MaxTitleChars { value, step, min, max }
            &&& value == applet.config.max_title_chars
            &&& step == 1
            &&& min == applet.title_limits.min
            &&& max == applet.title_limits.max
        }),
        ({
            let item = panel.sections@[1].items@[0];
            &&& item.label@ == "Middle-click closes windows"@
            &&& item.description@ == "Close a window directly by middle-clicking its tile."@
            &&& item.control == SettingsControl::MiddleClickCloses(
                applet.config.middle_click_closes,
            )
        }),
{
}

/// A setting that is changed is shown as it was changed.
pub proof fn law_a_changed_setting_is_shown(
    applet: Applet,
    value: bool,
    icons: SettingsPanel,
    clicks: SettingsPanel,
)
    requires
        icons.is_of(applet.after(Message::SetShowAppIcons(value))),
        clicks.is_of(applet.after(Message::SetMiddleClickCloses(value))),
    ensures
        icons.sections@[0].items@[0].control == SettingsControl::ShowAppIcons(value),
        clicks.sections@[1].items@[0].control == SettingsControl::MiddleClickCloses(value),
{
}

/// To turn a switch of the settings, or to change their number, sets what that control shows: the
/// applet then has the value that was chosen, and the settings show it.
pub proof fn law_a_control_sets_what_it_shows(
    applet: Applet,
    panel: SettingsPanel,
    value: bool,
    chars: usize,
)
    requires
        panel.is_of(applet),
        applet.title_limits.min <= chars <= applet.title_limits.max,
    ensures
        panel.sections@[0].items@[0].control.toggled(value) matches Some(message) && applet.after(
            message,
        ).config == (AppletConfig { show_app_icons: value, ..applet.config }),
        panel.sections@[0].items@[1].control.changed(chars) matches Some(message) && applet.after(
            message,
        ).config == (AppletConfig { max_title_chars: chars, ..applet.config }),
        panel.sections@[1].items@[0].control.toggled(value) matches Some(message) && applet.after(
            message,
        ).config == (AppletConfig { middle_click_closes: value, ..applet.config }),
        panel.sections@[0].items@[0].control.changed(chars) is None,
        panel.sections@[0].items@[1].control.toggled(value) is None,
        panel.sections@[1].items@[0].control.changed(chars) is None,
{
}

/// The settings' popup shows the settings and the context menu's the menu of its window; any other
/// shows nothing.
pub proof fn law_a_popup_shows_its_own(applet: Applet, id: PopupId, popup: PopupView)
    ensures
        popup.is_in(applet.with_settings(id), id) ==> popup is Settings && popup->Settings_0.is_of(
            applet.with_settings(id),
        ),
        applet.settings_popup != Some(id) && popup.is_in(applet.with_context_menu(id), id) ==> popup
            is ContextMenu && popup->ContextMenu_0.is_about(applet.context_window()),
        applet.settings_popup != Some(id) && applet.context_menu_popup != Some(id) && popup.is_in(
            applet,
            id,
        ) ==> popup is Empty,
{
}

} // verus!
