//! What the applet shows: the tiles in the panel and the contents of its popups.

use vstd::prelude::*;

use crate::applet::{Applet, Message, PopupId};
use crate::desktop::DisplayWindow;
use crate::text::truncate_title;

verus! {

/// A colour of the desktop's theme.
#[derive(Debug, Clone, Copy, PartialEq, Eq, Structural)]
pub enum ThemeColor {
    AccentBase,
    AccentButtonBase,
    AccentButtonHover,
    AccentButtonOn,
    BackgroundComponentBase,
    BackgroundComponentHover,
    BackgroundComponentOn,
    BackgroundDivider,
    Transparent,
}

/// How a window's tile is drawn.
#[derive(Debug, Clone, Copy, PartialEq, Eq, Structural)]
pub struct TileStyle {
    pub background: ThemeColor,
    pub foreground: ThemeColor,
    pub border_color: ThemeColor,
    pub border_width: u8,
}

/// How the tile of a window is drawn, by whether the window has the focus and whether the
/// cursor is on the tile.
pub open spec fn style_of(is_active: bool, is_hovered: bool) -> TileStyle {
    TileStyle {
        background: if is_active && is_hovered {
            ThemeColor::AccentButtonHover
        } else if is_active {
            ThemeColor::AccentButtonBase
        } else if is_hovered {
            ThemeColor::BackgroundComponentHover
        } else {
            ThemeColor::BackgroundComponentBase
        },
        foreground: if is_active {
            ThemeColor::AccentButtonOn
        } else {
            ThemeColor::BackgroundComponentOn
        },
        border_color: if !is_hovered {
            ThemeColor::Transparent
        } else if is_active {
            ThemeColor::AccentBase
        } else {
            ThemeColor::BackgroundDivider
        },
        border_width: if is_hovered { 1 } else { 0 },
    }
}

/// How the tile of a window is drawn.
pub fn tile_style(is_active: bool, is_hovered: bool) -> (r: TileStyle)
    ensures
        r == style_of(is_active, is_hovered),
{
    if is_active {
        TileStyle {
            background: if is_hovered {
                ThemeColor::AccentButtonHover
            } else {
                ThemeColor::AccentButtonBase
            },
            foreground: ThemeColor::AccentButtonOn,
            border_color: if is_hovered {
                ThemeColor::AccentBase
            } else {
                ThemeColor::Transparent
            },
            border_width: if is_hovered { 1 } else { 0 },
        }
    } else {
        TileStyle {
            background: if is_hovered {
                ThemeColor::BackgroundComponentHover
            } else {
                ThemeColor::BackgroundComponentBase
            },
            foreground: ThemeColor::BackgroundComponentOn,
            border_color: if is_hovered {
                ThemeColor::BackgroundDivider
            } else {
                ThemeColor::Transparent
            },
            border_width: if is_hovered { 1 } else { 0 },
        }
    }
}

/// The tile of a window, with the messages that the mouse sends from it.
#[derive(Debug)]
pub struct WindowTile {
    pub text: String,
    pub icon: Option<String>,
    pub style: TileStyle,
    pub on_enter: Message,
    pub on_move: Message,
    pub on_exit: Message,
    pub on_press: Message,
    pub on_right_press: Message,
    pub on_middle_press: Option<Message>,
}

impl WindowTile {
    /// Whether this is the tile of `window` in `applet`.
    pub open spec fn shows(self, applet: Applet, window: DisplayWindow) -> bool {
        &&& self.text@ == crate::text::truncated(
            window.title@,
            applet.config.max_title_chars as nat,
        )
        &&& self.icon == window.icon
        &&& self.style == style_of(
            window.is_active,
            applet.hovered_window == Some(window.handle),
        )
        &&& self.on_enter == Message::HoverWindow(window.handle)
        &&& self.on_move == Message::HoverWindow(window.handle)
        &&& self.on_exit == Message::ClearHoveredWindow(window.handle)
        &&& self.on_press == Message::FocusWindow(window.handle)
        &&& self.on_right_press == Message::OpenWindowContextMenu(window.handle)
        &&& self.on_middle_press == if applet.config.middle_click_closes {
            Some(Message::CloseWindow(window.handle))
        } else {
            None
        }
    }
}

/// The tile that stands in the panel while there is no window.
#[derive(Debug)]
pub struct EmptyTile {
    pub text: String,
    pub background: ThemeColor,
    pub foreground: ThemeColor,
}

impl EmptyTile {
    /// Whether this is that tile.
    pub open spec fn wf(self) -> bool {
        &&& self.text@ == "Desktop"@
        &&& self.background == ThemeColor::BackgroundComponentBase
        &&& self.foreground == ThemeColor::BackgroundComponentOn
    }
}

/// A tile in the panel.
#[derive(Debug)]
pub enum Tile {
    Empty(EmptyTile),
    Window(WindowTile),
}

/// The applet in the panel.
#[derive(Debug)]
pub struct PanelView {
    pub tiles: Vec<Tile>,
    pub height: u16,
    pub icon_size: u16,
    pub side_padding: u16,
}

/// Whether `tiles` are the tiles of `applet`: one for each window, in their order, or the empty
/// tile alone.
pub open spec fn are_tiles_of(tiles: Seq<Tile>, applet: Applet) -> bool {
    if applet.windows@.len() == 0 {
        tiles.len() == 1 && tiles[0] is Empty && tiles[0]->Empty_0.wf()
    } else {
        &&& tiles.len() == applet.windows@.len()
        &&& forall|i: int|
            0 <= i < tiles.len() ==> (#[trigger] tiles[i]) is Window
                && tiles[i]->Window_0.shows(applet, applet.windows@[i])
    }
}

/// The space around a button's icon.
#[derive(Debug, Clone, Copy, PartialEq, Eq, Structural)]
pub struct Padding {
    pub top: u16,
    pub right: u16,
    pub bottom: u16,
    pub left: u16,
}

/// A button in the title of the context menu.
#[derive(Debug)]
pub struct ControlButton {
    pub icon_name: &'static str,
    pub on_press: Message,
    pub is_selected: bool,
    pub padding: Padding,
}

impl ControlButton {
    /// Whether this is the button of that icon and message.
    pub open spec fn is_for(
        self,
        icon_name: Seq<char>,
        on_press: Message,
        is_selected: bool,
        padding: Padding,
    ) -> bool {
        &&& self.icon_name@ == icon_name
        &&& self.on_press == on_press
        &&& self.is_selected == is_selected
        &&& self.padding == padding
    }
}

/// Whether `buttons` minimize, maximize (or restore) and close `window`, in this order.
pub open spec fn are_controls_of(buttons: Seq<ControlButton>, window: DisplayWindow) -> bool {
    let even = Padding { top: 8, right: 8, bottom: 8, left: 8 };
    &&& buttons.len() == 3
    &&& buttons[0].is_for(
        "window-minimize-symbolic"@,
        Message::MinimizeWindow(window.handle),
        window.is_active,
        even,
    )
    &&& buttons[1].is_for(
        if window.is_maximized {
            "window-restore-symbolic"@
        } else {
            "window-maximize-symbolic"@
        },
        Message::SetWindowMaximized(window.handle, !window.is_maximized),
        window.is_active,
        even,
    )
    &&& buttons[2].is_for(
        "window-close-symbolic"@,
        Message::CloseWindow(window.handle),
        window.is_active,
        Padding { right: 4, ..even },
    )
}

/// The buttons that minimize, maximize (or restore) and close a window.
pub fn context_menu_window_controls(window: &DisplayWindow) -> (r: Vec<ControlButton>)
    ensures
        are_controls_of(r@, *window),
{
    let even = Padding { top: 8, right: 8, bottom: 8, left: 8 };
    let mut buttons: Vec<ControlButton> = Vec::new();
    buttons.push(
        ControlButton {
            icon_name: "window-minimize-symbolic",
            on_press: Message::MinimizeWindow(window.handle),
            is_selected: window.is_active,
            padding: even,
        },
    );
    buttons.push(
        ControlButton {
            icon_name: if window.is_maximized {
                "window-restore-symbolic"
            } else {
                "window-maximize-symbolic"
            },
            on_press: Message::SetWindowMaximized(window.handle, !window.is_maximized),
            is_selected: window.is_active,
            padding: even,
        },
    );
    buttons.push(
        ControlButton {
            icon_name: "window-close-symbolic",
            on_press: Message::CloseWindow(window.handle),
            is_selected: window.is_active,
            padding: Padding { top: 8, right: 4, bottom: 8, left: 8 },
        },
    );
    buttons
}

/// An entry of the context menu. One without a message cannot be chosen.
#[derive(Debug)]
pub struct MenuEntry {
    pub label: String,
    pub on_press: Option<Message>,
}

impl MenuEntry {
    /// Whether this is the entry of that label and message.
    pub open spec fn is_for(self, label: Seq<char>, on_press: Option<Message>) -> bool {
        self.label@ == label && self.on_press == on_press
    }
}

/// The title of the context menu.
#[derive(Debug)]
pub struct MenuTitle {
    pub icon: Option<String>,
    pub label: String,
    pub controls: Vec<ControlButton>,
}

impl MenuTitle {
    /// Whether this is the title of the context menu of `window`, or of none where the window is
    /// gone.
    pub open spec fn is_about(self, window: Option<DisplayWindow>) -> bool {
        match window {
            Some(window) => {
                &&& self.icon == window.icon
                &&& self.label@ == window.app_name@
                &&& are_controls_of(self.controls@, window)
            },
            None => {
                &&& self.icon is None
                &&& self.label@ == "Workspace Windows"@
                &&& self.controls@.len() == 0
            },
        }
    }
}

/// A part of the context menu.
#[derive(Debug)]
pub enum MenuItem {
    Title(MenuTitle),
    Divider,
    Entry(MenuEntry),
}

/// The contents of the context menu, from top to bottom.
#[derive(Debug)]
pub struct ContextMenuPanel {
    pub items: Vec<MenuItem>,
}

/// Whether `entries` are what the context menu of `window` offers: the actions of its
/// application, or the word that there are none, or that the window is gone.
pub open spec fn are_entries_of(entries: Seq<MenuEntry>, window: Option<DisplayWindow>) -> bool {
    match window {
        Some(window) if window.menu_actions@.len() > 0 => {
            let actions = window.menu_actions@;
            &&& entries.len() == actions.len()
            &&& forall|i: int|
                0 <= i < entries.len() ==> (#[trigger] entries[i]).is_for(
                    actions[i].name@,
                    Some(Message::RunWindowAction(actions[i])),
                )
        },
        Some(_) => entries.len() == 1 && entries[0].is_for("No application actions"@, None),
        None => entries.len() == 1 && entries[0].is_for("Window unavailable"@, None),
    }
}

impl ContextMenuPanel {
    /// Whether this is the context menu of `window`, or of none where the window is gone: the
    /// title, a divider, the entries, a divider and the way to the settings.
    pub open spec fn is_about(self, window: Option<DisplayWindow>) -> bool {
        exists|title: MenuTitle, entries: Seq<MenuEntry>, settings: MenuEntry|
            self.items@ == #[trigger] menu_items(title, entries, settings) && title.is_about(
                window,
            ) && are_entries_of(entries, window) && settings.is_for(
                "Workspace Windows Settings"@,
                Some(Message::OpenSettingsPopup),
            )
    }
}

/// The parts of a context menu, from top to bottom.
pub open spec fn menu_items(
    title: MenuTitle,
    entries: Seq<MenuEntry>,
    settings: MenuEntry,
) -> Seq<MenuItem> {
    seq![MenuItem::Title(title), MenuItem::Divider] + entries.map_values(
        |entry: MenuEntry| MenuItem::Entry(entry),
    ) + seq![MenuItem::Divider, MenuItem::Entry(settings)]
}

/// What a control of the settings sets, from the value that it has now.
#[derive(Debug, Clone, Copy, PartialEq, Eq, Structural)]
pub enum SettingsControl {
    ShowAppIcons(bool),
    MaxTitleChars { value: usize, step: usize, min: usize, max: usize },
    MiddleClickCloses(bool),
}

impl SettingsControl {
    /// The message of a switch that is turned. A number is no switch.
    pub open spec fn toggled(self, value: bool) -> Option<Message> {
        match self {
            SettingsControl::ShowAppIcons(_) => Some(Message::SetShowAppIcons(value)),
            SettingsControl::MiddleClickCloses(_) => Some(Message::SetMiddleClickCloses(value)),
            SettingsControl::MaxTitleChars { .. } => None,
        }
    }

    /// The message of a number that is changed. A switch is no number.
    pub open spec fn changed(self, value: usize) -> Option<Message> {
        match self {
            SettingsControl::MaxTitleChars { .. } => Some(Message::SetMaxTitleChars(value)),
            _ => None,
        }
    }

    /// The message of a switch that is turned. A number is no switch.
    pub fn on_toggle(&self, value: bool) -> (r: Option<Message>)
        ensures
            r == self.toggled(value),
    {
        match self {
            SettingsControl::ShowAppIcons(_) => Some(Message::SetShowAppIcons(value)),
            SettingsControl::MiddleClickCloses(_) => Some(Message::SetMiddleClickCloses(value)),
            SettingsControl::MaxTitleChars { .. } => None,
        }
    }

    /// The message of a number that is changed. A switch is no number.
    pub fn on_change(&self, value: usize) -> (r: Option<Message>)
        ensures
            r == self.changed(value),
    {
        match self {
            SettingsControl::MaxTitleChars { .. } => Some(Message::SetMaxTitleChars(value)),
            _ => None,
        }
    }
}

/// One setting.
#[derive(Debug)]
pub struct SettingsItem {
    pub label: &'static str,
    pub description: &'static str,
    pub control: SettingsControl,
}

impl SettingsItem {
    /// Whether this is the setting of that label, description and control.
    pub open spec fn is_for(
        self,
        label: Seq<char>,
        description: Seq<char>,
        control: SettingsControl,
    ) -> bool {
        self.label@ == label && self.description@ == description && self.control == control
    }
}

/// Settings under one title.
#[derive(Debug)]
pub struct SettingsSection {
    pub title: &'static str,
    pub items: Vec<SettingsItem>,
}

/// The contents of the settings' popup.
#[derive(Debug)]
pub struct SettingsPanel {
    pub title: &'static str,
    pub caption: &'static str,
    pub sections: Vec<SettingsSection>,
}

impl SettingsPanel {
    /// Whether these are the settings of `applet`, with the values that they have now.
    pub open spec fn is_of(self, applet: Applet) -> bool {
        &&& self.title@ == "Workspace Windows"@
        &&& self.caption@ == "Changes apply immediately and are saved automatically."@
        &&& self.sections@.len() == 2
        &&& self.sections@[0].title@ == "Display"@
        &&& self.sections@[0].items@.len() == 2
        &&& self.sections@[0].items@[0].is_for(
            "Show application icons"@,
            "Display the desktop icon before each window title."@,
            SettingsControl::ShowAppIcons(applet.config.show_app_icons),
        )
        &&& self.sections@[0].items@[1].is_for(
            "Maximum title length"@,
            "Limit how many characters each window title can use."@,
            SettingsControl::MaxTitleChars {
                value: applet.config.max_title_chars,
                step: 1,
                min: applet.title_limits.min,
                max: applet.title_limits.max,
            },
        )
        &&& self.sections@[1].title@ == "Actions"@
        &&& self.sections@[1].items@.len() == 1
        &&& self.sections@[1].items@[0].is_for(
            "Middle-click closes windows"@,
            "Close a window directly by middle-clicking its tile."@,
            SettingsControl::MiddleClickCloses(applet.config.middle_click_closes),
        )
    }
}

/// The contents of a popup.
#[derive(Debug)]
pub enum PopupView {
    Settings(SettingsPanel),
    ContextMenu(ContextMenuPanel),
    Empty,
}

impl PopupView {
    /// Whether these are the contents of the popup `id` of `applet`.
    pub open spec fn is_in(self, applet: Applet, id: PopupId) -> bool {
        if applet.settings_popup == Some(id) {
            self is Settings && self->Settings_0.is_of(applet)
        } else if applet.context_menu_popup == Some(id) {
            self is ContextMenu && self->ContextMenu_0.is_about(applet.context_window())
        } else {
            self is Empty
        }
    }
}

fn menu_title(window: Option<&DisplayWindow>) -> (r: MenuTitle)
    ensures
        r.is_about(
            match window {
                Some(window) => Some(*window),
                None => None,
            },
        ),
{
    match window {
        Some(window) => MenuTitle {
            icon: window.icon.clone(),
            label: window.app_name.clone(),
            controls: context_menu_window_controls(window),
        },
        None => MenuTitle {
            icon: None,
            label: "Workspace Windows".to_owned(),
            controls: Vec::new(),
        },
    }
}

fn menu_entries(window: Option<&DisplayWindow>) -> (r: Vec<MenuEntry>)
    ensures
        are_entries_of(
            r@,
            match window {
                Some(window) => Some(*window),
                None => None,
            },
        ),
{
    let mut entries: Vec<MenuEntry> = Vec::new();
    let window = match window {
        Some(window) => window,
        None => {
            entries.push(MenuEntry { label: "Window unavailable".to_owned(), on_press: None });
            return entries;
        },
    };
    if window.menu_actions.is_empty() {
        entries.push(MenuEntry { label: "No application actions".to_owned(), on_press: None });
        return entries;
    }
    let mut i: usize = 0;
    while i < window.menu_actions.len()
        invariant
            i <= window.menu_actions@.len(),
            entries@.len() == i,
            forall|j: int|
                0 <= j < i ==> (#[trigger] entries@[j]).is_for(
                    window.menu_actions@[j].name@,
                    Some(Message::RunWindowAction(window.menu_actions@[j])),
                ),
        decreases window.menu_actions@.len() - i,
    {
        let action = &window.menu_actions[i];
        entries.push(
            MenuEntry {
                label: action.name.clone(),
                on_press: Some(Message::RunWindowAction(action.clone())),
            },
        );
        i = i + 1;
    }
    entries
}

impl Applet {
    /// The tile of a window.
    pub fn window_tile(&self, window: &DisplayWindow) -> (r: WindowTile)
        ensures
            r.shows(*self, *window),
    {
        let is_hovered = match self.hovered_window {
            Some(hovered) => hovered == window.handle,
            None => false,
        };
        WindowTile {
            text: truncate_title(window.title.as_str(), self.max_chars()),
            icon: window.icon.clone(),
            style: tile_style(window.is_active, is_hovered),
            on_enter: Message::HoverWindow(window.handle),
            on_move: Message::HoverWindow(window.handle),
            on_exit: Message::ClearHoveredWindow(window.handle),
            on_press: Message::FocusWindow(window.handle),
            on_right_press: Message::OpenWindowContextMenu(window.handle),
            on_middle_press: if self.config.middle_click_closes {
                Some(Message::CloseWindow(window.handle))
            } else {
                None
            },
        }
    }

    /// The tile that stands in the panel while there is no window.
    pub fn empty_tile() -> (r: EmptyTile)
        ensures
            r.wf(),
    {
        EmptyTile {
            text: "Desktop".to_owned(),
            background: ThemeColor::BackgroundComponentBase,
            foreground: ThemeColor::BackgroundComponentOn,
        }
    }

    /// The applet in the panel, by the panel's size for an icon and for the space around it, each
    /// along the panel and across it.
    pub fn view(&self, suggested_size: (u16, u16), suggested_padding: (u16, u16)) -> (r: PanelView)
        requires
            suggested_size.1 + 2 * suggested_padding.1 <= u16::MAX,
        ensures
            are_tiles_of(r.tiles@, *self),
            r.height == suggested_size.1 + 2 * suggested_padding.1,
            r.icon_size == suggested_size.0,
            r.side_padding == suggested_padding.0,
    {
        let mut tiles: Vec<Tile> = Vec::new();
        if self.windows.is_empty() {
            tiles.push(Tile::Empty(Self::empty_tile()));
        } else {
            let mut i: usize = 0;
            while i < self.windows.len()
                invariant
                    i <= self.windows@.len(),
                    tiles@.len() == i,
                    forall|j: int|
                        0 <= j < i ==> (#[trigger] tiles@[j]) is Window
                            && tiles@[j]->Window_0.shows(*self, self.windows@[j]),
                decreases self.windows@.len() - i,
            {
                tiles.push(Tile::Window(self.window_tile(&self.windows[i])));
                i = i + 1;
            }
        }
        PanelView {
            tiles,
            height: suggested_size.1 + 2 * suggested_padding.1,
            icon_size: suggested_size.0,
            side_padding: suggested_padding.0,
        }
    }

    /// The contents of the settings' popup.
    pub fn settings_panel(&self) -> (r: SettingsPanel)
        ensures
            r.is_of(*self),
    {
        let mut display: Vec<SettingsItem> = Vec::new();
        display.push(
            SettingsItem {
                label: "Show application icons",
                description: "Display the desktop icon before each window title.",
                control: SettingsControl::ShowAppIcons(self.config.show_app_icons),
            },
        );
        display.push(
            SettingsItem {
                label: "Maximum title length",
                description: "Limit how many characters each window title can use.",
                control: SettingsControl::MaxTitleChars {
                    value: self.config.max_title_chars,
                    step: 1,
                    min: self.title_limits.min,
                    max: self.title_limits.max,
                },
            },
        );
        let mut actions: Vec<SettingsItem> = Vec::new();
        actions.push(
            SettingsItem {
                label: "Middle-click closes windows",
                description: "Close a window directly by middle-clicking its tile.",
                control: SettingsControl::MiddleClickCloses(self.config.middle_click_closes),
            },
        );
        let mut sections: Vec<SettingsSection> = Vec::new();
        sections.push(SettingsSection { title: "Display", items: display });
        sections.push(SettingsSection { title: "Actions", items: actions });
        SettingsPanel {
            title: "Workspace Windows",
            caption: "Changes apply immediately and are saved automatically.",
            sections,
        }
    }

    /// The contents of the context menu.
    pub fn context_menu_panel(&self) -> (r: ContextMenuPanel)
        ensures
            r.is_about(self.context_window()),
    {
        let window = self.selected_context_window();
        let title = menu_title(window);
        let entries = menu_entries(window);
        let settings = MenuEntry {
            label: "Workspace Windows Settings".to_owned(),
            on_press: Some(Message::OpenSettingsPopup),
        };
        let ghost expected = menu_items(title, entries@, settings);
        let ghost shown = entries@;
        let mut items: Vec<MenuItem> = Vec::new();
        items.push(MenuItem::Title(title));
        items.push(MenuItem::Divider);
        for entry in it: entries
            invariant
                it.seq() == shown,
                items@ == seq![MenuItem::Title(title), MenuItem::Divider] + shown.take(
                    it.index() as int,
                ).map_values(|entry: MenuEntry| MenuItem::Entry(entry)),
        {
            items.push(MenuItem::Entry(entry));
        }
        items.push(MenuItem::Divider);
        items.push(MenuItem::Entry(settings));
        assert(shown.take(shown.len() as int) =~= shown);
        assert(items@ =~= expected);
        ContextMenuPanel { items }
    }

    /// The contents of the popup `id`.
    pub fn view_window(&self, id: PopupId) -> (r: PopupView)
        ensures
            r.is_in(*self, id),
    {
        if let Some(popup) = self.settings_popup {
            if popup == id {
                return PopupView::Settings(self.settings_panel());
            }
        }
        if let Some(popup) = self.context_menu_popup {
            if popup == id {
                return PopupView::ContextMenu(self.context_menu_panel());
            }
        }
        PopupView::Empty
    }
}

} // verus!
