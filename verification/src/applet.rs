//! The applet's state, and what each message does to it.

use vstd::prelude::*;

use crate::config::{AppletConfig, TitleLimits};
use crate::desktop::{
    desktop_lookup, resolve_window, DesktopLookup, DisplayWindow, FoundEntry, WindowMenuAction,
    WorkspaceWindow,
};
use crate::wayland::WindowHandle;

verus! {

/// A popup surface.
#[derive(Debug, Clone, Copy, PartialEq, Eq, Structural)]
pub struct PopupId(pub u64);

/// A place in the applet, in whole pixels.
#[derive(Debug, Clone, Copy, PartialEq, Eq, Structural)]
pub struct CursorPosition {
    pub x: i32,
    pub y: i32,
}

/// The rectangle that a popup is anchored to.
#[derive(Debug, Clone, Copy, PartialEq, Eq, Structural)]
pub struct AnchorRect {
    pub x: i32,
    pub y: i32,
    pub width: i32,
    pub height: i32,
}

/// What can be asked of a window.
#[derive(Debug, Clone, Copy, PartialEq, Eq, Structural)]
pub enum WindowControlAction {
    Close(WindowHandle),
    Minimize(WindowHandle),
    SetMaximized(WindowHandle, bool),
}

/// What waits until the context menu is closed.
#[derive(Debug, Clone)]
pub enum DeferredMenuAction {
    LaunchDesktopAction(WindowMenuAction),
    OpenSettings,
    WindowControl(WindowControlAction),
}

/// What is told of the windows of the workspace.
#[derive(Debug, Clone)]
pub enum WorkspaceUpdate {
    WorkspaceWindows(Vec<WorkspaceWindow>),
    Finished,
}

/// What happens to the applet.
#[derive(Debug, Clone)]
pub enum Message {
    ClearHoveredWindow(WindowHandle),
    ClearHoveredWindowGlobal,
    CloseWindow(WindowHandle),
    DesktopActionFinished,
    FocusWindow(WindowHandle),
    HoverWindow(WindowHandle),
    MinimizeWindow(WindowHandle),
    OpenWindowContextMenu(WindowHandle),
    OpenSettingsPopup,
    PopupClosed(PopupId),
    RunWindowAction(WindowMenuAction),
    SetMaxTitleChars(usize),
    SetMiddleClickCloses(bool),
    SetShowAppIcons(bool),
    SetWindowMaximized(WindowHandle, bool),
    UpdateAppletCursor(CursorPosition),
    Wayland(WorkspaceUpdate),
}

/// What is to be done after a message.
#[derive(Debug)]
pub enum Command {
    /// Nothing.
    Nothing,
    /// Give a window the focus.
    FocusWindow(WindowHandle),
    /// Do what is asked of a window.
    ControlWindow(WindowControlAction),
    /// Start a command of an application.
    Launch(WindowMenuAction),
    /// Close a popup.
    DestroyPopup(PopupId),
    /// Open the context menu, then call [`Applet::context_menu_opened`].
    OpenContextMenu,
    /// Open the settings, then call [`Applet::settings_opened`].
    OpenSettings,
    /// Store the settings.
    SaveConfig(AppletConfig),
    /// Look up what [`Applet::desktop_lookups`] asks for, ask the message catalogues what
    /// [`crate::desktop::catalogue_questions`] says, then call [`Applet::rebuild_windows`].
    RebuildWindows,
}

/// The state of the applet.
pub struct Applet {
    pub config: AppletConfig,
    pub title_limits: TitleLimits,
    pub config_dirty: bool,
    pub context_menu_popup: Option<PopupId>,
    pub context_menu_window: Option<WindowHandle>,
    pub cursor_in_applet: Option<CursorPosition>,
    pub hovered_window: Option<WindowHandle>,
    pub pending_context_menu_window: Option<WindowHandle>,
    pub pending_menu_action: Option<DeferredMenuAction>,
    pub settings_popup: Option<PopupId>,
    pub source_windows: Vec<WorkspaceWindow>,
    pub windows: Vec<DisplayWindow>,
}

/// Whether one of `windows` has this handle.
pub open spec fn shows(windows: Seq<DisplayWindow>, handle: WindowHandle) -> bool {
    exists|i: int| 0 <= i < windows.len() && #[trigger] windows[i].handle == handle
}

/// `target`, unless it is none of `windows`.
pub open spec fn kept(target: Option<WindowHandle>, windows: Seq<DisplayWindow>) -> Option<
    WindowHandle,
> {
    match target {
        Some(handle) if shows(windows, handle) => Some(handle),
        _ => None,
    }
}

/// What a deferred action comes to once it is done.
pub open spec fn command_of(action: DeferredMenuAction) -> Command {
    match action {
        DeferredMenuAction::LaunchDesktopAction(action) => Command::Launch(action),
        DeferredMenuAction::OpenSettings => Command::OpenSettings,
        DeferredMenuAction::WindowControl(action) => Command::ControlWindow(action),
    }
}

/// The action that a message asks for by way of the context menu, if it asks for one.
pub open spec fn menu_action_of(message: Message) -> Option<DeferredMenuAction> {
    match message {
        Message::CloseWindow(handle) => Some(
            DeferredMenuAction::WindowControl(WindowControlAction::Close(handle)),
        ),
        Message::MinimizeWindow(handle) => Some(
            DeferredMenuAction::WindowControl(WindowControlAction::Minimize(handle)),
        ),
        Message::SetWindowMaximized(handle, maximized) => Some(
            DeferredMenuAction::WindowControl(
                WindowControlAction::SetMaximized(handle, maximized),
            ),
        ),
        Message::RunWindowAction(action) => Some(DeferredMenuAction::LaunchDesktopAction(action)),
        Message::OpenSettingsPopup => Some(DeferredMenuAction::OpenSettings),
        _ => None,
    }
}

fn has_window(windows: &Vec<DisplayWindow>, handle: WindowHandle) -> (r: bool)
    ensures
        r == shows(windows@, handle),
{
    let mut i: usize = 0;
    while i < windows.len()
        invariant
            i <= windows@.len(),
            forall|j: int| 0 <= j < i ==> (#[trigger] windows@[j]).handle != handle,
        decreases windows@.len() - i,
    {
        if windows[i].handle == handle {
            return true;
        }
        i = i + 1;
    }
    false
}

fn keep_shown(target: Option<WindowHandle>, windows: &Vec<DisplayWindow>) -> (r: Option<
    WindowHandle,
>)
    ensures
        r == kept(target, windows@),
{
    match target {
        Some(handle) => if has_window(windows, handle) {
            Some(handle)
        } else {
            None
        },
        None => None,
    }
}

fn is_popup(popup: Option<PopupId>, id: PopupId) -> (r: bool)
    ensures
        r == (popup == Some(id)),
{
    match popup {
        Some(popup) => popup == id,
        None => false,
    }
}

impl Applet {
    /// What holds of the applet at all times: at most one thing waits for the context menu to
    /// close, and only while it is open.
    pub open spec fn wf(self) -> bool {
        &&& self.title_limits.wf()
        &&& !(self.pending_menu_action is Some && self.pending_context_menu_window is Some)
        &&& self.pending_menu_action is Some || self.pending_context_menu_window is Some
            ==> self.context_menu_popup is Some
    }

    /// The applet with the settings `config`, which are stored later where they differ.
    pub open spec fn with_config(self, config: AppletConfig) -> Applet {
        Applet { config, config_dirty: self.config_dirty || config != self.config, ..self }
    }

    /// The applet after an action was asked for. It waits where the context menu is open.
    pub open spec fn after_action(self, action: DeferredMenuAction) -> Applet {
        if self.context_menu_popup is Some {
            Applet {
                pending_context_menu_window: None,
                pending_menu_action: Some(action),
                ..self
            }
        } else {
            self
        }
    }

    /// What is to be done after an action was asked for.
    pub open spec fn reply_to_action(self, action: DeferredMenuAction) -> Command {
        match self.context_menu_popup {
            Some(id) => Command::DestroyPopup(id),
            None => command_of(action),
        }
    }

    /// The applet after the popup `id` was closed.
    pub open spec fn after_popup_closed(self, id: PopupId) -> Applet {
        let menu_closed = self.context_menu_popup == Some(id);
        let after_menu = if menu_closed {
            Applet {
                context_menu_popup: None,
                context_menu_window: if self.pending_menu_action is Some {
                    None
                } else {
                    self.pending_context_menu_window
                },
                pending_menu_action: None,
                pending_context_menu_window: if self.pending_menu_action is Some {
                    self.pending_context_menu_window
                } else {
                    None
                },
                ..self
            }
        } else {
            self
        };
        if self.settings_popup == Some(id) && !(menu_closed && self.has_pending()) {
            Applet { settings_popup: None, config_dirty: false, ..after_menu }
        } else {
            after_menu
        }
    }

    /// Whether something waits for the context menu to close.
    pub open spec fn has_pending(self) -> bool {
        self.pending_menu_action is Some || self.pending_context_menu_window is Some
    }

    /// What is to be done after the popup `id` was closed.
    pub open spec fn reply_to_popup_closed(self, id: PopupId) -> Command {
        if self.context_menu_popup == Some(id) && self.pending_menu_action is Some {
            command_of(self.pending_menu_action->0)
        } else if self.context_menu_popup == Some(id) && self.pending_context_menu_window is Some {
            Command::OpenContextMenu
        } else if self.settings_popup == Some(id) && self.config_dirty {
            Command::SaveConfig(self.config)
        } else {
            Command::Nothing
        }
    }

    /// The applet after a message.
    pub open spec fn after(self, message: Message) -> Applet {
        match message {
            Message::ClearHoveredWindow(handle) => if self.hovered_window == Some(handle) {
                Applet { hovered_window: None, ..self }
            } else {
                self
            },
            Message::ClearHoveredWindowGlobal => Applet {
                hovered_window: None,
                cursor_in_applet: None,
                ..self
            },
            Message::HoverWindow(handle) => Applet { hovered_window: Some(handle), ..self },
            Message::UpdateAppletCursor(position) => Applet {
                cursor_in_applet: Some(position),
                ..self
            },
            Message::OpenWindowContextMenu(handle) => if self.settings_popup is Some {
                self
            } else if self.context_menu_popup is Some {
                Applet {
                    pending_context_menu_window: Some(handle),
                    pending_menu_action: None,
                    ..self
                }
            } else {
                Applet { context_menu_window: Some(handle), ..self }
            },
            Message::OpenSettingsPopup => if self.settings_popup is Some {
                self
            } else {
                self.after_action(DeferredMenuAction::OpenSettings)
            },
            Message::PopupClosed(id) => self.after_popup_closed(id),
            Message::SetMaxTitleChars(value) => self.with_config(
                AppletConfig { max_title_chars: self.title_limits.nearest(value), ..self.config },
            ),
            Message::SetMiddleClickCloses(value) => self.with_config(
                AppletConfig { middle_click_closes: value, ..self.config },
            ),
            Message::SetShowAppIcons(value) => self.with_config(
                AppletConfig { show_app_icons: value, ..self.config },
            ),
            Message::Wayland(WorkspaceUpdate::WorkspaceWindows(windows)) => Applet {
                source_windows: windows,
                ..self
            },
            Message::CloseWindow(_) | Message::MinimizeWindow(_) | Message::SetWindowMaximized(
                _,
                _,
            ) | Message::RunWindowAction(_) => self.after_action(menu_action_of(message)->0),
            Message::DesktopActionFinished | Message::FocusWindow(_) | Message::Wayland(
                WorkspaceUpdate::Finished,
            ) => self,
        }
    }

    /// What is to be done after a message.
    pub open spec fn reply(self, message: Message) -> Command {
        match message {
            Message::FocusWindow(handle) => Command::FocusWindow(handle),
            Message::OpenWindowContextMenu(handle) => if self.settings_popup is Some {
                Command::Nothing
            } else {
                match self.context_menu_popup {
                    Some(id) => Command::DestroyPopup(id),
                    None => Command::OpenContextMenu,
                }
            },
            Message::OpenSettingsPopup => if self.settings_popup is Some {
                Command::Nothing
            } else {
                self.reply_to_action(DeferredMenuAction::OpenSettings)
            },
            Message::PopupClosed(id) => self.reply_to_popup_closed(id),
            Message::SetShowAppIcons(value) => if value != self.config.show_app_icons {
                Command::RebuildWindows
            } else {
                Command::Nothing
            },
            Message::Wayland(WorkspaceUpdate::WorkspaceWindows(_)) => Command::RebuildWindows,
            Message::CloseWindow(_) | Message::MinimizeWindow(_) | Message::SetWindowMaximized(
                _,
                _,
            ) | Message::RunWindowAction(_) => self.reply_to_action(menu_action_of(message)->0),
            _ => Command::Nothing,
        }
    }

    /// The applet with these settings, before any message.
    pub fn init(config: AppletConfig, title_limits: TitleLimits) -> (r: Applet)
        requires
            title_limits.wf(),
        ensures
            r.wf(),
            r.config == config,
            r.title_limits == title_limits,
            !r.config_dirty,
            r.context_menu_popup is None,
            r.context_menu_window is None,
            r.cursor_in_applet is None,
            r.hovered_window is None,
            r.pending_context_menu_window is None,
            r.pending_menu_action is None,
            r.settings_popup is None,
            r.source_windows@.len() == 0,
            r.windows@.len() == 0,
    {
        Applet {
            config,
            title_limits,
            config_dirty: false,
            context_menu_popup: None,
            context_menu_window: None,
            cursor_in_applet: None,
            hovered_window: None,
            pending_context_menu_window: None,
            pending_menu_action: None,
            settings_popup: None,
            source_windows: Vec::new(),
            windows: Vec::new(),
        }
    }

    /// The settings, where they are still to be stored. From then on they count as stored.
    pub fn persist_config_if_dirty(&mut self) -> (r: Option<AppletConfig>)
        ensures
            *final(self) == (Applet { config_dirty: false, ..*old(self) }),
            r == (if old(self).config_dirty {
                Some(old(self).config)
            } else {
                None
            }),
    {
        if self.config_dirty {
            self.config_dirty = false;
            Some(self.config)
        } else {
            None
        }
    }

    /// The most characters that a title is shown with.
    pub fn max_chars(&self) -> (r: usize)
        ensures
            r == self.config.max_title_chars,
    {
        self.config.max_title_chars
    }

    /// The window that the context menu is about, while it is shown.
    pub open spec fn context_window(self) -> Option<DisplayWindow> {
        match self.context_menu_window {
            Some(handle) => crate::wayland::first_where(
                self.windows@,
                |window: DisplayWindow| window.handle == handle,
            ),
            None => None,
        }
    }

    /// The window that the context menu is about, while it is shown.
    pub fn selected_context_window(&self) -> (r: Option<&DisplayWindow>)
        ensures
            match r {
                Some(window) => self.context_window() == Some(*window),
                None => self.context_window() is None,
            },
    {
        let handle = match self.context_menu_window {
            Some(handle) => handle,
            None => {
                return None;
            },
        };
        let ghost wanted = |window: DisplayWindow| window.handle == handle;
        let mut i: usize = 0;
        assert(self.windows@.skip(0) =~= self.windows@);
        while i < self.windows.len()
            invariant
                i <= self.windows@.len(),
                self.context_menu_window == Some(handle),
                wanted == (|window: DisplayWindow| window.handle == handle),
                crate::wayland::first_where(self.windows@, wanted) == crate::wayland::first_where(
                    self.windows@.skip(i as int),
                    wanted,
                ),
            decreases self.windows@.len() - i,
        {
            assert(self.windows@.skip(i as int)[0] == self.windows@[i as int]);
            if self.windows[i].handle == handle {
                return Some(&self.windows[i]);
            }
            assert(self.windows@.skip(i as int).drop_first() =~= self.windows@.skip(i + 1));
            i = i + 1;
        }
        None
    }

    /// What an action of the context menu comes to.
    pub fn run_deferred_menu_action(action: DeferredMenuAction) -> (r: Command)
        ensures
            r == command_of(action),
    {
        match action {
            DeferredMenuAction::LaunchDesktopAction(action) => Command::Launch(action),
            DeferredMenuAction::OpenSettings => Command::OpenSettings,
            DeferredMenuAction::WindowControl(action) => Command::ControlWindow(action),
        }
    }

    /// Does an action, or closes the context menu first and lets the action wait for that.
    pub fn queue_or_run_menu_action(&mut self, action: DeferredMenuAction) -> (r: Command)
        ensures
            *final(self) == old(self).after_action(action),
            r == old(self).reply_to_action(action),
            old(self).wf() ==> final(self).wf(),
    {
        match self.context_menu_popup {
            Some(id) => {
                self.pending_context_menu_window = None;
                self.pending_menu_action = Some(action);
                Command::DestroyPopup(id)
            },
            None => Self::run_deferred_menu_action(action),
        }
    }

    /// By what the desktop entries of the windows are looked up, window by window.
    pub fn desktop_lookups(&self) -> (r: Vec<Option<DesktopLookup>>)
        ensures
            r@.len() == self.source_windows@.len(),
            forall|i: int|
                0 <= i < r@.len() ==> #[trigger] r@[i] == self.source_windows@[i].lookup(),
    {
        let mut lookups: Vec<Option<DesktopLookup>> = Vec::new();
        let mut i: usize = 0;
        while i < self.source_windows.len()
            invariant
                i <= self.source_windows@.len(),
                lookups@.len() == i,
                forall|j: int|
                    0 <= j < i ==> #[trigger] lookups@[j] == self.source_windows@[j].lookup(),
            decreases self.source_windows@.len() - i,
        {
            lookups.push(desktop_lookup(&self.source_windows[i]));
            i = i + 1;
        }
        lookups
    }

    /// Whether `windows` are the windows of the workspace as they are shown, by these entries.
    pub open spec fn resolved(
        self,
        windows: Seq<DisplayWindow>,
        entries: Seq<Option<FoundEntry>>,
        locales: Seq<Seq<char>>,
    ) -> bool {
        &&& windows.len() == self.source_windows@.len()
        &&& forall|i: int|
            0 <= i < windows.len() ==> (#[trigger] windows[i])@ == self.source_windows@[i].displayed(
                crate::desktop::found_of(entries[i]),
                locales,
                self.config.show_app_icons,
            )
    }

    /// Whether `after` is the applet once the windows are shown anew, by these entries.
    pub open spec fn rebuilt(
        self,
        after: Applet,
        entries: Seq<Option<FoundEntry>>,
        locales: Seq<Seq<char>>,
    ) -> bool {
        &&& self.resolved(after.windows@, entries, locales)
        &&& after == Applet {
            windows: after.windows,
            hovered_window: kept(self.hovered_window, after.windows@),
            context_menu_window: kept(self.context_menu_window, after.windows@),
            pending_context_menu_window: kept(self.pending_context_menu_window, after.windows@),
            ..self
        }
    }

    /// Shows the windows of the workspace, by the desktop entries that were found for them. What
    /// refers to a window that is gone is dropped.
    pub fn rebuild_windows(&mut self, entries: &Vec<Option<FoundEntry>>, locales: &Vec<String>)
        requires
            entries@.len() == old(self).source_windows@.len(),
        ensures
            old(self).rebuilt(*final(self), entries@, crate::desktop::texts_of(locales@)),
            old(self).wf() ==> final(self).wf(),
    {
        let mut windows: Vec<DisplayWindow> = Vec::new();
        let mut i: usize = 0;
        while i < self.source_windows.len()
            invariant
                *self == *old(self),
                i <= self.source_windows@.len(),
                entries@.len() == self.source_windows@.len(),
                windows@.len() == i,
                forall|j: int|
                    0 <= j < i ==> (#[trigger] windows@[j])@ == self.source_windows@[j].displayed(
                        crate::desktop::found_of(entries@[j]),
                        crate::desktop::texts_of(locales@),
                        self.config.show_app_icons,
                    ),
            decreases self.source_windows@.len() - i,
        {
            windows.push(
                resolve_window(
                    &self.source_windows[i],
                    &entries[i],
                    locales,
                    self.config.show_app_icons,
                ),
            );
            i = i + 1;
        }
        self.hovered_window = keep_shown(self.hovered_window, &windows);
        self.context_menu_window = keep_shown(self.context_menu_window, &windows);
        self.pending_context_menu_window = keep_shown(self.pending_context_menu_window, &windows);
        self.windows = windows;
    }

    /// Where a popup is anchored: at the cursor, where it is known.
    pub open spec fn anchor(self) -> Option<AnchorRect> {
        match self.cursor_in_applet {
            Some(position) => Some(
                AnchorRect { x: position.x, y: position.y, width: 1, height: 1 },
            ),
            None => None,
        }
    }

    /// The applet with the context menu open in the popup `id`.
    pub open spec fn with_context_menu(self, id: PopupId) -> Applet {
        Applet { context_menu_popup: Some(id), ..self }
    }

    /// The applet with the settings open in the popup `id`.
    pub open spec fn with_settings(self, id: PopupId) -> Applet {
        Applet { settings_popup: Some(id), ..self }
    }

    fn anchor_rect(&self) -> (r: Option<AnchorRect>)
        ensures
            r == self.anchor(),
    {
        match self.cursor_in_applet {
            Some(position) => Some(
                AnchorRect { x: position.x, y: position.y, width: 1, height: 1 },
            ),
            None => None,
        }
    }

    /// Takes note of the context menu's popup. The result says where it is anchored.
    pub fn context_menu_opened(&mut self, new_id: PopupId) -> (r: Option<AnchorRect>)
        ensures
            *final(self) == old(self).with_context_menu(new_id),
            r == old(self).anchor(),
            old(self).wf() ==> final(self).wf(),
    {
        self.context_menu_popup = Some(new_id);
        self.anchor_rect()
    }

    /// Takes note of the settings' popup. The result says where it is anchored.
    pub fn settings_opened(&mut self, new_id: PopupId) -> (r: Option<AnchorRect>)
        ensures
            *final(self) == old(self).with_settings(new_id),
            r == old(self).anchor(),
            old(self).wf() ==> final(self).wf(),
    {
        self.settings_popup = Some(new_id);
        self.anchor_rect()
    }

    fn popup_closed(&mut self, id: PopupId) -> (r: Command)
        ensures
            *final(self) == old(self).after_popup_closed(id),
            r == old(self).reply_to_popup_closed(id),
    {
        if is_popup(self.context_menu_popup, id) {
            self.context_menu_popup = None;
            self.context_menu_window = None;
            if let Some(action) = self.pending_menu_action.take() {
                return Self::run_deferred_menu_action(action);
            }
            if let Some(handle) = self.pending_context_menu_window.take() {
                self.context_menu_window = Some(handle);
                return Command::OpenContextMenu;
            }
        }
        if is_popup(self.settings_popup, id) {
            self.settings_popup = None;
            if let Some(config) = self.persist_config_if_dirty() {
                return Command::SaveConfig(config);
            }
        }
        Command::Nothing
    }

    /// Takes in a message. The result says what is to be done.
    pub fn update(&mut self, message: Message) -> (r: Command)
        requires
            old(self).title_limits.wf(),
        ensures
            *final(self) == old(self).after(message),
            r == old(self).reply(message),
            old(self).wf() ==> final(self).wf(),
    {
        match message {
            Message::ClearHoveredWindow(handle) => {
                if let Some(hovered) = self.hovered_window {
                    if hovered == handle {
                        self.hovered_window = None;
                    }
                }
                Command::Nothing
            },
            Message::ClearHoveredWindowGlobal => {
                self.hovered_window = None;
                self.cursor_in_applet = None;
                Command::Nothing
            },
            Message::CloseWindow(handle) => self.queue_or_run_menu_action(
                DeferredMenuAction::WindowControl(WindowControlAction::Close(handle)),
            ),
            Message::DesktopActionFinished => Command::Nothing,
            Message::FocusWindow(handle) => Command::FocusWindow(handle),
            Message::HoverWindow(handle) => {
                self.hovered_window = Some(handle);
                Command::Nothing
            },
            Message::MinimizeWindow(handle) => self.queue_or_run_menu_action(
                DeferredMenuAction::WindowControl(WindowControlAction::Minimize(handle)),
            ),
            Message::OpenWindowContextMenu(handle) => {
                if self.settings_popup.is_some() {
                    return Command::Nothing;
                }
                if let Some(id) = self.context_menu_popup {
                    self.pending_context_menu_window = Some(handle);
                    self.pending_menu_action = None;
                    return Command::DestroyPopup(id);
                }
                self.context_menu_window = Some(handle);
                Command::OpenContextMenu
            },
            Message::OpenSettingsPopup => {
                if self.settings_popup.is_some() {
                    return Command::Nothing;
                }
                self.queue_or_run_menu_action(DeferredMenuAction::OpenSettings)
            },
            Message::RunWindowAction(action) => self.queue_or_run_menu_action(
                DeferredMenuAction::LaunchDesktopAction(action),
            ),
            Message::PopupClosed(id) => self.popup_closed(id),
            Message::SetMaxTitleChars(value) => {
                let value: usize = self.title_limits.clamp(value);
                if self.config.max_title_chars != value {
                    self.config.max_title_chars = value;
                    self.config_dirty = true;
                }
                Command::Nothing
            },
            Message::SetMiddleClickCloses(value) => {
                if self.config.middle_click_closes != value {
                    self.config.middle_click_closes = value;
                    self.config_dirty = true;
                }
                Command::Nothing
            },
            Message::SetShowAppIcons(value) => {
                if self.config.show_app_icons != value {
                    self.config.show_app_icons = value;
                    self.config_dirty = true;
                    return Command::RebuildWindows;
                }
                Command::Nothing
            },
            Message::SetWindowMaximized(handle, maximized) => self.queue_or_run_menu_action(
                DeferredMenuAction::WindowControl(
                    WindowControlAction::SetMaximized(handle, maximized),
                ),
            ),
            Message::UpdateAppletCursor(position) => {
                self.cursor_in_applet = Some(position);
                Command::Nothing
            },
            Message::Wayland(update) => match update {
                WorkspaceUpdate::WorkspaceWindows(windows) => {
                    self.source_windows = windows;
                    Command::RebuildWindows
                },
                WorkspaceUpdate::Finished => Command::Nothing,
            },
        }
    }

    /// The message of a popup that is about to close.
    pub fn on_close_requested(id: PopupId) -> (r: Message)
        ensures
            r == Message::PopupClosed(id),
    {
        Message::PopupClosed(id)
    }
}

} // verus!
