//! What each message does to the applet, and what it leaves alone.

use vstd::prelude::*;

use crate::applet::{
    kept, Applet, Command, CursorPosition, Message, PopupId, WindowControlAction, WorkspaceUpdate,
};
use crate::desktop::{DisplayWindow, FoundEntry, WindowMenuAction};
use crate::laws::first_where_is_first;
use crate::wayland::WindowHandle;

verus! {

/// Whether `command` follows from `message`: at once where no context menu is open; where one is,
/// the message closes that menu, and the command comes when it is closed.
pub open spec fn leads_to(applet: Applet, message: Message, command: Command) -> bool {
    match applet.context_menu_popup {
        None => applet.reply(message) == command && applet.after(message) == applet,
        Some(id) => {
            &&& applet.reply(message) == Command::DestroyPopup(id)
            &&& applet.after(message).reply(Message::PopupClosed(id)) == command
        },
    }
}

/// To minimize, maximize, restore or close a window does that to that window, with a context menu
/// open or not.
pub proof fn law_a_window_is_controlled_as_asked(
    applet: Applet,
    handle: WindowHandle,
    maximized: bool,
)
    ensures
        leads_to(
            applet,
            Message::SetWindowMaximized(handle, maximized),
            Command::ControlWindow(WindowControlAction::SetMaximized(handle, maximized)),
        ),
        leads_to(
            applet,
            Message::MinimizeWindow(handle),
            Command::ControlWindow(WindowControlAction::Minimize(handle)),
        ),
        leads_to(
            applet,
            Message::CloseWindow(handle),
            Command::ControlWindow(WindowControlAction::Close(handle)),
        ),
        applet.reply(Message::FocusWindow(handle)) == Command::FocusWindow(handle),
        applet.after(Message::FocusWindow(handle)) == applet,
{
}

/// An application's action that is asked for is started, with a context menu open or not. So are
/// the settings opened, unless they are open already.
pub proof fn law_an_action_is_started_as_asked(applet: Applet, action: WindowMenuAction)
    ensures
        leads_to(applet, Message::RunWindowAction(action), Command::Launch(action)),
        applet.settings_popup is None ==> leads_to(
            applet,
            Message::OpenSettingsPopup,
            Command::OpenSettings,
        ),
{
}

/// A context menu that is asked for with no popup open opens for that window.
pub proof fn law_a_menu_opens_for_its_window(applet: Applet, handle: WindowHandle)
    requires
        applet.settings_popup is None,
        applet.context_menu_popup is None,
    ensures
        applet.reply(Message::OpenWindowContextMenu(handle)) == Command::OpenContextMenu,
        applet.after(Message::OpenWindowContextMenu(handle)) == (Applet {
            context_menu_window: Some(handle),
            ..applet
        }),
{
}

/// A popup that is open stays so until it is closed. Only the opening or the closing of a menu
/// changes which window it is about, and nothing begins to wait while no menu is open.
pub proof fn law_messages_leave_the_popups(applet: Applet, message: Message)
    ensures
        applet.after(message).context_menu_popup != applet.context_menu_popup ==> message
            == Message::PopupClosed(applet.context_menu_popup->0) && applet.context_menu_popup
            is Some,
        applet.after(message).settings_popup != applet.settings_popup ==> message
            == Message::PopupClosed(applet.settings_popup->0) && applet.settings_popup is Some,
        applet.after(message).context_menu_window != applet.context_menu_window ==> message
            is OpenWindowContextMenu || message is PopupClosed,
        applet.context_menu_popup is None ==> applet.after(message).pending_menu_action
            == applet.pending_menu_action && applet.after(message).pending_context_menu_window
            == applet.pending_context_menu_window,
{
}

/// Of the rest of the state, each part is changed by its own messages alone.
pub proof fn law_messages_change_their_own_part(applet: Applet, message: Message)
    ensures
        applet.after(message).hovered_window != applet.hovered_window ==> message is HoverWindow
            || message is ClearHoveredWindow || message is ClearHoveredWindowGlobal,
        applet.after(message).cursor_in_applet != applet.cursor_in_applet ==> message
            is UpdateAppletCursor || message is ClearHoveredWindowGlobal,
        applet.after(message).config.max_title_chars != applet.config.max_title_chars ==> message
            is SetMaxTitleChars,
        applet.after(message).config.middle_click_closes != applet.config.middle_click_closes
            ==> message is SetMiddleClickCloses,
        applet.after(message).config.show_app_icons != applet.config.show_app_icons ==> message
            is SetShowAppIcons,
        applet.after(message).title_limits == applet.title_limits,
        applet.after(message).windows == applet.windows,
        applet.after(message).source_windows != applet.source_windows ==> message is Wayland,
        message is PopupClosed || message is SetMaxTitleChars || message is SetMiddleClickCloses
            || message is SetShowAppIcons || applet.after(message).config_dirty
            == applet.config_dirty,
{
}

/// A command comes from its own messages alone: what is not asked for is not done.
pub proof fn law_nothing_is_done_unasked(applet: Applet, message: Message)
    requires
        applet.reply(message) != Command::Nothing,
    ensures
        match applet.reply(message) {
            Command::Nothing => false,
            Command::FocusWindow(handle) => message == Message::FocusWindow(handle),
            Command::ControlWindow(action) => match message {
                Message::PopupClosed(_) => applet.pending_menu_action is Some,
                Message::CloseWindow(handle) => action == WindowControlAction::Close(handle),
                Message::MinimizeWindow(handle) => action == WindowControlAction::Minimize(handle),
                Message::SetWindowMaximized(handle, maximized) => action
                    == WindowControlAction::SetMaximized(handle, maximized),
                _ => false,
            },
            Command::Launch(action) => message == Message::RunWindowAction(action) || (message
                is PopupClosed && applet.pending_menu_action is Some),
            Command::DestroyPopup(id) => applet.context_menu_popup == Some(id) && !(message
                is PopupClosed),
            Command::OpenContextMenu => message is OpenWindowContextMenu || (message is PopupClosed
                && applet.pending_context_menu_window is Some),
            Command::OpenSettings => message is OpenSettingsPopup || (message is PopupClosed
                && applet.pending_menu_action is Some),
            Command::SaveConfig(config) => message is PopupClosed && config == applet.config
                && applet.config_dirty,
            Command::RebuildWindows => message is Wayland || message is SetShowAppIcons,
        },
{
}

/// The closing of a popup that is neither the context menu nor the settings does nothing. That of
/// the context menu, with nothing waiting, ends it and forgets its window, and does nothing else.
pub proof fn law_a_popup_closes_alone(applet: Applet, id: PopupId)
    ensures
        applet.context_menu_popup != Some(id) && applet.settings_popup != Some(id) ==> applet.after(
            Message::PopupClosed(id),
        ) == applet && applet.reply(Message::PopupClosed(id)) == Command::Nothing,
        applet.context_menu_popup == Some(id) && applet.settings_popup != Some(id)
            && applet.pending_menu_action is None && applet.pending_context_menu_window is None
            ==> applet.after(Message::PopupClosed(id)) == (Applet {
            context_menu_popup: None,
            context_menu_window: None,
            ..applet
        }) && applet.reply(Message::PopupClosed(id)) == Command::Nothing,
        applet.context_menu_popup != Some(id) && applet.settings_popup == Some(id) ==> applet.after(
            Message::PopupClosed(id),
        ) == (Applet { settings_popup: None, config_dirty: false, ..applet }) && applet.reply(
            Message::PopupClosed(id),
        ) == if applet.config_dirty {
            Command::SaveConfig(applet.config)
        } else {
            Command::Nothing
        },
{
}

/// What is set is set as it is given, the length of titles as near to it as the limits allow. It
/// is to be stored where it is new, and the windows are shown anew where it is about their icons.
pub proof fn law_settings_are_taken_as_given(applet: Applet, value: bool, chars: usize)
    requires
        applet.title_limits.min <= applet.title_limits.max,
    ensures
        ({
            let after = applet.after(Message::SetMaxTitleChars(chars));
            let limits = applet.title_limits;
            &&& chars < limits.min ==> after.config.max_title_chars == limits.min
            &&& chars > limits.max ==> after.config.max_title_chars == limits.max
            &&& limits.min <= chars <= limits.max ==> after.config.max_title_chars == chars
            &&& after.config_dirty <==> applet.config_dirty || after.config.max_title_chars
                != applet.config.max_title_chars
            &&& applet.reply(Message::SetMaxTitleChars(chars)) == Command::Nothing
        }),
        ({
            let after = applet.after(Message::SetMiddleClickCloses(value));
            &&& after.config.middle_click_closes == value
            &&& after.config_dirty <==> applet.config_dirty || applet.config.middle_click_closes
                != value
            &&& applet.reply(Message::SetMiddleClickCloses(value)) == Command::Nothing
        }),
        ({
            let after = applet.after(Message::SetShowAppIcons(value));
            &&& after.config.show_app_icons == value
            &&& after.config_dirty <==> applet.config_dirty || applet.config.show_app_icons
                != value
            &&& applet.reply(Message::SetShowAppIcons(value)) == if applet.config.show_app_icons
                == value {
                Command::Nothing
            } else {
                Command::RebuildWindows
            }
        }),
{
}

/// The cursor is where it was last told to be, over the tile that it was last told to have
/// entered, until it leaves.
pub proof fn law_the_cursor_is_followed(
    applet: Applet,
    handle: WindowHandle,
    position: CursorPosition,
)
    ensures
        applet.after(Message::HoverWindow(handle)) == (Applet {
            hovered_window: Some(handle),
            ..applet
        }),
        applet.after(Message::UpdateAppletCursor(position)) == (Applet {
            cursor_in_applet: Some(position),
            ..applet
        }),
        applet.after(Message::ClearHoveredWindowGlobal) == (Applet {
            hovered_window: None,
            cursor_in_applet: None,
            ..applet
        }),
        applet.hovered_window == Some(handle) ==> applet.after(Message::ClearHoveredWindow(handle))
            == (Applet { hovered_window: None, ..applet }),
        applet.hovered_window != Some(handle) ==> applet.after(Message::ClearHoveredWindow(handle))
            == applet,
{
}

/// The windows of the workspace are those that were told last, and they are shown anew each time
/// that they are told. The end of the news, and that of an action, change nothing.
pub proof fn law_the_workspace_is_taken_as_told(applet: Applet, update: WorkspaceUpdate)
    ensures
        update matches WorkspaceUpdate::WorkspaceWindows(windows) ==> applet.after(
            Message::Wayland(update),
        ) == (Applet { source_windows: windows, ..applet }) && applet.reply(
            Message::Wayland(update),
        ) == Command::RebuildWindows,
        update is Finished ==> applet.after(Message::Wayland(update)) == applet && applet.reply(
            Message::Wayland(update),
        ) == Command::Nothing,
        applet.after(Message::DesktopActionFinished) == applet,
        applet.reply(Message::DesktopActionFinished) == Command::Nothing,
{
}

/// A reference to a window is kept exactly while a window of that handle is shown.
pub proof fn law_references_last_as_long_as_their_windows(
    target: Option<WindowHandle>,
    windows: Seq<DisplayWindow>,
)
    ensures
        target is None ==> kept(target, windows) is None,
        target matches Some(handle) ==> kept(target, windows) == if exists|i: int|
            0 <= i < windows.len() && #[trigger] windows[i].handle == handle {
            Some(handle)
        } else {
            None
        },
{
}

/// The context menu is about the first window of its handle.
pub proof fn law_the_menu_is_about_the_first_of_its_handle(applet: Applet, i: int)
    requires
        0 <= i < applet.windows@.len(),
        applet.context_menu_window == Some(applet.windows@[i].handle),
        forall|j: int|
            0 <= j < i ==> (#[trigger] applet.windows@[j]).handle != applet.windows@[i].handle,
    ensures
        applet.context_window() == Some(applet.windows@[i]),
{
    let handle = applet.windows@[i].handle;
    let wanted = |window: DisplayWindow| window.handle == handle;
    let k = first_where_is_first(applet.windows@, wanted);
    assert(wanted(applet.windows@[i]));
    if k < i {
        assert(applet.windows@[k].handle != handle);
    }
}

/// Whether a window of this handle is among `windows`.
pub open spec fn is_among(handle: WindowHandle, windows: Seq<DisplayWindow>) -> bool {
    exists|i: int| 0 <= i < windows.len() && #[trigger] windows[i].handle == handle
}

/// When the windows are shown anew, each window of the workspace is shown once, in the same order.
/// What refers to a window that is still there stays, what refers to one that is gone is dropped,
/// and nothing else changes.
pub proof fn law_a_rebuilt_applet_keeps_what_is_there(
    applet: Applet,
    after: Applet,
    entries: Seq<Option<FoundEntry>>,
    locales: Seq<Seq<char>>,
)
    requires
        applet.rebuilt(after, entries, locales),
    ensures
        after.windows@.len() == applet.source_windows@.len(),
        forall|i: int|
            0 <= i < after.windows@.len() ==> (#[trigger] after.windows@[i]).handle
                == applet.source_windows@[i].handle && after.windows@[i].title@
                == applet.source_windows@[i].title@ && after.windows@[i]@
                == applet.source_windows@[i].displayed(
                crate::desktop::found_of(entries[i]),
                locales,
                applet.config.show_app_icons,
            ),
        applet.hovered_window matches Some(handle) ==> after.hovered_window == if is_among(
            handle,
            after.windows@,
        ) {
            applet.hovered_window
        } else {
            None
        },
        applet.context_menu_window matches Some(handle) ==> after.context_menu_window == if is_among(
            handle,
            after.windows@,
        ) {
            applet.context_menu_window
        } else {
            None
        },
        applet.pending_context_menu_window matches Some(handle) ==> after.pending_context_menu_window
            == if is_among(handle, after.windows@) {
            applet.pending_context_menu_window
        } else {
            None
        },
        applet.hovered_window is None ==> after.hovered_window is None,
        applet.context_menu_window is None ==> after.context_menu_window is None,
        applet.pending_context_menu_window is None ==> after.pending_context_menu_window is None,
        after.config == applet.config,
        after.config_dirty == applet.config_dirty,
        after.title_limits == applet.title_limits,
        after.source_windows == applet.source_windows,
        after.cursor_in_applet == applet.cursor_in_applet,
        after.context_menu_popup == applet.context_menu_popup,
        after.settings_popup == applet.settings_popup,
        after.pending_menu_action == applet.pending_menu_action,
{
    crate::laws::law_windows_are_those_of_the_workspace(applet, after.windows@, entries, locales);
}

/// A popup that is opened is open until it is closed. Where nothing waits, its closing leads back
/// to where it began: without a window for the menu, and with the settings stored.
pub proof fn law_a_popup_is_open_until_it_closes(applet: Applet, id: PopupId)
    requires
        applet.context_menu_popup is None,
        applet.settings_popup is None,
        applet.pending_menu_action is None,
        applet.pending_context_menu_window is None,
    ensures
        applet.with_context_menu(id).context_menu_popup == Some(id),
        applet.with_settings(id).settings_popup == Some(id),
        applet.with_context_menu(id).after(Message::PopupClosed(id)) == (Applet {
            context_menu_window: None,
            ..applet
        }),
        applet.with_settings(id).after(Message::PopupClosed(id)) == (Applet {
            config_dirty: false,
            ..applet
        }),
{
}

} // verus!
