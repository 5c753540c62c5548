//! Which window is the active one, and when its change is worth telling.

use vstd::prelude::*;

use crate::desktop::WorkspaceWindow;
use crate::text::trimmed;

verus! {

/// A window of the compositor.
#[derive(Debug, Clone, Copy, PartialEq, Eq, Structural)]
pub struct WindowHandle(pub u64);

/// An output (a screen) of the compositor.
#[derive(Debug, Clone, Copy, PartialEq, Eq, Structural)]
pub struct OutputId(pub u64);

/// What the compositor says of a toplevel's condition.
#[derive(Debug, Clone, Copy, PartialEq, Eq, Structural)]
pub enum ToplevelState {
    Maximized,
    Minimized,
    Activated,
    Fullscreen,
    Sticky,
}

/// What the compositor has told of one toplevel window.
#[derive(Debug)]
pub struct ToplevelInfo {
    pub handle: WindowHandle,
    pub title: String,
    pub app_id: String,
    pub identifier: String,
    pub state: Vec<ToplevelState>,
    pub output: Vec<OutputId>,
}

/// The window that has the focus, as it is shown.
#[derive(Debug, PartialEq, Eq)]
pub struct ActiveWindow {
    pub title: String,
    pub app_id: Option<String>,
    pub identifier: Option<String>,
}

/// The texts of an [`ActiveWindow`].
pub struct ActiveWindowView {
    pub title: Seq<char>,
    pub app_id: Option<Seq<char>>,
    pub identifier: Option<Seq<char>>,
}

impl View for ActiveWindow {
    type V = ActiveWindowView;

    open spec fn view(&self) -> ActiveWindowView {
        ActiveWindowView {
            title: self.title@,
            app_id: crate::text::text_of(self.app_id),
            identifier: crate::text::text_of(self.identifier),
        }
    }
}

/// The view of an optional [`ActiveWindow`].
pub open spec fn window_of(window: Option<ActiveWindow>) -> Option<ActiveWindowView> {
    match window {
        Some(window) => Some(window@),
        None => None,
    }
}

impl Clone for ActiveWindow {
    fn clone(&self) -> (r: Self)
        ensures
            r == *self,
    {
        ActiveWindow {
            title: self.title.clone(),
            app_id: self.app_id.clone(),
            identifier: self.identifier.clone(),
        }
    }
}

/// What the compositor's side tells the applet.
#[derive(Debug)]
pub enum WaylandUpdate {
    ActiveWindow(Option<ActiveWindow>),
    Finished,
}

impl Clone for WaylandUpdate {
    fn clone(&self) -> (r: Self)
        ensures
            r == *self,
    {
        match self {
            WaylandUpdate::ActiveWindow(window) => WaylandUpdate::ActiveWindow(window.clone()),
            WaylandUpdate::Finished => WaylandUpdate::Finished,
        }
    }
}

/// The first item of `s` of which `p` holds.
pub open spec fn first_where<T>(s: Seq<T>, p: spec_fn(T) -> bool) -> Option<T>
    decreases s.len(),
{
    if s.len() == 0 {
        None
    } else if p(s[0]) {
        Some(s[0])
    } else {
        first_where(s.drop_first(), p)
    }
}

impl ToplevelInfo {
    /// Whether the toplevel has the focus.
    pub open spec fn is_activated(self) -> bool {
        self.state@.contains(ToplevelState::Activated)
    }

    /// How the toplevel is shown: by its title, or by its application where it has no title.
    /// One without either is not shown.
    pub open spec fn shown(self) -> Option<ActiveWindowView> {
        let app_id = crate::text::trimmed_of(self.app_id@);
        let title = crate::text::trimmed_of(self.title@);
        let identifier = crate::text::trimmed_of(self.identifier@);
        match (title, app_id) {
            (Some(title), _) => Some(ActiveWindowView { title, app_id, identifier }),
            (None, Some(name)) => Some(ActiveWindowView { title: name, app_id, identifier }),
            (None, None) => None,
        }
    }

    fn has_state(&self, state: ToplevelState) -> (r: bool)
        ensures
            r == self.state@.contains(state),
    {
        let mut i: usize = 0;
        while i < self.state.len()
            invariant
                i <= self.state@.len(),
                forall|j: int| 0 <= j < i ==> self.state@[j] != state,
            decreases self.state@.len() - i,
        {
            if self.state[i] == state {
                return true;
            }
            i = i + 1;
        }
        false
    }

    fn is_on(&self, output: OutputId) -> (r: bool)
        ensures
            r == self.output@.contains(output),
    {
        let mut i: usize = 0;
        while i < self.output.len()
            invariant
                i <= self.output@.len(),
                forall|j: int| 0 <= j < i ==> self.output@[j] != output,
            decreases self.output@.len() - i,
        {
            if self.output[i] == output {
                return true;
            }
            i = i + 1;
        }
        false
    }
}

/// The toplevel that is taken for the active one: the first that has the focus on the panel's
/// output, or, where there is none, the first that has the focus and can be shown.
pub open spec fn current_toplevel_of(
    expected_output: Option<OutputId>,
    toplevels: Seq<ToplevelInfo>,
) -> Option<ToplevelInfo> {
    let here = match expected_output {
        Some(output) => first_where(
            toplevels,
            |info: ToplevelInfo| info.is_activated() && info.output@.contains(output),
        ),
        None => None,
    };
    match here {
        Some(info) => Some(info),
        None => first_where(
            toplevels,
            |info: ToplevelInfo| info.is_activated() && info.shown() is Some,
        ),
    }
}

/// The active window, as it is shown.
pub open spec fn current_window_of(
    expected_output: Option<OutputId>,
    toplevels: Seq<ToplevelInfo>,
) -> Option<ActiveWindowView> {
    match current_toplevel_of(expected_output, toplevels) {
        Some(info) => info.shown(),
        None => None,
    }
}

/// Whether `windows` are what a panel that shows the active window alone has to show: that
/// window, or nothing.
pub open spec fn are_active_windows(
    windows: Seq<WorkspaceWindow>,
    expected_output: Option<OutputId>,
    toplevels: Seq<ToplevelInfo>,
) -> bool {
    match (
        current_toplevel_of(expected_output, toplevels),
        current_window_of(expected_output, toplevels),
    ) {
        (Some(info), Some(window)) => {
            &&& windows.len() == 1
            &&& windows[0].title@ == window.title
            &&& crate::text::text_of(windows[0].app_id) == window.app_id
            &&& crate::text::text_of(windows[0].identifier) == window.identifier
            &&& windows[0].handle == info.handle
            &&& windows[0].is_active
            &&& windows[0].is_maximized == info.state@.contains(ToplevelState::Maximized)
        },
        _ => windows.len() == 0,
    }
}

/// The name of the panel's output, by what it is configured to be. An empty name counts as none.
pub open spec fn name_of_output(configured_output: Option<String>) -> Option<String> {
    match configured_output {
        Some(name) => if name@.len() == 0 {
            None
        } else {
            Some(name)
        },
        None => None,
    }
}

/// The panel's output after `output` is gone.
pub open spec fn expected_output_without(
    expected_output: Option<OutputId>,
    output: OutputId,
) -> Option<OutputId> {
    if expected_output == Some(output) {
        None
    } else {
        expected_output
    }
}

/// The panel's output after `output` has told its name.
pub open spec fn expected_output_after(
    configured_output: Option<Seq<char>>,
    expected_output: Option<OutputId>,
    output: OutputId,
    name: Option<Seq<char>>,
) -> Option<OutputId> {
    if configured_output is None {
        expected_output
    } else if name == configured_output {
        Some(output)
    } else if expected_output == Some(output) {
        None
    } else {
        expected_output
    }
}

fn same_text(a: &Option<String>, b: &Option<String>) -> (r: bool)
    ensures
        r == (crate::text::text_of(*a) == crate::text::text_of(*b)),
{
    match (a, b) {
        (Some(a), Some(b)) => a.eq(b),
        (None, None) => true,
        _ => false,
    }
}

fn same_window(a: &Option<ActiveWindow>, b: &Option<ActiveWindow>) -> (r: bool)
    ensures
        r == (window_of(*a) == window_of(*b)),
{
    match (a, b) {
        (Some(a), Some(b)) => a.title.eq(&b.title) && same_text(&a.app_id, &b.app_id)
            && same_text(&a.identifier, &b.identifier),
        (None, None) => true,
        _ => false,
    }
}

fn is_same(a: &WorkspaceWindow, b: &WorkspaceWindow) -> (r: bool)
    ensures
        r == (a.title@ == b.title@ && crate::text::text_of(a.app_id) == crate::text::text_of(
            b.app_id,
        ) && crate::text::text_of(a.identifier) == crate::text::text_of(b.identifier) && a.handle
            == b.handle && a.is_active == b.is_active && a.is_maximized == b.is_maximized),
{
    a.title.eq(&b.title) && same_text(&a.app_id, &b.app_id) && same_text(
        &a.identifier,
        &b.identifier,
    ) && a.handle == b.handle && a.is_active == b.is_active && a.is_maximized == b.is_maximized
}

/// What the compositor's side keeps between two events.
pub struct AppData {
    /// The name of the output that the panel is on, where it is known.
    pub configured_output: Option<String>,
    /// The output of that name, once it has appeared.
    pub expected_output: Option<OutputId>,
    /// The window that was told last.
    pub last_window: Option<ActiveWindow>,
}

impl AppData {
    /// The state before the first event. An empty output name counts as none.
    pub fn new(configured_output: Option<String>) -> (r: AppData)
        ensures
            r.expected_output is None,
            r.last_window is None,
            r.configured_output == name_of_output(configured_output),
    {
        let configured_output = match configured_output {
            Some(name) => if name.as_str().is_empty() {
                None
            } else {
                Some(name)
            },
            None => None,
        };
        AppData { configured_output, expected_output: None, last_window: None }
    }

    /// The text without the white space at its ends, or nothing where only white space is there.
    pub fn trimmed(value: &str) -> (r: Option<String>)
        ensures
            crate::text::text_of(r) == crate::text::trimmed_of(value@),
    {
        trimmed(value)
    }

    /// How a toplevel is shown as the active window.
    pub fn active_window_for(info: &ToplevelInfo) -> (r: Option<ActiveWindow>)
        ensures
            window_of(r) == info.shown(),
    {
        let app_id = Self::trimmed(info.app_id.as_str());
        let title = match Self::trimmed(info.title.as_str()) {
            Some(title) => title,
            None => match &app_id {
                Some(name) => name.clone(),
                None => {
                    return None;
                },
            },
        };
        let identifier = Self::trimmed(info.identifier.as_str());
        Some(ActiveWindow { title, app_id, identifier })
    }

    /// The toplevel that is taken for the active one.
    pub fn current_toplevel<'a>(&self, toplevels: &'a Vec<ToplevelInfo>) -> (r: Option<
        &'a ToplevelInfo,
    >)
        ensures
            match r {
                Some(info) => current_toplevel_of(self.expected_output, toplevels@) == Some(*info),
                None => current_toplevel_of(self.expected_output, toplevels@) is None,
            },
    {
        if let Some(output) = self.expected_output {
            let ghost here = |info: ToplevelInfo|
                info.is_activated() && info.output@.contains(output);
            let mut i: usize = 0;
            assert(toplevels@.skip(0) =~= toplevels@);
            while i < toplevels.len()
                invariant
                    i <= toplevels@.len(),
                    self.expected_output == Some(output),
                    here == (|info: ToplevelInfo|
                        info.is_activated() && info.output@.contains(output)),
                    first_where(toplevels@, here) == first_where(toplevels@.skip(i as int), here),
                decreases toplevels@.len() - i,
            {
                assert(toplevels@.skip(i as int)[0] == toplevels@[i as int]);
                if toplevels[i].has_state(ToplevelState::Activated) && toplevels[i].is_on(output) {
                    return Some(&toplevels[i]);
                }
                assert(toplevels@.skip(i as int).drop_first() =~= toplevels@.skip(i + 1));
                i = i + 1;
            }
        }
        let ghost any = |info: ToplevelInfo| info.is_activated() && info.shown() is Some;
        let mut i: usize = 0;
        assert(toplevels@.skip(0) =~= toplevels@);
        while i < toplevels.len()
            invariant
                i <= toplevels@.len(),
                any == (|info: ToplevelInfo| info.is_activated() && info.shown() is Some),
                first_where(toplevels@, any) == first_where(toplevels@.skip(i as int), any),
                current_toplevel_of(self.expected_output, toplevels@) == first_where(
                    toplevels@,
                    any,
                ),
            decreases toplevels@.len() - i,
        {
            assert(toplevels@.skip(i as int)[0] == toplevels@[i as int]);
            if toplevels[i].has_state(ToplevelState::Activated) && Self::active_window_for(&toplevels[i]).is_some() {
                return Some(&toplevels[i]);
            }
            assert(toplevels@.skip(i as int).drop_first() =~= toplevels@.skip(i + 1));
            i = i + 1;
        }
        None
    }

    /// The active window, as it is shown.
    pub fn current_window(&self, toplevels: &Vec<ToplevelInfo>) -> (r: Option<ActiveWindow>)
        ensures
            window_of(r) == current_window_of(self.expected_output, toplevels@),
    {
        match self.current_toplevel(toplevels) {
            Some(info) => Self::active_window_for(info),
            None => None,
        }
    }

    /// What the panel has to show of these toplevels: the active window, or nothing.
    pub fn active_windows(&self, toplevels: &Vec<ToplevelInfo>) -> (r: Vec<WorkspaceWindow>)
        ensures
            are_active_windows(r@, self.expected_output, toplevels@),
    {
        let mut windows: Vec<WorkspaceWindow> = Vec::new();
        if let Some(info) = self.current_toplevel(toplevels) {
            if let Some(window) = Self::active_window_for(info) {
                windows.push(
                    WorkspaceWindow {
                        app_id: window.app_id,
                        identifier: window.identifier,
                        title: window.title,
                        handle: info.handle,
                        is_active: true,
                        is_maximized: info.has_state(ToplevelState::Maximized),
                    },
                );
            }
        }
        windows
    }

    /// Takes note of the active window. What is returned is to be sent on: an update exactly
    /// where the window differs from the one that was told last.
    pub fn publish_window(&mut self, toplevels: &Vec<ToplevelInfo>) -> (r: Option<WaylandUpdate>)
        ensures
            old(self).published(*final(self), toplevels@, r),
    {
        let window = self.current_window(toplevels);
        if same_window(&window, &self.last_window) {
            return None;
        }
        self.last_window = window.clone();
        Some(WaylandUpdate::ActiveWindow(window))
    }

    /// Takes note of an output's name. The result says whether the panel's output has changed.
    pub fn sync_expected_output(&mut self, output: OutputId, name: &Option<String>) -> (r: bool)
        ensures
            final(self).configured_output == old(self).configured_output,
            final(self).last_window == old(self).last_window,
            final(self).expected_output == expected_output_after(
                crate::text::text_of(old(self).configured_output),
                old(self).expected_output,
                output,
                crate::text::text_of(*name),
            ),
            r == (final(self).expected_output != old(self).expected_output),
    {
        if self.configured_output.is_none() {
            return false;
        }
        let was_expected = match self.expected_output {
            Some(current) => current == output,
            None => false,
        };
        if same_text(name, &self.configured_output) {
            if was_expected {
                return false;
            }
            self.expected_output = Some(output);
            return true;
        }
        if was_expected {
            self.expected_output = None;
        }
        was_expected
    }

    /// Takes note of a new output. What is returned is to be sent on.
    pub fn new_output(
        &mut self,
        output: OutputId,
        name: &Option<String>,
        toplevels: &Vec<ToplevelInfo>,
    ) -> (r: Option<WaylandUpdate>)
        ensures
            old(self).output_told(*final(self), output, crate::text::text_of(*name), toplevels@, r),
    {
        if self.sync_expected_output(output, name) {
            self.publish_window(toplevels)
        } else {
            None
        }
    }

    /// Takes note of an output that has changed. What is returned is to be sent on.
    pub fn update_output(
        &mut self,
        output: OutputId,
        name: &Option<String>,
        toplevels: &Vec<ToplevelInfo>,
    ) -> (r: Option<WaylandUpdate>)
        ensures
            old(self).output_told(*final(self), output, crate::text::text_of(*name), toplevels@, r),
    {
        if self.sync_expected_output(output, name) {
            self.publish_window(toplevels)
        } else {
            None
        }
    }

    /// What follows when the active window is published: it is what was told last, and it is
    /// sent on exactly where it was not so before.
    pub open spec fn published(
        self,
        after: AppData,
        toplevels: Seq<ToplevelInfo>,
        sent: Option<WaylandUpdate>,
    ) -> bool {
        let current = current_window_of(self.expected_output, toplevels);
        if current == window_of(self.last_window) {
            after == self && sent is None
        } else {
            &&& after == AppData { last_window: after.last_window, ..self }
            &&& window_of(after.last_window) == current
            &&& sent == Some(WaylandUpdate::ActiveWindow(after.last_window))
        }
    }

    /// Whether the active window is what was told last.
    pub open spec fn in_sync(self, toplevels: Seq<ToplevelInfo>) -> bool {
        window_of(self.last_window) == current_window_of(self.expected_output, toplevels)
    }

    /// What follows when `output` tells its name: the panel's output is looked up anew, and the
    /// active window is published where that output has changed.
    pub open spec fn output_told(
        self,
        after: AppData,
        output: OutputId,
        name: Option<Seq<char>>,
        toplevels: Seq<ToplevelInfo>,
        sent: Option<WaylandUpdate>,
    ) -> bool {
        let expected = expected_output_after(
            crate::text::text_of(self.configured_output),
            self.expected_output,
            output,
            name,
        );
        self.moved_to(after, expected, toplevels, sent)
    }

    /// What follows when the panel's output becomes `expected`: nothing where it is the same,
    /// else the active window is published.
    pub open spec fn moved_to(
        self,
        after: AppData,
        expected: Option<OutputId>,
        toplevels: Seq<ToplevelInfo>,
        sent: Option<WaylandUpdate>,
    ) -> bool {
        if expected == self.expected_output {
            after == self && sent is None
        } else {
            (AppData { expected_output: expected, ..self }).published(after, toplevels, sent)
        }
    }

    /// Takes note of an output that is gone. What is returned is to be sent on.
    pub fn output_destroyed(&mut self, output: OutputId, toplevels: &Vec<ToplevelInfo>) -> (r:
        Option<WaylandUpdate>)
        ensures
            old(self).moved_to(
                *final(self),
                expected_output_without(old(self).expected_output, output),
                toplevels@,
                r,
            ),
    {
        let was_expected = match self.expected_output {
            Some(current) => current == output,
            None => false,
        };
        if was_expected {
            self.expected_output = None;
            self.publish_window(toplevels)
        } else {
            None
        }
    }
}

/// The windows that a panel which shows the active window alone was sent last.
pub struct PanelFeed {
    pub sent: Vec<WorkspaceWindow>,
}

impl PanelFeed {
    /// The feed before anything was sent: the panel shows no window then.
    pub fn new() -> (r: PanelFeed)
        ensures
            r.sent@.len() == 0,
    {
        PanelFeed { sent: Vec::new() }
    }

    /// What follows when the toplevels are taken note of: what was sent last is what the panel has
    /// to show, and it is sent exactly where it was not so before.
    pub open spec fn refreshed(
        self,
        after: PanelFeed,
        expected_output: Option<OutputId>,
        toplevels: Seq<ToplevelInfo>,
        sent: Option<Vec<WorkspaceWindow>>,
    ) -> bool {
        &&& are_active_windows(after.sent@, expected_output, toplevels)
        &&& match sent {
            Some(windows) => {
                &&& !are_active_windows(self.sent@, expected_output, toplevels)
                &&& windows@ == after.sent@
            },
            None => after == self,
        }
    }

    /// Takes note of the toplevels. What is returned is to be sent on: the windows that the panel
    /// has to show, exactly where they are others than those that were sent last.
    pub fn refresh(&mut self, data: &AppData, toplevels: &Vec<ToplevelInfo>) -> (r: Option<
        Vec<WorkspaceWindow>,
    >)
        ensures
            old(self).refreshed(*final(self), data.expected_output, toplevels@, r),
    {
        let windows = data.active_windows(toplevels);
        let same = windows.len() == self.sent.len() && (windows.is_empty() || is_same(
            &windows[0],
            &self.sent[0],
        ));
        if same {
            return None;
        }
        self.sent = windows.clone();
        assert(self.sent@ =~= windows@);
        Some(windows)
    }
}

} // verus!
