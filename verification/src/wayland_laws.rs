//! What is told of the active window, over one event and over many.

use vstd::prelude::*;

use crate::desktop::WorkspaceWindow;
use crate::event_loop::{
    decimal_i32, digits_value, is_digits, source_of, ConnectionSource, Stage,
};
use crate::laws::{first_where_is_first, stage_after};
use crate::text_laws::{is_blank, is_trim, law_trimming_leaves_the_rest};
use crate::wayland::{
    are_active_windows, current_toplevel_of, current_window_of, expected_output_after,
    expected_output_without, first_where, name_of_output, ActiveWindow, ActiveWindowView, AppData,
    OutputId, PanelFeed, ToplevelInfo, ToplevelState, WaylandUpdate,
};

verus! {

/// The characters of an optional string.
pub open spec fn chars_of(s: Option<String>) -> Option<Seq<char>> {
    match s {
        Some(s) => Some(s@),
        None => None,
    }
}

/// Whether `window` is, text by text, what `view` says.
pub open spec fn reads_as(window: Option<ActiveWindow>, view: Option<ActiveWindowView>) -> bool {
    match (window, view) {
        (Some(window), Some(view)) => window.title@ == view.title && chars_of(window.app_id)
            == view.app_id && chars_of(window.identifier) == view.identifier,
        (None, None) => true,
        _ => false,
    }
}

/// An update is sent exactly where the active window differs from the one that was told last, be
/// it in the title, the application or the identifier alone. It carries the active window, which
/// from then on is the one that was told last. Nothing else changes.
pub proof fn law_every_change_is_sent(
    data: AppData,
    after: AppData,
    toplevels: Seq<ToplevelInfo>,
    sent: Option<WaylandUpdate>,
)
    requires
        data.published(after, toplevels, sent),
    ensures
        sent is None <==> reads_as(
            data.last_window,
            current_window_of(data.expected_output, toplevels),
        ),
        sent matches Some(update) ==> (update matches WaylandUpdate::ActiveWindow(window)
            && reads_as(window, current_window_of(data.expected_output, toplevels))),
        reads_as(after.last_window, current_window_of(data.expected_output, toplevels)),
        after.expected_output == data.expected_output,
        after.configured_output == data.configured_output,
{
}

/// What someone who has heard `before` and then these updates takes for the active window.
pub open spec fn heard(before: Option<ActiveWindow>, sent: Seq<Option<WaylandUpdate>>) -> Option<
    ActiveWindow,
>
    decreases sent.len(),
{
    if sent.len() == 0 {
        before
    } else {
        match sent.last() {
            Some(WaylandUpdate::ActiveWindow(window)) => window,
            _ => heard(before, sent.drop_last()),
        }
    }
}

/// Whether `sent` may follow from an event: the active window is published, or the panel's output
/// becomes another or stays.
pub open spec fn is_event(
    data: AppData,
    after: AppData,
    toplevels: Seq<ToplevelInfo>,
    sent: Option<WaylandUpdate>,
) -> bool {
    data.published(after, toplevels, sent) || data.moved_to(
        after,
        after.expected_output,
        toplevels,
        sent,
    )
}

/// Over any run of events, who hears the updates knows what was told last; after one that
/// publishes, they know the active window, text by text.
pub proof fn law_who_listens_knows_the_active_window(
    states: Seq<AppData>,
    toplevels: Seq<Seq<ToplevelInfo>>,
    sent: Seq<Option<WaylandUpdate>>,
)
    requires
        states.len() == sent.len() + 1,
        toplevels.len() == sent.len(),
        forall|i: int|
            0 <= i < sent.len() ==> is_event(
                states[i],
                states[i + 1],
                toplevels[i],
                #[trigger] sent[i],
            ),
    ensures
        heard(states[0].last_window, sent) == states.last().last_window,
        sent.len() > 0 && states[sent.len() - 1].published(
            states.last(),
            toplevels.last(),
            sent.last(),
        ) ==> reads_as(
            heard(states[0].last_window, sent),
            current_window_of(states.last().expected_output, toplevels.last()),
        ),
    decreases sent.len(),
{
    if sent.len() > 0 {
        let n = sent.len() - 1;
        let earlier = sent.drop_last();
        assert forall|i: int| 0 <= i < earlier.len() implies is_event(
            states.drop_last()[i],
            states.drop_last()[i + 1],
            toplevels.drop_last()[i],
            #[trigger] earlier[i],
        ) by {
            assert(earlier[i] == sent[i]);
        }
        law_who_listens_knows_the_active_window(
            states.drop_last(),
            toplevels.drop_last(),
            earlier,
        );
        assert(is_event(states[n], states[n + 1], toplevels[n], sent[n]));
    }
}

/// Whether a toplevel has the focus.
pub open spec fn has_focus(info: ToplevelInfo) -> bool {
    exists|k: int|
        0 <= k < info.state@.len() && #[trigger] info.state@[k] == ToplevelState::Activated
}

/// Whether a toplevel is on an output.
pub open spec fn stands_on(info: ToplevelInfo, output: OutputId) -> bool {
    exists|k: int| 0 <= k < info.output@.len() && #[trigger] info.output@[k] == output
}

/// Whether a toplevel has a title or an application that is not blank.
pub open spec fn has_words(info: ToplevelInfo) -> bool {
    !is_blank(info.title@) || !is_blank(info.app_id@)
}

/// Whether a toplevel has the focus on the panel's output.
pub open spec fn has_focus_here(info: ToplevelInfo, expected_output: Option<OutputId>) -> bool {
    expected_output is Some && has_focus(info) && stands_on(info, expected_output->0)
}

/// The first toplevel with the focus on the panel's output is the active one, titled or not. Where
/// there is none, it is the first with the focus that has a title or an application. Where there
/// is none either, no toplevel is.
pub proof fn law_which_toplevel_is_active(
    expected_output: Option<OutputId>,
    toplevels: Seq<ToplevelInfo>,
    i: int,
)
    ensures
        0 <= i < toplevels.len() && has_focus_here(toplevels[i], expected_output) && (forall|j: int|
            0 <= j < i ==> !has_focus_here(#[trigger] toplevels[j], expected_output))
            ==> current_toplevel_of(expected_output, toplevels) == Some(toplevels[i]),
        (forall|j: int|
            0 <= j < toplevels.len() ==> !has_focus_here(#[trigger] toplevels[j], expected_output))
            && 0 <= i < toplevels.len() && has_focus(toplevels[i]) && has_words(toplevels[i]) && (
        forall|j: int|
            0 <= j < i ==> !(has_focus(#[trigger] toplevels[j]) && has_words(toplevels[j])))
            ==> current_toplevel_of(expected_output, toplevels) == Some(toplevels[i]),
        (forall|j: int|
            0 <= j < toplevels.len() ==> !has_focus_here(#[trigger] toplevels[j], expected_output)
                && !(has_focus(toplevels[j]) && has_words(toplevels[j])))
            ==> current_toplevel_of(expected_output, toplevels) is None,
{
    let any = |info: ToplevelInfo| info.is_activated() && info.shown() is Some;
    let k = first_where_is_first(toplevels, any);
    assert forall|j: int| 0 <= j < toplevels.len() implies #[trigger] any(toplevels[j]) == (
    has_focus(toplevels[j]) && has_words(toplevels[j])) by {
        focus_is_activation(toplevels[j]);
        law_trimming_leaves_the_rest(toplevels[j].title@);
        law_trimming_leaves_the_rest(toplevels[j].app_id@);
    }
    if first_where(toplevels, any) is Some && 0 <= i < toplevels.len() {
        assert(any(toplevels[k]));
        if i < k {
            assert(!any(toplevels[i]));
        }
    }
    if let Some(output) = expected_output {
        let here = |info: ToplevelInfo| info.is_activated() && info.output@.contains(output);
        let h = first_where_is_first(toplevels, here);
        assert forall|j: int| 0 <= j < toplevels.len() implies #[trigger] here(toplevels[j])
            == has_focus_here(toplevels[j], expected_output) by {
            focus_is_activation(toplevels[j]);
            standing_is_membership(toplevels[j], output);
        }
        if first_where(toplevels, here) is Some {
            assert(here(toplevels[h]));
        }
        if 0 <= i < toplevels.len() {
            assert(here(toplevels[i]) == has_focus_here(toplevels[i], expected_output));
            assert(any(toplevels[i]) == (has_focus(toplevels[i]) && has_words(toplevels[i])));
        }
    } else if 0 <= i < toplevels.len() {
        assert(any(toplevels[i]) == (has_focus(toplevels[i]) && has_words(toplevels[i])));
    }
}

proof fn focus_is_activation(info: ToplevelInfo)
    ensures
        info.is_activated() == has_focus(info),
{
    if has_focus(info) {
        let k = choose|k: int|
            0 <= k < info.state@.len() && #[trigger] info.state@[k] == ToplevelState::Activated;
        assert(info.state@.contains(info.state@[k]));
    }
    if info.is_activated() {
        let k = choose|k: int|
            0 <= k < info.state@.len() && info.state@[k] == ToplevelState::Activated;
        assert(info.state@[k] == ToplevelState::Activated);
    }
}

proof fn standing_is_membership(info: ToplevelInfo, output: OutputId)
    ensures
        info.output@.contains(output) == stands_on(info, output),
{
    if stands_on(info, output) {
        let k = choose|k: int| 0 <= k < info.output@.len() && #[trigger] info.output@[k] == output;
        assert(info.output@.contains(info.output@[k]));
    }
}

/// Whether `text` is what is shown of `s`: what is left of it without the white space at its ends,
/// if anything is.
pub open spec fn is_shown_text(s: Seq<char>, text: Option<Seq<char>>) -> bool {
    match text {
        Some(text) => is_trim(s, text),
        None => is_blank(s),
    }
}

/// The active window has the words of the active toplevel: its title, or its application where it
/// has no title, its application and its identifier, each without the white space at its ends. A
/// toplevel that has neither a title nor an application is not shown.
pub proof fn law_the_active_window_has_the_words_of_its_toplevel(
    expected_output: Option<OutputId>,
    toplevels: Seq<ToplevelInfo>,
)
    ensures
        match (
            current_toplevel_of(expected_output, toplevels),
            current_window_of(expected_output, toplevels),
        ) {
            (Some(info), Some(window)) => {
                &&& has_words(info)
                &&& !is_blank(info.title@) ==> is_trim(info.title@, window.title)
                &&& is_blank(info.title@) ==> is_trim(info.app_id@, window.title)
                &&& is_shown_text(info.app_id@, window.app_id)
                &&& is_shown_text(info.identifier@, window.identifier)
            },
            (Some(info), None) => !has_words(info),
            (None, window) => window is None,
        },
{
    if let Some(info) = current_toplevel_of(expected_output, toplevels) {
        law_trimming_leaves_the_rest(info.title@);
        law_trimming_leaves_the_rest(info.app_id@);
        law_trimming_leaves_the_rest(info.identifier@);
    }
}

/// What a toplevel is shown as hangs together with nothing but its three texts.
pub proof fn law_a_toplevel_is_shown_by_its_texts(info: ToplevelInfo)
    ensures
        match info.shown() {
            Some(window) => {
                &&& has_words(info)
                &&& !is_blank(info.title@) ==> is_trim(info.title@, window.title)
                &&& is_blank(info.title@) ==> is_trim(info.app_id@, window.title)
                &&& is_shown_text(info.app_id@, window.app_id)
                &&& is_shown_text(info.identifier@, window.identifier)
            },
            None => !has_words(info),
        },
{
    law_trimming_leaves_the_rest(info.title@);
    law_trimming_leaves_the_rest(info.app_id@);
    law_trimming_leaves_the_rest(info.identifier@);
}

/// Windows are right for the panel exactly where they are the active window alone, with the words
/// that it is told with, the handle of its toplevel and whether that is maximized, or nothing
/// where there is no active window.
pub proof fn law_the_panel_is_fed_the_active_window(
    windows: Seq<WorkspaceWindow>,
    expected_output: Option<OutputId>,
    toplevels: Seq<ToplevelInfo>,
)
    ensures
        are_active_windows(windows, expected_output, toplevels) <==> match current_window_of(
            expected_output,
            toplevels,
        ) {
            Some(window) => {
                &&& windows.len() == 1
                &&& windows[0].title@ == window.title
                &&& chars_of(windows[0].app_id) == window.app_id
                &&& chars_of(windows[0].identifier) == window.identifier
                &&& windows[0].is_active
                &&& current_toplevel_of(expected_output, toplevels) is Some
                &&& windows[0].handle == current_toplevel_of(expected_output, toplevels)->0.handle
                &&& windows[0].is_maximized == exists|k: int|
                    0 <= k < current_toplevel_of(expected_output, toplevels)->0.state@.len()
                        && #[trigger] current_toplevel_of(
                        expected_output,
                        toplevels,
                    )->0.state@[k] == ToplevelState::Maximized
            },
            None => windows.len() == 0,
        },
{
    if let Some(info) = current_toplevel_of(expected_output, toplevels) {
        if info.state@.contains(ToplevelState::Maximized) {
            let k = choose|k: int|
                0 <= k < info.state@.len() && info.state@[k] == ToplevelState::Maximized;
            assert(info.state@[k] == ToplevelState::Maximized);
        }
        assert forall|k: int|
            0 <= k < info.state@.len() && #[trigger] info.state@[k]
                == ToplevelState::Maximized implies info.state@.contains(
            ToplevelState::Maximized,
        ) by {
            assert(info.state@.contains(info.state@[k]));
        }
    }
}

/// An output that tells the configured name becomes the panel's. The panel's output that tells
/// another name, or none, is the panel's no more. No other output changes anything, and none does
/// where no name is configured.
pub proof fn law_the_panel_output_goes_by_its_name(
    configured: Option<Seq<char>>,
    expected: Option<OutputId>,
    output: OutputId,
    name: Option<Seq<char>>,
)
    ensures
        configured is Some && name == configured ==> expected_output_after(
            configured,
            expected,
            output,
            name,
        ) == Some(output),
        configured is Some && name != configured && expected == Some(output)
            ==> expected_output_after(configured, expected, output, name) is None,
        name != configured && expected != Some(output) ==> expected_output_after(
            configured,
            expected,
            output,
            name,
        ) == expected,
        configured is None ==> expected_output_after(configured, expected, output, name)
            == expected,
{
}

/// Where the panel's output changes, the active window is told anew if it reads otherwise on the
/// new output; where it does not change, nothing is told and nothing changes.
pub proof fn law_a_new_panel_output_is_followed(
    data: AppData,
    after: AppData,
    expected: Option<OutputId>,
    toplevels: Seq<ToplevelInfo>,
    sent: Option<WaylandUpdate>,
)
    requires
        data.moved_to(after, expected, toplevels, sent),
    ensures
        after.expected_output == expected,
        after.configured_output == data.configured_output,
        expected == data.expected_output ==> sent is None && after == data,
        expected != data.expected_output ==> {
            &&& sent is None <==> reads_as(data.last_window, current_window_of(expected, toplevels))
            &&& reads_as(after.last_window, current_window_of(expected, toplevels))
            &&& sent matches Some(update) ==> (update matches WaylandUpdate::ActiveWindow(window)
                && reads_as(window, current_window_of(expected, toplevels)))
        },
{
}

/// What an output tells of its name moves the panel's output, and what follows is what follows
/// from that.
pub proof fn law_an_output_that_tells_its_name_is_followed(
    data: AppData,
    after: AppData,
    output: OutputId,
    name: Option<Seq<char>>,
    toplevels: Seq<ToplevelInfo>,
    sent: Option<WaylandUpdate>,
)
    requires
        data.output_told(after, output, name, toplevels, sent),
    ensures
        data.configured_output matches Some(configured) ==> {
            &&& name == Some(configured@) ==> after.expected_output == Some(output)
            &&& name != Some(configured@) ==> after.expected_output == if data.expected_output
                == Some(output) {
                None
            } else {
                data.expected_output
            }
        },
        data.configured_output is None ==> after == data,
        data.moved_to(after, after.expected_output, toplevels, sent),
{
}

/// The listening thread goes through its stages in their order, one for each that goes well, and
/// then dispatches for as long as that goes well.
pub proof fn law_stages_come_in_order(outcomes: Seq<bool>)
    requires
        forall|i: int| 0 <= i < outcomes.len() ==> #[trigger] outcomes[i],
    ensures
        stage_after(Stage::Connect, outcomes) == if outcomes.len() == 0 {
            Stage::Connect
        } else if outcomes.len() == 1 {
            Stage::InitRegistry
        } else if outcomes.len() == 2 {
            Stage::CreateEventLoop
        } else if outcomes.len() == 3 {
            Stage::InsertSource
        } else if outcomes.len() == 4 {
            Stage::BindToplevelInfo
        } else {
            Stage::Dispatch
        },
    decreases outcomes.len(),
{
    if outcomes.len() > 0 {
        let init = outcomes.drop_last();
        assert forall|i: int| 0 <= i < init.len() implies #[trigger] init[i] by {
            assert(init[i] == outcomes[i]);
        }
        law_stages_come_in_order(init);
        assert(outcomes[outcomes.len() - 1]);
    }
}

/// The first failure ends the thread and is told; a stage that goes well tells nothing, and a
/// thread that has ended stays so and is silent.
pub proof fn law_a_failure_ends_the_thread(stage: Stage, succeeded: bool)
    ensures
        stage.tells_end(succeeded) <==> stage.after(succeeded) == Stage::Stopped && stage
            != Stage::Stopped,
        !succeeded ==> stage.after(succeeded) == Stage::Stopped,
        succeeded && stage != Stage::Stopped ==> stage.after(succeeded) != Stage::Stopped,
        Stage::Stopped.after(succeeded) == Stage::Stopped,
{
}

/// The decimal digits of a number.
pub open spec fn digits_of(n: nat) -> Seq<char>
    decreases n,
{
    let last = (n % 10 + '0' as nat) as char;
    if n < 10 {
        seq![last]
    } else {
        digits_of(n / 10).push(last)
    }
}

proof fn digits_read_back(n: nat)
    ensures
        is_digits(digits_of(n)),
        digits_value(digits_of(n)) == n,
    decreases n,
{
    let last = (n % 10 + '0' as nat) as char;
    let digits = digits_of(n);
    if n < 10 {
        assert(digits.drop_last() =~= Seq::empty());
        assert(digits_value(digits.drop_last()) == 0);
    } else {
        digits_read_back(n / 10);
        assert(digits.drop_last() =~= digits_of(n / 10));
    }
}

/// A number that is written in decimal digits reads back as that number, with a sign or without,
/// where it fits; where it does not fit it is none.
pub proof fn law_numbers_read_back(n: nat)
    ensures
        decimal_i32(digits_of(n)) == if n <= i32::MAX {
            Some(n as i32)
        } else {
            None
        },
        decimal_i32(seq!['+'] + digits_of(n)) == decimal_i32(digits_of(n)),
        decimal_i32(seq!['-'] + digits_of(n)) == if n <= i32::MAX + 1 {
            Some((0 - n) as i32)
        } else {
            None
        },
{
    digits_read_back(n);
    let digits = digits_of(n);
    assert('0' <= digits[0] && digits[0] <= '9');
    assert((seq!['+'] + digits).drop_first() =~= digits);
    assert((seq!['-'] + digits).drop_first() =~= digits);
}

/// What holds anything but digits after the sign is no number.
pub proof fn law_other_characters_make_no_number(text: Seq<char>, i: int)
    requires
        0 <= i < text.len(),
        !('0' <= text[i] && text[i] <= '9'),
        i > 0 || (text[i] != '-' && text[i] != '+') || text.len() == 1,
    ensures
        decimal_i32(text) is None,
        decimal_i32(Seq::empty()) is None,
{
    let signed = text[0] == '-' || text[0] == '+';
    if signed && i > 0 {
        assert(text.drop_first()[i - 1] == text[i]);
    }
}

/// A socket is used exactly where its number is written, and the environment's display where
/// nothing, or no number, is.
pub proof fn law_a_numbered_socket_is_used(text: String, n: nat)
    ensures
        n <= i32::MAX && text@ == digits_of(n) ==> source_of(Some(text))
            == ConnectionSource::Socket(n as i32),
        source_of(Some(text)) is Environment <==> decimal_i32(text@) is None,
        source_of(Some(text)) matches ConnectionSource::Socket(fd) ==> decimal_i32(text@) == Some(
            fd,
        ),
        source_of(None) is Environment,
{
    law_numbers_read_back(n);
}

/// A name that an output is configured by is that name, unless it is empty.
pub proof fn law_an_output_is_named_as_configured(name: String)
    ensures
        name@.len() > 0 ==> name_of_output(Some(name)) == Some(name),
        name@.len() == 0 ==> name_of_output(Some(name)) is None,
        name_of_output(None) is None,
{
}

/// An output that goes is the panel's no more, and no other is touched by that.
pub proof fn law_an_output_that_goes_is_forgotten(expected: Option<OutputId>, output: OutputId)
    ensures
        expected_output_without(expected, output) != Some(output),
        expected != Some(output) ==> expected_output_without(expected, output) == expected,
        expected == Some(output) ==> expected_output_without(expected, output) is None,
{
}

/// What a panel that had `before` shows after these windows were sent.
pub open spec fn received(
    before: Seq<WorkspaceWindow>,
    sent: Seq<Option<Vec<WorkspaceWindow>>>,
) -> Seq<WorkspaceWindow>
    decreases sent.len(),
{
    if sent.len() == 0 {
        before
    } else {
        match sent.last() {
            Some(windows) => windows@,
            None => received(before, sent.drop_last()),
        }
    }
}

/// Over any run, the panel has the active window after each event, whatever was sent and whatever
/// was not; and nothing is sent to a panel that has it.
pub proof fn law_the_panel_always_has_the_active_window(
    feeds: Seq<PanelFeed>,
    outputs: Seq<Option<OutputId>>,
    toplevels: Seq<Seq<ToplevelInfo>>,
    sent: Seq<Option<Vec<WorkspaceWindow>>>,
)
    requires
        feeds.len() == sent.len() + 1,
        outputs.len() == sent.len(),
        toplevels.len() == sent.len(),
        forall|i: int|
            0 <= i < sent.len() ==> feeds[i].refreshed(
                feeds[i + 1],
                outputs[i],
                toplevels[i],
                #[trigger] sent[i],
            ),
    ensures
        received(feeds[0].sent@, sent) == feeds.last().sent@,
        sent.len() > 0 ==> are_active_windows(
            received(feeds[0].sent@, sent),
            outputs.last(),
            toplevels.last(),
        ),
        sent.len() > 0 ==> (sent.last() is None <==> are_active_windows(
            feeds[sent.len() - 1].sent@,
            outputs.last(),
            toplevels.last(),
        )),
    decreases sent.len(),
{
    if sent.len() > 0 {
        let n = sent.len() - 1;
        let earlier = sent.drop_last();
        assert forall|i: int| 0 <= i < earlier.len() implies feeds.drop_last()[i].refreshed(
            feeds.drop_last()[i + 1],
            outputs.drop_last()[i],
            toplevels.drop_last()[i],
            #[trigger] earlier[i],
        ) by {
            assert(earlier[i] == sent[i]);
        }
        law_the_panel_always_has_the_active_window(
            feeds.drop_last(),
            outputs.drop_last(),
            toplevels.drop_last(),
            earlier,
        );
        assert(feeds[n].refreshed(feeds[n + 1], outputs[n], toplevels[n], sent[n]));
    }
}

} // verus!
