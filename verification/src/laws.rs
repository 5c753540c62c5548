//! What holds across the functions of the library.

use vstd::prelude::*;

use crate::applet::{
    command_of, kept, menu_action_of, shows, AnchorRect, Applet, Command, CursorPosition, Message,
    PopupId,
};
use crate::config::AppletConfig;
use crate::desktop::{
    is_translated, localized, value_at, CatalogueAnswersView, DisplayWindow, EntryView, FoundEntry,
    MenuActionView, WorkspaceWindow,
};
use crate::event_loop::Stage;
use crate::panel::{are_tiles_of, Tile, WindowTile};
use crate::text::{
    ascii_lower, is_ascii_alnum, is_white_space, normalized, opens_new_window, trim_of,
    trimmed_of, truncated,
};
use crate::wayland::{
    are_active_windows, current_toplevel_of, current_window_of, expected_output_after, first_where,
    AppData, OutputId, ToplevelInfo, WaylandUpdate, WindowHandle,
};

verus! {

/// A title that is cut has the length that it is cut to, or three where that is less. One that
/// is not cut is not longer than that.
pub proof fn law_truncated_title_fits(title: Seq<char>, max_chars: nat)
    ensures
        max_chars >= 3 ==> truncated(title, max_chars).len() <= max_chars,
        max_chars < 3 ==> truncated(title, max_chars).len() <= 3,
        title.len() > max_chars >= 3 ==> truncated(title, max_chars).len() == max_chars,
{
}

/// To cut a title that was cut before, to no more than then, is to cut it at once. To the same
/// length, it changes nothing.
pub proof fn law_truncations_are_one(title: Seq<char>, first: nat, second: nat)
    requires
        second <= first,
    ensures
        truncated(truncated(title, first), second) == truncated(title, second),
{
    let cut = truncated(title, first);
    if title.len() > first {
        let keep = if second < 3 { 0 } else { second - 3 };
        if second < 3 || second < first {
            assert(cut.take(keep) =~= title.take(keep));
        }
    }
}

/// What is left of a text without the white space at its ends is a part of it that neither
/// starts nor ends in white space, and what was left out is white space.
pub proof fn law_trim_leaves_out_white_space(s: Seq<char>)
    ensures
        exists|a: int, b: int|
            0 <= a <= b <= s.len() && trim_of(s) == #[trigger] s.subrange(a, b) && (forall|i: int|
                0 <= i < a || b <= i < s.len() ==> is_white_space(#[trigger] s[i])) && (a < b
                ==> !is_white_space(s[a]) && !is_white_space(s[b - 1])),
{
    let (a, b) = trim_bounds(s);
    assert(trim_of(s) == s.subrange(a, b));
}

pub(crate) proof fn trim_bounds(s: Seq<char>) -> (r: (int, int))
    ensures
        0 <= r.0 <= r.1 <= s.len(),
        trim_of(s) == s.subrange(r.0, r.1),
        forall|i: int| 0 <= i < r.0 || r.1 <= i < s.len() ==> is_white_space(#[trigger] s[i]),
        r.0 < r.1 ==> !is_white_space(s[r.0]) && !is_white_space(s[r.1 - 1]),
    decreases s.len(),
{
    if s.len() > 0 && is_white_space(s.first()) {
        let t = s.drop_first();
        let (a, b) = trim_bounds(t);
        assert(t.subrange(a, b) =~= s.subrange(a + 1, b + 1));
        assert forall|i: int| 0 <= i < a + 1 || b + 1 <= i < s.len() implies is_white_space(
            #[trigger] s[i],
        ) by {
            if i > 0 {
                assert(s[i] == t[i - 1]);
            }
        }
        (a + 1, b + 1)
    } else if s.len() > 0 && is_white_space(s.last()) {
        let t = s.drop_last();
        let (a, b) = trim_bounds(t);
        assert(t.subrange(a, b) =~= s.subrange(a, b));
        assert forall|i: int| 0 <= i < a || b <= i < s.len() implies is_white_space(
            #[trigger] s[i],
        ) by {
            if i < s.len() - 1 {
                assert(s[i] == t[i]);
            }
        }
        (a, b)
    } else {
        assert(s.subrange(0, s.len() as int) =~= s);
        (0, s.len() as int)
    }
}

/// To trim a text again changes nothing.
pub proof fn law_trim_is_idempotent(s: Seq<char>)
    ensures
        trim_of(trim_of(s)) == trim_of(s),
        trimmed_of(trim_of(s)) == trimmed_of(s),
    decreases s.len(),
{
    if s.len() > 0 && is_white_space(s.first()) {
        law_trim_is_idempotent(s.drop_first());
    } else if s.len() > 0 && is_white_space(s.last()) {
        law_trim_is_idempotent(s.drop_last());
    }
}

/// Nothing is left of a text exactly where it is all white space.
pub proof fn law_blank_text_is_nothing(s: Seq<char>)
    ensures
        trimmed_of(s) is None <==> forall|i: int| 0 <= i < s.len() ==> is_white_space(#[trigger] s[i]),
{
    let (a, b) = trim_bounds(s);
    if a < b {
        assert(!is_white_space(s[a]));
    }
}

/// A window that is shown has a title with something in it.
pub proof fn law_shown_window_has_a_title(info: ToplevelInfo)
    ensures
        info.shown() is Some <==> trimmed_of(info.title@) is Some || trimmed_of(info.app_id@)
            is Some,
        info.shown() matches Some(window) ==> window.title.len() > 0 && trim_of(window.title)
            == window.title,
{
    law_trim_is_idempotent(info.title@);
    law_trim_is_idempotent(info.app_id@);
}

pub(crate) proof fn normalized_parts(a: Seq<char>, b: Seq<char>)
    ensures
        normalized(a + b) == normalized(a) + normalized(b),
{
    let pred = |c: char| is_ascii_alnum(c);
    let low = |c: char| ascii_lower(c);
    Seq::filter_distributes_over_add(a, b, pred);
    assert((a.filter(pred) + b.filter(pred)).map_values(low) =~= a.filter(pred).map_values(low)
        + b.filter(pred).map_values(low));
}

pub(crate) proof fn normalized_one(c: char)
    ensures
        normalized(seq![c]) == if is_ascii_alnum(c) {
            seq![ascii_lower(c)]
        } else {
            Seq::empty()
        },
{
    let pred = |c: char| is_ascii_alnum(c);
    let low = |c: char| ascii_lower(c);
    reveal(Seq::filter);
    assert(seq![c].drop_last() =~= Seq::<char>::empty());
    assert(seq![c].drop_last().filter(pred) =~= Seq::<char>::empty());
    if is_ascii_alnum(c) {
        assert(seq![c].filter(pred) =~= seq![c]);
        assert(seq![c].map_values(low) =~= seq![ascii_lower(c)]);
    } else {
        assert(seq![c].filter(pred) =~= Seq::empty());
        assert(Seq::<char>::empty().map_values(low) =~= Seq::empty());
    }
}

/// A character that is no ASCII letter or digit makes no difference to whether an action opens
/// a new window, wherever in the identifier it stands.
pub proof fn law_new_window_id_ignores_punctuation(a: Seq<char>, c: char, b: Seq<char>)
    requires
        !is_ascii_alnum(c),
    ensures
        opens_new_window(a + seq![c] + b) == opens_new_window(a + b),
{
    normalized_parts(a + seq![c], b);
    normalized_parts(a, seq![c]);
    normalized_parts(a, b);
    normalized_one(c);
    assert(normalized(a) + Seq::<char>::empty() =~= normalized(a));
}

/// Capitals make no difference to whether an action opens a new window.
pub proof fn law_new_window_id_ignores_case(id: Seq<char>)
    ensures
        opens_new_window(id.map_values(|c: char| ascii_lower(c))) == opens_new_window(id),
{
    lowered_normalized(id);
}

proof fn lowered_normalized(id: Seq<char>)
    ensures
        normalized(id.map_values(|c: char| ascii_lower(c))) == normalized(id),
    decreases id.len(),
{
    let low = |c: char| ascii_lower(c);
    if id.len() == 0 {
        assert(id.map_values(low) =~= id);
    } else {
        let c = id.last();
        lowered_normalized(id.drop_last());
        assert(id =~= id.drop_last() + seq![c]);
        assert(id.map_values(low) =~= id.drop_last().map_values(low) + seq![ascii_lower(c)]);
        normalized_parts(id.drop_last(), seq![c]);
        normalized_parts(id.drop_last().map_values(low), seq![ascii_lower(c)]);
        normalized_one(c);
        normalized_one(ascii_lower(c));
    }
}

pub(crate) proof fn first_where_is_first<T>(s: Seq<T>, p: spec_fn(T) -> bool) -> (i: int)
    ensures
        match first_where(s, p) {
            Some(item) => 0 <= i < s.len() && s[i] == item && p(item) && forall|j: int|
                0 <= j < i ==> !p(#[trigger] s[j]),
            None => forall|j: int| 0 <= j < s.len() ==> !p(#[trigger] s[j]),
        },
    decreases s.len(),
{
    if s.len() == 0 || p(s[0]) {
        0
    } else {
        let i = first_where_is_first(s.drop_first(), p);
        assert forall|j: int| 0 <= j < s.len() && (first_where(s, p) is None || j < i
            + 1) implies !p(#[trigger] s[j]) by {
            if j > 0 {
                assert(s[j] == s.drop_first()[j - 1]);
            }
        }
        i + 1
    }
}

/// The window that is told is one that has the focus. Where one has the focus on the panel's
/// output, it is the first of these, whatever has the focus elsewhere.
pub proof fn law_panel_output_comes_first(
    expected_output: Option<OutputId>,
    toplevels: Seq<ToplevelInfo>,
)
    ensures
        current_toplevel_of(expected_output, toplevels) matches Some(info) ==> toplevels.contains(
            info,
        ) && info.is_activated(),
        forall|i: int|
            #![trigger toplevels[i]]
            0 <= i < toplevels.len() && toplevels[i].is_activated() && expected_output is Some
                && toplevels[i].output@.contains(expected_output->0) && (forall|j: int|
                0 <= j < i ==> !((#[trigger] toplevels[j]).is_activated()
                    && toplevels[j].output@.contains(expected_output->0)))
                ==> current_toplevel_of(expected_output, toplevels) == Some(toplevels[i])
                && current_window_of(expected_output, toplevels) == toplevels[i].shown(),
{
    let any = |info: ToplevelInfo| info.is_activated() && info.shown() is Some;
    let _ = first_where_is_first(toplevels, any);
    if let Some(output) = expected_output {
        let here = |info: ToplevelInfo| info.is_activated() && info.output@.contains(output);
        let k = first_where_is_first(toplevels, here);
        assert forall|i: int|
            #![trigger toplevels[i]]
            0 <= i < toplevels.len() && toplevels[i].is_activated()
                && toplevels[i].output@.contains(output) && (forall|j: int|
                0 <= j < i ==> !((#[trigger] toplevels[j]).is_activated()
                    && toplevels[j].output@.contains(
                    output,
                ))) implies current_toplevel_of(expected_output, toplevels) == Some(
            toplevels[i],
        ) by {
            assert(here(toplevels[i]));
            if first_where(toplevels, here) is Some {
                if i < k {
                    assert(!here(toplevels[i]));
                } else if k < i {
                    assert(here(toplevels[k]));
                }
            }
        }
    }
}

/// Where each toplevel that has the focus can be shown, no window is told exactly where none has
/// the focus.
pub proof fn law_no_window_without_focus(
    expected_output: Option<OutputId>,
    toplevels: Seq<ToplevelInfo>,
)
    requires
        forall|i: int|
            0 <= i < toplevels.len() && (#[trigger] toplevels[i]).is_activated()
                ==> toplevels[i].shown() is Some,
    ensures
        current_window_of(expected_output, toplevels) is None <==> forall|i: int|
            0 <= i < toplevels.len() ==> !(#[trigger] toplevels[i]).is_activated(),
{
    let any = |info: ToplevelInfo| info.is_activated() && info.shown() is Some;
    let k = first_where_is_first(toplevels, any);
    if first_where(toplevels, any) is None {
        assert forall|i: int| 0 <= i < toplevels.len() implies !(
        #[trigger] toplevels[i]).is_activated() by {
            assert(!any(toplevels[i]));
        }
    }
    if let Some(output) = expected_output {
        let here = |info: ToplevelInfo| info.is_activated() && info.output@.contains(output);
        let _ = first_where_is_first(toplevels, here);
    }
}

/// What was told last is the active window: publishing brings that about, and when an output
/// comes, changes or goes, it stays so. Nothing is sent that was told last.
pub proof fn law_told_window_stays_current(
    data: AppData,
    after: AppData,
    toplevels: Seq<ToplevelInfo>,
    expected: Option<OutputId>,
    sent: Option<WaylandUpdate>,
)
    ensures
        data.published(after, toplevels, sent) ==> after.in_sync(toplevels),
        data.published(after, toplevels, sent) && data.in_sync(toplevels) ==> sent is None && after
            == data,
        data.in_sync(toplevels) && data.moved_to(after, expected, toplevels, sent)
            ==> after.in_sync(toplevels) && after.expected_output == expected,
{
}

/// To publish the active window twice sends nothing the second time.
pub proof fn law_nothing_is_sent_twice(
    data: AppData,
    once: AppData,
    twice: AppData,
    toplevels: Seq<ToplevelInfo>,
    sent: Option<WaylandUpdate>,
    sent_again: Option<WaylandUpdate>,
)
    requires
        data.published(once, toplevels, sent),
        once.published(twice, toplevels, sent_again),
    ensures
        sent_again is None,
        twice == once,
{
}

/// Where the panel's output has no name, none is ever taken for it. Where it has one, an output
/// that tells that name is, and one that tells another is not.
pub proof fn law_expected_output_has_the_configured_name(
    configured: Option<Seq<char>>,
    expected: Option<OutputId>,
    output: OutputId,
    name: Option<Seq<char>>,
)
    ensures
        configured is None ==> expected_output_after(configured, expected, output, name) == expected,
        configured is Some ==> (expected_output_after(configured, expected, output, name) == Some(
            output,
        ) <==> name == configured),
        forall|other: OutputId|
            other != output && expected_output_after(configured, expected, output, name) == Some(
                other,
            ) ==> expected == Some(other),
{
}

/// The stage of the listening thread after these outcomes.
pub open spec fn stage_after(stage: Stage, outcomes: Seq<bool>) -> Stage
    decreases outcomes.len(),
{
    if outcomes.len() == 0 {
        stage
    } else {
        stage_after(stage, outcomes.drop_last()).after(outcomes.last())
    }
}

/// How often the applet is told, over these outcomes, that no more updates come.
pub open spec fn ends_told(stage: Stage, outcomes: Seq<bool>) -> nat
    decreases outcomes.len(),
{
    if outcomes.len() == 0 {
        0
    } else {
        let before = ends_told(stage, outcomes.drop_last());
        if stage_after(stage, outcomes.drop_last()).tells_end(outcomes.last()) {
            before + 1
        } else {
            before
        }
    }
}

/// However the listening thread goes, it stops at the first failure, and it tells its end once
/// where there is a failure and never where there is none.
pub proof fn law_end_is_told_once(stage: Stage, outcomes: Seq<bool>)
    requires
        stage != Stage::Stopped,
    ensures
        ends_told(stage, outcomes) == if outcomes.contains(false) {
            1nat
        } else {
            0nat
        },
        stage_after(stage, outcomes) == Stage::Stopped <==> outcomes.contains(false),
    decreases outcomes.len(),
{
    if outcomes.len() > 0 {
        let init = outcomes.drop_last();
        law_end_is_told_once(stage, init);
        if init.contains(false) {
            let i = choose|i: int| 0 <= i < init.len() && init[i] == false;
            assert(outcomes[i] == false);
        } else if outcomes.contains(false) {
            let i = choose|i: int| 0 <= i < outcomes.len() && outcomes[i] == false;
            if i < init.len() {
                assert(init[i] == false);
            }
        }
        if !outcomes.last() {
            assert(outcomes[outcomes.len() - 1] == false);
        }
    }
}

/// Every action of a menu belongs to the entry's application and runs as the application does.
/// After the one that runs the application itself, each comes from an identifier that the entry
/// offers.
pub proof fn law_menu_comes_from_the_entry(
    entry: EntryView,
    locales: Seq<Seq<char>>,
    answers: CatalogueAnswersView,
)
    ensures
        ({
            let menu = entry.menu(locales, answers);
            &&& entry.own_action().len() <= 1
            &&& entry.has_new_window() ==> entry.own_action().len() == 0
            &&& menu.len() <= entry.offered().len() + 1
            &&& forall|k: int|
                0 <= k < menu.len() ==> (#[trigger] menu[k]).app_id == Some(entry.id)
                    && menu[k].terminal == entry.in_terminal()
            &&& forall|k: int|
                entry.own_action().len() <= k < menu.len() ==> exists|i: int|
                    0 <= i < entry.offered().len() && entry.action(
                        #[trigger] entry.offered()[i],
                        entry.action_name(locales, answers, i),
                    ) == Some(#[trigger] menu[k])
        }),
{
    let count = entry.offered().len() as int;
    listed_actions(entry, locales, answers, count);
    let own = entry.own_action();
    let rest = entry.listed(locales, answers, count);
    let menu = entry.menu(locales, answers);
    assert forall|k: int| own.len() <= k < menu.len() implies exists|i: int|
        0 <= i < entry.offered().len() && entry.action(
            #[trigger] entry.offered()[i],
            entry.action_name(locales, answers, i),
        ) == Some(#[trigger] menu[k]) by {
        assert(menu[k] == rest[k - own.len()]);
    }
}

proof fn listed_actions(
    entry: EntryView,
    locales: Seq<Seq<char>>,
    answers: CatalogueAnswersView,
    count: int,
)
    requires
        0 <= count,
    ensures
        entry.listed(locales, answers, count).len() <= count,
        forall|k: int|
            0 <= k < entry.listed(locales, answers, count).len() ==> exists|i: int|
                0 <= i < count && entry.action(
                    #[trigger] entry.offered()[i],
                    entry.action_name(locales, answers, i),
                ) == Some(#[trigger] entry.listed(locales, answers, count)[k]),
    decreases count,
{
    if count > 0 {
        listed_actions(entry, locales, answers, count - 1);
        let all = entry.listed(locales, answers, count);
        assert forall|k: int| 0 <= k < all.len() implies exists|i: int|
            0 <= i < count && entry.action(
                #[trigger] entry.offered()[i],
                entry.action_name(locales, answers, i),
            ) == Some(#[trigger] all[k]) by {
            let before = entry.listed(locales, answers, count - 1);
            let i = if k < before.len() {
                choose|i: int|
                    0 <= i < count - 1 && entry.action(
                        #[trigger] entry.offered()[i],
                        entry.action_name(locales, answers, i),
                    ) == Some(before[k])
            } else {
                count - 1
            };
            assert(entry.action(entry.offered()[i], entry.action_name(locales, answers, i)) == Some(
                all[k],
            ));
        }
    }
}

/// An entry whose actions open no new window, and which has a command, offers a new window
/// first. Where one of its actions does, the menu holds the entry's actions alone.
pub proof fn law_new_window_is_offered_once(
    entry: EntryView,
    locales: Seq<Seq<char>>,
    answers: CatalogueAnswersView,
)
    ensures
        ({
            let menu = entry.menu(locales, answers);
            &&& entry.has_new_window() ==> menu == entry.listed(
                locales,
                answers,
                entry.offered().len() as int,
            )
            &&& !entry.has_new_window() && entry.own_value("Exec"@) is Some ==> menu.len() > 0
                && menu[0].name == "New Window"@ && Some(menu[0].command) == entry.own_value(
                "Exec"@,
            )
        }),
{
    let rest = entry.listed(locales, answers, entry.offered().len() as int);
    assert(Seq::<MenuActionView>::empty() + rest =~= rest);
}

/// A text is there exactly where it has an untranslated value. One that the entry has in a locale
/// of the user is that one, whatever a catalogue answers.
pub proof fn law_a_translation_of_the_entry_comes_first(
    entry: EntryView,
    group: Seq<char>,
    key: Seq<char>,
    locales: Seq<Seq<char>>,
    answer: Option<Seq<char>>,
)
    ensures
        entry.text(group, key, locales, answer) is Some <==> value_at(
            entry.contents,
            group,
            key,
        ) is Some,
        is_translated(entry.contents, group, key, locales) ==> entry.text(
            group,
            key,
            locales,
            answer,
        ) == localized(entry.contents, group, key, locales),
{
    law_translation_needs_a_value(entry.contents, group, key, locales);
}

/// A catalogue decides a text exactly where it is asked for it. A catalogue that gives the message
/// back leaves the text as it would be without one.
pub proof fn law_a_catalogue_decides_what_it_is_asked(
    entry: EntryView,
    group: Seq<char>,
    key: Seq<char>,
    locales: Seq<Seq<char>>,
    answer: Seq<char>,
)
    ensures
        match entry.question(group, key, locales) {
            Some(message) => {
                &&& entry.text(group, key, locales, Some(answer)) == Some(answer)
                &&& entry.text(group, key, locales, Some(message)) == localized(
                    entry.contents,
                    group,
                    key,
                    locales,
                )
            },
            None => entry.text(group, key, locales, Some(answer)) == entry.text(
                group,
                key,
                locales,
                None,
            ),
        },
{
    if !is_translated(entry.contents, group, key, locales) {
        untranslated_value(entry.contents, group, key, locales);
    }
}

proof fn untranslated_value(
    contents: Map<(Seq<char>, Seq<char>, Option<Seq<char>>), Seq<char>>,
    group: Seq<char>,
    key: Seq<char>,
    locales: Seq<Seq<char>>,
)
    requires
        !is_translated(contents, group, key, locales),
    ensures
        localized(contents, group, key, locales) == value_at(contents, group, key),
    decreases locales.len(),
{
    if locales.len() > 0 {
        let rest = locales.drop_first();
        assert forall|i: int| 0 <= i < rest.len() implies #[trigger] rest[i] == locales[i + 1] by {
        }
        assert(!contents.contains_key((group, key, Some(locales[0]))));
        untranslated_value(contents, group, key, rest);
    }
}

/// An entry that names no message catalogue has its name and its menu from itself and the locales
/// alone.
pub proof fn law_an_entry_without_a_catalogue_decides_its_texts(
    entry: EntryView,
    locales: Seq<Seq<char>>,
    a: CatalogueAnswersView,
    b: CatalogueAnswersView,
)
    requires
        entry.domain is None,
    ensures
        entry.app_name(locales, a) == entry.app_name(locales, b),
        entry.menu(locales, a) == entry.menu(locales, b),
{
    listed_without_a_catalogue(entry, locales, a, b, entry.offered().len() as int);
}

proof fn listed_without_a_catalogue(
    entry: EntryView,
    locales: Seq<Seq<char>>,
    a: CatalogueAnswersView,
    b: CatalogueAnswersView,
    count: int,
)
    requires
        entry.domain is None,
    ensures
        entry.listed(locales, a, count) == entry.listed(locales, b, count),
    decreases count,
{
    if count > 0 {
        listed_without_a_catalogue(entry, locales, a, b, count - 1);
    }
}

/// A value is given, in whatever language, exactly where there is an untranslated one.
pub proof fn law_translation_needs_a_value(
    contents: Map<(Seq<char>, Seq<char>, Option<Seq<char>>), Seq<char>>,
    group: Seq<char>,
    key: Seq<char>,
    locales: Seq<Seq<char>>,
)
    ensures
        localized(contents, group, key, locales) is Some <==> value_at(
            contents,
            group,
            key,
        ) is Some,
        locales.len() == 0 ==> localized(contents, group, key, locales) == value_at(
            contents,
            group,
            key,
        ),
    decreases locales.len(),
{
    if locales.len() > 0 {
        law_translation_needs_a_value(contents, group, key, locales.drop_first());
    }
}

/// The windows that are shown are those of the workspace, in their order, and no icon is shown
/// unless icons are on.
pub proof fn law_windows_are_those_of_the_workspace(
    applet: Applet,
    windows: Seq<DisplayWindow>,
    entries: Seq<Option<FoundEntry>>,
    locales: Seq<Seq<char>>,
)
    requires
        applet.resolved(windows, entries, locales),
    ensures
        windows.len() == applet.source_windows@.len(),
        forall|i: int|
            0 <= i < windows.len() ==> (#[trigger] windows[i]).handle
                == applet.source_windows@[i].handle && windows[i].title@
                == applet.source_windows@[i].title@ && (windows[i].icon is Some
                ==> applet.config.show_app_icons),
{
    assert forall|i: int| 0 <= i < windows.len() implies (#[trigger] windows[i]).handle
        == applet.source_windows@[i].handle && windows[i].title@
        == applet.source_windows@[i].title@ && (windows[i].icon is Some
        ==> applet.config.show_app_icons) by {
        assert(windows[i]@.handle == windows[i].handle);
    }
}

/// What is kept over a change of the windows is one of them, and what is one of them is kept.
pub proof fn law_only_shown_windows_are_kept(
    target: Option<WindowHandle>,
    windows: Seq<DisplayWindow>,
)
    ensures
        kept(target, windows) matches Some(handle) ==> shows(windows, handle),
        target matches Some(handle) ==> (kept(target, windows) == target <==> shows(
            windows,
            handle,
        )),
        kept(kept(target, windows), windows) == kept(target, windows),
{
}

/// The window that the context menu is about is the one that it was opened for, and it is there
/// as long as that window is shown.
pub proof fn law_context_window_is_the_one_asked_for(applet: Applet)
    ensures
        applet.context_window() matches Some(window) ==> applet.context_menu_window == Some(
            window.handle,
        ) && applet.windows@.contains(window),
        applet.context_window() is Some <==> kept(
            applet.context_menu_window,
            applet.windows@,
        ) is Some,
{
    if let Some(handle) = applet.context_menu_window {
        let wanted = |window: DisplayWindow| window.handle == handle;
        let _ = first_where_is_first(applet.windows@, wanted);
        if shows(applet.windows@, handle) {
            let i = choose|i: int|
                0 <= i < applet.windows@.len() && #[trigger] applet.windows@[i].handle == handle;
            assert(wanted(applet.windows@[i]));
        }
    }
}

/// No message breaks what holds of the applet at all times.
pub proof fn law_messages_keep_the_applet_well_formed(applet: Applet, message: Message)
    requires
        applet.wf(),
    ensures
        applet.after(message).wf(),
{
}

/// An action that is asked for while the context menu is open closes the menu first, and is done
/// when the menu is closed, as it is done at once where no menu is open.
pub proof fn law_action_is_done_after_the_menu(applet: Applet, message: Message, id: PopupId)
    requires
        menu_action_of(message) is Some,
        message is OpenSettingsPopup ==> applet.settings_popup is None,
        applet.context_menu_popup == Some(id),
    ensures
        applet.reply(message) == Command::DestroyPopup(id),
        applet.after(message).reply(Message::PopupClosed(id)) == command_of(
            menu_action_of(message)->0,
        ),
        (Applet { context_menu_popup: None, ..applet }).reply(message) == command_of(
            menu_action_of(message)->0,
        ),
        !applet.after(message).after(Message::PopupClosed(id)).has_pending(),
        applet.after(message).after(Message::PopupClosed(id)).context_menu_popup is None,
        applet.after(message).after(Message::PopupClosed(id)).context_menu_window is None,
{
}

/// A context menu that is asked for while another is open opens when that one is closed, for the
/// window that it was asked for.
pub proof fn law_next_menu_opens_after_the_last(applet: Applet, handle: WindowHandle, id: PopupId)
    requires
        applet.settings_popup is None,
        applet.context_menu_popup == Some(id),
    ensures
        applet.reply(Message::OpenWindowContextMenu(handle)) == Command::DestroyPopup(id),
        applet.after(Message::OpenWindowContextMenu(handle)).reply(Message::PopupClosed(id))
            == Command::OpenContextMenu,
        applet.after(Message::OpenWindowContextMenu(handle)).after(
            Message::PopupClosed(id),
        ).context_menu_window == Some(handle),
        !applet.after(Message::OpenWindowContextMenu(handle)).after(
            Message::PopupClosed(id),
        ).has_pending(),
{
}

/// Whether a message asks for something that waits while the context menu is open.
pub open spec fn is_request(applet: Applet, message: Message) -> bool {
    match message {
        Message::OpenWindowContextMenu(_) | Message::OpenSettingsPopup => applet.settings_popup
            is None,
        _ => menu_action_of(message) is Some,
    }
}

/// Of two things that are asked for while the context menu is open, the second takes the place
/// of the first.
pub proof fn law_last_request_wins(applet: Applet, first: Message, second: Message)
    requires
        applet.context_menu_popup is Some,
        is_request(applet, first),
        is_request(applet, second),
    ensures
        applet.after(first).after(second) == applet.after(second),
        applet.after(first).reply(second) == applet.reply(second),
{
}

/// While the settings are open, neither they nor a context menu open again.
pub proof fn law_open_settings_block_popups(applet: Applet, handle: WindowHandle)
    requires
        applet.settings_popup is Some,
    ensures
        applet.after(Message::OpenSettingsPopup) == applet,
        applet.reply(Message::OpenSettingsPopup) == Command::Nothing,
        applet.after(Message::OpenWindowContextMenu(handle)) == applet,
        applet.reply(Message::OpenWindowContextMenu(handle)) == Command::Nothing,
{
}

/// The settings that are stored after a reply, where `stored` were so before.
pub open spec fn stored_after(stored: AppletConfig, reply: Command) -> AppletConfig {
    match reply {
        Command::SaveConfig(config) => config,
        _ => stored,
    }
}

/// Settings that differ from the stored ones are never forgotten: after every message they are
/// stored, or marked to be stored.
pub proof fn law_no_change_of_settings_is_lost(
    applet: Applet,
    stored: AppletConfig,
    message: Message,
)
    requires
        applet.config_dirty || applet.config == stored,
    ensures
        applet.after(message).config_dirty || applet.after(message).config == stored_after(
            stored,
            applet.reply(message),
        ),
{
}

/// When the settings are closed, the stored settings are those of the applet, and closing them
/// again stores nothing. (A popup that were the context menu too, with something waiting for it
/// to close, would not count.)
pub proof fn law_settings_are_stored_on_close(applet: Applet, stored: AppletConfig, id: PopupId)
    requires
        applet.config_dirty || applet.config == stored,
        applet.settings_popup == Some(id),
        !(applet.context_menu_popup == Some(id) && applet.has_pending()),
    ensures
        stored_after(stored, applet.reply(Message::PopupClosed(id))) == applet.config,
        applet.after(Message::PopupClosed(id)).config == applet.config,
        !applet.after(Message::PopupClosed(id)).config_dirty,
        applet.after(Message::PopupClosed(id)).settings_popup is None,
        applet.reply(Message::PopupClosed(id)) is SaveConfig <==> applet.config_dirty,
        applet.after(Message::PopupClosed(id)).reply(Message::PopupClosed(id)) == Command::Nothing,
{
}

/// A change of the settings applies at once.
pub proof fn law_settings_apply_at_once(applet: Applet, value: bool, chars: usize)
    requires
        applet.title_limits.wf(),
    ensures
        applet.after(Message::SetShowAppIcons(value)).config.show_app_icons == value,
        applet.after(Message::SetMiddleClickCloses(value)).config.middle_click_closes == value,
        applet.title_limits.min <= applet.after(
            Message::SetMaxTitleChars(chars),
        ).config.max_title_chars <= applet.title_limits.max,
        applet.title_limits.min <= chars <= applet.title_limits.max ==> applet.after(
            Message::SetMaxTitleChars(chars),
        ).config.max_title_chars == chars,
{
}

/// A limit on titles that is within its bounds stays within them.
pub proof fn law_title_limit_stays_in_bounds(applet: Applet, message: Message)
    requires
        applet.title_limits.wf(),
        applet.title_limits.min <= applet.config.max_title_chars <= applet.title_limits.max,
    ensures
        applet.after(message).title_limits == applet.title_limits,
        applet.title_limits.min <= applet.after(message).config.max_title_chars
            <= applet.title_limits.max,
{
}

/// A popup is anchored where the cursor was last, and at no such place once the cursor has left.
pub proof fn law_popups_open_at_the_cursor(applet: Applet, position: CursorPosition)
    ensures
        applet.after(Message::UpdateAppletCursor(position)).anchor() == Some(
            AnchorRect { x: position.x, y: position.y, width: 1, height: 1 },
        ),
        applet.after(Message::ClearHoveredWindowGlobal).anchor() is None,
{
}

/// To leave a tile ends the hovering over its window, and over no other.
pub proof fn law_leaving_a_tile_ends_its_hovering(
    applet: Applet,
    handle: WindowHandle,
    other: WindowHandle,
)
    requires
        handle != other,
    ensures
        applet.after(Message::HoverWindow(handle)).after(
            Message::ClearHoveredWindow(handle),
        ).hovered_window is None,
        applet.after(Message::HoverWindow(handle)).after(Message::ClearHoveredWindow(other))
            == applet.after(Message::HoverWindow(handle)),
        applet.after(Message::HoverWindow(handle)).after(
            Message::ClearHoveredWindowGlobal,
        ).hovered_window is None,
{
}

/// No message but news of the workspace changes which windows there are, and none changes what
/// is shown of them: that is left to the rebuilding.
pub proof fn law_messages_leave_the_windows(applet: Applet, message: Message)
    ensures
        applet.after(message).windows == applet.windows,
        !(message is Wayland) ==> applet.after(message).source_windows == applet.source_windows,
        applet.after(message).source_windows != applet.source_windows || applet.after(
            message,
        ).config.show_app_icons != applet.config.show_app_icons ==> applet.reply(message)
            == Command::RebuildWindows,
{
}

/// A window's tile shows its title, cut to the limit that is set.
pub proof fn law_tile_text_fits(tile: WindowTile, applet: Applet, window: DisplayWindow)
    requires
        tile.shows(applet, window),
        applet.config.max_title_chars >= 3,
    ensures
        tile.text@.len() <= applet.config.max_title_chars,
        window.title@.len() <= applet.config.max_title_chars ==> tile.text@ == window.title@,
{
}

/// A middle click on a tile closes its window exactly where that is switched on.
pub proof fn law_middle_click_closes_where_it_is_on(
    tile: WindowTile,
    applet: Applet,
    window: DisplayWindow,
    value: bool,
)
    requires
        tile.shows(applet.after(Message::SetMiddleClickCloses(value)), window),
    ensures
        value ==> tile.on_middle_press == Some(Message::CloseWindow(window.handle)),
        !value ==> tile.on_middle_press is None,
{
}

/// Windows that are right for the panel at two times show the same active window, so that no
/// change of the active window is left unsent.
pub proof fn law_a_new_active_window_is_sent(
    windows: Seq<WorkspaceWindow>,
    first_output: Option<OutputId>,
    first: Seq<ToplevelInfo>,
    second_output: Option<OutputId>,
    second: Seq<ToplevelInfo>,
)
    requires
        are_active_windows(windows, first_output, first),
        are_active_windows(windows, second_output, second),
    ensures
        current_window_of(first_output, first) == current_window_of(second_output, second),
{
}

/// A panel that is given the active window shows its title, cut to the limit that is set: that of
/// the window that has the focus on the panel's output, or, where none has it there, of the first
/// that has it elsewhere and can be shown. It shows `Desktop` where there is no such window, or
/// where the one on the panel's output has neither a title nor an application.
pub proof fn law_panel_shows_the_active_window(
    data: AppData,
    toplevels: Seq<ToplevelInfo>,
    applet: Applet,
    entries: Seq<Option<FoundEntry>>,
    locales: Seq<Seq<char>>,
    tiles: Seq<Tile>,
)
    requires
        are_active_windows(applet.source_windows@, data.expected_output, toplevels),
        applet.resolved(applet.windows@, entries, locales),
        are_tiles_of(tiles, applet),
    ensures
        tiles.len() == 1,
        match current_window_of(data.expected_output, toplevels) {
            Some(window) => tiles[0] is Window && tiles[0]->Window_0.text@ == truncated(
                window.title,
                applet.config.max_title_chars as nat,
            ),
            None => tiles[0] is Empty && tiles[0]->Empty_0.text@ == "Desktop"@,
        },
{
    if current_window_of(data.expected_output, toplevels) is Some {
        assert(applet.windows@[0]@.title == applet.source_windows@[0].title@);
        assert(tiles[0] is Window);
    }
}

} // verus!
