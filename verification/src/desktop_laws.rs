//! What a window has from its desktop entry, in terms of what the entry holds.

use vstd::prelude::*;

use crate::desktop::{
    before, found_of, is_translated, localized, pieces, CatalogueAnswersView, CatalogueQuestions,
    DisplayWindow, DisplayWindowView, EntryView, FoundEntry, MenuActionView, WindowMenuAction,
    WorkspaceWindow,
};
use crate::laws::law_translation_needs_a_value;
use crate::text::opens_new_window;
use crate::wayland_laws::chars_of;

verus! {

/// The command of the action of an identifier, where the entry has one.
pub open spec fn command_for(entry: EntryView, id: Seq<char>) -> Option<Seq<char>> {
    let place = ("Desktop Action "@ + id, "Exec"@, None::<Seq<char>>);
    if entry.contents.contains_key(place) {
        Some(entry.contents[place])
    } else {
        None
    }
}

/// The name of the action at place `i`, where it has one.
pub open spec fn name_for(
    entry: EntryView,
    locales: Seq<Seq<char>>,
    answers: CatalogueAnswersView,
    i: int,
) -> Option<Seq<char>> {
    let answer = if 0 <= i < answers.action_names.len() {
        answers.action_names[i]
    } else {
        None
    };
    entry.text("Desktop Action "@ + entry.offered()[i], "Name"@, locales, answer)
}

/// Whether the entry says that its application runs in a terminal.
pub open spec fn says_terminal(entry: EntryView) -> bool {
    let place = ("Desktop Entry"@, "Terminal"@, None::<Seq<char>>);
    entry.contents.contains_key(place) && entry.contents[place] == "true"@
}

/// Whether the action at place `i` can be offered: it has a name and a command.
pub open spec fn can_be_offered(
    entry: EntryView,
    locales: Seq<Seq<char>>,
    answers: CatalogueAnswersView,
    i: int,
) -> bool {
    &&& 0 <= i < entry.offered().len()
    &&& name_for(entry, locales, answers, i) is Some
    &&& command_for(entry, entry.offered()[i]) is Some
}

/// Whether `action` is that of place `i`: it has the name and the command of that place and
/// belongs to the entry's application.
pub open spec fn is_action_at(
    action: MenuActionView,
    entry: EntryView,
    locales: Seq<Seq<char>>,
    answers: CatalogueAnswersView,
    i: int,
) -> bool {
    &&& Some(action.name) == name_for(entry, locales, answers, i)
    &&& Some(action.command) == command_for(entry, entry.offered()[i])
    &&& action.app_id == Some(entry.id)
    &&& action.terminal == says_terminal(entry)
}

/// Whether `places` are, in their order, all the places below `count` whose actions can be
/// offered, each once.
pub open spec fn are_all_places(
    places: Seq<int>,
    entry: EntryView,
    locales: Seq<Seq<char>>,
    answers: CatalogueAnswersView,
    count: int,
) -> bool {
    &&& forall|a: int, b: int| 0 <= a < b < places.len() ==> #[trigger] places[a] < #[trigger] places[b]
    &&& forall|a: int|
        0 <= a < places.len() ==> 0 <= #[trigger] places[a] < count && can_be_offered(
            entry,
            locales,
            answers,
            places[a],
        )
    &&& forall|i: int|
        0 <= i < count && #[trigger] can_be_offered(entry, locales, answers, i)
            ==> places.contains(i)
}

/// Whether the application itself can be run from the menu: it has a command, and none of the
/// entry's actions opens a new window.
pub open spec fn runs_itself(entry: EntryView) -> bool {
    entry.contents.contains_key(("Desktop Entry"@, "Exec"@, None)) && !exists|i: int|
        0 <= i < entry.offered().len() && opens_new_window(#[trigger] entry.offered()[i])
}

proof fn places_of(
    entry: EntryView,
    locales: Seq<Seq<char>>,
    answers: CatalogueAnswersView,
    count: int,
) -> (places: Seq<int>)
    requires
        0 <= count <= entry.offered().len(),
    ensures
        are_all_places(places, entry, locales, answers, count),
        entry.listed(locales, answers, count).len() == places.len(),
        forall|a: int|
            0 <= a < places.len() ==> is_action_at(
                #[trigger] entry.listed(locales, answers, count)[a],
                entry,
                locales,
                answers,
                places[a],
            ),
    decreases count,
{
    if count == 0 {
        Seq::empty()
    } else {
        let earlier = places_of(entry, locales, answers, count - 1);
        let first = entry.listed(locales, answers, count - 1);
        let all = entry.listed(locales, answers, count);
        let i = count - 1;
        if can_be_offered(entry, locales, answers, i) {
            let places = earlier.push(i);
            assert forall|a: int| 0 <= a < places.len() implies is_action_at(
                #[trigger] all[a],
                entry,
                locales,
                answers,
                places[a],
            ) by {
                if a < earlier.len() {
                    assert(all[a] == first[a]);
                }
            }
            assert forall|j: int|
                0 <= j < count && #[trigger] can_be_offered(
                    entry,
                    locales,
                    answers,
                    j,
                ) implies places.contains(j) by {
                if j < i {
                    let a = choose|a: int| 0 <= a < earlier.len() && earlier[a] == j;
                    assert(places[a] == j);
                } else {
                    assert(places[earlier.len() as int] == j);
                }
            }
            places
        } else {
            assert(all =~= first);
            earlier
        }
    }
}

/// The menu holds every action of the entry that has a name and a command, each once and in the
/// entry's order, with that name and that command; and before them, where the entry has a command
/// and none of its actions opens a new window, one that runs the application. It holds nothing
/// else.
pub proof fn law_the_menu_holds_every_action(
    entry: EntryView,
    locales: Seq<Seq<char>>,
    answers: CatalogueAnswersView,
)
    ensures
        exists|places: Seq<int>|
            {
                let menu = entry.menu(locales, answers);
                let own: int = if runs_itself(entry) { 1 } else { 0 };
                &&& #[trigger] are_all_places(
                    places,
                    entry,
                    locales,
                    answers,
                    entry.offered().len() as int,
                )
                &&& menu.len() == own + places.len()
                &&& forall|a: int|
                    #![trigger places[a]]
                    0 <= a < places.len() ==> is_action_at(
                        menu[own + a],
                        entry,
                        locales,
                        answers,
                        places[a],
                    )
            },
        runs_itself(entry) ==> {
            let action = entry.menu(locales, answers)[0];
            &&& action.name == "New Window"@
            &&& action.command == entry.contents[("Desktop Entry"@, "Exec"@, None)]
            &&& action.app_id == Some(entry.id)
            &&& action.terminal == says_terminal(entry)
        },
{
    let count = entry.offered().len() as int;
    let places = places_of(entry, locales, answers, count);
    let menu = entry.menu(locales, answers);
    let listed = entry.listed(locales, answers, count);
    let own: int = if runs_itself(entry) { 1 } else { 0 };
    assert(entry.has_new_window() == exists|i: int|
        0 <= i < entry.offered().len() && opens_new_window(#[trigger] entry.offered()[i]));
    assert(entry.own_action().len() == own);
    assert forall|a: int|
        #![trigger places[a]]
        0 <= a < places.len() implies is_action_at(
        menu[own + a],
        entry,
        locales,
        answers,
        places[a],
    ) by {
        assert(menu[own + a] == listed[a]);
    }
}

/// The texts with a separator between any two.
pub open spec fn joined(texts: Seq<Seq<char>>, separator: char) -> Seq<char>
    decreases texts.len(),
{
    if texts.len() == 0 {
        Seq::empty()
    } else if texts.len() == 1 {
        texts[0]
    } else {
        joined(texts.drop_last(), separator) + seq![separator] + texts.last()
    }
}

proof fn pieces_join(text: Seq<char>, separator: char)
    ensures
        pieces(text, separator).len() > 0,
        joined(pieces(text, separator), separator) == text,
        forall|i: int|
            0 <= i < pieces(text, separator).len() ==> !(#[trigger] pieces(
                text,
                separator,
            )[i]).contains(separator),
    decreases text.len(),
{
    let all = pieces(text, separator);
    if text.len() == 0 {
        assert(joined(all, separator) =~= text);
    } else {
        let init = text.drop_last();
        let first = pieces(init, separator);
        pieces_join(init, separator);
        assert(text =~= init.push(text.last()));
        if text.last() == separator {
            assert(all.drop_last() =~= first);
            assert(joined(all, separator) =~= text);
        } else {
            assert(all.drop_last() =~= first.drop_last());
            assert(all.last() == first.last().push(text.last()));
            assert(joined(all, separator) =~= joined(first, separator).push(text.last()));
            assert forall|i: int| 0 <= i < all.len() implies !(#[trigger] all[i]).contains(
                separator,
            ) by {
                if i < all.len() - 1 {
                    assert(all[i] == first[i]);
                } else {
                    let last = first[first.len() - 1];
                    assert(!last.contains(separator));
                    assert forall|k: int| 0 <= k < all[i].len() implies all[i][k] != separator by {
                        if k < last.len() {
                            assert(last[k] != separator) by {
                                if last[k] == separator {
                                    assert(last.contains(separator));
                                }
                            }
                        }
                    }
                }
            }
        }
    }
}

/// The identifiers of an entry's actions are the parts of its list of them: with semicolons between
/// them they are that list again, and none holds a semicolon. Without a list there are none.
pub proof fn law_identifiers_are_the_parts_of_the_list(entry: EntryView)
    ensures
        ({
            let place = ("Desktop Entry"@, "Actions"@, None::<Seq<char>>);
            if entry.contents.contains_key(place) {
                &&& entry.offered().len() > 0
                &&& joined(entry.offered(), ';') == entry.contents[place]
                &&& forall|i: int|
                    0 <= i < entry.offered().len() ==> !(#[trigger] entry.offered()[i]).contains(
                        ';',
                    )
            } else {
                entry.offered().len() == 0
            }
        }),
{
    let place = ("Desktop Entry"@, "Actions"@, None::<Seq<char>>);
    if entry.contents.contains_key(place) {
        pieces_join(entry.contents[place], ';');
    }
}

/// What stands before the first of a character is what stands there, and a text without the
/// character stays whole.
pub proof fn law_a_language_stands_before_its_country(a: Seq<char>, c: char, b: Seq<char>)
    requires
        !a.contains(c),
    ensures
        before(a + seq![c] + b, c) == a,
        before(a, c) == a,
    decreases b.len(),
{
    let s = a + seq![c] + b;
    assert(s[a.len() as int] == c);
    assert(s.contains(c));
    if b.len() == 0 {
        assert(before(a, c) == a);
        assert(s.drop_last() =~= a);
    } else {
        law_a_language_stands_before_its_country(a, c, b.drop_last());
        assert(s.drop_last() =~= a + seq![c] + b.drop_last());
    }
}

/// Whether an entry has a value in a locale or in its language.
pub open spec fn speaks(
    contents: Map<(Seq<char>, Seq<char>, Option<Seq<char>>), Seq<char>>,
    group: Seq<char>,
    key: Seq<char>,
    locale: Seq<char>,
) -> bool {
    contents.contains_key((group, key, Some(locale))) || contents.contains_key(
        (group, key, Some(before(locale, '_'))),
    )
}

/// A text is that of the first locale that the entry has it in, in the very locale rather than in
/// its language alone. One that it has in none stays untranslated, and one without an untranslated
/// value is none.
pub proof fn law_the_first_locale_decides(
    contents: Map<(Seq<char>, Seq<char>, Option<Seq<char>>), Seq<char>>,
    group: Seq<char>,
    key: Seq<char>,
    locales: Seq<Seq<char>>,
    i: int,
)
    ensures
        !contents.contains_key((group, key, None)) ==> localized(contents, group, key, locales)
            is None,
        contents.contains_key((group, key, None)) && 0 <= i < locales.len() && speaks(
            contents,
            group,
            key,
            locales[i],
        ) && (forall|j: int|
            0 <= j < i ==> !speaks(contents, group, key, #[trigger] locales[j])) ==> localized(
            contents,
            group,
            key,
            locales,
        ) == Some(
            if contents.contains_key((group, key, Some(locales[i]))) {
                contents[(group, key, Some(locales[i]))]
            } else {
                contents[(group, key, Some(before(locales[i], '_')))]
            },
        ),
        contents.contains_key((group, key, None)) && (forall|j: int|
            0 <= j < locales.len() ==> !speaks(contents, group, key, #[trigger] locales[j]))
            ==> localized(contents, group, key, locales) == Some(contents[(group, key, None)]),
    decreases locales.len(),
{
    law_translation_needs_a_value(contents, group, key, locales);
    if locales.len() > 0 {
        let rest = locales.drop_first();
        assert forall|j: int| 0 <= j < rest.len() implies #[trigger] rest[j] == locales[j + 1] by {
        }
        law_the_first_locale_decides(contents, group, key, rest, i - 1);
        if forall|j: int|
            0 <= j < locales.len() ==> !speaks(contents, group, key, #[trigger] locales[j]) {
            assert(!speaks(contents, group, key, locales[0]));
            assert forall|j: int| 0 <= j < rest.len() implies !speaks(
                contents,
                group,
                key,
                #[trigger] rest[j],
            ) by {
                assert(rest[j] == locales[j + 1]);
            }
        }
    }
}

/// A message catalogue is asked for a text exactly where the entry names one and has the text, but
/// in no locale of the user; it is asked for the untranslated text, and its answer is the text.
/// Elsewhere it has no say.
pub proof fn law_a_catalogue_is_asked_for_what_is_missing(
    entry: EntryView,
    group: Seq<char>,
    key: Seq<char>,
    locales: Seq<Seq<char>>,
    answer: Option<Seq<char>>,
)
    ensures
        ({
            let missing = entry.domain is Some && entry.contents.contains_key((group, key, None))
                && forall|j: int|
                0 <= j < locales.len() ==> !speaks(
                    entry.contents,
                    group,
                    key,
                    #[trigger] locales[j],
                );
            if missing {
                &&& entry.question(group, key, locales) == Some(
                    entry.contents[(group, key, None)],
                )
                &&& answer is Some ==> entry.text(group, key, locales, answer) == answer
                &&& answer is None ==> entry.text(group, key, locales, answer) == Some(
                    entry.contents[(group, key, None)],
                )
            } else {
                &&& entry.question(group, key, locales) is None
                &&& entry.text(group, key, locales, answer) == localized(
                    entry.contents,
                    group,
                    key,
                    locales,
                )
            }
        }),
{
    assert(is_translated(entry.contents, group, key, locales) == exists|j: int|
        0 <= j < locales.len() && speaks(entry.contents, group, key, #[trigger] locales[j]));
}

/// The icon that an entry gives: the one that it names, or else one of the application's name.
pub open spec fn icon_for(entry: EntryView) -> Seq<char> {
    let place = ("Desktop Entry"@, "Icon"@, None::<Seq<char>>);
    if entry.contents.contains_key(place) {
        entry.contents[place]
    } else {
        entry.id
    }
}

/// A window is shown with its own title, handle and condition. From its application's entry it has
/// the name, or the identifier where the entry has no name, the menu, and, where icons are on, the
/// icon. Without an entry it is named by its application, its identifier or its title, whichever
/// it has first, and has neither menu nor icon.
pub proof fn law_a_window_is_shown_with_what_it_has(
    window: WorkspaceWindow,
    shown: DisplayWindow,
    found: Option<FoundEntry>,
    locales: Seq<Seq<char>>,
    show_app_icons: bool,
)
    requires
        shown@ == window.displayed(found_of(found), locales, show_app_icons),
    ensures
        shown.title@ == window.title@,
        shown.handle == window.handle,
        shown.is_active == window.is_active,
        shown.is_maximized == window.is_maximized,
        match found {
            Some(found) => {
                let entry = crate::desktop::entry_view(found.entry);
                let answers = found.answers@;
                let name = entry.text(
                    "Desktop Entry"@,
                    "Name"@,
                    locales,
                    chars_of(found.answers.name),
                );
                &&& name matches Some(name) ==> shown.app_name@ == name
                &&& name is None ==> shown.app_name@ == entry.id
                &&& chars_of(shown.icon) == if show_app_icons {
                    Some(icon_for(entry))
                } else {
                    None
                }
                &&& shown.menu_actions@.len() == entry.menu(locales, answers).len()
                &&& forall|k: int|
                    0 <= k < shown.menu_actions@.len() ==> is_same_action(
                        #[trigger] shown.menu_actions@[k],
                        entry.menu(locales, answers)[k],
                    )
            },
            None => {
                &&& shown.app_name@ == match (window.app_id, window.identifier) {
                    (Some(app_id), _) => app_id@,
                    (None, Some(identifier)) => identifier@,
                    (None, None) => window.title@,
                }
                &&& shown.icon is None
                &&& shown.menu_actions@.len() == 0
            },
        },
{
    let view: DisplayWindowView = shown@;
    assert(view.menu_actions.len() == shown.menu_actions@.len());
    if let Some(found) = found {
        let menu = crate::desktop::entry_view(found.entry).menu(locales, found.answers@);
        assert forall|k: int| 0 <= k < shown.menu_actions@.len() implies is_same_action(
            #[trigger] shown.menu_actions@[k],
            menu[k],
        ) by {
            assert(view.menu_actions[k] == shown.menu_actions@[k]@);
        }
    }
}

/// Whether an action is, part by part, what `view` says.
pub open spec fn is_same_action(action: WindowMenuAction, view: MenuActionView) -> bool {
    &&& chars_of(action.app_id) == view.app_id
    &&& action.command@ == view.command
    &&& action.name@ == view.name
    &&& action.terminal == view.terminal
}

/// The actions that are counted are the actions that are there, part by part.
pub proof fn law_actions_keep_all_their_parts(actions: Seq<WindowMenuAction>)
    ensures
        crate::desktop::actions_of(actions).len() == actions.len(),
        forall|k: int|
            0 <= k < actions.len() ==> is_same_action(
                #[trigger] actions[k],
                crate::desktop::actions_of(actions)[k],
            ),
{
}

/// What a catalogue answers is kept part by part.
pub proof fn law_answers_keep_all_their_parts(answers: crate::desktop::CatalogueAnswers)
    ensures
        answers@.name == chars_of(answers.name),
        answers@.action_names.len() == answers.action_names@.len(),
        forall|k: int|
            0 <= k < answers.action_names@.len() ==> answers@.action_names[k] == chars_of(
                #[trigger] answers.action_names@[k],
            ),
{
}

/// An entry is looked up by the window's application, or by its identifier where it tells no
/// application, together with its title and its identifier. A window that tells neither has no
/// entry.
pub proof fn law_an_entry_is_looked_up_by_what_the_window_tells(window: WorkspaceWindow)
    ensures
        match (window.app_id, window.identifier) {
            (None, None) => window.lookup() is None,
            _ => window.lookup() matches Some(lookup) && lookup.title == window.title
                && lookup.identifier == window.identifier && (window.app_id is Some ==> Some(
                lookup.app_id,
            ) == window.app_id) && (window.app_id is None ==> Some(lookup.app_id)
                == window.identifier),
        },
{
}

/// A catalogue is asked, under its own name, for the application's name and for the name of each
/// action, and for each exactly where the entry has it in no locale of the user.
pub proof fn law_the_questions_are_those_of_the_entry(
    questions: CatalogueQuestions,
    entry: EntryView,
    locales: Seq<Seq<char>>,
)
    requires
        questions.are_of(entry, locales),
    ensures
        entry.domain == Some(questions.domain@),
        chars_of(questions.name) == entry.question("Desktop Entry"@, "Name"@, locales),
        questions.action_names@.len() == entry.offered().len(),
        forall|i: int|
            0 <= i < questions.action_names@.len() ==> chars_of(
                #[trigger] questions.action_names@[i],
            ) == entry.question("Desktop Action "@ + entry.offered()[i], "Name"@, locales),
{
}

} // verus!
