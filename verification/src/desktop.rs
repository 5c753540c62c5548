//! What a window's desktop entry gives it: a name, an icon and the actions of its menu.

use freedesktop_desktop_entry::DesktopEntry;
use vstd::prelude::*;

use crate::text::is_new_window_action_id;
use crate::wayland::WindowHandle;

verus! {

/// A desktop entry, as `freedesktop_desktop_entry` has read it.
#[verifier::external_type_specification]
#[verifier::external_body]
pub struct ExDesktopEntry(DesktopEntry);

/// What an entry holds: its values by group, key and locale. The untranslated value has no
/// locale.
pub uninterp spec fn entry_contents(entry: DesktopEntry) -> Map<
    (Seq<char>, Seq<char>, Option<Seq<char>>),
    Seq<char>,
>;

/// The identifier of the application that an entry describes.
pub uninterp spec fn entry_id(entry: DesktopEntry) -> Seq<char>;

/// The message catalogue that an entry names for its texts.
pub uninterp spec fn entry_domain(entry: DesktopEntry) -> Option<Seq<char>>;

/// The views of strings.
pub open spec fn texts_of(strings: Seq<String>) -> Seq<Seq<char>> {
    strings.map_values(|s: String| s@)
}

/// The untranslated value under a group and key.
pub open spec fn value_at(
    contents: Map<(Seq<char>, Seq<char>, Option<Seq<char>>), Seq<char>>,
    group: Seq<char>,
    key: Seq<char>,
) -> Option<Seq<char>> {
    contents.get((group, key, None))
}

/// The untranslated value under a key of the group that every entry has.
pub open spec fn main_value(
    contents: Map<(Seq<char>, Seq<char>, Option<Seq<char>>), Seq<char>>,
    key: Seq<char>,
) -> Option<Seq<char>> {
    value_at(contents, "Desktop Entry"@, key)
}

/// The group that describes an action.
pub open spec fn action_group(action_id: Seq<char>) -> Seq<char> {
    "Desktop Action "@ + action_id
}

/// What stands in `s` before the first `c`, or all of `s`.
pub open spec fn before(s: Seq<char>, c: char) -> Seq<char>
    decreases s.len(),
{
    if s.contains(c) {
        before(s.drop_last(), c)
    } else {
        s
    }
}

/// The value under a group and key in the first of `locales` that it is translated to, where
/// `xx_YY` stands for `xx` too; where there is none, the untranslated value.
pub open spec fn localized(
    contents: Map<(Seq<char>, Seq<char>, Option<Seq<char>>), Seq<char>>,
    group: Seq<char>,
    key: Seq<char>,
    locales: Seq<Seq<char>>,
) -> Option<Seq<char>>
    decreases locales.len(),
{
    if value_at(contents, group, key) is None || locales.len() == 0 {
        value_at(contents, group, key)
    } else if contents.contains_key((group, key, Some(locales[0]))) {
        Some(contents[(group, key, Some(locales[0]))])
    } else if contents.contains_key((group, key, Some(before(locales[0], '_')))) {
        Some(contents[(group, key, Some(before(locales[0], '_')))])
    } else {
        localized(contents, group, key, locales.drop_first())
    }
}

/// Whether the value under a group and key is translated to one of `locales`, where `xx_YY` stands
/// for `xx` too.
pub open spec fn is_translated(
    contents: Map<(Seq<char>, Seq<char>, Option<Seq<char>>), Seq<char>>,
    group: Seq<char>,
    key: Seq<char>,
    locales: Seq<Seq<char>>,
) -> bool {
    exists|i: int|
        0 <= i < locales.len() && (contents.contains_key(
            (group, key, Some(#[trigger] locales[i])),
        ) || contents.contains_key((group, key, Some(before(locales[i], '_')))))
}

/// The pieces of `text` between the separators, of which some may be empty: one piece more than
/// there are separators.
pub open spec fn pieces(text: Seq<char>, separator: char) -> Seq<Seq<char>>
    decreases text.len(),
{
    if text.len() == 0 {
        seq![Seq::empty()]
    } else {
        let first = pieces(text.drop_last(), separator);
        if text.last() == separator {
            first.push(Seq::empty())
        } else {
            first.drop_last().push(first.last().push(text.last()))
        }
    }
}

/// The identifiers of an entry's actions.
pub open spec fn action_ids(
    contents: Map<(Seq<char>, Seq<char>, Option<Seq<char>>), Seq<char>>,
) -> Option<Seq<Seq<char>>> {
    match main_value(contents, "Actions"@) {
        Some(list) => Some(pieces(list, ';')),
        None => None,
    }
}

/// What a desktop entry holds.
pub struct EntryView {
    pub id: Seq<char>,
    pub contents: Map<(Seq<char>, Seq<char>, Option<Seq<char>>), Seq<char>>,
    pub domain: Option<Seq<char>>,
}

/// What `entry` holds.
pub open spec fn entry_view(entry: DesktopEntry) -> EntryView {
    EntryView {
        id: entry_id(entry),
        contents: entry_contents(entry),
        domain: entry_domain(entry),
    }
}

impl EntryView {
    /// Whether a message catalogue of the machine is asked for a text: the entry names one, and
    /// has the text in none of `locales`.
    pub open spec fn asks_catalogue(
        self,
        group: Seq<char>,
        key: Seq<char>,
        locales: Seq<Seq<char>>,
    ) -> bool {
        &&& self.domain is Some
        &&& value_at(self.contents, group, key) is Some
        &&& !is_translated(self.contents, group, key, locales)
    }

    /// The message that a catalogue is asked to translate for a text, where it is asked.
    pub open spec fn question(
        self,
        group: Seq<char>,
        key: Seq<char>,
        locales: Seq<Seq<char>>,
    ) -> Option<Seq<char>> {
        if self.asks_catalogue(group, key, locales) {
            value_at(self.contents, group, key)
        } else {
            None
        }
    }

    /// A text of the entry: in the first of `locales` that it is translated to, or, where a
    /// message catalogue is asked, what the catalogue answers. Without an answer the untranslated
    /// text stays.
    pub open spec fn text(
        self,
        group: Seq<char>,
        key: Seq<char>,
        locales: Seq<Seq<char>>,
        answer: Option<Seq<char>>,
    ) -> Option<Seq<char>> {
        match self.question(group, key, locales) {
            Some(message) => match answer {
                Some(answer) => Some(answer),
                None => Some(message),
            },
            None => localized(self.contents, group, key, locales),
        }
    }
}

/// Calls `DesktopEntry::id`. Trusted: it gives the application's identifier.
#[verifier::external_body]
fn id(entry: &DesktopEntry) -> (r: String)
    ensures
        r@ == entry_id(*entry),
{
    entry.id().to_owned()
}

/// Calls `DesktopEntry::exec`. Trusted: it gives the untranslated value of `Exec` in the group
/// `Desktop Entry`.
#[verifier::external_body]
fn command(entry: &DesktopEntry) -> (r: Option<String>)
    ensures
        crate::text::text_of(r) == main_value(entry_contents(*entry), "Exec"@),
{
    entry.exec().map(str::to_owned)
}

/// Calls `DesktopEntry::icon`. Trusted: it gives the untranslated value of `Icon` in the group
/// `Desktop Entry`.
#[verifier::external_body]
fn icon(entry: &DesktopEntry) -> (r: Option<String>)
    ensures
        crate::text::text_of(r) == main_value(entry_contents(*entry), "Icon"@),
{
    entry.icon().map(str::to_owned)
}

/// Calls `DesktopEntry::terminal`. Trusted: it says whether `Terminal` in the group
/// `Desktop Entry` is `true`.
#[verifier::external_body]
fn terminal(entry: &DesktopEntry) -> (r: bool)
    ensures
        r == (main_value(entry_contents(*entry), "Terminal"@) == Some("true"@)),
{
    entry.terminal()
}

/// Calls `DesktopEntry::actions`. Trusted: it gives the pieces between the semicolons of
/// `Actions` in the group `Desktop Entry`, in their order, and nothing without that key.
#[verifier::external_body]
fn actions(entry: &DesktopEntry) -> (r: Option<Vec<String>>)
    ensures
        match r {
            Some(ids) => action_ids(entry_contents(*entry)) == Some(texts_of(ids@)),
            None => action_ids(entry_contents(*entry)) is None,
        },
{
    entry.actions().map(|ids| ids.into_iter().map(str::to_owned).collect())
}

/// Reads the field `ubuntu_gettext_domain` of `DesktopEntry`. Trusted: it is the name of the
/// entry's message catalogue.
#[verifier::external_body]
fn gettext_domain(entry: &DesktopEntry) -> (r: Option<String>)
    ensures
        crate::text::text_of(r) == entry_domain(*entry),
{
    entry.ubuntu_gettext_domain.clone()
}

/// Calls `Group::entry` on a group of the entry. Trusted: it gives the untranslated value of a key.
#[verifier::external_body]
fn group_entry(entry: &DesktopEntry, group: &str, key: &str) -> (r: Option<String>)
    ensures
        crate::text::text_of(r) == value_at(entry_contents(*entry), group@, key@),
{
    entry.groups.group(group).and_then(|group| group.entry(key)).map(str::to_owned)
}

/// Looks a locale up in the translations that `Group` has of a key. Trusted: it says whether the
/// entry has the key's value in that very locale.
#[verifier::external_body]
fn has_locale(entry: &DesktopEntry, group: &str, key: &str, locale: &str) -> (r: bool)
    ensures
        r == entry_contents(*entry).contains_key((group@, key@, Some(locale@))),
{
    entry.groups.group(group).and_then(|group| group.0.get(key)).is_some_and(
        |value| value.1.contains_key(locale),
    )
}

/// Calls `DesktopEntry::name`. Trusted: it gives the value of `Name` in the group
/// `Desktop Entry`, in the first of the locales that it is translated to. Where a message
/// catalogue would be asked it is not called: what it does then rests on the machine.
#[verifier::external_body]
fn name(entry: &DesktopEntry, locales: &Vec<String>) -> (r: Option<String>)
    requires
        !entry_view(*entry).asks_catalogue("Desktop Entry"@, "Name"@, texts_of(locales@)),
    ensures
        crate::text::text_of(r) == localized(
            entry_contents(*entry),
            "Desktop Entry"@,
            "Name"@,
            texts_of(locales@),
        ),
{
    entry.name(locales.as_slice()).map(std::borrow::Cow::into_owned)
}

/// Calls `DesktopEntry::action_entry`. Trusted: it gives the untranslated value of a key in an
/// action's group.
#[verifier::external_body]
fn action_entry(entry: &DesktopEntry, action_id: &str, key: &str) -> (r: Option<String>)
    ensures
        crate::text::text_of(r) == value_at(
            entry_contents(*entry),
            action_group(action_id@),
            key@,
        ),
{
    entry.action_entry(action_id, key).map(str::to_owned)
}

/// Calls `DesktopEntry::action_entry_localized`. Trusted: it gives the value of a key in an
/// action's group, in the first of the locales that it is translated to. Where a message
/// catalogue would be asked it is not called: what it does then rests on the machine.
#[verifier::external_body]
fn action_entry_localized(
    entry: &DesktopEntry,
    action_id: &str,
    key: &str,
    locales: &Vec<String>,
) -> (r: Option<String>)
    requires
        !entry_view(*entry).asks_catalogue(action_group(action_id@), key@, texts_of(locales@)),
    ensures
        crate::text::text_of(r) == localized(
            entry_contents(*entry),
            action_group(action_id@),
            key@,
            texts_of(locales@),
        ),
{
    entry.action_entry_localized(action_id, key, locales.as_slice()).map(
        std::borrow::Cow::into_owned,
    )
}

proof fn before_first(s: Seq<char>, c: char, i: int)
    requires
        0 <= i <= s.len(),
        forall|j: int| 0 <= j < i ==> s[j] != c,
        i < s.len() ==> s[i] == c,
    ensures
        before(s, c) == s.take(i),
    decreases s.len(),
{
    if i < s.len() {
        assert(s.contains(c));
        before_first(s.drop_last(), c, i);
        assert(s.drop_last().take(i) =~= s.take(i));
    } else {
        assert(s.take(i) =~= s);
    }
}

/// The language of a locale: what stands in it before the first underscore.
fn language(locale: &str) -> (r: String)
    ensures
        r@ == before(locale@, '_'),
{
    let count: usize = locale.unicode_len();
    let mut end: usize = 0;
    for c in it: locale.chars()
        invariant
            it.seq() == locale@,
            count == locale@.len(),
            end == it.index(),
            forall|j: int| 0 <= j < end ==> locale@[j] != '_',
    {
        if c == '_' {
            proof {
                before_first(locale@, '_', end as int);
                assert(locale@.subrange(0, end as int) =~= locale@.take(end as int));
            }
            return locale.substring_char(0, end).to_owned();
        }
        end = end + 1;
    }
    proof {
        before_first(locale@, '_', count as int);
        assert(locale@.take(count as int) =~= locale@);
    }
    locale.to_owned()
}

/// Whether the entry has a value in one of the locales.
fn has_translation(entry: &DesktopEntry, group: &str, key: &str, locales: &Vec<String>) -> (r: bool)
    ensures
        r == is_translated(entry_contents(*entry), group@, key@, texts_of(locales@)),
{
    let ghost contents = entry_contents(*entry);
    let mut i: usize = 0;
    while i < locales.len()
        invariant
            i <= locales@.len(),
            contents == entry_contents(*entry),
            forall|j: int|
                0 <= j < i ==> !contents.contains_key(
                    (group@, key@, Some(#[trigger] texts_of(locales@)[j])),
                ) && !contents.contains_key(
                    (group@, key@, Some(before(texts_of(locales@)[j], '_'))),
                ),
        decreases locales@.len() - i,
    {
        assert(texts_of(locales@)[i as int] == locales@[i as int]@);
        if has_locale(entry, group, key, locales[i].as_str()) || has_locale(
            entry,
            group,
            key,
            language(locales[i].as_str()).as_str(),
        ) {
            return true;
        }
        i = i + 1;
    }
    false
}

/// The message that a catalogue is asked to translate for a text of the entry, where it is asked.
fn question(entry: &DesktopEntry, group: &str, key: &str, locales: &Vec<String>) -> (r: Option<
    String,
>)
    ensures
        crate::text::text_of(r) == entry_view(*entry).question(group@, key@, texts_of(locales@)),
{
    if gettext_domain(entry).is_none() || has_translation(entry, group, key, locales) {
        None
    } else {
        group_entry(entry, group, key)
    }
}

/// The group that describes an action.
fn group_of_action(action_id: &str) -> (r: String)
    ensures
        r@ == action_group(action_id@),
{
    let mut group = "Desktop Action ".to_owned();
    group.append(action_id);
    group
}

/// The application's name, with what the catalogue answers.
fn entry_name(entry: &DesktopEntry, locales: &Vec<String>, answer: &Option<String>) -> (r: Option<
    String,
>)
    ensures
        crate::text::text_of(r) == entry_view(*entry).text(
            "Desktop Entry"@,
            "Name"@,
            texts_of(locales@),
            crate::text::text_of(*answer),
        ),
{
    match question(entry, "Desktop Entry", "Name", locales) {
        Some(message) => match answer {
            Some(answer) => Some(answer.clone()),
            None => Some(message),
        },
        None => name(entry, locales),
    }
}

/// The name of an action, with what the catalogue answers.
fn action_name(
    entry: &DesktopEntry,
    action_id: &str,
    locales: &Vec<String>,
    answer: &Option<String>,
) -> (r: Option<String>)
    ensures
        crate::text::text_of(r) == entry_view(*entry).text(
            action_group(action_id@),
            "Name"@,
            texts_of(locales@),
            crate::text::text_of(*answer),
        ),
{
    match question(entry, group_of_action(action_id).as_str(), "Name", locales) {
        Some(message) => match answer {
            Some(answer) => Some(answer.clone()),
            None => Some(message),
        },
        None => action_entry_localized(entry, action_id, "Name", locales),
    }
}

/// What a message catalogue of the machine is asked to translate: the application's name, and the
/// names of the actions in their order, where the entry has no translation of its own.
#[derive(Debug)]
pub struct CatalogueQuestions {
    pub domain: String,
    pub name: Option<String>,
    pub action_names: Vec<Option<String>>,
}

impl CatalogueQuestions {
    /// Whether these are the questions of `entry` for `locales`.
    pub open spec fn are_of(self, entry: EntryView, locales: Seq<Seq<char>>) -> bool {
        &&& entry.domain == Some(self.domain@)
        &&& crate::text::text_of(self.name) == entry.question("Desktop Entry"@, "Name"@, locales)
        &&& self.action_names@.len() == entry.offered().len()
        &&& forall|i: int|
            0 <= i < entry.offered().len() ==> crate::text::text_of(
                #[trigger] self.action_names@[i],
            ) == entry.question(action_group(entry.offered()[i]), "Name"@, locales)
    }
}

/// What a message catalogue answers: to the application's name, and to the names of the actions in
/// their order.
#[derive(Debug)]
pub struct CatalogueAnswers {
    pub name: Option<String>,
    pub action_names: Vec<Option<String>>,
}

/// The contents of [`CatalogueAnswers`].
pub struct CatalogueAnswersView {
    pub name: Option<Seq<char>>,
    pub action_names: Seq<Option<Seq<char>>>,
}

impl View for CatalogueAnswers {
    type V = CatalogueAnswersView;

    open spec fn view(&self) -> CatalogueAnswersView {
        CatalogueAnswersView {
            name: crate::text::text_of(self.name),
            action_names: self.action_names@.map_values(
                |name: Option<String>| crate::text::text_of(name),
            ),
        }
    }
}

impl CatalogueAnswersView {
    /// The answer to the name of the action at place `i`. One that is missing is none.
    pub open spec fn action_name(self, i: int) -> Option<Seq<char>> {
        if 0 <= i < self.action_names.len() {
            self.action_names[i]
        } else {
            None
        }
    }
}

/// A command of an application that a window's menu offers.
#[derive(Debug)]
pub struct WindowMenuAction {
    pub app_id: Option<String>,
    pub command: String,
    pub name: String,
    pub terminal: bool,
}

/// The contents of a [`WindowMenuAction`].
pub struct MenuActionView {
    pub app_id: Option<Seq<char>>,
    pub command: Seq<char>,
    pub name: Seq<char>,
    pub terminal: bool,
}

impl View for WindowMenuAction {
    type V = MenuActionView;

    open spec fn view(&self) -> MenuActionView {
        MenuActionView {
            app_id: crate::text::text_of(self.app_id),
            command: self.command@,
            name: self.name@,
            terminal: self.terminal,
        }
    }
}

impl Clone for WindowMenuAction {
    fn clone(&self) -> (r: Self)
        ensures
            r == *self,
    {
        WindowMenuAction {
            app_id: self.app_id.clone(),
            command: self.command.clone(),
            name: self.name.clone(),
            terminal: self.terminal,
        }
    }
}

/// The contents of menu actions.
pub open spec fn actions_of(actions: Seq<WindowMenuAction>) -> Seq<MenuActionView> {
    actions.map_values(|action: WindowMenuAction| action@)
}

impl EntryView {
    /// The value under a key of the group that every entry has.
    pub open spec fn own_value(self, key: Seq<char>) -> Option<Seq<char>> {
        main_value(self.contents, key)
    }

    /// Whether the application runs in a terminal.
    pub open spec fn in_terminal(self) -> bool {
        self.own_value("Terminal"@) == Some("true"@)
    }

    /// The identifiers of the actions that are offered.
    pub open spec fn offered(self) -> Seq<Seq<char>> {
        match action_ids(self.contents) {
            Some(ids) => ids,
            None => Seq::empty(),
        }
    }

    /// The name of the action at place `i`.
    pub open spec fn action_name(
        self,
        locales: Seq<Seq<char>>,
        answers: CatalogueAnswersView,
        i: int,
    ) -> Option<Seq<char>> {
        self.text(action_group(self.offered()[i]), "Name"@, locales, answers.action_name(i))
    }

    /// The menu action of an identifier, by its name. One without a name or a command is left
    /// out.
    pub open spec fn action(self, action_id: Seq<char>, name: Option<Seq<char>>) -> Option<
        MenuActionView,
    > {
        let command = value_at(self.contents, action_group(action_id), "Exec"@);
        match (name, command) {
            (Some(name), Some(command)) => Some(
                MenuActionView {
                    app_id: Some(self.id),
                    command,
                    name,
                    terminal: self.in_terminal(),
                },
            ),
            _ => None,
        }
    }

    /// The menu actions of the first `count` identifiers, in their order.
    pub open spec fn listed(
        self,
        locales: Seq<Seq<char>>,
        answers: CatalogueAnswersView,
        count: int,
    ) -> Seq<MenuActionView>
        decreases count,
    {
        if count <= 0 {
            Seq::empty()
        } else {
            let first = self.listed(locales, answers, count - 1);
            let name = self.action_name(locales, answers, count - 1);
            match self.action(self.offered()[count - 1], name) {
                Some(action) => first.push(action),
                None => first,
            }
        }
    }

    /// Whether one of the actions opens a new window.
    pub open spec fn has_new_window(self) -> bool {
        exists|i: int|
            0 <= i < self.offered().len() && crate::text::opens_new_window(
                #[trigger] self.offered()[i],
            )
    }

    /// The action that runs the application itself, which is offered where the entry has a
    /// command and none of its actions opens a new window.
    pub open spec fn own_action(self) -> Seq<MenuActionView> {
        match self.own_value("Exec"@) {
            Some(command) if !self.has_new_window() => seq![
                MenuActionView {
                    app_id: Some(self.id),
                    command,
                    name: "New Window"@,
                    terminal: self.in_terminal(),
                },
            ],
            _ => Seq::empty(),
        }
    }

    /// The actions of the window's menu.
    pub open spec fn menu(self, locales: Seq<Seq<char>>, answers: CatalogueAnswersView) -> Seq<
        MenuActionView,
    > {
        self.own_action() + self.listed(locales, answers, self.offered().len() as int)
    }

    /// The application's name, or its identifier where it has none.
    pub open spec fn app_name(
        self,
        locales: Seq<Seq<char>>,
        answers: CatalogueAnswersView,
    ) -> Seq<char> {
        match self.text("Desktop Entry"@, "Name"@, locales, answers.name) {
            Some(name) => name,
            None => self.id,
        }
    }

    /// The name or path of the application's icon, or its identifier where it has none.
    pub open spec fn icon(self) -> Seq<char> {
        match self.own_value("Icon"@) {
            Some(icon) => icon,
            None => self.id,
        }
    }
}

/// The identifiers of the actions that an entry offers.
fn offered_ids(entry: &DesktopEntry) -> (r: Vec<String>)
    ensures
        texts_of(r@) == entry_view(*entry).offered(),
{
    match actions(entry) {
        Some(ids) => ids,
        None => {
            let none: Vec<String> = Vec::new();
            assert(texts_of(none@) =~= Seq::empty());
            none
        },
    }
}

/// What a message catalogue is to be asked for an entry. One that names no catalogue asks nothing.
pub fn catalogue_questions(entry: &DesktopEntry, locales: &Vec<String>) -> (r: Option<
    CatalogueQuestions,
>)
    ensures
        match r {
            Some(questions) => questions.are_of(entry_view(*entry), texts_of(locales@)),
            None => entry_domain(*entry) is None,
        },
{
    let domain = match gettext_domain(entry) {
        Some(domain) => domain,
        None => {
            return None;
        },
    };
    let ghost view = entry_view(*entry);
    let ids = offered_ids(entry);
    let mut action_names: Vec<Option<String>> = Vec::new();
    let mut i: usize = 0;
    while i < ids.len()
        invariant
            i <= ids@.len(),
            view == entry_view(*entry),
            texts_of(ids@) == view.offered(),
            action_names@.len() == i,
            forall|j: int|
                0 <= j < i ==> crate::text::text_of(#[trigger] action_names@[j]) == view.question(
                    action_group(view.offered()[j]),
                    "Name"@,
                    texts_of(locales@),
                ),
        decreases ids@.len() - i,
    {
        assert(view.offered()[i as int] == ids@[i as int]@);
        let group = group_of_action(ids[i].as_str());
        action_names.push(question(entry, group.as_str(), "Name", locales));
        i = i + 1;
    }
    let name = question(entry, "Desktop Entry", "Name", locales);
    Some(CatalogueQuestions { domain, name, action_names })
}

/// The menu action of an identifier of the entry, where it has a name and a command.
fn menu_action(entry: &DesktopEntry, action_id: &str, name: Option<String>) -> (r: Option<
    WindowMenuAction,
>)
    ensures
        entry_view(*entry).action(action_id@, crate::text::text_of(name)) == (match r {
            Some(action) => Some(action@),
            None => None,
        }),
{
    match name {
        Some(name) => match action_entry(entry, action_id, "Exec") {
            Some(command) => Some(
                WindowMenuAction {
                    app_id: Some(id(entry)),
                    command,
                    name,
                    terminal: terminal(entry),
                },
            ),
            None => None,
        },
        None => None,
    }
}

/// The actions that a window's menu offers, by its application's entry and what the entry's message
/// catalogue answers: the entry's actions, and before them one that opens a new window, unless they
/// have one already.
pub fn menu_actions(entry: &DesktopEntry, locales: &Vec<String>, answers: &CatalogueAnswers) -> (r:
    Vec<WindowMenuAction>)
    ensures
        actions_of(r@) == entry_view(*entry).menu(texts_of(locales@), answers@),
{
    let ghost view = entry_view(*entry);
    let ids = offered_ids(entry);
    let mut has_new_window = false;
    let mut i: usize = 0;
    while i < ids.len()
        invariant
            i <= ids@.len(),
            texts_of(ids@) == view.offered(),
            has_new_window == exists|j: int|
                0 <= j < i && crate::text::opens_new_window(#[trigger] view.offered()[j]),
        decreases ids@.len() - i,
    {
        assert(view.offered()[i as int] == ids@[i as int]@);
        if is_new_window_action_id(ids[i].as_str()) {
            has_new_window = true;
        }
        i = i + 1;
    }
    let mut menu: Vec<WindowMenuAction> = Vec::new();
    if !has_new_window {
        if let Some(command) = command(entry) {
            menu.push(
                WindowMenuAction {
                    app_id: Some(id(entry)),
                    command,
                    name: "New Window".to_owned(),
                    terminal: terminal(entry),
                },
            );
        }
    }
    assert(actions_of(menu@) =~= view.own_action());
    let mut k: usize = 0;
    while k < ids.len()
        invariant
            k <= ids@.len(),
            view == entry_view(*entry),
            texts_of(ids@) == view.offered(),
            actions_of(menu@) == view.own_action() + view.listed(
                texts_of(locales@),
                answers@,
                k as int,
            ),
        decreases ids@.len() - k,
    {
        assert(view.offered()[k as int] == ids@[k as int]@);
        let ghost shown = actions_of(menu@);
        let name = if k < answers.action_names.len() {
            action_name(entry, ids[k].as_str(), locales, &answers.action_names[k])
        } else {
            action_name(entry, ids[k].as_str(), locales, &None)
        };
        if let Some(action) = menu_action(entry, ids[k].as_str(), name) {
            menu.push(action);
            assert(actions_of(menu@) =~= shown.push(action@));
        }
        assert(actions_of(menu@) =~= view.own_action() + view.listed(
            texts_of(locales@),
            answers@,
            k + 1,
        ));
        k = k + 1;
    }
    menu
}

/// A window of the workspace.
#[derive(Debug)]
pub struct WorkspaceWindow {
    pub app_id: Option<String>,
    pub identifier: Option<String>,
    pub title: String,
    pub handle: WindowHandle,
    pub is_active: bool,
    pub is_maximized: bool,
}

impl Clone for WorkspaceWindow {
    fn clone(&self) -> (r: Self)
        ensures
            r == *self,
    {
        WorkspaceWindow {
            app_id: self.app_id.clone(),
            identifier: self.identifier.clone(),
            title: self.title.clone(),
            handle: self.handle,
            is_active: self.is_active,
            is_maximized: self.is_maximized,
        }
    }
}

/// A window as the panel shows it.
#[derive(Debug, Clone)]
pub struct DisplayWindow {
    pub app_name: String,
    pub menu_actions: Vec<WindowMenuAction>,
    pub handle: WindowHandle,
    pub title: String,
    pub icon: Option<String>,
    pub is_active: bool,
    pub is_maximized: bool,
}

/// The contents of a [`DisplayWindow`].
pub struct DisplayWindowView {
    pub app_name: Seq<char>,
    pub menu_actions: Seq<MenuActionView>,
    pub handle: WindowHandle,
    pub title: Seq<char>,
    pub icon: Option<Seq<char>>,
    pub is_active: bool,
    pub is_maximized: bool,
}

impl View for DisplayWindow {
    type V = DisplayWindowView;

    open spec fn view(&self) -> DisplayWindowView {
        DisplayWindowView {
            app_name: self.app_name@,
            menu_actions: actions_of(self.menu_actions@),
            handle: self.handle,
            title: self.title@,
            icon: crate::text::text_of(self.icon),
            is_active: self.is_active,
            is_maximized: self.is_maximized,
        }
    }
}

impl WorkspaceWindow {
    /// The identifier by which the window's application is looked up.
    pub open spec fn lookup_id(self) -> Option<String> {
        match self.app_id {
            Some(app_id) => Some(app_id),
            None => self.identifier,
        }
    }

    /// By what the desktop entry of the window's application is looked up. A window that has
    /// neither an application nor an identifier has no entry.
    pub open spec fn lookup(self) -> Option<DesktopLookup> {
        match self.lookup_id() {
            Some(app_id) => Some(
                DesktopLookup { app_id, title: self.title, identifier: self.identifier },
            ),
            None => None,
        }
    }

    /// The window as the panel shows it, by its application's entry where one was found.
    pub open spec fn displayed(
        self,
        found: Option<FoundEntryView>,
        locales: Seq<Seq<char>>,
        show_app_icons: bool,
    ) -> DisplayWindowView {
        DisplayWindowView {
            app_name: match found {
                Some(found) => found.entry.app_name(locales, found.answers),
                None => match self.lookup_id() {
                    Some(id) => id@,
                    None => self.title@,
                },
            },
            menu_actions: match found {
                Some(found) => found.entry.menu(locales, found.answers),
                None => Seq::empty(),
            },
            handle: self.handle,
            title: self.title@,
            icon: match found {
                Some(found) if show_app_icons => Some(found.entry.icon()),
                _ => None,
            },
            is_active: self.is_active,
            is_maximized: self.is_maximized,
        }
    }
}

/// By what the desktop entry of a window's application is looked up.
#[derive(Debug)]
pub struct DesktopLookup {
    pub app_id: String,
    pub title: String,
    pub identifier: Option<String>,
}

/// By what the desktop entry of a window's application is looked up.
pub fn desktop_lookup(window: &WorkspaceWindow) -> (r: Option<DesktopLookup>)
    ensures
        r == window.lookup(),
{
    let app_id = match &window.app_id {
        Some(app_id) => app_id.clone(),
        None => match &window.identifier {
            Some(identifier) => identifier.clone(),
            None => {
                return None;
            },
        },
    };
    Some(
        DesktopLookup {
            app_id,
            title: window.title.clone(),
            identifier: window.identifier.clone(),
        },
    )
}

/// A desktop entry that was found for a window, with what its message catalogue answers.
pub struct FoundEntry {
    pub entry: DesktopEntry,
    pub answers: CatalogueAnswers,
}

/// The contents of a [`FoundEntry`].
pub struct FoundEntryView {
    pub entry: EntryView,
    pub answers: CatalogueAnswersView,
}

impl View for FoundEntry {
    type V = FoundEntryView;

    open spec fn view(&self) -> FoundEntryView {
        FoundEntryView { entry: entry_view(self.entry), answers: self.answers@ }
    }
}

/// The view of an optional [`FoundEntry`].
pub open spec fn found_of(found: Option<FoundEntry>) -> Option<FoundEntryView> {
    match found {
        Some(found) => Some(found@),
        None => None,
    }
}

/// A window as the panel shows it, by the desktop entry that was found for it.
pub fn resolve_window(
    window: &WorkspaceWindow,
    found: &Option<FoundEntry>,
    locales: &Vec<String>,
    show_app_icons: bool,
) -> (r: DisplayWindow)
    ensures
        r@ == window.displayed(found_of(*found), texts_of(locales@), show_app_icons),
{
    let mut app_name = match &window.app_id {
        Some(app_id) => app_id.clone(),
        None => match &window.identifier {
            Some(identifier) => identifier.clone(),
            None => window.title.clone(),
        },
    };
    let mut menu: Vec<WindowMenuAction> = Vec::new();
    let mut window_icon: Option<String> = None;
    if let Some(found) = found {
        app_name = match entry_name(&found.entry, locales, &found.answers.name) {
            Some(name) => name,
            None => id(&found.entry),
        };
        if show_app_icons {
            window_icon = Some(
                match icon(&found.entry) {
                    Some(icon) => icon,
                    None => id(&found.entry),
                },
            );
        }
        menu = menu_actions(&found.entry, locales, &found.answers);
    }
    assert(found is None ==> actions_of(menu@) =~= Seq::empty());
    DisplayWindow {
        app_name,
        menu_actions: menu,
        handle: window.handle,
        title: window.title.clone(),
        icon: window_icon,
        is_active: window.is_active,
        is_maximized: window.is_maximized,
    }
}

} // verus!
