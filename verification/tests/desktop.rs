use cosmic_applet_app_title::desktop::{
    catalogue_questions, desktop_lookup, menu_actions, resolve_window, CatalogueAnswers,
    DisplayWindow, FoundEntry, WindowMenuAction, WorkspaceWindow,
};
use cosmic_applet_app_title::wayland::WindowHandle;
use freedesktop_desktop_entry::DesktopEntry;

fn entry(text: &str) -> DesktopEntry {
    DesktopEntry::from_str("/usr/share/applications/org.app.desktop", text, None::<&[&str]>)
        .unwrap()
}

fn locales(names: &[&str]) -> Vec<String> {
    names.iter().map(|name| name.to_string()).collect()
}

fn no_answers() -> CatalogueAnswers {
    CatalogueAnswers { name: None, action_names: vec![] }
}

fn menu_of(text: &str, names: &[&str]) -> Vec<WindowMenuAction> {
    menu_actions(&entry(text), &locales(names), &no_answers())
}

fn shown(
    window: &WorkspaceWindow,
    text: Option<&str>,
    answers: CatalogueAnswers,
    names: &[&str],
    icons: bool,
) -> DisplayWindow {
    let found = text.map(|text| FoundEntry { entry: entry(text), answers });
    resolve_window(window, &found, &locales(names), icons)
}

fn listed(actions: &[WindowMenuAction]) -> Vec<(String, String)> {
    actions.iter().map(|action| (action.name.clone(), action.command.clone())).collect()
}

fn pair(name: &str, command: &str) -> (String, String) {
    (name.to_string(), command.to_string())
}

fn workspace_window(app_id: Option<&str>, identifier: Option<&str>) -> WorkspaceWindow {
    WorkspaceWindow {
        app_id: app_id.map(str::to_string),
        identifier: identifier.map(str::to_string),
        title: "Title".to_string(),
        handle: WindowHandle(9),
        is_active: true,
        is_maximized: false,
    }
}

const BROWSER: &str = "[Desktop Entry]
Name=Browser
Name[de]=Leser
Name[pt_BR]=Navegador
Icon=browser-icon
Exec=browser %u
Terminal=true
Actions=private;nameless;silent;

[Desktop Action private]
Name=Private Window
Name[de]=Privates Fenster
Exec=browser --private

[Desktop Action nameless]
Exec=browser --nameless

[Desktop Action silent]
Name=Silent
";

#[test]
fn a_menu_offers_a_new_window_first() {
    let actions = menu_of(BROWSER, &[]);
    assert_eq!(
        listed(&actions),
        vec![pair("New Window", "browser %u"), pair("Private Window", "browser --private")]
    );
    for action in &actions {
        assert_eq!(action.app_id.as_deref(), Some("org.app"));
        assert!(action.terminal);
    }
}

#[test]
fn a_menu_does_not_offer_a_new_window_twice() {
    let text = "[Desktop Entry]
Name=App
Exec=app
Actions=quit;New-Window

[Desktop Action New-Window]
Name=Fresh
Exec=app --fresh

[Desktop Action quit]
Name=Quit
Exec=app --quit
";
    let actions = menu_of(text, &[]);
    assert_eq!(listed(&actions), vec![pair("Quit", "app --quit"), pair("Fresh", "app --fresh")]);
    assert!(!actions[0].terminal);
}

#[test]
fn a_new_window_action_without_a_command_still_counts() {
    let text = "[Desktop Entry]
Name=App
Exec=app
Actions=new-window
";
    assert_eq!(menu_of(text, &[]).len(), 0);
}

#[test]
fn without_a_command_no_new_window_is_offered() {
    assert_eq!(menu_of("[Desktop Entry]\nName=App\n", &[]).len(), 0);
}

#[test]
fn without_actions_only_a_new_window_is_offered() {
    let actions = menu_of("[Desktop Entry]\nName=App\nExec=app\n", &["de"]);
    assert_eq!(listed(&actions), vec![pair("New Window", "app")]);
}

#[test]
fn names_follow_the_locales() {
    let window = workspace_window(Some("org.app"), None);
    let name = |names: &[&str]| shown(&window, Some(BROWSER), no_answers(), names, true).app_name;
    assert_eq!(name(&[]), "Browser");
    assert_eq!(name(&["fr"]), "Browser");
    assert_eq!(name(&["de"]), "Leser");
    assert_eq!(name(&["de_AT"]), "Leser");
    assert_eq!(name(&["fr", "de_AT", "pt_BR"]), "Leser");
    assert_eq!(name(&["pt_BR", "de"]), "Navegador");
    assert_eq!(name(&["pt"]), "Browser");
    assert_eq!(name(&["_de", "d_e"]), "Browser");
}

#[test]
fn action_names_follow_the_locales() {
    let actions = menu_of(BROWSER, &["de_DE"]);
    assert_eq!(actions[1].name, "Privates Fenster");
}

#[test]
fn a_window_has_what_its_entry_gives_it() {
    let shown = shown(
        &workspace_window(Some("org.app"), Some("id")),
        Some(BROWSER),
        no_answers(),
        &[],
        true,
    );
    assert_eq!(shown.app_name, "Browser");
    assert_eq!(shown.icon.as_deref(), Some("browser-icon"));
    assert_eq!(shown.menu_actions.len(), 2);
    assert_eq!(shown.title, "Title");
    assert_eq!(shown.handle, WindowHandle(9));
    assert!(shown.is_active);
    assert!(!shown.is_maximized);
}

#[test]
fn icons_can_be_off() {
    let window = workspace_window(Some("org.app"), None);
    let shown = shown(&window, Some(BROWSER), no_answers(), &[], false);
    assert_eq!(shown.icon, None);
}

#[test]
fn a_bare_entry_gives_its_identifier() {
    let text = "[Desktop Entry]\nType=Application\n";
    let shown =
        shown(&workspace_window(Some("x"), None), Some(text), no_answers(), &["de"], true);
    assert_eq!(shown.app_name, "org.app");
    assert_eq!(shown.icon.as_deref(), Some("org.app"));
    assert_eq!(shown.menu_actions.len(), 0);
}

#[test]
fn a_window_without_an_entry_is_named_by_itself() {
    let name = |window: &WorkspaceWindow| {
        let shown = shown(window, None, no_answers(), &[], true);
        assert_eq!(shown.icon, None);
        assert_eq!(shown.menu_actions.len(), 0);
        shown.app_name
    };
    assert_eq!(name(&workspace_window(Some("app"), Some("id"))), "app");
    assert_eq!(name(&workspace_window(None, Some("id"))), "id");
    assert_eq!(name(&workspace_window(None, None)), "Title");
}

#[test]
fn a_lookup_goes_by_application_and_identifier() {
    let lookup = desktop_lookup(&workspace_window(Some("app"), Some("id"))).unwrap();
    assert_eq!(lookup.app_id, "app");
    assert_eq!(lookup.title, "Title");
    assert_eq!(lookup.identifier.as_deref(), Some("id"));
    let lookup = desktop_lookup(&workspace_window(None, Some("id"))).unwrap();
    assert_eq!(lookup.app_id, "id");
    let lookup = desktop_lookup(&workspace_window(Some("app"), None)).unwrap();
    assert_eq!(lookup.identifier, None);
    assert!(desktop_lookup(&workspace_window(None, None)).is_none());
}

const CATALOGUED: &str = "[Desktop Entry]
Name=Console
Name[de]=Konsole
Exec=console
X-Ubuntu-Gettext-Domain=no-such-message-catalogue
Actions=tab;

[Desktop Action tab]
Name=New Tab
Name[de]=Neuer Reiter
Exec=console --tab
";

#[test]
fn a_catalogue_is_asked_for_what_is_not_translated() {
    let questions = catalogue_questions(&entry(CATALOGUED), &locales(&["fr", "d_e"])).unwrap();
    assert_eq!(questions.domain, "no-such-message-catalogue");
    assert_eq!(questions.name.as_deref(), Some("Console"));
    assert_eq!(questions.action_names, vec![Some("New Tab".to_string()), None]);
    let questions = catalogue_questions(&entry(CATALOGUED), &locales(&[])).unwrap();
    assert_eq!(questions.name.as_deref(), Some("Console"));
}

#[test]
fn a_catalogue_is_not_asked_for_what_is_translated() {
    for names in [&["de"][..], &["fr", "de_AT"][..]] {
        let questions = catalogue_questions(&entry(CATALOGUED), &locales(names)).unwrap();
        assert_eq!(questions.name, None);
        assert_eq!(questions.action_names, vec![None, None]);
    }
    assert!(catalogue_questions(&entry(BROWSER), &locales(&[])).is_none());
}

fn answers() -> CatalogueAnswers {
    CatalogueAnswers {
        name: Some("Pupitre".to_string()),
        action_names: vec![Some("Onglet".to_string()), Some("Rien".to_string())],
    }
}

#[test]
fn what_a_catalogue_answers_is_shown() {
    let window = workspace_window(Some("org.app"), None);
    let asked = shown(&window, Some(CATALOGUED), answers(), &["fr"], true);
    assert_eq!(asked.app_name, "Pupitre");
    assert_eq!(
        listed(&asked.menu_actions),
        vec![pair("New Window", "console"), pair("Onglet", "console --tab")]
    );
}

#[test]
fn a_translation_comes_before_the_catalogue() {
    let window = workspace_window(Some("org.app"), None);
    let translated = shown(&window, Some(CATALOGUED), answers(), &["fr", "de_AT"], true);
    assert_eq!(translated.app_name, "Konsole");
    assert_eq!(translated.menu_actions[1].name, "Neuer Reiter");
    let own = shown(&window, Some(BROWSER), answers(), &["fr"], true);
    assert_eq!(own.app_name, "Browser");
    assert_eq!(own.menu_actions[1].name, "Private Window");
}

#[test]
fn without_an_answer_the_texts_stay() {
    let window = workspace_window(Some("org.app"), None);
    let silent = shown(&window, Some(CATALOGUED), no_answers(), &["fr"], true);
    assert_eq!(silent.app_name, "Console");
    assert_eq!(silent.menu_actions[1].name, "New Tab");
}

#[test]
fn a_text_with_a_null_character_is_no_obstacle() {
    let text = CATALOGUED.replace("Console", "Con\0sole").replace("no-such", "no\0such");
    let questions = catalogue_questions(&entry(&text), &locales(&[])).unwrap();
    assert_eq!(questions.name.as_deref(), Some("Con\0sole"));
    let window = workspace_window(Some("org.app"), None);
    assert_eq!(shown(&window, Some(&text), no_answers(), &[], true).app_name, "Con\0sole");
}
