use bookshelf::settings::{UserSettings, UserSettingsAPI};

#[test]
fn default_settings() {
    let s = UserSettings::default();
    assert_eq!(s.lang, "en");
    assert_eq!(s.theme, "");
    assert!(!s.menu_expanded);
    assert!(s.book_history.is_empty());
}

#[test]
fn history_is_sorted_and_holds_each_path_once() {
    let mut s = UserSettings::default();
    s.add_history("/home/elrond/books/magic.db");
    s.add_history("/abc/xyz/mybooks.db");
    s.add_history("/home/elrond/books/magic.db");
    s.add_history("");
    assert_eq!(
        s.book_history,
        vec![
            "/abc/xyz/mybooks.db".to_string(),
            "/home/elrond/books/magic.db".to_string()
        ]
    );
    s.remove_history("/abc/xyz/mybooks.db");
    assert_eq!(s.book_history, vec!["/home/elrond/books/magic.db".to_string()]);
    s.remove_history("/nowhere.db");
    assert_eq!(s.book_history, vec!["/home/elrond/books/magic.db".to_string()]);
}

#[test]
fn duplicate_is_a_copy() {
    let mut s = UserSettings::default();
    s.lang = "Sindarin".to_string();
    s.add_history("/home/bilbo/journey.db");
    let copy = s.duplicate();
    assert_eq!(copy.lang, "Sindarin");
    assert_eq!(copy.theme, s.theme);
    assert_eq!(copy.menu_expanded, s.menu_expanded);
    assert_eq!(copy.book_history, s.book_history);
}

#[test]
fn shared_settings() {
    let api = UserSettingsAPI::new(UserSettings::default());
    assert_eq!(api.get_current_lang(), "en");
    api.set_current_lang("Quenya");
    assert_eq!(api.get_current_lang(), "Quenya");
    api.set_theme("dark");
    assert_eq!(api.get_theme(), "dark");
    assert!(!api.get_menu_expanded());
    api.set_menu_expanded(true);
    assert!(api.get_menu_expanded());
    api.add_history("/b.db");
    api.add_history("/a.db");
    api.add_history("");
    api.add_history("/b.db");
    assert_eq!(api.get_history(), vec!["/a.db".to_string(), "/b.db".to_string()]);
    api.remove_history("/a.db");
    assert_eq!(api.get_history(), vec!["/b.db".to_string()]);
    let snapshot = api.snapshot();
    assert_eq!(snapshot.lang, "Quenya");
    assert_eq!(snapshot.theme, "dark");
    assert!(snapshot.menu_expanded);
    assert_eq!(snapshot.book_history, vec!["/b.db".to_string()]);
}
