//! What the user has chosen: language, theme, the state of the menu, and
//! the catalogues that were opened before.

use crate::order::{contains_text, copy_strings, sort_strings, sorted};
use crate::text::{str_eq, texts};
use std::sync::Arc;
use vstd::prelude::*;
use vstd::rwlock::RwLock;
use vstd::rwlock::RwLockPredicate;
use vstd::seq_lib::*;

verus! {

/// The settings of one user.
#[derive(Debug)]
pub struct UserSettings {
    pub lang: String,
    pub theme: String,
    pub menu_expanded: bool,
    pub book_history: Vec<String>,
}

/// The settings of one user as a plain value.
pub struct SettingsModel {
    pub lang: Seq<char>,
    pub theme: Seq<char>,
    pub menu_expanded: bool,
    pub book_history: Seq<Seq<char>>,
}

impl View for UserSettings {
    type V = SettingsModel;

    open spec fn view(&self) -> SettingsModel {
        SettingsModel {
            lang: self.lang@,
            theme: self.theme@,
            menu_expanded: self.menu_expanded,
            book_history: texts(self.book_history@),
        }
    }
}

impl Default for UserSettings {
    /// English, no theme chosen, the menu folded, no history.
    fn default() -> (s: Self)
        ensures
            s@ == (SettingsModel {
                lang: "en"@,
                theme: ""@,
                menu_expanded: false,
                book_history: Seq::empty(),
            }),
    {
        let s = UserSettings {
            lang: String::from_str("en"),
            theme: String::from_str(""),
            menu_expanded: false,
            book_history: Vec::new(),
        };
        assert(texts(s.book_history@) =~= Seq::<Seq<char>>::empty());
        s
    }
}

/// The history with every entry equal to `path` taken out.
pub open spec fn without_path(history: Seq<Seq<char>>, path: Seq<char>) -> Seq<Seq<char>> {
    history.filter(|h: Seq<char>| h != path)
}

/// The history with `path` added at the end unless it is there already.
pub open spec fn with_path(history: Seq<Seq<char>>, path: Seq<char>) -> Seq<Seq<char>> {
    if history.contains(path) {
        history
    } else {
        history.push(path)
    }
}

impl UserSettings {
    /// Remembers a catalogue. An empty path is ignored. The history is in
    /// ascending order afterwards, and holds `path` once more than before
    /// only if it did not hold it.
    pub fn add_history(&mut self, path: &str)
        ensures
            final(self)@.lang == old(self)@.lang,
            final(self)@.theme == old(self)@.theme,
            final(self)@.menu_expanded == old(self)@.menu_expanded,
            path@.len() == 0 ==> final(self)@.book_history == old(self)@.book_history,
            path@.len() > 0 ==> sorted(final(self)@.book_history)
                && final(self)@.book_history.to_multiset() == with_path(
                old(self)@.book_history,
                path@,
            ).to_multiset(),
    {
        if path.is_empty() {
            return ;
        }
        if !contains_text(&self.book_history, path) {
            let ghost before = texts(self.book_history@);
            self.book_history.push(String::from_str(path));
            assert(texts(self.book_history@) =~= before.push(path@));
        }
        sort_strings(&mut self.book_history);
    }

    /// Forgets a catalogue: every entry equal to `path` leaves the history,
    /// the others keep their order.
    pub fn remove_history(&mut self, path: &str)
        ensures
            final(self)@ == (SettingsModel {
                book_history: without_path(old(self)@.book_history, path@),
                ..old(self)@
            }),
    {
        let ghost history = texts(self.book_history@);
        let ghost pred = |h: Seq<char>| h != path@;
        let mut kept: Vec<String> = Vec::new();
        let mut i: usize = 0;
        proof {
            assert(history.take(0) =~= Seq::<Seq<char>>::empty());
            assert(history.take(0).filter(pred) =~= texts(kept@));
        }
        while i < self.book_history.len()
            invariant
                i <= self.book_history.len(),
                *self == *old(self),
                history == texts(self.book_history@),
                pred == |h: Seq<char>| h != path@,
                texts(kept@) == history.take(i as int).filter(pred),
            decreases self.book_history.len() - i,
        {
            let ghost seen = history.take(i as int);
            let ghost before = texts(kept@);
            proof {
                assert(history.take(i + 1) =~= seen.push(history[i as int]));
                seen.lemma_filter_push(history[i as int], pred);
            }
            if !str_eq(self.book_history[i].as_str(), path) {
                kept.push(self.book_history[i].clone());
                assert(texts(kept@) =~= before.push(history[i as int]));
            }
            i = i + 1;
        }
        assert(history.take(self.book_history@.len() as int) =~= history);
        self.book_history = kept;
    }

    /// A copy of the settings.
    pub fn duplicate(&self) -> (copy: UserSettings)
        ensures
            copy@ == self@,
    {
        UserSettings {
            lang: self.lang.clone(),
            theme: self.theme.clone(),
            menu_expanded: self.menu_expanded,
            book_history: copy_strings(&self.book_history),
        }
    }
}

/// Says that any settings may stand behind the lock.
pub struct AnySettings;

impl RwLockPredicate<UserSettings> for AnySettings {
    open spec fn inv(self, v: UserSettings) -> bool {
        true
    }
}

/// The settings of the running program, shared by everything that reads or
/// changes them. A value that is read is the value at the moment of the
/// read; another caller may have changed it since.
pub struct UserSettingsAPI(pub Arc<RwLock<UserSettings, AnySettings>>);

impl UserSettingsAPI {
    /// Shares the given settings.
    pub fn new(settings: UserSettings) -> (api: Self) {
        UserSettingsAPI(Arc::new(RwLock::new(settings, Ghost(AnySettings))))
    }

    /// Whether the menu is unfolded.
    pub fn get_menu_expanded(&self) -> (expanded: bool) {
        let handle = self.0.acquire_read();
        let expanded = handle.borrow().menu_expanded;
        handle.release_read();
        expanded
    }

    /// Unfolds or folds the menu.
    pub fn set_menu_expanded(&self, menu_expanded: bool) {
        let (mut settings, handle) = self.0.acquire_write();
        settings.menu_expanded = menu_expanded;
        handle.release_write(settings);
    }

    /// The language of the interface.
    pub fn get_current_lang(&self) -> (lang: String) {
        let handle = self.0.acquire_read();
        let lang = handle.borrow().lang.clone();
        handle.release_read();
        lang
    }

    /// Chooses the language of the interface.
    pub fn set_current_lang(&self, lang: &str) {
        let (mut settings, handle) = self.0.acquire_write();
        settings.lang = String::from_str(lang);
        handle.release_write(settings);
    }

    /// The theme of the interface.
    pub fn get_theme(&self) -> (theme: String) {
        let handle = self.0.acquire_read();
        let theme = handle.borrow().theme.clone();
        handle.release_read();
        theme
    }

    /// Chooses the theme of the interface.
    pub fn set_theme(&self, theme: &str) {
        let (mut settings, handle) = self.0.acquire_write();
        settings.theme = String::from_str(theme);
        handle.release_write(settings);
    }

    /// Remembers a catalogue, as [`UserSettings::add_history`] does.
    pub fn add_history(&self, path: &str) {
        if path.is_empty() {
            return ;
        }
        let (mut settings, handle) = self.0.acquire_write();
        settings.add_history(path);
        handle.release_write(settings);
    }

    /// Forgets a catalogue, as [`UserSettings::remove_history`] does.
    pub fn remove_history(&self, path: &str) {
        let (mut settings, handle) = self.0.acquire_write();
        settings.remove_history(path);
        handle.release_write(settings);
    }

    /// The catalogues that were opened before.
    pub fn get_history(&self) -> (history: Vec<String>) {
        let handle = self.0.acquire_read();
        let history = copy_strings(&handle.borrow().book_history);
        handle.release_read();
        history
    }

    /// A copy of the settings as they are at the moment of the call, for
    /// the caller to store.
    pub fn snapshot(&self) -> (settings: UserSettings) {
        let handle = self.0.acquire_read();
        let settings = handle.borrow().duplicate();
        handle.release_read();
        settings
    }
}

} // verus!
