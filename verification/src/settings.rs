//! Application settings: a small keyed store of display preferences,
//! read back as one record with fixed defaults for whatever the store
//! does not hold.

use vstd::prelude::*;

use crate::assoc::assoc_get;
use crate::assoc::assoc_set;
use crate::assoc::lemma_assoc_get_absent;
use crate::assoc::lemma_assoc_get_at;
use crate::assoc::lemma_assoc_set_absent;
use crate::assoc::lemma_assoc_set_at;
use crate::text::pairs_view;
use crate::text::str_eq;

verus! {

/// The application's display preferences.
#[derive(Debug, PartialEq)]
pub struct AppSettings {
    pub theme: String,
    pub language: String,
    pub last_tool: String,
}

/// The mathematical model of the preferences record.
pub struct AppSettingsModel {
    pub theme: Seq<char>,
    pub language: Seq<char>,
    pub last_tool: Seq<char>,
}

impl View for AppSettings {
    type V = AppSettingsModel;

    open spec fn view(&self) -> AppSettingsModel {
        AppSettingsModel {
            theme: self.theme@,
            language: self.language@,
            last_tool: self.last_tool@,
        }
    }
}

/// The defaults: a light theme, the zh locale, the assistant tool.
pub open spec fn default_settings() -> AppSettingsModel {
    AppSettingsModel { theme: "light"@, language: "zh"@, last_tool: "alpha-code"@ }
}

impl Default for AppSettings {
    fn default() -> (r: AppSettings)
        ensures
            r@ == default_settings(),
    {
        AppSettings {
            theme: "light".to_owned(),
            language: "zh".to_owned(),
            last_tool: "alpha-code".to_owned(),
        }
    }
}

/// The stored value when present, else the default.
pub open spec fn setting_or(v: Option<Seq<char>>, d: Seq<char>) -> Seq<char> {
    match v {
        Some(s) => s,
        None => d,
    }
}

/// The settings store: string values under string keys.
pub struct SettingsService {
    pub entries: Vec<(String, String)>,
}

impl SettingsService {
    /// The value stored under `k`, if any.
    pub open spec fn lookup(&self, k: Seq<char>) -> Option<Seq<char>> {
        assoc_get(pairs_view(self.entries@), k)
    }

    /// An empty store.
    pub fn new() -> (r: SettingsService)
        ensures
            r.entries@.len() == 0,
    {
        SettingsService { entries: Vec::new() }
    }

    /// The position of the first entry under `key`, if any.
    fn find(&self, key: &str) -> (r: Option<usize>)
        ensures
            match r {
                Some(i) => i < self.entries@.len() && pairs_view(self.entries@)[i as int].0 == key@
                    && forall|j: int|
                    0 <= j < i ==> (#[trigger] pairs_view(self.entries@)[j]).0 != key@,
                None => forall|j: int|
                    0 <= j < self.entries@.len() ==> (#[trigger] pairs_view(self.entries@)[j]).0
                        != key@,
            },
    {
        let mut i: usize = 0;
        while i < self.entries.len()
            invariant
                0 <= i <= self.entries@.len(),
                forall|j: int| 0 <= j < i ==> (#[trigger] pairs_view(self.entries@)[j]).0 != key@,
            decreases self.entries@.len() - i,
        {
            if str_eq(self.entries[i].0.as_str(), key) {
                return Some(i);
            }
            i = i + 1;
        }
        None
    }

    /// The value stored under `key`, as `lookup` describes it.
    pub fn get(&self, key: &str) -> (r: Option<String>)
        ensures
            crate::text::opt_string_view(r) == self.lookup(key@),
    {
        match self.find(key) {
            Some(i) => {
                proof {
                    lemma_assoc_get_at(pairs_view(self.entries@), key@, i as int);
                }
                Some(self.entries[i].1.clone())
            },
            None => {
                proof {
                    lemma_assoc_get_absent(pairs_view(self.entries@), key@);
                }
                None
            },
        }
    }

    /// The full preferences record: each stored value, or its default
    /// where the store holds none.
    pub fn get_all(&self) -> (r: AppSettings)
        ensures
            r@.theme == setting_or(self.lookup("theme"@), "light"@),
            r@.language == setting_or(self.lookup("language"@), "zh"@),
            r@.last_tool == setting_or(self.lookup("last_tool"@), "alpha-code"@),
    {
        let mut settings = AppSettings::default();
        match self.get("theme") {
            Some(v) => settings.theme = v,
            None => {},
        }
        match self.get("language") {
            Some(v) => settings.language = v,
            None => {},
        }
        match self.get("last_tool") {
            Some(v) => settings.last_tool = v,
            None => {},
        }
        settings
    }

    /// Stores `value` under `key`, leaving every other key as it was.
    pub fn update(&mut self, key: &str, value: &str)
        ensures
            pairs_view(final(self).entries@) == assoc_set(
                pairs_view(old(self).entries@),
                key@,
                value@,
            ),
    {
        let k = key.to_owned();
        let v = value.to_owned();
        match self.find(key) {
            Some(i) => {
                proof {
                    lemma_assoc_set_at(pairs_view(self.entries@), key@, value@, i as int);
                }
                self.entries[i] = (k, v);
                proof {
                    assert(pairs_view(self.entries@) =~= assoc_set(
                        pairs_view(old(self).entries@),
                        key@,
                        value@,
                    ));
                }
            },
            None => {
                proof {
                    lemma_assoc_set_absent(pairs_view(self.entries@), key@, value@);
                }
                self.entries.push((k, v));
                proof {
                    assert(pairs_view(self.entries@) =~= pairs_view(old(self).entries@).push(
                        (key@, value@),
                    ));
                }
            },
        }
    }
}

} // verus!
