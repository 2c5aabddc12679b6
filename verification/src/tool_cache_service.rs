//! The status cache: a keyed store of the last known install state of
//! each tool, consulted before any expensive probe. The running flag
//! and the install method are never cached — they are re-derived live —
//! so a cached entry reads back with both at their negative defaults.

use vstd::prelude::*;

use crate::assoc::assoc_get;
use crate::assoc::assoc_set;
use crate::assoc::lemma_assoc_get_absent;
use crate::assoc::lemma_assoc_get_at;
use crate::assoc::lemma_assoc_set_absent;
use crate::assoc::lemma_assoc_set_at;
use crate::text::opt_string_view;
use crate::text::str_eq;
use crate::tool::ToolStatus;
use crate::tool::ToolStatusModel;
use crate::vendor::dup_opt_string;

verus! {

/// One cached row: what the cache persists of a probed status, and
/// when it was recorded.
pub struct CacheEntry {
    pub installed: bool,
    pub version: Option<String>,
    pub path: Option<String>,
    pub checked_at: String,
}

/// The mathematical model of a cached row.
pub struct CacheEntryModel {
    pub installed: bool,
    pub version: Option<Seq<char>>,
    pub path: Option<Seq<char>>,
    pub checked_at: Seq<char>,
}

impl View for CacheEntry {
    type V = CacheEntryModel;

    open spec fn view(&self) -> CacheEntryModel {
        CacheEntryModel {
            installed: self.installed,
            version: opt_string_view(self.version),
            path: opt_string_view(self.path),
            checked_at: self.checked_at@,
        }
    }
}

/// The model of the cache's entry list.
pub open spec fn cache_view(es: Seq<(String, CacheEntry)>) -> Seq<(Seq<char>, CacheEntryModel)> {
    Seq::new(es.len(), |i: int| (es[i].0@, es[i].1@))
}

/// The row a probed status is recorded as.
pub open spec fn entry_of_status(s: ToolStatusModel, now: Seq<char>) -> CacheEntryModel {
    CacheEntryModel { installed: s.installed, version: s.version, path: s.path, checked_at: now }
}

/// The status a cached row reads back as: the persisted fields, with
/// the live-only fields at their negative defaults.
pub open spec fn status_of_entry(e: CacheEntryModel) -> ToolStatusModel {
    ToolStatusModel {
        installed: e.installed,
        path: e.path,
        version: e.version,
        install_method: None,
        running: false,
    }
}

/// The status cache, keyed by tool identifier.
pub struct ToolCacheService {
    pub entries: Vec<(String, CacheEntry)>,
}

impl ToolCacheService {
    /// The row cached for `tool`, if any.
    pub open spec fn lookup(&self, tool: Seq<char>) -> Option<CacheEntryModel> {
        assoc_get(cache_view(self.entries@), tool)
    }

    /// An empty cache.
    pub fn new() -> (r: ToolCacheService)
        ensures
            r.entries@.len() == 0,
    {
        ToolCacheService { entries: Vec::new() }
    }

    /// The position of the first row under `tool`, if any.
    fn find(&self, tool: &str) -> (r: Option<usize>)
        ensures
            match r {
                Some(i) => i < self.entries@.len() && cache_view(self.entries@)[i as int].0
                    == tool@ && forall|j: int|
                    0 <= j < i ==> (#[trigger] cache_view(self.entries@)[j]).0 != tool@,
                None => forall|j: int|
                    0 <= j < self.entries@.len() ==> (#[trigger] cache_view(self.entries@)[j]).0
                        != tool@,
            },
    {
        let mut i: usize = 0;
        while i < self.entries.len()
            invariant
                0 <= i <= self.entries@.len(),
                forall|j: int| 0 <= j < i ==> (#[trigger] cache_view(self.entries@)[j]).0 != tool@,
            decreases self.entries@.len() - i,
        {
            if str_eq(self.entries[i].0.as_str(), tool) {
                return Some(i);
            }
            i = i + 1;
        }
        None
    }

    /// The cached status of `tool`: the persisted fields of its row,
    /// read back as `status_of_entry` describes, or nothing on a miss.
    pub fn get(&self, tool: &str) -> (r: Option<ToolStatus>)
        ensures
            match self.lookup(tool@) {
                Some(e) => r matches Some(s) && s@ == status_of_entry(e),
                None => r is None,
            },
    {
        match self.find(tool) {
            Some(i) => {
                proof {
                    lemma_assoc_get_at(cache_view(self.entries@), tool@, i as int);
                }
                let e = &self.entries[i].1;
                Some(
                    ToolStatus {
                        installed: e.installed,
                        path: dup_opt_string(&e.path),
                        version: dup_opt_string(&e.version),
                        install_method: None,
                        running: false,
                    },
                )
            },
            None => {
                proof {
                    lemma_assoc_get_absent(cache_view(self.entries@), tool@);
                }
                None
            },
        }
    }

    /// Records `status` for `tool`, stamped `now`, overwriting any
    /// earlier row and leaving every other tool's row as it was.
    pub fn set(&mut self, tool: &str, status: &ToolStatus, now: &str)
        ensures
            cache_view(final(self).entries@) == assoc_set(
                cache_view(old(self).entries@),
                tool@,
                entry_of_status(status@, now@),
            ),
    {
        let entry = CacheEntry {
            installed: status.installed,
            version: dup_opt_string(&status.version),
            path: dup_opt_string(&status.path),
            checked_at: now.to_owned(),
        };
        let k = tool.to_owned();
        match self.find(tool) {
            Some(i) => {
                proof {
                    lemma_assoc_set_at(
                        cache_view(self.entries@),
                        tool@,
                        entry_of_status(status@, now@),
                        i as int,
                    );
                }
                self.entries[i] = (k, entry);
                proof {
                    assert(cache_view(self.entries@) =~= assoc_set(
                        cache_view(old(self).entries@),
                        tool@,
                        entry_of_status(status@, now@),
                    ));
                }
            },
            None => {
                proof {
                    lemma_assoc_set_absent(
                        cache_view(self.entries@),
                        tool@,
                        entry_of_status(status@, now@),
                    );
                }
                self.entries.push((k, entry));
                proof {
                    assert(cache_view(self.entries@) =~= cache_view(old(self).entries@).push(
                        (tool@, entry_of_status(status@, now@)),
                    ));
                }
            },
        }
    }
}

} // verus!
