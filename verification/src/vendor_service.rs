//! The vendor profile store. Its well-formedness invariant carries the
//! central rule of profile management: for every tool, at most one
//! stored profile is active, whatever sequence of operations led here.
//! Activation deactivates every sibling under the same tool scope in
//! the same step; a profile of another tool is never touched by it.

use vstd::prelude::*;

use crate::config_parser::read_alpha;
use crate::config_parser::read_alpha_settings;
use crate::document::entries_view;
use crate::document::ConfigValue;
use crate::errors::AppError;
use crate::errors::ErrorModel;
use crate::text::str_eq;
use crate::vendor::Vendor;
use crate::vendor::VendorInput;
use crate::vendor::VendorInputModel;
use crate::vendor::VendorModel;

verus! {

/// The model of a profile list.
pub open spec fn profiles_view(s: Seq<Vendor>) -> Seq<VendorModel> {
    Seq::new(s.len(), |i: int| s[i]@)
}

/// At most one profile per tool is active: no two distinct entries
/// under the same tool are both active.
pub open spec fn at_most_one_active(s: Seq<VendorModel>) -> bool {
    forall|i: int, j: int|
        0 <= i < s.len() && 0 <= j < s.len() && i != j && (#[trigger] s[i]).tool == (
        #[trigger] s[j]).tool ==> !(s[i].is_active && s[j].is_active)
}

/// The first profile carrying `id`, if any.
pub open spec fn find_by_id(s: Seq<VendorModel>, id: int) -> Option<VendorModel>
    decreases s.len(),
{
    if s.len() == 0 {
        None
    } else if s[0].id == id {
        Some(s[0])
    } else {
        find_by_id(s.drop_first(), id)
    }
}

/// The profiles of `tool`, in list order.
pub open spec fn matching(s: Seq<VendorModel>, tool: Seq<char>) -> Seq<VendorModel>
    decreases s.len(),
{
    if s.len() == 0 {
        Seq::empty()
    } else if s[0].tool == tool {
        seq![s[0]] + matching(s.drop_first(), tool)
    } else {
        matching(s.drop_first(), tool)
    }
}

/// The profile a fresh insertion stores.
pub open spec fn new_profile(
    id: int,
    tool: Seq<char>,
    input: VendorInputModel,
    now: Seq<char>,
) -> VendorModel {
    VendorModel {
        id,
        tool,
        name: input.name,
        vendor_key: input.vendor_key,
        base_url: input.base_url,
        token: input.token,
        model: input.model,
        config_json: input.config_json,
        is_active: false,
        created_at: now,
        updated_at: now,
    }
}

/// A profile after an update: the caller-supplied fields replaced, the
/// identity, activity and creation stamp kept.
pub open spec fn updated_profile(
    v: VendorModel,
    input: VendorInputModel,
    now: Seq<char>,
) -> VendorModel {
    VendorModel {
        name: input.name,
        vendor_key: input.vendor_key,
        base_url: input.base_url,
        token: input.token,
        model: input.model,
        config_json: input.config_json,
        updated_at: now,
        ..v
    }
}

/// The list after an activation of `id` within `tool`: every profile
/// of `tool` is active exactly when it carries `id`; profiles of other
/// tools are untouched.
pub open spec fn activated(s: Seq<VendorModel>, tool: Seq<char>, id: int) -> Seq<VendorModel> {
    Seq::new(
        s.len(),
        |i: int|
            if 0 <= i < s.len() && s[i].tool == tool {
                VendorModel { is_active: s[i].id == id, ..s[i] }
            } else {
                s[i]
            },
    )
}

proof fn lemma_find_by_id_at(s: Seq<VendorModel>, id: int, i: int)
    requires
        0 <= i < s.len(),
        s[i].id == id,
        forall|j: int| 0 <= j < i ==> (#[trigger] s[j]).id != id,
    ensures
        find_by_id(s, id) == Some(s[i]),
    decreases i,
{
    if i == 0 {
    } else {
        lemma_find_by_id_at(s.drop_first(), id, i - 1);
    }
}

proof fn lemma_find_by_id_absent(s: Seq<VendorModel>, id: int)
    requires
        forall|j: int| 0 <= j < s.len() ==> (#[trigger] s[j]).id != id,
    ensures
        find_by_id(s, id) is None,
    decreases s.len(),
{
    if s.len() == 0 {
    } else {
        lemma_find_by_id_absent(s.drop_first(), id);
    }
}

/// The vendor profile store.
pub struct VendorService {
    pub profiles: Vec<Vendor>,
    pub next_id: i64,
}

impl VendorService {
    /// Well-formedness: identifiers are positive, below the insertion
    /// counter and pairwise distinct, and at most one profile per tool
    /// is active.
    pub open spec fn wf(&self) -> bool {
        &&& 0 < self.next_id as int
        &&& forall|i: int|
            0 <= i < self.profiles@.len() ==> 0 < (#[trigger] profiles_view(self.profiles@)[i]).id
                < self.next_id as int
        &&& forall|i: int, j: int|
            0 <= i < self.profiles@.len() && 0 <= j < self.profiles@.len() && i != j ==> (
            #[trigger] profiles_view(self.profiles@)[i]).id != (#[trigger] profiles_view(
                self.profiles@,
            )[j]).id
        &&& at_most_one_active(profiles_view(self.profiles@))
    }

    /// An empty store.
    pub fn new() -> (r: VendorService)
        ensures
            r.wf(),
            r.profiles@.len() == 0,
            r.next_id == 1,
    {
        VendorService { profiles: Vec::new(), next_id: 1 }
    }

    /// The position of the first profile carrying `id`, if any.
    fn find(&self, id: i64) -> (r: Option<usize>)
        ensures
            match r {
                Some(i) => i < self.profiles@.len() && profiles_view(self.profiles@)[i as int].id
                    == id as int && forall|j: int|
                    0 <= j < i ==> (#[trigger] profiles_view(self.profiles@)[j]).id != id as int,
                None => forall|j: int|
                    0 <= j < self.profiles@.len() ==> (#[trigger] profiles_view(
                        self.profiles@,
                    )[j]).id != id as int,
            },
    {
        let mut i: usize = 0;
        while i < self.profiles.len()
            invariant
                0 <= i <= self.profiles@.len(),
                forall|j: int|
                    0 <= j < i ==> (#[trigger] profiles_view(self.profiles@)[j]).id != id as int,
            decreases self.profiles@.len() - i,
        {
            if self.profiles[i].id == id {
                return Some(i);
            }
            i = i + 1;
        }
        None
    }

    /// The profiles of `tool`, most recently created first.
    pub fn get_all(&self, tool: &str) -> (r: Vec<Vendor>)
        ensures
            profiles_view(r@) == matching(profiles_view(self.profiles@), tool@).reverse(),
    {
        let ghost s = profiles_view(self.profiles@);
        let mut fwd: Vec<Vendor> = Vec::new();
        let mut i: usize = 0;
        proof {
            assert(s.skip(0) =~= s);
            assert(profiles_view(fwd@) =~= Seq::<VendorModel>::empty());
        }
        while i < self.profiles.len()
            invariant
                0 <= i <= self.profiles@.len(),
                s == profiles_view(self.profiles@),
                profiles_view(fwd@) + matching(s.skip(i as int), tool@) == matching(s, tool@),
            decreases self.profiles@.len() - i,
        {
            let ghost pre = profiles_view(fwd@);
            let ghost tail = s.skip(i as int);
            proof {
                assert(tail[0] == s[i as int]);
                assert(tail.drop_first() =~= s.skip(i as int + 1));
            }
            if str_eq(self.profiles[i].tool.as_str(), tool) {
                fwd.push(self.profiles[i].duplicate());
                proof {
                    assert(profiles_view(fwd@) =~= pre.push(s[i as int]));
                    assert(pre.push(s[i as int]) + matching(tail.drop_first(), tool@) =~= pre + (
                    seq![tail[0]] + matching(tail.drop_first(), tool@)));
                }
            } else {
                proof {
                    assert(matching(tail, tool@) == matching(tail.drop_first(), tool@));
                }
            }
            i = i + 1;
        }
        proof {
            assert(s.skip(i as int).len() == 0);
            assert(profiles_view(fwd@) + Seq::<VendorModel>::empty() =~= profiles_view(fwd@));
        }
        let mut out: Vec<Vendor> = Vec::new();
        let mut j: usize = fwd.len();
        while j > 0
            invariant
                0 <= j <= fwd@.len(),
                profiles_view(fwd@) == matching(s, tool@),
                out@.len() == fwd@.len() - j,
                forall|m: int|
                    0 <= m < out@.len() ==> (#[trigger] out@[m])@ == profiles_view(
                        fwd@,
                    )[fwd@.len() - 1 - m],
            decreases j,
        {
            j = j - 1;
            out.push(fwd[j].duplicate());
        }
        proof {
            assert(profiles_view(out@) =~= matching(s, tool@).reverse());
        }
        out
    }

    /// Stores a new, inactive profile of `tool` under a fresh
    /// identifier, stamped `now`, and returns it.
    pub fn add(&mut self, tool: &str, input: VendorInput, now: &str) -> (r: Vendor)
        requires
            old(self).wf(),
            old(self).next_id < i64::MAX,
        ensures
            final(self).wf(),
            profiles_view(final(self).profiles@) == profiles_view(old(self).profiles@).push(
                new_profile(old(self).next_id as int, tool@, input@, now@),
            ),
            final(self).next_id == old(self).next_id + 1,
            r@ == new_profile(old(self).next_id as int, tool@, input@, now@),
    {
        let vendor = Vendor {
            id: self.next_id,
            tool: tool.to_owned(),
            name: input.name,
            vendor_key: input.vendor_key,
            base_url: input.base_url,
            token: input.token,
            model: input.model,
            config_json: input.config_json,
            is_active: false,
            created_at: now.to_owned(),
            updated_at: now.to_owned(),
        };
        let r = vendor.duplicate();
        self.profiles.push(vendor);
        self.next_id = self.next_id + 1;
        proof {
            assert(profiles_view(self.profiles@) =~= profiles_view(old(self).profiles@).push(
                new_profile(old(self).next_id as int, tool@, input@, now@),
            ));
        }
        r
    }

    /// The profile stored under `id`, or the error naming it.
    pub fn get_by_id(&self, id: i64) -> (r: Result<Vendor, AppError>)
        ensures
            match find_by_id(profiles_view(self.profiles@), id as int) {
                Some(v) => r matches Ok(x) && x@ == v,
                None => r matches Err(e) && e@ == (ErrorModel::ProfileNotFound { id: id as int }),
            },
    {
        match self.find(id) {
            Some(i) => {
                proof {
                    lemma_find_by_id_at(profiles_view(self.profiles@), id as int, i as int);
                }
                Ok(self.profiles[i].duplicate())
            },
            None => {
                proof {
                    lemma_find_by_id_absent(profiles_view(self.profiles@), id as int);
                }
                Err(AppError::ProfileNotFound { id })
            },
        }
    }

    /// Replaces the caller-supplied fields of the profile under `id`,
    /// stamps it `now`, and returns the updated profile; its identity,
    /// activity and creation stamp are kept, and every other profile
    /// stays as it was.
    pub fn update(&mut self, id: i64, input: VendorInput, now: &str) -> (r: Result<
        Vendor,
        AppError,
    >)
        requires
            old(self).wf(),
        ensures
            final(self).wf(),
            final(self).next_id == old(self).next_id,
            match find_by_id(profiles_view(old(self).profiles@), id as int) {
                Some(v) => {
                    &&& profiles_view(final(self).profiles@) == Seq::new(
                        profiles_view(old(self).profiles@).len(),
                        |i: int|
                            if 0 <= i < profiles_view(old(self).profiles@).len() && profiles_view(
                                old(self).profiles@,
                            )[i].id == id as int {
                                updated_profile(profiles_view(old(self).profiles@)[i], input@, now@)
                            } else {
                                profiles_view(old(self).profiles@)[i]
                            },
                    )
                    &&& r matches Ok(x) && x@ == updated_profile(v, input@, now@)
                },
                None => {
                    &&& final(self).profiles@ == old(self).profiles@
                    &&& r matches Err(e) && e@ == (ErrorModel::ProfileNotFound { id: id as int })
                },
            },
    {
        let ghost olds = profiles_view(self.profiles@);
        match self.find(id) {
            Some(i) => {
                proof {
                    lemma_find_by_id_at(olds, id as int, i as int);
                }
                let cur = &self.profiles[i];
                let vendor = Vendor {
                    id: cur.id,
                    tool: cur.tool.clone(),
                    name: input.name,
                    vendor_key: input.vendor_key,
                    base_url: input.base_url,
                    token: input.token,
                    model: input.model,
                    config_json: input.config_json,
                    is_active: cur.is_active,
                    created_at: cur.created_at.clone(),
                    updated_at: now.to_owned(),
                };
                let r = vendor.duplicate();
                self.profiles[i] = vendor;
                proof {
                    let news = profiles_view(self.profiles@);
                    assert forall|m: int| 0 <= m < news.len() implies news[m] == (
                    if 0 <= m < olds.len() && olds[m].id == id as int {
                        updated_profile(olds[m], input@, now@)
                    } else {
                        olds[m]
                    }) by {
                        if m != i as int {
                            assert(olds[m].id != id as int);
                        }
                    }
                    assert(news =~= Seq::new(
                        olds.len(),
                        |m: int|
                            if 0 <= m < olds.len() && olds[m].id == id as int {
                                updated_profile(olds[m], input@, now@)
                            } else {
                                olds[m]
                            },
                    ));
                }
                Ok(r)
            },
            None => {
                proof {
                    lemma_find_by_id_absent(olds, id as int);
                }
                Err(AppError::ProfileNotFound { id })
            },
        }
    }

    /// Removes the profile under `id`; removing an unknown identifier
    /// changes nothing. Every other profile stays as it was.
    pub fn delete(&mut self, id: i64)
        requires
            old(self).wf(),
        ensures
            final(self).wf(),
            final(self).next_id == old(self).next_id,
            match find_by_id(profiles_view(old(self).profiles@), id as int) {
                Some(_) => exists|i: int|
                    0 <= i < profiles_view(old(self).profiles@).len() && profiles_view(
                        old(self).profiles@,
                    )[i].id == id as int && profiles_view(final(self).profiles@)
                        == profiles_view(old(self).profiles@).remove(i),
                None => final(self).profiles@ == old(self).profiles@,
            },
    {
        let ghost olds = profiles_view(self.profiles@);
        match self.find(id) {
            Some(i) => {
                proof {
                    lemma_find_by_id_at(olds, id as int, i as int);
                }
                self.profiles.remove(i);
                proof {
                    assert(profiles_view(self.profiles@) =~= olds.remove(i as int));
                }
            },
            None => {
                proof {
                    lemma_find_by_id_absent(olds, id as int);
                }
            },
        }
    }

    /// Activates the profile under `id` within the scope of `tool`:
    /// every profile of `tool` becomes active exactly when it carries
    /// `id`, and profiles of other tools are untouched. At most one
    /// profile of `tool` is active afterwards, whatever held before.
    pub fn activate(&mut self, tool: &str, id: i64)
        requires
            old(self).wf(),
        ensures
            final(self).wf(),
            final(self).next_id == old(self).next_id,
            profiles_view(final(self).profiles@) == activated(
                profiles_view(old(self).profiles@),
                tool@,
                id as int,
            ),
    {
        let ghost olds = profiles_view(self.profiles@);
        let mut i: usize = 0;
        while i < self.profiles.len()
            invariant
                0 <= i <= self.profiles@.len(),
                self.next_id == old(self).next_id,
                olds == profiles_view(old(self).profiles@),
                profiles_view(self.profiles@).len() == olds.len(),
                forall|m: int|
                    0 <= m < olds.len() ==> (#[trigger] profiles_view(self.profiles@)[m]) == (
                    if i <= m {
                        olds[m]
                    } else if olds[m].tool == tool@ {
                        VendorModel { is_active: olds[m].id == id as int, ..olds[m] }
                    } else {
                        olds[m]
                    }),
            decreases self.profiles@.len() - i,
        {
            let ghost prevs = profiles_view(self.profiles@);
            if str_eq(self.profiles[i].tool.as_str(), tool) {
                let mut v = self.profiles[i].duplicate();
                v.is_active = v.id == id;
                self.profiles[i] = v;
            }
            proof {
                assert forall|m: int| 0 <= m < olds.len() implies (profiles_view(
                    self.profiles@,
                )[m] == (if i + 1 <= m {
                    olds[m]
                } else if olds[m].tool == tool@ {
                    VendorModel { is_active: olds[m].id == id as int, ..olds[m] }
                } else {
                    olds[m]
                })) by {
                    assert(prevs[m] == (if i <= m {
                        olds[m]
                    } else if olds[m].tool == tool@ {
                        VendorModel { is_active: olds[m].id == id as int, ..olds[m] }
                    } else {
                        olds[m]
                    }));
                    if m != i as int {
                        assert(profiles_view(self.profiles@)[m] == prevs[m]);
                    }
                }
            }
            i = i + 1;
        }
        proof {
            assert(profiles_view(self.profiles@) =~= activated(olds, tool@, id as int));
            let news = profiles_view(self.profiles@);
            assert forall|a: int, b: int|
                0 <= a < news.len() && 0 <= b < news.len() && a != b && (#[trigger] news[a]).tool
                    == (#[trigger] news[b]).tool implies !(news[a].is_active
                && news[b].is_active) by {
                assert(olds[a].id != olds[b].id);
            }
        }
    }

    /// Seeds an empty alpha-code profile list from a settings
    /// document already on disk: when no profile of that tool exists
    /// and the document describes one, it is stored and activated in
    /// one step, and its identifier returned. Otherwise nothing
    /// changes.
    pub fn import_alpha_settings(&mut self, doc: Option<&Vec<(String, ConfigValue)>>, now: &str)
        -> (r: Option<i64>)
        requires
            old(self).wf(),
            old(self).next_id < i64::MAX,
        ensures
            final(self).wf(),
            ({
                let s = profiles_view(old(self).profiles@);
                let described = match doc {
                    Some(d) => read_alpha(entries_view(d@)),
                    None => None,
                };
                if matching(s, "alpha-code"@).len() != 0 || described is None {
                    final(self).profiles@ == old(self).profiles@ && r is None
                } else {
                    &&& profiles_view(final(self).profiles@) == s.push(
                        VendorModel {
                            is_active: true,
                            ..new_profile(
                                old(self).next_id as int,
                                "alpha-code"@,
                                described->0,
                                now@,
                            )
                        },
                    )
                    &&& r == Some(old(self).next_id)
                }
            }),
    {
        let existing = self.get_all("alpha-code");
        if existing.len() > 0 {
            proof {
                assert(matching(profiles_view(self.profiles@), "alpha-code"@).len() != 0) by {
                    assert(profiles_view(existing@).len() == existing@.len());
                }
            }
            return None;
        }
        proof {
            assert(matching(profiles_view(self.profiles@), "alpha-code"@).len() == 0) by {
                assert(profiles_view(existing@).len() == 0);
            }
        }
        match read_alpha_settings(doc) {
            Some(input) => {
                let ghost olds = profiles_view(self.profiles@);
                let ghost inputm = input@;
                let vendor = self.add("alpha-code", input, now);
                let id = vendor.id;
                self.activate("alpha-code", id);
                proof {
                    let pushed = olds.push(new_profile(id as int, "alpha-code"@, inputm, now@));
                    let target = olds.push(
                        VendorModel {
                            is_active: true,
                            ..new_profile(id as int, "alpha-code"@, inputm, now@)
                        },
                    );
                    assert forall|m: int| 0 <= m < pushed.len() implies activated(
                        pushed,
                        "alpha-code"@,
                        id as int,
                    )[m] == target[m] by {
                        if m < olds.len() && olds[m].tool == "alpha-code"@ {
                            lemma_matching_has_tool(olds, "alpha-code"@, m);
                        }
                    }
                    assert(activated(pushed, "alpha-code"@, id as int) =~= target);
                }
                Some(id)
            },
            None => None,
        }
    }
}

/// An entry of the list under `tool` appears in `matching`.
proof fn lemma_matching_has_tool(s: Seq<VendorModel>, tool: Seq<char>, i: int)
    requires
        0 <= i < s.len(),
        s[i].tool == tool,
    ensures
        matching(s, tool).len() != 0,
    decreases i,
{
    if i == 0 {
    } else {
        if s[0].tool == tool {
        } else {
            lemma_matching_has_tool(s.drop_first(), tool, i - 1);
        }
    }
}

} // verus!
