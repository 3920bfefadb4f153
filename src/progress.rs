//! The last page read of each document, kept across sessions as a JSON object
//! from document path to page index.

use vstd::prelude::*;

verus! {

/// The plain value of a list of `(path, page)` entries.
pub open spec fn entries_view(e: Seq<(String, u64)>) -> Seq<(Seq<char>, u64)> {
    e.map_values(|p: (String, u64)| (p.0@, p.1))
}

/// No two entries have the same path.
pub open spec fn keys_unique(e: Seq<(Seq<char>, u64)>) -> bool {
    forall|i: int, j: int| 0 <= i < e.len() && 0 <= j < e.len() && i != j ==> #[trigger] e[i].0 != #[trigger] e[j].0
}

/// The mapping that a list of entries describes; a later entry wins.
pub open spec fn map_of(e: Seq<(Seq<char>, u64)>) -> Map<Seq<char>, u64>
    decreases e.len(),
{
    if e.len() == 0 {
        Map::empty()
    } else {
        map_of(e.drop_last()).insert(e.last().0, e.last().1)
    }
}

proof fn lemma_map_of(e: Seq<(Seq<char>, u64)>)
    requires
        keys_unique(e),
    ensures
        forall|i: int| 0 <= i < e.len() ==> #[trigger] map_of(e).contains_key(e[i].0) && map_of(e)[e[i].0] == e[i].1,
        forall|k: Seq<char>| #[trigger] map_of(e).contains_key(k) ==> exists|i: int| 0 <= i < e.len() && e[i].0 == k,
    decreases e.len(),
{
    if e.len() > 0 {
        let d = e.drop_last();
        assert(keys_unique(d)) by {
            assert forall|i: int, j: int| 0 <= i < d.len() && 0 <= j < d.len() && i != j implies #[trigger] d[i].0 != #[trigger] d[j].0 by {
                assert(d[i] == e[i] && d[j] == e[j]);
            }
        }
        lemma_map_of(d);
        assert forall|i: int| 0 <= i < e.len() implies #[trigger] map_of(e).contains_key(e[i].0) && map_of(e)[e[i].0] == e[i].1 by {
            if i < e.len() - 1 {
                assert(d[i] == e[i]);
                assert(map_of(d).contains_key(d[i].0));
                assert(e[i].0 != e[e.len() - 1].0);
            }
        }
        assert forall|k: Seq<char>| #[trigger] map_of(e).contains_key(k) implies exists|i: int| 0 <= i < e.len() && e[i].0 == k by {
            if k != e.last().0 {
                assert(map_of(d).contains_key(k));
                let i = choose|i: int| 0 <= i < d.len() && d[i].0 == k;
                assert(e[i] == d[i]);
            } else {
                assert(e[e.len() - 1].0 == k);
            }
        }
    }
}

proof fn lemma_map_of_update(e: Seq<(Seq<char>, u64)>, i: int, v: u64)
    requires
        keys_unique(e),
        0 <= i < e.len(),
    ensures
        map_of(e.update(i, (e[i].0, v))) == map_of(e).insert(e[i].0, v),
    decreases e.len(),
{
    let u = e.update(i, (e[i].0, v));
    let d = e.drop_last();
    if i == e.len() - 1 {
        assert(u.drop_last() =~= d);
        assert(map_of(u) =~= map_of(e).insert(e[i].0, v));
    } else {
        assert(keys_unique(d)) by {
            assert forall|a: int, b: int| 0 <= a < d.len() && 0 <= b < d.len() && a != b implies #[trigger] d[a].0 != #[trigger] d[b].0 by {
                assert(d[a] == e[a] && d[b] == e[b]);
            }
        }
        lemma_map_of_update(d, i, v);
        assert(u.drop_last() =~= d.update(i, (d[i].0, v)));
        assert(e[i].0 != e[e.len() - 1].0);
        assert(map_of(u) =~= map_of(e).insert(e[i].0, v));
    }
}

/// The entries of the JSON object `text` (an object whose values are all
/// non-negative integers), or `None` where `text` is not such an object.
pub uninterp spec fn progress_json_entries(text: Seq<char>) -> Option<Seq<(Seq<char>, u64)>>;

/// The JSON object text of a list of entries with distinct paths.
pub uninterp spec fn progress_json_text(entries: Seq<(Seq<char>, u64)>) -> Seq<char>;

/// Declares serde_json's error type, which parsing returns.
#[verifier::external_type_specification]
#[verifier::external_body]
pub struct ExJsonError(serde_json::Error);

/// Relies on `serde_json::from_str` into a `BTreeMap<String, u64>`: a JSON object
/// with integer values parses, anything else is an error; a map's keys are distinct.
#[verifier::external_body]
fn parse_progress_json(text: &str) -> (r: Result<Vec<(String, u64)>, serde_json::Error>)
    ensures
        match r {
            Ok(v) => progress_json_entries(text@) == Some(entries_view(v@)) && keys_unique(entries_view(v@)),
            Err(_) => progress_json_entries(text@) is None,
        },
{
    serde_json::from_str::<std::collections::BTreeMap<String, u64>>(text).map(|m| m.into_iter().collect())
}

/// Relies on `serde_json::to_string` of the entries as a `BTreeMap<&String, u64>`,
/// which writes one JSON object and cannot fail for string keys.
#[verifier::external_body]
fn write_progress_json(entries: &Vec<(String, u64)>) -> (r: String)
    ensures
        r@ == progress_json_text(entries_view(entries@)),
{
    let map: std::collections::BTreeMap<&String, u64> = entries.iter().map(|(k, v)| (k, *v)).collect();
    serde_json::to_string(&map).unwrap_or_default()
}

/// The last page read of each document, by document path.
pub struct ProgressMap {
    entries: Vec<(String, u64)>,
}

impl View for ProgressMap {
    type V = Map<Seq<char>, u64>;

    closed spec fn view(&self) -> Map<Seq<char>, u64> {
        map_of(entries_view(self.entries@))
    }
}

impl ProgressMap {
    /// The entries held, one per path, in no particular order.
    pub closed spec fn entries(self) -> Seq<(Seq<char>, u64)> {
        entries_view(self.entries@)
    }

    #[verifier::type_invariant]
    spec fn inv(self) -> bool {
        keys_unique(entries_view(self.entries@))
    }

    /// No document has any progress yet.
    pub fn new() -> (r: ProgressMap)
        ensures
            r@ == Map::<Seq<char>, u64>::empty(),
    {
        let r = ProgressMap { entries: Vec::new() };
        assert(entries_view(r.entries@) =~= Seq::empty());
        r
    }

    /// The page saved for `path`, if any.
    pub fn get(&self, path: &String) -> (r: Option<u64>)
        ensures
            r == (if self@.contains_key(path@) {
                Some(self@[path@])
            } else {
                None::<u64>
            }),
    {
        proof {
            use_type_invariant(self);
            lemma_map_of(entries_view(self.entries@));
        }
        let ghost ev = entries_view(self.entries@);
        let mut i: usize = 0;
        while i < self.entries.len()
            invariant
                ev == entries_view(self.entries@),
                i <= self.entries.len(),
                forall|j: int| 0 <= j < i ==> #[trigger] ev[j].0 != path@,
            decreases self.entries.len() - i,
        {
            if self.entries[i].0 == *path {
                assert(ev[i as int] == (self.entries@[i as int].0@, self.entries@[i as int].1));
                proof {
                    use_type_invariant(self);
                    lemma_map_of(ev);
                    assert(map_of(ev).contains_key(ev[i as int].0));
                    assert(ev[i as int].0 == path@);
                }
                return Some(self.entries[i].1);
            }
            i = i + 1;
        }
        None
    }

    /// Records `page` as the last page read of `path`, in place of any earlier one.
    pub fn set(&mut self, path: String, page: u64)
        ensures
            final(self)@ == old(self)@.insert(path@, page),
    {
        proof {
            use_type_invariant(&*self);
        }
        let mut taken = ProgressMap::new();
        core::mem::swap(self, &mut taken);
        proof {
            use_type_invariant(&taken);
        }
        let ProgressMap { mut entries } = taken;
        let ghost ev = entries_view(entries@);
        assert(map_of(ev) == old(self)@);
        let mut i: usize = 0;
        while i < entries.len()
            invariant
                ev == entries_view(entries@),
                keys_unique(ev),
                i <= entries.len(),
                map_of(ev) == old(self)@,
                forall|j: int| 0 <= j < i ==> #[trigger] ev[j].0 != path@,
            decreases entries.len() - i,
        {
            if entries[i].0 == path {
                proof {
                    lemma_map_of_update(ev, i as int, page);
                    assert(ev[i as int].0 == path@);
                }
                entries.set(i, (path, page));
                proof {
                    assert(entries_view(entries@) =~= ev.update(i as int, (ev[i as int].0, page)));
                    assert forall|a: int, b: int| 0 <= a < entries@.len() && 0 <= b < entries@.len() && a != b implies #[trigger] entries_view(entries@)[a].0 != #[trigger] entries_view(entries@)[b].0 by {
                        assert(entries_view(entries@)[a].0 == ev[a].0);
                        assert(entries_view(entries@)[b].0 == ev[b].0);
                    }
                }
                *self = ProgressMap { entries };
                return;
            }
            i = i + 1;
        }
        let ghost key = path@;
        entries.push((path, page));
        proof {
            let nv = entries_view(entries@);
            assert(nv =~= ev.push((key, page)));
            assert(nv.drop_last() =~= ev);
            assert forall|a: int, b: int| 0 <= a < nv.len() && 0 <= b < nv.len() && a != b implies #[trigger] nv[a].0 != #[trigger] nv[b].0 by {
                if a < ev.len() && b < ev.len() {
                    assert(nv[a] == ev[a] && nv[b] == ev[b]);
                }
            }
        }
        *self = ProgressMap { entries };
    }

    /// Reads a progress mapping saved by [`ProgressMap::to_json`]. Text that is
    /// not a JSON object of non-negative integers gives the empty mapping.
    pub fn from_json(text: &str) -> (r: ProgressMap)
        ensures
            r@ == (match progress_json_entries(text@) {
                Some(e) => map_of(e),
                None => Map::empty(),
            }),
    {
        match parse_progress_json(text) {
            Ok(entries) => ProgressMap { entries },
            Err(_) => ProgressMap::new(),
        }
    }

    /// The mapping as a JSON object from path to page.
    pub fn to_json(&self) -> (r: String)
        ensures
            r@ == progress_json_text(self.entries()),
            keys_unique(self.entries()),
            map_of(self.entries()) == self@,
    {
        proof {
            use_type_invariant(self);
        }
        write_progress_json(&self.entries)
    }
}

} // verus!
