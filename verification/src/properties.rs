//! SGF node properties: a map from property identifiers (`AB`, `LN`, ...) to
//! their value lists.
use vstd::prelude::*;

use crate::text::str_eq;

verus! {

/// Abstract content of a property list entry.
pub type PropertyEntry = (Seq<char>, Seq<Seq<char>>);

/// The map a sequence of entries stands for; a later entry for the same
/// identifier shadows earlier ones.
pub open spec fn entries_map(e: Seq<PropertyEntry>) -> Map<Seq<char>, Seq<Seq<char>>>
    decreases e.len(),
{
    if e.len() == 0 {
        Map::empty()
    } else {
        entries_map(e.drop_last()).insert(e.last().0, e.last().1)
    }
}

/// The properties of one SGF node.
#[derive(Debug)]
pub struct Properties {
    entries: Vec<(String, Vec<String>)>,
}

spec fn entry_view(e: (String, Vec<String>)) -> PropertyEntry {
    (e.0@, e.1.deep_view())
}

impl Properties {
    spec fn entry_views(&self) -> Seq<PropertyEntry> {
        self.entries@.map_values(|e: (String, Vec<String>)| entry_view(e))
    }
}

impl View for Properties {
    type V = Map<Seq<char>, Seq<Seq<char>>>;

    closed spec fn view(&self) -> Map<Seq<char>, Seq<Seq<char>>> {
        entries_map(self.entry_views())
    }
}

impl Properties {
    /// No properties.
    pub fn new() -> (p: Self)
        ensures
            p@ == Map::<Seq<char>, Seq<Seq<char>>>::empty(),
    {
        let p = Properties { entries: Vec::new() };
        assert(p.entry_views() =~= Seq::<PropertyEntry>::empty());
        p
    }

    /// Sets the values of `key`, replacing any previous values.
    pub fn insert(&mut self, key: String, values: Vec<String>)
        ensures
            final(self)@ == old(self)@.insert(key@, values.deep_view()),
    {
        let mut remaining: Vec<(String, Vec<String>)> = Vec::new();
        std::mem::swap(&mut remaining, &mut self.entries);
        let ghost all = remaining@.map_values(|e: (String, Vec<String>)| entry_view(e));
        let mut kept: Vec<(String, Vec<String>)> = Vec::new();
        let ghost mut consumed: int = 0;
        assert(kept@.map_values(|e: (String, Vec<String>)| entry_view(e)) =~= Seq::<
            PropertyEntry,
        >::empty());
        assert(entries_map(all.take(0)) =~= Map::<Seq<char>, Seq<Seq<char>>>::empty().remove(
            key@,
        )) by {
            assert(all.take(0) =~= Seq::<PropertyEntry>::empty());
        }
        while remaining.len() > 0
            invariant
                0 <= consumed <= all.len(),
                all.len() == consumed + remaining@.len(),
                remaining@.map_values(|e: (String, Vec<String>)| entry_view(e)) == all.skip(
                    consumed,
                ),
                entries_map(kept@.map_values(|e: (String, Vec<String>)| entry_view(e)))
                    == entries_map(all.take(consumed)).remove(key@),
            decreases remaining.len(),
        {
            let ghost before = kept@;
            let ghost prev = entries_map(all.take(consumed));
            let ghost rem_before = remaining@;
            let e = remaining.remove(0);
            assert forall|j: int| 0 <= j < remaining@.len() implies entry_view(remaining@[j])
                == all[consumed + 1 + j] by {
                assert(remaining@[j] == rem_before[j + 1]);
                assert(rem_before.map_values(|e: (String, Vec<String>)| entry_view(e))[j + 1]
                    == all.skip(consumed)[j + 1]);
            }
            assert(entry_view(e) == all[consumed]) by {
                assert(all.skip(consumed)[0] == all[consumed]);
            }
            assert(all.take(consumed + 1).drop_last() =~= all.take(consumed));
            assert(entries_map(all.take(consumed + 1)) == prev.insert(
                entry_view(e).0,
                entry_view(e).1,
            ));
            if !str_eq(e.0.as_str(), key.as_str()) {
                kept.push(e);
                assert(kept@.map_values(|e: (String, Vec<String>)| entry_view(e)).drop_last()
                    =~= before.map_values(|e: (String, Vec<String>)| entry_view(e)));
                assert(entries_map(kept@.map_values(|e: (String, Vec<String>)| entry_view(e)))
                    =~= prev.insert(entry_view(e).0, entry_view(e).1).remove(key@));
            } else {
                assert(prev.insert(entry_view(e).0, entry_view(e).1).remove(key@) =~= prev.remove(
                    key@,
                ));
            }
            proof {
                consumed = consumed + 1;
            }
            assert(remaining@.map_values(|e: (String, Vec<String>)| entry_view(e)) =~= all.skip(
                consumed,
            ));
        }
        assert(all.take(consumed) =~= all);
        let ghost before = kept@;
        let ghost key_view = key@;
        let ghost values_view = values.deep_view();
        kept.push((key, values));
        assert(kept@.map_values(|e: (String, Vec<String>)| entry_view(e)).drop_last()
            =~= before.map_values(|e: (String, Vec<String>)| entry_view(e)));
        self.entries = kept;
        assert(self@ =~= entries_map(all).remove(key_view).insert(key_view, values_view));
        assert(entries_map(all).remove(key_view).insert(key_view, values_view) =~= entries_map(
            all,
        ).insert(key_view, values_view));
    }

    /// The values of `key`, if it is set.
    pub fn get(&self, key: &str) -> (values: Option<&Vec<String>>)
        ensures
            match values {
                Some(v) => self@.contains_key(key@) && v.deep_view() == self@[key@],
                None => !self@.contains_key(key@),
            },
    {
        let ghost all = self.entry_views();
        let mut i = self.entries.len();
        assert(all.take(i as int) =~= all);
        while i > 0
            invariant
                i <= self.entries@.len(),
                all == self.entry_views(),
                all.len() == self.entries@.len(),
                entries_map(all).contains_key(key@) == entries_map(all.take(i as int)).contains_key(
                    key@,
                ),
                entries_map(all).contains_key(key@) ==> entries_map(all)[key@] == entries_map(
                    all.take(i as int),
                )[key@],
            decreases i,
        {
            assert(all.take(i as int).drop_last() =~= all.take(i - 1));
            assert(all[i - 1] == entry_view(self.entries@[i - 1]));
            if str_eq(self.entries[i - 1].0.as_str(), key) {
                return Some(&self.entries[i - 1].1);
            }
            i -= 1;
        }
        assert(all.take(0) =~= Seq::<PropertyEntry>::empty());
        None
    }

    /// Whether `key` is set.
    pub fn contains_key(&self, key: &str) -> (present: bool)
        ensures
            present == self@.contains_key(key@),
    {
        self.get(key).is_some()
    }
}

} // verus!
