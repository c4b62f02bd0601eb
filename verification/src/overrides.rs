//! The override map: values that the caller supplies by variable name.
use vstd::prelude::*;

verus! {

/// The map that a sequence of insertions builds; a later entry replaces an
/// earlier one of the same key.
pub open spec fn entries_map(s: Seq<(String, String)>) -> Map<Seq<char>, Seq<char>>
    decreases s.len(),
{
    if s.len() == 0 {
        Map::empty()
    } else {
        entries_map(s.drop_last()).insert(s.last().0@, s.last().1@)
    }
}

/// Values by variable name. Each name occurs at most once in the map.
#[derive(Debug, Clone, PartialEq, Eq)]
pub struct OverrideMap {
    entries: Vec<(String, String)>,
}

impl View for OverrideMap {
    type V = Map<Seq<char>, Seq<char>>;

    closed spec fn view(&self) -> Map<Seq<char>, Seq<char>> {
        entries_map(self.entries@)
    }
}

impl OverrideMap {
    /// A map without values.
    pub fn new() -> (r: OverrideMap)
        ensures
            r@ == Map::<Seq<char>, Seq<char>>::empty(),
    {
        OverrideMap { entries: Vec::new() }
    }

    /// Sets the value of `key`, replacing an earlier one.
    pub fn insert(&mut self, key: String, value: String)
        ensures
            final(self)@ == old(self)@.insert(key@, value@),
    {
        self.entries.push((key, value));
        assert(self.entries@.drop_last() =~= old(self).entries@);
    }

    /// Whether no value is held.
    pub fn is_empty(&self) -> (r: bool)
        ensures
            r == (self@ == Map::<Seq<char>, Seq<char>>::empty()),
    {
        let r: bool = self.entries.len() == 0;
        proof {
            if !r {
                assert(self@.contains_key(self.entries@.last().0@));
            }
        }
        r
    }

    /// The value held for `key`.
    pub fn get(&self, key: &str) -> (r: Option<String>)
        ensures
            match r {
                Some(v) => self@.contains_key(key@) && self@[key@] == v@,
                None => !self@.contains_key(key@),
            },
    {
        let wanted: String = key.to_owned();
        let mut i: usize = self.entries.len();
        assert(self.entries@.take(i as int) =~= self.entries@);
        while i > 0
            invariant
                i <= self.entries.len(),
                wanted@ == key@,
                self@.contains_key(key@) == entries_map(self.entries@.take(i as int)).contains_key(
                    key@,
                ),
                self@.contains_key(key@) ==> self@[key@] == entries_map(
                    self.entries@.take(i as int),
                )[key@],
            decreases i,
        {
            assert(self.entries@.take(i as int).drop_last() =~= self.entries@.take(i - 1));
            if self.entries[i - 1].0 == wanted {
                return Some(self.entries[i - 1].1.clone());
            }
            i = i - 1;
        }
        None
    }
}

} // verus!
