//! A track: its display name and its tag fields.
use vstd::prelude::*;

verus! {

/// What a track is, mathematically: a display name and a map from tag key to value.
pub struct TrackView {
    pub name: Seq<char>,
    pub tags: Map<Seq<char>, Seq<char>>,
}

/// One audio item as the player reports it.
pub struct Track {
    name: String,
    tags: Vec<(String, String)>,
}

/// The map that a list of key/value pairs with unique keys stands for.
pub closed spec fn pairs_map(s: Seq<(String, String)>) -> Map<Seq<char>, Seq<char>> {
    Map::new(
        |k: Seq<char>| exists|i: int| 0 <= i < s.len() && #[trigger] s[i].0@ == k,
        |k: Seq<char>| s[choose|i: int| 0 <= i < s.len() && #[trigger] s[i].0@ == k].1@,
    )
}

pub closed spec fn keys_unique(s: Seq<(String, String)>) -> bool {
    forall|i: int, j: int|
        0 <= i < s.len() && 0 <= j < s.len() && i != j ==> #[trigger] s[i].0@ != #[trigger] s[j].0@
}

proof fn lemma_pairs_map_at(s: Seq<(String, String)>, i: int)
    requires
        keys_unique(s),
        0 <= i < s.len(),
    ensures
        pairs_map(s).contains_key(s[i].0@),
        pairs_map(s)[s[i].0@] == s[i].1@,
{
    let k = s[i].0@;
    assert(s[i].0@ == k);
    let j = choose|j: int| 0 <= j < s.len() && #[trigger] s[j].0@ == k;
    assert(j == i);
}

impl View for Track {
    type V = TrackView;

    closed spec fn view(&self) -> TrackView {
        TrackView { name: self.name@, tags: pairs_map(self.tags@) }
    }
}

impl Track {
    /// Well-formed: no tag key occurs twice.
    pub closed spec fn wf(&self) -> bool {
        keys_unique(self.tags@)
    }

    /// A track with the given display name and no tags.
    pub fn new(name: String) -> (r: Track)
        ensures
            r.wf(),
            r@.name == name@,
            r@.tags == Map::<Seq<char>, Seq<char>>::empty(),
    {
        let r = Track { name, tags: Vec::new() };
        assert(r@.tags =~= Map::<Seq<char>, Seq<char>>::empty());
        r
    }

    /// The display name.
    pub fn get_name(&self) -> (r: &str)
        ensures
            r@ == self@.name,
    {
        self.name.as_str()
    }

    /// The value of the tag `key`, if the track has it.
    pub fn get(&self, key: &String) -> (r: Option<&String>)
        requires
            self.wf(),
        ensures
            match r {
                Some(v) => self@.tags.contains_key(key@) && self@.tags[key@] == v@,
                None => !self@.tags.contains_key(key@),
            },
    {
        let mut i: usize = 0;
        while i < self.tags.len()
            invariant
                i <= self.tags@.len(),
                keys_unique(self.tags@),
                forall|j: int| 0 <= j < i ==> self.tags@[j].0@ != key@,
            decreases self.tags.len() - i,
        {
            if self.tags[i].0 == *key {
                proof {
                    lemma_pairs_map_at(self.tags@, i as int);
                }
                return Some(&self.tags[i].1);
            }
            i = i + 1;
        }
        None
    }

    /// Sets the tag `key` to `value`, replacing any earlier value.
    pub fn set_tag(&mut self, key: String, value: String)
        requires
            old(self).wf(),
        ensures
            final(self).wf(),
            final(self)@.name == old(self)@.name,
            final(self)@.tags == old(self)@.tags.insert(key@, value@),
    {
        let ghost old_tags = self.tags@;
        let mut i: usize = 0;
        while i < self.tags.len()
            invariant
                i <= self.tags@.len(),
                self.tags@ == old_tags,
                old_tags == old(self).tags@,
                self.name == old(self).name,
                keys_unique(old_tags),
                forall|j: int| 0 <= j < i ==> old_tags[j].0@ != key@,
            decreases self.tags.len() - i,
        {
            if self.tags[i].0 == key {
                let ghost k = key@;
                let ghost v = value@;
                self.tags[i] = (key, value);
                proof {
                    let s = self.tags@;
                    assert forall|a: int, b: int|
                        0 <= a < s.len() && 0 <= b < s.len() && a != b implies #[trigger] s[a].0@
                        != #[trigger] s[b].0@ by {
                        if a != i && b != i {
                            assert(s[a] == old_tags[a] && s[b] == old_tags[b]);
                        } else if a == i {
                            assert(s[b] == old_tags[b]);
                        } else {
                            assert(s[a] == old_tags[a]);
                        }
                    }
                    assert forall|x: int| 0 <= x < s.len() implies #[trigger] pairs_map(s).contains_key(s[x].0@)
                        && pairs_map(s)[s[x].0@] == s[x].1@ by {
                        lemma_pairs_map_at(s, x);
                    }
                    assert forall|x: int| 0 <= x < old_tags.len() implies #[trigger] pairs_map(old_tags).contains_key(old_tags[x].0@)
                        && pairs_map(old_tags)[old_tags[x].0@] == old_tags[x].1@ by {
                        lemma_pairs_map_at(old_tags, x);
                    }
                    assert(pairs_map(s) =~= pairs_map(old_tags).insert(k, v)) by {
                        assert forall|q: Seq<char>| pairs_map(s).contains_key(q)
                            <==> #[trigger] pairs_map(old_tags).insert(k, v).contains_key(q) by {
                            if pairs_map(s).contains_key(q) {
                                let x = choose|x: int| 0 <= x < s.len() && #[trigger] s[x].0@ == q;
                                if x != i {
                                    assert(old_tags[x].0@ == q);
                                }
                            }
                            if pairs_map(old_tags).contains_key(q) {
                                let x = choose|x: int| 0 <= x < old_tags.len() && #[trigger] old_tags[x].0@ == q;
                                if x != i {
                                    assert(s[x].0@ == q);
                                }
                            }
                            assert(s[i as int].0@ == k);
                        }
                        assert forall|q: Seq<char>| #[trigger] pairs_map(s).contains_key(q)
                            implies pairs_map(s)[q] == pairs_map(old_tags).insert(k, v)[q] by {
                            let x = choose|x: int| 0 <= x < s.len() && #[trigger] s[x].0@ == q;
                            if x != i {
                                assert(s[x] == old_tags[x]);
                            }
                        }
                    }
                }
                return;
            }
            i = i + 1;
        }
        let ghost k = key@;
        let ghost v = value@;
        self.tags.push((key, value));
        proof {
            let s = self.tags@;
            assert(s.len() == old_tags.len() + 1);
            assert forall|a: int, b: int|
                0 <= a < s.len() && 0 <= b < s.len() && a != b implies #[trigger] s[a].0@
                != #[trigger] s[b].0@ by {
                if a < old_tags.len() && b < old_tags.len() {
                    assert(s[a] == old_tags[a] && s[b] == old_tags[b]);
                } else if a < old_tags.len() {
                    assert(s[a] == old_tags[a]);
                } else {
                    assert(s[b] == old_tags[b]);
                }
            }
            assert forall|x: int| 0 <= x < s.len() implies #[trigger] pairs_map(s).contains_key(s[x].0@)
                && pairs_map(s)[s[x].0@] == s[x].1@ by {
                lemma_pairs_map_at(s, x);
            }
            assert forall|x: int| 0 <= x < old_tags.len() implies #[trigger] pairs_map(old_tags).contains_key(old_tags[x].0@)
                && pairs_map(old_tags)[old_tags[x].0@] == old_tags[x].1@ by {
                lemma_pairs_map_at(old_tags, x);
            }
            assert(pairs_map(s) =~= pairs_map(old_tags).insert(k, v)) by {
                assert forall|q: Seq<char>| pairs_map(s).contains_key(q)
                    <==> #[trigger] pairs_map(old_tags).insert(k, v).contains_key(q) by {
                    if pairs_map(s).contains_key(q) {
                        let x = choose|x: int| 0 <= x < s.len() && #[trigger] s[x].0@ == q;
                        if x < old_tags.len() {
                            assert(s[x] == old_tags[x]);
                        }
                    }
                    if pairs_map(old_tags).contains_key(q) {
                        let x = choose|x: int| 0 <= x < old_tags.len() && #[trigger] old_tags[x].0@ == q;
                        assert(s[x] == old_tags[x]);
                    }
                    assert(s[old_tags.len() as int].0@ == k);
                }
                assert forall|q: Seq<char>| #[trigger] pairs_map(s).contains_key(q)
                    implies pairs_map(s)[q] == pairs_map(old_tags).insert(k, v)[q] by {
                    let x = choose|x: int| 0 <= x < s.len() && #[trigger] s[x].0@ == q;
                    if x < old_tags.len() {
                        assert(s[x] == old_tags[x]);
                    }
                }
            }
        }
    }
}

} // verus!
