//! The header map of a request or a response.

use crate::text::str_eq;
use vstd::prelude::*;

verus! {

/// One header as a contract sees it: its name and its value.
pub type Field = (Seq<char>, Seq<char>);

/// Whether no name occurs twice in `s`.
pub open spec fn distinct(s: Seq<Field>) -> bool {
    forall|i: int, j: int| 0 <= i < j < s.len() ==> (#[trigger] s[i]).0 != (#[trigger] s[j]).0
}

/// Whether `s` holds a header called `name`. Names are matched as given:
/// `Host` and `host` are two names.
pub open spec fn is_set(s: Seq<Field>, name: Seq<char>) -> bool {
    exists|i: int| 0 <= i < s.len() && (#[trigger] s[i]).0 == name
}

/// Where `s` holds the header called `name`, if it holds one.
pub open spec fn position(s: Seq<Field>, name: Seq<char>) -> int {
    choose|i: int| 0 <= i < s.len() && (#[trigger] s[i]).0 == name
}

/// The value that `s` gives to `name`.
pub open spec fn lookup(s: Seq<Field>, name: Seq<char>) -> Option<Seq<char>> {
    if is_set(s, name) {
        Some(s[position(s, name)].1)
    } else {
        None
    }
}

/// `s` after `name` was given `value`: a known name keeps its place and
/// takes the new value, a new name goes to the end.
pub open spec fn put(s: Seq<Field>, name: Seq<char>, value: Seq<char>) -> Seq<Field> {
    if is_set(s, name) {
        s.update(position(s, name), (name, value))
    } else {
        s.push((name, value))
    }
}

/// `s` without the header called `name`; the others keep their order.
pub open spec fn discard(s: Seq<Field>, name: Seq<char>) -> Seq<Field> {
    if is_set(s, name) {
        s.remove(position(s, name))
    } else {
        s
    }
}

/// In a map without repeated names, a name found at `i` is found nowhere else.
pub proof fn lemma_position_is(s: Seq<Field>, name: Seq<char>, i: int)
    requires
        distinct(s),
        0 <= i < s.len(),
        s[i].0 == name,
    ensures
        is_set(s, name),
        position(s, name) == i,
        lookup(s, name) == Some(s[i].1),
{
    let p = position(s, name);
    if p < i {
        assert(s[p].0 != s[i].0);
    } else if i < p {
        assert(s[i].0 != s[p].0);
    }
}

/// Giving a name a value keeps the names distinct, makes that value the one
/// found under the name, and changes the value of no other name.
pub proof fn lemma_put(s: Seq<Field>, name: Seq<char>, value: Seq<char>, other: Seq<char>)
    requires
        distinct(s),
    ensures
        distinct(put(s, name, value)),
        lookup(put(s, name, value), name) == Some(value),
        other != name ==> lookup(put(s, name, value), other) == lookup(s, other),
        is_set(put(s, name, value), other) == (other == name || is_set(s, other)),
{
    let t = put(s, name, value);
    let at = if is_set(s, name) {
        position(s, name)
    } else {
        s.len() as int
    };
    assert(t.len() > at >= 0 && t[at] == (name, value));
    assert forall|i: int| 0 <= i < t.len() && i != at implies t[i] == s[i] && s[i].0 != name by {
        if is_set(s, name) {
            lemma_position_is(s, name, at);
            if i < at {
                assert(s[i].0 != s[at].0);
            } else {
                assert(s[at].0 != s[i].0);
            }
        }
    }
    assert(distinct(t)) by {
        assert forall|i: int, j: int| 0 <= i < j < t.len() implies (#[trigger] t[i]).0
            != (#[trigger] t[j]).0 by {
            if i != at && j != at {
                assert(s[i].0 != s[j].0);
            }
        }
    }
    lemma_position_is(t, name, at);
    if other != name {
        if is_set(s, other) {
            let p = position(s, other);
            assert(p != at);
            assert(t[p] == s[p]);
            lemma_position_is(t, other, p);
        } else if is_set(t, other) {
            let p = position(t, other);
            assert(p != at);
            assert(s[p].0 == other);
        }
    }
}

/// Giving a name the value that it has changes nothing.
pub proof fn lemma_put_same(s: Seq<Field>, name: Seq<char>, value: Seq<char>)
    requires
        lookup(s, name) == Some(value),
    ensures
        put(s, name, value) == s,
{
    let at = position(s, name);
    assert(s[at] == (name, value));
    assert(put(s, name, value) =~= s);
}

/// Removing a name keeps the names distinct, leaves nothing under that name,
/// and changes the value of no other name.
pub proof fn lemma_discard(s: Seq<Field>, name: Seq<char>, other: Seq<char>)
    requires
        distinct(s),
    ensures
        distinct(discard(s, name)),
        !is_set(discard(s, name), name),
        other != name ==> lookup(discard(s, name), other) == lookup(s, other),
{
    let t = discard(s, name);
    if is_set(s, name) {
        let at = position(s, name);
        lemma_position_is(s, name, at);
        assert(distinct(t)) by {
            assert forall|i: int, j: int| 0 <= i < j < t.len() implies (#[trigger] t[i]).0
                != (#[trigger] t[j]).0 by {
                let si = if i < at {
                    i
                } else {
                    i + 1
                };
                let sj = if j < at {
                    j
                } else {
                    j + 1
                };
                assert(s[si].0 != s[sj].0);
            }
        }
        if is_set(t, name) {
            let p = position(t, name);
            let sp = if p < at {
                p
            } else {
                p + 1
            };
            assert(t[p] == s[sp]);
            if sp < at {
                assert(s[sp].0 != s[at].0);
            } else {
                assert(s[at].0 != s[sp].0);
            }
        }
        if other != name {
            if is_set(s, other) {
                let p = position(s, other);
                assert(p != at);
                let tp = if p < at {
                    p
                } else {
                    p - 1
                };
                assert(t[tp] == s[p]);
                lemma_position_is(t, other, tp);
            } else if is_set(t, other) {
                let p = position(t, other);
                let sp = if p < at {
                    p
                } else {
                    p + 1
                };
                assert(t[p] == s[sp]);
                assert(s[sp].0 == other);
            }
        }
    }
}

/// What stored headers are to a contract.
spec fn listing(entries: Seq<(String, String)>) -> Seq<Field> {
    Seq::new(entries.len(), |i: int| (entries[i].0@, entries[i].1@))
}

/// A map from header names to values.
///
/// A name occurs once; writing it again replaces its value. The headers are
/// kept, and handed out, in the order in which their names first came.
#[derive(Debug)]
pub struct Headers {
    entries: Vec<(String, String)>,
}

impl View for Headers {
    type V = Seq<Field>;

    closed spec fn view(&self) -> Seq<Field> {
        listing(self.entries@)
    }
}

impl Headers {
    /// What holds of every header map: no name occurs twice.
    #[verifier::type_invariant]
    pub open spec fn well_formed(self) -> bool {
        distinct(self@)
    }

    /// An empty map.
    pub fn new() -> (r: Self)
        ensures
            r@ == Seq::<Field>::empty(),
    {
        let r = Headers { entries: Vec::new() };
        assert(r@ =~= Seq::<Field>::empty());
        r
    }

    /// The number of headers.
    pub fn len(&self) -> (r: usize)
        ensures
            r == self@.len(),
    {
        self.entries.len()
    }

    /// Whether the map holds no header.
    pub fn is_empty(&self) -> (r: bool)
        ensures
            r == (self@.len() == 0),
    {
        self.entries.len() == 0
    }

    /// Moves the stored headers out, leaving the map empty.
    fn take_entries(&mut self) -> (r: Vec<(String, String)>)
        ensures
            listing(r@) == old(self)@,
            final(self)@ == Seq::<Field>::empty(),
    {
        let mut entries: Vec<(String, String)> = Vec::new();
        assert(listing(entries@) =~= Seq::<Field>::empty());
        std::mem::swap(&mut self.entries, &mut entries);
        entries
    }

    /// The place of `name`, or the number of headers if it is not there.
    fn find(&self, name: &str) -> (r: usize)
        ensures
            r <= self@.len(),
            r < self@.len() ==> self@[r as int].0 == name@,
            r < self@.len() <==> is_set(self@, name@),
            r < self@.len() ==> position(self@, name@) == r,
    {
        let mut i: usize = 0;
        while i < self.entries.len()
            invariant
                i <= self.entries@.len(),
                self@.len() == self.entries@.len(),
                forall|j: int| 0 <= j < i ==> (#[trigger] self@[j]).0 != name@,
            decreases self.entries@.len() - i,
        {
            if str_eq(self.entries[i].0.as_str(), name) {
                proof {
                    use_type_invariant(self);
                    lemma_position_is(self@, name@, i as int);
                }
                return i;
            }
            i = i + 1;
        }
        i
    }

    /// Whether a header called `name` is set.
    pub fn contains_key(&self, name: &str) -> (r: bool)
        ensures
            r == is_set(self@, name@),
    {
        self.find(name) < self.entries.len()
    }

    /// The value of the header called `name`.
    pub fn get(&self, name: &str) -> (r: Option<&String>)
        ensures
            match r {
                Some(value) => lookup(self@, name@) == Some(value@),
                None => lookup(self@, name@) is None,
            },
    {
        let at = self.find(name);
        if at < self.entries.len() {
            Some(&self.entries[at].1)
        } else {
            None
        }
    }

    /// The name and the value of the header at `index`, in the map's order.
    pub fn entry(&self, index: usize) -> (r: (&String, &String))
        requires
            index < self@.len(),
        ensures
            r.0@ == self@[index as int].0,
            r.1@ == self@[index as int].1,
    {
        (&self.entries[index].0, &self.entries[index].1)
    }

    /// Gives `name` the value `value`, in place of any value it had.
    pub fn insert(&mut self, name: String, value: String)
        ensures
            final(self)@ == put(old(self)@, name@, value@),
    {
        proof {
            use_type_invariant(&*self);
            lemma_put(self@, name@, value@, name@);
        }
        let at = self.find(name.as_str());
        let mut entries = self.take_entries();
        if at < entries.len() {
            entries.set(at, (name, value));
        } else {
            entries.push((name, value));
        }
        assert(listing(entries@) =~= put(old(self)@, name@, value@));
        self.entries = entries;
    }

    /// Removes the header called `name`, if there is one.
    pub fn remove(&mut self, name: &str)
        ensures
            final(self)@ == discard(old(self)@, name@),
    {
        proof {
            use_type_invariant(&*self);
            lemma_discard(self@, name@, name@);
        }
        let at = self.find(name);
        let mut entries = self.take_entries();
        if at < entries.len() {
            entries.remove(at);
        }
        assert(listing(entries@) =~= discard(old(self)@, name@));
        self.entries = entries;
    }

    /// Removes every header.
    pub fn clear(&mut self)
        ensures
            final(self)@ == Seq::<Field>::empty(),
    {
        self.entries = Vec::new();
        assert(self@ =~= Seq::<Field>::empty());
    }
}

} // verus!
