//! The labelled values handed to a node kind when it resolves: a list of
//! `(label, value)` pairs looked up by label, replacing a hash map so that
//! lookup itself is verified.

use vstd::prelude::*;

verus! {

/// The value the first entry labelled `label` holds, if any.
pub open spec fn lookup_value<T>(entries: Seq<(Seq<char>, T)>, label: Seq<char>) -> Option<T>
    decreases entries.len(),
{
    if entries.len() == 0 {
        None
    } else if entries[0].0 == label {
        Some(entries[0].1)
    } else {
        lookup_value(entries.skip(1), label)
    }
}

/// `lookup_value` with a fallback for a missing label.
pub open spec fn lookup_or<T>(entries: Seq<(Seq<char>, T)>, label: Seq<char>, default: T) -> T {
    match lookup_value(entries, label) {
        Some(v) => v,
        None => default,
    }
}

/// The view of an `Option<&str>` argument as an optional character sequence.
pub open spec fn view_opt_str(s: Option<&str>) -> Option<Seq<char>> {
    match s {
        Some(s) => Some(s@),
        None => None,
    }
}

/// Character-for-character string equality, decided without assuming
/// anything about either string.
pub fn str_eq(a: &str, b: &str) -> (r: bool)
    ensures
        r == (a@ == b@),
{
    let la = a.unicode_len();
    let lb = b.unicode_len();
    if la != lb {
        return false;
    }
    let mut i: usize = 0;
    while i < la
        invariant
            i <= la,
            la == a@.len(),
            la == b@.len(),
            forall|j: int| 0 <= j < i ==> a@[j] == b@[j],
        decreases la - i,
    {
        if a.get_char(i) != b.get_char(i) {
            return false;
        }
        i += 1;
    }
    proof {
        assert(a@ =~= b@);
    }
    true
}

/// The named inputs a node kind resolves from: one entry per input slot of
/// the node, in slot order. Labels are expected to be distinct within one
/// node; when they are not, lookup takes the first match.
pub struct InputValues<T> {
    pub entries: Vec<(String, T)>,
}

impl<T> View for InputValues<T> {
    type V = Seq<(Seq<char>, T)>;

    open spec fn view(&self) -> Seq<(Seq<char>, T)> {
        self.entries@.map_values(|p: (String, T)| (p.0@, p.1))
    }
}

impl<T> InputValues<T> {
    pub fn new() -> (r: InputValues<T>)
        ensures
            r@ =~= Seq::<(Seq<char>, T)>::empty(),
    {
        InputValues { entries: Vec::new() }
    }

    /// Append one labelled value.
    pub fn push(&mut self, label: String, value: T)
        ensures
            final(self)@ =~= old(self)@.push((label@, value)),
    {
        self.entries.push((label, value));
    }

    /// Borrow the value stored under `label`, if any.
    pub fn get(&self, label: &str) -> (r: Option<&T>)
        ensures
            match r {
                Some(v) => lookup_value(self@, label@) == Some(*v),
                None => lookup_value(self@, label@) is None,
            },
    {
        let n = self.entries.len();
        let mut i: usize = 0;
        proof {
            assert(self@.skip(0) =~= self@);
        }
        while i < n
            invariant
                i <= n,
                n == self.entries@.len(),
                self@.len() == self.entries@.len(),
                forall|j: int| 0 <= j < self@.len() ==> self@[j].0 == self.entries@[j].0@
                    && self@[j].1 == self.entries@[j].1,
                lookup_value(self@, label@) == lookup_value(self@.skip(i as int), label@),
            decreases n - i,
        {
            if str_eq(self.entries[i].0.as_str(), label) {
                proof {
                    assert(self@.skip(i as int)[0] == self@[i as int]);
                }
                return Some(&self.entries[i].1);
            }
            proof {
                assert(self@.skip(i as int)[0] == self@[i as int]);
                assert(self@.skip(i as int).skip(1) =~= self@.skip(i + 1));
            }
            i += 1;
        }
        proof {
            assert(self@.skip(i as int).len() == 0);
        }
        None
    }

    /// How many entries there are.
    pub fn len(&self) -> (n: usize)
        ensures
            n == self@.len(),
    {
        self.entries.len()
    }
}

impl<T: Copy> InputValues<T> {
    /// The value stored under `label`, or `default` when the label is absent.
    pub fn get_or(&self, label: &str, default: T) -> (r: T)
        ensures
            r == lookup_or(self@, label@, default),
    {
        match self.get(label) {
            Some(v) => *v,
            None => default,
        }
    }
}

} // verus!
