//! Sets of tag names, and what they select.

use crate::text::{same_text, split, split_text};
use vstd::prelude::*;
use vstd::string::*;

verus! {

/// `tags` with `name` among them: added at the end where it is new.
pub open spec fn with_tag(tags: Seq<Seq<char>>, name: Seq<char>) -> Seq<Seq<char>> {
    if tags.contains(name) {
        tags
    } else {
        tags.push(name)
    }
}

/// A set of tag names, in the order in which they came. No name occurs twice.
#[derive(Debug)]
pub struct TagSet {
    names: Vec<String>,
}

impl View for TagSet {
    type V = Seq<Seq<char>>;

    closed spec fn view(&self) -> Seq<Seq<char>> {
        self.names.deep_view()
    }
}

impl TagSet {
    #[verifier::type_invariant]
    spec fn well_formed(self) -> bool {
        self@.no_duplicates()
    }

    /// The empty set.
    pub fn new() -> (r: TagSet)
        ensures
            r@ == Seq::<Seq<char>>::empty(),
    {
        let names: Vec<String> = Vec::new();
        assert(names.deep_view() =~= Seq::<Seq<char>>::empty());
        TagSet { names }
    }

    /// The number of names.
    pub fn len(&self) -> (r: usize)
        ensures
            r == self@.len(),
    {
        self.names.len()
    }

    /// Whether the set holds no name.
    pub fn is_empty(&self) -> (r: bool)
        ensures
            r == (self@.len() == 0),
    {
        self.names.len() == 0
    }

    /// The names, in the order in which they came.
    pub fn names(&self) -> (r: &Vec<String>)
        ensures
            r.deep_view() == self@,
            self@.no_duplicates(),
    {
        proof {
            use_type_invariant(self);
        }
        &self.names
    }

    /// Whether `name` is in the set.
    pub fn contains(&self, name: &str) -> (r: bool)
        ensures
            r == self@.contains(name@),
    {
        has_name(&self.names, name)
    }

    /// Puts `name` into the set. Returns whether it was new.
    pub fn insert(&mut self, name: String) -> (added: bool)
        ensures
            final(self)@ == with_tag(old(self)@, name@),
            added == !old(self)@.contains(name@),
    {
        proof {
            use_type_invariant(&*self);
        }
        if self.contains(name.as_str()) {
            false
        } else {
            let ghost before = self.names.deep_view();
            let mut names: Vec<String> = Vec::new();
            assert(names.deep_view() =~= Seq::<Seq<char>>::empty());
            core::mem::swap(&mut self.names, &mut names);
            names.push(name);
            assert(names.deep_view() =~= before.push(name@));
            self.names = names;
            true
        }
    }

    /// The same set once more.
    pub fn copy(&self) -> (r: TagSet)
        ensures
            r@ == self@,
    {
        proof {
            use_type_invariant(self);
        }
        let n: usize = self.names.len();
        let mut names: Vec<String> = Vec::new();
        let mut i: usize = 0;
        while i < n
            invariant
                n == self.names.len(),
                i <= n,
                names.len() == i,
                forall|j: int| 0 <= j < i ==> names@[j]@ == self.names@[j]@,
            decreases n - i,
        {
            names.push(self.names[i].clone());
            i = i + 1;
        }
        assert(names.deep_view() =~= self.names.deep_view());
        TagSet { names }
    }
}

impl Clone for TagSet {
    fn clone(&self) -> (r: Self)
        ensures
            r@ == self@,
    {
        self.copy()
    }
}

/// The names of `a` that are not among `b`, each once, in the order in which
/// they come first.
pub open spec fn difference(a: Seq<Seq<char>>, b: Seq<Seq<char>>) -> Seq<Seq<char>>
    decreases a.len(),
{
    if a.len() == 0 {
        Seq::empty()
    } else if b.contains(a.last()) {
        difference(a.drop_last(), b)
    } else {
        with_tag(difference(a.drop_last(), b), a.last())
    }
}

/// The difference holds the names that are in the one list and not in the
/// other, and no name twice.
pub proof fn lemma_difference(a: Seq<Seq<char>>, b: Seq<Seq<char>>)
    ensures
        difference(a, b).no_duplicates(),
        forall|name: Seq<char>|
            difference(a, b).contains(name) <==> (a.contains(name) && !b.contains(name)),
    decreases a.len(),
{
    if a.len() > 0 {
        let front = a.drop_last();
        let last = a.last();
        let d = difference(front, b);
        lemma_difference(front, b);
        assert forall|name: Seq<char>| a.contains(name) <==> (front.contains(name) || name
            == last) by {
            if front.contains(name) {
                let k = choose|k: int| 0 <= k < front.len() && front[k] == name;
                assert(a[k] == name);
            }
            if name == last {
                assert(a[a.len() - 1] == name);
            }
            if a.contains(name) {
                let k = choose|k: int| 0 <= k < a.len() && a[k] == name;
                if k < a.len() - 1 {
                    assert(front[k] == name);
                }
            }
        }
        if !b.contains(last) && !d.contains(last) {
            let e = d.push(last);
            assert forall|name: Seq<char>| e.contains(name) <==> (d.contains(name) || name
                == last) by {
                if d.contains(name) {
                    let k = choose|k: int| 0 <= k < d.len() && d[k] == name;
                    assert(e[k] == name);
                }
                if name == last {
                    assert(e[d.len() as int] == name);
                }
                if e.contains(name) {
                    let k = choose|k: int| 0 <= k < e.len() && e[k] == name;
                    if k < d.len() {
                        assert(d[k] == name);
                    }
                }
            }
        }
    }
}

/// Whether `name` is one of `names`.
pub fn has_name(names: &Vec<String>, name: &str) -> (r: bool)
    ensures
        r == names.deep_view().contains(name@),
{
    let n: usize = names.len();
    let ghost all = names.deep_view();
    let mut i: usize = 0;
    while i < n
        invariant
            n == names.len(),
            all == names.deep_view(),
            i <= n,
            forall|j: int| 0 <= j < i ==> all[j] != name@,
        decreases n - i,
    {
        assert(all[i as int] == names@[i as int]@);
        if same_text(names[i].as_str(), name) {
            return true;
        }
        i = i + 1;
    }
    false
}

/// The tags of the list `s1` that are not in the list `s2`. A list names its
/// tags with a comma and a space between each two.
pub fn tags_diff(s1: &str, s2: &str) -> (r: TagSet)
    ensures
        r@ == difference(split(s1@, ", "@), split(s2@, ", "@)),
{
    proof {
        reveal_strlit(", ");
    }
    let a: Vec<String> = split_text(s1, ", ");
    let b: Vec<String> = split_text(s2, ", ");
    let ghost names = a.deep_view();
    let mut r: TagSet = TagSet::new();
    let n: usize = a.len();
    let mut i: usize = 0;
    assert(names.take(0) =~= Seq::<Seq<char>>::empty());
    while i < n
        invariant
            n == a.len(),
            names == a.deep_view(),
            i <= n,
            r@ == difference(names.take(i as int), b.deep_view()),
        decreases n - i,
    {
        assert(names.take(i + 1).drop_last() =~= names.take(i as int));
        assert(names.take(i + 1).last() == a@[i as int]@);
        if !has_name(&b, a[i].as_str()) {
            let _ = r.insert(a[i].clone());
        }
        i = i + 1;
    }
    assert(names.take(n as int) =~= names);
    r
}

} // verus!
