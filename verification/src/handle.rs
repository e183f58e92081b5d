//! Handles: the identity by which modules, components and actions are told apart.

use crate::text::views;
use vstd::prelude::*;

verus! {

/// Identity of a module, a component type or an extension point.
pub type Handle = u64;

/// Index of the first `x` in `s`, or `s.len()` if there is none.
pub open spec fn position<T>(s: Seq<T>, x: T) -> int
    decreases s.len(),
{
    if s.len() == 0 {
        0
    } else if s[0] == x {
        0
    } else {
        1 + position(s.drop_first(), x)
    }
}

pub proof fn lemma_position<T>(s: Seq<T>, x: T)
    ensures
        0 <= position(s, x) <= s.len(),
        position(s, x) < s.len() ==> s[position(s, x)] == x,
        forall|k: int| 0 <= k < position(s, x) ==> s[k] != x,
        position(s, x) < s.len() <==> s.contains(x),
    decreases s.len(),
{
    if s.len() > 0 && s[0] != x {
        let t = s.drop_first();
        lemma_position(t, x);
        assert forall|k: int| 0 <= k < position(s, x) implies s[k] != x by {
            if k > 0 {
                assert(t[k - 1] == s[k]);
            }
        }
        if position(t, x) < t.len() {
            assert(s[position(t, x) + 1] == x);
        }
        if s.contains(x) {
            let k = choose|k: int| 0 <= k < s.len() && s[k] == x;
            assert(t[k - 1] == x);
        }
    }
}

/// The first index at which `x` stands is its position.
pub proof fn lemma_position_is(s: Seq<Seq<char>>, x: Seq<char>, i: int)
    requires
        0 <= i < s.len(),
        s[i] == x,
        forall|k: int| 0 <= k < i ==> s[k] != x,
    ensures
        position(s, x) == i,
{
    lemma_position(s, x);
}

/// The identities known to a registry after `identity` was asked for.
pub open spec fn enrolled(known: Seq<Seq<char>>, identity: Seq<char>) -> Seq<Seq<char>> {
    if known.contains(identity) {
        known
    } else {
        known.push(identity)
    }
}

/// The handle that a registry with these identities gives to `identity`.
pub open spec fn handle_in(known: Seq<Seq<char>>, identity: Seq<char>) -> int {
    position(enrolled(known, identity), identity)
}

/// Asking twice changes nothing: the second request finds the registry as the
/// first one left it and gets the same handle.
pub proof fn lemma_handle_idempotent(known: Seq<Seq<char>>, identity: Seq<char>)
    ensures
        enrolled(enrolled(known, identity), identity) == enrolled(known, identity),
        handle_in(enrolled(known, identity), identity) == handle_in(known, identity),
{
    let after = enrolled(known, identity);
    if !known.contains(identity) {
        assert(after[known.len() as int] == identity);
    }
    assert(after.contains(identity));
}

/// Two different identities never get the same handle.
pub proof fn lemma_handle_unique(known: Seq<Seq<char>>, a: Seq<char>, b: Seq<char>)
    requires
        a != b,
    ensures
        handle_in(enrolled(known, a), b) != handle_in(enrolled(known, a), a),
{
    let first = enrolled(known, a);
    lemma_handle_idempotent(known, a);
    let second = enrolled(first, b);
    assert(first.contains(a)) by {
        if !known.contains(a) {
            assert(first[known.len() as int] == a);
        }
    }
    assert(second.contains(b)) by {
        if !first.contains(b) {
            assert(second[first.len() as int] == b);
        }
    }
    lemma_position(first, a);
    lemma_position(second, b);
    let i = position(first, a);
    let j = position(second, b);
    if i == j {
        assert(second[i] == first[i]);
    }
}

/// A handle, once given, stays: later requests for other identities leave it alone.
pub proof fn lemma_handle_stable(known: Seq<Seq<char>>, a: Seq<char>, b: Seq<char>)
    requires
        known.contains(a),
    ensures
        handle_in(enrolled(known, b), a) == handle_in(known, a),
{
    let after = enrolled(known, b);
    lemma_position(known, a);
    let i = position(known, a);
    assert(after[i] == a);
    assert(after.contains(a));
    assert forall|k: int| 0 <= k < i implies after[k] != a by {
        assert(after[k] == known[k]);
    }
    lemma_position_is(after, a, i);
    assert(enrolled(known, a) == known);
    assert(enrolled(after, a) == after);
}

/// Gives every identity a handle of its own, the same one at every request.
pub struct HandleRegistry {
    names: Vec<String>,
}

impl View for HandleRegistry {
    type V = Seq<Seq<char>>;

    /// The identities in the order in which they were first asked for.
    closed spec fn view(&self) -> Seq<Seq<char>> {
        views(self.names@)
    }
}

impl HandleRegistry {
    pub fn new() -> (r: Self)
        ensures
            r@ == Seq::<Seq<char>>::empty(),
    {
        let r = HandleRegistry { names: Vec::new() };
        assert(views(r.names@) == Seq::<Seq<char>>::empty());
        r
    }

    /// The handle of `identity`, if it has one already.
    pub fn lookup(&self, identity: &str) -> (h: Option<Handle>)
        ensures
            h is Some <==> self@.contains(identity@),
            h matches Some(x) ==> x == position(self@, identity@),
    {
        let mut i: usize = 0;
        while i < self.names.len()
            invariant
                i <= self.names@.len(),
                forall|k: int| 0 <= k < i ==> self@[k] != identity@,
            decreases self.names@.len() - i,
        {
            if self.names[i].as_str().to_owned() == identity.to_owned() {
                proof {
                    assert(self@[i as int] == identity@);
                    lemma_position_is(self@, identity@, i as int);
                }
                return Some(i as u64);
            }
            i = i + 1;
        }
        None
    }

    /// The handle of `identity`: the one it has, or a new one that nothing else has.
    pub fn handle_of(&mut self, identity: &str) -> (h: Handle)
        ensures
            final(self)@ == enrolled(old(self)@, identity@),
            h == handle_in(old(self)@, identity@),
            0 <= h < final(self)@.len(),
            final(self)@[h as int] == identity@,
    {
        match self.lookup(identity) {
            Some(h) => {
                proof {
                    lemma_position(self@, identity@);
                }
                h
            },
            None => {
                let h: usize = self.names.len();
                let name = identity.to_owned();
                proof {
                    crate::text::lemma_views_push(self.names@, name);
                    let after = self@.push(identity@);
                    assert(after[h as int] == identity@);
                    lemma_position_is(after, identity@, h as int);
                }
                self.names.push(name);
                h as u64
            },
        }
    }

    /// The identity that `h` stands for.
    pub fn identity(&self, h: Handle) -> (name: Option<String>)
        ensures
            name is Some <==> h < self@.len(),
            name matches Some(s) ==> s@ == self@[h as int],
    {
        if h < self.names.len() as u64 {
            Some(self.names[h as usize].clone())
        } else {
            None
        }
    }

    pub fn len(&self) -> (n: usize)
        ensures
            n == self@.len(),
    {
        self.names.len()
    }
}

} // verus!
