//! The action registry: the mutable name-to-handler mapping the dispatch
//! loop consults once per inbound action.
//!
//! Handlers are whatever capability type the embedding program dispatches
//! on; the registry stores them by name. Registration is an unconditional
//! upsert: a later registration under the same name replaces the earlier
//! one. There is no removal.

use vstd::prelude::*;

verus! {

/// First-match lookup over the underlying entry list.
pub open spec fn al_lookup<H>(s: Seq<(String, H)>, name: Seq<char>) -> Option<H>
    decreases s.len(),
{
    if s.len() == 0 {
        None
    } else if s[0].0@ == name {
        Some(s[0].1)
    } else {
        al_lookup(s.drop_first(), name)
    }
}

/// Removing an entry leaves lookups of every other name unchanged.
proof fn lemma_al_remove_other<H>(s: Seq<(String, H)>, i: int, name: Seq<char>)
    requires
        0 <= i < s.len(),
        s[i].0@ != name,
    ensures
        al_lookup(s.remove(i), name) == al_lookup(s, name),
    decreases s.len(),
{
    if i == 0 {
        assert(s.remove(0) =~= s.drop_first());
    } else {
        assert(s.remove(i).drop_first() =~= s.drop_first().remove(i - 1));
        lemma_al_remove_other(s.drop_first(), i - 1, name);
    }
}

/// A mapping from action name to handler.
pub struct HandlerRegistry<H> {
    entries: Vec<(String, H)>,
}

impl<H> View for HandlerRegistry<H> {
    type V = Map<Seq<char>, H>;

    closed spec fn view(&self) -> Map<Seq<char>, H> {
        Map::new(
            |name: Seq<char>| al_lookup(self.entries@, name) is Some,
            |name: Seq<char>| al_lookup(self.entries@, name)->0,
        )
    }
}

impl<H> HandlerRegistry<H> {
    /// An empty registry: no name has a handler.
    pub fn new() -> (r: Self)
        ensures
            r@ == Map::<Seq<char>, H>::empty(),
    {
        let r = HandlerRegistry { entries: Vec::new() };
        proof {
            assert(r@ =~= Map::<Seq<char>, H>::empty());
        }
        r
    }

    /// Registers `handler` under `name`: an upsert, never an error. A
    /// handler previously registered under the same name is replaced
    /// silently; every other name keeps its handler.
    pub fn register(&mut self, name: String, handler: H)
        ensures
            final(self)@ == old(self)@.insert(name@, handler),
    {
        let ghost s0 = self.entries@;
        let mut i: usize = 0;
        let mut found = false;
        while i < self.entries.len() && !found
            invariant
                i <= self.entries@.len(),
                !found ==> self.entries@ == s0,
                found ==> i < s0.len() && self.entries@ == s0.remove(i as int) && s0[i as int].0@
                    == name@,
            decreases self.entries@.len() - i + (if found { 0int } else { 1int }),
    {
            if self.entries[i].0 == name {
                self.entries.remove(i);
                found = true;
            } else {
                i = i + 1;
            }
        }
        let ghost s1 = self.entries@;
        self.entries.insert(0, (name, handler));
        proof {
            let s2 = self.entries@;
            assert(s2.drop_first() =~= s1);
            assert forall|n: Seq<char>| #[trigger] al_lookup(s2, n) == (if n == name@ {
                Some(handler)
            } else {
                al_lookup(s0, n)
            }) by {
                if n != name@ && found {
                    lemma_al_remove_other(s0, i as int, n);
                }
            }
            assert(self@ =~= old(self)@.insert(name@, handler));
        }
    }

    /// The handler registered under `name`, if there is one.
    pub fn lookup<'a>(&'a self, name: &str) -> (r: Option<&'a H>)
        ensures
            match r {
                Some(h) => self@.contains_key(name@) && *h == self@[name@],
                None => !self@.contains_key(name@),
            },
    {
        let n: String = name.to_owned();
        let mut i: usize = 0;
        proof {
            assert(self.entries@.skip(0) =~= self.entries@);
        }
        while i < self.entries.len()
            invariant
                i <= self.entries@.len(),
                n@ == name@,
                al_lookup(self.entries@, name@) == al_lookup(
                    self.entries@.skip(i as int),
                    name@,
                ),
            decreases self.entries@.len() - i,
        {
            let e = &self.entries[i];
            if e.0 == n {
                return Some(&e.1);
            }
            proof {
                assert(self.entries@.skip(i as int).drop_first() =~= self.entries@.skip(i + 1));
            }
            i = i + 1;
        }
        proof {
            assert(self.entries@.skip(i as int) =~= Seq::<(String, H)>::empty());
        }
        None
    }
}

} // verus!
