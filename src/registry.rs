use vstd::prelude::*;

use crate::token::{Token, TokenView};

verus! {

/// The records that `ids` resolve to in `m`, in the order of `ids`; ids with
/// no record are left out.
pub open spec fn resolved(m: Map<Seq<char>, TokenView>, ids: Seq<Seq<char>>) -> Seq<TokenView>
    decreases ids.len(),
{
    if ids.len() == 0 {
        Seq::empty()
    } else {
        let rest = resolved(m, ids.drop_last());
        if m.contains_key(ids.last()) {
            rest.push(m[ids.last()])
        } else {
            rest
        }
    }
}

/// The views of a sequence of strings.
pub open spec fn string_views(v: Seq<String>) -> Seq<Seq<char>> {
    v.map_values(|s: String| s@)
}

/// The views of a sequence of tokens.
pub open spec fn token_views(v: Seq<Token>) -> Seq<TokenView> {
    v.map_values(|t: Token| t@)
}

/// The registry of push tokens, keyed by registration id.
pub struct Registry {
    entries: Vec<Token>,
    model: Ghost<Map<Seq<char>, TokenView>>,
}

impl View for Registry {
    type V = Map<Seq<char>, TokenView>;

    closed spec fn view(&self) -> Map<Seq<char>, TokenView> {
        self.model@
    }
}

impl Registry {
    /// Ids are unique, and the entries are exactly the records of the model,
    /// each stored under its own id.
    pub closed spec fn wf(&self) -> bool {
        &&& self.model@.dom().finite()
        &&& forall|i: int, j: int|
            0 <= i < j < self.entries@.len() ==> self.entries@[i].id@ != self.entries@[j].id@
        &&& forall|i: int|
            0 <= i < self.entries@.len() ==> {
                &&& self.model@.contains_key(#[trigger] self.entries@[i].id@)
                &&& self.model@[self.entries@[i].id@] == self.entries@[i]@
            }
        &&& forall|k: Seq<char>|
            #[trigger] self.model@.contains_key(k) ==> exists|i: int|
                0 <= i < self.entries@.len() && self.entries@[i].id@ == k
    }

    /// An empty registry.
    pub fn new() -> (r: Registry)
        ensures
            r.wf(),
            r@.dom().finite(),
            r@ == Map::<Seq<char>, TokenView>::empty(),
    {
        Registry { entries: Vec::new(), model: Ghost(Map::empty()) }
    }

    fn find(&self, id: &String) -> (r: Option<usize>)
        requires
            self.wf(),
        ensures
            match r {
                Some(i) => i < self.entries@.len() && self.entries@[i as int].id@ == id@,
                None => !self@.contains_key(id@),
            },
    {
        let mut i: usize = 0;
        while i < self.entries.len()
            invariant
                i <= self.entries@.len(),
                forall|j: int| 0 <= j < i ==> self.entries@[j].id@ != id@,
            decreases self.entries@.len() - i,
        {
            if self.entries[i].id == *id {
                return Some(i);
            }
            i = i + 1;
        }
        None
    }

    /// Whether a record is registered under `id`.
    pub fn contains(&self, id: &String) -> (r: bool)
        requires
            self.wf(),
        ensures
            r == self@.contains_key(id@),
    {
        self.find(id).is_some()
    }

    /// Stores a record under `id` unless one is already there, in which case
    /// the registry is left as it was. Returns whether the record was stored.
    pub fn insert(&mut self, id: String, created_at: u64, token: String) -> (r: bool)
        requires
            old(self).wf(),
        ensures
            final(self).wf(),
            final(self)@.dom().finite(),
            r == !old(self)@.contains_key(id@),
            r ==> final(self)@ == old(self)@.insert(
                id@,
                TokenView { created_at, id: id@, token: token@ },
            ),
            !r ==> final(self)@ == old(self)@,
    {
        if self.find(&id).is_some() {
            return false;
        }
        let t = Token { created_at, id, token };
        let ghost k = t.id@;
        let ghost v = t@;
        let ghost old_entries = self.entries@;
        self.entries.push(t);
        self.model = Ghost(self.model@.insert(k, v));
        assert forall|q: Seq<char>| #[trigger] self.model@.contains_key(q) implies exists|i: int|
            0 <= i < self.entries@.len() && self.entries@[i].id@ == q by {
            if q != k {
                let i = choose|i: int| 0 <= i < old_entries.len() && old_entries[i].id@ == q;
                assert(self.entries@[i] == old_entries[i]);
            } else {
                assert(self.entries@[old_entries.len() as int].id@ == q);
            }
        }
        true
    }

    /// Removes the record under `id`, if there is one.
    pub fn delete(&mut self, id: &String)
        requires
            old(self).wf(),
        ensures
            final(self).wf(),
            final(self)@.dom().finite(),
            final(self)@ == old(self)@.remove(id@),
    {
        match self.find(id) {
            None => {
                assert(self.model@.remove(id@) =~= self.model@);
            },
            Some(i) => {
                let ghost old_entries = self.entries@;
                self.entries.remove(i);
                self.model = Ghost(self.model@.remove(id@));
                assert forall|a: int, b: int|
                    0 <= a < b < self.entries@.len() implies self.entries@[a].id@
                    != self.entries@[b].id@ by {
                    let oa = if a < i { a } else { a + 1 };
                    let ob = if b < i { b } else { b + 1 };
                    assert(self.entries@[a] == old_entries[oa]);
                    assert(self.entries@[b] == old_entries[ob]);
                }
                assert forall|a: int| 0 <= a < self.entries@.len() implies {
                    &&& self.model@.contains_key(#[trigger] self.entries@[a].id@)
                    &&& self.model@[self.entries@[a].id@] == self.entries@[a]@
                } by {
                    let oa = if a < i { a } else { a + 1 };
                    assert(self.entries@[a] == old_entries[oa]);
                    assert(old_entries[oa].id@ != old_entries[i as int].id@);
                }
                assert forall|q: Seq<char>| #[trigger] self.model@.contains_key(q) implies exists|
                    a: int,
                | 0 <= a < self.entries@.len() && self.entries@[a].id@ == q by {
                    let o = choose|o: int| 0 <= o < old_entries.len() && old_entries[o].id@ == q;
                    assert(o != i);
                    let a = if o < i { o } else { o - 1 };
                    assert(self.entries@[a] == old_entries[o]);
                }
            },
        }
    }

    /// The record registered under `id`, if any.
    pub fn get(&self, id: &String) -> (r: Option<Token>)
        requires
            self.wf(),
        ensures
            match r {
                Some(t) => self@.contains_key(id@) && t@ == self@[id@],
                None => !self@.contains_key(id@),
            },
    {
        match self.find(id) {
            Some(i) => Some(self.entries[i].duplicate()),
            None => None,
        }
    }

    /// A snapshot of every record, each once.
    pub fn list_all(&self) -> (r: Vec<Token>)
        requires
            self.wf(),
        ensures
            forall|i: int|
                0 <= i < r@.len() ==> self@.contains_key(#[trigger] r@[i].id@) && self@[r@[i].id@]
                    == r@[i]@,
            forall|i: int, j: int| 0 <= i < j < r@.len() ==> r@[i].id@ != r@[j].id@,
            forall|k: Seq<char>|
                #[trigger] self@.contains_key(k) ==> exists|i: int|
                    0 <= i < r@.len() && r@[i].id@ == k,
    {
        let mut out: Vec<Token> = Vec::new();
        let mut i: usize = 0;
        while i < self.entries.len()
            invariant
                self.wf(),
                i <= self.entries@.len(),
                out@.len() == i,
                forall|j: int| 0 <= j < i ==> #[trigger] out@[j]@ == self.entries@[j]@,
            decreases self.entries@.len() - i,
        {
            out.push(self.entries[i].duplicate());
            i = i + 1;
        }
        assert forall|k: Seq<char>| #[trigger] self@.contains_key(k) implies exists|j: int|
            0 <= j < out@.len() && out@[j].id@ == k by {
            let j = choose|j: int| 0 <= j < self.entries@.len() && self.entries@[j].id@ == k;
            assert(out@[j]@ == self.entries@[j]@);
        }
        assert forall|a: int| 0 <= a < out@.len() implies self@.contains_key(
            #[trigger] out@[a].id@,
        ) && self@[out@[a].id@] == out@[a]@ by {
            assert(out@[a]@ == self.entries@[a]@);
        }
        assert forall|a: int, b: int| 0 <= a < b < out@.len() implies out@[a].id@
            != out@[b].id@ by {
            assert(out@[a]@ == self.entries@[a]@);
            assert(out@[b]@ == self.entries@[b]@);
        }
        out
    }

    /// The records that `ids` name, in the order of `ids`; unknown ids are
    /// left out.
    pub fn resolve(&self, ids: &Vec<String>) -> (r: Vec<Token>)
        requires
            self.wf(),
        ensures
            token_views(r@) == resolved(self@, string_views(ids@)),
    {
        let mut out: Vec<Token> = Vec::new();
        let mut i: usize = 0;
        while i < ids.len()
            invariant
                self.wf(),
                i <= ids@.len(),
                token_views(out@) == resolved(self@, string_views(ids@.subrange(0, i as int))),
            decreases ids@.len() - i,
        {
            let ghost before = out@;
            assert(string_views(ids@.subrange(0, i + 1)).drop_last() =~= string_views(
                ids@.subrange(0, i as int),
            ));
            match self.get(&ids[i]) {
                Some(t) => {
                    out.push(t);
                    assert(token_views(out@) =~= token_views(before).push(t@));
                },
                None => {},
            }
            i = i + 1;
        }
        assert(ids@.subrange(0, ids@.len() as int) =~= ids@);
        out
    }
}

} // verus!
