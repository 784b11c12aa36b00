//! The session registry: a mapping from session code to session, with
//! unique-code allocation. Sessions are never removed; every created one
//! stays addressable for the registry's lifetime. The host serializes
//! concurrent access with a read-mostly lock around the whole registry, so
//! each operation here runs under exclusive (for `create`) or shared (for
//! `get`) access.

use vstd::prelude::*;

use crate::code_gen;

verus! {

/// What a sequence of registry entries means: the mapping from each code
/// to the session registered under it.
pub open spec fn entries_map<T>(s: Seq<(String, T)>) -> Map<Seq<char>, T>
    decreases s.len(),
{
    if s.len() == 0 {
        Map::empty()
    } else {
        entries_map(s.drop_last()).insert(s.last().0@, s.last().1)
    }
}

proof fn lemma_entries_map_domain<T>(s: Seq<(String, T)>, code: Seq<char>)
    ensures
        entries_map(s).contains_key(code) <==> exists|i: int|
            0 <= i < s.len() && #[trigger] s[i].0@ == code,
    decreases s.len(),
{
    if s.len() > 0 {
        lemma_entries_map_domain(s.drop_last(), code);
        if entries_map(s).contains_key(code) {
            if s.last().0@ == code {
                assert(s[s.len() - 1].0@ == code);
            } else {
                let i = choose|i: int| 0 <= i < s.drop_last().len() && #[trigger] s.drop_last()[i].0@
                    == code;
                assert(s.drop_last()[i] == s[i]);
                assert(s[i].0@ == code);
            }
        } else {
            assert forall|i: int| 0 <= i < s.len() implies #[trigger] s[i].0@ != code by {
                if i < s.len() - 1 {
                    assert(s.drop_last()[i] == s[i]);
                }
            }
        }
    }
}

/// The registry of live sessions. `T` is the host's shared session handle;
/// the registry never looks inside it.
pub struct Registry<T> {
    entries: Vec<(String, T)>,
}

impl<T> Registry<T> {
    /// The mapping from session code to registered session.
    pub closed spec fn as_map(self) -> Map<Seq<char>, T> {
        entries_map(self.entries@)
    }

    /// Each live code appears exactly once, and every live code is a
    /// well-formed session code.
    pub closed spec fn wf(self) -> bool {
        &&& forall|i: int, j: int|
            0 <= i < j < self.entries@.len() ==> self.entries@[i].0@ != self.entries@[j].0@
        &&& forall|i: int|
            0 <= i < self.entries@.len() ==> code_gen::valid_code(#[trigger] self.entries@[i].0@)
    }

    /// Every code a session is registered under is a well-formed session
    /// code.
    pub proof fn lemma_codes_valid(self, code: Seq<char>)
        requires
            self.wf(),
            self.as_map().contains_key(code),
        ensures
            code_gen::valid_code(code),
    {
        lemma_entries_map_domain(self.entries@, code);
    }

    /// An empty registry.
    pub fn new() -> (r: Registry<T>)
        ensures
            r.wf(),
            r.as_map() == Map::<Seq<char>, T>::empty(),
    {
        Registry { entries: Vec::new() }
    }

    /// How many sessions live in the registry.
    pub fn len(&self) -> (r: usize)
        ensures
            r == self.session_count(),
    {
        self.entries.len()
    }

    /// Whether a session is registered under this code.
    pub fn contains(&self, code: &String) -> (r: bool)
        ensures
            r == self.as_map().contains_key(code@),
    {
        proof {
            lemma_entries_map_domain(self.entries@, code@);
        }
        let n = self.entries.len();
        let mut i: usize = 0;
        while i < n
            invariant
                i <= n,
                n == self.entries@.len(),
                forall|k: int| 0 <= k < i ==> #[trigger] self.entries@[k].0@ != code@,
            decreases n - i,
        {
            if self.entries[i].0.eq(code) {
                proof {
                    lemma_entries_map_domain(self.entries@, code@);
                    assert(self.entries@[i as int].0@ == code@);
                }
                return true;
            }
            i += 1;
        }
        false
    }

    /// Looks a session up by code: a shared borrow of the registered
    /// session, or `None` when no session lives under the code.
    pub fn get(&self, code: &String) -> (r: Option<&T>)
        requires
            self.wf(),
        ensures
            r matches Some(v) ==> self.as_map().contains_key(code@) && self.as_map()[code@] == *v,
            r is None ==> !self.as_map().contains_key(code@),
    {
        proof {
            lemma_entries_map_domain(self.entries@, code@);
        }
        let n = self.entries.len();
        let mut i: usize = 0;
        while i < n
            invariant
                i <= n,
                n == self.entries@.len(),
                self.wf(),
                forall|k: int| 0 <= k < i ==> #[trigger] self.entries@[k].0@ != code@,
            decreases n - i,
        {
            if self.entries[i].0.eq(code) {
                proof {
                    lemma_entries_map_index(self.entries@, i as int);
                }
                return Some(&self.entries[i].1);
            }
            i += 1;
        }
        None
    }

    /// How many sessions live in the registry.
    pub closed spec fn session_count(self) -> nat {
        self.entries@.len()
    }

    fn insert_fresh(&mut self, code: String, session: T)
        requires
            old(self).wf(),
            code_gen::valid_code(code@),
            !old(self).as_map().contains_key(code@),
        ensures
            final(self).wf(),
            final(self).as_map() == old(self).as_map().insert(code@, session),
            final(self).session_count() == old(self).session_count() + 1,
    {
        proof {
            lemma_entries_map_domain(self.entries@, code@);
        }
        let ghost pre = self.entries@;
        let ghost codeview = code@;
        self.entries.push((code, session));
        proof {
            assert(self.entries@.drop_last() =~= pre);
            assert(forall|i: int| 0 <= i < pre.len() ==> #[trigger] pre[i].0@ != codeview);
        }
    }

    /// Registers a session under a freshly allocated code and returns the
    /// code, which is unique among all live sessions. Candidates are drawn
    /// at random and redrawn on collision; if a burst of draws all collide,
    /// the allocator falls back to a systematic sweep, which must reach a
    /// free code because fewer sessions live than codes exist (the one
    /// precondition).
    pub fn create(&mut self, session: T) -> (code: String)
        requires
            old(self).wf(),
            old(self).session_count() < code_gen::code_space(),
        ensures
            final(self).wf(),
            code_gen::valid_code(code@),
            !old(self).as_map().contains_key(code@),
            final(self).as_map() == old(self).as_map().insert(code@, session),
            final(self).session_count() == old(self).session_count() + 1,
    {
        let mut attempts: usize = 0;
        let mut code = code_gen::get_code();
        while attempts < 8 && self.contains(&code)
            invariant
                self == old(self),
                code_gen::valid_code(code@),
                attempts <= 8,
            decreases 8 - attempts,
        {
            code = code_gen::get_code();
            attempts += 1;
        }
        if !self.contains(&code) {
            self.insert_fresh(code.clone(), session);
            return code;
        }
        let n = self.entries.len();
        let ghost mut tried: Seq<Seq<char>> = Seq::empty();
        let mut i: usize = 0;
        while i <= n
            invariant
                self == old(self),
                self.wf(),
                n == self.session_count(),
                n < code_gen::code_space(),
                i <= n + 1,
                tried.len() == i,
                forall|j: int| 0 <= j < i ==> self.as_map().contains_key(#[trigger] tried[j]),
                forall|j: int| 0 <= j < i ==> code_gen::code_num(#[trigger] tried[j]) == j,
            decreases n + 1 - i,
        {
            let cand = code_gen::encode_code(i);
            if !self.contains(&cand) {
                self.insert_fresh(cand.clone(), session);
                return cand;
            }
            proof {
                tried = tried.push(cand@);
            }
            i += 1;
        }
        proof {
            assert(forall|a: int, b: int| 0 <= a < b < tried.len() ==> tried[a] != tried[b]) by {
                assert(forall|a: int, b: int|
                    0 <= a < b < tried.len() ==> code_gen::code_num(#[trigger] tried[a])
                        != code_gen::code_num(#[trigger] tried[b]));
            }
            lemma_distinct_codes_bound(self.entries@, tried);
            assert(false);
        }
        unreached()
    }
}

/// Pairwise distinct codes that are all live in a registry cannot outnumber
/// its entries.
proof fn lemma_distinct_codes_bound<T>(s: Seq<(String, T)>, codes: Seq<Seq<char>>)
    requires
        forall|a: int, b: int| 0 <= a < b < codes.len() ==> codes[a] != codes[b],
        forall|k: int| 0 <= k < codes.len() ==> entries_map(s).contains_key(#[trigger] codes[k]),
    ensures
        codes.len() <= s.len(),
    decreases s.len(),
{
    if codes.len() > 0 {
        if s.len() == 0 {
            assert(entries_map(s).contains_key(codes[0]));
        } else {
            let lastcode = s.last().0@;
            let m0 = entries_map(s.drop_last());
            if exists|k: int| 0 <= k < codes.len() && codes[k] == lastcode {
                let k = choose|k: int| 0 <= k < codes.len() && codes[k] == lastcode;
                let rest = codes.remove(k);
                codes.remove_ensures(k);
                assert forall|a: int, b: int| 0 <= a < b < rest.len() implies rest[a]
                    != rest[b] by {
                    if a < k && b < k {
                        assert(rest[a] == codes[a] && rest[b] == codes[b]);
                    } else if a < k {
                        assert(rest[a] == codes[a] && rest[b] == codes[b + 1]);
                    } else {
                        assert(rest[a] == codes[a + 1] && rest[b] == codes[b + 1]);
                    }
                }
                assert forall|j: int| 0 <= j < rest.len() implies m0.contains_key(rest[j]) by {
                    if j < k {
                        assert(rest[j] == codes[j]);
                        assert(codes[j] != lastcode);
                    } else {
                        assert(rest[j] == codes[j + 1]);
                        assert(codes[j + 1] != lastcode);
                    }
                }
                lemma_distinct_codes_bound(s.drop_last(), rest);
            } else {
                assert(forall|j: int|
                    0 <= j < codes.len() ==> m0.contains_key(#[trigger] codes[j]));
                lemma_distinct_codes_bound(s.drop_last(), codes);
            }
        }
    }
}

proof fn lemma_entries_map_index<T>(s: Seq<(String, T)>, i: int)
    requires
        0 <= i < s.len(),
        forall|k: int, j: int| 0 <= k < j < s.len() ==> s[k].0@ != s[j].0@,
    ensures
        entries_map(s).contains_key(s[i].0@),
        entries_map(s)[s[i].0@] == s[i].1,
    decreases s.len(),
{
    if i < s.len() - 1 {
        lemma_entries_map_index(s.drop_last(), i);
        assert(s.drop_last()[i] == s[i]);
    }
}

} // verus!
