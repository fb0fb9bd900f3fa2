use vstd::prelude::*;
use vstd::string::StringExecFns;
use crate::dom::css_ok;
use crate::dom::parse_selector;
use crate::error::Error;

verus! {

/// Cache from selector source strings to their compiled form.  The first
/// request for a string compiles and stores it; every later request for the
/// same string returns the stored form without recompiling.  Entries are
/// never evicted: keys come from the finite set of selector strings in code,
/// not from user input, so the cache stays bounded in practice.  One cache
/// is built at process start and injected into every extraction call; a
/// caller that shares it across threads guards it with a lock.
pub struct SelectorCache {
    keys: Vec<String>,
    selectors: Vec<scraper::Selector>,
}

impl SelectorCache {
    /// Well-formed: one compiled selector per key, no key twice, and every
    /// cached key is a valid selector string.
    pub closed spec fn wf(self) -> bool {
        &&& self.keys@.len() == self.selectors@.len()
        &&& forall|a: int, b: int|
            0 <= a < b < self.keys@.len() ==> self.keys@[a]@ != self.keys@[b]@
        &&& forall|a: int| 0 <= a < self.keys@.len() ==> css_ok(#[trigger] self.keys@[a]@)
    }

    /// How many distinct selector strings are cached.
    pub closed spec fn spec_len(self) -> nat {
        self.keys@.len()
    }

    /// The cached selector string at an index.
    pub closed spec fn key_at(self, a: int) -> Seq<char> {
        self.keys@[a]@
    }

    /// Whether the string is cached.
    pub closed spec fn has_key(self, s: Seq<char>) -> bool {
        exists|a: int| 0 <= a < self.keys@.len() && #[trigger] self.keys@[a]@ == s
    }

    pub fn new() -> (r: Self)
        ensures
            r.wf(),
            r.spec_len() == 0,
            forall|s: Seq<char>| !(#[trigger] r.has_key(s)),
    {
        SelectorCache { keys: Vec::new(), selectors: Vec::new() }
    }

    pub fn len(&self) -> (n: usize)
        ensures
            n == self.spec_len(),
    {
        self.keys.len()
    }

    fn find(&self, s: &str) -> (r: Option<usize>)
        ensures
            match r {
                Some(idx) => idx < self.spec_len() && self.key_at(idx as int) == s@
                    && self.has_key(s@),
                None => !self.has_key(s@),
            },
    {
        let key = String::from_str(s);
        let mut a: usize = 0;
        while a < self.keys.len()
            invariant
                key@ == s@,
                a <= self.keys@.len(),
                forall|t: int| 0 <= t < a ==> self.keys@[t]@ != s@,
            decreases self.keys@.len() - a,
        {
            if self.keys[a] == key {
                return Some(a);
            }
            a += 1;
        }
        None
    }

    /// Compile a selector string or return its cached compiled form.  A hit
    /// leaves the cache unchanged; a miss on a valid selector adds exactly
    /// one entry at the end, every pre-existing entry keeping its index and
    /// key — nothing is ever evicted or replaced; `Err(Extraction)` exactly
    /// when the string is not a valid selector, in which case nothing is
    /// cached.
    pub fn get_or_compile(&mut self, s: &str) -> (r: Result<usize, Error>)
        requires
            old(self).wf(),
        ensures
            final(self).wf(),
            r is Ok <==> css_ok(s@),
            match r {
                Ok(idx) => idx < final(self).spec_len() && final(self).key_at(idx as int) == s@,
                Err(e) => e == Error::Extraction && *final(self) == *old(self),
            },
            old(self).has_key(s@) ==> *final(self) == *old(self),
            !old(self).has_key(s@) && css_ok(s@) ==> final(self).spec_len() == old(
                self,
            ).spec_len() + 1,
            old(self).spec_len() <= final(self).spec_len(),
            forall|a: int|
                0 <= a < old(self).spec_len() ==> final(self).key_at(a) == old(self).key_at(a),
            forall|t: Seq<char>|
                #[trigger] final(self).has_key(t) <==> (old(self).has_key(t) || (css_ok(s@) && t
                    == s@)),
    {
        match self.find(s) {
            Some(idx) => {
                proof {
                    let a = choose|a: int|
                        0 <= a < self.keys@.len() && #[trigger] self.keys@[a]@ == s@;
                    assert(css_ok(self.keys@[a]@));
                }
                Ok(idx)
            },
            None => {
                match parse_selector(s) {
                    Some(sel) => {
                        let ghost old_keys = self.keys@;
                        let key = String::from_str(s);
                        self.keys.push(key);
                        self.selectors.push(sel);
                        proof {
                            assert forall|a: int, b: int|
                                0 <= a < b < self.keys@.len() implies self.keys@[a]@
                                != self.keys@[b]@ by {
                                if b == self.keys@.len() - 1 {
                                    assert(self.keys@[a]@ == old_keys[a]@);
                                }
                            }
                            assert forall|t: Seq<char>| #[trigger]
                                self.has_key(t) <==> (old(self).has_key(t) || t == s@) by {
                                if self.has_key(t) {
                                    let a = choose|a: int|
                                        0 <= a < self.keys@.len() && #[trigger] self.keys@[a]@
                                            == t;
                                    if a < self.keys@.len() - 1 {
                                        assert(old_keys[a]@ == t);
                                    }
                                }
                                if old(self).has_key(t) {
                                    let a = choose|a: int|
                                        0 <= a < old_keys.len() && #[trigger] old_keys[a]@ == t;
                                    assert(self.keys@[a]@ == t);
                                }
                                if t == s@ {
                                    assert(self.keys@[self.keys@.len() - 1]@ == t);
                                }
                            }
                        }
                        Ok(self.keys.len() - 1)
                    },
                    None => Err(Error::Extraction),
                }
            },
        }
    }

    /// Borrow the compiled selector stored at an index.
    pub fn selector_at(&self, idx: usize) -> (r: &scraper::Selector)
        requires
            self.wf(),
            idx < self.spec_len(),
    {
        &self.selectors[idx]
    }

    /// Law: every cached key is a valid selector string, so a warm hit can
    /// never fail to compile.
    pub proof fn lemma_has_key_valid(self, s: Seq<char>)
        requires
            self.wf(),
            self.has_key(s),
        ensures
            css_ok(s),
    {
        let a = choose|a: int| 0 <= a < self.keys@.len() && #[trigger] self.keys@[a]@ == s;
        assert(css_ok(self.keys@[a]@));
    }

    /// Law: a well-formed cache holds at most one entry per selector string —
    /// two indices carrying the same key are the same index, so concurrent
    /// warm-ups serialised through `get_or_compile` leave one compiled entry.
    pub proof fn lemma_key_unique(self, a: int, b: int)
        requires
            self.wf(),
            0 <= a < self.spec_len(),
            0 <= b < self.spec_len(),
            self.key_at(a) == self.key_at(b),
        ensures
            a == b,
    {
    }
}

} // verus!
