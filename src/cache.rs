use vstd::prelude::*;

use crate::fingerprint::{Fingerprint, FingerprintView};

verus! {

/// Why a model could not be loaded.
#[derive(Clone, PartialEq, Eq, Debug)]
pub struct LoadError {
    pub message: String,
}

/// Loaded models by fingerprint, at most `capacity` of them, least recently
/// used first. Failed loads are never kept.
pub struct ModelCache<H> {
    entries: Vec<(Fingerprint, H)>,
    capacity: usize,
}

pub open spec fn has_key<H>(s: Seq<(FingerprintView, H)>, k: FingerprintView) -> bool {
    exists|i: int| 0 <= i < s.len() && s[i].0 == k
}

pub open spec fn key_index<H>(s: Seq<(FingerprintView, H)>, k: FingerprintView) -> int {
    choose|i: int| 0 <= i < s.len() && s[i].0 == k
}

pub open spec fn unique_keys<H>(s: Seq<(FingerprintView, H)>) -> bool {
    forall|i: int, j: int| 0 <= i < s.len() && 0 <= j < s.len() && i != j ==> s[i].0 != s[j].0
}

/// A hit makes the entry the most recently used one.
pub open spec fn spec_touch<H>(s: Seq<(FingerprintView, H)>, k: FingerprintView) -> Seq<
    (FingerprintView, H),
> {
    if has_key(s, k) {
        s.remove(key_index(s, k)).push(s[key_index(s, k)])
    } else {
        s
    }
}

/// A successful load is stored as the most recently used entry; a full cache
/// first drops its least recently used one.
pub open spec fn spec_store<H>(
    s: Seq<(FingerprintView, H)>,
    capacity: nat,
    k: FingerprintView,
    h: H,
) -> Seq<(FingerprintView, H)> {
    if has_key(s, k) {
        s.remove(key_index(s, k)).push((k, h))
    } else if s.len() < capacity {
        s.push((k, h))
    } else {
        s.drop_first().push((k, h))
    }
}

/// A failed load removes the key.
pub open spec fn spec_forget<H>(s: Seq<(FingerprintView, H)>, k: FingerprintView) -> Seq<
    (FingerprintView, H),
> {
    if has_key(s, k) {
        s.remove(key_index(s, k))
    } else {
        s
    }
}

proof fn lemma_remove_keeps_unique<H>(s: Seq<(FingerprintView, H)>, j: int)
    requires
        unique_keys(s),
        0 <= j < s.len(),
    ensures
        unique_keys(s.remove(j)),
        !has_key(s.remove(j), s[j].0),
{
    let t = s.remove(j);
    assert forall|a: int, b: int| 0 <= a < t.len() && 0 <= b < t.len() && a != b implies t[a].0
        != t[b].0 by {
        let a2 = if a < j {
            a
        } else {
            a + 1
        };
        let b2 = if b < j {
            b
        } else {
            b + 1
        };
        assert(t[a] == s[a2]);
        assert(t[b] == s[b2]);
    }
    if has_key(t, s[j].0) {
        let a = choose|a: int| 0 <= a < t.len() && t[a].0 == s[j].0;
        let a2 = if a < j {
            a
        } else {
            a + 1
        };
        assert(t[a] == s[a2]);
    }
}

proof fn lemma_push_keeps_unique<H>(s: Seq<(FingerprintView, H)>, e: (FingerprintView, H))
    requires
        unique_keys(s),
        !has_key(s, e.0),
    ensures
        unique_keys(s.push(e)),
        has_key(s.push(e), e.0),
{
    let t = s.push(e);
    assert(t[s.len() as int] == e);
    assert forall|a: int, b: int| 0 <= a < t.len() && 0 <= b < t.len() && a != b implies t[a].0
        != t[b].0 by {
        if a < s.len() {
            assert(t[a] == s[a]);
        }
        if b < s.len() {
            assert(t[b] == s[b]);
        }
    }
}

proof fn lemma_drop_first_keeps_unique<H>(s: Seq<(FingerprintView, H)>)
    requires
        unique_keys(s),
        s.len() > 0,
    ensures
        unique_keys(s.drop_first()),
        forall|k: FingerprintView| has_key(s.drop_first(), k) ==> has_key(s, k),
{
    let t = s.drop_first();
    assert forall|a: int, b: int| 0 <= a < t.len() && 0 <= b < t.len() && a != b implies t[a].0
        != t[b].0 by {
        assert(t[a] == s[a + 1]);
        assert(t[b] == s[b + 1]);
    }
    assert forall|k: FingerprintView| has_key(t, k) implies has_key(s, k) by {
        let a = choose|a: int| 0 <= a < t.len() && t[a].0 == k;
        assert(t[a] == s[a + 1]);
    }
}

/// After a successful load is stored, the next lookup of the same fingerprint
/// is a hit, whatever the cache held before: the loader is not called again.
pub proof fn lemma_stored_model_is_hit<H>(
    s: Seq<(FingerprintView, H)>,
    capacity: nat,
    k: FingerprintView,
    h: H,
)
    requires
        unique_keys(s),
        capacity >= 1,
        s.len() <= capacity,
    ensures
        has_key(spec_store(s, capacity, k, h), k),
        spec_store(s, capacity, k, h).last() == (k, h),
        spec_touch(spec_store(s, capacity, k, h), k) == spec_store(s, capacity, k, h),
{
    let t = spec_store(s, capacity, k, h);
    if has_key(s, k) {
        lemma_remove_keeps_unique(s, key_index(s, k));
        lemma_push_keeps_unique(s.remove(key_index(s, k)), (k, h));
    } else if s.len() < capacity {
        lemma_push_keeps_unique(s, (k, h));
    } else {
        lemma_drop_first_keeps_unique(s);
        lemma_push_keeps_unique(s.drop_first(), (k, h));
    }
    assert(t[t.len() - 1] == (k, h));
    let j = key_index(t, k);
    assert(j == t.len() - 1);
    assert(t.remove(j).push(t[j]) =~= t);
}

/// A failed load leaves nothing behind: the next lookup of the same
/// fingerprint misses, so the loader is called again.
pub proof fn lemma_failed_model_is_miss<H>(s: Seq<(FingerprintView, H)>, k: FingerprintView)
    requires
        unique_keys(s),
    ensures
        !has_key(spec_forget(s, k), k),
        spec_touch(spec_forget(s, k), k) == spec_forget(s, k),
{
    if has_key(s, k) {
        lemma_remove_keeps_unique(s, key_index(s, k));
    }
}

impl<H> ModelCache<H> {
    pub closed spec fn entries_view(&self) -> Seq<(FingerprintView, H)> {
        self.entries@.map_values(|e: (Fingerprint, H)| (e.0@, e.1))
    }

    pub closed spec fn spec_capacity(&self) -> nat {
        self.capacity as nat
    }

    pub open spec fn wf(&self) -> bool {
        &&& self.spec_capacity() >= 1
        &&& self.entries_view().len() <= self.spec_capacity()
        &&& unique_keys(self.entries_view())
    }

    /// An empty cache that keeps at most `capacity` models.
    pub fn new(capacity: usize) -> (r: ModelCache<H>)
        requires
            capacity >= 1,
        ensures
            r.wf(),
            r.spec_capacity() == capacity,
            r.entries_view().len() == 0,
    {
        let r = ModelCache { entries: Vec::new(), capacity };
        assert(r.entries_view() =~= Seq::<(FingerprintView, H)>::empty());
        r
    }

    pub fn len(&self) -> (r: usize)
        ensures
            r == self.entries_view().len(),
    {
        self.entries.len()
    }

    /// The position of `fp`, if it is held.
    fn find(&self, fp: &Fingerprint) -> (r: Option<usize>)
        requires
            self.wf(),
        ensures
            match r {
                Some(i) => has_key(self.entries_view(), fp@) && i == key_index(
                    self.entries_view(),
                    fp@,
                ),
                None => !has_key(self.entries_view(), fp@),
            },
    {
        let ghost s = self.entries_view();
        let mut i: usize = 0;
        while i < self.entries.len()
            invariant
                i <= self.entries@.len(),
                self.wf(),
                s == self.entries_view(),
                s.len() == self.entries@.len(),
                forall|j: int| 0 <= j < i ==> s[j].0 != fp@,
            decreases self.entries@.len() - i,
        {
            assert(s[i as int] == (self.entries@[i as int].0@, self.entries@[i as int].1));
            if self.entries[i].0.same_as(fp) {
                proof {
                    let j = key_index(s, fp@);
                    assert(s[i as int].0 == fp@);
                    assert(0 <= j < s.len() && s[j].0 == fp@);
                    if j != i as int {
                        assert(unique_keys(s));
                        assert(s[j].0 != s[i as int].0);
                    }
                }
                return Some(i);
            }
            i = i + 1;
        }
        None
    }

    /// Looks `fp` up. On a hit the entry becomes the most recently used one and
    /// its position is returned; on a miss nothing changes.
    pub fn lookup(&mut self, fp: &Fingerprint) -> (r: Option<usize>)
        requires
            old(self).wf(),
        ensures
            final(self).wf(),
            final(self).spec_capacity() == old(self).spec_capacity(),
            final(self).entries_view() == spec_touch(old(self).entries_view(), fp@),
            r is Some <==> has_key(old(self).entries_view(), fp@),
            match r {
                Some(i) => {
                    &&& i == final(self).entries_view().len() - 1
                    &&& final(self).entries_view()[i as int].0 == fp@
                },
                None => true,
            },
    {
        let ghost s = self.entries_view();
        match self.find(fp) {
            None => None,
            Some(i) => {
                let e = self.entries.remove(i);
                self.entries.push(e);
                proof {
                    let t = s.remove(i as int).push(s[i as int]);
                    assert(self.entries_view() =~= t);
                    lemma_remove_keeps_unique(s, i as int);
                    lemma_push_keeps_unique(s.remove(i as int), s[i as int]);
                }
                Some(self.entries.len() - 1)
            },
        }
    }

    /// The model at position `i`.
    pub fn handle(&self, i: usize) -> (r: &H)
        requires
            i < self.entries_view().len(),
        ensures
            *r == self.entries_view()[i as int].1,
    {
        &self.entries[i].1
    }

    /// Records the outcome of loading `fp`. A model is stored as the most
    /// recently used entry and its position returned; an error removes `fp`
    /// and is handed back.
    pub fn record(&mut self, fp: Fingerprint, result: Result<H, LoadError>) -> (r: Result<
        usize,
        LoadError,
    >)
        requires
            old(self).wf(),
        ensures
            final(self).wf(),
            final(self).spec_capacity() == old(self).spec_capacity(),
            match result {
                Ok(h) => {
                    &&& final(self).entries_view() == spec_store(
                        old(self).entries_view(),
                        old(self).spec_capacity(),
                        fp@,
                        h,
                    )
                    &&& r == Ok::<usize, LoadError>((final(self).entries_view().len() - 1) as usize)
                },
                Err(e) => {
                    &&& final(self).entries_view() == spec_forget(old(self).entries_view(), fp@)
                    &&& r == Err::<usize, LoadError>(e)
                },
            },
    {
        let ghost s = self.entries_view();
        let ghost k = fp@;
        let found = self.find(&fp);
        match result {
            Ok(h) => {
                let ghost t = spec_store(s, self.capacity as nat, k, h);
                match found {
                    Some(i) => {
                        let _ = self.entries.remove(i);
                        proof {
                            assert(self.entries_view() =~= s.remove(i as int));
                            lemma_remove_keeps_unique(s, i as int);
                            lemma_push_keeps_unique(s.remove(i as int), (k, h));
                        }
                    },
                    None => {
                        if self.entries.len() >= self.capacity {
                            let _ = self.entries.remove(0);
                            proof {
                                assert(self.entries_view() =~= s.drop_first());
                                lemma_drop_first_keeps_unique(s);
                                lemma_push_keeps_unique(s.drop_first(), (k, h));
                            }
                        } else {
                            proof {
                                lemma_push_keeps_unique(s, (k, h));
                            }
                        }
                    },
                }
                let ghost before = self.entries_view();
                self.entries.push((fp, h));
                assert(self.entries_view() =~= before.push((k, h)));
                assert(self.entries_view() =~= t);
                Ok(self.entries.len() - 1)
            },
            Err(e) => {
                match found {
                    Some(i) => {
                        let _ = self.entries.remove(i);
                        proof {
                            assert(self.entries_view() =~= s.remove(i as int));
                            lemma_remove_keeps_unique(s, i as int);
                        }
                    },
                    None => {},
                }
                Err(e)
            },
        }
    }
}

} // verus!
