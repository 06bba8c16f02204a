//! Fallback cache of last-known-good signature headers.
//!
//! Whenever the live engine produces a result, the signature service
//! refreshes the entry under the request's fingerprint; when the engine is
//! unreachable, a non-expired entry for the fingerprint is served instead.
//! Freshness is judged at read time against a fixed time-to-live; expired
//! entries are treated as absent.

use vstd::prelude::*;
use crate::headers::{SignatureHeaders, headers_eq};

verus! {

/// One cached header set, keyed by a request fingerprint.
pub struct FallbackEntry {
    pub fingerprint: u64,
    pub headers: SignatureHeaders,
    /// When the entry was stored, in milliseconds.
    pub stored_at_ms: u64,
}

/// The cache: at most one entry per fingerprint, each judged against
/// `ttl_ms` when read.
pub struct FallbackCache {
    pub entries: Vec<FallbackEntry>,
    /// Time-to-live of every entry, in milliseconds.
    pub ttl_ms: u64,
}

/// An entry is fresh at `now_ms` while less than the time-to-live has
/// passed since it was stored.  An entry stamped in the future (a clock
/// that ran backwards) counts as expired.
pub open spec fn spec_fresh(e: FallbackEntry, now_ms: u64, ttl_ms: u64) -> bool {
    e.stored_at_ms <= now_ms && now_ms - e.stored_at_ms < ttl_ms
}

impl FallbackCache {
    /// Fingerprints are unique: a fingerprint identifies at most one entry.
    pub open spec fn wf(self) -> bool {
        forall|i: int, j: int|
            0 <= i < j < self.entries@.len() ==> self.entries@[i].fingerprint
                != self.entries@[j].fingerprint
    }

    /// Some entry is stored under the fingerprint `fp`.
    pub open spec fn has_fp(self, fp: u64) -> bool {
        exists|i: int| 0 <= i < self.entries@.len() && self.entries@[i].fingerprint == fp
    }

    /// The entry stored under `fp`; meaningful only when `has_fp` and
    /// `wf` hold, which make it unique.
    pub open spec fn entry_for(self, fp: u64) -> FallbackEntry {
        self.entries@[choose|i: int|
            0 <= i < self.entries@.len() && self.entries@[i].fingerprint == fp]
    }

    /// A fresh entry for `fp` exists at `now_ms`.
    pub open spec fn has_fresh(self, fp: u64, now_ms: u64) -> bool {
        self.has_fp(fp) && spec_fresh(self.entry_for(fp), now_ms, self.ttl_ms)
    }

    /// An empty cache whose entries live for `ttl_ms`.
    pub fn new(ttl_ms: u64) -> (r: FallbackCache)
        ensures
            r.wf(),
            r.ttl_ms == ttl_ms,
            r.entries@.len() == 0,
    {
        FallbackCache { entries: Vec::new(), ttl_ms }
    }

    /// The position of the entry stored under `fp`, if any.
    fn find_index(&self, fp: u64) -> (r: Option<usize>)
        requires
            self.wf(),
        ensures
            match r {
                Some(i) => i < self.entries@.len() && self.entries@[i as int].fingerprint == fp,
                None => !self.has_fp(fp),
            },
    {
        let mut i: usize = 0;
        while i < self.entries.len()
            invariant
                i <= self.entries@.len(),
                forall|j: int| 0 <= j < i ==> self.entries@[j].fingerprint != fp,
            decreases self.entries@.len() - i,
        {
            if self.entries[i].fingerprint == fp {
                return Some(i);
            }
            i = i + 1;
        }
        None
    }

    /// Store `headers` under `fp`, stamped `now_ms`, replacing any entry
    /// already stored under `fp`.
    pub fn insert(&mut self, fp: u64, headers: SignatureHeaders, now_ms: u64)
        requires
            old(self).wf(),
        ensures
            final(self).wf(),
            final(self).ttl_ms == old(self).ttl_ms,
            final(self).has_fp(fp),
            final(self).entry_for(fp).fingerprint == fp,
            headers_eq(final(self).entry_for(fp).headers, headers),
            final(self).entry_for(fp).stored_at_ms == now_ms,
            forall|g: u64| g != fp ==> final(self).has_fp(g) == old(self).has_fp(g),
            forall|g: u64|
                g != fp && old(self).has_fp(g) ==> final(self).entry_for(g) == old(
                    self,
                ).entry_for(g),
    {
        let entry = FallbackEntry { fingerprint: fp, headers, stored_at_ms: now_ms };
        let found = self.find_index(fp);
        match found {
            Some(i) => {
                let ghost pre = self.entries@;
                self.entries.remove(i);
                self.entries.push(entry);
                proof {
                    let post = self.entries@;
                    assert forall|a: int, b: int| 0 <= a < b < post.len() implies post[a].fingerprint
                        != post[b].fingerprint by {
                        lemma_remove_maps(pre, i as int, a);
                        if b < post.len() - 1 {
                            lemma_remove_maps(pre, i as int, b);
                        }
                    }
                    assert(post[post.len() - 1].fingerprint == fp);
                    assert forall|g: u64| g != fp && old(self).has_fp(g) implies self.has_fp(g)
                        && self.entry_for(g) == old(self).entry_for(g) by {
                        let k = choose|k: int|
                            0 <= k < pre.len() && pre[k].fingerprint == g;
                        let k2: int = if k < i { k } else { k - 1 };
                        lemma_remove_maps(pre, i as int, k2);
                        assert(post[k2].fingerprint == g);
                        lemma_entry_for_is(*self, g, k2);
                        lemma_entry_for_is(*old(self), g, k);
                    }
                    assert forall|g: u64| g != fp && self.has_fp(g) implies old(self).has_fp(g) by {
                        let k = choose|k: int|
                            0 <= k < post.len() && post[k].fingerprint == g;
                        if k == post.len() - 1 {
                            assert(post[k] == entry);
                        } else {
                            lemma_remove_maps(pre, i as int, k);
                        }
                    }
                    lemma_entry_for_is(*self, fp, post.len() - 1);
                }
            },
            None => {
                let ghost pre = self.entries@;
                self.entries.push(entry);
                proof {
                    let post = self.entries@;
                    assert forall|a: int, b: int| 0 <= a < b < post.len() implies post[a].fingerprint
                        != post[b].fingerprint by {
                        assert(post[a] == pre[a]);
                        if b < post.len() - 1 {
                            assert(post[b] == pre[b]);
                        }
                    }
                    assert forall|g: u64| g != fp && old(self).has_fp(g) implies self.has_fp(g)
                        && self.entry_for(g) == old(self).entry_for(g) by {
                        let k = choose|k: int|
                            0 <= k < pre.len() && pre[k].fingerprint == g;
                        assert(post[k].fingerprint == g);
                        lemma_entry_for_is(*self, g, k);
                        lemma_entry_for_is(*old(self), g, k);
                    }
                    assert forall|g: u64| g != fp && self.has_fp(g) implies old(self).has_fp(g) by {
                        let k = choose|k: int|
                            0 <= k < post.len() && post[k].fingerprint == g;
                        if k == post.len() - 1 {
                            assert(post[k] == entry);
                        } else {
                            assert(post[k] == pre[k]);
                        }
                    }
                    lemma_entry_for_is(*self, fp, post.len() - 1);
                }
            },
        }
    }

    /// The headers stored under `fp`, if a fresh entry exists at `now_ms`.
    pub fn get_fresh(&self, fp: u64, now_ms: u64) -> (r: Option<SignatureHeaders>)
        requires
            self.wf(),
        ensures
            match r {
                Some(h) => self.has_fresh(fp, now_ms) && headers_eq(h, self.entry_for(fp).headers),
                None => !self.has_fresh(fp, now_ms),
            },
    {
        let found = self.find_index(fp);
        match found {
            Some(i) => {
                proof {
                    lemma_entry_for_is(*self, fp, i as int);
                }
                let e = &self.entries[i];
                if e.stored_at_ms <= now_ms && now_ms - e.stored_at_ms < self.ttl_ms {
                    Some(e.headers.duplicate())
                } else {
                    None
                }
            },
            None => None,
        }
    }
}

/// An entry stamped `stored_ms` keeps serving the fallback path at every
/// later instant short of the time-to-live: a cache holding it reports a
/// fresh entry, so a signing call that cannot reach the engine returns
/// these headers rather than failing.  Past the time-to-live the entry
/// counts as absent.
pub proof fn lemma_entry_fresh_until_ttl(c: FallbackCache, fp: u64, stored_ms: u64, later_ms: u64)
    requires
        c.wf(),
        c.has_fp(fp),
        c.entry_for(fp).stored_at_ms == stored_ms,
        stored_ms <= later_ms,
    ensures
        later_ms - stored_ms < c.ttl_ms ==> c.has_fresh(fp, later_ms),
        later_ms - stored_ms >= c.ttl_ms ==> !c.has_fresh(fp, later_ms),
{
}

/// In a well-formed cache, any position holding `fp` is the position
/// `entry_for` denotes.
proof fn lemma_entry_for_is(c: FallbackCache, fp: u64, i: int)
    requires
        c.wf(),
        0 <= i < c.entries@.len(),
        c.entries@[i].fingerprint == fp,
    ensures
        c.has_fp(fp),
        c.entry_for(fp) == c.entries@[i],
{
    let k = choose|k: int| 0 <= k < c.entries@.len() && c.entries@[k].fingerprint == fp;
    if k < i {
        assert(c.entries@[k].fingerprint != c.entries@[i].fingerprint);
    } else if i < k {
        assert(c.entries@[i].fingerprint != c.entries@[k].fingerprint);
    }
}

/// Where each element of `s` lands after removing position `i`.
proof fn lemma_remove_maps(s: Seq<FallbackEntry>, i: int, j: int)
    requires
        0 <= i < s.len(),
        0 <= j < s.len() - 1,
    ensures
        s.remove(i)[j] == (if j < i {
            s[j]
        } else {
            s[j + 1]
        }),
{
}

} // verus!
