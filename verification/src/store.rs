//! The revocation store: a set of revoked token strings with time-based
//! pruning.

use vstd::prelude::*;

use crate::jwt::{decode_token, token_live};

verus! {

/// The revoked tokens that survive pruning at instant `now`: those that
/// still verify under `secret` and whose embedded expiry is in the future.
pub open spec fn live_subset(revoked: Set<Seq<char>>, secret: Seq<u8>, now: u64) -> Set<
    Seq<char>,
> {
    revoked.filter(|t: Seq<char>| token_live(t, secret, now))
}

/// The view of each entry, in store order.
spec fn views_of(entries: Seq<String>) -> Seq<Seq<char>> {
    entries.map_values(|s: String| s@)
}

/// Revoking the same token twice leaves the revocation set exactly as
/// revoking it once does: the second insert is a no-op, not an error.
pub proof fn lemma_revoke_idempotent(revoked: Set<Seq<char>>, token: Seq<char>)
    ensures
        revoked.insert(token).insert(token) == revoked.insert(token),
{
    assert(revoked.insert(token).insert(token) =~= revoked.insert(token));
}

/// Pruning at `now` keeps exactly the entries that are still live: an
/// entry whose embedded expiry is still in the future is never removed,
/// and an entry whose expiry has passed (or that no longer verifies at
/// all) never survives.
pub proof fn lemma_prune_exact(revoked: Set<Seq<char>>, secret: Seq<u8>, now: u64, t: Seq<char>)
    ensures
        live_subset(revoked, secret, now).contains(t) <==> (revoked.contains(t) && token_live(
            t,
            secret,
            now,
        )),
{
}

/// A set of revoked token strings, keyed by the literal token string: any
/// bit-identical resubmission of a revoked token is found here, regardless
/// of what the token contains. Entries are held until their own embedded
/// expiry has passed, then removed by [`RevocationStore::prune`], which
/// bounds the memory footprint of the store.
pub struct RevocationStore {
    entries: Vec<String>,
}

impl View for RevocationStore {
    type V = Set<Seq<char>>;

    closed spec fn view(&self) -> Set<Seq<char>> {
        views_of(self.entries@).to_set()
    }
}

/// A token string is in the store's set exactly when some entry holds it.
proof fn lemma_view_contains(entries: Seq<String>, t: Seq<char>)
    ensures
        views_of(entries).to_set().contains(t) <==> (exists|k: int|
            0 <= k < entries.len() && entries[k]@ == t),
{
    if views_of(entries).to_set().contains(t) {
        let k = choose|k: int| 0 <= k < views_of(entries).len() && views_of(entries)[k] == t;
        assert(entries[k]@ == t);
    }
    if exists|k: int| 0 <= k < entries.len() && entries[k]@ == t {
        let k = choose|k: int| 0 <= k < entries.len() && entries[k]@ == t;
        assert(views_of(entries)[k] == t);
    }
}

impl RevocationStore {
    /// No two entries hold the same token string, so the store's size is
    /// exactly the size of the set it represents.
    #[verifier::type_invariant]
    spec fn inv(&self) -> bool {
        views_of(self.entries@).no_duplicates()
    }

    /// An empty store.
    pub fn new() -> (r: RevocationStore)
        ensures
            r@ == Set::<Seq<char>>::empty(),
    {
        let r = RevocationStore { entries: Vec::new() };
        proof {
            assert(r@ =~= Set::<Seq<char>>::empty()) by {
                lemma_view_contains(r.entries@, choose|t: Seq<char>| r@.contains(t));
            }
        }
        r
    }

    /// Pure membership check.
    pub fn contains(&self, token: &str) -> (r: bool)
        ensures
            r == self@.contains(token@),
    {
        let tok: String = token.to_owned();
        let n = self.entries.len();
        let mut i: usize = 0;
        while i < n
            invariant
                n == self.entries.len(),
                i <= n,
                tok@ == token@,
                forall|j: int| 0 <= j < i ==> (#[trigger] self.entries@[j])@ != token@,
            decreases n - i,
        {
            if self.entries[i] == tok {
                proof {
                    lemma_view_contains(self.entries@, token@);
                }
                return true;
            }
            i += 1;
        }
        proof {
            lemma_view_contains(self.entries@, token@);
        }
        false
    }

    /// How many revoked tokens the store holds.
    pub fn len(&self) -> (r: usize)
        ensures
            r == self@.len(),
    {
        proof {
            use_type_invariant(&*self);
            views_of(self.entries@).unique_seq_to_set();
        }
        self.entries.len()
    }

    /// Idempotent insert: re-revoking an already-revoked token is a no-op,
    /// not an error.
    pub fn revoke(&mut self, token: &str)
        ensures
            final(self)@ == old(self)@.insert(token@),
    {
        proof {
            use_type_invariant(&*self);
        }
        if self.contains(token) {
            proof {
                assert(old(self)@.insert(token@) =~= old(self)@);
            }
        } else {
            let tok: String = token.to_owned();
            let mut entries = Vec::new();
            std::mem::swap(&mut entries, &mut self.entries);
            let ghost oldes = entries@;
            entries.push(tok);
            proof {
                let oldv = views_of(oldes);
                let newv = views_of(entries@);
                let m = oldes.len() as int;
                assert(newv =~= oldv.push(token@));
                lemma_view_contains(oldes, token@);
                assert forall|t: Seq<char>|
                    newv.to_set().contains(t) implies old(self)@.insert(token@).contains(t) by {
                    lemma_view_contains(entries@, t);
                    let k = choose|k: int| 0 <= k < entries@.len() && entries@[k]@ == t;
                    if k < m {
                        lemma_view_contains(oldes, t);
                        assert(oldes[k]@ == t);
                    } else {
                        assert(t == token@);
                    }
                }
                assert forall|t: Seq<char>|
                    old(self)@.insert(token@).contains(t) implies newv.to_set().contains(t) by {
                    if t == token@ {
                        assert(entries@[m]@ == t);
                    } else {
                        lemma_view_contains(oldes, t);
                        let k = choose|k: int| 0 <= k < oldes.len() && oldes[k]@ == t;
                        assert(entries@[k]@ == t);
                    }
                    lemma_view_contains(entries@, t);
                }
                assert(newv.to_set() =~= old(self)@.insert(token@));
                assert forall|a: int, b: int|
                    0 <= a < newv.len() && 0 <= b < newv.len() && a != b implies newv[a]
                        != newv[b] by {
                    if a < m && b < m {
                        assert(oldv[a] != oldv[b]);
                    } else if a == m {
                        assert(newv[a] == token@ && newv[b] == oldes[b]@);
                    } else {
                        assert(newv[b] == token@ && newv[a] == oldes[a]@);
                    }
                }
            }
            self.entries = entries;
        }
    }

    /// Removes every entry whose embedded expiry has passed at `now`, and
    /// every entry that no longer verifies under `secret` (those are
    /// already meaningless). An entry whose token is still within its
    /// validity window is never removed: removing it would re-admit a
    /// revoked but unexpired token.
    pub fn prune(&mut self, now: u64, secret: &[u8])
        ensures
            final(self)@ == live_subset(old(self)@, secret@, now),
    {
        proof {
            use_type_invariant(&*self);
        }
        let mut entries = Vec::new();
        std::mem::swap(&mut entries, &mut self.entries);
        let n = entries.len();
        let mut kept: Vec<String> = Vec::new();
        let mut i: usize = 0;
        while i < n
            invariant
                n == entries.len(),
                i <= n,
                views_of(entries@).no_duplicates(),
                views_of(kept@).no_duplicates(),
                forall|k: int|
                    0 <= k < kept@.len() ==> token_live((#[trigger] kept@[k])@, secret@, now),
                forall|k: int|
                    0 <= k < kept@.len() ==> (exists|j: int|
                        0 <= j < i && entries@[j]@ == (#[trigger] kept@[k])@),
                forall|j: int|
                    0 <= j < i && token_live((#[trigger] entries@[j])@, secret@, now) ==> (exists|
                        k: int,
                    |
                        0 <= k < kept@.len() && kept@[k]@ == entries@[j]@),
            decreases n - i,
        {
            let keep = match decode_token(entries[i].as_str(), secret) {
                Ok(c) => now < c.exp,
                Err(_) => false,
            };
            if keep {
                let ghost pre = kept@;
                let ghost iv = entries@[i as int]@;
                proof {
                    assert forall|k: int|
                        0 <= k < pre.len() implies (#[trigger] pre[k])@ != iv by {
                        let j = choose|j: int| 0 <= j < i && entries@[j]@ == pre[k]@;
                        assert(views_of(entries@)[j] == entries@[j]@);
                        assert(views_of(entries@)[i as int] == iv);
                    }
                }
                kept.push(entries[i].clone());
                proof {
                    let oldk = views_of(pre);
                    let newk = views_of(kept@);
                    let m = pre.len() as int;
                    assert(kept@ =~= pre.push(entries@[i as int]));
                    assert(newk =~= oldk.push(iv));
                    assert forall|a: int, b: int|
                        0 <= a < newk.len() && 0 <= b < newk.len() && a != b implies newk[a]
                            != newk[b] by {
                        if a < m && b < m {
                            assert(oldk[a] != oldk[b]);
                        } else if a == m {
                            assert(newk[a] == iv && newk[b] == pre[b]@);
                        } else {
                            assert(newk[b] == iv && newk[a] == pre[a]@);
                        }
                    }
                    assert forall|k: int| 0 <= k < kept@.len() implies (exists|j: int|
                        0 <= j < i + 1 && entries@[j]@ == (#[trigger] kept@[k])@) by {
                        if k < m {
                            let j = choose|j: int| 0 <= j < i && entries@[j]@ == pre[k]@;
                            assert(kept@[k] == pre[k]);
                            assert(0 <= j < i + 1 && entries@[j]@ == kept@[k]@);
                        } else {
                            assert(entries@[i as int]@ == kept@[k]@);
                        }
                    }
                    assert forall|j: int|
                        0 <= j < i + 1 && token_live(
                            (#[trigger] entries@[j])@,
                            secret@,
                            now,
                        ) implies (exists|k: int|
                        0 <= k < kept@.len() && kept@[k]@ == entries@[j]@) by {
                        if j < i {
                            let k = choose|k: int| 0 <= k < pre.len() && pre[k]@ == entries@[j]@;
                            assert(kept@[k] == pre[k]);
                            assert(0 <= k < kept@.len() && kept@[k]@ == entries@[j]@);
                        } else {
                            assert(kept@[m]@ == entries@[j]@);
                        }
                    }
                }
            }
            i += 1;
        }
        proof {
            let target = live_subset(old(self)@, secret@, now);
            assert forall|t: Seq<char>| views_of(kept@).to_set().contains(t) <==> target.contains(
                t,
            ) by {
                lemma_view_contains(kept@, t);
                lemma_view_contains(old(self).entries@, t);
                if views_of(kept@).to_set().contains(t) {
                    let k = choose|k: int| 0 <= k < kept@.len() && kept@[k]@ == t;
                    assert(token_live(t, secret@, now));
                    let j = choose|j: int| 0 <= j < n && entries@[j]@ == kept@[k]@;
                    assert(old(self).entries@[j]@ == t);
                }
                if target.contains(t) {
                    let j = choose|j: int|
                        0 <= j < old(self).entries@.len() && old(self).entries@[j]@ == t;
                    assert(token_live(entries@[j]@, secret@, now));
                }
            }
            assert(views_of(kept@).to_set() =~= target);
        }
        self.entries = kept;
    }
}

} // verus!
