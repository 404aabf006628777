//! Adapter identities and their deduplication.
//!
//! The platform may expose the same physical device through several logical
//! adapters; the probing run collapses them to one entry per stable
//! 128-bit device identifier, keeping the first-seen adapter.

use vstd::prelude::*;

verus! {

/// Identity of one enumerated graphics adapter, immutable once listed.
/// `device_identifier` is the stable 128-bit value that deduplication keys
/// on; `index` is the ordinal under which the platform listed the adapter.
#[derive(Debug)]
pub struct AdapterIdentity {
    pub index: u32,
    pub driver: String,
    pub description: String,
    pub device_name: String,
    pub driver_version: i64,
    pub vendor_id: u32,
    pub device_id: u32,
    pub sub_system_id: u32,
    pub revision: u32,
    pub device_identifier: u128,
    pub whql_level: u32,
}

/// The stable identifiers of a sequence of adapters, in order.
pub open spec fn identifiers_of(s: Seq<AdapterIdentity>) -> Seq<u128> {
    s.map_values(|a: AdapterIdentity| a.device_identifier)
}

/// First-seen deduplication by stable identifier: an adapter is kept exactly
/// when no earlier adapter carries the same identifier.
pub open spec fn dedup_by_identifier_spec(s: Seq<AdapterIdentity>) -> Seq<AdapterIdentity>
    decreases s.len(),
{
    if s.len() == 0 {
        Seq::empty()
    } else {
        let kept = dedup_by_identifier_spec(s.drop_last());
        if identifiers_of(s.drop_last()).contains(s.last().device_identifier) {
            kept
        } else {
            kept.push(s.last())
        }
    }
}

/// Position `i` holds the first adapter in `s` with its identifier.
pub open spec fn first_occurrence(s: Seq<AdapterIdentity>, i: int) -> bool {
    &&& 0 <= i < s.len()
    &&& forall|j: int|
        0 <= j < i ==> (#[trigger] s[j]).device_identifier != s[i].device_identifier
}

fn contains_identifier(seen: &Vec<u128>, id: u128) -> (r: bool)
    ensures
        r == seen@.contains(id),
{
    let mut j: usize = 0;
    while j < seen.len()
        invariant
            j <= seen@.len(),
            forall|k: int| 0 <= k < j ==> seen@[k] != id,
        decreases seen@.len() - j,
    {
        if seen[j] == id {
            return true;
        }
        j += 1;
    }
    false
}

/// Collapses adapters sharing a stable identifier to one entry, keeping the
/// first-seen adapter of each identifier and the first-seen order.
pub fn dedup_by_identifier(adapters: Vec<AdapterIdentity>) -> (r: Vec<AdapterIdentity>)
    ensures
        r@ == dedup_by_identifier_spec(adapters@),
{
    let ghost all = adapters@;
    let mut rest = adapters;
    let mut kept: Vec<AdapterIdentity> = Vec::new();
    let mut seen: Vec<u128> = Vec::new();
    while rest.len() > 0
        invariant
            rest@.len() <= all.len(),
            rest@ == all.subrange(all.len() - rest@.len(), all.len() as int),
            kept@ == dedup_by_identifier_spec(all.take(all.len() - rest@.len())),
            seen@ == identifiers_of(all.take(all.len() - rest@.len())),
        decreases rest@.len(),
    {
        let ghost i = all.len() - rest@.len();
        let a = rest.remove(0);
        proof {
            assert(a == all[i]);
            assert(rest@ =~= all.subrange(i + 1, all.len() as int));
            assert(all.take(i + 1).drop_last() =~= all.take(i as int));
            assert(all.take(i + 1).last() == all[i]);
        }
        let duplicate = contains_identifier(&seen, a.device_identifier);
        seen.push(a.device_identifier);
        proof {
            assert(seen@ =~= identifiers_of(all.take(i + 1)));
        }
        if !duplicate {
            kept.push(a);
        }
    }
    proof {
        assert(all.take(all.len() as int) =~= all);
    }
    kept
}

/// Law (deduplication): the kept adapters carry pairwise distinct
/// identifiers; each kept adapter stands in the input at a first-occurrence
/// position; every first-seen input adapter is kept; and the kept sequence
/// covers exactly the identifiers of the input.
pub proof fn lemma_dedup_by_identifier(s: Seq<AdapterIdentity>)
    ensures
        forall|p: int, q: int|
            0 <= p < q < dedup_by_identifier_spec(s).len()
                ==> (#[trigger] dedup_by_identifier_spec(s)[p]).device_identifier
                    != (#[trigger] dedup_by_identifier_spec(s)[q]).device_identifier,
        forall|p: int|
            0 <= p < dedup_by_identifier_spec(s).len() ==> exists|i: int|
                first_occurrence(s, i) && s[i] == #[trigger] dedup_by_identifier_spec(s)[p],
        forall|i: int| first_occurrence(s, i) ==> dedup_by_identifier_spec(s).contains(s[i]),
        forall|k: u128|
            identifiers_of(dedup_by_identifier_spec(s)).contains(k) <==> identifiers_of(
                s,
            ).contains(k),
    decreases s.len(),
{
    if s.len() > 0 {
        let prior = s.drop_last();
        let a = s.last();
        let d = dedup_by_identifier_spec(s);
        let dp = dedup_by_identifier_spec(prior);
        lemma_dedup_by_identifier(prior);
        assert forall|k: u128| identifiers_of(dp).contains(k) implies identifiers_of(
            prior,
        ).contains(k) by {}
        if identifiers_of(prior).contains(a.device_identifier) {
            assert(d == dp);
            // every first occurrence in s is one in prior: the last position
            // is no first occurrence, since an earlier adapter shares its
            // identifier.
            assert forall|i: int| first_occurrence(s, i) implies d.contains(s[i]) by {
                if i < prior.len() {
                    assert(first_occurrence(prior, i));
                    assert(dp.contains(prior[i]));
                } else {
                    let w = choose|w: int|
                        0 <= w < prior.len() && identifiers_of(prior)[w] == a.device_identifier;
                    assert(prior[w].device_identifier == a.device_identifier);
                    assert(!first_occurrence(s, i));
                }
            }
            assert forall|k: u128| identifiers_of(s).contains(k) implies identifiers_of(
                d,
            ).contains(k) by {
                let w = choose|w: int| 0 <= w < s.len() && identifiers_of(s)[w] == k;
                if w < prior.len() {
                    assert(identifiers_of(prior)[w] == k);
                    assert(identifiers_of(prior).contains(k));
                } else {
                    assert(k == a.device_identifier);
                    assert(identifiers_of(prior).contains(k));
                }
            }
            assert forall|k: u128| identifiers_of(d).contains(k) implies identifiers_of(
                s,
            ).contains(k) by {
                assert(identifiers_of(prior).contains(k));
                let w = choose|w: int| 0 <= w < prior.len() && identifiers_of(prior)[w] == k;
                assert(identifiers_of(s)[w] == k);
            }
            assert forall|p: int|
                0 <= p < d.len() implies exists|i: int|
                first_occurrence(s, i) && s[i] == #[trigger] d[p] by {
                let i = choose|i: int| first_occurrence(prior, i) && prior[i] == dp[p];
                assert(first_occurrence(prior, i) && prior[i] == dp[p]);
                assert(s[i] == prior[i]);
                assert forall|j: int|
                    0 <= j < i implies (#[trigger] s[j]).device_identifier
                    != s[i].device_identifier by {
                    assert(s[j] == prior[j]);
                }
                assert(first_occurrence(s, i) && s[i] == d[p]);
            }
        } else {
            assert(d == dp.push(a));
            // the appended adapter's identifier is new to the kept entries.
            assert forall|p: int, q: int|
                0 <= p < q < d.len() implies (#[trigger] d[p]).device_identifier
                != (#[trigger] d[q]).device_identifier by {
                if q < dp.len() {
                } else {
                    assert(d[q] == a);
                    assert(identifiers_of(dp).contains(d[p].device_identifier)) by {
                        assert(identifiers_of(dp)[p] == d[p].device_identifier);
                    }
                    assert(identifiers_of(prior).contains(d[p].device_identifier));
                }
            }
            assert(first_occurrence(s, s.len() - 1)) by {
                assert forall|j: int|
                    0 <= j < s.len() - 1 implies (#[trigger] s[j]).device_identifier
                    != a.device_identifier by {
                    assert(identifiers_of(prior)[j] == s[j].device_identifier);
                }
            }
            assert forall|i: int| first_occurrence(s, i) implies d.contains(s[i]) by {
                if i < prior.len() {
                    assert(first_occurrence(prior, i));
                    assert(dp.contains(prior[i]));
                    let w = choose|w: int| 0 <= w < dp.len() && dp[w] == prior[i];
                    assert(d[w] == s[i]);
                } else {
                    assert(d[d.len() - 1] == s[i]);
                }
            }
            assert forall|k: u128| identifiers_of(s).contains(k) implies identifiers_of(
                d,
            ).contains(k) by {
                let w = choose|w: int| 0 <= w < s.len() && identifiers_of(s)[w] == k;
                if w < prior.len() {
                    assert(identifiers_of(prior)[w] == k);
                    assert(identifiers_of(prior).contains(k));
                    let v = choose|v: int| 0 <= v < dp.len() && identifiers_of(dp)[v] == k;
                    assert(identifiers_of(d)[v] == k);
                } else {
                    assert(identifiers_of(d)[d.len() - 1] == k);
                }
            }
            assert forall|k: u128| identifiers_of(d).contains(k) implies identifiers_of(
                s,
            ).contains(k) by {
                let w = choose|w: int| 0 <= w < d.len() && identifiers_of(d)[w] == k;
                if w < dp.len() {
                    assert(identifiers_of(dp)[w] == k);
                    assert(identifiers_of(prior).contains(k));
                    let v = choose|v: int| 0 <= v < prior.len() && identifiers_of(prior)[v] == k;
                    assert(identifiers_of(s)[v] == k);
                } else {
                    assert(identifiers_of(s)[s.len() - 1] == k);
                }
            }
            assert forall|p: int|
                0 <= p < d.len() implies exists|i: int|
                first_occurrence(s, i) && s[i] == #[trigger] d[p] by {
                if p < dp.len() {
                    let i = choose|i: int| first_occurrence(prior, i) && prior[i] == dp[p];
                    assert(first_occurrence(prior, i) && prior[i] == dp[p]);
                    assert(s[i] == prior[i]);
                    assert forall|j: int|
                        0 <= j < i implies (#[trigger] s[j]).device_identifier
                        != s[i].device_identifier by {
                        assert(s[j] == prior[j]);
                    }
                    assert(first_occurrence(s, i) && s[i] == d[p]);
                } else {
                    assert(first_occurrence(s, s.len() - 1) && s[s.len() - 1] == d[p]);
                }
            }
        }
    }
}

/// The bytes of a fixed-size C string field up to (not including) its first
/// NUL byte, or all of them when no NUL occurs.
pub fn nul_terminated_prefix(bytes: &[u8]) -> (r: Vec<u8>)
    ensures
        r@.len() <= bytes@.len(),
        r@ == bytes@.take(r@.len() as int),
        forall|k: int| 0 <= k < r@.len() ==> r@[k] != 0,
        r@.len() < bytes@.len() ==> bytes@[r@.len() as int] == 0,
{
    let n = bytes.len();
    let mut end: usize = 0;
    while end < n && bytes[end] != 0
        invariant
            n == bytes@.len(),
            end <= n,
            forall|k: int| 0 <= k < end ==> bytes@[k] != 0,
        decreases n - end,
    {
        end += 1;
    }
    let mut out: Vec<u8> = Vec::new();
    let mut j: usize = 0;
    while j < end
        invariant
            n == bytes@.len(),
            end <= n,
            end == n || bytes@[end as int] == 0,
            forall|k: int| 0 <= k < end ==> bytes@[k] != 0,
            j <= end,
            out@ == bytes@.take(j as int),
        decreases end - j,
    {
        out.push(bytes[j]);
        proof {
            assert(bytes@.take(j + 1) =~= bytes@.take(j as int).push(bytes@[j as int]));
        }
        j += 1;
    }
    out
}

} // verus!
