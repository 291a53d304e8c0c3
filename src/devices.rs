//! The device list: one record per address, replaced in place on every
//! sighting, dropped on removal; and the laws of those operations.
use vstd::prelude::*;
use crate::config::SortMode;
use crate::order::{sorted_by, unique_addresses, lemma_sorted_contents, lemma_sorted_unique};
use crate::types::{Address, DeviceInfo};

verus! {

broadcast use vstd::seq_lib::group_seq_properties;

/// Index of the first device with address `a`, or -1.
pub open spec fn find_address(s: Seq<DeviceInfo>, a: Address) -> int
    decreases s.len(),
{
    if s.len() == 0 {
        -1
    } else if s[0].address == a {
        0
    } else {
        let r = find_address(s.drop_first(), a);
        if r < 0 {
            -1
        } else {
            r + 1
        }
    }
}

/// The list with `info` in place of the first record of its address, or
/// appended when there is none.
pub open spec fn upserted(s: Seq<DeviceInfo>, info: DeviceInfo) -> Seq<DeviceInfo> {
    let i = find_address(s, info.address);
    if i >= 0 {
        s.update(i, info)
    } else {
        s.push(info)
    }
}

/// Keeps the devices whose address is not `a`.
pub open spec fn other_address(a: Address) -> spec_fn(DeviceInfo) -> bool {
    |d: DeviceInfo| d.address != a
}

proof fn lemma_find_address(s: Seq<DeviceInfo>, a: Address, p: int)
    requires
        0 <= p <= s.len(),
        forall|j: int| 0 <= j < p ==> (#[trigger] s[j]).address != a,
        p < s.len() ==> s[p].address == a,
    ensures
        p < s.len() ==> find_address(s, a) == p,
        p == s.len() ==> find_address(s, a) == -1,
    decreases s.len(),
{
    if s.len() > 0 && p > 0 {
        assert(s[0].address != a);
        lemma_find_address(s.drop_first(), a, p - 1);
    }
}

/// Replaces the record of `info`'s address, or appends `info`.
pub fn upsert(v: &mut Vec<DeviceInfo>, info: DeviceInfo)
    ensures
        final(v)@ == upserted(old(v)@, info),
{
    let key = info.address.as_u64();
    let mut i: usize = 0;
    while i < v.len() && v[i].address.as_u64() != key
        invariant
            i <= v@.len(),
            key == info.address.value(),
            forall|j: int| 0 <= j < i ==> (#[trigger] v@[j]).address != info.address,
        decreases v@.len() - i,
    {
        i += 1;
    }
    proof {
        if i < v@.len() {
            crate::types::lemma_value_eq(v@[i as int].address, info.address);
        }
        lemma_find_address(v@, info.address, i as int);
    }
    if i < v.len() {
        v.set(i, info);
    } else {
        v.push(info);
    }
}

/// Drops every record of address `a`, keeping the order of the rest.
pub fn remove_address(v: &mut Vec<DeviceInfo>, a: Address)
    ensures
        final(v)@ == old(v)@.filter(other_address(a)),
{
    let ghost orig = v@;
    let ghost pred = other_address(a);
    let key = a.as_u64();
    let mut kept: Vec<DeviceInfo> = Vec::new();
    let ghost k: int = 0;
    while v.len() > 0
        invariant
            0 <= k <= orig.len(),
            v@ == orig.skip(k),
            key == a.value(),
            pred == other_address(a),
            kept@ == orig.take(k).filter(pred),
        decreases v@.len(),
    {
        let d = v.remove(0);
        let keep = d.address.as_u64() != key;
        proof {
            crate::types::lemma_value_eq(d.address, a);
            assert(orig.take(k + 1) =~= orig.take(k).push(d));
            orig.take(k).lemma_filter_push(d, pred);
            assert(v@ =~= orig.skip(k + 1));
            k = k + 1;
        }
        if keep {
            kept.push(d);
        }
    }
    proof {
        assert(orig.take(k) =~= orig);
    }
    *v = kept;
}

/// Dropping records keeps addresses unique.
pub proof fn lemma_filter_unique(s: Seq<DeviceInfo>, pred: spec_fn(DeviceInfo) -> bool)
    requires
        unique_addresses(s),
    ensures
        unique_addresses(s.filter(pred)),
        forall|e: DeviceInfo| s.filter(pred).contains(e) ==> s.contains(e),
    decreases s.len(),
{
    reveal(Seq::filter);
    if s.len() > 0 {
        let d = s.drop_last();
        assert(unique_addresses(d)) by {
            assert forall|i: int, j: int| 0 <= i < j < d.len() implies (#[trigger] d[i]).address != (#[trigger] d[j]).address by {
                assert(d[i] == s[i] && d[j] == s[j]);
            }
        }
        lemma_filter_unique(d, pred);
        let f = d.filter(pred);
        assert forall|e: DeviceInfo| s.filter(pred).contains(e) implies s.contains(e) by {
            if f.contains(e) {
                assert(d.contains(e));
                let k = choose|k: int| 0 <= k < d.len() && d[k] == e;
                assert(s[k] == e);
            } else {
                assert(s[s.len() - 1] == e);
            }
        }
        if pred(s.last()) {
            let t = f.push(s.last());
            assert forall|i: int, j: int| 0 <= i < j < t.len() implies (#[trigger] t[i]).address != (#[trigger] t[j]).address by {
                if j == t.len() - 1 {
                    assert(t[i] == f[i]);
                    assert(f.contains(t[i]));
                    assert(d.contains(t[i]));
                    let k = choose|k: int| 0 <= k < d.len() && d[k] == t[i];
                    assert(s[k] == t[i]);
                    assert(s[s.len() - 1] == s.last());
                } else {
                    assert(t[i] == f[i] && t[j] == f[j]);
                }
            }
        }
    }
}

proof fn lemma_find_address_spec(s: Seq<DeviceInfo>, a: Address)
    ensures
        -1 <= find_address(s, a) < s.len(),
        find_address(s, a) >= 0 ==> s[find_address(s, a)].address == a,
        find_address(s, a) < 0 ==> forall|i: int| 0 <= i < s.len() ==> (#[trigger] s[i]).address != a,
    decreases s.len(),
{
    if s.len() > 0 && s[0].address != a {
        lemma_find_address_spec(s.drop_first(), a);
        assert forall|i: int| 0 <= i < s.len() && find_address(s, a) < 0 implies (#[trigger] s[i]).address != a by {
            if i > 0 {
                assert(s[i] == s.drop_first()[i - 1]);
            }
        }
    }
}

/// After an upsert of `d` the addresses are still unique and `d` is the one
/// record of its address.
pub proof fn lemma_upserted(s: Seq<DeviceInfo>, d: DeviceInfo)
    requires
        unique_addresses(s),
    ensures
        unique_addresses(upserted(s, d)),
        upserted(s, d).contains(d),
        forall|i: int| 0 <= i < upserted(s, d).len() && (#[trigger] upserted(s, d)[i]).address == d.address ==> upserted(s, d)[i] == d,
{
    lemma_find_address_spec(s, d.address);
    let u = upserted(s, d);
    let k = find_address(s, d.address);
    if k >= 0 {
        assert(u[k] == d);
        assert forall|i: int| 0 <= i < u.len() && (#[trigger] u[i]).address == d.address implies u[i] == d by {
            if i != k {
                assert(u[i] == s[i]);
                if i < k {
                    assert(s[i].address != s[k].address);
                } else {
                    assert(s[k].address != s[i].address);
                }
            }
        }
        assert forall|i: int, j: int| 0 <= i < j < u.len() implies (#[trigger] u[i]).address != (#[trigger] u[j]).address by {
            if i != k && j != k {
                assert(u[i] == s[i] && u[j] == s[j]);
            } else if i == k {
                assert(u[j] == s[j]);
                assert(s[k].address != s[j].address);
            } else {
                assert(u[i] == s[i]);
                assert(s[i].address != s[k].address);
            }
        }
    } else {
        assert(u[s.len() as int] == d);
        assert forall|i: int, j: int| 0 <= i < j < u.len() implies (#[trigger] u[i]).address != (#[trigger] u[j]).address by {
            if j == s.len() {
                assert(u[i] == s[i]);
            } else {
                assert(u[i] == s[i] && u[j] == s[j]);
            }
        }
    }
}

/// A list with unique addresses that holds `d` is left as it is by an upsert of `d`.
pub proof fn lemma_upsert_present(s: Seq<DeviceInfo>, d: DeviceInfo)
    requires
        unique_addresses(s),
        s.contains(d),
    ensures
        upserted(s, d) == s,
{
    lemma_find_address_spec(s, d.address);
    let j = choose|j: int| 0 <= j < s.len() && s[j] == d;
    let k = find_address(s, d.address);
    assert(k >= 0);
    if k != j {
        if k < j {
            assert(s[k].address != s[j].address);
        } else {
            assert(s[j].address != s[k].address);
        }
    }
    assert(s.update(k, d) =~= s);
}

/// Sending the same snapshot as found and then as updated leaves the list with
/// the contents (and so the length) that the found event alone gives: the
/// second upsert replaces the record by an identical one.
pub proof fn lemma_found_then_updated(mode: SortMode, s: Seq<DeviceInfo>, d: DeviceInfo)
    requires
        unique_addresses(s),
    ensures
        sorted_by(mode, upserted(sorted_by(mode, upserted(s, d)), d)).to_multiset() == sorted_by(
            mode,
            upserted(s, d),
        ).to_multiset(),
        sorted_by(mode, upserted(sorted_by(mode, upserted(s, d)), d)).len() == sorted_by(
            mode,
            upserted(s, d),
        ).len(),
{
    let once = sorted_by(mode, upserted(s, d));
    lemma_upserted(s, d);
    lemma_sorted_unique(mode, upserted(s, d));
    lemma_sorted_contents(mode, upserted(s, d));
    lemma_upsert_present(once, d);
    lemma_sorted_contents(mode, once);
}

/// Two sightings of one address leave exactly one record of it: the later.
pub proof fn lemma_two_sightings(mode: SortMode, s: Seq<DeviceInfo>, d1: DeviceInfo, d2: DeviceInfo)
    requires
        unique_addresses(s),
        d1.address == d2.address,
    ensures
        ({
            let r = sorted_by(mode, upserted(sorted_by(mode, upserted(s, d1)), d2));
            &&& unique_addresses(r)
            &&& r.contains(d2)
            &&& forall|i: int| 0 <= i < r.len() && (#[trigger] r[i]).address == d2.address ==> r[i] == d2
        }),
{
    let once = sorted_by(mode, upserted(s, d1));
    lemma_upserted(s, d1);
    lemma_sorted_unique(mode, upserted(s, d1));
    let u = upserted(once, d2);
    lemma_upserted(once, d2);
    lemma_sorted_unique(mode, u);
    lemma_sorted_contents(mode, u);
    let r = sorted_by(mode, u);
    assert forall|i: int| 0 <= i < r.len() && (#[trigger] r[i]).address == d2.address implies r[i] == d2 by {
        assert(r.contains(r[i]));
        assert(u.contains(r[i]));
        let k = choose|k: int| 0 <= k < u.len() && u[k] == r[i];
        assert(u[k].address == d2.address);
    }
}

} // verus!
