//! The four orders of the device list and a stable insertion sort.
use vstd::prelude::*;
use crate::config::SortMode;
use crate::text::{chars_of, lower_of, lowercase};
use crate::types::{DeviceInfo, display_name_of, rssi_rank, tier};

verus! {

/// Lexicographic order on characters by code point; a prefix comes first.
pub open spec fn lex_le(a: Seq<char>, b: Seq<char>) -> bool
    decreases a.len(),
{
    if a.len() == 0 {
        true
    } else if b.len() == 0 {
        false
    } else if (a[0] as u32) < (b[0] as u32) {
        true
    } else if (a[0] as u32) > (b[0] as u32) {
        false
    } else {
        lex_le(a.drop_first(), b.drop_first())
    }
}

/// Signal strength for the signal order; a missing reading sinks last.
pub open spec fn signal(d: DeviceInfo) -> int {
    match d.rssi {
        Some(r) => r as int,
        None => i16::MIN as int,
    }
}

/// `a` may stand before `b` in the order of `mode`.
pub open spec fn order_le(mode: SortMode, a: DeviceInfo, b: DeviceInfo) -> bool {
    match mode {
        SortMode::Default => tier(a) < tier(b) || (tier(a) == tier(b) && rssi_rank(a) >= rssi_rank(b)),
        SortMode::Name => lex_le(lower_of(display_name_of(a)), lower_of(display_name_of(b))),
        SortMode::Rssi => signal(a) >= signal(b),
        SortMode::Address => a.address.value() <= b.address.value(),
    }
}

/// Where a stable insertion puts `x`: before the first element that must
/// follow it.
pub open spec fn insert_pos(mode: SortMode, s: Seq<DeviceInfo>, x: DeviceInfo) -> int
    decreases s.len(),
{
    if s.len() == 0 {
        0
    } else if !order_le(mode, s[0], x) {
        0
    } else {
        1 + insert_pos(mode, s.drop_first(), x)
    }
}

/// `s` sorted stably by `mode`: each element is inserted after every earlier
/// one that may stand before it.
pub open spec fn sorted_by(mode: SortMode, s: Seq<DeviceInfo>) -> Seq<DeviceInfo>
    decreases s.len(),
{
    if s.len() == 0 {
        s
    } else {
        let r = sorted_by(mode, s.drop_last());
        r.insert(insert_pos(mode, r, s.last()), s.last())
    }
}

proof fn lemma_insert_pos(mode: SortMode, s: Seq<DeviceInfo>, x: DeviceInfo, p: int)
    requires
        0 <= p <= s.len(),
        forall|j: int| 0 <= j < p ==> order_le(mode, #[trigger] s[j], x),
        p == s.len() || !order_le(mode, s[p], x),
    ensures
        insert_pos(mode, s, x) == p,
    decreases s.len(),
{
    if s.len() > 0 && p > 0 {
        assert(order_le(mode, s[0], x));
        lemma_insert_pos(mode, s.drop_first(), x, p - 1);
    }
}

fn lex_le_exec(a: &Vec<char>, b: &Vec<char>) -> (r: bool)
    ensures
        r == lex_le(a@, b@),
{
    let mut i: usize = 0;
    assert(a@.skip(0) =~= a@);
    assert(b@.skip(0) =~= b@);
    while i < a.len()
        invariant
            i <= a@.len(),
            i <= b@.len(),
            lex_le(a@, b@) == lex_le(a@.skip(i as int), b@.skip(i as int)),
        decreases a@.len() - i,
    {
        if i >= b.len() {
            return false;
        }
        let ca = a[i] as u32;
        let cb = b[i] as u32;
        if ca < cb {
            return true;
        }
        if ca > cb {
            return false;
        }
        assert(a@.skip(i as int).drop_first() =~= a@.skip(i + 1));
        assert(b@.skip(i as int).drop_first() =~= b@.skip(i + 1));
        i += 1;
    }
    true
}

/// Whether `a` may stand before `b` in the order of `mode`.
pub fn device_le(mode: SortMode, a: &DeviceInfo, b: &DeviceInfo) -> (r: bool)
    ensures
        r == order_le(mode, *a, *b),
{
    match mode {
        SortMode::Default => {
            let ka = a.sort_key();
            let kb = b.sort_key();
            ka.0 < kb.0 || (ka.0 == kb.0 && ka.1 <= kb.1)
        },
        SortMode::Name => {
            let na = lowercase(a.display_name());
            let nb = lowercase(b.display_name());
            lex_le_exec(&chars_of(na.as_str()), &chars_of(nb.as_str()))
        },
        SortMode::Rssi => {
            let ra: i16 = match a.rssi {
                Some(r) => r,
                None => i16::MIN,
            };
            let rb: i16 = match b.rssi {
                Some(r) => r,
                None => i16::MIN,
            };
            ra >= rb
        },
        SortMode::Address => a.address.as_u64() <= b.address.as_u64(),
    }
}

/// Sorts the devices stably in the order of `mode`.
pub fn sort_devices(mode: SortMode, v: &mut Vec<DeviceInfo>)
    ensures
        final(v)@ == sorted_by(mode, old(v)@),
{
    let ghost orig = v@;
    let mut out: Vec<DeviceInfo> = Vec::new();
    let ghost k: int = 0;
    while v.len() > 0
        invariant
            0 <= k <= orig.len(),
            v@ == orig.skip(k),
            out@ == sorted_by(mode, orig.take(k)),
        decreases v@.len(),
    {
        let x = v.remove(0);
        let mut i: usize = 0;
        while i < out.len() && device_le(mode, &out[i], &x)
            invariant
                i <= out@.len(),
                forall|j: int| 0 <= j < i ==> order_le(mode, #[trigger] out@[j], x),
            decreases out@.len() - i,
        {
            i += 1;
        }
        proof {
            lemma_insert_pos(mode, out@, x, i as int);
            assert(orig.take(k + 1).drop_last() =~= orig.take(k));
            assert(orig.take(k + 1).last() == x);
            assert(v@ =~= orig.skip(k + 1));
            k = k + 1;
        }
        out.insert(i, x);
    }
    proof {
        assert(orig.take(k) =~= orig);
    }
    *v = out;
}

} // verus!

verus! {

/// No two records share an address.
pub open spec fn unique_addresses(s: Seq<DeviceInfo>) -> bool {
    forall|i: int, j: int| 0 <= i < j < s.len() ==> (#[trigger] s[i]).address != (#[trigger] s[j]).address
}

proof fn lemma_insert_contents(s: Seq<DeviceInfo>, p: int, x: DeviceInfo)
    requires
        0 <= p <= s.len(),
    ensures
        s.insert(p, x).to_multiset() == s.to_multiset().insert(x),
        forall|e: DeviceInfo| s.insert(p, x).contains(e) <==> (s.contains(e) || e == x),
{
    broadcast use vstd::seq_lib::group_seq_properties;
    let t = s.insert(p, x);
    assert(t.remove(p) =~= s);
    t.to_multiset_ensures();
    s.to_multiset_ensures();
    assert(t[p] == x);
    assert(t.to_multiset().count(x) > 0);
    assert(t.to_multiset() =~= s.to_multiset().insert(x));
}

proof fn lemma_insert_unique(s: Seq<DeviceInfo>, p: int, x: DeviceInfo)
    requires
        0 <= p <= s.len(),
        unique_addresses(s),
        forall|i: int| 0 <= i < s.len() ==> (#[trigger] s[i]).address != x.address,
    ensures
        unique_addresses(s.insert(p, x)),
{
    let t = s.insert(p, x);
    assert forall|i: int, j: int| 0 <= i < j < t.len() implies (#[trigger] t[i]).address != (#[trigger] t[j]).address by {
        let si = if i < p { i } else { i - 1 };
        let sj = if j < p { j } else { j - 1 };
        if i == p {
            assert(t[j] == s[sj]);
        } else if j == p {
            assert(t[i] == s[si]);
        } else {
            assert(t[i] == s[si]);
            assert(t[j] == s[sj]);
        }
    }
}

/// Sorting keeps the records: the same multiset, hence the same length.
pub proof fn lemma_sorted_contents(mode: SortMode, s: Seq<DeviceInfo>)
    ensures
        sorted_by(mode, s).to_multiset() == s.to_multiset(),
        sorted_by(mode, s).len() == s.len(),
        forall|e: DeviceInfo| sorted_by(mode, s).contains(e) <==> s.contains(e),
    decreases s.len(),
{
    broadcast use vstd::seq_lib::group_seq_properties;
    if s.len() > 0 {
        let r = sorted_by(mode, s.drop_last());
        lemma_sorted_contents(mode, s.drop_last());
        lemma_insert_pos_bound(mode, r, s.last());
        lemma_insert_contents(r, insert_pos(mode, r, s.last()), s.last());
        assert(s.drop_last().push(s.last()) =~= s);
        s.drop_last().to_multiset_ensures();
        s.to_multiset_ensures();
        r.to_multiset_ensures();
        sorted_by(mode, s).to_multiset_ensures();
        assert forall|e: DeviceInfo| sorted_by(mode, s).contains(e) <==> s.contains(e) by {
            assert(s.contains(e) <==> (s.drop_last().contains(e) || e == s.last())) by {
                if s.contains(e) {
                    let k = choose|k: int| 0 <= k < s.len() && s[k] == e;
                    if k < s.len() - 1 {
                        assert(s.drop_last()[k] == e);
                    }
                }
                if s.drop_last().contains(e) {
                    let k = choose|k: int| 0 <= k < s.drop_last().len() && s.drop_last()[k] == e;
                    assert(s[k] == e);
                }
                if e == s.last() {
                    assert(s[s.len() - 1] == e);
                }
            }
        }
    } else {
        assert(sorted_by(mode, s) == s);
    }
}

proof fn lemma_insert_pos_bound(mode: SortMode, s: Seq<DeviceInfo>, x: DeviceInfo)
    ensures
        0 <= insert_pos(mode, s, x) <= s.len(),
        forall|j: int| 0 <= j < insert_pos(mode, s, x) ==> order_le(mode, #[trigger] s[j], x),
        insert_pos(mode, s, x) < s.len() ==> !order_le(mode, s[insert_pos(mode, s, x)], x),
    decreases s.len(),
{
    if s.len() > 0 && order_le(mode, s[0], x) {
        lemma_insert_pos_bound(mode, s.drop_first(), x);
        assert forall|j: int| 0 <= j < insert_pos(mode, s, x) implies order_le(mode, #[trigger] s[j], x) by {
            if j > 0 {
                assert(s[j] == s.drop_first()[j - 1]);
            }
        }
    }
}

/// Sorting keeps addresses unique.
pub proof fn lemma_sorted_unique(mode: SortMode, s: Seq<DeviceInfo>)
    requires
        unique_addresses(s),
    ensures
        unique_addresses(sorted_by(mode, s)),
    decreases s.len(),
{
    if s.len() > 0 {
        let d = s.drop_last();
        let x = s.last();
        assert(unique_addresses(d)) by {
            assert forall|i: int, j: int| 0 <= i < j < d.len() implies (#[trigger] d[i]).address != (#[trigger] d[j]).address by {
                assert(d[i] == s[i] && d[j] == s[j]);
            }
        }
        lemma_sorted_unique(mode, d);
        lemma_sorted_contents(mode, d);
        let r = sorted_by(mode, d);
        lemma_insert_pos_bound(mode, r, x);
        assert forall|i: int| 0 <= i < r.len() implies (#[trigger] r[i]).address != x.address by {
            assert(r.contains(r[i]));
            assert(d.contains(r[i]));
            let k = choose|k: int| 0 <= k < d.len() && d[k] == r[i];
            assert(s[k] == r[i]);
            assert(s[s.len() - 1] == x);
        }
        lemma_insert_unique(r, insert_pos(mode, r, x), x);
    }
}

} // verus!

verus! {

proof fn lemma_lex_total(a: Seq<char>, b: Seq<char>)
    ensures
        lex_le(a, b) || lex_le(b, a),
    decreases a.len(),
{
    if a.len() > 0 && b.len() > 0 && a[0] as u32 == b[0] as u32 {
        lemma_lex_total(a.drop_first(), b.drop_first());
    }
}

proof fn lemma_lex_trans(a: Seq<char>, b: Seq<char>, c: Seq<char>)
    requires
        lex_le(a, b),
        lex_le(b, c),
    ensures
        lex_le(a, c),
    decreases a.len(),
{
    if a.len() > 0 && (a[0] as u32) == (b[0] as u32) && (b[0] as u32) == (c[0] as u32) {
        lemma_lex_trans(a.drop_first(), b.drop_first(), c.drop_first());
    }
}

/// Any two devices are comparable in every order.
pub proof fn lemma_order_total(mode: SortMode, a: DeviceInfo, b: DeviceInfo)
    ensures
        order_le(mode, a, b) || order_le(mode, b, a),
{
    if mode == SortMode::Name {
        lemma_lex_total(lower_of(display_name_of(a)), lower_of(display_name_of(b)));
    }
}

/// Every order is transitive.
pub proof fn lemma_order_trans(mode: SortMode, a: DeviceInfo, b: DeviceInfo, c: DeviceInfo)
    requires
        order_le(mode, a, b),
        order_le(mode, b, c),
    ensures
        order_le(mode, a, c),
{
    if mode == SortMode::Name {
        lemma_lex_trans(
            lower_of(display_name_of(a)),
            lower_of(display_name_of(b)),
            lower_of(display_name_of(c)),
        );
    }
}

/// Devices that rank equal to `c` in the order of `mode`.
pub open spec fn same_rank(mode: SortMode, c: DeviceInfo) -> spec_fn(DeviceInfo) -> bool {
    |d: DeviceInfo| order_le(mode, d, c) && order_le(mode, c, d)
}

/// Every pair of positions is in order.
pub open spec fn is_ordered(mode: SortMode, s: Seq<DeviceInfo>) -> bool {
    forall|i: int, j: int| 0 <= i < j < s.len() ==> order_le(mode, #[trigger] s[i], #[trigger] s[j])
}

proof fn lemma_insert_step(mode: SortMode, r: Seq<DeviceInfo>, x: DeviceInfo, c: DeviceInfo)
    requires
        is_ordered(mode, r),
    ensures
        is_ordered(mode, r.insert(insert_pos(mode, r, x), x)),
        r.insert(insert_pos(mode, r, x), x).filter(same_rank(mode, c)) == r.push(x).filter(
            same_rank(mode, c),
        ),
{
    broadcast use vstd::seq_lib::group_seq_properties;
    let p = insert_pos(mode, r, x);
    lemma_insert_pos_bound(mode, r, x);
    let t = r.insert(p, x);
    assert forall|i: int, j: int| 0 <= i < j < t.len() implies order_le(mode, #[trigger] t[i], #[trigger] t[j]) by {
        if i == p {
            assert(t[j] == r[j - 1]);
            lemma_order_total(mode, r[p], x);
            if j - 1 > p {
                assert(order_le(mode, r[p], r[j - 1]));
            } else {
                lemma_order_total(mode, r[p], r[p]);
            }
            lemma_order_trans(mode, x, r[p], r[j - 1]);
        } else if j == p {
            assert(t[i] == r[i]);
        } else {
            let ri = if i < p { i } else { i - 1 };
            let rj = if j < p { j } else { j - 1 };
            assert(t[i] == r[ri] && t[j] == r[rj]);
        }
    }
    let e = same_rank(mode, c);
    let front = r.take(p);
    let back = r.skip(p);
    assert(t =~= front + seq![x] + back);
    assert(r =~= front + back);
    Seq::filter_distributes_over_add(front + seq![x], back, e);
    Seq::filter_distributes_over_add(front, seq![x], e);
    Seq::filter_distributes_over_add(front, back, e);
    r.lemma_filter_push(x, e);
    front.lemma_filter_push(x, e);
    assert(front + seq![x] =~= front.push(x));
    if e(x) {
        assert(back.all(|y: DeviceInfo| !e(y))) by {
            assert forall|q: int| 0 <= q < back.len() implies !e(#[trigger] back[q]) by {
                let y = back[q];
                assert(y == r[p + q]);
                if e(y) {
                    lemma_order_trans(mode, y, c, x);
                    if q > 0 {
                        assert(order_le(mode, r[p], r[p + q]));
                        lemma_order_trans(mode, r[p], y, x);
                    }
                }
            }
        }
        back.lemma_all_neg_filter_empty(e);
        assert(back.filter(e) =~= Seq::<DeviceInfo>::empty());
        assert(t.filter(e) =~= r.push(x).filter(e));
    } else {
        assert(t.filter(e) =~= r.push(x).filter(e));
    }
}

/// The stable sort orders every pair of positions, keeps the records, and
/// keeps the relative order of records that rank equal: for every rank, the
/// records of that rank appear in the order they had before.
pub proof fn lemma_sort_is_stable(mode: SortMode, s: Seq<DeviceInfo>, c: DeviceInfo)
    ensures
        is_ordered(mode, sorted_by(mode, s)),
        sorted_by(mode, s).to_multiset() == s.to_multiset(),
        sorted_by(mode, s).filter(same_rank(mode, c)) == s.filter(same_rank(mode, c)),
    decreases s.len(),
{
    lemma_sorted_contents(mode, s);
    if s.len() > 0 {
        let r = sorted_by(mode, s.drop_last());
        lemma_sort_is_stable(mode, s.drop_last(), c);
        lemma_insert_step(mode, r, s.last(), c);
        r.lemma_filter_push(s.last(), same_rank(mode, c));
        s.drop_last().lemma_filter_push(s.last(), same_rank(mode, c));
        assert(s.drop_last().push(s.last()) =~= s);
    } else {
        assert(sorted_by(mode, s) == s);
    }
}

/// In the default order the first key is the tier (connected, then paired or
/// trusted, then the rest) and the second the signal, strongest first, with a
/// missing reading weakest.
pub proof fn lemma_default_order_keys(a: DeviceInfo, b: DeviceInfo)
    ensures
        order_le(SortMode::Default, a, b) <==> (tier(a) < tier(b) || (tier(a) == tier(b) && rssi_rank(a) >= rssi_rank(b))),
        a.rssi is None ==> rssi_rank(a) <= rssi_rank(b),
{
}

} // verus!
