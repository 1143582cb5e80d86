//! The statistics view: the seconds spent per category and per day or month,
//! each list sorted by its key as text.
use vstd::prelude::*;
use vstd::string::*;
use crate::calendar::DateTime;
use crate::clock::seconds_between;
use crate::formatting::{date_text, format_date, format_month_key, month_key_text};
use crate::model::TimeEntry;
use crate::text::text_equal;

verus! {

/// Code-point lexicographic order of texts, the order in which `String`s
/// compare (UTF-8 keeps the order of code points).
pub open spec fn text_lt(a: Seq<char>, b: Seq<char>) -> bool
    decreases a.len(),
{
    if a.len() == 0 {
        b.len() > 0
    } else if b.len() == 0 {
        false
    } else if a[0] < b[0] {
        true
    } else if a[0] > b[0] {
        false
    } else {
        text_lt(a.drop_first(), b.drop_first())
    }
}

/// The key under which an entry's time is summed over time: its start day,
/// or its start month.
pub open spec fn period_key(start: DateTime, by_month: bool) -> Seq<char> {
    if by_month {
        month_key_text(start.date.year as int, start.date.month as int)
    } else {
        date_text(start.date)
    }
}

pub open spec fn category_keys(entries: Seq<TimeEntry>) -> Seq<Seq<char>> {
    entries.map_values(|e: TimeEntry| e.category@)
}

pub open spec fn period_keys(entries: Seq<TimeEntry>, by_month: bool) -> Seq<Seq<char>> {
    entries.map_values(|e: TimeEntry| period_key(e.start_time, by_month))
}

pub open spec fn entry_seconds(entries: Seq<TimeEntry>) -> Seq<int> {
    entries.map_values(|e: TimeEntry| seconds_between(e.end_time, e.start_time))
}

/// The sum of `values[i]` over the positions `i` whose key is `k`.
pub open spec fn group_sum(keys: Seq<Seq<char>>, values: Seq<int>, k: Seq<char>) -> int
    decreases keys.len(),
{
    if keys.len() == 0 || values.len() == 0 {
        0
    } else {
        group_sum(keys.drop_last(), values.drop_last(), k) + if keys.last() == k {
            values.last()
        } else {
            0
        }
    }
}

/// The values at the positions whose key is `k`, in order.
pub open spec fn values_under(keys: Seq<Seq<char>>, values: Seq<int>, k: Seq<char>) -> Seq<int>
    decreases keys.len(),
{
    if keys.len() == 0 || values.len() == 0 {
        Seq::<int>::empty()
    } else {
        values_under(keys.drop_last(), values.drop_last(), k) + if keys.last() == k {
            seq![values.last()]
        } else {
            Seq::<int>::empty()
        }
    }
}

/// `totals` lists each key of `keys` once, in increasing text order, with the
/// sum of the values under it.
pub open spec fn totals_of(totals: Seq<(Seq<char>, int)>, keys: Seq<Seq<char>>, values: Seq<int>) -> bool {
    &&& forall|i: int, j: int|
        0 <= i < j < totals.len() ==> text_lt(#[trigger] totals[i].0, #[trigger] totals[j].0)
    &&& forall|i: int|
        0 <= i < totals.len() ==> keys.contains(#[trigger] totals[i].0) && totals[i].1
            == group_sum(keys, values, totals[i].0)
    &&& forall|j: int| 0 <= j < keys.len() ==> key_listed(totals, #[trigger] keys[j])
}

/// Whether `k` is the key of some total.
pub open spec fn key_listed(totals: Seq<(Seq<char>, int)>, k: Seq<char>) -> bool {
    exists|i: int| 0 <= i < totals.len() && #[trigger] totals[i].0 == k
}

pub open spec fn totals_view(v: Seq<(String, i128)>) -> Seq<(Seq<char>, int)> {
    v.map_values(|p: (String, i128)| (p.0@, p.1 as int))
}

/// The statistics of the entries in a range.
#[derive(Debug)]
pub struct StatsData {
    /// The entries, as listed.
    pub entries: Vec<TimeEntry>,
    /// Seconds per category.
    pub category_totals: Vec<(String, i128)>,
    /// Seconds per day, or per month for a year.
    pub period_totals: Vec<(String, i128)>,
    /// Seconds of all the entries together.
    pub total_seconds: i128,
    /// Whether the period totals are per month (otherwise per day).
    pub by_month: bool,
}

// ---------------------------------------------------------------------------
// Lemmas on the text order
// ---------------------------------------------------------------------------

pub proof fn lemma_text_lt_irreflexive(a: Seq<char>)
    ensures
        !text_lt(a, a),
    decreases a.len(),
{
    if a.len() > 0 {
        lemma_text_lt_irreflexive(a.drop_first());
    }
}

pub proof fn lemma_text_lt_transitive(a: Seq<char>, b: Seq<char>, c: Seq<char>)
    requires
        text_lt(a, b),
        text_lt(b, c),
    ensures
        text_lt(a, c),
    decreases a.len(),
{
    if a.len() > 0 && b.len() > 0 && c.len() > 0 {
        if a[0] == b[0] && b[0] == c[0] {
            lemma_text_lt_transitive(a.drop_first(), b.drop_first(), c.drop_first());
        }
    }
}

pub proof fn lemma_text_lt_total(a: Seq<char>, b: Seq<char>)
    ensures
        a == b || text_lt(a, b) || text_lt(b, a),
    decreases a.len(),
{
    if a.len() > 0 && b.len() > 0 {
        if a[0] == b[0] {
            lemma_text_lt_total(a.drop_first(), b.drop_first());
            if a.drop_first() == b.drop_first() {
                assert(a =~= seq![a[0]] + a.drop_first());
                assert(b =~= seq![b[0]] + b.drop_first());
            }
        }
    } else if a.len() == 0 && b.len() == 0 {
        assert(a =~= b);
    }
}

proof fn lemma_text_lt_asymmetric(a: Seq<char>, b: Seq<char>)
    requires
        text_lt(a, b),
    ensures
        !text_lt(b, a),
        a != b,
{
    if text_lt(b, a) {
        lemma_text_lt_transitive(a, b, a);
        lemma_text_lt_irreflexive(a);
    }
    if a == b {
        lemma_text_lt_irreflexive(a);
    }
}

// ---------------------------------------------------------------------------
// Executable aggregation
// ---------------------------------------------------------------------------

/// Compares two texts in code-point order: -1, 0 or 1.
pub fn compare_text(a: &str, b: &str) -> (r: i8)
    ensures
        r == -1 <==> text_lt(a@, b@),
        r == 0 <==> a@ == b@,
        r == 1 <==> text_lt(b@, a@),
        -1 <= r <= 1,
{
    let n = a.unicode_len();
    let m = b.unicode_len();
    let mut i: usize = 0;
    proof {
        assert(a@.skip(0) =~= a@);
        assert(b@.skip(0) =~= b@);
    }
    while i < n && i < m
        invariant
            n == a@.len(),
            m == b@.len(),
            i <= n,
            i <= m,
            text_lt(a@, b@) == text_lt(a@.skip(i as int), b@.skip(i as int)),
            text_lt(b@, a@) == text_lt(b@.skip(i as int), a@.skip(i as int)),
            (a@ == b@) == (a@.skip(i as int) == b@.skip(i as int)),
        decreases n - i,
    {
        let x = a.get_char(i);
        let y = b.get_char(i);
        let ghost sa = a@.skip(i as int);
        let ghost sb = b@.skip(i as int);
        assert(sa[0] == x && sb[0] == y);
        if x < y {
            proof {
                lemma_text_lt_asymmetric(sa, sb);
                lemma_text_lt_total(a@, b@);
            }
            return -1;
        }
        if x > y {
            proof {
                lemma_text_lt_asymmetric(sb, sa);
                lemma_text_lt_total(a@, b@);
            }
            return 1;
        }
        proof {
            assert(sa.drop_first() =~= a@.skip(i + 1));
            assert(sb.drop_first() =~= b@.skip(i + 1));
            assert(x == y);
            if sa.drop_first() == sb.drop_first() {
                assert(sa =~= seq![x] + sa.drop_first());
                assert(sb =~= seq![y] + sb.drop_first());
            }
        }
        i = i + 1;
    }
    let ghost sa = a@.skip(i as int);
    let ghost sb = b@.skip(i as int);
    if n == m {
        assert(sa.len() == 0 && sb.len() == 0);
        assert(sa =~= sb);
        proof {
            lemma_text_lt_irreflexive(sa);
        }
        0
    } else if i == n {
        assert(sa.len() == 0 && sb.len() > 0);
        proof {
            lemma_text_lt_asymmetric(sa, sb);
        }
        -1
    } else {
        assert(sb.len() == 0 && sa.len() > 0);
        proof {
            lemma_text_lt_asymmetric(sb, sa);
        }
        1
    }
}

proof fn lemma_group_sum_push(keys: Seq<Seq<char>>, values: Seq<int>, k: Seq<char>, v: int, q: Seq<char>)
    requires
        keys.len() == values.len(),
    ensures
        group_sum(keys.push(k), values.push(v), q) == group_sum(keys, values, q) + if k == q {
            v
        } else {
            0
        },
{
    assert(keys.push(k).drop_last() =~= keys);
    assert(values.push(v).drop_last() =~= values);
}

proof fn lemma_group_sum_absent(keys: Seq<Seq<char>>, values: Seq<int>, k: Seq<char>)
    requires
        keys.len() == values.len(),
        !keys.contains(k),
    ensures
        group_sum(keys, values, k) == 0,
    decreases keys.len(),
{
    if keys.len() > 0 {
        assert(!keys.drop_last().contains(k)) by {
            if keys.drop_last().contains(k) {
                let j = choose|j: int| 0 <= j < keys.drop_last().len() && keys.drop_last()[j] == k;
                assert(keys[j] == k);
            }
        }
        assert(keys.last() != k) by {
            assert(keys[keys.len() - 1] == keys.last());
        }
        lemma_group_sum_absent(keys.drop_last(), values.drop_last(), k);
    }
}

/// Adds `v` seconds under `key` to a sorted list of totals.
fn add_to_totals(
    totals: &mut Vec<(String, i128)>,
    key: String,
    v: i64,
    Ghost(keys): Ghost<Seq<Seq<char>>>,
    Ghost(values): Ghost<Seq<int>>,
)
    requires
        keys.len() == values.len(),
        totals_of(totals_view(old(totals)@), keys, values),
        forall|i: int|
            0 <= i < old(totals)@.len() ==> -(keys.len() as int) * 0x8000_0000_0000_0000
                <= #[trigger] old(totals)@[i].1 <= (keys.len() as int) * 0x7fff_ffff_ffff_ffff,
        keys.len() < 0x1_0000_0000_0000_0000,
    ensures
        totals_of(totals_view(final(totals)@), keys.push(key@), values.push(v as int)),
        forall|i: int|
            0 <= i < final(totals)@.len() ==> -(keys.len() + 1) * 0x8000_0000_0000_0000
                <= #[trigger] final(totals)@[i].1 <= (keys.len() + 1) * 0x7fff_ffff_ffff_ffff,
{
    let ghost keys2 = keys.push(key@);
    let ghost values2 = values.push(v as int);
    let ghost t0 = totals_view(totals@);
    let n = totals.len();
    let mut p: usize = 0;
    while p < n && compare_text(totals[p].0.as_str(), key.as_str()) == -1
        invariant
            n == totals@.len(),
            p <= n,
            totals_view(totals@) == t0,
            totals_of(t0, keys, values),
            forall|i: int| 0 <= i < p ==> text_lt(#[trigger] t0[i].0, key@),
        decreases n - p,
    {
        p = p + 1;
    }
    proof {
        assert forall|q: Seq<char>| true implies group_sum(keys2, values2, q) == group_sum(
            keys,
            values,
            q,
        ) + if key@ == q {
            v as int
        } else {
            0
        } by {
            lemma_group_sum_push(keys, values, key@, v as int, q);
        }
    }
    if p < n && compare_text(totals[p].0.as_str(), key.as_str()) == 0 {
        let old_value = totals[p].1;
        let k = totals[p].0.clone();
        assert(keys.contains(t0[p as int].0));
        let ghost before = totals@;
        totals.set(p, (k, old_value + v as i128));
        proof {
            let t1 = totals_view(totals@);
            assert(t1 =~= t0.update(p as int, (key@, t0[p as int].1 + v)));
            assert forall|i: int, j: int| 0 <= i < j < t1.len() implies text_lt(
                #[trigger] t1[i].0,
                #[trigger] t1[j].0,
            ) by {
                assert(t1[i].0 == t0[i].0);
                assert(t1[j].0 == t0[j].0);
            }
            assert forall|i: int| 0 <= i < t1.len() implies keys2.contains(#[trigger] t1[i].0)
                && t1[i].1 == group_sum(keys2, values2, t1[i].0) by {
                assert(keys.contains(t0[i].0));
                let j = choose|j: int| 0 <= j < keys.len() && keys[j] == t0[i].0;
                assert(keys2[j] == t0[i].0);
                if i < p {
                    assert(text_lt(t0[i].0, t0[p as int].0));
                    lemma_text_lt_asymmetric(t0[i].0, t0[p as int].0);
                } else if i > p {
                    assert(text_lt(t0[p as int].0, t0[i].0));
                    lemma_text_lt_asymmetric(t0[p as int].0, t0[i].0);
                }
            }
            assert forall|j: int| 0 <= j < keys2.len() implies key_listed(t1, #[trigger] keys2[j]) by {
                if j < keys.len() {
                    assert(keys2[j] == keys[j]);
                    assert(key_listed(t0, keys[j]));
                    let i = choose|i: int| 0 <= i < t0.len() && #[trigger] t0[i].0 == keys[j];
                    assert(t1[i].0 == keys2[j]);
                } else {
                    assert(t1[p as int].0 == keys2[j]);
                }
            }
            assert forall|i: int| 0 <= i < totals@.len() implies -(keys.len() + 1)
                * 0x8000_0000_0000_0000 <= #[trigger] totals@[i].1 <= (keys.len() + 1)
                * 0x7fff_ffff_ffff_ffff by {
                if i != p {
                    assert(totals@[i] == before[i]);
                }
            }
            assert(forall|i: int, j: int|
                0 <= i < j < t1.len() ==> text_lt(#[trigger] t1[i].0, #[trigger] t1[j].0));
            assert(forall|i: int|
                0 <= i < t1.len() ==> keys2.contains(#[trigger] t1[i].0) && t1[i].1
                    == group_sum(keys2, values2, t1[i].0));
            assert(totals_of(t1, keys2, values2));
        }
    } else {
        proof {
            if p < n {
                lemma_text_lt_total(t0[p as int].0, key@);
            }
            assert(!keys.contains(key@)) by {
                if keys.contains(key@) {
                    let j = choose|j: int| 0 <= j < keys.len() && keys[j] == key@;
                    assert(key_listed(t0, keys[j]));
                    let i = choose|i: int| 0 <= i < t0.len() && #[trigger] t0[i].0 == keys[j];
                    if i < p {
                        lemma_text_lt_irreflexive(key@);
                    } else if i > p {
                        lemma_text_lt_transitive(key@, t0[p as int].0, t0[i].0);
                        lemma_text_lt_irreflexive(key@);
                    }
                }
            }
            lemma_group_sum_absent(keys, values, key@);
        }
        let ghost before = totals@;
        totals.insert(p, (key, v as i128));
        proof {
            let t1 = totals_view(totals@);
            let kk = key@;
            assert(t1 =~= t0.insert(p as int, (kk, v as int)));
            assert forall|i: int, j: int| 0 <= i < j < t1.len() implies text_lt(
                #[trigger] t1[i].0,
                #[trigger] t1[j].0,
            ) by {
                if i < p && j < p {
                } else if i < p && j == p {
                } else if i < p {
                    assert(t1[j] == t0[j - 1]);
                } else if i == p {
                    assert(t1[j] == t0[j - 1]);
                    if j - 1 > p {
                        lemma_text_lt_transitive(kk, t0[p as int].0, t0[j - 1].0);
                    }
                } else {
                    assert(t1[i] == t0[i - 1]);
                    assert(t1[j] == t0[j - 1]);
                }
            }
            assert forall|i: int| 0 <= i < t1.len() implies keys2.contains(#[trigger] t1[i].0)
                && t1[i].1 == group_sum(keys2, values2, t1[i].0) by {
                if i == p {
                    assert(keys2[keys.len() as int] == kk);
                } else {
                    let i0 = if i < p {
                        i
                    } else {
                        i - 1
                    };
                    assert(t1[i] == t0[i0]);
                    assert(keys.contains(t0[i0].0));
                    let j = choose|j: int| 0 <= j < keys.len() && keys[j] == t0[i0].0;
                    assert(keys2[j] == t0[i0].0);
                    if t0[i0].0 == kk {
                        assert(keys.contains(kk));
                    }
                }
            }
            assert forall|j: int| 0 <= j < keys2.len() implies key_listed(t1, #[trigger] keys2[j]) by {
                if j < keys.len() {
                    assert(keys2[j] == keys[j]);
                    assert(key_listed(t0, keys[j]));
                    let i = choose|i: int| 0 <= i < t0.len() && #[trigger] t0[i].0 == keys[j];
                    if i < p {
                        assert(t1[i].0 == keys2[j]);
                    } else {
                        assert(t1[i + 1].0 == keys2[j]);
                    }
                } else {
                    assert(t1[p as int].0 == keys2[j]);
                }
            }
            assert forall|i: int| 0 <= i < totals@.len() implies -(keys.len() + 1)
                * 0x8000_0000_0000_0000 <= #[trigger] totals@[i].1 <= (keys.len() + 1)
                * 0x7fff_ffff_ffff_ffff by {
                if i < p {
                    assert(totals@[i] == before[i]);
                } else if i > p {
                    assert(totals@[i] == before[i - 1]);
                }
            }
            assert(forall|i: int, j: int|
                0 <= i < j < t1.len() ==> text_lt(#[trigger] t1[i].0, #[trigger] t1[j].0));
            assert(forall|i: int|
                0 <= i < t1.len() ==> keys2.contains(#[trigger] t1[i].0) && t1[i].1
                    == group_sum(keys2, values2, t1[i].0));
            assert(totals_of(t1, keys2, values2));
        }
    }
}

/// The key under which an entry's time is summed over time.
pub fn entry_period_key(start: &DateTime, by_month: bool) -> (r: String)
    ensures
        r@ == period_key(*start, by_month),
{
    if by_month {
        format_month_key(start.date.year, start.date.month)
    } else {
        format_date(&start.date)
    }
}

/// The statistics of `entries`: seconds per category and per day (or per
/// month when `by_month`), each list in increasing key order.
pub fn aggregate_stats(entries: Vec<TimeEntry>, by_month: bool) -> (r: StatsData)
    requires
        forall|i: int| 0 <= i < entries@.len() ==> (#[trigger] entries@[i]).wf(),
    ensures
        r.entries@ == entries@,
        r.total_seconds == total_of(entry_seconds(entries@)),
        r.by_month == by_month,
        totals_of(
            totals_view(r.category_totals@),
            category_keys(entries@),
            entry_seconds(entries@),
        ),
        totals_of(
            totals_view(r.period_totals@),
            period_keys(entries@, by_month),
            entry_seconds(entries@),
        ),
{
    let mut category_totals: Vec<(String, i128)> = Vec::new();
    let mut period_totals: Vec<(String, i128)> = Vec::new();
    let mut total: i128 = 0;
    let n = entries.len();
    let mut i: usize = 0;
    proof {
        assert(category_keys(entries@).take(0) =~= Seq::<Seq<char>>::empty());
        assert(period_keys(entries@, by_month).take(0) =~= Seq::<Seq<char>>::empty());
        assert(entry_seconds(entries@).take(0) =~= Seq::<int>::empty());
    }
    while i < n
        invariant
            n == entries@.len(),
            i <= n,
            forall|j: int| 0 <= j < entries@.len() ==> (#[trigger] entries@[j]).wf(),
            totals_of(
                totals_view(category_totals@),
                category_keys(entries@).take(i as int),
                entry_seconds(entries@).take(i as int),
            ),
            totals_of(
                totals_view(period_totals@),
                period_keys(entries@, by_month).take(i as int),
                entry_seconds(entries@).take(i as int),
            ),
            forall|j: int|
                0 <= j < category_totals@.len() ==> -(i as int) * 0x8000_0000_0000_0000
                    <= #[trigger] category_totals@[j].1 <= (i as int) * 0x7fff_ffff_ffff_ffff,
            forall|j: int|
                0 <= j < period_totals@.len() ==> -(i as int) * 0x8000_0000_0000_0000
                    <= #[trigger] period_totals@[j].1 <= (i as int) * 0x7fff_ffff_ffff_ffff,
            total == total_of(entry_seconds(entries@).take(i as int)),
            -(i as int) * 0x8000_0000_0000_0000 <= total <= (i as int) * 0x7fff_ffff_ffff_ffff,
        decreases n - i,
    {
        let entry = &entries[i];
        let secs = entry.duration_seconds();
        let ckey = entry.category.clone();
        let pkey = entry_period_key(&entry.start_time, by_month);
        proof {
            assert(category_keys(entries@).take(i as int).push(ckey@) =~= category_keys(
                entries@,
            ).take(i + 1));
            assert(period_keys(entries@, by_month).take(i as int).push(pkey@) =~= period_keys(
                entries@,
                by_month,
            ).take(i + 1));
            assert(entry_seconds(entries@).take(i as int).push(secs as int) =~= entry_seconds(
                entries@,
            ).take(i + 1));
            assert(entry_seconds(entries@).take(i + 1).drop_last() =~= entry_seconds(entries@).take(
                i as int,
            ));
        }
        total = total + secs as i128;
        add_to_totals(
            &mut category_totals,
            ckey,
            secs,
            Ghost(category_keys(entries@).take(i as int)),
            Ghost(entry_seconds(entries@).take(i as int)),
        );
        add_to_totals(
            &mut period_totals,
            pkey,
            secs,
            Ghost(period_keys(entries@, by_month).take(i as int)),
            Ghost(entry_seconds(entries@).take(i as int)),
        );
        i = i + 1;
    }
    proof {
        assert(category_keys(entries@).take(n as int) =~= category_keys(entries@));
        assert(period_keys(entries@, by_month).take(n as int) =~= period_keys(entries@, by_month));
        assert(entry_seconds(entries@).take(n as int) =~= entry_seconds(entries@));
    }
    StatsData { entries, category_totals, period_totals, total_seconds: total, by_month }
}

/// The seconds of the entries of `category`, in the order of the entries.
pub fn category_seconds(entries: &Vec<TimeEntry>, category: &str) -> (r: Vec<i64>)
    requires
        forall|i: int| 0 <= i < entries@.len() ==> (#[trigger] entries@[i]).wf(),
    ensures
        r@.map_values(|v: i64| v as int) == values_under(
            category_keys(entries@),
            entry_seconds(entries@),
            category@,
        ),
{
    let mut out: Vec<i64> = Vec::new();
    let n = entries.len();
    let mut i: usize = 0;
    proof {
        assert(category_keys(entries@).take(0) =~= Seq::<Seq<char>>::empty());
        assert(entry_seconds(entries@).take(0) =~= Seq::<int>::empty());
        assert(out@.map_values(|v: i64| v as int) =~= Seq::<int>::empty());
    }
    while i < n
        invariant
            n == entries@.len(),
            i <= n,
            forall|j: int| 0 <= j < entries@.len() ==> (#[trigger] entries@[j]).wf(),
            out@.map_values(|v: i64| v as int) == values_under(
                category_keys(entries@).take(i as int),
                entry_seconds(entries@).take(i as int),
                category@,
            ),
        decreases n - i,
    {
        let entry = &entries[i];
        let secs = entry.duration_seconds();
        let ghost ks = category_keys(entries@).take(i + 1);
        let ghost vs = entry_seconds(entries@).take(i + 1);
        proof {
            assert(ks.drop_last() =~= category_keys(entries@).take(i as int));
            assert(vs.drop_last() =~= entry_seconds(entries@).take(i as int));
            assert(ks.last() == entry.category@);
            assert(vs.last() == secs as int);
        }
        let ghost before = out@;
        if text_equal(entry.category.as_str(), category) {
            out.push(secs);
            assert(out@.map_values(|v: i64| v as int) =~= before.map_values(|v: i64| v as int)
                + seq![secs as int]);
        } else {
            assert(values_under(ks, vs, category@) =~= values_under(ks.drop_last(), vs.drop_last(), category@));
        }
        i = i + 1;
    }
    proof {
        assert(category_keys(entries@).take(n as int) =~= category_keys(entries@));
        assert(entry_seconds(entries@).take(n as int) =~= entry_seconds(entries@));
    }
    out
}

/// The seconds of the entries whose day (or month, when `by_month`) is
/// `key`, in the order of the entries.
pub fn period_seconds(entries: &Vec<TimeEntry>, key: &str, by_month: bool) -> (r: Vec<i64>)
    requires
        forall|i: int| 0 <= i < entries@.len() ==> (#[trigger] entries@[i]).wf(),
    ensures
        r@.map_values(|v: i64| v as int) == values_under(
            period_keys(entries@, by_month),
            entry_seconds(entries@),
            key@,
        ),
{
    let mut out: Vec<i64> = Vec::new();
    let n = entries.len();
    let mut i: usize = 0;
    proof {
        assert(period_keys(entries@, by_month).take(0) =~= Seq::<Seq<char>>::empty());
        assert(entry_seconds(entries@).take(0) =~= Seq::<int>::empty());
        assert(out@.map_values(|v: i64| v as int) =~= Seq::<int>::empty());
    }
    while i < n
        invariant
            n == entries@.len(),
            i <= n,
            forall|j: int| 0 <= j < entries@.len() ==> (#[trigger] entries@[j]).wf(),
            out@.map_values(|v: i64| v as int) == values_under(
                period_keys(entries@, by_month).take(i as int),
                entry_seconds(entries@).take(i as int),
                key@,
            ),
        decreases n - i,
    {
        let entry = &entries[i];
        let secs = entry.duration_seconds();
        let pkey = entry_period_key(&entry.start_time, by_month);
        let ghost ks = period_keys(entries@, by_month).take(i + 1);
        let ghost vs = entry_seconds(entries@).take(i + 1);
        proof {
            assert(ks.drop_last() =~= period_keys(entries@, by_month).take(i as int));
            assert(vs.drop_last() =~= entry_seconds(entries@).take(i as int));
            assert(ks.last() == pkey@);
            assert(vs.last() == secs as int);
        }
        let ghost before = out@;
        if text_equal(pkey.as_str(), key) {
            out.push(secs);
            assert(out@.map_values(|v: i64| v as int) =~= before.map_values(|v: i64| v as int)
                + seq![secs as int]);
        } else {
            assert(values_under(ks, vs, key@) =~= values_under(ks.drop_last(), vs.drop_last(), key@));
        }
        i = i + 1;
    }
    proof {
        assert(period_keys(entries@, by_month).take(n as int) =~= period_keys(entries@, by_month));
        assert(entry_seconds(entries@).take(n as int) =~= entry_seconds(entries@));
    }
    out
}

// ---------------------------------------------------------------------------
// What the totals add up to
// ---------------------------------------------------------------------------

/// The sum of the values.
pub open spec fn total_of(values: Seq<int>) -> int
    decreases values.len(),
{
    if values.len() == 0 {
        0
    } else {
        total_of(values.drop_last()) + values.last()
    }
}

/// The sum of the totals' amounts.
pub open spec fn totals_sum(totals: Seq<(Seq<char>, int)>) -> int
    decreases totals.len(),
{
    if totals.len() == 0 {
        0
    } else {
        totals_sum(totals.drop_last()) + totals.last().1
    }
}

/// The sum, over the keys of `totals`, of the values under each key.
spec fn group_sums(totals: Seq<(Seq<char>, int)>, keys: Seq<Seq<char>>, values: Seq<int>) -> int
    decreases totals.len(),
{
    if totals.len() == 0 {
        0
    } else {
        group_sums(totals.drop_last(), keys, values) + group_sum(keys, values, totals.last().0)
    }
}

/// How many totals have the key `k`.
spec fn key_count(totals: Seq<(Seq<char>, int)>, k: Seq<char>) -> int
    decreases totals.len(),
{
    if totals.len() == 0 {
        0
    } else {
        key_count(totals.drop_last(), k) + if totals.last().0 == k {
            1int
        } else {
            0int
        }
    }
}

spec fn keys_distinct(totals: Seq<(Seq<char>, int)>) -> bool {
    forall|i: int, j: int|
        0 <= i < j < totals.len() ==> #[trigger] totals[i].0 != #[trigger] totals[j].0
}

proof fn lemma_group_sums_push(
    totals: Seq<(Seq<char>, int)>,
    keys: Seq<Seq<char>>,
    values: Seq<int>,
    k: Seq<char>,
    v: int,
)
    requires
        keys.len() == values.len(),
    ensures
        group_sums(totals, keys.push(k), values.push(v)) == group_sums(totals, keys, values) + v
            * key_count(totals, k),
    decreases totals.len(),
{
    if totals.len() > 0 {
        let rest = totals.drop_last();
        lemma_group_sums_push(rest, keys, values, k, v);
        lemma_group_sum_push(keys, values, k, v, totals.last().0);
        let c = key_count(rest, k);
        assert(v * (c + 1) == v * c + v) by (nonlinear_arith);
    }
}

proof fn lemma_key_count(totals: Seq<(Seq<char>, int)>, k: Seq<char>)
    requires
        keys_distinct(totals),
    ensures
        key_count(totals, k) == if key_listed(totals, k) {
            1int
        } else {
            0int
        },
    decreases totals.len(),
{
    if totals.len() > 0 {
        let rest = totals.drop_last();
        let n = totals.len() - 1;
        assert(keys_distinct(rest)) by {
            assert forall|i: int, j: int| 0 <= i < j < rest.len() implies #[trigger] rest[i].0
                != #[trigger] rest[j].0 by {
                assert(rest[i] == totals[i] && rest[j] == totals[j]);
            }
        }
        lemma_key_count(rest, k);
        if key_listed(rest, k) {
            let i = choose|i: int| 0 <= i < rest.len() && #[trigger] rest[i].0 == k;
            assert(totals[i].0 == k);
            assert(totals[n] == totals.last());
        }
        if key_listed(totals, k) {
            let i = choose|i: int| 0 <= i < totals.len() && #[trigger] totals[i].0 == k;
            if i < n {
                assert(rest[i].0 == k);
            }
        }
        if totals.last().0 == k {
            assert(totals[n].0 == k);
        }
    }
}

proof fn lemma_group_sums_no_keys(totals: Seq<(Seq<char>, int)>)
    ensures
        group_sums(totals, Seq::<Seq<char>>::empty(), Seq::<int>::empty()) == 0,
    decreases totals.len(),
{
    if totals.len() > 0 {
        lemma_group_sums_no_keys(totals.drop_last());
    }
}

/// Over distinct keys that cover every key, the group sums add up to the sum
/// of all values.
proof fn lemma_group_sums_total(
    totals: Seq<(Seq<char>, int)>,
    keys: Seq<Seq<char>>,
    values: Seq<int>,
)
    requires
        keys.len() == values.len(),
        keys_distinct(totals),
        forall|j: int| 0 <= j < keys.len() ==> key_listed(totals, #[trigger] keys[j]),
    ensures
        group_sums(totals, keys, values) == total_of(values),
    decreases keys.len(),
{
    if keys.len() == 0 {
        assert(keys =~= Seq::<Seq<char>>::empty());
        assert(values =~= Seq::<int>::empty());
        lemma_group_sums_no_keys(totals);
    } else {
        let ks = keys.drop_last();
        let vs = values.drop_last();
        let k = keys.last();
        let v = values.last();
        assert forall|j: int| 0 <= j < ks.len() implies key_listed(totals, #[trigger] ks[j]) by {
            assert(ks[j] == keys[j]);
        }
        lemma_group_sums_total(totals, ks, vs);
        assert(ks.push(k) =~= keys);
        assert(vs.push(v) =~= values);
        lemma_group_sums_push(totals, ks, vs, k, v);
        assert(key_listed(totals, keys[keys.len() - 1]));
        lemma_key_count(totals, k);
    }
}

proof fn lemma_totals_sum_is_group_sums(
    totals: Seq<(Seq<char>, int)>,
    keys: Seq<Seq<char>>,
    values: Seq<int>,
)
    requires
        forall|i: int|
            0 <= i < totals.len() ==> (#[trigger] totals[i]).1 == group_sum(keys, values, totals[i].0),
    ensures
        totals_sum(totals) == group_sums(totals, keys, values),
    decreases totals.len(),
{
    if totals.len() > 0 {
        let rest = totals.drop_last();
        assert forall|i: int| 0 <= i < rest.len() implies (#[trigger] rest[i]).1 == group_sum(
            keys,
            values,
            rest[i].0,
        ) by {
            assert(rest[i] == totals[i]);
        }
        lemma_totals_sum_is_group_sums(rest, keys, values);
        assert(totals[totals.len() - 1] == totals.last());
    }
}

/// Totals that list each key once with the sum under it add up to the sum of
/// all values.
pub proof fn lemma_totals_add_up(
    totals: Seq<(Seq<char>, int)>,
    keys: Seq<Seq<char>>,
    values: Seq<int>,
)
    requires
        keys.len() == values.len(),
        totals_of(totals, keys, values),
    ensures
        totals_sum(totals) == total_of(values),
{
    assert(keys_distinct(totals)) by {
        assert forall|i: int, j: int| 0 <= i < j < totals.len() implies #[trigger] totals[i].0
            != #[trigger] totals[j].0 by {
            if totals[i].0 == totals[j].0 {
                lemma_text_lt_irreflexive(totals[i].0);
            }
        }
    }
    assert forall|i: int| 0 <= i < totals.len() implies (#[trigger] totals[i]).1 == group_sum(
        keys,
        values,
        totals[i].0,
    ) by {}
    lemma_totals_sum_is_group_sums(totals, keys, values);
    lemma_group_sums_total(totals, keys, values);
}

} // verus!
