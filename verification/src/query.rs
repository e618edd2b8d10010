//! Per-field accumulation of filter/sort/query-by clauses, and their
//! flattening into the engine's wire-level query strings.
//!
//! Every builder call draws the next value from one shared monotonic counter,
//! so that clauses recorded across different fields — and across nested
//! sub-queries built with the same counter — combine in exactly the order the
//! calls were made.

use vstd::prelude::*;

use crate::ordered::OrderedState;

verus! {

/// The monotonic counter a whole query tree shares.
///
/// Every node of a query's object graph must draw from the same counter: the
/// order values it hands out decide how clauses from different fields
/// interleave in the final query string.
#[derive(Debug)]
pub struct QueryCounter {
    pub value: u16,
}

impl QueryCounter {
    pub fn new() -> (r: Self)
        ensures
            r.value == 0,
    {
        Self { value: 0 }
    }

    /// Hands out the current order value and advances.
    pub fn next(&mut self) -> (r: u16)
        requires
            old(self).value < u16::MAX,
        ensures
            r == old(self).value,
            final(self).value == old(self).value + 1,
    {
        let ret = self.value;
        self.value = self.value + 1;
        ret
    }
}

/// `:=v` — the equality filter.
pub open spec fn spec_equals_clause(v: Seq<char>) -> Seq<char> {
    ":="@ + v
}

/// `:!=v` — the inequality filter.
pub open spec fn spec_not_equals_clause(v: Seq<char>) -> Seq<char> {
    ":!="@ + v
}

/// `:>v` — the strict greater-than filter.
pub open spec fn spec_greater_than_clause(v: Seq<char>) -> Seq<char> {
    ":>"@ + v
}

/// `:>=v` — the greater-or-equal filter.
pub open spec fn spec_greater_or_equals_clause(v: Seq<char>) -> Seq<char> {
    ":>="@ + v
}

/// `:<v` — the strict less-than filter.
pub open spec fn spec_less_than_clause(v: Seq<char>) -> Seq<char> {
    ":<"@ + v
}

/// `:<=v` — the less-or-equal filter.
pub open spec fn spec_less_or_equals_clause(v: Seq<char>) -> Seq<char> {
    ":<="@ + v
}

/// `:[v]` — the bracketed filter used for ranges and one-of lists.
pub open spec fn spec_bracket_clause(v: Seq<char>) -> Seq<char> {
    ":["@ + v + "]"@
}

/// Texts joined by a separator, in order.
pub open spec fn spec_join(items: Seq<Seq<char>>, sep: Seq<char>) -> Seq<char>
    decreases items.len(),
{
    if items.len() == 0 {
        Seq::<char>::empty()
    } else if items.len() == 1 {
        items[0]
    } else {
        spec_join(items.drop_last(), sep) + sep + items.last()
    }
}

/// Appends `sep` and `item` to `buf` when extending a non-empty join.
fn append_joined(buf: &mut String, sep: &str, item: &str, nonempty: bool, Ghost(done): Ghost<Seq<Seq<char>>>)
    requires
        old(buf)@ == spec_join(done, sep@),
        nonempty <==> done.len() > 0,
    ensures
        final(buf)@ == spec_join(done.push(item@), sep@),
{
    proof {
        assert(done.push(item@).drop_last() =~= done);
    }
    if nonempty {
        buf.append(sep);
    }
    buf.append(item);
    proof {
        if done.len() == 0 {
            assert(Seq::<char>::empty() + item@ =~= item@);
            assert(final(buf)@ =~= spec_join(done.push(item@), sep@));
        } else {
            assert(final(buf)@ =~= spec_join(done.push(item@), sep@));
        }
    }
}

/// Joins strings with a separator.
pub fn join_strings(items: &Vec<String>, sep: &str) -> (r: String)
    ensures
        r@ == spec_join(items.deep_view(), sep@),
{
    let mut buf = String::new();
    let mut i: usize = 0;
    while i < items.len()
        invariant
            i <= items@.len(),
            buf@ == spec_join(items.deep_view().subrange(0, i as int), sep@),
            i > 0 ==> items.deep_view().subrange(0, i as int).len() > 0,
        decreases items@.len() - i,
    {
        proof {
            assert(items.deep_view().subrange(0, i as int).push(items@[i as int]@)
                =~~= items.deep_view().subrange(0, i as int + 1));
        }
        append_joined(
            &mut buf,
            sep,
            items[i].as_str(),
            i > 0,
            Ghost(items.deep_view().subrange(0, i as int)),
        );
        i = i + 1;
    }
    proof {
        assert(items.deep_view().subrange(0, items.deep_view().len() as int) =~~= items.deep_view());
    }
    buf
}

/// One field's accumulated query contributions: any number of filter
/// clauses, at most one query-by mark, at most one sort clause.
#[derive(Debug)]
pub struct QueryState {
    pub filter_by: Vec<OrderedState>,
    pub query_by: Option<OrderedState>,
    pub sort_by: Option<OrderedState>,
}

impl QueryState {
    pub fn new() -> (r: Self)
        ensures
            r.filter_by@ == Seq::<OrderedState>::empty(),
            r.query_by is None,
            r.sort_by is None,
    {
        Self { filter_by: Vec::new(), query_by: None, sort_by: None }
    }

    /// Records one rendered filter clause under the next order value.
    fn push_filter(&mut self, counter: &mut QueryCounter, inner: String)
        requires
            old(counter).value < u16::MAX,
        ensures
            final(counter).value == old(counter).value + 1,
            final(self).filter_by@ == old(self).filter_by@.push(OrderedState {
                order: old(counter).value,
                field: None,
                inner: Some(inner),
            }),
            final(self).query_by == old(self).query_by,
            final(self).sort_by == old(self).sort_by,
    {
        let order = counter.next();
        self.filter_by.push(OrderedState { order, field: None, inner: Some(inner) });
    }

    pub fn equals(&mut self, counter: &mut QueryCounter, val: &str)
        requires
            old(counter).value < u16::MAX,
        ensures
            final(counter).value == old(counter).value + 1,
            final(self).filter_by@.len() == old(self).filter_by@.len() + 1,
            final(self).filter_by@.drop_last() == old(self).filter_by@,
            final(self).filter_by@.last().order == old(counter).value,
            final(self).filter_by@.last().field is None,
            final(self).filter_by@.last().inner matches Some(s) && s@ == spec_equals_clause(val@),
            final(self).query_by == old(self).query_by,
            final(self).sort_by == old(self).sort_by,
    {
        let mut inner = String::from_str(":=");
        inner.append(val);
        self.push_filter(counter, inner);
        proof {
            assert(final(self).filter_by@.drop_last() =~= old(self).filter_by@);
        }
    }

    pub fn not_equals(&mut self, counter: &mut QueryCounter, val: &str)
        requires
            old(counter).value < u16::MAX,
        ensures
            final(counter).value == old(counter).value + 1,
            final(self).filter_by@.len() == old(self).filter_by@.len() + 1,
            final(self).filter_by@.drop_last() == old(self).filter_by@,
            final(self).filter_by@.last().order == old(counter).value,
            final(self).filter_by@.last().field is None,
            final(self).filter_by@.last().inner matches Some(s) && s@ == spec_not_equals_clause(
                val@,
            ),
            final(self).query_by == old(self).query_by,
            final(self).sort_by == old(self).sort_by,
    {
        let mut inner = String::from_str(":!=");
        inner.append(val);
        self.push_filter(counter, inner);
        proof {
            assert(final(self).filter_by@.drop_last() =~= old(self).filter_by@);
        }
    }

    pub fn greater_than(&mut self, counter: &mut QueryCounter, val: &str)
        requires
            old(counter).value < u16::MAX,
        ensures
            final(counter).value == old(counter).value + 1,
            final(self).filter_by@.len() == old(self).filter_by@.len() + 1,
            final(self).filter_by@.drop_last() == old(self).filter_by@,
            final(self).filter_by@.last().order == old(counter).value,
            final(self).filter_by@.last().field is None,
            final(self).filter_by@.last().inner matches Some(s) && s@ == spec_greater_than_clause(
                val@,
            ),
            final(self).query_by == old(self).query_by,
            final(self).sort_by == old(self).sort_by,
    {
        let mut inner = String::from_str(":>");
        inner.append(val);
        self.push_filter(counter, inner);
        proof {
            assert(final(self).filter_by@.drop_last() =~= old(self).filter_by@);
        }
    }

    pub fn greater_or_equals(&mut self, counter: &mut QueryCounter, val: &str)
        requires
            old(counter).value < u16::MAX,
        ensures
            final(counter).value == old(counter).value + 1,
            final(self).filter_by@.len() == old(self).filter_by@.len() + 1,
            final(self).filter_by@.drop_last() == old(self).filter_by@,
            final(self).filter_by@.last().order == old(counter).value,
            final(self).filter_by@.last().field is None,
            final(self).filter_by@.last().inner matches Some(s) && s@
                == spec_greater_or_equals_clause(val@),
            final(self).query_by == old(self).query_by,
            final(self).sort_by == old(self).sort_by,
    {
        let mut inner = String::from_str(":>=");
        inner.append(val);
        self.push_filter(counter, inner);
        proof {
            assert(final(self).filter_by@.drop_last() =~= old(self).filter_by@);
        }
    }

    pub fn less_than(&mut self, counter: &mut QueryCounter, val: &str)
        requires
            old(counter).value < u16::MAX,
        ensures
            final(counter).value == old(counter).value + 1,
            final(self).filter_by@.len() == old(self).filter_by@.len() + 1,
            final(self).filter_by@.drop_last() == old(self).filter_by@,
            final(self).filter_by@.last().order == old(counter).value,
            final(self).filter_by@.last().field is None,
            final(self).filter_by@.last().inner matches Some(s) && s@ == spec_less_than_clause(
                val@,
            ),
            final(self).query_by == old(self).query_by,
            final(self).sort_by == old(self).sort_by,
    {
        let mut inner = String::from_str(":<");
        inner.append(val);
        self.push_filter(counter, inner);
        proof {
            assert(final(self).filter_by@.drop_last() =~= old(self).filter_by@);
        }
    }

    pub fn less_or_equals(&mut self, counter: &mut QueryCounter, val: &str)
        requires
            old(counter).value < u16::MAX,
        ensures
            final(counter).value == old(counter).value + 1,
            final(self).filter_by@.len() == old(self).filter_by@.len() + 1,
            final(self).filter_by@.drop_last() == old(self).filter_by@,
            final(self).filter_by@.last().order == old(counter).value,
            final(self).filter_by@.last().field is None,
            final(self).filter_by@.last().inner matches Some(s) && s@ == spec_less_or_equals_clause(
                val@,
            ),
            final(self).query_by == old(self).query_by,
            final(self).sort_by == old(self).sort_by,
    {
        let mut inner = String::from_str(":<=");
        inner.append(val);
        self.push_filter(counter, inner);
        proof {
            assert(final(self).filter_by@.drop_last() =~= old(self).filter_by@);
        }
    }

    /// Records `:[v]` over a caller-rendered range text such as `10..100`.
    pub fn in_range(&mut self, counter: &mut QueryCounter, val: &str)
        requires
            old(counter).value < u16::MAX,
        ensures
            final(counter).value == old(counter).value + 1,
            final(self).filter_by@.len() == old(self).filter_by@.len() + 1,
            final(self).filter_by@.drop_last() == old(self).filter_by@,
            final(self).filter_by@.last().order == old(counter).value,
            final(self).filter_by@.last().field is None,
            final(self).filter_by@.last().inner matches Some(s) && s@ == spec_bracket_clause(val@),
            final(self).query_by == old(self).query_by,
            final(self).sort_by == old(self).sort_by,
    {
        let mut inner = String::from_str(":[");
        inner.append(val);
        inner.append("]");
        self.push_filter(counter, inner);
        proof {
            assert(inner@ =~= spec_bracket_clause(val@));
            assert(final(self).filter_by@.drop_last() =~= old(self).filter_by@);
        }
    }

    /// Records `:[a,b,c]`: the items joined by commas inside one bracketed
    /// filter.
    pub fn is_one_of(&mut self, counter: &mut QueryCounter, items: &Vec<String>)
        requires
            old(counter).value < u16::MAX,
        ensures
            final(counter).value == old(counter).value + 1,
            final(self).filter_by@.len() == old(self).filter_by@.len() + 1,
            final(self).filter_by@.drop_last() == old(self).filter_by@,
            final(self).filter_by@.last().order == old(counter).value,
            final(self).filter_by@.last().field is None,
            final(self).filter_by@.last().inner matches Some(s) && s@ == spec_bracket_clause(
                spec_join(items.deep_view(), ","@),
            ),
            final(self).query_by == old(self).query_by,
            final(self).sort_by == old(self).sort_by,
    {
        let joined = join_strings(items, ",");
        let mut inner = String::from_str(":[");
        inner.append(joined.as_str());
        inner.append("]");
        self.push_filter(counter, inner);
        proof {
            assert(inner@ =~= spec_bracket_clause(spec_join(items.deep_view(), ","@)));
            assert(final(self).filter_by@.drop_last() =~= old(self).filter_by@);
        }
    }

    /// Marks this field as a query-by target, under the next order value.
    /// A field contributes at most one query-by mark: a second call replaces
    /// the first, taking a fresh order value.
    pub fn query_by(&mut self, counter: &mut QueryCounter)
        requires
            old(counter).value < u16::MAX,
        ensures
            final(counter).value == old(counter).value + 1,
            final(self).query_by matches Some(st) && st == (OrderedState {
                order: old(counter).value,
                field: None,
                inner: None,
            }),
            final(self).filter_by == old(self).filter_by,
            final(self).sort_by == old(self).sort_by,
    {
        let order = counter.next();
        self.query_by = Some(OrderedState { order, field: None, inner: None });
    }

    /// Records `:asc` as this field's single sort clause.
    pub fn sort_asc(&mut self, counter: &mut QueryCounter)
        requires
            old(counter).value < u16::MAX,
        ensures
            final(counter).value == old(counter).value + 1,
            final(self).sort_by matches Some(st) && st.order == old(counter).value && st.field
                is None && (st.inner matches Some(s) && s@ == ":asc"@),
            final(self).filter_by == old(self).filter_by,
            final(self).query_by == old(self).query_by,
    {
        let order = counter.next();
        self.sort_by = Some(OrderedState { order, field: None, inner: Some(String::from_str(":asc")) });
    }

    /// Records `:desc` as this field's single sort clause.
    pub fn sort_desc(&mut self, counter: &mut QueryCounter)
        requires
            old(counter).value < u16::MAX,
        ensures
            final(counter).value == old(counter).value + 1,
            final(self).sort_by matches Some(st) && st.order == old(counter).value && st.field
                is None && (st.inner matches Some(s) && s@ == ":desc"@),
            final(self).filter_by == old(self).filter_by,
            final(self).query_by == old(self).query_by,
    {
        let order = counter.next();
        self.sort_by = Some(
            OrderedState { order, field: None, inner: Some(String::from_str(":desc")) },
        );
    }

    /// Moves the accumulated filter clauses out.
    pub fn take_filter_by(this: &mut Self) -> (r: Vec<OrderedState>)
        ensures
            r == old(this).filter_by,
            final(this).filter_by@ == Seq::<OrderedState>::empty(),
            final(this).query_by == old(this).query_by,
            final(this).sort_by == old(this).sort_by,
    {
        let mut taken = Vec::new();
        core::mem::swap(&mut this.filter_by, &mut taken);
        proof {
            assert(final(this).filter_by@ =~= Seq::<OrderedState>::empty());
        }
        taken
    }

    pub fn filter_by_len(this: &Self) -> (r: usize)
        ensures
            r == this.filter_by@.len(),
    {
        this.filter_by.len()
    }

    /// Moves the query-by mark out, if one was recorded.
    pub fn take_query_by(this: &mut Self) -> (r: Option<OrderedState>)
        ensures
            r == old(this).query_by,
            final(this).query_by is None,
            final(this).filter_by == old(this).filter_by,
            final(this).sort_by == old(this).sort_by,
    {
        this.query_by.take()
    }

    pub fn query_by_len(this: &Self) -> (r: usize)
        ensures
            r == (if this.query_by is Some { 1int } else { 0int }),
    {
        if this.query_by.is_some() {
            1
        } else {
            0
        }
    }

    /// Moves the sort clause out, if one was recorded.
    pub fn take_sort_by(this: &mut Self) -> (r: Option<OrderedState>)
        ensures
            r == old(this).sort_by,
            final(this).sort_by is None,
            final(this).filter_by == old(this).filter_by,
            final(this).query_by == old(this).query_by,
    {
        this.sort_by.take()
    }

    pub fn sort_by_len(this: &Self) -> (r: usize)
        ensures
            r == (if this.sort_by is Some { 1int } else { 0int }),
    {
        if this.sort_by.is_some() {
            1
        } else {
            0
        }
    }
}

/// Clause orders never decrease along the sequence.
pub open spec fn sorted_orders(s: Seq<OrderedState>) -> bool {
    forall|i: int, j: int|
        0 <= i < j < s.len() ==> #[trigger] s[i].order <= #[trigger] s[j].order
}

/// No two clauses share an order value.
pub open spec fn distinct_orders(s: Seq<OrderedState>) -> bool {
    forall|i: int, j: int|
        0 <= i < j < s.len() ==> #[trigger] s[i].order != #[trigger] s[j].order
}

/// Clause orders strictly increase along the sequence — the shape of a
/// sequence of builder calls drawing from one shared counter.
pub open spec fn strictly_increasing_orders(s: Seq<OrderedState>) -> bool {
    forall|i: int, j: int|
        0 <= i < j < s.len() ==> #[trigger] s[i].order < #[trigger] s[j].order
}

/// Sorts clauses by their order value, in place.
pub fn sort_states(v: &mut Vec<OrderedState>)
    ensures
        sorted_orders(final(v)@),
        final(v)@.to_multiset() == old(v)@.to_multiset(),
        final(v)@.len() == old(v)@.len(),
{
    broadcast use vstd::seq_lib::to_multiset_remove, vstd::seq_lib::to_multiset_insert, vstd::seq_lib::to_multiset_contains, vstd::multiset::group_multiset_axioms;

    let ghost orig = v@;
    let mut i: usize = 0;
    while i < v.len()
        invariant
            i <= v@.len(),
            v@.len() == orig.len(),
            v@.to_multiset() == orig.to_multiset(),
            sorted_orders(v@.subrange(0, i as int)),
        decreases v@.len() - i,
    {
        let x_order = v[i].order;
        let mut p: usize = i;
        while p > 0 && v[p - 1].order > x_order
            invariant
                p <= i,
                i < v@.len(),
                x_order == v@[i as int].order,
                forall|k: int| p <= k < i ==> #[trigger] v@[k].order > x_order,
            decreases p,
        {
            p = p - 1;
        }
        proof {
            assert forall|k: int| 0 <= k < p implies #[trigger] v@[k].order <= x_order by {
                assert(v@.subrange(0, i as int)[k].order <= v@.subrange(0, i as int)[
                    p as int - 1].order);
            };
        }
        let ghost before = v@;
        let x = v.remove(i);
        v.insert(p, x);
        proof {
            assert(before.contains(x)) by {
                assert(before[i as int] == x);
            }
            vstd::seq_lib::to_multiset_contains(before, x);
            let ghost mid = before.remove(i as int);
            vstd::seq_lib::to_multiset_remove(before, i as int);
            assert(v@ == mid.insert(p as int, x));
            vstd::seq_lib::to_multiset_insert(mid, p as int, x);
            assert(v@.to_multiset() =~= before.to_multiset());
            assert forall|k: int| 0 <= k <= i as int implies v@[k] == (if k < p as int {
                before[k]
            } else if k == p as int {
                x
            } else {
                before[k - 1]
            }) by {}
            assert forall|k1: int, k2: int| 0 <= k1 < k2 < i + 1 implies v@[k1].order
                <= v@[k2].order by {
                if k1 < p as int && k2 < p as int {
                    assert(before.subrange(0, i as int)[k1].order <= before.subrange(
                        0, i as int)[k2].order);
                } else if k1 < p as int && k2 == p as int {
                    assert(before[k1].order <= x_order);
                } else if k1 < p as int && k2 > p as int {
                    assert(before.subrange(0, i as int)[k1].order <= before.subrange(
                        0, i as int)[k2 - 1].order);
                } else if k1 == p as int && k2 > p as int {
                    assert(before[k2 - 1].order > x_order);
                } else if k1 > p as int && k2 > p as int {
                    assert(before.subrange(0, i as int)[k1 - 1].order <= before.subrange(
                        0, i as int)[k2 - 1].order);
                }
            };
            assert(sorted_orders(v@.subrange(0, i as int + 1))) by {
                assert forall|k1: int, k2: int|
                    0 <= k1 < k2 < i + 1 implies #[trigger] v@.subrange(0, i as int + 1)[k1].order
                    <= #[trigger] v@.subrange(0, i as int + 1)[k2].order by {
                    assert(v@[k1].order <= v@[k2].order);
                };
            }
        }
        i = i + 1;
    }
    proof {
        assert(v@.subrange(0, v@.len() as int) =~= v@);
    }
}

/// Distinct orders survive rearrangement: any sequence holding the same
/// clauses holds them under the same, still pairwise distinct, orders.
pub proof fn lemma_distinct_orders_permutation(s1: Seq<OrderedState>, s2: Seq<OrderedState>)
    requires
        s1.to_multiset() == s2.to_multiset(),
        distinct_orders(s1),
    ensures
        distinct_orders(s2),
    decreases s2.len(),
{
    broadcast use vstd::seq_lib::to_multiset_remove, vstd::seq_lib::to_multiset_contains, vstd::seq_lib::to_multiset_len, vstd::multiset::group_multiset_axioms;

    vstd::seq_lib::to_multiset_len(s1);
    vstd::seq_lib::to_multiset_len(s2);
    if s2.len() > 0 {
        let x = s2[0];
        assert(s2.contains(x));
        assert(s1.to_multiset().count(x) > 0);
        assert(s1.contains(x));
        let k = choose|k: int| 0 <= k < s1.len() && s1[k] == x;
        let s1r = s1.remove(k);
        let s2r = s2.remove(0);
        vstd::seq_lib::to_multiset_remove(s1, k);
        vstd::seq_lib::to_multiset_remove(s2, 0);
        assert(s1r.to_multiset() == s1.to_multiset().remove(x));
        assert(s2r.to_multiset() == s2.to_multiset().remove(x));
        assert(distinct_orders(s1r)) by {
            assert forall|i: int, j: int| 0 <= i < j < s1r.len() implies #[trigger] s1r[i].order
                != #[trigger] s1r[j].order by {
                let i0 = if i < k { i } else { i + 1 };
                let j0 = if j < k { j } else { j + 1 };
                assert(s1r[i] == s1[i0]);
                assert(s1r[j] == s1[j0]);
                assert(s1[i0].order != s1[j0].order);
            };
        }
        lemma_distinct_orders_permutation(s1r, s2r);
        assert forall|i: int, j: int| 0 <= i < j < s2.len() implies #[trigger] s2[i].order
            != #[trigger] s2[j].order by {
            if i > 0 {
                assert(s2r[i - 1] == s2[i]);
                assert(s2r[j - 1] == s2[j]);
                assert(s2r[i - 1].order != s2r[j - 1].order);
            } else {
                // s2[j] sits in the remainder, so its order is an order of s1
                // other than the one position k carries.
                assert(s2r[j - 1] == s2[j]);
                assert(s2r.contains(s2[j]));
                vstd::seq_lib::to_multiset_contains(s2r, s2[j]);
                vstd::seq_lib::to_multiset_contains(s1r, s2[j]);
                assert(s1r.to_multiset().count(s2[j]) > 0);
                assert(s1r.contains(s2[j]));
                let m = choose|m: int| 0 <= m < s1r.len() && s1r[m] == s2[j];
                let m0 = if m < k { m } else { m + 1 };
                assert(s1r[m] == s1[m0]);
                if m0 < k {
                    assert(s1[m0].order != s1[k].order);
                } else {
                    assert(s1[k].order != s1[m0].order);
                }
            }
        };
    }
}

/// The law behind deterministic clause ordering: a sequence of clauses with
/// pairwise distinct orders has exactly one order-sorted arrangement.
///
/// The builder calls of one query draw strictly increasing orders from the
/// shared counter, so the call sequence itself is that unique arrangement:
/// however the per-field accumulators are traversed when the query is
/// flattened, sorting restores exactly the order the calls were made in.
pub proof fn lemma_sorted_permutation_unique(a: Seq<OrderedState>, b: Seq<OrderedState>)
    requires
        sorted_orders(a),
        sorted_orders(b),
        a.to_multiset() == b.to_multiset(),
        distinct_orders(a),
    ensures
        a == b,
    decreases a.len(),
{
    broadcast use vstd::seq_lib::to_multiset_remove, vstd::seq_lib::to_multiset_contains, vstd::seq_lib::to_multiset_len, vstd::multiset::group_multiset_axioms;

    vstd::seq_lib::to_multiset_len(a);
    vstd::seq_lib::to_multiset_len(b);
    assert(a.len() == b.len());
    if a.len() == 0 {
        assert(a =~= b);
    } else {
        assert(a.contains(a[0])) by {
            assert(a[0] == a[0]);
        }
        assert(b.to_multiset().count(a[0]) > 0);
        assert(b.contains(a[0]));
        let j = choose|j: int| 0 <= j < b.len() && b[j] == a[0];
        assert(a.contains(b[0])) by {
            assert(a.to_multiset().count(b[0]) > 0);
        }
        let k = choose|k: int| 0 <= k < a.len() && a[k] == b[0];
        assert(b[0].order <= b[j].order);
        assert(a[0].order <= a[k].order);
        assert(a[0].order == b[0].order);
        if k != 0 {
            assert(a[0].order != a[k].order);
            assert(false);
        }
        assert(b[0] == a[0]);

        let at = a.remove(0);
        let bt = b.remove(0);
        vstd::seq_lib::to_multiset_remove(a, 0);
        vstd::seq_lib::to_multiset_remove(b, 0);
        assert(at.to_multiset() == a.to_multiset().remove(a[0]));
        assert(bt.to_multiset() == b.to_multiset().remove(b[0]));
        assert(at.to_multiset() == bt.to_multiset());
        assert(sorted_orders(at)) by {
            assert forall|i1: int, j1: int| 0 <= i1 < j1 < at.len() implies #[trigger] at[i1].order
                <= #[trigger] at[j1].order by {
                assert(at[i1] == a[i1 + 1]);
                assert(at[j1] == a[j1 + 1]);
                assert(a[i1 + 1].order <= a[j1 + 1].order);
            };
        }
        assert(sorted_orders(bt)) by {
            assert forall|i1: int, j1: int| 0 <= i1 < j1 < bt.len() implies #[trigger] bt[i1].order
                <= #[trigger] bt[j1].order by {
                assert(bt[i1] == b[i1 + 1]);
                assert(bt[j1] == b[j1 + 1]);
                assert(b[i1 + 1].order <= b[j1 + 1].order);
            };
        }
        assert(distinct_orders(at)) by {
            assert forall|i1: int, j1: int| 0 <= i1 < j1 < at.len() implies #[trigger] at[i1].order
                != #[trigger] at[j1].order by {
                assert(at[i1] == a[i1 + 1]);
                assert(at[j1] == a[j1 + 1]);
                assert(a[i1 + 1].order != a[j1 + 1].order);
            };
        }
        lemma_sorted_permutation_unique(at, bt);
        assert forall|i1: int| 0 <= i1 < a.len() implies a[i1] == b[i1] by {
            if i1 > 0 {
                assert(at[i1 - 1] == a[i1]);
                assert(bt[i1 - 1] == b[i1]);
                assert(at[i1 - 1] == bt[i1 - 1]);
            }
        };
        assert(a =~= b);
    }
}

/// `r` is `st` with the field name `f` attached.
pub open spec fn spec_with_field(r: OrderedState, st: OrderedState, f: Seq<char>) -> bool {
    &&& r.order == st.order
    &&& r.field matches Some(g) && g@ == f
    &&& r.inner == st.inner
}

/// The clause texts of `states`, in sequence order.
pub open spec fn spec_rendered(states: Seq<OrderedState>) -> Seq<Seq<char>> {
    states.map(|i: int, st: OrderedState| st.spec_render())
}

/// Renders a category of clauses: sorted by order, clause texts joined by
/// `sep`; no clauses at all yield `None`, never an empty string.
///
/// When the recorded orders are pairwise distinct — as they are whenever one
/// shared counter issued them — the result is the join over the unique
/// order-sorted arrangement of the clauses.
fn flatten_category(states: Vec<OrderedState>, sep: &str) -> (r: Option<String>)
    ensures
        r is None <==> states@.len() == 0,
        distinct_orders(states@) ==> forall|s: Seq<OrderedState>|
            sorted_orders(s) && s.to_multiset() == states@.to_multiset() && s.len() > 0
                ==> (r matches Some(f) && f@ == spec_join(spec_rendered(s), sep@)),
{
    let ghost original = states@;
    let mut states = states;
    sort_states(&mut states);
    if states.len() == 0 {
        proof {
            vstd::seq_lib::to_multiset_len(original);
            assert forall|s: Seq<OrderedState>|
                s.to_multiset() == original.to_multiset() implies s.len() == 0 by {
                vstd::seq_lib::to_multiset_len(s);
            };
        }
        None
    } else {
        let mut renders: Vec<String> = Vec::new();
        let mut i: usize = 0;
        while i < states.len()
            invariant
                i <= states@.len(),
                renders@.len() == i,
                forall|k: int|
                    0 <= k < i as int ==> #[trigger] renders@[k]@ == states@[k].spec_render(),
            decreases states@.len() - i,
        {
            let rendered = states[i].render();
            renders.push(rendered);
            i = i + 1;
        }
        let joined = join_strings(&renders, sep);
        proof {
            assert(renders.deep_view() =~~= spec_rendered(states@));
        }
        proof {
            if distinct_orders(original) {
                assert forall|s: Seq<OrderedState>|
                    sorted_orders(s) && s.to_multiset() == original.to_multiset() && s.len() > 0
                        implies s == states@ by {
                    lemma_distinct_orders_permutation(original, s);
                    lemma_sorted_permutation_unique(s, states@);
                };
            }
        }
        Some(joined)
    }
}

/// A strictly increasing call sequence is its own unique sorted arrangement:
/// whatever order the clauses were collected in, sorting them renders the
/// call order.
pub proof fn lemma_rendered_order_is_call_order(
    collected: Seq<OrderedState>,
    invoked: Seq<OrderedState>,
)
    requires
        strictly_increasing_orders(invoked),
        collected.to_multiset() == invoked.to_multiset(),
    ensures
        distinct_orders(collected),
        forall|s: Seq<OrderedState>|
            sorted_orders(s) && s.to_multiset() == collected.to_multiset() ==> s == invoked,
{
    assert(distinct_orders(invoked));
    assert(sorted_orders(invoked));
    lemma_distinct_orders_permutation(invoked, collected);
    assert forall|s: Seq<OrderedState>|
        sorted_orders(s) && s.to_multiset() == collected.to_multiset() implies s == invoked by {
        lemma_sorted_permutation_unique(invoked, s);
    };
}

/// The finalized wire-level query: the free-text query plus the three
/// combined clause strings. An empty category is absent, never an empty
/// string.
#[derive(Debug, Clone)]
pub struct SearchQuery {
    pub q: String,
    pub query_by: Option<String>,
    pub sort_by: Option<String>,
    pub filter_by: Option<String>,
    pub page: Option<u64>,
    pub per_page: Option<u64>,
    pub collection: Option<String>,
}

impl SearchQuery {
    pub fn page(self, page: u64) -> (r: Self)
        ensures
            r == (SearchQuery { page: Some(page), ..self }),
    {
        Self { page: Some(page), ..self }
    }

    pub fn per_page(self, per_page: u64) -> (r: Self)
        ensures
            r == (SearchQuery { per_page: Some(per_page), ..self }),
    {
        Self { per_page: Some(per_page), ..self }
    }

    pub fn collection(self, collection: String) -> (r: Self)
        ensures
            r == (SearchQuery { collection: Some(collection), ..self }),
    {
        Self { collection: Some(collection), ..self }
    }
}

/// Gathers every field's clauses — across nested sub-queries too — into the
/// three flat category lists, then flattens them into a `SearchQuery`.
#[derive(Debug)]
pub struct QueryBuilder {
    pub filter_by: Vec<OrderedState>,
    pub query_by: Vec<OrderedState>,
    pub sort_by: Vec<OrderedState>,
}

impl QueryBuilder {
    pub fn new() -> (r: Self)
        ensures
            r.filter_by@ == Seq::<OrderedState>::empty(),
            r.query_by@ == Seq::<OrderedState>::empty(),
            r.sort_by@ == Seq::<OrderedState>::empty(),
    {
        Self { filter_by: Vec::new(), query_by: Vec::new(), sort_by: Vec::new() }
    }

    /// Records one free-form filter condition, already rendered, under the
    /// next order value. This is the untyped counterpart of the per-field
    /// builders, used for dynamic documents.
    pub fn filter_by(&mut self, counter: &mut QueryCounter, cond: String)
        requires
            old(counter).value < u16::MAX,
        ensures
            final(counter).value == old(counter).value + 1,
            final(self).filter_by@ == old(self).filter_by@.push(OrderedState {
                order: old(counter).value,
                field: None,
                inner: Some(cond),
            }),
            final(self).query_by == old(self).query_by,
            final(self).sort_by == old(self).sort_by,
    {
        let order = counter.next();
        self.filter_by.push(OrderedState { order, field: None, inner: Some(cond) });
    }

    /// Records one free-form query-by entry under the next order value.
    pub fn query_by(&mut self, counter: &mut QueryCounter, cond: String)
        requires
            old(counter).value < u16::MAX,
        ensures
            final(counter).value == old(counter).value + 1,
            final(self).query_by@ == old(self).query_by@.push(OrderedState {
                order: old(counter).value,
                field: None,
                inner: Some(cond),
            }),
            final(self).filter_by == old(self).filter_by,
            final(self).sort_by == old(self).sort_by,
    {
        let order = counter.next();
        self.query_by.push(OrderedState { order, field: None, inner: Some(cond) });
    }

    /// Records one free-form sort entry under the next order value.
    pub fn sort_by(&mut self, counter: &mut QueryCounter, cond: String)
        requires
            old(counter).value < u16::MAX,
        ensures
            final(counter).value == old(counter).value + 1,
            final(self).sort_by@ == old(self).sort_by@.push(OrderedState {
                order: old(counter).value,
                field: None,
                inner: Some(cond),
            }),
            final(self).filter_by == old(self).filter_by,
            final(self).query_by == old(self).query_by,
    {
        let order = counter.next();
        self.sort_by.push(OrderedState { order, field: None, inner: Some(cond) });
    }

    /// Drains one field's accumulated clauses into the flat lists, attaching
    /// the field's wire name to each.
    pub fn collect_state(&mut self, field: &str, state: &mut QueryState)
        ensures
            final(state).filter_by@ == Seq::<OrderedState>::empty(),
            final(state).query_by is None,
            final(state).sort_by is None,
            final(self).filter_by@.len() == old(self).filter_by@.len() + old(
                state,
            ).filter_by@.len(),
            forall|k: int|
                0 <= k < old(self).filter_by@.len() ==> final(self).filter_by@[k] == old(
                    self,
                ).filter_by@[k],
            forall|k: int|
                0 <= k < old(state).filter_by@.len() ==> spec_with_field(
                    #[trigger] final(self).filter_by@[old(self).filter_by@.len() + k],
                    old(state).filter_by@[k],
                    field@,
                ),
            old(state).query_by matches Some(st) ==> final(self).query_by@.len() == old(
                self,
            ).query_by@.len() + 1 && spec_with_field(final(self).query_by@.last(), st, field@),
            old(state).query_by is None ==> final(self).query_by == old(self).query_by,
            old(state).query_by matches Some(_) ==> forall|k: int|
                0 <= k < old(self).query_by@.len() ==> final(self).query_by@[k] == old(
                    self,
                ).query_by@[k],
            old(state).sort_by matches Some(st) ==> final(self).sort_by@.len() == old(
                self,
            ).sort_by@.len() + 1 && spec_with_field(final(self).sort_by@.last(), st, field@),
            old(state).sort_by is None ==> final(self).sort_by == old(self).sort_by,
            old(state).sort_by matches Some(_) ==> forall|k: int|
                0 <= k < old(self).sort_by@.len() ==> final(self).sort_by@[k] == old(
                    self,
                ).sort_by@[k],
    {
        let ghost base = self.filter_by@.len();
        let ghost src = state.filter_by@;
        let mut filters = QueryState::take_filter_by(state);
        let ghost done: int = 0;
        while filters.len() > 0
            invariant
                0 <= done <= src.len(),
                filters@ == src.subrange(done, src.len() as int),
                self.filter_by@.len() == base + done,
                self.query_by == old(self).query_by,
                self.sort_by == old(self).sort_by,
                forall|k: int|
                    0 <= k < base ==> #[trigger] self.filter_by@[k] == old(self).filter_by@[k],
                forall|k: int|
                    0 <= k < done ==> spec_with_field(
                        #[trigger] self.filter_by@[base + k],
                        src[k],
                        field@,
                    ),
            decreases filters@.len(),
        {
            proof {
                assert(filters@[0] == src[done]);
                assert(filters@.remove(0) =~= src.subrange(done + 1, src.len() as int));
            }
            let st = filters.remove(0);
            let st = st.with_field(field);
            self.filter_by.push(st);
            proof {
                done = done + 1;
            }
        }
        proof {
            assert(done == src.len());
        }
        if let Some(st) = QueryState::take_query_by(state) {
            let st = st.with_field(field);
            self.query_by.push(st);
        }
        if let Some(st) = QueryState::take_sort_by(state) {
            let st = st.with_field(field);
            self.sort_by.push(st);
        }
    }

    /// Merges a nested sub-query's collected clauses into this builder.
    /// Both were built against the same counter, so the orders interleave
    /// correctly once the categories are sorted.
    pub fn merge(&mut self, other: &mut QueryBuilder)
        ensures
            final(self).filter_by@ == old(self).filter_by@ + old(other).filter_by@,
            final(self).query_by@ == old(self).query_by@ + old(other).query_by@,
            final(self).sort_by@ == old(self).sort_by@ + old(other).sort_by@,
            final(other).filter_by@ == Seq::<OrderedState>::empty(),
            final(other).query_by@ == Seq::<OrderedState>::empty(),
            final(other).sort_by@ == Seq::<OrderedState>::empty(),
    {
        self.filter_by.append(&mut other.filter_by);
        self.query_by.append(&mut other.query_by);
        self.sort_by.append(&mut other.sort_by);
    }

    /// Finalizes the query: each category is sorted by order and joined —
    /// query-by and sort-by with commas, filters with `&&` — and an empty
    /// category is absent from the result.
    ///
    /// With pairwise distinct orders (the shared counter guarantees them)
    /// each rendered string is pinned exactly: it is the join over the unique
    /// order-sorted arrangement of that category's clauses.
    pub fn q(self, query: String) -> (r: SearchQuery)
        ensures
            r.q == query,
            r.page is None,
            r.per_page is None,
            r.collection is None,
            r.query_by is None <==> self.query_by@.len() == 0,
            r.sort_by is None <==> self.sort_by@.len() == 0,
            r.filter_by is None <==> self.filter_by@.len() == 0,
            distinct_orders(self.query_by@) ==> forall|s: Seq<OrderedState>|
                sorted_orders(s) && s.to_multiset() == self.query_by@.to_multiset() && s.len() > 0
                    ==> (r.query_by matches Some(f) && f@ == spec_join(spec_rendered(s), ","@)),
            distinct_orders(self.sort_by@) ==> forall|s: Seq<OrderedState>|
                sorted_orders(s) && s.to_multiset() == self.sort_by@.to_multiset() && s.len() > 0
                    ==> (r.sort_by matches Some(f) && f@ == spec_join(spec_rendered(s), ","@)),
            distinct_orders(self.filter_by@) ==> forall|s: Seq<OrderedState>|
                sorted_orders(s) && s.to_multiset() == self.filter_by@.to_multiset() && s.len() > 0
                    ==> (r.filter_by matches Some(f) && f@ == spec_join(spec_rendered(s), "&&"@)),
    {
        let QueryBuilder { filter_by, query_by, sort_by } = self;
        let query_by = flatten_category(query_by, ",");
        let sort_by = flatten_category(sort_by, ",");
        let filter_by = flatten_category(filter_by, "&&");
        SearchQuery {
            q: query,
            query_by,
            sort_by,
            filter_by,
            page: None,
            per_page: None,
            collection: None,
        }
    }
}

} // verus!
