//! The row engine: which rows a query keeps, and the order a sort column
//! puts them in. Both work on indices into the canonical row list and never
//! touch the list itself.

use vstd::prelude::*;
use crate::models::{rows_view, InterfaceTableRow, RowView, SortColumn};
use crate::text::{
    contains_text, has_substring, lowercase, text_before, text_le, text_le_total,
    text_le_transitive, to_lowercase,
};

verus! {

/// The searchable fields of a row, lower-cased; the other fields stay.
pub open spec fn lower_row(row: RowView) -> RowView {
    RowView {
        name: lowercase(row.name),
        interface_type: lowercase(row.interface_type),
        ip_address: lowercase(row.ip_address),
        mac_address: lowercase(row.mac_address),
        ..row
    }
}

/// The query occurs in the name, the address, the MAC or the type of the row.
pub open spec fn hit(row: RowView, query: Seq<char>) -> bool {
    has_substring(row.name, query) || has_substring(row.ip_address, query) || has_substring(
        row.mac_address,
        query,
    ) || has_substring(row.interface_type, query)
}

/// The indices below `n` of the rows that the query hits, in rising order.
pub open spec fn matching_upto(rows: Seq<RowView>, query: Seq<char>, n: nat) -> Seq<usize>
    decreases n,
{
    if n == 0 {
        Seq::empty()
    } else {
        let before = matching_upto(rows, query, (n - 1) as nat);
        if hit(rows[n - 1], query) {
            before.push((n - 1) as usize)
        } else {
            before
        }
    }
}

/// The indices of all rows that the query hits, in rising order.
pub open spec fn matching(rows: Seq<RowView>, query: Seq<char>) -> Seq<usize> {
    matching_upto(rows, query, rows.len())
}

/// The indices `0..n` in order.
pub open spec fn identity(n: nat) -> Seq<usize> {
    Seq::new(n, |i: int| i as usize)
}

/// The indices that a search query keeps: all of them for the empty query,
/// else those whose lower-cased row holds the lower-cased query.
pub open spec fn filtered(rows: Seq<RowView>, query: Seq<char>) -> Seq<usize> {
    if query.len() == 0 {
        identity(rows.len())
    } else {
        matching(rows.map_values(|r: RowView| lower_row(r)), lowercase(query))
    }
}

/// What `matching_upto` holds: rising indices below `n`, every one of a row
/// that the query hits, and none of those left out.
pub proof fn matching_upto_exact(rows: Seq<RowView>, query: Seq<char>, n: nat)
    requires
        n <= rows.len(),
        n <= usize::MAX,
    ensures
        matching_upto(rows, query, n).len() <= n,
        forall|k: int|
            0 <= k < matching_upto(rows, query, n).len() ==> {
                &&& (#[trigger] matching_upto(rows, query, n)[k]) < n
                &&& hit(rows[matching_upto(rows, query, n)[k] as int], query)
            },
        forall|k: int, l: int|
            0 <= k < l < matching_upto(rows, query, n).len() ==> matching_upto(rows, query, n)[k]
                < matching_upto(rows, query, n)[l],
        forall|i: int|
            0 <= i < n && hit(rows[i], query) ==> matching_upto(rows, query, n).contains(
                i as usize,
            ),
    decreases n,
{
    if n > 0 {
        let before = matching_upto(rows, query, (n - 1) as nat);
        let now = matching_upto(rows, query, n);
        matching_upto_exact(rows, query, (n - 1) as nat);
        assert forall|i: int| 0 <= i < n && hit(rows[i], query) implies now.contains(
            i as usize,
        ) by {
            if i < n - 1 {
                assert(before.contains(i as usize));
                let k = choose|k: int| 0 <= k < before.len() && before[k] == i as usize;
                assert(now[k] == i as usize);
            } else {
                assert(now[now.len() - 1] == i as usize);
            }
        }
    }
}

/// A query keeps exactly the rows it hits, in their original order: the
/// result rises strictly, each of its indices is of a hit row, and every hit
/// row's index is in it.
pub proof fn matching_exact(rows: Seq<RowView>, query: Seq<char>)
    requires
        rows.len() <= usize::MAX,
    ensures
        forall|k: int|
            0 <= k < matching(rows, query).len() ==> {
                &&& (#[trigger] matching(rows, query)[k]) < rows.len()
                &&& hit(rows[matching(rows, query)[k] as int], query)
            },
        forall|k: int, l: int|
            0 <= k < l < matching(rows, query).len() ==> matching(rows, query)[k] < matching(
                rows,
                query,
            )[l],
        forall|i: int|
            0 <= i < rows.len() && hit(rows[i], query) ==> matching(rows, query).contains(
                i as usize,
            ),
{
    matching_upto_exact(rows, query, rows.len());
}

/// A search keeps indices of the row list only.
pub proof fn filtered_in_range(rows: Seq<RowView>, query: Seq<char>)
    requires
        rows.len() <= usize::MAX,
    ensures
        forall|k: int|
            0 <= k < filtered(rows, query).len() ==> (#[trigger] filtered(rows, query)[k])
                < rows.len(),
{
    if query.len() > 0 {
        matching_exact(rows.map_values(|r: RowView| lower_row(r)), lowercase(query));
    }
}

/// A search keeps exactly the rows whose lower-cased name, address, MAC or
/// type holds the lower-cased query, and keeps them in their original order;
/// the empty query keeps every row.
pub proof fn filtered_exact(rows: Seq<RowView>, query: Seq<char>)
    requires
        rows.len() <= usize::MAX,
    ensures
        forall|i: usize|
            i < rows.len() ==> (#[trigger] filtered(rows, query).contains(i) <==> (query.len() == 0
                || hit(lower_row(rows[i as int]), lowercase(query)))),
        forall|k: int|
            0 <= k < filtered(rows, query).len() ==> (#[trigger] filtered(rows, query)[k])
                < rows.len(),
        forall|k: int, l: int|
            0 <= k < l < filtered(rows, query).len() ==> filtered(rows, query)[k] < filtered(
                rows,
                query,
            )[l],
{
    let shown = filtered(rows, query);
    if query.len() == 0 {
        assert forall|i: usize| i < rows.len() implies #[trigger] shown.contains(i) by {
            assert(shown[i as int] == i);
        }
    } else {
        let lower = rows.map_values(|r: RowView| lower_row(r));
        matching_exact(lower, lowercase(query));
        assert forall|i: usize| i < rows.len() && #[trigger] shown.contains(i) implies hit(
            lower_row(rows[i as int]),
            lowercase(query),
        ) by {
            let k = choose|k: int| 0 <= k < shown.len() && shown[k] == i;
            assert(hit(lower[shown[k] as int], lowercase(query)));
        }
        assert forall|i: usize|
            i < rows.len() && hit(lower_row(rows[i as int]), lowercase(query)) implies #[trigger]
            shown.contains(i) by {
            assert(hit(lower[i as int], lowercase(query)));
        }
    }
}

/// The empty query keeps every row, in the original order.
pub proof fn empty_query_keeps_all(rows: Seq<RowView>)
    requires
        rows.len() <= usize::MAX,
    ensures
        filtered(rows, Seq::empty()).len() == rows.len(),
        forall|k: int| 0 <= k < rows.len() ==> (#[trigger] filtered(rows, Seq::empty())[k]) == k,
{
}

/// Whether the query occurs in one of the four searchable fields of a row.
pub fn row_hit(row: &InterfaceTableRow, query: &str) -> (r: bool)
    ensures
        r == hit(row@, query@),
{
    contains_text(row.name.as_str(), query) || contains_text(row.ip_address.as_str(), query)
        || contains_text(row.mac_address.as_str(), query) || contains_text(
        row.interface_type.as_str(),
        query,
    )
}

/// The indices of the rows that hold `query` in one of their searchable
/// fields, compared as they stand.
pub fn matching_rows(rows: &Vec<InterfaceTableRow>, query: &str) -> (out: Vec<usize>)
    ensures
        out@ == matching(rows_view(rows@), query@),
{
    let mut out: Vec<usize> = Vec::new();
    let mut i: usize = 0;
    while i < rows.len()
        invariant
            i <= rows.len(),
            out@ == matching_upto(rows_view(rows@), query@, i as nat),
        decreases rows.len() - i,
    {
        if row_hit(&rows[i], query) {
            out.push(i);
        }
        i += 1;
    }
    out
}

/// A copy of a row with its searchable fields in lower case.
pub fn lowered(row: &InterfaceTableRow) -> (out: InterfaceTableRow)
    ensures
        out@ == lower_row(row@),
{
    InterfaceTableRow {
        name: to_lowercase(row.name.as_str()),
        interface_type: to_lowercase(row.interface_type.as_str()),
        ip_address: to_lowercase(row.ip_address.as_str()),
        mac_address: to_lowercase(row.mac_address.as_str()),
        subnet_mask: row.subnet_mask.clone(),
        dns_servers: row.dns_servers.clone(),
        status: row.status.clone(),
    }
}

/// The indices of the rows that a search query keeps.
pub fn filter_rows(rows: &Vec<InterfaceTableRow>, query: &str) -> (out: Vec<usize>)
    ensures
        out@ == filtered(rows_view(rows@), query@),
        forall|k: int| 0 <= k < out.len() ==> out[k] < rows.len(),
{
    proof {
        assert(rows_view(rows@).len() == rows.len());
        filtered_in_range(rows_view(rows@), query@);
    }
    if query.is_empty() {
        let mut out: Vec<usize> = Vec::new();
        let mut i: usize = 0;
        while i < rows.len()
            invariant
                i <= rows.len(),
                out@ == identity(i as nat),
            decreases rows.len() - i,
        {
            out.push(i);
            i += 1;
            assert(out@ =~= identity(i as nat));
        }
        assert(rows_view(rows@).len() == rows.len());
        out
    } else {
        let query_lower = to_lowercase(query);
        let mut lower: Vec<InterfaceTableRow> = Vec::new();
        let mut i: usize = 0;
        while i < rows.len()
            invariant
                i <= rows.len(),
                lower.len() == i,
                rows_view(lower@) == rows_view(rows@).map_values(|r: RowView| lower_row(r)).take(
                    i as int,
                ),
            decreases rows.len() - i,
        {
            lower.push(lowered(&rows[i]));
            i += 1;
            assert(rows_view(lower@) =~= rows_view(rows@).map_values(
                |r: RowView| lower_row(r),
            ).take(i as int));
        }
        assert(rows_view(rows@).map_values(|r: RowView| lower_row(r)).take(rows.len() as int)
            == rows_view(rows@).map_values(|r: RowView| lower_row(r)));
        matching_rows(&lower, query_lower.as_str())
    }
}

/// `s` with `x` put behind the last item that may stand before it.
pub open spec fn insert_sorted(s: Seq<usize>, x: usize, le: spec_fn(usize, usize) -> bool) -> Seq<
    usize,
>
    decreases s.len(),
{
    if s.len() == 0 {
        seq![x]
    } else if le(s.last(), x) {
        s.push(x)
    } else {
        insert_sorted(s.drop_last(), x, le).push(s.last())
    }
}

/// The stable sort of `s` under `le`: the items taken one by one from the
/// front, each put behind the last item so far that may stand before it.
pub open spec fn stable_sort(s: Seq<usize>, le: spec_fn(usize, usize) -> bool) -> Seq<usize>
    decreases s.len(),
{
    if s.len() == 0 {
        s
    } else {
        insert_sorted(stable_sort(s.drop_last(), le), s.last(), le)
    }
}

/// Any two items can be put in order, and the order carries over a middle
/// item.
pub open spec fn total_preorder(le: spec_fn(usize, usize) -> bool) -> bool {
    &&& forall|a: usize, b: usize| #[trigger] le(a, b) || le(b, a)
    &&& forall|a: usize, b: usize, c: usize| #[trigger] le(a, b) && #[trigger] le(b, c) ==> le(a, c)
}

/// Each item may stand before every later one.
pub open spec fn ordered(s: Seq<usize>, le: spec_fn(usize, usize) -> bool) -> bool {
    forall|i: int, j: int| 0 <= i < j < s.len() ==> le(#[trigger] s[i], #[trigger] s[j])
}

/// The order in which a sort column puts two row indices: by the column's
/// text in lexicographic order, turned round when descending.
pub open spec fn row_order(rows: Seq<RowView>, column: SortColumn, ascending: bool) -> spec_fn(
    usize,
    usize,
) -> bool {
    |a: usize, b: usize|
        if ascending {
            text_le(column.key(rows[a as int]), column.key(rows[b as int]))
        } else {
            text_le(column.key(rows[b as int]), column.key(rows[a as int]))
        }
}

/// The place of `x` in `insert_sorted`: behind the last item that may stand
/// before it.
pub proof fn insert_sorted_at(s: Seq<usize>, x: usize, j: int, le: spec_fn(usize, usize) -> bool)
    requires
        0 <= j <= s.len(),
        forall|k: int| j <= k < s.len() ==> !le(#[trigger] s[k], x),
        j == 0 || le(s[j - 1], x),
    ensures
        insert_sorted(s, x, le) == s.insert(j, x),
    decreases s.len(),
{
    if s.len() == 0 {
        assert(seq![x] =~= s.insert(j, x));
    } else if j == s.len() {
        assert(s.push(x) =~= s.insert(j, x));
    } else {
        assert(!le(s[s.len() - 1], x));
        insert_sorted_at(s.drop_last(), x, j, le);
        assert(s.drop_last().insert(j, x).push(s.last()) =~= s.insert(j, x));
    }
}

/// Inserting keeps the items: the result holds `x` once more than `s` and
/// every other item as often.
pub proof fn insert_sorted_permutes(s: Seq<usize>, x: usize, le: spec_fn(usize, usize) -> bool)
    ensures
        insert_sorted(s, x, le).to_multiset() == s.to_multiset().insert(x),
        insert_sorted(s, x, le).len() == s.len() + 1,
    decreases s.len(),
{
    broadcast use vstd::seq_lib::group_to_multiset_ensures;

    if s.len() == 0 {
        assert(seq![x] =~= Seq::<usize>::empty().push(x));
        assert(s =~= Seq::<usize>::empty());
    } else if le(s.last(), x) {
    } else {
        insert_sorted_permutes(s.drop_last(), x, le);
        assert(s.drop_last().push(s.last()) =~= s);
        assert(insert_sorted(s, x, le).to_multiset() =~= s.to_multiset().insert(x));
    }
}

/// Sorting rearranges: the result holds every item as often as the input.
pub proof fn stable_sort_permutes(s: Seq<usize>, le: spec_fn(usize, usize) -> bool)
    ensures
        stable_sort(s, le).to_multiset() == s.to_multiset(),
        stable_sort(s, le).len() == s.len(),
    decreases s.len(),
{
    broadcast use vstd::seq_lib::group_to_multiset_ensures;

    if s.len() > 0 {
        stable_sort_permutes(s.drop_last(), le);
        insert_sorted_permutes(stable_sort(s.drop_last(), le), s.last(), le);
        assert(s.drop_last().push(s.last()) =~= s);
    }
}

/// Inserting into an ordered list gives an ordered list.
pub proof fn insert_sorted_ordered(s: Seq<usize>, x: usize, le: spec_fn(usize, usize) -> bool)
    requires
        total_preorder(le),
        ordered(s, le),
    ensures
        ordered(insert_sorted(s, x, le), le),
        forall|k: int|
            0 <= k < insert_sorted(s, x, le).len() ==> (#[trigger] insert_sorted(s, x, le)[k]) == x
                || s.contains(insert_sorted(s, x, le)[k]),
    decreases s.len(),
{
    let out = insert_sorted(s, x, le);
    insert_sorted_permutes(s, x, le);
    if s.len() == 0 {
    } else if le(s.last(), x) {
        assert forall|i: int, j: int| 0 <= i < j < out.len() implies le(
            #[trigger] out[i],
            #[trigger] out[j],
        ) by {
            if j == s.len() && i < s.len() - 1 {
                assert(le(s[i], s[s.len() - 1]));
            }
        }
        assert forall|k: int| 0 <= k < out.len() implies (#[trigger] out[k]) == x || s.contains(
            out[k],
        ) by {
            if k < s.len() {
                assert(s[k] == out[k]);
            }
        }
    } else {
        let front = s.drop_last();
        let inner = insert_sorted(front, x, le);
        insert_sorted_permutes(front, x, le);
        insert_sorted_ordered(front, x, le);
        assert(le(x, s.last()));
        assert forall|i: int, j: int| 0 <= i < j < out.len() implies le(
            #[trigger] out[i],
            #[trigger] out[j],
        ) by {
            if j == out.len() - 1 {
                if inner[i] != x {
                    assert(front.contains(inner[i]));
                    let k = choose|k: int| 0 <= k < front.len() && front[k] == inner[i];
                    assert(le(s[k], s[s.len() - 1]));
                }
            } else {
                assert(le(inner[i], inner[j]));
            }
        }
        assert forall|k: int| 0 <= k < out.len() implies (#[trigger] out[k]) == x || s.contains(
            out[k],
        ) by {
            if k < inner.len() {
                if inner[k] != x {
                    assert(front.contains(inner[k]));
                    let m = choose|m: int| 0 <= m < front.len() && front[m] == inner[k];
                    assert(s[m] == inner[k]);
                }
            } else {
                assert(s[s.len() - 1] == out[k]);
            }
        }
    }
}

/// Sorting under a total preorder gives an ordered list.
pub proof fn stable_sort_ordered(s: Seq<usize>, le: spec_fn(usize, usize) -> bool)
    requires
        total_preorder(le),
    ensures
        ordered(stable_sort(s, le), le),
    decreases s.len(),
{
    if s.len() > 0 {
        stable_sort_ordered(s.drop_last(), le);
        insert_sorted_ordered(stable_sort(s.drop_last(), le), s.last(), le);
    }
}

/// Sorting leaves an ordered list as it is.
pub proof fn stable_sort_of_ordered(s: Seq<usize>, le: spec_fn(usize, usize) -> bool)
    requires
        ordered(s, le),
    ensures
        stable_sort(s, le) == s,
    decreases s.len(),
{
    if s.len() > 0 {
        let front = s.drop_last();
        assert(ordered(front, le)) by {
            assert forall|i: int, j: int| 0 <= i < j < front.len() implies le(
                #[trigger] front[i],
                #[trigger] front[j],
            ) by {
                assert(le(s[i], s[j]));
            }
        }
        stable_sort_of_ordered(front, le);
        if front.len() > 0 {
            assert(le(s[front.len() - 1], s[s.len() - 1]));
        }
        assert(front.push(s.last()) =~= s);
    }
}

/// Sorting twice under the same total preorder gives what sorting once gives.
pub proof fn stable_sort_idempotent(s: Seq<usize>, le: spec_fn(usize, usize) -> bool)
    requires
        total_preorder(le),
    ensures
        stable_sort(stable_sort(s, le), le) == stable_sort(s, le),
{
    stable_sort_ordered(s, le);
    stable_sort_of_ordered(stable_sort(s, le), le);
}

/// `a` and `b` tie: each may stand before the other.
pub open spec fn ties(le: spec_fn(usize, usize) -> bool, a: usize, b: usize) -> bool {
    le(a, b) && le(b, a)
}

/// Inserting `x` puts it behind every item it ties with: among the items that
/// tie with `z`, the order is that of `s`, with `x` last if it ties too.
pub proof fn insert_sorted_stable(
    s: Seq<usize>,
    x: usize,
    z: usize,
    le: spec_fn(usize, usize) -> bool,
)
    requires
        total_preorder(le),
    ensures
        insert_sorted(s, x, le).filter(|y: usize| ties(le, z, y)) == if ties(le, z, x) {
            s.filter(|y: usize| ties(le, z, y)).push(x)
        } else {
            s.filter(|y: usize| ties(le, z, y))
        },
    decreases s.len(),
{
    reveal(Seq::filter);
    let class = |y: usize| ties(le, z, y);
    if s.len() == 0 {
        assert(seq![x].drop_last() =~= Seq::<usize>::empty());
        assert(s =~= Seq::<usize>::empty());
    } else if le(s.last(), x) {
        assert(s.push(x).drop_last() =~= s);
    } else {
        let front = s.drop_last();
        let inner = insert_sorted(front, x, le);
        insert_sorted_stable(front, x, z, le);
        assert(inner.push(s.last()).drop_last() =~= inner);
        if ties(le, z, x) && ties(le, z, s.last()) {
            assert(le(s.last(), z));
            assert(le(z, x));
            assert(le(s.last(), x));
        }
    }
}

/// Sorting is stable: the items that tie with one another come out in the
/// order in which they went in.
pub proof fn stable_sort_stable(s: Seq<usize>, z: usize, le: spec_fn(usize, usize) -> bool)
    requires
        total_preorder(le),
    ensures
        stable_sort(s, le).filter(|y: usize| ties(le, z, y)) == s.filter(
            |y: usize| ties(le, z, y),
        ),
    decreases s.len(),
{
    reveal(Seq::filter);
    if s.len() > 0 {
        stable_sort_stable(s.drop_last(), z, le);
        insert_sorted_stable(stable_sort(s.drop_last(), le), s.last(), z, le);
    }
}

/// The order of a sort column is a total preorder on row indices.
pub proof fn row_order_total_preorder(rows: Seq<RowView>, column: SortColumn, ascending: bool)
    ensures
        total_preorder(row_order(rows, column, ascending)),
{
    let le = row_order(rows, column, ascending);
    assert forall|a: usize, b: usize| #[trigger] le(a, b) || le(b, a) by {
        text_le_total(column.key(rows[a as int]), column.key(rows[b as int]));
    }
    assert forall|a: usize, b: usize, c: usize| #[trigger]
        le(a, b) && #[trigger] le(b, c) implies le(a, c) by {
        text_le_transitive(
            column.key(rows[a as int]),
            column.key(rows[b as int]),
            column.key(rows[c as int]),
        );
        text_le_transitive(
            column.key(rows[c as int]),
            column.key(rows[b as int]),
            column.key(rows[a as int]),
        );
    }
}

/// Sorting by a column rearranges the shown rows, puts them in the order of
/// the column, and keeps rows with the same text in that column in the order
/// they had.
pub proof fn sort_rearranges_in_order(
    shown: Seq<usize>,
    rows: Seq<RowView>,
    column: SortColumn,
    ascending: bool,
    tie: usize,
)
    ensures
        stable_sort(shown, row_order(rows, column, ascending)).to_multiset()
            == shown.to_multiset(),
        ordered(
            stable_sort(shown, row_order(rows, column, ascending)),
            row_order(rows, column, ascending),
        ),
        stable_sort(shown, row_order(rows, column, ascending)).filter(
            |y: usize| ties(row_order(rows, column, ascending), tie, y),
        ) == shown.filter(|y: usize| ties(row_order(rows, column, ascending), tie, y)),
{
    let le = row_order(rows, column, ascending);
    row_order_total_preorder(rows, column, ascending);
    stable_sort_permutes(shown, le);
    stable_sort_ordered(shown, le);
    stable_sort_stable(shown, tie, le);
}

/// Sorting the shown rows twice by the same column and direction gives the
/// same order as sorting them once.
pub proof fn sort_idempotent(
    shown: Seq<usize>,
    rows: Seq<RowView>,
    column: SortColumn,
    ascending: bool,
)
    ensures
        stable_sort(
            stable_sort(shown, row_order(rows, column, ascending)),
            row_order(rows, column, ascending),
        ) == stable_sort(shown, row_order(rows, column, ascending)),
{
    row_order_total_preorder(rows, column, ascending);
    stable_sort_idempotent(shown, row_order(rows, column, ascending));
}

/// Whether the row at index `a` may stand before the row at index `b`.
pub fn in_order(
    rows: &Vec<InterfaceTableRow>,
    column: SortColumn,
    ascending: bool,
    a: usize,
    b: usize,
) -> (r: bool)
    requires
        a < rows.len(),
        b < rows.len(),
    ensures
        r == row_order(rows_view(rows@), column, ascending)(a, b),
{
    let key_a = column.key_of(&rows[a]);
    let key_b = column.key_of(&rows[b]);
    if ascending {
        !text_before(key_b, key_a)
    } else {
        !text_before(key_a, key_b)
    }
}

/// Sorts row indices by a column: a stable sort, so rows with the same text
/// in that column keep the order they had.
pub fn sort_indices(
    indices: &Vec<usize>,
    rows: &Vec<InterfaceTableRow>,
    column: SortColumn,
    ascending: bool,
) -> (out: Vec<usize>)
    requires
        forall|k: int| 0 <= k < indices.len() ==> indices[k] < rows.len(),
    ensures
        out@ == stable_sort(indices@, row_order(rows_view(rows@), column, ascending)),
        out.len() == indices.len(),
        forall|k: int| 0 <= k < out.len() ==> out[k] < rows.len(),
{
    let ghost le = row_order(rows_view(rows@), column, ascending);
    let mut out: Vec<usize> = Vec::new();
    let mut i: usize = 0;
    while i < indices.len()
        invariant
            i <= indices.len(),
            le == row_order(rows_view(rows@), column, ascending),
            out@ == stable_sort(indices@.take(i as int), le),
            out.len() == i,
            forall|k: int| 0 <= k < indices.len() ==> indices[k] < rows.len(),
            forall|k: int| 0 <= k < out.len() ==> out[k] < rows.len(),
        decreases indices.len() - i,
    {
        let x = indices[i];
        let mut j: usize = out.len();
        while j > 0 && !in_order(rows, column, ascending, out[j - 1], x)
            invariant
                j <= out.len(),
                x < rows.len(),
                le == row_order(rows_view(rows@), column, ascending),
                forall|k: int| 0 <= k < out.len() ==> out[k] < rows.len(),
                forall|k: int| j <= k < out.len() ==> !le(#[trigger] out@[k], x),
            decreases j,
        {
            j -= 1;
        }
        proof {
            insert_sorted_at(out@, x, j as int, le);
            assert(indices@.take(i + 1).drop_last() =~= indices@.take(i as int));
        }
        out.insert(j, x);
        i += 1;
    }
    assert(indices@.take(indices.len() as int) =~= indices@);
    out
}

} // verus!
