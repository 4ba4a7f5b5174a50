//! Price levels: reading them from a document and ordering them by price.

use vstd::prelude::*;
use crate::decimal::{lemma_le_total, lemma_le_transitive};
use crate::fields::{decimal_value, read_decimal};
use crate::json::{docs_of, items_of, json_of, Json};
use crate::message::{Order, OrderBookMsg, ParseError};

verus! {

/// Whether prices never decrease along the levels.
pub open spec fn ascending(levels: Seq<Order>) -> bool {
    forall|i: int, j: int|
        0 <= i < j < levels.len() ==> (#[trigger] levels[i]).price.spec_le(
            (#[trigger] levels[j]).price,
        )
}

/// `sorted` with `level` put behind the last level whose price is not above
/// its own.
pub open spec fn insert_level(sorted: Seq<Order>, level: Order) -> Seq<Order>
    decreases sorted.len(),
{
    if sorted.len() == 0 {
        seq![level]
    } else if sorted.last().price.spec_le(level.price) {
        sorted.push(level)
    } else {
        insert_level(sorted.drop_last(), level).push(sorted.last())
    }
}

/// The levels in ascending order of price; levels of equal price keep the
/// order they came in.
pub open spec fn sorted_by_price(levels: Seq<Order>) -> Seq<Order>
    decreases levels.len(),
{
    if levels.len() == 0 {
        Seq::<Order>::empty()
    } else {
        insert_level(sorted_by_price(levels.drop_last()), levels.last())
    }
}

/// Whether every level is consistent.
pub open spec fn levels_consistent(levels: Seq<Order>) -> bool {
    forall|i: int| 0 <= i < levels.len() ==> (#[trigger] levels[i]).consistent()
}

/// Whether every book holds consistent levels and every snapshot has asks
/// that ascend in price.
pub open spec fn books_well_formed(books: Seq<OrderBookMsg>) -> bool {
    forall|i: int|
        0 <= i < books.len() ==> {
            &&& levels_consistent((#[trigger] books[i]).asks@)
            &&& levels_consistent(books[i].bids@)
            &&& books[i].snapshot ==> ascending(books[i].asks@)
        }
}

proof fn lemma_insert_at(sorted: Seq<Order>, level: Order, k: int)
    requires
        0 <= k <= sorted.len(),
        k > 0 ==> sorted[k - 1].price.spec_le(level.price),
        forall|j: int| k <= j < sorted.len() ==> !(#[trigger] sorted[j]).price.spec_le(level.price),
    ensures
        insert_level(sorted, level) == sorted.insert(k, level),
    decreases sorted.len() - k,
{
    if sorted.len() == 0 {
        assert(sorted.insert(0, level) =~= seq![level]);
    } else if k == sorted.len() {
        assert(sorted.insert(k, level) =~= sorted.push(level));
    } else {
        let front = sorted.drop_last();
        assert(!sorted[sorted.len() - 1].price.spec_le(level.price));
        assert forall|j: int| k <= j < front.len() implies !(#[trigger] front[j]).price.spec_le(
            level.price,
        ) by {
            assert(front[j] == sorted[j]);
        }
        lemma_insert_at(front, level, k);
        assert(front.insert(k, level).push(sorted.last()) =~= sorted.insert(k, level));
    }
}

proof fn lemma_insert_properties(sorted: Seq<Order>, level: Order)
    requires
        ascending(sorted),
    ensures
        ascending(insert_level(sorted, level)),
        insert_level(sorted, level).len() == sorted.len() + 1,
        insert_level(sorted, level).to_multiset() == sorted.to_multiset().insert(level),
    decreases sorted.len(),
{
    broadcast use vstd::seq_lib::group_to_multiset_ensures;

    let out = insert_level(sorted, level);
    if sorted.len() == 0 {
        assert(sorted =~= Seq::<Order>::empty());
        assert(out =~= Seq::<Order>::empty().push(level));
    } else if sorted.last().price.spec_le(level.price) {
        assert forall|i: int, j: int| 0 <= i < j < out.len() implies (#[trigger] out[i])
            .price.spec_le((#[trigger] out[j]).price) by {
            if j == sorted.len() {
                if i < sorted.len() - 1 {
                    assert(sorted[i].price.spec_le(sorted[sorted.len() - 1].price));
                    lemma_le_transitive(sorted[i].price, sorted.last().price, level.price);
                }
            } else {
                assert(out[i] == sorted[i] && out[j] == sorted[j]);
            }
        }
    } else {
        let front = sorted.drop_last();
        let last = sorted.last();
        assert forall|i: int, j: int| 0 <= i < j < front.len() implies (#[trigger] front[i])
            .price.spec_le((#[trigger] front[j]).price) by {
            assert(front[i] == sorted[i] && front[j] == sorted[j]);
        }
        lemma_insert_properties(front, level);
        let inner = insert_level(front, level);
        lemma_le_total(last.price, level.price);
        assert(sorted =~= front.push(last));
        assert forall|i: int, j: int| 0 <= i < j < out.len() implies (#[trigger] out[i])
            .price.spec_le((#[trigger] out[j]).price) by {
            if j < inner.len() {
                assert(out[i] == inner[i] && out[j] == inner[j]);
            } else {
                assert(out[j] == last);
                assert(out[i] == inner[i]);
                assert(inner.to_multiset().count(inner[i]) > 0);
                if inner[i] == level {
                } else {
                    assert(front.to_multiset().count(inner[i]) > 0);
                    assert(front.contains(inner[i]));
                    let w = choose|w: int| 0 <= w < front.len() && front[w] == inner[i];
                    assert(sorted[w] == front[w]);
                    assert(sorted[w].price.spec_le(sorted[sorted.len() - 1].price));
                }
            }
        }
        assert(out.to_multiset() == inner.to_multiset().insert(last));
        assert(sorted.to_multiset() == front.to_multiset().insert(last));
        assert(out.to_multiset() =~= sorted.to_multiset().insert(level));
    }
}

/// Sorting yields ascending prices and keeps exactly the levels it was
/// given.
pub proof fn sorted_by_price_is_ascending(levels: Seq<Order>)
    ensures
        ascending(sorted_by_price(levels)),
        sorted_by_price(levels).len() == levels.len(),
        sorted_by_price(levels).to_multiset() == levels.to_multiset(),
    decreases levels.len(),
{
    broadcast use vstd::seq_lib::group_to_multiset_ensures;

    if levels.len() == 0 {
        assert(levels =~= Seq::<Order>::empty());
    } else {
        sorted_by_price_is_ascending(levels.drop_last());
        lemma_insert_properties(sorted_by_price(levels.drop_last()), levels.last());
        assert(levels =~= levels.drop_last().push(levels.last()));
    }
}

/// Orders levels by ascending price, keeping the wire order among levels of
/// equal price.
pub fn sort_by_price(levels: Vec<Order>) -> (r: Vec<Order>)
    requires
        levels_consistent(levels@),
    ensures
        r@ == sorted_by_price(levels@),
        ascending(r@),
        r@.to_multiset() == levels@.to_multiset(),
        levels_consistent(r@),
{
    let mut out: Vec<Order> = Vec::new();
    let mut i: usize = 0;
    while i < levels.len()
        invariant
            i <= levels.len(),
            levels_consistent(levels@),
            levels_consistent(out@),
            out@ == sorted_by_price(levels@.take(i as int)),
        decreases levels.len() - i,
    {
        let level = levels[i];
        let mut k: usize = out.len();
        while k > 0 && !out[k - 1].price.le(&level.price)
            invariant
                k <= out.len(),
                levels_consistent(out@),
                level.consistent(),
                forall|j: int|
                    k <= j < out.len() ==> !(#[trigger] out@[j]).price.spec_le(level.price),
            decreases k,
        {
            k = k - 1;
        }
        proof {
            lemma_insert_at(out@, level, k as int);
            assert(levels@.take(i + 1).drop_last() == levels@.take(i as int));
            assert(levels@.take(i + 1).last() == level);
            let next = out@.insert(k as int, level);
            assert forall|j: int| 0 <= j < next.len() implies (#[trigger] next[j]).consistent() by {
                if j < k {
                    assert(next[j] == out@[j]);
                } else if j > k {
                    assert(next[j] == out@[j - 1]);
                }
            }
        }
        out.insert(k, level);
        i = i + 1;
    }
    proof {
        assert(levels@.take(levels.len() as int) == levels@);
        sorted_by_price_is_ascending(levels@);
    }
    out
}

/// The first error among the results of `read` on the items, or all the
/// values when none fails.
pub open spec fn collect<A, B>(
    items: Seq<A>,
    read: spec_fn(A) -> Result<B, ParseError>,
) -> Result<Seq<B>, ParseError>
    decreases items.len(),
{
    if items.len() == 0 {
        Ok(Seq::<B>::empty())
    } else {
        match collect(items.drop_last(), read) {
            Err(e) => Err(e),
            Ok(front) => match read(items.last()) {
                Ok(value) => Ok(front.push(value)),
                Err(e) => Err(e),
            },
        }
    }
}

/// What `collect` says of a prefix extended by one item.
pub proof fn lemma_collect_step<A, B>(
    items: Seq<A>,
    read: spec_fn(A) -> Result<B, ParseError>,
    i: int,
)
    requires
        0 <= i < items.len(),
    ensures
        collect(items.take(i + 1), read) == match collect(items.take(i), read) {
            Err(e) => Err::<Seq<B>, ParseError>(e),
            Ok(front) => match read(items[i]) {
                Ok(value) => Ok(front.push(value)),
                Err(e) => Err(e),
            },
        },
{
    assert(items.take(i + 1).drop_last() == items.take(i));
    assert(items.take(i + 1).last() == items[i]);
}

/// Once a prefix fails, the whole list fails with the same error.
pub proof fn lemma_collect_fails<A, B>(
    items: Seq<A>,
    read: spec_fn(A) -> Result<B, ParseError>,
    i: int,
)
    requires
        0 <= i <= items.len(),
        collect(items.take(i), read) is Err,
    ensures
        collect(items, read) == collect(items.take(i), read),
    decreases items.len() - i,
{
    if i < items.len() {
        lemma_collect_step(items, read, i);
        lemma_collect_fails(items, read, i + 1);
    } else {
        assert(items.take(i) == items);
    }
}

/// When no item fails, the values come one for each item, in order.
pub proof fn lemma_collect_ok<A, B>(items: Seq<A>, read: spec_fn(A) -> Result<B, ParseError>)
    requires
        collect(items, read) is Ok,
    ensures
        collect(items, read)->Ok_0.len() == items.len(),
        forall|i: int|
            0 <= i < items.len() ==> read(#[trigger] items[i]) == Ok::<B, ParseError>(
                collect(items, read)->Ok_0[i],
            ),
    decreases items.len(),
{
    if items.len() > 0 {
        let front = items.drop_last();
        lemma_collect_ok(front, read);
        assert forall|i: int| 0 <= i < items.len() implies read(#[trigger] items[i]) == Ok::<
            B,
            ParseError,
        >(collect(items, read)->Ok_0[i]) by {
            if i < front.len() {
                assert(front[i] == items[i]);
            }
        }
    }
}

/// A level written as `width` values of which the first two are price and
/// base quantity.
pub open spec fn level_of(row: Json, width: nat) -> Result<Order, ParseError> {
    match row {
        Json::Array(cells) => if cells.len() == width && width >= 2 {
            match (decimal_value(cells[0]), decimal_value(cells[1])) {
                (Some(price), Some(quantity)) => Ok(Order::spec_spot(price, quantity)),
                _ => Err(ParseError::MalformedPayload),
            }
        } else {
            Err(ParseError::MalformedPayload)
        },
        _ => Err(ParseError::MalformedPayload),
    }
}

/// The levels of a list of rows, in wire order.
pub open spec fn levels_of(rows: Seq<Json>, width: nat) -> Result<Seq<Order>, ParseError> {
    collect(rows, |row: Json| level_of(row, width))
}

/// Reads a level written as `width` values.
pub fn read_level(row: &serde_json::Value, width: usize) -> (r: Result<Order, ParseError>)
    ensures
        r == level_of(json_of(*row), width as nat),
        r matches Ok(level) ==> level.consistent(),
{
    match items_of(row) {
        Some(cells) => {
            assert(docs_of(cells@).len() == cells@.len());
            if cells.len() != width || width < 2 {
                return Err(ParseError::MalformedPayload);
            }
            assert(docs_of(cells@)[0] == json_of(cells@[0]));
            assert(docs_of(cells@)[1] == json_of(cells@[1]));
            match (read_decimal(&cells[0]), read_decimal(&cells[1])) {
                (Some(price), Some(quantity)) => Ok(Order::spot(price, quantity)),
                _ => Err(ParseError::MalformedPayload),
            }
        },
        None => Err(ParseError::MalformedPayload),
    }
}

/// Reads the levels of a list of rows, in wire order; the first row that
/// is no level fails the list.
pub fn read_levels(rows: &Vec<serde_json::Value>, width: usize) -> (r: Result<
    Vec<Order>,
    ParseError,
>)
    ensures
        r is Ok <==> levels_of(docs_of(rows@), width as nat) is Ok,
        r matches Ok(levels) ==> levels@ == levels_of(docs_of(rows@), width as nat)->Ok_0
            && levels_consistent(levels@),
        r matches Err(e) ==> levels_of(docs_of(rows@), width as nat) == Err::<
            Seq<Order>,
            ParseError,
        >(e),
{
    let ghost docs = docs_of(rows@);
    let ghost read = |row: Json| level_of(row, width as nat);
    let mut out: Vec<Order> = Vec::new();
    let mut i: usize = 0;
    proof {
        assert(docs.take(0) =~= Seq::<Json>::empty());
    }
    while i < rows.len()
        invariant
            i <= rows.len(),
            docs == docs_of(rows@),
            read == (|row: Json| level_of(row, width as nat)),
            collect(docs.take(i as int), read) == Ok::<Seq<Order>, ParseError>(out@),
            levels_consistent(out@),
        decreases rows.len() - i,
    {
        proof {
            lemma_collect_step(docs, read, i as int);
            assert(docs[i as int] == json_of(rows@[i as int]));
        }
        match read_level(&rows[i], width) {
            Ok(level) => {
                out.push(level);
            },
            Err(e) => {
                proof {
                    lemma_collect_fails(docs, read, i + 1);
                }
                return Err(e);
            },
        }
        i = i + 1;
    }
    proof {
        assert(docs.take(rows.len() as int) == docs);
    }
    Ok(out)
}

/// A list of levels fails only as a malformed payload.
pub proof fn lemma_levels_error(rows: Seq<Json>, width: nat)
    ensures
        levels_of(rows, width) matches Err(e) ==> e == ParseError::MalformedPayload,
    decreases rows.len(),
{
    if rows.len() > 0 {
        lemma_levels_error(rows.drop_last(), width);
    }
}

} // verus!
