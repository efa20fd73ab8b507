//! Ordered listings: the rows of a table that a query selects, each once, in the
//! order the query asks for.

use vstd::prelude::*;

verus! {

/// The place of a row in a listing: rows are ordered by `major`, then by `minor`.
#[derive(Debug, Clone, Copy, PartialEq, Eq, Structural)]
pub struct SortKey {
    pub major: i128,
    pub minor: i128,
}

/// `a` may stand before `b`.
pub open spec fn key_le(a: SortKey, b: SortKey) -> bool {
    a.major < b.major || (a.major == b.major && a.minor <= b.minor)
}

/// The key that lists by an instant, oldest first.
pub open spec fn oldest_first(at: i64) -> SortKey {
    SortKey { major: at as i128, minor: 0 }
}

/// The key that lists by an instant, newest first.
pub open spec fn newest_first(at: i64) -> SortKey {
    SortKey { major: (-at) as i128, minor: 0 }
}

/// The key that lists by position, then by instant, oldest first.
pub open spec fn by_position(position: i32, at: i64) -> SortKey {
    SortKey { major: position as i128, minor: at as i128 }
}

/// `listed` holds exactly the rows of `table` that `wanted` selects, each once,
/// in ascending order of `key`.
pub open spec fn is_listing<T>(
    listed: Seq<T>,
    table: Seq<T>,
    wanted: spec_fn(T) -> bool,
    key: spec_fn(T) -> SortKey,
) -> bool {
    &&& forall|i: int|
        0 <= i < listed.len() ==> table.contains(#[trigger] listed[i]) && wanted(listed[i])
    &&& forall|j: int| 0 <= j < table.len() && wanted(#[trigger] table[j]) ==> listed.contains(table[j])
    &&& listed.no_duplicates()
    &&& forall|i: int, k: int|
        0 <= i < k < listed.len() ==> key_le(key(#[trigger] listed[i]), key(#[trigger] listed[k]))
}

/// Whether `a` stands strictly after `b`.
fn key_after(a: SortKey, b: SortKey) -> (after: bool)
    ensures
        after == !key_le(a, b),
{
    a.major > b.major || (a.major == b.major && a.minor > b.minor)
}

/// Puts `row` into `rows` at the first place whose key stands after `key`, and
/// `key` at the same place in `keys`.
pub(crate) fn insert_ordered<T>(rows: &mut Vec<T>, keys: &mut Vec<SortKey>, row: T, key: SortKey) -> (pos:
    usize)
    requires
        old(rows).len() == old(keys).len(),
    ensures
        pos <= old(rows).len(),
        final(rows)@ == old(rows)@.insert(pos as int, row),
        final(keys)@ == old(keys)@.insert(pos as int, key),
        forall|i: int| 0 <= i < pos ==> key_le(old(keys)@[i], key),
        pos < old(keys).len() ==> !key_le(old(keys)@[pos as int], key),
{
    let mut pos: usize = 0;
    while pos < keys.len() && !key_after(keys[pos], key)
        invariant
            pos <= keys.len(),
            keys@ == old(keys)@,
            forall|i: int| 0 <= i < pos ==> key_le(keys@[i], key),
        decreases keys.len() - pos,
    {
        pos += 1;
    }
    rows.insert(pos, row);
    keys.insert(pos, key);
    pos
}

/// A row that the query does not select leaves the listing as it is.
pub proof fn lemma_listing_skip<T>(
    listed: Seq<T>,
    table: Seq<T>,
    j: int,
    wanted: spec_fn(T) -> bool,
    key: spec_fn(T) -> SortKey,
)
    requires
        0 <= j < table.len(),
        is_listing(listed, table.subrange(0, j), wanted, key),
        !wanted(table[j]),
    ensures
        is_listing(listed, table.subrange(0, j + 1), wanted, key),
{
    let before = table.subrange(0, j);
    let after = table.subrange(0, j + 1);
    assert forall|i: int| 0 <= i < listed.len() implies after.contains(#[trigger] listed[i])
        && wanted(listed[i]) by {
        assert(before.contains(listed[i]));
        let w = choose|w: int| 0 <= w < before.len() && before[w] == listed[i];
        assert(after[w] == listed[i]);
    }
    assert forall|k: int| 0 <= k < after.len() && wanted(#[trigger] after[k]) implies listed.contains(
        after[k],
    ) by {
        assert(k < j);
        assert(before[k] == after[k]);
    }
}

/// A row that the query selects enters the listing at a place that keeps the
/// order.
pub proof fn lemma_listing_take<T>(
    listed: Seq<T>,
    table: Seq<T>,
    j: int,
    pos: int,
    wanted: spec_fn(T) -> bool,
    key: spec_fn(T) -> SortKey,
)
    requires
        0 <= j < table.len(),
        table.no_duplicates(),
        is_listing(listed, table.subrange(0, j), wanted, key),
        wanted(table[j]),
        0 <= pos <= listed.len(),
        forall|i: int| 0 <= i < pos ==> key_le(key(#[trigger] listed[i]), key(table[j])),
        forall|i: int| pos <= i < listed.len() ==> key_le(key(table[j]), key(#[trigger] listed[i])),
    ensures
        is_listing(listed.insert(pos, table[j]), table.subrange(0, j + 1), wanted, key),
{
    let before = table.subrange(0, j);
    let after = table.subrange(0, j + 1);
    let row = table[j];
    let grown = listed.insert(pos, row);
    listed.insert_ensures(pos, row);
    assert forall|i: int| 0 <= i < grown.len() implies after.contains(#[trigger] grown[i])
        && wanted(grown[i]) by {
        if i == pos {
            assert(after[j] == row);
        } else {
            let o = if i < pos { i } else { i - 1 };
            assert(grown[i] == listed[o]);
            assert(before.contains(listed[o]));
            let w = choose|w: int| 0 <= w < before.len() && before[w] == listed[o];
            assert(after[w] == listed[o]);
        }
    }
    assert forall|k: int| 0 <= k < after.len() && wanted(#[trigger] after[k]) implies grown.contains(
        after[k],
    ) by {
        if k == j {
            assert(grown[pos] == row);
        } else {
            assert(before[k] == after[k]);
            assert(listed.contains(before[k]));
            let o = choose|o: int| 0 <= o < listed.len() && listed[o] == before[k];
            let i = if o < pos { o } else { o + 1 };
            assert(grown[i] == listed[o]);
        }
    }
    assert forall|a: int, b: int| 0 <= a < grown.len() && 0 <= b < grown.len() && a != b implies grown[a]
        != grown[b] by {
        if a != pos && b != pos {
            let oa = if a < pos { a } else { a - 1 };
            let ob = if b < pos { b } else { b - 1 };
            assert(grown[a] == listed[oa] && grown[b] == listed[ob]);
        } else {
            let other = if a == pos { b } else { a };
            let o = if other < pos { other } else { other - 1 };
            assert(grown[other] == listed[o]);
            assert(before.contains(listed[o]));
            let w = choose|w: int| 0 <= w < before.len() && before[w] == listed[o];
            assert(table[w] == listed[o]);
        }
    }
    assert forall|a: int, b: int| 0 <= a < b < grown.len() implies key_le(
        key(#[trigger] grown[a]),
        key(#[trigger] grown[b]),
    ) by {
        let oa = if a < pos { a } else { a - 1 };
        let ob = if b < pos { b } else { b - 1 };
        if a != pos && b != pos {
            assert(grown[a] == listed[oa] && grown[b] == listed[ob]);
        } else if a == pos {
            assert(grown[b] == listed[ob]);
        } else {
            assert(grown[a] == listed[oa]);
        }
    }
}

/// The step of a listing loop that takes row `j`: after `insert_ordered` put it
/// at `pos`, the rows list the table up to and with row `j`, and the keys still
/// stand beside their rows.
pub proof fn lemma_listing_grow<T>(
    listed: Seq<T>,
    keys: Seq<SortKey>,
    table: Seq<T>,
    j: int,
    pos: int,
    wanted: spec_fn(T) -> bool,
    key: spec_fn(T) -> SortKey,
)
    requires
        0 <= j < table.len(),
        table.no_duplicates(),
        is_listing(listed, table.subrange(0, j), wanted, key),
        wanted(table[j]),
        keys.len() == listed.len(),
        forall|i: int| 0 <= i < listed.len() ==> #[trigger] keys[i] == key(listed[i]),
        0 <= pos <= listed.len(),
        forall|i: int| 0 <= i < pos ==> key_le(#[trigger] keys[i], key(table[j])),
        pos < keys.len() ==> !key_le(keys[pos], key(table[j])),
    ensures
        is_listing(listed.insert(pos, table[j]), table.subrange(0, j + 1), wanted, key),
        forall|i: int|
            0 <= i < listed.len() + 1 ==> #[trigger] keys.insert(pos, key(table[j]))[i] == key(
                listed.insert(pos, table[j])[i],
            ),
{
    assert forall|i: int| 0 <= i < pos implies key_le(key(#[trigger] listed[i]), key(table[j])) by {
        assert(keys[i] == key(listed[i]));
    }
    assert forall|i: int| pos <= i < listed.len() implies key_le(
        key(table[j]),
        key(#[trigger] listed[i]),
    ) by {
        assert(keys[pos] == key(listed[pos]));
        assert(keys[i] == key(listed[i]));
        if pos < i {
            assert(key_le(key(listed[pos]), key(listed[i])));
        }
    }
    lemma_listing_take(listed, table, j, pos, wanted, key);
    listed.insert_ensures(pos, table[j]);
    keys.insert_ensures(pos, key(table[j]));
    assert forall|i: int| 0 <= i < listed.len() + 1 implies #[trigger] keys.insert(
        pos,
        key(table[j]),
    )[i] == key(listed.insert(pos, table[j])[i]) by {
        if i < pos {
            assert(keys[i] == key(listed[i]));
        } else if i > pos {
            assert(keys[i - 1] == key(listed[i - 1]));
        }
    }
}

} // verus!
