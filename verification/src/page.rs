//! Pages of the registry: the accounts in the order of their keys, a bounded
//! number at a time.

use vstd::prelude::*;
use crate::msg::{AccountInfo, AccountInfoView};
use crate::order::{
    key_before, key_lt, lemma_key_lt_asymmetric, lemma_key_lt_irreflexive, lemma_key_lt_total,
    lemma_key_lt_transitive, AccountKey,
};
use crate::state::holds_each_once;

verus! {

/// The key that a cursor stands for.
pub open spec fn cursor_key(cursor: Option<(String, String, String)>) -> Option<AccountKey> {
    match cursor {
        Some(key) => Some((key.0@, key.1@, key.2@)),
        None => None,
    }
}

/// Whether a key lies behind the cursor: any key does where there is none.
pub open spec fn after_cursor(cursor: Option<AccountKey>, key: AccountKey) -> bool {
    cursor matches Some(start) ==> key_lt(start, key)
}

/// Whether the keys of `page` rise from each record to the next.
pub open spec fn rising(page: Seq<AccountInfoView>) -> bool {
    forall|i: int, j: int|
        0 <= i < j < page.len() ==> key_lt(#[trigger] page[i].key(), #[trigger] page[j].key())
}

/// Whether every record of `page` is an account of `registry` behind the cursor.
pub open spec fn drawn_from(
    registry: Map<AccountKey, Seq<char>>,
    cursor: Option<AccountKey>,
    page: Seq<AccountInfoView>,
) -> bool {
    forall|i: int|
        0 <= i < page.len() ==> registry.contains_key(#[trigger] page[i].key())
            && registry[page[i].key()] == page[i].account && after_cursor(cursor, page[i].key())
}

/// Whether `page` holds a record with this key.
pub open spec fn has_key(page: Seq<AccountInfoView>, key: AccountKey) -> bool {
    exists|i: int| 0 <= i < page.len() && #[trigger] page[i].key() == key
}

/// Whether every key of `page` comes before `key`.
pub open spec fn all_before(page: Seq<AccountInfoView>, key: AccountKey) -> bool {
    forall|i: int| 0 <= i < page.len() ==> key_lt(#[trigger] page[i].key(), key)
}

/// Whether `page` is the page of at most `limit` accounts of `registry` that
/// starts behind the cursor: its records are accounts behind the cursor, in
/// rising order of their keys, and an account behind the cursor that it lacks
/// comes after all of a full page.
pub open spec fn is_page(
    registry: Map<AccountKey, Seq<char>>,
    cursor: Option<AccountKey>,
    limit: nat,
    page: Seq<AccountInfoView>,
) -> bool {
    &&& page.len() <= limit
    &&& drawn_from(registry, cursor, page)
    &&& rising(page)
    &&& forall|key: AccountKey|
        #[trigger] registry.contains_key(key) && after_cursor(cursor, key) ==> has_key(page, key) || (
        page.len() == limit && all_before(page, key))
}

/// A registry has one page for each cursor and limit.
pub proof fn lemma_page_unique(
    registry: Map<AccountKey, Seq<char>>,
    cursor: Option<AccountKey>,
    limit: nat,
    first: Seq<AccountInfoView>,
    second: Seq<AccountInfoView>,
)
    requires
        is_page(registry, cursor, limit, first),
        is_page(registry, cursor, limit, second),
    ensures
        first == second,
{
    lemma_prefix_agrees(registry, cursor, limit, first, second, first.len() as int);
    lemma_prefix_agrees(registry, cursor, limit, second, first, second.len() as int);
    assert(first =~= second);
}

/// Two pages of one registry, cursor and limit agree on as many records as
/// the first of them has.
proof fn lemma_prefix_agrees(
    registry: Map<AccountKey, Seq<char>>,
    cursor: Option<AccountKey>,
    limit: nat,
    first: Seq<AccountInfoView>,
    second: Seq<AccountInfoView>,
    n: int,
)
    requires
        is_page(registry, cursor, limit, first),
        is_page(registry, cursor, limit, second),
        0 <= n <= first.len(),
    ensures
        n <= second.len(),
        forall|i: int| 0 <= i < n ==> first[i] == second[i],
    decreases n,
{
    if n > 0 {
        lemma_prefix_agrees(registry, cursor, limit, first, second, n - 1);
        let m = n - 1;
        let key = first[m].key();
        assert(registry.contains_key(key) && after_cursor(cursor, key));
        // `second` holds the key of `first[m]`, at the same place
        if has_key(second, key) {
            let j = choose|j: int| 0 <= j < second.len() && #[trigger] second[j].key() == key;
            if j < m {
                assert(first[j] == second[j]);
                assert(key_lt(first[j].key(), first[m].key()));
                lemma_key_lt_irreflexive(key);
            } else if j > m {
                // `second[m]` comes before the key, so `first` holds it before place `m`
                let other = second[m].key();
                assert(key_lt(second[m].key(), second[j].key()));
                assert(registry.contains_key(other) && after_cursor(cursor, other));
                lemma_misplaced(first, second, m, other);
            } else {
                assert(registry[first[m].key()] == first[m].account);
                assert(registry[second[m].key()] == second[m].account);
            }
        } else {
            // `second` is full and all of it comes before the key
            assert(second.len() == limit && all_before(second, key));
            assert(m < second.len());
            let other = second[m].key();
            assert(key_lt(second[m].key(), key));
            assert(registry.contains_key(other) && after_cursor(cursor, other));
            lemma_misplaced(first, second, m, other);
        }
    }
}

/// The key of `second[m]` does not come before that of `first[m]` where the
/// pages agree before place `m` and `first` accounts for that key.
proof fn lemma_misplaced(
    first: Seq<AccountInfoView>,
    second: Seq<AccountInfoView>,
    m: int,
    other: AccountKey,
)
    requires
        rising(first),
        rising(second),
        0 <= m < first.len(),
        m < second.len(),
        forall|i: int| 0 <= i < m ==> first[i] == second[i],
        other == second[m].key(),
        has_key(first, other) || all_before(first, other),
    ensures
        !key_lt(other, first[m].key()),
{
    if !key_lt(other, first[m].key()) {
    } else if has_key(first, other) {
        let i = choose|i: int| 0 <= i < first.len() && #[trigger] first[i].key() == other;
        if i < m {
            assert(first[i] == second[i]);
            assert(key_lt(second[i].key(), second[m].key()));
            lemma_key_lt_irreflexive(other);
        } else if i > m {
            assert(key_lt(first[m].key(), first[i].key()));
            lemma_key_lt_asymmetric(other, first[m].key());
        } else {
            lemma_key_lt_irreflexive(other);
        }
    } else {
        assert(key_lt(first[m].key(), other));
        lemma_key_lt_asymmetric(other, first[m].key());
    }
}

/// The page behind the last record of a page carries the listing on: no
/// record of the second comes before or in the first, and the two in a row
/// are the page of twice the length. So the pages neither overlap nor leave
/// an account out between them.
pub proof fn lemma_next_page_continues(
    registry: Map<AccountKey, Seq<char>>,
    cursor: Option<AccountKey>,
    limit: nat,
    first: Seq<AccountInfoView>,
    second: Seq<AccountInfoView>,
)
    requires
        is_page(registry, cursor, limit, first),
        first.len() > 0,
        is_page(registry, Some(first.last().key()), limit, second),
    ensures
        forall|i: int, j: int|
            0 <= i < first.len() && 0 <= j < second.len() ==> key_lt(
                #[trigger] first[i].key(),
                #[trigger] second[j].key(),
            ),
        is_page(registry, cursor, 2 * limit, first + second),
{
    let last = first.last().key();
    let both = first + second;
    assert forall|i: int, j: int| 0 <= i < first.len() && 0 <= j < second.len() implies key_lt(
        #[trigger] first[i].key(),
        #[trigger] second[j].key(),
    ) by {
        assert(after_cursor(Some(last), second[j].key()));
        if i < first.len() - 1 {
            assert(key_lt(first[i].key(), first[first.len() - 1].key()));
            lemma_key_lt_transitive(first[i].key(), last, second[j].key());
        }
    }
    assert forall|i: int| 0 <= i < both.len() implies registry.contains_key(
        #[trigger] both[i].key(),
    ) && registry[both[i].key()] == both[i].account && after_cursor(cursor, both[i].key()) by {
        if i >= first.len() {
            let j = i - first.len();
            assert(both[i] == second[j]);
            assert(registry.contains_key(second[j].key()));
            assert(after_cursor(Some(last), second[j].key()));
            assert(after_cursor(cursor, first[first.len() - 1].key()));
            if cursor is Some {
                lemma_key_lt_transitive(cursor->Some_0, last, second[j].key());
            }
        } else {
            assert(both[i] == first[i]);
            assert(registry.contains_key(first[i].key()));
        }
    }
    assert forall|i: int, j: int| 0 <= i < j < both.len() implies key_lt(
        #[trigger] both[i].key(),
        #[trigger] both[j].key(),
    ) by {
        if j < first.len() {
            assert(key_lt(first[i].key(), first[j].key()));
        } else if i >= first.len() {
            assert(key_lt(second[i - first.len()].key(), second[j - first.len()].key()));
        } else {
            assert(key_lt(first[i].key(), second[j - first.len()].key()));
        }
    }
    assert forall|key: AccountKey| #[trigger]
        registry.contains_key(key) && after_cursor(cursor, key) implies has_key(both, key) || (
    both.len() == 2 * limit && all_before(both, key)) by {
        if has_key(first, key) {
            let i = choose|i: int| 0 <= i < first.len() && #[trigger] first[i].key() == key;
            assert(both[i].key() == key);
        } else {
            assert(first.len() == limit && all_before(first, key));
            assert(key_lt(first[first.len() - 1].key(), key));
            assert(after_cursor(Some(last), key));
            if has_key(second, key) {
                let j = choose|j: int| 0 <= j < second.len() && #[trigger] second[j].key() == key;
                assert(both[first.len() + j].key() == key);
            } else {
                assert(second.len() == limit && all_before(second, key));
                assert forall|i: int| 0 <= i < both.len() implies key_lt(
                    #[trigger] both[i].key(),
                    key,
                ) by {
                    if i < first.len() {
                        assert(key_lt(first[i].key(), key));
                    } else {
                        assert(key_lt(second[i - first.len()].key(), key));
                    }
                }
            }
        }
    }
}

/// Whether `record` stands in `all` at place `from` or later, behind the cursor.
spec fn taken_from(
    all: Seq<AccountInfoView>,
    from: int,
    cursor: Option<AccountKey>,
    record: AccountInfoView,
) -> bool {
    exists|i: int|
        from <= i < all.len() && #[trigger] all[i] == record && after_cursor(cursor, all[i].key())
}

/// Whether the record's key lies behind the cursor.
fn behind(cursor: &Option<(String, String, String)>, record: &AccountInfo) -> (behind: bool)
    ensures
        behind == after_cursor(cursor_key(*cursor), record.deep_view().key()),
{
    match cursor {
        Some(start) => key_before(
            start.0.as_str(),
            start.1.as_str(),
            start.2.as_str(),
            record.connection.as_str(),
            record.port.as_str(),
            record.controller.as_str(),
        ),
        None => true,
    }
}

/// Whether the key of `a` comes before the key of `b`.
fn record_before(a: &AccountInfo, b: &AccountInfo) -> (before: bool)
    ensures
        before == key_lt(a.deep_view().key(), b.deep_view().key()),
{
    key_before(
        a.connection.as_str(),
        a.port.as_str(),
        a.controller.as_str(),
        b.connection.as_str(),
        b.port.as_str(),
        b.controller.as_str(),
    )
}

/// Puts a record into a rising list whose keys all differ from its own, at
/// the place that keeps the list rising.
fn insert_rising(sorted: &mut Vec<AccountInfo>, record: AccountInfo)
    requires
        rising(old(sorted).deep_view()),
        !has_key(old(sorted).deep_view(), record.deep_view().key()),
    ensures
        rising(final(sorted).deep_view()),
        exists|place: int|
            0 <= place <= old(sorted).len() && final(sorted).deep_view() == old(
                sorted,
            ).deep_view().insert(place, record.deep_view()),
{
    let ghost before = sorted.deep_view();
    let ghost key = record.deep_view().key();
    let mut place: usize = 0;
    while place < sorted.len() && !record_before(&record, &sorted[place])
        invariant
            place <= sorted.len(),
            sorted.deep_view() == before,
            key == record.deep_view().key(),
            !has_key(before, key),
            forall|i: int| 0 <= i < place ==> key_lt(#[trigger] before[i].key(), key),
        decreases sorted.len() - place,
    {
        proof {
            assert(before[place as int] == sorted[place as int].deep_view());
            lemma_key_lt_total(key, before[place as int].key());
        }
        place = place + 1;
    }
    proof {
        if place < sorted.len() {
            assert(before[place as int] == sorted[place as int].deep_view());
        }
    }
    sorted.insert(place, record);
    proof {
        let after = sorted.deep_view();
        assert(after =~= before.insert(place as int, record.deep_view()));
        assert forall|i: int, j: int| 0 <= i < j < after.len() implies key_lt(
            #[trigger] after[i].key(),
            #[trigger] after[j].key(),
        ) by {
            if j < place {
                assert(key_lt(before[i].key(), before[j].key()));
            } else if j == place {
                assert(key_lt(before[i].key(), key));
            } else if i < place {
                assert(key_lt(before[i].key(), before[j - 1].key()));
            } else if i == place {
                assert(key_lt(key, before[place as int].key()));
                if j - 1 > place {
                    assert(key_lt(before[place as int].key(), before[j - 1].key()));
                    lemma_key_lt_transitive(key, before[place as int].key(), before[j - 1].key());
                }
            } else {
                assert(key_lt(before[i - 1].key(), before[j - 1].key()));
            }
        }
    }
}

/// Whether no two of the records have the same key.
pub open spec fn distinct_keys(records: Seq<AccountInfoView>) -> bool {
    forall|i: int, j: int|
        0 <= i < j < records.len() ==> #[trigger] records[i].key() != #[trigger] records[j].key()
}

/// The registry that holds these records and nothing else.
pub open spec fn registry_of(records: Seq<AccountInfoView>) -> Map<AccountKey, Seq<char>> {
    Map::new(
        |key: AccountKey| has_key(records, key),
        |key: AccountKey|
            records[choose|i: int| 0 <= i < records.len() && #[trigger] records[i].key() == key].account,
    )
}

/// Records with distinct keys hold every account of their registry once.
pub proof fn lemma_registry_of_records(records: Seq<AccountInfoView>)
    requires
        distinct_keys(records),
    ensures
        holds_each_once(records, registry_of(records)),
{
    let registry = registry_of(records);
    assert forall|i: int| 0 <= i < records.len() implies registry.contains_key(
        #[trigger] records[i].key(),
    ) && registry[records[i].key()] == records[i].account by {
        let key = records[i].key();
        assert(has_key(records, key));
        let j = choose|j: int| 0 <= j < records.len() && #[trigger] records[j].key() == key;
        assert(j == i);
    }
}

/// A registry is the registry of any records that hold each of its accounts once.
pub proof fn lemma_records_of_registry(
    records: Seq<AccountInfoView>,
    registry: Map<AccountKey, Seq<char>>,
)
    requires
        holds_each_once(records, registry),
    ensures
        distinct_keys(records),
        registry_of(records) == registry,
{
    lemma_registry_of_records(records);
    let built = registry_of(records);
    assert forall|key: AccountKey| built.contains_key(key) == registry.contains_key(key) by {
        if built.contains_key(key) {
            let i = choose|i: int| 0 <= i < records.len() && #[trigger] records[i].key() == key;
            assert(registry.contains_key(records[i].key()));
        }
    }
    assert forall|key: AccountKey| built.contains_key(key) implies built[key] == registry[key] by {
        let i = choose|i: int| 0 <= i < records.len() && #[trigger] records[i].key() == key;
        assert(registry[records[i].key()] == records[i].account);
    }
    assert(built =~= registry);
}

/// The page of at most `limit` records that starts behind the cursor, out of
/// records with distinct keys.
pub fn select_page(
    records: Vec<AccountInfo>,
    start_after: &Option<(String, String, String)>,
    limit: usize,
) -> (page: Vec<AccountInfo>)
    requires
        distinct_keys(records.deep_view()),
    ensures
        is_page(
            registry_of(records.deep_view()),
            cursor_key(*start_after),
            limit as nat,
            page.deep_view(),
        ),
{
    let ghost all = records.deep_view();
    let ghost cursor = cursor_key(*start_after);
    let ghost registry = registry_of(all);
    proof {
        lemma_registry_of_records(all);
    }
    let mut rest = records;
    let mut sorted: Vec<AccountInfo> = Vec::new();
    while rest.len() > 0
        invariant
            holds_each_once(all, registry),
            cursor == cursor_key(*start_after),
            rest.len() <= all.len(),
            forall|i: int| 0 <= i < rest.len() ==> #[trigger] rest.deep_view()[i] == all[i],
            rising(sorted.deep_view()),
            forall|j: int|
                0 <= j < sorted.len() ==> taken_from(
                    all,
                    rest.len() as int,
                    cursor,
                    #[trigger] sorted.deep_view()[j],
                ),
            forall|i: int|
                rest.len() <= i < all.len() && after_cursor(cursor, #[trigger] all[i].key())
                    ==> has_key(sorted.deep_view(), all[i].key()),
        decreases rest.len(),
    {
        let ghost shown = rest.deep_view();
        let ghost held = sorted.deep_view();
        let n = rest.len() - 1;
        let record = rest.pop().unwrap();
        proof {
            assert(record.deep_view() == shown[n as int]);
            assert(shown[n as int] == all[n as int]);
            assert forall|i: int| 0 <= i < rest.len() implies #[trigger] rest.deep_view()[i]
                == all[i] by {
                assert(rest.deep_view()[i] == shown[i]);
            }
        }
        if behind(start_after, &record) {
            proof {
                if has_key(held, all[n as int].key()) {
                    let j = choose|j: int|
                        0 <= j < held.len() && #[trigger] held[j].key() == all[n as int].key();
                    assert(taken_from(all, n + 1, cursor, held[j]));
                    let i = choose|i: int|
                        n < i < all.len() && #[trigger] all[i] == held[j] && after_cursor(
                            cursor,
                            all[i].key(),
                        );
                    assert(all[n as int].key() != all[i].key());
                }
            }
            insert_rising(&mut sorted, record);
            proof {
                let now = sorted.deep_view();
                let place = choose|place: int|
                    0 <= place <= held.len() && now == held.insert(place, all[n as int]);
                assert forall|j: int| 0 <= j < now.len() implies taken_from(
                    all,
                    n as int,
                    cursor,
                    #[trigger] now[j],
                ) by {
                    if j == place {
                        assert(all[n as int] == now[j]);
                    } else {
                        let was = if j < place {
                            j
                        } else {
                            j - 1
                        };
                        assert(now[j] == held[was]);
                        assert(taken_from(all, n + 1, cursor, held[was]));
                        let i = choose|i: int|
                            n < i < all.len() && #[trigger] all[i] == held[was] && after_cursor(
                                cursor,
                                all[i].key(),
                            );
                        assert(all[i] == now[j]);
                    }
                }
                assert forall|i: int|
                    rest.len() <= i < all.len() && after_cursor(
                        cursor,
                        #[trigger] all[i].key(),
                    ) implies has_key(now, all[i].key()) by {
                    if i == n {
                        assert(now[place].key() == all[i].key());
                    } else {
                        let j = choose|j: int|
                            0 <= j < held.len() && #[trigger] held[j].key() == all[i].key();
                        if j < place {
                            assert(now[j].key() == all[i].key());
                        } else {
                            assert(now[j + 1].key() == all[i].key());
                        }
                    }
                }
            }
        } else {
            proof {
                assert forall|j: int| 0 <= j < held.len() implies taken_from(
                    all,
                    n as int,
                    cursor,
                    #[trigger] held[j],
                ) by {
                    assert(taken_from(all, n + 1, cursor, held[j]));
                    let i = choose|i: int|
                        n < i < all.len() && #[trigger] all[i] == held[j] && after_cursor(
                            cursor,
                            all[i].key(),
                        );
                    assert(all[i] == held[j]);
                }
            }
        }
    }
    let ghost full = sorted.deep_view();
    sorted.truncate(limit);
    proof {
        let page = sorted.deep_view();
        assert(page.len() <= limit);
        assert forall|i: int| 0 <= i < page.len() implies page[i] == full[i] by {}
        assert forall|i: int| 0 <= i < page.len() implies registry.contains_key(
            #[trigger] page[i].key(),
        ) && registry[page[i].key()] == page[i].account && after_cursor(cursor, page[i].key()) by {
            assert(taken_from(all, 0, cursor, full[i]));
            let k = choose|k: int|
                0 <= k < all.len() && #[trigger] all[k] == full[i] && after_cursor(
                    cursor,
                    all[k].key(),
                );
            assert(registry.contains_key(all[k].key()));
        }
        assert forall|i: int, j: int| 0 <= i < j < page.len() implies key_lt(
            #[trigger] page[i].key(),
            #[trigger] page[j].key(),
        ) by {
            assert(key_lt(full[i].key(), full[j].key()));
        }
        assert forall|key: AccountKey| #[trigger]
            registry.contains_key(key) && after_cursor(cursor, key) implies has_key(page, key) || (
        page.len() == limit && all_before(page, key)) by {
            let k = choose|k: int| 0 <= k < all.len() && #[trigger] all[k].key() == key;
            assert(has_key(full, all[k].key()));
            let j = choose|j: int| 0 <= j < full.len() && #[trigger] full[j].key() == key;
            if j < page.len() {
                assert(page[j].key() == key);
            } else {
                assert forall|i: int| 0 <= i < page.len() implies key_lt(
                    #[trigger] page[i].key(),
                    key,
                ) by {
                    assert(key_lt(full[i].key(), full[j].key()));
                }
            }
        }
    }
    sorted
}

} // verus!
