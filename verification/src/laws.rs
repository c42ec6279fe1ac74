//! What holds of the prefix store and the prefix cache together, whatever
//! prefixes are set and in whatever order.
//!
//! A `set` of prefix `p` for guild `g` is what `setprefix` does where it
//! succeeds: `INSERT OR REPLACE` of the row `(decimal(g), p)` on the table,
//! and then `insert(g, p)` on the cache. Where the store does not write the
//! row, neither changes.

use crate::cache::{default_prefix, prefix_for};
use crate::numeral::{decimal, lemma_parse_decimal, parse_u64_spec};
use crate::store::{
    distinct_keys, has_key, lemma_upserted_distinct, lemma_without_key_absent,
    lemma_without_key_rows, prefixes_of_rows, upserted, without_key, RowView, StoreError,
};
use vstd::prelude::*;

verus! {

/// One `set`: the guild and its new prefix.
pub type SetCall = (u64, Seq<char>);

/// Whether one of the `sets` is for the guild `g`.
pub open spec fn sets_guild(sets: Seq<SetCall>, g: u64) -> bool {
    exists|i: int| 0 <= i < sets.len() && (#[trigger] sets[i]).0 == g
}

/// The cache after the `sets`, made in order.
pub open spec fn cache_after(cache: Map<u64, Seq<char>>, sets: Seq<SetCall>) -> Map<u64, Seq<char>>
    decreases sets.len(),
{
    if sets.len() == 0 {
        cache
    } else {
        cache_after(cache, sets.drop_last()).insert(sets.last().0, sets.last().1)
    }
}

/// The table's rows after the `sets`, made in order.
pub open spec fn rows_after(rows: Seq<RowView>, sets: Seq<SetCall>) -> Seq<RowView>
    decreases sets.len(),
{
    if sets.len() == 0 {
        rows
    } else {
        upserted(rows_after(rows, sets.drop_last()), decimal(sets.last().0 as nat), sets.last().1)
    }
}

/// Whether a key is the one under which some guild's row is stored.
pub open spec fn is_guild_key(key: Seq<char>) -> bool {
    exists|g: u64| key == #[trigger] decimal(g as nat)
}

/// Whether every row stands under the key of a guild.
pub open spec fn guild_keys(rows: Seq<RowView>) -> bool {
    forall|i: int| 0 <= i < rows.len() ==> is_guild_key((#[trigger] rows[i]).0)
}

/// Whether no two rows are read as rows of the same guild.
pub open spec fn one_row_per_guild(rows: Seq<RowView>) -> bool {
    forall|i: int, j: int|
        0 <= i < rows.len() && 0 <= j < rows.len() && i != j ==> parse_u64_spec(
            (#[trigger] rows[i]).0,
        ) is Some && parse_u64_spec(rows[i].0) != parse_u64_spec((#[trigger] rows[j]).0)
}

/// A table that is written by `set` alone has at most one prefix for each
/// guild: where every row stands under the key of a guild and no two rows
/// share a key, that is so after any sequence of `set`s, and no two rows are
/// read as rows of the same guild.
pub proof fn lemma_sets_keep_one_row_per_guild(rows: Seq<RowView>, sets: Seq<SetCall>)
    requires
        distinct_keys(rows),
        guild_keys(rows),
    ensures
        distinct_keys(rows_after(rows, sets)),
        guild_keys(rows_after(rows, sets)),
        one_row_per_guild(rows_after(rows, sets)),
    decreases sets.len(),
{
    let after = rows_after(rows, sets);
    if sets.len() > 0 {
        let before = rows_after(rows, sets.drop_last());
        let g = sets.last().0;
        let key = decimal(g as nat);
        let kept = without_key(before, key);
        lemma_sets_keep_one_row_per_guild(rows, sets.drop_last());
        lemma_upserted_distinct(before, key, sets.last().1);
        lemma_without_key_rows(before, key);
        assert forall|i: int| 0 <= i < after.len() implies is_guild_key(
            (#[trigger] after[i]).0,
        ) by {
            if i < kept.len() {
                assert(after[i] == kept[i]);
                assert(has_key(before, kept[i].0));
                let j = choose|j: int|
                    0 <= j < before.len() && (#[trigger] before[j]).0 == kept[i].0;
                assert(is_guild_key(before[j].0));
            } else {
                assert(after[i].0 == decimal(g as nat));
            }
        }
    }
    assert forall|i: int, j: int|
        0 <= i < after.len() && 0 <= j < after.len() && i != j implies parse_u64_spec(
        (#[trigger] after[i]).0,
    ) is Some && parse_u64_spec(after[i].0) != parse_u64_spec((#[trigger] after[j]).0) by {
        assert(is_guild_key(after[i].0));
        assert(is_guild_key(after[j].0));
        let a = choose|a: u64| after[i].0 == #[trigger] decimal(a as nat);
        let b = choose|b: u64| after[j].0 == #[trigger] decimal(b as nat);
        lemma_parse_decimal(a);
        lemma_parse_decimal(b);
    }
}

/// Sets for other guilds leave a guild's prefix as it was.
pub proof fn lemma_other_sets_keep_prefix(cache: Map<u64, Seq<char>>, sets: Seq<SetCall>, g: u64)
    requires
        !sets_guild(sets, g),
    ensures
        cache_after(cache, sets).contains_key(g) == cache.contains_key(g),
        cache_after(cache, sets).contains_key(g) ==> cache_after(cache, sets)[g] == cache[g],
        prefix_for(cache_after(cache, sets), Some(g)) == prefix_for(cache, Some(g)),
    decreases sets.len(),
{
    if sets.len() > 0 {
        let init = sets.drop_last();
        assert(sets[sets.len() - 1].0 != g);
        assert(!sets_guild(init, g)) by {
            if sets_guild(init, g) {
                let i = choose|i: int| 0 <= i < init.len() && (#[trigger] init[i]).0 == g;
                assert(sets[i].0 == g);
            }
        }
        lemma_other_sets_keep_prefix(cache, init, g);
    }
}

/// A guild for which no prefix was ever set is read with the default
/// prefix: the cache starts empty, and no `set` among those made is for the
/// guild.
pub proof fn lemma_unset_guild_has_default(sets: Seq<SetCall>, g: u64)
    requires
        !sets_guild(sets, g),
    ensures
        prefix_for(cache_after(Map::empty(), sets), Some(g)) == default_prefix(),
{
    lemma_other_sets_keep_prefix(Map::empty(), sets, g);
}

/// After `set(g, p)` the guild is read with `p`, whatever is set for other
/// guilds afterwards, until the next `set` for `g`.
pub proof fn lemma_set_is_read_back(
    cache: Map<u64, Seq<char>>,
    g: u64,
    p: Seq<char>,
    later: Seq<SetCall>,
)
    requires
        !sets_guild(later, g),
    ensures
        prefix_for(cache_after(cache.insert(g, p), later), Some(g)) == p,
{
    lemma_other_sets_keep_prefix(cache.insert(g, p), later, g);
}

/// Setting the same prefix twice leaves the cache and the table as setting
/// it once does.
pub proof fn lemma_set_twice(cache: Map<u64, Seq<char>>, rows: Seq<RowView>, g: u64, p: Seq<char>)
    ensures
        cache.insert(g, p).insert(g, p) == cache.insert(g, p),
        upserted(upserted(rows, decimal(g as nat), p), decimal(g as nat), p) == upserted(
            rows,
            decimal(g as nat),
            p,
        ),
{
    let key = decimal(g as nat);
    let kept = without_key(rows, key);
    let once = upserted(rows, key, p);
    assert(cache.insert(g, p).insert(g, p) =~= cache.insert(g, p));
    lemma_without_key_rows(rows, key);
    lemma_without_key_absent(kept, key);
    assert(once.drop_last() =~= kept);
    assert(without_key(once, key) == kept);
}

/// Where a load of the rows succeeds, so does a load of the rows without
/// the key of `g`, and the two agree on every other guild.
pub proof fn lemma_load_without_key(rows: Seq<RowView>, g: u64)
    requires
        prefixes_of_rows(rows) is Ok,
    ensures
        prefixes_of_rows(without_key(rows, decimal(g as nat))) is Ok,
        prefixes_of_rows(without_key(rows, decimal(g as nat)))->Ok_0.remove(g) == prefixes_of_rows(
            rows,
        )->Ok_0.remove(g),
    decreases rows.len(),
{
    let key = decimal(g as nat);
    if rows.len() > 0 {
        let init = rows.drop_last();
        let last = rows.last();
        lemma_load_without_key(init, g);
        let loaded = prefixes_of_rows(init)->Ok_0;
        let kept = without_key(init, key);
        let kept_loaded = prefixes_of_rows(kept)->Ok_0;
        let h = parse_u64_spec(last.0)->Some_0;
        if last.0 == key {
            lemma_parse_decimal(g);
            assert(loaded.insert(g, last.1).remove(g) =~= loaded.remove(g));
        } else {
            assert(kept.push(last).drop_last() =~= kept);
            assert(kept_loaded.insert(h, last.1).remove(g) =~= kept_loaded.remove(g).insert(
                h,
                last.1,
            ).remove(g));
            assert(loaded.insert(h, last.1).remove(g) =~= loaded.remove(g).insert(h, last.1).remove(
                g,
            ));
        }
    }
}

/// One `set` keeps cache and store consistent: where a load of the rows
/// gives the cache, it still does after both were written.
pub proof fn lemma_set_keeps_consistent(
    cache: Map<u64, Seq<char>>,
    rows: Seq<RowView>,
    g: u64,
    p: Seq<char>,
)
    requires
        prefixes_of_rows(rows) == Ok::<Map<u64, Seq<char>>, StoreError>(cache),
    ensures
        prefixes_of_rows(upserted(rows, decimal(g as nat), p)) == Ok::<
            Map<u64, Seq<char>>,
            StoreError,
        >(cache.insert(g, p)),
{
    let key = decimal(g as nat);
    let kept = without_key(rows, key);
    lemma_load_without_key(rows, g);
    lemma_parse_decimal(g);
    let kept_loaded = prefixes_of_rows(kept)->Ok_0;
    assert(kept.push((key, p)).drop_last() =~= kept);
    assert(kept_loaded.insert(g, p) =~= kept_loaded.remove(g).insert(g, p));
    assert(cache.insert(g, p) =~= cache.remove(g).insert(g, p));
}

/// Cache and store stay consistent through any sequence of `set`s: where a
/// load of the rows gave the cache before, a load of the rows after gives
/// the cache after.
pub proof fn lemma_sets_keep_consistent(
    cache: Map<u64, Seq<char>>,
    rows: Seq<RowView>,
    sets: Seq<SetCall>,
)
    requires
        prefixes_of_rows(rows) == Ok::<Map<u64, Seq<char>>, StoreError>(cache),
    ensures
        prefixes_of_rows(rows_after(rows, sets)) == Ok::<Map<u64, Seq<char>>, StoreError>(
            cache_after(cache, sets),
        ),
    decreases sets.len(),
{
    if sets.len() > 0 {
        let init = sets.drop_last();
        lemma_sets_keep_consistent(cache, rows, init);
        lemma_set_keeps_consistent(
            cache_after(cache, init),
            rows_after(rows, init),
            sets.last().0,
            sets.last().1,
        );
    }
}

/// One attempt to set a prefix: the guild, the prefix, and whether the
/// store wrote the row.
pub type SetAttempt = (u64, Seq<char>, bool);

/// The cache after one attempt: the guild's prefix is set where the store
/// wrote the row, and nothing changes where it did not.
pub open spec fn cache_after_attempt(cache: Map<u64, Seq<char>>, attempt: SetAttempt) -> Map<
    u64,
    Seq<char>,
> {
    if attempt.2 {
        cache.insert(attempt.0, attempt.1)
    } else {
        cache
    }
}

/// The table's rows after one attempt: the guild's row is written where
/// the store wrote it, and nothing changes where it did not.
pub open spec fn rows_after_attempt(rows: Seq<RowView>, attempt: SetAttempt) -> Seq<RowView> {
    if attempt.2 {
        upserted(rows, decimal(attempt.0 as nat), attempt.1)
    } else {
        rows
    }
}

/// The cache after the attempts, made in order.
pub open spec fn cache_after_attempts(cache: Map<u64, Seq<char>>, attempts: Seq<SetAttempt>) -> Map<
    u64,
    Seq<char>,
>
    decreases attempts.len(),
{
    if attempts.len() == 0 {
        cache
    } else {
        cache_after_attempt(cache_after_attempts(cache, attempts.drop_last()), attempts.last())
    }
}

/// The table's rows after the attempts, made in order.
pub open spec fn rows_after_attempts(rows: Seq<RowView>, attempts: Seq<SetAttempt>) -> Seq<RowView>
    decreases attempts.len(),
{
    if attempts.len() == 0 {
        rows
    } else {
        rows_after_attempt(rows_after_attempts(rows, attempts.drop_last()), attempts.last())
    }
}

/// A `set` that the store did not write leaves the cache and the rows as
/// they were, and so leaves them consistent where they were.
pub proof fn lemma_failed_set_changes_nothing(
    cache: Map<u64, Seq<char>>,
    rows: Seq<RowView>,
    g: u64,
    p: Seq<char>,
)
    ensures
        cache_after_attempt(cache, (g, p, false)) == cache,
        rows_after_attempt(rows, (g, p, false)) == rows,
        prefixes_of_rows(rows) == Ok::<Map<u64, Seq<char>>, StoreError>(cache)
            ==> prefixes_of_rows(rows_after_attempt(rows, (g, p, false))) == Ok::<
            Map<u64, Seq<char>>,
            StoreError,
        >(cache_after_attempt(cache, (g, p, false))),
{
}

/// Cache and store stay consistent through any sequence of attempts to set
/// a prefix, whichever of them the store wrote: where a load of the rows
/// gave the cache before, a load of the rows after gives the cache after.
pub proof fn lemma_attempts_keep_consistent(
    cache: Map<u64, Seq<char>>,
    rows: Seq<RowView>,
    attempts: Seq<SetAttempt>,
)
    requires
        prefixes_of_rows(rows) == Ok::<Map<u64, Seq<char>>, StoreError>(cache),
    ensures
        prefixes_of_rows(rows_after_attempts(rows, attempts)) == Ok::<
            Map<u64, Seq<char>>,
            StoreError,
        >(cache_after_attempts(cache, attempts)),
    decreases attempts.len(),
{
    if attempts.len() > 0 {
        let init = attempts.drop_last();
        lemma_attempts_keep_consistent(cache, rows, init);
        if attempts.last().2 {
            lemma_set_keeps_consistent(
                cache_after_attempts(cache, init),
                rows_after_attempts(rows, init),
                attempts.last().0,
                attempts.last().1,
            );
        }
    }
}

} // verus!
