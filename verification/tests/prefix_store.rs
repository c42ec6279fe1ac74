use lupusregina::admin::{setprefix, setprefix_begin, setprefix_finish, SetPrefixError};
use lupusregina::cache::{default_prefix_string, prefix_or_default, Prefixes};
use lupusregina::store::{
    get_all_prefixes, get_guild_prefix, guild_key, prefixes_from_rows, set_guild_prefix, PrefixRow,
    PrefixTable, StoreError, StoreFailure,
};

fn unreachable_store() -> StoreFailure {
    StoreFailure { kind: StoreError::Unreachable, text: "unable to open database file".to_string() }
}

fn row(key: &str, prefix: &str) -> PrefixRow {
    PrefixRow { guild_id: key.to_string(), prefix: prefix.to_string() }
}

fn pairs(rows: &[PrefixRow]) -> Vec<(String, String)> {
    rows.iter().map(|r| (r.guild_id.clone(), r.prefix.clone())).collect()
}

#[test]
fn set_then_resolve_gives_the_prefix_and_the_default_elsewhere() {
    let mut prefixes = Prefixes::new();
    let mut table = PrefixTable::new();
    let reply = setprefix(&mut prefixes, &mut table, Some("!".to_string()), Some(123));
    assert_eq!(reply, Ok("Set prefix!".to_string()));
    assert_eq!(prefixes.resolve(Some(123)), "!");
    assert_eq!(prefixes.resolve(Some(456)), ".");
}

#[test]
fn default_prefix_is_a_dot() {
    assert_eq!(default_prefix_string(), ".");
}

#[test]
fn unset_guild_resolves_to_default() {
    let prefixes = Prefixes::new();
    assert_eq!(prefixes.len(), 0);
    assert_eq!(prefixes.lookup(7), None);
    assert_eq!(prefixes.resolve(Some(7)), ".");
    assert_eq!(prefixes.resolve(Some(u64::MAX)), ".");
    assert_eq!(prefixes.resolve(None), ".");
}

#[test]
fn message_outside_of_a_guild_takes_the_default() {
    let mut prefixes = Prefixes::new();
    prefixes.update(1, "?".to_string());
    assert_eq!(prefixes.resolve(None), ".");
}

#[test]
fn set_is_read_back_until_the_next_set() {
    let mut prefixes = Prefixes::new();
    prefixes.update(10, "a!".to_string());
    prefixes.update(11, "b!".to_string());
    prefixes.update(12, "c!".to_string());
    assert_eq!(prefixes.lookup(10), Some("a!".to_string()));
    assert_eq!(prefixes.resolve(Some(10)), "a!");
    prefixes.update(10, "z!".to_string());
    assert_eq!(prefixes.lookup(10), Some("z!".to_string()));
    assert_eq!(prefixes.lookup(11), Some("b!".to_string()));
}

#[test]
fn setting_the_same_prefix_twice_changes_nothing() {
    let mut prefixes = Prefixes::new();
    let mut table = PrefixTable::new();
    set_guild_prefix(&mut table, 1, "x".to_string());
    set_guild_prefix(&mut table, 2, "y".to_string());
    prefixes.update(2, "y".to_string());
    let once = pairs(&table.get_all());
    set_guild_prefix(&mut table, 2, "y".to_string());
    prefixes.update(2, "y".to_string());
    assert_eq!(pairs(&table.get_all()), once);
    assert_eq!(prefixes.lookup(2), Some("y".to_string()));
    assert_eq!(get_all_prefixes(&table).unwrap().len(), 2);
}

#[test]
fn cache_and_store_agree_after_sets() {
    let mut prefixes = Prefixes::load(&PrefixTable::new()).unwrap();
    let mut table = PrefixTable::new();
    let sets: [(u64, &str); 6] =
        [(5, "!"), (6, "?"), (5, "~"), (u64::MAX, "$"), (0, "0"), (6, "??")];
    for (g, p) in sets {
        assert!(setprefix(&mut prefixes, &mut table, Some(p.to_string()), Some(g)).is_ok());
    }
    let loaded = get_all_prefixes(&table).unwrap();
    assert_eq!(loaded.len(), 4);
    assert_eq!(prefixes.len(), 4);
    for (g, p) in &loaded {
        assert_eq!(prefixes.lookup(*g).as_ref(), Some(p));
    }
    for g in [5u64, 6, u64::MAX, 0] {
        assert_eq!(loaded.get(&g).cloned(), prefixes.lookup(g));
    }
    assert_eq!(prefixes.lookup(5), Some("~".to_string()));
    assert_eq!(prefixes.lookup(6), Some("??".to_string()));
    let reloaded = Prefixes::load(&table).unwrap();
    for g in [5u64, 6, u64::MAX, 0, 1] {
        assert_eq!(reloaded.lookup(g), prefixes.lookup(g));
    }
}

#[test]
fn rows_are_keyed_by_the_decimal_numeral() {
    let mut table = PrefixTable::new();
    assert_eq!(set_guild_prefix(&mut table, 123, "!".to_string()), 1);
    assert_eq!(pairs(&table.get_all()), vec![("123".to_string(), "!".to_string())]);
    assert_eq!(guild_key(0), "0");
    assert_eq!(guild_key(18446744073709551615), "18446744073709551615");
}

#[test]
fn replaced_row_moves_to_the_end() {
    let mut table = PrefixTable::new();
    set_guild_prefix(&mut table, 1, "a".to_string());
    set_guild_prefix(&mut table, 2, "b".to_string());
    set_guild_prefix(&mut table, 3, "c".to_string());
    set_guild_prefix(&mut table, 1, "d".to_string());
    assert_eq!(
        pairs(&table.get_all()),
        vec![
            ("2".to_string(), "b".to_string()),
            ("3".to_string(), "c".to_string()),
            ("1".to_string(), "d".to_string()),
        ]
    );
}

#[test]
fn get_of_a_guild_without_row_is_not_found() {
    let mut table = PrefixTable::new();
    assert_eq!(get_guild_prefix(&table, 9), Err(StoreError::NotFound));
    set_guild_prefix(&mut table, 9, ">".to_string());
    assert_eq!(get_guild_prefix(&table, 9), Ok(">".to_string()));
    assert_eq!(get_guild_prefix(&table, 90), Err(StoreError::NotFound));
    assert_eq!(table.get(&"9".to_string()), Some(">".to_string()));
    assert_eq!(table.get(&"09".to_string()), None);
}

#[test]
fn row_with_a_key_that_is_no_number_fails_the_load() {
    let mut table = PrefixTable::new();
    set_guild_prefix(&mut table, 1, "a".to_string());
    table.upsert(row("abc", "b"));
    set_guild_prefix(&mut table, 2, "c".to_string());
    assert_eq!(get_all_prefixes(&table), Err(StoreError::MalformedRow));
    assert!(matches!(Prefixes::load(&table), Err(StoreError::MalformedRow)));
    assert_eq!(
        prefixes_from_rows(&vec![row("18446744073709551616", "x")]),
        Err(StoreError::MalformedRow)
    );
    assert_eq!(prefixes_from_rows(&vec![row("", "x")]), Err(StoreError::MalformedRow));
    assert_eq!(prefixes_from_rows(&vec![row("-1", "x")]), Err(StoreError::MalformedRow));
}

#[test]
fn later_row_counts_where_two_keys_read_as_one_number() {
    let rows = vec![row("5", "first"), row("+5", "second"), row("005", "third")];
    let loaded = prefixes_from_rows(&rows).unwrap();
    assert_eq!(loaded.len(), 1);
    assert_eq!(loaded.get(&5), Some(&"third".to_string()));
    let mut table = PrefixTable::new();
    table.upsert(row("+5", "plus"));
    set_guild_prefix(&mut table, 5, "plain".to_string());
    assert_eq!(table.get_all().len(), 2);
    assert_eq!(get_all_prefixes(&table).unwrap().get(&5), Some(&"plain".to_string()));
}

#[test]
fn empty_table_loads_to_an_empty_cache() {
    let loaded = get_all_prefixes(&PrefixTable::new()).unwrap();
    assert!(loaded.is_empty());
    assert!(prefixes_from_rows(&Vec::new()).unwrap().is_empty());
}

#[test]
fn setprefix_without_argument_is_refused_first() {
    let mut prefixes = Prefixes::new();
    let mut table = PrefixTable::new();
    assert_eq!(
        setprefix(&mut prefixes, &mut table, None, Some(1)),
        Err(SetPrefixError::MissingArgument)
    );
    assert_eq!(
        setprefix(&mut prefixes, &mut table, None, None),
        Err(SetPrefixError::MissingArgument)
    );
    assert_eq!(prefixes.lookup(1), None);
    assert!(table.get_all().is_empty());
}

#[test]
fn setprefix_outside_of_a_guild_is_refused() {
    let mut prefixes = Prefixes::new();
    let mut table = PrefixTable::new();
    assert_eq!(
        setprefix(&mut prefixes, &mut table, Some("!".to_string()), None),
        Err(SetPrefixError::NotInGuild)
    );
    assert!(table.get_all().is_empty());
}

#[test]
fn setprefix_begin_gives_the_guild_and_the_row() {
    let (guild_id, row) = setprefix_begin(Some("%".to_string()), Some(42)).ok().unwrap();
    assert_eq!(guild_id, 42);
    assert_eq!(row.guild_id, "42");
    assert_eq!(row.prefix, "%");
}

#[test]
fn setprefix_begin_checks_the_argument_before_the_guild() {
    assert_eq!(setprefix_begin(None, Some(1)).err(), Some(SetPrefixError::MissingArgument));
    assert_eq!(setprefix_begin(None, None).err(), Some(SetPrefixError::MissingArgument));
    assert_eq!(
        setprefix_begin(Some("!".to_string()), None).err(),
        Some(SetPrefixError::NotInGuild)
    );
}

#[test]
fn setprefix_finish_writes_the_cache_once_the_store_has_written() {
    let mut prefixes = Prefixes::new();
    prefixes.update(7, "old".to_string());
    assert_eq!(
        setprefix_finish(&mut prefixes, 7, "new".to_string(), Ok(1)),
        Ok("Set prefix!".to_string())
    );
    assert_eq!(prefixes.lookup(7), Some("new".to_string()));
    assert_eq!(
        setprefix_finish(&mut prefixes, 8, "?".to_string(), Ok(0)),
        Ok("Set prefix!".to_string())
    );
    assert_eq!(prefixes.lookup(8), Some("?".to_string()));
    assert_eq!(prefixes.len(), 2);
}

#[test]
fn setprefix_finish_hands_on_the_failure_of_the_store() {
    let mut prefixes = Prefixes::new();
    let r = setprefix_finish(&mut prefixes, 1, "!".to_string(), Err(unreachable_store()));
    assert_eq!(r, Err(SetPrefixError::Store(unreachable_store())));
    assert_eq!(r.err().unwrap().message(), "unable to open database file");
}

#[test]
fn read_of_the_store_falls_back_to_the_default() {
    assert_eq!(prefix_or_default(Ok("!".to_string())), "!");
    assert_eq!(prefix_or_default(Ok("".to_string())), "");
    assert_eq!(prefix_or_default(Err(StoreError::NotFound)), ".");
    assert_eq!(prefix_or_default(Err(StoreError::Unreachable)), ".");
    assert_eq!(prefix_or_default(Err(StoreError::MalformedRow)), ".");
}

#[test]
fn failed_load_leaves_every_guild_with_the_default() {
    let mut table = PrefixTable::new();
    set_guild_prefix(&mut table, 1, "a".to_string());
    table.upsert(row("one", "b"));
    let prefixes = Prefixes::warm(get_all_prefixes(&table));
    assert_eq!(prefixes.lookup(1), None);
    assert_eq!(prefixes.resolve(Some(1)), ".");
    let prefixes = Prefixes::warm(Err(StoreError::Unreachable));
    assert_eq!(prefixes.resolve(Some(1)), ".");
}

#[test]
fn successful_load_fills_the_cache() {
    let mut table = PrefixTable::new();
    set_guild_prefix(&mut table, 1, "a".to_string());
    set_guild_prefix(&mut table, 2, "b".to_string());
    let prefixes = Prefixes::warm(get_all_prefixes(&table));
    assert_eq!(prefixes.lookup(1), Some("a".to_string()));
    assert_eq!(prefixes.resolve(Some(2)), "b");
    assert_eq!(prefixes.resolve(Some(3)), ".");
    let mut map = std::collections::HashMap::new();
    map.insert(9u64, "z".to_string());
    assert_eq!(Prefixes::from_map(map).lookup(9), Some("z".to_string()));
}

#[test]
fn store_failure_leaves_the_cache_as_it_was() {
    let mut prefixes = Prefixes::new();
    let mut table = PrefixTable::new();
    assert!(setprefix(&mut prefixes, &mut table, Some("old".to_string()), Some(1)).is_ok());
    let (guild_id, row) = setprefix_begin(Some("!".to_string()), Some(1)).ok().unwrap();
    assert_eq!(row.guild_id, "1");
    assert_eq!(
        setprefix_finish(&mut prefixes, guild_id, row.prefix, Err(unreachable_store())),
        Err(SetPrefixError::Store(unreachable_store()))
    );
    assert_eq!(prefixes.lookup(1), Some("old".to_string()));
    assert_eq!(get_guild_prefix(&table, 1), Ok("old".to_string()));
    let (guild_id, row) = setprefix_begin(Some("?".to_string()), Some(2)).ok().unwrap();
    assert!(setprefix_finish(&mut prefixes, guild_id, row.prefix, Err(unreachable_store()))
        .is_err());
    assert_eq!(prefixes.lookup(2), None);
    assert_eq!(prefixes.resolve(Some(2)), ".");
    assert_eq!(get_guild_prefix(&table, 2), Err(StoreError::NotFound));
    let loaded = get_all_prefixes(&table).unwrap();
    assert_eq!(loaded.len(), prefixes.len());
    for (g, p) in &loaded {
        assert_eq!(prefixes.lookup(*g).as_ref(), Some(p));
    }
}
