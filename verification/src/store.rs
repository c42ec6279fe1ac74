//! The prefix store: the table `Prefix(guild_id TEXT PRIMARY KEY, prefix TEXT)`
//! and the three statements that are run on it.
//!
//! [`PrefixTable`] holds the rows of that table in memory and does to them
//! what the statements do, so that the rules of the store (one prefix per
//! key, a later write replaces an earlier one, a key that is no number makes
//! the whole load fail) can be stated and proved apart from the database
//! connection.

use crate::numeral::{decimal, decimal_string, parse_u64, parse_u64_spec};
use std::collections::HashMap;
use vstd::prelude::*;
use vstd::string::StringExecFns;

verus! {

/// What a row of the table is to the contracts: the text of its key, then
/// its prefix.
pub type RowView = (Seq<char>, Seq<char>);

/// One row of the table: the guild's identifier as text, and its prefix.
pub struct PrefixRow {
    pub guild_id: String,
    pub prefix: String,
}

impl View for PrefixRow {
    type V = RowView;

    open spec fn view(&self) -> RowView {
        (self.guild_id@, self.prefix@)
    }
}

impl Clone for PrefixRow {
    fn clone(&self) -> (r: PrefixRow)
        ensures
            r == *self,
    {
        PrefixRow { guild_id: self.guild_id.clone(), prefix: self.prefix.clone() }
    }
}

/// Why the store could not answer.
#[derive(Clone, Copy, Debug, PartialEq, Eq, Structural)]
pub enum StoreError {
    /// The database could not be reached or refused the statement.
    Unreachable,
    /// A row's key is not the decimal numeral of a 64-bit number.
    MalformedRow,
    /// The table holds no row for the guild.
    NotFound,
}

/// A failure of the store: its kind, and what the database said of it.
#[derive(Clone, Debug, PartialEq, Eq)]
pub struct StoreFailure {
    pub kind: StoreError,
    pub text: String,
}

/// Whether no two rows have the same key.
pub open spec fn distinct_keys(rows: Seq<RowView>) -> bool {
    forall|i: int, j: int|
        0 <= i < rows.len() && 0 <= j < rows.len() && i != j ==> (#[trigger] rows[i]).0 != (
        #[trigger] rows[j]).0
}

/// Whether some row has the key `key`.
pub open spec fn has_key(rows: Seq<RowView>, key: Seq<char>) -> bool {
    exists|i: int| 0 <= i < rows.len() && (#[trigger] rows[i]).0 == key
}

/// The rows without those whose key is `key`, in their order.
pub open spec fn without_key(rows: Seq<RowView>, key: Seq<char>) -> Seq<RowView>
    decreases rows.len(),
{
    if rows.len() == 0 {
        rows
    } else if rows.last().0 == key {
        without_key(rows.drop_last(), key)
    } else {
        without_key(rows.drop_last(), key).push(rows.last())
    }
}

/// The rows after `INSERT OR REPLACE` of `(key, prefix)`: a row with that
/// key leaves, and the new row comes last.
pub open spec fn upserted(rows: Seq<RowView>, key: Seq<char>, prefix: Seq<char>) -> Seq<RowView> {
    without_key(rows, key).push((key, prefix))
}

/// The prefix of each key, where a later row counts over an earlier one.
pub open spec fn table_of(rows: Seq<RowView>) -> Map<Seq<char>, Seq<char>>
    decreases rows.len(),
{
    if rows.len() == 0 {
        Map::empty()
    } else {
        table_of(rows.drop_last()).insert(rows.last().0, rows.last().1)
    }
}

/// The view of each row, in order.
pub open spec fn row_views(rows: Seq<PrefixRow>) -> Seq<RowView> {
    Seq::new(rows.len(), |i: int| rows[i]@)
}

/// What a cache holds, as the contracts see it: each guild's prefix by its
/// characters.
pub open spec fn prefix_views(m: Map<u64, String>) -> Map<u64, Seq<char>> {
    Map::new(|g: u64| m.contains_key(g), |g: u64| m[g]@)
}

/// What a load of the rows gives: each key read as a number, a later row
/// counting over an earlier one with the same number; one key that is no
/// number fails the whole load.
pub open spec fn prefixes_of_rows(rows: Seq<RowView>) -> Result<Map<u64, Seq<char>>, StoreError>
    decreases rows.len(),
{
    if rows.len() == 0 {
        Ok(Map::empty())
    } else {
        match prefixes_of_rows(rows.drop_last()) {
            Err(e) => Err(e),
            Ok(m) => match parse_u64_spec(rows.last().0) {
                None => Err(StoreError::MalformedRow),
                Some(g) => Ok(m.insert(g, rows.last().1)),
            },
        }
    }
}

/// A load fails in one way only, and a failure among the first rows fails
/// the whole.
pub proof fn lemma_prefixes_of_rows_err(rows: Seq<RowView>, j: int)
    requires
        0 <= j <= rows.len(),
    ensures
        prefixes_of_rows(rows) is Err ==> prefixes_of_rows(rows) == Err::<
            Map<u64, Seq<char>>,
            StoreError,
        >(StoreError::MalformedRow),
        prefixes_of_rows(rows.take(j)) is Err ==> prefixes_of_rows(rows) is Err,
    decreases rows.len(),
{
    if rows.len() > 0 {
        let init = rows.drop_last();
        if j == rows.len() {
            assert(rows.take(j) =~= rows);
            lemma_prefixes_of_rows_err(init, 0);
        } else {
            lemma_prefixes_of_rows_err(init, j);
            assert(init.take(j) =~= rows.take(j));
        }
    } else {
        assert(rows.take(j) =~= rows);
    }
}

/// A key is in the table exactly when some row has it.
pub proof fn lemma_table_of_has_key(rows: Seq<RowView>, key: Seq<char>)
    ensures
        table_of(rows).contains_key(key) <==> has_key(rows, key),
    decreases rows.len(),
{
    if rows.len() > 0 {
        let init = rows.drop_last();
        lemma_table_of_has_key(init, key);
        if has_key(init, key) {
            let i = choose|i: int| 0 <= i < init.len() && (#[trigger] init[i]).0 == key;
            assert(rows[i].0 == key);
        }
        if has_key(rows, key) {
            let i = choose|i: int| 0 <= i < rows.len() && (#[trigger] rows[i]).0 == key;
            if i < init.len() {
                assert(init[i].0 == key);
            }
        }
    }
}

/// Where keys are distinct, the table gives each row's own prefix.
pub proof fn lemma_table_of_row(rows: Seq<RowView>, i: int)
    requires
        distinct_keys(rows),
        0 <= i < rows.len(),
    ensures
        table_of(rows).contains_key(rows[i].0),
        table_of(rows)[rows[i].0] == rows[i].1,
    decreases rows.len(),
{
    let init = rows.drop_last();
    if i < init.len() {
        assert(distinct_keys(init)) by {
            assert forall|a: int, b: int|
                0 <= a < init.len() && 0 <= b < init.len() && a != b implies (#[trigger] init[a]).0
                != (#[trigger] init[b]).0 by {
                assert(init[a] == rows[a] && init[b] == rows[b]);
            }
        }
        lemma_table_of_row(init, i);
        assert(init[i] == rows[i]);
        assert(rows[i].0 != rows[rows.len() - 1].0);
    }
}

/// Taking out a key that no row has changes nothing.
pub proof fn lemma_without_key_absent(rows: Seq<RowView>, key: Seq<char>)
    requires
        !has_key(rows, key),
    ensures
        without_key(rows, key) == rows,
    decreases rows.len(),
{
    if rows.len() > 0 {
        let init = rows.drop_last();
        assert(rows[rows.len() - 1].0 != key);
        assert(!has_key(init, key)) by {
            if has_key(init, key) {
                let i = choose|i: int| 0 <= i < init.len() && (#[trigger] init[i]).0 == key;
                assert(rows[i].0 == key);
            }
        }
        lemma_without_key_absent(init, key);
        assert(init.push(rows.last()) =~= rows);
    }
}

/// Where keys are distinct, taking out the key of row `i` removes that row
/// and no other.
pub proof fn lemma_without_key_at(rows: Seq<RowView>, i: int)
    requires
        distinct_keys(rows),
        0 <= i < rows.len(),
    ensures
        without_key(rows, rows[i].0) == rows.remove(i),
    decreases rows.len(),
{
    let key = rows[i].0;
    let init = rows.drop_last();
    let last = rows.len() - 1;
    if i == last {
        assert(!has_key(init, key)) by {
            if has_key(init, key) {
                let j = choose|j: int| 0 <= j < init.len() && (#[trigger] init[j]).0 == key;
                assert(rows[j].0 == key);
            }
        }
        lemma_without_key_absent(init, key);
        assert(rows.remove(i) =~= init);
    } else {
        assert(rows[last].0 != rows[i].0);
        assert(distinct_keys(init)) by {
            assert forall|a: int, b: int|
                0 <= a < init.len() && 0 <= b < init.len() && a != b implies (#[trigger] init[a]).0
                != (#[trigger] init[b]).0 by {
                assert(init[a] == rows[a] && init[b] == rows[b]);
            }
        }
        assert(init[i] == rows[i]);
        lemma_without_key_at(init, i);
        assert(init.remove(i).push(rows.last()) =~= rows.remove(i));
    }
}

/// Taking a key out of the rows takes it out of the table.
pub proof fn lemma_table_of_without_key(rows: Seq<RowView>, key: Seq<char>)
    ensures
        table_of(without_key(rows, key)) == table_of(rows).remove(key),
    decreases rows.len(),
{
    if rows.len() == 0 {
        assert(table_of(rows).remove(key) =~= table_of(rows));
    } else {
        let init = rows.drop_last();
        let last = rows.last();
        lemma_table_of_without_key(init, key);
        if last.0 == key {
            assert(table_of(init).insert(key, last.1).remove(key) =~= table_of(init).remove(key));
        } else {
            let kept = without_key(init, key);
            assert(kept.push(last).drop_last() =~= kept);
            assert(table_of(init).remove(key).insert(last.0, last.1) =~= table_of(init).insert(
                last.0,
                last.1,
            ).remove(key));
        }
    }
}

/// `INSERT OR REPLACE` sets the key's prefix and leaves every other key's.
pub proof fn lemma_table_of_upserted(rows: Seq<RowView>, key: Seq<char>, prefix: Seq<char>)
    ensures
        table_of(upserted(rows, key, prefix)) == table_of(rows).insert(key, prefix),
{
    let kept = without_key(rows, key);
    lemma_table_of_without_key(rows, key);
    assert(kept.push((key, prefix)).drop_last() =~= kept);
    assert(table_of(rows).remove(key).insert(key, prefix) =~= table_of(rows).insert(key, prefix));
}

/// What is left after a key was taken out: rows of the table, in their
/// order, none with that key.
pub proof fn lemma_without_key_rows(rows: Seq<RowView>, key: Seq<char>)
    ensures
        !has_key(without_key(rows, key), key),
        forall|i: int|
            0 <= i < without_key(rows, key).len() ==> has_key(
                rows,
                (#[trigger] without_key(rows, key)[i]).0,
            ),
        distinct_keys(rows) ==> distinct_keys(without_key(rows, key)),
    decreases rows.len(),
{
    let kept = without_key(rows, key);
    if rows.len() > 0 {
        let init = rows.drop_last();
        let last = rows.last();
        let inner = without_key(init, key);
        lemma_without_key_rows(init, key);
        assert forall|i: int| 0 <= i < kept.len() implies has_key(rows, (#[trigger] kept[i]).0) by {
            if i < inner.len() {
                assert(kept[i] == inner[i]);
                let j = choose|j: int| 0 <= j < init.len() && (#[trigger] init[j]).0 == inner[i].0;
                assert(rows[j].0 == kept[i].0);
            } else {
                assert(rows[rows.len() - 1].0 == kept[i].0);
            }
        }
        if has_key(kept, key) {
            let i = choose|i: int| 0 <= i < kept.len() && (#[trigger] kept[i]).0 == key;
            if i < inner.len() {
                assert(inner[i].0 == key);
            }
        }
        if distinct_keys(rows) {
            assert(distinct_keys(init)) by {
                assert forall|a: int, b: int|
                    0 <= a < init.len() && 0 <= b < init.len() && a != b implies (
                #[trigger] init[a]).0 != (#[trigger] init[b]).0 by {
                    assert(init[a] == rows[a] && init[b] == rows[b]);
                }
            }
            assert forall|a: int, b: int|
                0 <= a < kept.len() && 0 <= b < kept.len() && a != b implies (#[trigger] kept[a]).0
                != (#[trigger] kept[b]).0 by {
                if a < inner.len() && b < inner.len() {
                    assert(kept[a] == inner[a] && kept[b] == inner[b]);
                } else {
                    let low = if a < b { a } else { b };
                    assert(kept[low] == inner[low]);
                    let j = choose|j: int|
                        0 <= j < init.len() && (#[trigger] init[j]).0 == inner[low].0;
                    assert(rows[j].0 == inner[low].0);
                    assert(rows[j].0 != rows[rows.len() - 1].0);
                }
            }
        }
    }
}

/// `INSERT OR REPLACE` keeps the keys distinct.
pub proof fn lemma_upserted_distinct(rows: Seq<RowView>, key: Seq<char>, prefix: Seq<char>)
    requires
        distinct_keys(rows),
    ensures
        distinct_keys(upserted(rows, key, prefix)),
{
    let kept = without_key(rows, key);
    let after = upserted(rows, key, prefix);
    lemma_without_key_rows(rows, key);
    assert forall|a: int, b: int|
        0 <= a < after.len() && 0 <= b < after.len() && a != b implies (#[trigger] after[a]).0 != (
    #[trigger] after[b]).0 by {
        if a < kept.len() {
            assert(after[a] == kept[a]);
        }
        if b < kept.len() {
            assert(after[b] == kept[b]);
        }
    }
}

/// The rows of the table `Prefix`, in the order in which a scan gives them.
pub struct PrefixTable {
    rows: Vec<PrefixRow>,
}

impl PrefixTable {
    /// The rows as the contracts see them.
    pub closed spec fn rows(&self) -> Seq<RowView> {
        row_views(self.rows@)
    }

    /// The primary key: no two rows share a key.
    #[verifier::type_invariant]
    spec fn primary_key(&self) -> bool {
        distinct_keys(row_views(self.rows@))
    }

    /// The prefix stored under each key.
    pub open spec fn view(&self) -> Map<Seq<char>, Seq<char>> {
        table_of(self.rows())
    }

    /// The table before anything was written.
    pub fn new() -> (t: PrefixTable)
        ensures
            t.rows() == Seq::<RowView>::empty(),
            t@ == Map::<Seq<char>, Seq<char>>::empty(),
    {
        PrefixTable { rows: Vec::new() }
    }

    /// The index of the row with the key `key`, if there is one.
    fn position(&self, key: &String) -> (r: Option<usize>)
        ensures
            match r {
                Some(i) => i < self.rows().len() && self.rows()[i as int].0 == key@,
                None => !has_key(self.rows(), key@),
            },
    {
        let mut i: usize = 0;
        while i < self.rows.len()
            invariant
                i <= self.rows.len(),
                forall|j: int| 0 <= j < i ==> (#[trigger] self.rows()[j]).0 != key@,
            decreases self.rows.len() - i,
        {
            if self.rows[i].guild_id == *key {
                return Some(i);
            }
            i += 1;
        }
        None
    }

    /// `SELECT * FROM Prefix WHERE guild_id == ?`: the prefix stored under
    /// `key`, if the table has a row for it.
    pub fn get(&self, key: &String) -> (r: Option<String>)
        ensures
            match r {
                Some(prefix) => self@.contains_key(key@) && prefix@ == self@[key@],
                None => !self@.contains_key(key@),
            },
    {
        proof {
            use_type_invariant(self);
            lemma_table_of_has_key(self.rows(), key@);
        }
        match self.position(key) {
            Some(i) => {
                proof {
                    lemma_table_of_row(self.rows(), i as int);
                }
                Some(self.rows[i].prefix.clone())
            },
            None => None,
        }
    }

    /// `INSERT OR REPLACE INTO Prefix (guild_id, prefix) values (?, ?)`: the
    /// row that had the key, if any, leaves, and `row` becomes the last row.
    pub fn upsert(&mut self, row: PrefixRow)
        ensures
            final(self).rows() == upserted(old(self).rows(), row@.0, row@.1),
            final(self)@ == old(self)@.insert(row@.0, row@.1),
    {
        proof {
            use_type_invariant(&*self);
            lemma_table_of_upserted(self.rows(), row@.0, row@.1);
        }
        let ghost before = self.rows();
        let found = self.position(&row.guild_id);
        let mut rows: Vec<PrefixRow> = Vec::new();
        std::mem::swap(&mut rows, &mut self.rows);
        assert(row_views(rows@) == before);
        match found {
            Some(i) => {
                proof {
                    lemma_without_key_at(before, i as int);
                }
                rows.remove(i);
                assert(row_views(rows@) =~= before.remove(i as int));
            },
            None => {
                proof {
                    lemma_without_key_absent(before, row@.0);
                }
            },
        }
        let ghost kept = row_views(rows@);
        assert(kept == without_key(before, row@.0));
        rows.push(row);
        assert(row_views(rows@) =~= kept.push(row@));
        proof {
            lemma_upserted_distinct(before, row@.0, row@.1);
        }
        self.rows = rows;
    }

    /// `SELECT * FROM Prefix`: a copy of every row, in the table's order.
    /// No two of them have the same key.
    pub fn get_all(&self) -> (rows: Vec<PrefixRow>)
        ensures
            row_views(rows@) == self.rows(),
            distinct_keys(self.rows()),
    {
        proof {
            use_type_invariant(self);
        }
        let mut rows: Vec<PrefixRow> = Vec::new();
        let mut i: usize = 0;
        while i < self.rows.len()
            invariant
                i <= self.rows.len(),
                row_views(rows@) == self.rows().take(i as int),
            decreases self.rows.len() - i,
        {
            let ghost before = row_views(rows@);
            let row = self.rows[i].clone();
            rows.push(row);
            assert(row_views(rows@) =~= before.push(row@));
            assert(row_views(rows@) =~= self.rows().take(i + 1));
            i += 1;
        }
        assert(self.rows().take(i as int) =~= self.rows());
        rows
    }
}

/// Where the database file is to be, as far as the caller found out.
#[derive(Clone, Debug, PartialEq, Eq)]
pub enum DbPath {
    /// The system names no directory for the bot's data.
    NoProjectDir,
    /// The path of the file is not valid UTF-8.
    NotUtf8,
    /// The path of the file.
    Path(String),
}

/// Why the database could not be set up.
#[derive(Clone, Debug, PartialEq, Eq)]
pub enum SetupError {
    NoProjectDir,
    NotUtf8,
    /// The table could not be created; the text is the database's.
    CreateFailed(String),
}

/// What the error reads as.
pub open spec fn setup_error_text(e: SetupError) -> Seq<char> {
    match e {
        SetupError::NoProjectDir => "Could not open project directory when creating database"@,
        SetupError::NotUtf8 => "Unable to convert database path to UTF-8 string."@,
        SetupError::CreateFailed(why) => "Unable to create database: "@ + why@,
    }
}

impl SetupError {
    /// What the error reads as.
    pub fn message(&self) -> (m: String)
        ensures
            m@ == setup_error_text(*self),
    {
        match self {
            SetupError::NoProjectDir => String::from_str(
                "Could not open project directory when creating database",
            ),
            SetupError::NotUtf8 => String::from_str(
                "Unable to convert database path to UTF-8 string.",
            ),
            SetupError::CreateFailed(why) => {
                let mut m = String::from_str("Unable to create database: ");
                m.append(why.as_str());
                m
            },
        }
    }
}

/// The statement that makes the table, unless it is there.
pub open spec fn create_table_text() -> Seq<char> {
    "CREATE TABLE IF NOT EXISTS Prefix (guild_id TEXT PRIMARY KEY, prefix TEXT);"@
}

/// The statement that reads one guild's row; its parameter is the key.
pub open spec fn select_one_text() -> Seq<char> {
    "SELECT * FROM Prefix WHERE guild_id == ?;"@
}

/// The statement that reads every row.
pub open spec fn select_all_text() -> Seq<char> {
    "SELECT * FROM Prefix"@
}

/// The statement that writes a row; its parameters are key and prefix.
pub open spec fn upsert_text() -> Seq<char> {
    "INSERT OR REPLACE INTO Prefix (guild_id, prefix) values (?, ?)"@
}

/// The statement that makes the table, unless it is there.
pub fn create_table_statement() -> (sql: &'static str)
    ensures
        sql@ == create_table_text(),
{
    "CREATE TABLE IF NOT EXISTS Prefix (guild_id TEXT PRIMARY KEY, prefix TEXT);"
}

/// The statement that reads one guild's row.
pub fn select_one_statement() -> (sql: &'static str)
    ensures
        sql@ == select_one_text(),
{
    "SELECT * FROM Prefix WHERE guild_id == ?;"
}

/// The statement that reads every row.
pub fn select_all_statement() -> (sql: &'static str)
    ensures
        sql@ == select_all_text(),
{
    "SELECT * FROM Prefix"
}

/// The statement that writes a row.
pub fn upsert_statement() -> (sql: &'static str)
    ensures
        sql@ == upsert_text(),
{
    "INSERT OR REPLACE INTO Prefix (guild_id, prefix) values (?, ?)"
}

/// The address that the pool of connections is opened with: `sqlite://`
/// and the path of the file; or why there is none.
pub open spec fn database_url_for(path: DbPath) -> Result<Seq<char>, SetupError> {
    match path {
        DbPath::NoProjectDir => Err(SetupError::NoProjectDir),
        DbPath::NotUtf8 => Err(SetupError::NotUtf8),
        DbPath::Path(p) => Ok("sqlite://"@ + p@),
    }
}

/// First half of the set-up: the address of the database for the path
/// that the caller found, or the error for the path that it did not
/// find. The caller opens the pool and runs [`create_table_statement`].
pub fn create_db_and_pool(path: DbPath) -> (r: Result<String, SetupError>)
    ensures
        match r {
            Ok(url) => database_url_for(path) == Ok::<Seq<char>, SetupError>(url@),
            Err(e) => database_url_for(path) is Err && e == database_url_for(path)->Err_0,
        },
{
    match path {
        DbPath::NoProjectDir => Err(SetupError::NoProjectDir),
        DbPath::NotUtf8 => Err(SetupError::NotUtf8),
        DbPath::Path(p) => {
            let mut url = String::from_str("sqlite://");
            url.append(p.as_str());
            Ok(url)
        },
    }
}

/// Second half of the set-up, once the statement was run: done, or the
/// error with the database's words.
pub fn table_created(outcome: Result<(), String>) -> (r: Result<(), SetupError>)
    ensures
        match outcome {
            Ok(_) => r is Ok,
            Err(why) => r matches Err(SetupError::CreateFailed(text)) && text == why,
        },
{
    match outcome {
        Ok(_) => Ok(()),
        Err(why) => Err(SetupError::CreateFailed(why)),
    }
}

/// The key under which a guild's row is stored: the decimal numeral of its
/// identifier.
pub fn guild_key(guild_id: u64) -> (key: String)
    ensures
        key@ == decimal(guild_id as nat),
{
    decimal_string(guild_id)
}

/// Reads the rows of a scan into a map from guild to prefix.
pub fn prefixes_from_rows(rows: &Vec<PrefixRow>) -> (r: Result<HashMap<u64, String>, StoreError>)
    ensures
        match r {
            Ok(m) => prefixes_of_rows(row_views(rows@)) == Ok::<Map<u64, Seq<char>>, StoreError>(
                prefix_views(m@),
            ),
            Err(e) => prefixes_of_rows(row_views(rows@)) == Err::<Map<u64, Seq<char>>, StoreError>(
                e,
            ),
        },
{
    broadcast use vstd::std_specs::hash::group_hash_axioms;

    let ghost all = row_views(rows@);
    let mut prefixes: HashMap<u64, String> = HashMap::new();
    assert(prefix_views(prefixes@) =~= Map::<u64, Seq<char>>::empty());
    let mut i: usize = 0;
    while i < rows.len()
        invariant
            i <= rows.len(),
            all == row_views(rows@),
            prefixes_of_rows(all.take(i as int)) == Ok::<Map<u64, Seq<char>>, StoreError>(
                prefix_views(prefixes@),
            ),
        decreases rows.len() - i,
    {
        let ghost seen = all.take(i as int);
        let ghost next = all.take(i + 1);
        assert(next.drop_last() =~= seen);
        assert(next.last() == rows[i as int]@);
        match parse_u64(rows[i].guild_id.as_str()) {
            None => {
                proof {
                    lemma_prefixes_of_rows_err(all, i + 1);
                }
                return Err(StoreError::MalformedRow);
            },
            Some(guild_id) => {
                let ghost before = prefixes@;
                let prefix = rows[i].prefix.clone();
                prefixes.insert(guild_id, prefix);
                assert(prefix_views(prefixes@) =~= prefix_views(before).insert(
                    guild_id,
                    rows[i as int].prefix@,
                ));
            },
        }
        i += 1;
    }
    assert(all.take(i as int) =~= all);
    Ok(prefixes)
}

/// The prefix stored for a guild, or `NotFound` where the table has no row
/// under the guild's key.
pub fn get_guild_prefix(table: &PrefixTable, guild_id: u64) -> (r: Result<String, StoreError>)
    ensures
        match r {
            Ok(prefix) => {
                &&& table@.contains_key(decimal(guild_id as nat))
                &&& prefix@ == table@[decimal(guild_id as nat)]
            },
            Err(e) => e == StoreError::NotFound && !table@.contains_key(decimal(guild_id as nat)),
        },
{
    let key = guild_key(guild_id);
    match table.get(&key) {
        Some(prefix) => Ok(prefix),
        None => Err(StoreError::NotFound),
    }
}

/// Every guild's prefix as the table holds it, or `MalformedRow` where some
/// row's key is not the numeral of a 64-bit number.
pub fn get_all_prefixes(table: &PrefixTable) -> (r: Result<HashMap<u64, String>, StoreError>)
    ensures
        match r {
            Ok(m) => prefixes_of_rows(table.rows()) == Ok::<Map<u64, Seq<char>>, StoreError>(
                prefix_views(m@),
            ),
            Err(e) => prefixes_of_rows(table.rows()) == Err::<Map<u64, Seq<char>>, StoreError>(e),
        },
{
    let rows = table.get_all();
    prefixes_from_rows(&rows)
}

/// Stores `prefix` for the guild, in place of what was stored for it, and
/// returns the number of rows written, which is 1.
pub fn set_guild_prefix(table: &mut PrefixTable, guild_id: u64, prefix: String) -> (written: u64)
    ensures
        written == 1,
        final(table).rows() == upserted(old(table).rows(), decimal(guild_id as nat), prefix@),
        final(table)@ == old(table)@.insert(decimal(guild_id as nat), prefix@),
{
    let row = PrefixRow { guild_id: guild_key(guild_id), prefix };
    table.upsert(row);
    1
}

} // verus!
