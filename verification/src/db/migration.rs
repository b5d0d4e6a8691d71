//! The decisions of the schema migrations: whether removing a column needs
//! the table to be rebuilt, which of the indexes `PRAGMA index_list`
//! reports are inline unique constraints and which were created, whether
//! a column is unique, and which column is the table's autoincrement key.

use vstd::prelude::*;
use vstd::string::*;

use crate::db::rebuild::{
    any_matches, any_name_matches, info_specs, no_such_column_message, text_groups, texts, IndexState,
    IndexStateSpec, index_specs,
};
use crate::protocol::error::DbError;
use crate::protocol::payload::{TableColumnInfo, TableColumnSpec};
use crate::text::{contains, eq_ignore_ascii_case, names_match, occurs_at, str_eq};

verus! {

/// The first column called `name` exactly.
pub open spec fn first_named(cols: Seq<TableColumnSpec>, name: Seq<char>) -> Option<TableColumnSpec>
    decreases cols.len(),
{
    if cols.len() == 0 {
        None
    } else if cols[0].name == name {
        Some(cols[0])
    } else {
        first_named(cols.drop_first(), name)
    }
}

fn find_column(cols: &Vec<TableColumnInfo>, name: &str) -> (r: Option<usize>)
    ensures
        match r {
            Some(i) => i < cols@.len() && first_named(info_specs(cols@), name@) == Some(cols@[i as int]@),
            None => first_named(info_specs(cols@), name@) is None,
        },
{
    let ghost specs = info_specs(cols@);
    assert(specs.skip(0) =~= specs);
    let mut i: usize = 0;
    while i < cols.len()
        invariant
            i <= cols@.len(),
            specs == info_specs(cols@),
            first_named(specs, name@) == first_named(specs.skip(i as int), name@),
        decreases cols@.len() - i,
    {
        assert(specs.skip(i as int)[0] == cols@[i as int]@);
        if str_eq(cols[i].name.as_str(), name) {
            return Some(i);
        }
        assert(specs.skip(i as int).drop_first() =~= specs.skip(i as int + 1));
        i = i + 1;
    }
    assert(specs.skip(i as int).len() == 0);
    None
}

/// How a column is removed.
#[derive(Debug, Clone, Copy, PartialEq, Eq, Structural)]
pub enum ColumnRemoval {
    /// `ALTER TABLE ... DROP COLUMN` does it.
    DropInPlace,
    /// The table has to be rebuilt without the column.
    RebuildTable,
}

/// `make_col_disappear`'s decision, given the table's columns and whether
/// the column is indexed or a foreign key: refused for an empty table name
/// or a column the table does not have; otherwise the table is rebuilt
/// where the column is part of the primary key, indexed or a foreign key,
/// and the column dropped in place where it is none of these.
pub fn make_col_disappear(
    table_name: &str,
    column_name: &str,
    columns: &Vec<TableColumnInfo>,
    is_indexed: bool,
    is_foreign_key: bool,
) -> (r: Result<ColumnRemoval, DbError>)
    ensures
        table_name@.len() == 0 ==> (r matches Err(e) && e.is_illegal_input("table_name is empty"@)),
        table_name@.len() != 0 ==> match first_named(info_specs(columns@), column_name@) {
            None => r matches Err(e) && e.is_illegal_input(no_such_column_message(column_name@, table_name@)),
            Some(c) => r == Ok::<ColumnRemoval, DbError>(
                if c.primary_key || is_indexed || is_foreign_key {
                    ColumnRemoval::RebuildTable
                } else {
                    ColumnRemoval::DropInPlace
                },
            ),
        },
{
    if table_name.is_empty() {
        return Err(crate::db::rebuild::empty_table_name_error());
    }
    match find_column(columns, column_name) {
        None => {
            let mut m = String::from_str("column '");
            m.append(column_name);
            m.append("' does not exist in table '");
            m.append(table_name);
            m.append("'");
            Err(DbError::IllegalInput(m))
        },
        Some(i) => {
            if columns[i].primary_key || is_indexed || is_foreign_key {
                Ok(ColumnRemoval::RebuildTable)
            } else {
                Ok(ColumnRemoval::DropInPlace)
            }
        },
    }
}

/// One line of `PRAGMA index_list`: the index name, its unique flag and its
/// origin (`c` created, `u` inline unique constraint, `pk` primary key).
#[derive(Debug, Clone, PartialEq)]
pub struct IndexListEntry {
    pub name: String,
    pub unique: i64,
    pub origin: String,
}

/// The index backs an inline `UNIQUE` constraint.
pub fn is_inline_unique(entry: &IndexListEntry) -> (r: bool)
    ensures
        r == (entry.unique != 0 && entry.origin@ == "u"@),
{
    entry.unique != 0 && str_eq(entry.origin.as_str(), "u")
}

/// The index was made by `CREATE INDEX`.
pub fn is_created_index(entry: &IndexListEntry) -> (r: bool)
    ensures
        r == (entry.origin@ == "c"@),
{
    str_eq(entry.origin.as_str(), "c")
}

/// A created index as it has to be made again, given its columns.
pub fn created_index_state(entry: &IndexListEntry, columns: Vec<String>) -> (r: IndexState)
    ensures
        r@ == (IndexStateSpec { name: entry.name@, columns: texts(columns@), is_unique: entry.unique != 0 }),
{
    IndexState { name: entry.name.clone(), columns, is_unique: entry.unique != 0 }
}

pub struct IndexListSpec {
    pub name: Seq<char>,
    pub unique: i64,
    pub origin: Seq<char>,
}

impl View for IndexListEntry {
    type V = IndexListSpec;

    open spec fn view(&self) -> IndexListSpec {
        IndexListSpec { name: self.name@, unique: self.unique, origin: self.origin@ }
    }
}

pub open spec fn entry_specs(v: Seq<IndexListEntry>) -> Seq<IndexListSpec> {
    v.map_values(|e: IndexListEntry| e@)
}

/// The entries made by `CREATE INDEX` (origin `c`), in order.
pub open spec fn created_specs(v: Seq<IndexListSpec>) -> Seq<IndexListSpec>
    decreases v.len(),
{
    if v.len() == 0 {
        seq![]
    } else if v.last().origin == "c"@ {
        created_specs(v.drop_last()).push(v.last())
    } else {
        created_specs(v.drop_last())
    }
}

/// The entries that back inline `UNIQUE` constraints (unique, origin `u`), in order.
pub open spec fn inline_unique_specs(v: Seq<IndexListSpec>) -> Seq<IndexListSpec>
    decreases v.len(),
{
    if v.len() == 0 {
        seq![]
    } else if v.last().unique != 0 && v.last().origin == "u"@ {
        inline_unique_specs(v.drop_last()).push(v.last())
    } else {
        inline_unique_specs(v.drop_last())
    }
}

fn copy_entry(e: &IndexListEntry) -> (r: IndexListEntry)
    ensures
        r@ == e@,
{
    IndexListEntry { name: e.name.clone(), unique: e.unique, origin: e.origin.clone() }
}

/// `get_state_of_indexed_for_entire_table`'s choice among the lines of
/// `PRAGMA index_list`: the indexes made by `CREATE INDEX`, in order; each
/// is then made again from its columns by [`created_index_state`].
pub fn created_entries(entries: &Vec<IndexListEntry>) -> (r: Vec<IndexListEntry>)
    ensures
        entry_specs(r@) == created_specs(entry_specs(entries@)),
{
    let ghost specs = entry_specs(entries@);
    let mut r: Vec<IndexListEntry> = Vec::new();
    let mut i: usize = 0;
    while i < entries.len()
        invariant
            i <= entries@.len(),
            specs == entry_specs(entries@),
            entry_specs(r@) == created_specs(specs.take(i as int)),
        decreases entries@.len() - i,
    {
        assert(specs.take(i as int + 1).drop_last() =~= specs.take(i as int));
        assert(specs.take(i as int + 1).last() == entries@[i as int]@);
        if is_created_index(&entries[i]) {
            r.push(copy_entry(&entries[i]));
        }
        assert(entry_specs(r@) =~= created_specs(specs.take(i as int + 1)));
        i = i + 1;
    }
    assert(specs.take(i as int) =~= specs);
    r
}

/// `unique_column_groups_in_table`'s choice among the lines of `PRAGMA
/// index_list`: the indexes that back inline `UNIQUE` constraints, in
/// order; each gives the group of its columns.
pub fn inline_unique_entries(entries: &Vec<IndexListEntry>) -> (r: Vec<IndexListEntry>)
    ensures
        entry_specs(r@) == inline_unique_specs(entry_specs(entries@)),
{
    let ghost specs = entry_specs(entries@);
    let mut r: Vec<IndexListEntry> = Vec::new();
    let mut i: usize = 0;
    while i < entries.len()
        invariant
            i <= entries@.len(),
            specs == entry_specs(entries@),
            entry_specs(r@) == inline_unique_specs(specs.take(i as int)),
        decreases entries@.len() - i,
    {
        assert(specs.take(i as int + 1).drop_last() =~= specs.take(i as int));
        assert(specs.take(i as int + 1).last() == entries@[i as int]@);
        if is_inline_unique(&entries[i]) {
            r.push(copy_entry(&entries[i]));
        }
        assert(entry_specs(r@) =~= inline_unique_specs(specs.take(i as int + 1)));
        i = i + 1;
    }
    assert(specs.take(i as int) =~= specs);
    r
}

/// All members of all groups, in order.
pub open spec fn flattened(groups: Seq<Seq<Seq<char>>>) -> Seq<Seq<char>>
    decreases groups.len(),
{
    if groups.len() == 0 {
        seq![]
    } else {
        flattened(groups.drop_last()) + groups.last()
    }
}

/// `unique_columns_in_table`: the columns of all inline unique groups.
pub fn flatten_groups(groups: &Vec<Vec<String>>) -> (r: Vec<String>)
    ensures
        texts(r@) == flattened(text_groups(groups@)),
{
    let ghost g = text_groups(groups@);
    let mut r: Vec<String> = Vec::new();
    let mut i: usize = 0;
    while i < groups.len()
        invariant
            i <= groups@.len(),
            g == text_groups(groups@),
            texts(r@) == flattened(g.take(i as int)),
        decreases groups@.len() - i,
    {
        assert(g.take(i as int + 1).drop_last() =~= g.take(i as int));
        let group = &groups[i];
        let ghost before = r@;
        let mut j: usize = 0;
        while j < group.len()
            invariant
                i < groups@.len(),
                *group == groups@[i as int],
                j <= group@.len(),
                texts(r@) == texts(before) + texts(group@.take(j as int)),
            decreases group@.len() - j,
        {
            let ghost old_r = r@;
            r.push(group[j].clone());
            assert(texts(r@) =~= texts(old_r).push(group@[j as int]@));
            assert(texts(group@.take(j as int + 1)) =~= texts(group@.take(j as int)).push(group@[j as int]@));
            j = j + 1;
            assert(texts(r@) =~= texts(before) + texts(group@.take(j as int)));
        }
        assert(group@.take(j as int) =~= group@);
        assert(g.take(i as int + 1).last() == texts(group@));
        assert(texts(r@) =~= flattened(g.take(i as int + 1)));
        i = i + 1;
    }
    assert(g.take(i as int) =~= g);
    r
}

/// Some unique created index has a column that is `column_name` up to case.
pub open spec fn unique_index_covers(created: Seq<IndexStateSpec>, column_name: Seq<char>) -> bool {
    exists|i: int| 0 <= i < created.len() && (#[trigger] created[i]).is_unique && any_name_matches(created[i].columns, column_name)
}

/// `check_if_col_unique`'s decision: the column is unique where an inline
/// unique constraint names it, or where a unique created index covers it.
pub fn column_is_unique(inline_unique: &Vec<String>, created: &Vec<IndexState>, column_name: &str) -> (r: bool)
    ensures
        r == (any_name_matches(texts(inline_unique@), column_name@) || unique_index_covers(
            index_specs(created@),
            column_name@,
        )),
{
    if any_matches(inline_unique, column_name) {
        return true;
    }
    let ghost specs = index_specs(created@);
    let mut i: usize = 0;
    while i < created.len()
        invariant
            i <= created@.len(),
            specs == index_specs(created@),
            forall|j: int| 0 <= j < i ==> !((#[trigger] specs[j]).is_unique && any_name_matches(specs[j].columns, column_name@)),
        decreases created@.len() - i,
    {
        assert(specs[i as int] == created@[i as int]@);
        if created[i].is_unique && any_matches(&created[i].columns, column_name) {
            return true;
        }
        i = i + 1;
    }
    false
}

/// What `str::to_uppercase` makes of a text (full Unicode case mapping).
pub uninterp spec fn unicode_uppercase(s: Seq<char>) -> Seq<char>;

/// `str::to_uppercase`. Claims only that the result is a function of the
/// text: the Unicode case mapping is left unsaid.
#[verifier::external_body]
fn to_uppercase(s: &str) -> (r: String)
    ensures
        r@ == unicode_uppercase(s@),
{
    s.to_uppercase()
}

/// The table's `CREATE TABLE` text, upper-cased, mentions `AUTOINCREMENT`.
pub open spec fn mentions_autoincrement(create_sql: Seq<char>) -> bool {
    exists|i: int| occurs_at(vstd::utf8::encode_utf8(unicode_uppercase(create_sql)), "AUTOINCREMENT".spec_bytes(), i)
}

/// The name of the first primary-key column.
pub open spec fn first_primary_key(cols: Seq<TableColumnSpec>) -> Option<Seq<char>>
    decreases cols.len(),
{
    if cols.len() == 0 {
        None
    } else if cols[0].primary_key {
        Some(cols[0].name)
    } else {
        first_primary_key(cols.drop_first())
    }
}

/// `col_is_autoincrement`'s decision, given the table's `CREATE TABLE` text
/// (none where there is no such table) and its columns: where the text
/// mentions `AUTOINCREMENT` in any case, the first primary-key column.
pub fn autoincrement_column(create_sql: &Option<String>, columns: &Vec<TableColumnInfo>) -> (r: Option<String>)
    ensures
        create_sql.is_none() ==> r is None,
        create_sql matches Some(sql) && !mentions_autoincrement(sql@) ==> r is None,
        create_sql matches Some(sql) && mentions_autoincrement(sql@) ==> opt_text_eq(
            r,
            first_primary_key(info_specs(columns@)),
        ),
{
    let sql = match create_sql {
        None => return None,
        Some(s) => s,
    };
    let upper = to_uppercase(sql.as_str());
    let u = upper.as_str();
    assert(u.spec_bytes() == vstd::utf8::encode_utf8(unicode_uppercase(sql@)));
    if !contains(u, "AUTOINCREMENT") {
        return None;
    }
    let ghost specs = info_specs(columns@);
    assert(specs.skip(0) =~= specs);
    let mut i: usize = 0;
    while i < columns.len()
        invariant
            i <= columns@.len(),
            specs == info_specs(columns@),
            *create_sql == Some(*sql),
            mentions_autoincrement(sql@),
            first_primary_key(specs) == first_primary_key(specs.skip(i as int)),
        decreases columns@.len() - i,
    {
        assert(specs.skip(i as int)[0] == columns@[i as int]@);
        if columns[i].primary_key {
            return Some(columns[i].name.clone());
        }
        assert(specs.skip(i as int).drop_first() =~= specs.skip(i as int + 1));
        i = i + 1;
    }
    assert(specs.skip(i as int).len() == 0);
    None
}

/// An optional string whose text is `o`.
pub open spec fn opt_text_eq(r: Option<String>, o: Option<Seq<char>>) -> bool {
    match r {
        Some(s) => o == Some(s@),
        None => o is None,
    }
}

} // verus!
