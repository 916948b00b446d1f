//! The index compiler: turns one language's source records into its
//! immutable item table.  Pure and deterministic; duplicate item names
//! (compared case-insensitively) fail the compile instead of silently
//! overwriting an entry.

use vstd::prelude::*;
use vstd::string::*;
use crate::table::{CompiledEntry, ItemTable, TableEntry};
use crate::text::{join_with, lower_of, lowered, str_eq, join_strings};

verus! {

/// One book reference of a source record: the book's name and its page
/// identifiers, already rendered as plain strings.
pub struct SourceBook {
    pub name: String,
    pub pages: Vec<String>,
}

/// One source record: an item's display name and its books in source order.
pub struct SourceItem {
    pub name: String,
    pub books: Vec<SourceBook>,
}

/// Why a compile failed.
#[derive(Debug)]
pub enum CompileError {
    /// Holds the name of a later record whose normalized key repeats an
    /// earlier one.
    DuplicateItem(String),
}

/// The formatted line of one book:
/// `<book name> ---> pages <comma-joined page list>\n`.
pub open spec fn line_of(b: SourceBook) -> Seq<char> {
    b.name@ + " ---> pages "@ + join_with(b.pages.deep_view(), ", "@) + "\n"@
}

/// The compiled lines of one record, one per book, in source order.
pub open spec fn entry_lines_of(item: SourceItem) -> Seq<Seq<char>> {
    item.books@.map_values(|b: SourceBook| line_of(b))
}

/// Two records collide when their names fold to the same normalized key.
pub open spec fn has_duplicate(records: Seq<SourceItem>) -> bool {
    exists|i: int, j: int|
        0 <= i < j < records.len() && lower_of(records[i].name@) == lower_of(records[j].name@)
}

/// The table is the image of the records: same length, each row keyed by
/// the lower-cased item name and holding that item's formatted lines.
pub open spec fn compiled_from(records: Seq<SourceItem>, t: ItemTable) -> bool {
    &&& t.row_count() == records.len()
    &&& forall|i: int|
        0 <= i < records.len() ==> t.key_at(i) == lower_of(#[trigger] records[i].name@)
    &&& forall|i: int|
        0 <= i < records.len() ==> t.lines_at(i) == entry_lines_of(#[trigger] records[i])
}

/// Builds the formatted line of one book.
fn format_line(book: &SourceBook) -> (r: String)
    ensures
        r@ == line_of(*book),
{
    let mut line = book.name.clone();
    line.append(" ---> pages ");
    let joined = join_strings(&book.pages, ", ");
    line.append(joined.as_str());
    line.append("\n");
    line
}

/// Builds the compiled lines of one record, in book order.
fn format_entry(item: &SourceItem) -> (r: CompiledEntry)
    ensures
        r.lines_view() == entry_lines_of(*item),
{
    let mut lines: Vec<String> = Vec::new();
    let mut b: usize = 0;
    while b < item.books.len()
        invariant
            0 <= b as int <= item.books@.len(),
            lines@.len() == b as int,
            forall|k: int| 0 <= k < b as int ==> lines@[k]@ == line_of(#[trigger] item.books@[k]),
        decreases item.books@.len() - b as int,
    {
        let line = format_line(&item.books[b]);
        lines.push(line);
        b = b + 1;
    }
    let entry = CompiledEntry { lines };
    proof {
        assert(entry.lines_view() =~= entry_lines_of(*item));
    }
    entry
}

/// Compiles one language's source records into its item table.
///
/// Succeeds exactly when no two records share a normalized key; the table
/// then mirrors the records row for row, in source order.
pub fn compile(records: Vec<SourceItem>) -> (r: Result<ItemTable, CompileError>)
    ensures
        match r {
            Ok(t) => {
                &&& !has_duplicate(records@)
                &&& t.wf()
                &&& compiled_from(records@, t)
            },
            Err(e) => {
                &&& has_duplicate(records@)
                &&& match e {
                    CompileError::DuplicateItem(n) => exists|j: int|
                        0 <= j < records@.len() && n@ == #[trigger] records@[j].name@,
                }
            },
        },
{
    let mut rows: Vec<TableEntry> = Vec::new();
    let mut idx: usize = 0;
    while idx < records.len()
        invariant
            0 <= idx as int <= records@.len(),
            rows@.len() == idx as int,
            forall|i: int|
                0 <= i < idx as int ==> rows@[i].key@ == lower_of(#[trigger] records@[i].name@),
            forall|i: int|
                0 <= i < idx as int ==> rows@[i].entry.lines_view() == entry_lines_of(
                    #[trigger] records@[i],
                ),
            forall|i: int, j: int| 0 <= i < j < idx as int ==> rows@[i].key@ != rows@[j].key@,
        decreases records@.len() - idx as int,
    {
        let key = lowered(records[idx].name.as_str());
        let mut s: usize = 0;
        while s < rows.len()
            invariant
                0 <= s as int <= rows@.len(),
                (idx as int) < records@.len(),
                rows@.len() == idx as int,
                key@ == lower_of(records@[idx as int].name@),
                forall|i: int|
                    0 <= i < idx as int ==> rows@[i].key@ == lower_of(
                        #[trigger] records@[i].name@,
                    ),
                forall|j: int| 0 <= j < s as int ==> rows@[j].key@ != key@,
            decreases rows@.len() - s as int,
        {
            if str_eq(rows[s].key.as_str(), key.as_str()) {
                proof {
                    assert(lower_of(records@[s as int].name@) == lower_of(
                        records@[idx as int].name@,
                    ));
                }
                return Err(CompileError::DuplicateItem(records[idx].name.clone()));
            }
            s = s + 1;
        }
        let entry = format_entry(&records[idx]);
        rows.push(TableEntry { key, entry });
        idx = idx + 1;
    }
    let table = ItemTable { rows };
    proof {
        if has_duplicate(records@) {
            let (i, j): (int, int) = choose|i: int, j: int|
                0 <= i < j < records@.len() && lower_of(records@[i].name@) == lower_of(
                    records@[j].name@,
                );
            assert(table.key_at(i) == table.key_at(j));
            assert(false);
        }
    }
    Ok(table)
}

} // verus!
