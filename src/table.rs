//! A listing as a two-column table of names and kinds, built with prettytable.
use vstd::prelude::*;
use crate::entry::{kind_label, DirectoryEntry, EntryKind};
use prettytable::{Cell, Row, Table};

verus! {

#[verifier::external_type_specification]
#[verifier::external_body]
pub struct ExTable(prettytable::Table);

#[verifier::external_type_specification]
#[verifier::external_body]
pub struct ExRow(prettytable::Row);

#[verifier::external_type_specification]
#[verifier::external_body]
pub struct ExCell(prettytable::Cell);

/// The lines of text that a cell holds.
pub uninterp spec fn cell_lines(c: Cell) -> Seq<Seq<char>>;

/// The lines of each cell of a row, from left to right.
pub uninterp spec fn row_cells(r: Row) -> Seq<Seq<Seq<char>>>;

/// The cells of each row of a table, from top to bottom.
pub uninterp spec fn table_rows(t: Table) -> Seq<Seq<Seq<Seq<char>>>>;

/// Whether `s` holds no escape character. prettytable measures a cell's
/// text by reading terminal escapes out of it, and can fail on text that
/// holds one.
pub open spec fn no_escape(s: Seq<char>) -> bool {
    !s.contains('\u{1b}')
}

/// Drops one `'\r'` at the end of `l`, if there is one.
pub open spec fn strip_cr(l: Seq<char>) -> Seq<char> {
    if l.len() > 0 && l.last() == '\r' {
        l.drop_last()
    } else {
        l
    }
}

/// The lines of `s[start..]`, where the line being read began at `start` and
/// `s[start..i]` holds no `'\n'`.
pub open spec fn lines_from(s: Seq<char>, start: int, i: int) -> Seq<Seq<char>>
    decreases s.len() - i,
{
    if i >= s.len() {
        if start >= s.len() {
            Seq::empty()
        } else {
            seq![s.subrange(start, s.len() as int)]
        }
    } else if s[i] == '\n' {
        seq![strip_cr(s.subrange(start, i))] + lines_from(s, i + 1, i + 1)
    } else {
        lines_from(s, start, i + 1)
    }
}

/// The lines of `s` as `str::lines` gives them: split at each `'\n'`, with a
/// `'\r'` just before it dropped, and no empty line after a final `'\n'`.
pub open spec fn lines_of(s: Seq<char>) -> Seq<Seq<char>> {
    lines_from(s, 0, 0)
}

proof fn lemma_lines_from_last(s: Seq<char>, start: int, i: int)
    requires
        0 <= start <= i <= s.len(),
        start < s.len(),
        forall|j: int| i <= j < s.len() ==> s[j] != '\n',
    ensures
        lines_from(s, start, i) == seq![s.subrange(start, s.len() as int)],
    decreases s.len() - i,
{
    if i < s.len() {
        lemma_lines_from_last(s, start, i + 1);
    }
}

/// A non-empty text without a line break is one line.
pub proof fn lemma_lines_of_one_line(s: Seq<char>)
    requires
        s.len() > 0,
        !s.contains('\n'),
    ensures
        lines_of(s) == seq![s],
{
    assert forall|j: int| 0 <= j < s.len() implies s[j] != '\n' by {
        if s[j] == '\n' {
            assert(s.contains('\n'));
        }
    }
    lemma_lines_from_last(s, 0, 0);
    assert(s.subrange(0, s.len() as int) =~= s);
}

/// Relies on `prettytable::Cell::new`, which stores `string.lines()`. It
/// measures each line with `utils::display_width`, whose assertion can fail
/// on text that holds an escape character.
pub assume_specification[ prettytable::Cell::new ](string: &str) -> (r: prettytable::Cell)
    requires
        no_escape(string@),
    ensures
        cell_lines(r) == lines_of(string@),
;

/// Relies on `prettytable::Row::new`, which keeps the cells as given.
pub assume_specification[ prettytable::Row::new ](cells: Vec<prettytable::Cell>) -> (r: prettytable::Row)
    ensures
        row_cells(r) == cells@.map_values(|c: Cell| cell_lines(c)),
;

/// Relies on `prettytable::Table::new`, which makes a table without rows.
pub assume_specification[ prettytable::Table::new ]() -> (r: prettytable::Table)
    ensures
        table_rows(r) == Seq::<Seq<Seq<Seq<char>>>>::empty(),
;

/// Relies on `prettytable::Table::add_row`, which pushes the row after the
/// others.
#[verifier::external_body]
fn append_row(t: &mut Table, row: Row)
    ensures
        table_rows(*final(t)) == table_rows(*old(t)).push(row_cells(row)),
{
    t.add_row(row);
}

/// The header row: the cells `Name` and `Type`.
pub open spec fn header_row() -> Seq<Seq<Seq<char>>> {
    seq![seq!["Name"@], seq!["Type"@]]
}

/// The row of an entry: the lines of its name, and its kind.
pub open spec fn entry_row(e: DirectoryEntry) -> Seq<Seq<Seq<char>>> {
    seq![lines_of(e.name@), seq![kind_label(e.kind)]]
}

/// Whether every entry can be shown in a table: no name holds an escape
/// character.
pub open spec fn table_safe(entries: Seq<DirectoryEntry>) -> bool {
    forall|i: int| 0 <= i < entries.len() ==> no_escape(#[trigger] entries[i].name@)
}

/// `rows` is the table of `entries`: the header, then one row per entry, in
/// order.
pub open spec fn is_listing_table(rows: Seq<Seq<Seq<Seq<char>>>>, entries: Seq<DirectoryEntry>) -> bool {
    rows == seq![header_row()] + entries.map_values(|e: DirectoryEntry| entry_row(e))
}

/// Whether every entry can be shown in a table by `directory_table`.
pub fn fits_table(entries: &Vec<DirectoryEntry>) -> (r: bool)
    ensures
        r == table_safe(entries@),
{
    let mut i: usize = 0;
    while i < entries.len()
        invariant
            i <= entries@.len(),
            forall|j: int| 0 <= j < i ==> no_escape(#[trigger] entries@[j].name@),
        decreases entries@.len() - i,
    {
        let name = entries[i].name.as_str();
        let n = name.unicode_len();
        let mut k: usize = 0;
        while k < n
            invariant
                k <= n,
                n == name@.len(),
                i < entries@.len(),
                name@ == entries@[i as int].name@,
                forall|m: int| 0 <= m < k ==> name@[m] != '\u{1b}',
            decreases n - k,
        {
            if name.get_char(k) == '\u{1b}' {
                assert(name@.contains('\u{1b}'));
                assert(!no_escape(entries@[i as int].name@));
                return false;
            }
            k = k + 1;
        }
        assert(no_escape(name@)) by {
            if name@.contains('\u{1b}') {
                let m = choose|m: int| 0 <= m < name@.len() && name@[m] == '\u{1b}';
                assert(name@[m] != '\u{1b}');
            }
        }
        i = i + 1;
    }
    true
}

/// The row of a table with the texts `a` and `b`.
fn text_row(a: &str, b: &str) -> (r: Row)
    requires
        no_escape(a@),
        no_escape(b@),
    ensures
        row_cells(r) == seq![lines_of(a@), lines_of(b@)],
{
    let mut cells: Vec<Cell> = Vec::new();
    cells.push(Cell::new(a));
    cells.push(Cell::new(b));
    let r = Row::new(cells);
    assert(row_cells(r) =~= seq![lines_of(a@), lines_of(b@)]);
    r
}

proof fn lemma_fixed_texts()
    ensures
        lines_of("Name"@) == seq!["Name"@],
        lines_of("Type"@) == seq!["Type"@],
        lines_of(kind_label(EntryKind::File)) == seq![kind_label(EntryKind::File)],
        lines_of(kind_label(EntryKind::Directory)) == seq![kind_label(EntryKind::Directory)],
        no_escape("Name"@),
        no_escape("Type"@),
        no_escape(kind_label(EntryKind::File)),
        no_escape(kind_label(EntryKind::Directory)),
{
    reveal_strlit("Name");
    reveal_strlit("Type");
    reveal_strlit("File");
    reveal_strlit("Directory");
    lemma_lines_of_one_line("Name"@);
    lemma_lines_of_one_line("Type"@);
    lemma_lines_of_one_line("File"@);
    lemma_lines_of_one_line("Directory"@);
}

/// The table of `entries`, with a `Name | Type` header.
pub fn directory_table(entries: &Vec<DirectoryEntry>) -> (r: Table)
    requires
        table_safe(entries@),
    ensures
        is_listing_table(table_rows(r), entries@),
{
    proof {
        lemma_fixed_texts();
    }
    let mut t = Table::new();
    append_row(&mut t, text_row("Name", "Type"));
    let mut i: usize = 0;
    while i < entries.len()
        invariant
            i <= entries@.len(),
            table_safe(entries@),
            lines_of(kind_label(EntryKind::File)) == seq![kind_label(EntryKind::File)],
            lines_of(kind_label(EntryKind::Directory)) == seq![kind_label(EntryKind::Directory)],
            no_escape(kind_label(EntryKind::File)),
            no_escape(kind_label(EntryKind::Directory)),
            table_rows(t) == seq![header_row()] + entries@.subrange(0, i as int).map_values(
                |e: DirectoryEntry| entry_row(e),
            ),
        decreases entries@.len() - i,
    {
        let e = &entries[i];
        let row = text_row(e.name.as_str(), e.kind.label());
        append_row(&mut t, row);
        assert(entries@.subrange(0, i + 1).map_values(|e: DirectoryEntry| entry_row(e))
            =~= entries@.subrange(0, i as int).map_values(|e: DirectoryEntry| entry_row(e)).push(entry_row(*e)));
        i = i + 1;
    }
    assert(entries@.subrange(0, i as int) =~= entries@);
    t
}

} // verus!
