//! Entries of a directory listing and their plain-text rendering.
use vstd::prelude::*;

verus! {

/// Whether an entry of a directory is a file or a directory.
#[derive(Clone, Copy, Debug, PartialEq, Eq, Structural)]
pub enum EntryKind {
    File,
    Directory,
}

/// The text that names a kind in a table.
pub open spec fn kind_label(k: EntryKind) -> Seq<char> {
    match k {
        EntryKind::File => "File"@,
        EntryKind::Directory => "Directory"@,
    }
}

impl EntryKind {
    /// The kind of an entry, from whether it is a directory.
    pub fn classify(is_dir: bool) -> (r: EntryKind)
        ensures
            r == (if is_dir { EntryKind::Directory } else { EntryKind::File }),
    {
        if is_dir {
            EntryKind::Directory
        } else {
            EntryKind::File
        }
    }

    /// `"Directory"` or `"File"`.
    pub fn label(&self) -> (r: &'static str)
        ensures
            r@ == kind_label(*self),
    {
        match self {
            EntryKind::File => "File",
            EntryKind::Directory => "Directory",
        }
    }
}

/// A direct child of a directory: its base name and its kind.
#[derive(Debug)]
pub struct DirectoryEntry {
    pub name: String,
    pub kind: EntryKind,
}

/// The line that names an entry in a plain listing: the name, with a trailing
/// `/` for a directory.
pub open spec fn line_of(e: DirectoryEntry) -> Seq<char> {
    match e.kind {
        EntryKind::File => e.name@,
        EntryKind::Directory => e.name@ + "/"@,
    }
}

impl DirectoryEntry {
    /// An entry named `name`, classified by `is_dir`.
    pub fn new(name: String, is_dir: bool) -> (r: DirectoryEntry)
        ensures
            r.name == name,
            r.kind == (if is_dir { EntryKind::Directory } else { EntryKind::File }),
    {
        DirectoryEntry { name, kind: EntryKind::classify(is_dir) }
    }

    /// The line that names this entry in a plain listing.
    pub fn line(&self) -> (r: String)
        ensures
            r@ == line_of(*self),
    {
        let mut s = self.name.clone();
        match self.kind {
            EntryKind::File => {},
            EntryKind::Directory => s.append("/"),
        }
        s
    }
}

/// One line per entry, in the order of the entries.
pub fn listing_lines(entries: &Vec<DirectoryEntry>) -> (r: Vec<String>)
    ensures
        r@.len() == entries@.len(),
        forall|i: int| 0 <= i < r@.len() ==> #[trigger] r@[i]@ == line_of(entries@[i]),
{
    let mut out: Vec<String> = Vec::new();
    let mut i: usize = 0;
    while i < entries.len()
        invariant
            i <= entries@.len(),
            out@.len() == i,
            forall|j: int| 0 <= j < i ==> #[trigger] out@[j]@ == line_of(entries@[j]),
        decreases entries@.len() - i,
    {
        out.push(entries[i].line());
        i = i + 1;
    }
    out
}

} // verus!
