//! The current directory, with one level of history.
use vstd::prelude::*;
use crate::entry::{DirectoryEntry, EntryKind};
use crate::error::NavError;
use crate::table::{directory_table, is_listing_table, table_rows, table_safe};
use prettytable::Table;

verus! {

/// The path that `std::path::Path::join` makes of `base` and `child` on this
/// platform.
pub uninterp spec fn joined_path(base: Seq<char>, child: Seq<char>) -> Seq<char>;

/// Relies on `std::path::Path::join`: its result depends on the two paths
/// alone. Both are valid UTF-8, so the lossy conversion back loses nothing.
#[verifier::external_body]
fn join_path(base: &str, child: &str) -> (r: String)
    ensures
        r@ == joined_path(base@, child@),
{
    std::path::Path::new(base).join(child).to_string_lossy().into_owned()
}

/// The state of a navigator, as values.
pub struct NavigatorView {
    pub current: Seq<char>,
    pub previous: Option<Seq<char>>,
}

impl NavigatorView {
    /// The state after moving into `target`: the current directory becomes
    /// the previous one.
    pub open spec fn entered(self, target: Seq<char>) -> NavigatorView {
        NavigatorView { current: target, previous: Some(self.current) }
    }

    /// The state after going back: the previous directory becomes current and
    /// the history is consumed. Without history nothing changes.
    pub open spec fn went_back(self) -> NavigatorView {
        match self.previous {
            Some(p) => NavigatorView { current: p, previous: None },
            None => self,
        }
    }
}

/// Tracks the current directory and the one it was entered from.
pub struct DirectoryNavigator {
    current_dir: String,
    previous_dir: Option<String>,
}

impl View for DirectoryNavigator {
    type V = NavigatorView;

    closed spec fn view(&self) -> NavigatorView {
        NavigatorView {
            current: self.current_dir@,
            previous: match self.previous_dir {
                Some(p) => Some(p@),
                None => None,
            },
        }
    }
}

impl DirectoryNavigator {
    /// A navigator that starts in `start`, with no history.
    pub fn new(start: String) -> (r: DirectoryNavigator)
        ensures
            r@ == (NavigatorView { current: start@, previous: None }),
    {
        DirectoryNavigator { current_dir: start, previous_dir: None }
    }

    /// The current directory.
    pub fn current_dir(&self) -> (r: &str)
        ensures
            r@ == self@.current,
    {
        self.current_dir.as_str()
    }

    /// The directory that `go_to_parent_dir` would return to, if any.
    pub fn previous_dir(&self) -> (r: Option<&str>)
        ensures
            r matches Some(p) <==> self@.previous is Some,
            r matches Some(p) ==> p@ == self@.previous->0,
    {
        match &self.previous_dir {
            Some(p) => Some(p.as_str()),
            None => None,
        }
    }

    /// The path that `dir` names relative to the current directory.
    pub fn target_path(&self, dir: &str) -> (r: String)
        ensures
            r@ == joined_path(self@.current, dir@),
    {
        join_path(self.current_dir.as_str(), dir)
    }

    /// Moves into `dir`, relative to the current directory. `found` is what
    /// the file system holds at `target_path(dir)`: nothing, a file or a
    /// directory. Only a directory is entered; otherwise the state is kept and
    /// the error names the path.
    pub fn go_to_dir(&mut self, dir: &str, found: Option<EntryKind>) -> (r: Result<(), NavError>)
        ensures
            ({
                let target = joined_path(old(self)@.current, dir@);
                match found {
                    None => {
                        &&& r matches Err(NavError::NotFound(p)) && p@ == target
                        &&& *final(self) == *old(self)
                    },
                    Some(EntryKind::File) => {
                        &&& r matches Err(NavError::NotADirectory(p)) && p@ == target
                        &&& *final(self) == *old(self)
                    },
                    Some(EntryKind::Directory) => {
                        &&& r is Ok
                        &&& final(self)@ == old(self)@.entered(target)
                    },
                }
            }),
    {
        let target = self.target_path(dir);
        match found {
            None => Err(NavError::NotFound(target)),
            Some(EntryKind::File) => Err(NavError::NotADirectory(target)),
            Some(EntryKind::Directory) => {
                self.previous_dir = Some(self.current_dir.clone());
                self.current_dir = target;
                Ok(())
            },
        }
    }

    /// Returns to the directory that the last `go_to_dir` left, and forgets
    /// it. Fails with `NoHistory`, keeping the state, when none is recorded.
    pub fn go_to_parent_dir(&mut self) -> (r: Result<(), NavError>)
        ensures
            r is Ok <==> old(self)@.previous is Some,
            r is Err ==> r == Err::<(), NavError>(NavError::NoHistory),
            final(self)@ == old(self)@.went_back(),
    {
        match self.previous_dir.take() {
            Some(prev) => {
                self.current_dir = prev;
                Ok(())
            },
            None => Err(NavError::NoHistory),
        }
    }

    /// The table of `entries`, read from the current directory: a
    /// `Name | Type` header and one row per entry.
    /// No name may hold an escape character (see `table::fits_table`).
    pub fn display_directory_structure(&self, entries: &Vec<DirectoryEntry>) -> (r: Table)
        requires
            table_safe(entries@),
        ensures
            is_listing_table(table_rows(r), entries@),
    {
        directory_table(entries)
    }
}

/// Entering a directory and then going back restores the directory one
/// started in and leaves no history; the step back succeeds.
pub proof fn lemma_enter_then_back(v: NavigatorView, target: Seq<char>)
    ensures
        v.entered(target).previous is Some,
        v.entered(target).went_back() == (NavigatorView { current: v.current, previous: None }),
{
}

/// Going back leaves no history, so a second step back in a row fails.
pub proof fn lemma_back_consumes_history(v: NavigatorView)
    ensures
        v.went_back().previous is None,
{
}

} // verus!
