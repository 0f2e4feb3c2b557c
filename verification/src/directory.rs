//! The working directories: created on demand, removed when done.
//!
//! Both operations are housekeeping around a batch. Each looks at whether
//! the directory is there, asks for at most one operation, and turns its
//! result into a log line. A failure is logged and goes no further.

use vstd::prelude::*;
use vstd::string::*;

verus! {

/// The directory that holds the downloaded archives.
pub const DOWNLOADED_PATH: &'static str = "songs";

/// The directory below which each archive is unpacked.
pub const UNPACKED_PATH: &'static str = "songs_unpacked";

/// What is to be done to a directory.
#[derive(Clone, Copy, Debug, PartialEq, Eq, Structural)]
pub enum DirectoryOperation {
    /// Nothing: the directory is already as wanted.
    Keep,
    /// Create the directory.
    Create,
    /// Remove the directory with all that it holds.
    RemoveAll,
}

/// An operation together with the directory it is meant for.
#[derive(Debug, PartialEq, Eq)]
pub struct DirectoryCommand {
    pub path: String,
    pub operation: DirectoryOperation,
}

/// A directory operation that failed. It is logged and then dropped.
#[derive(Clone, Copy, Debug, PartialEq, Eq, Structural)]
pub struct DirectoryOpFailed {
    pub operation: DirectoryOperation,
}

/// The operation that makes sure a directory is there.
pub open spec fn ensure_operation(is_dir: bool) -> DirectoryOperation {
    if is_dir {
        DirectoryOperation::Keep
    } else {
        DirectoryOperation::Create
    }
}

/// The operation that makes sure a directory is gone.
pub open spec fn remove_operation(is_dir: bool) -> DirectoryOperation {
    if is_dir {
        DirectoryOperation::RemoveAll
    } else {
        DirectoryOperation::Keep
    }
}

/// The line that is logged once `operation` on `path` has been tried, or
/// `None` where nothing was tried.
pub open spec fn directory_report(
    path: Seq<char>,
    operation: DirectoryOperation,
    succeeded: bool,
) -> Option<Seq<char>> {
    match operation {
        DirectoryOperation::Keep => None,
        DirectoryOperation::Create => if succeeded {
            Some(path + " directory created"@)
        } else {
            Some("Failed to create directory "@ + path)
        },
        DirectoryOperation::RemoveAll => if succeeded {
            Some(path + " directory removed with all its contents"@)
        } else {
            Some("Failed to remove directory "@ + path)
        },
    }
}

/// Makes sure that `path` is a directory: asks for its creation unless it is
/// one already, as `is_dir` tells.
pub fn create_dir(path: &str, is_dir: bool) -> (command: DirectoryCommand)
    ensures
        command.path@ == path@,
        command.operation == ensure_operation(is_dir),
{
    let operation = if is_dir {
        DirectoryOperation::Keep
    } else {
        DirectoryOperation::Create
    };
    DirectoryCommand { path: String::from_str(path), operation }
}

/// Makes sure that `path` is gone: asks for its removal, contents and all,
/// if it is a directory, as `is_dir` tells.
pub fn remove_dir(path: &str, is_dir: bool) -> (command: DirectoryCommand)
    ensures
        command.path@ == path@,
        command.operation == remove_operation(is_dir),
{
    let operation = if is_dir {
        DirectoryOperation::RemoveAll
    } else {
        DirectoryOperation::Keep
    };
    DirectoryCommand { path: String::from_str(path), operation }
}

/// Removes the directory of the downloaded archives.
pub fn remove_downloaded_songs(is_dir: bool) -> (command: DirectoryCommand)
    ensures
        command.path@ == DOWNLOADED_PATH@,
        command.operation == remove_operation(is_dir),
{
    remove_dir(DOWNLOADED_PATH, is_dir)
}

/// Removes the directory of the unpacked archives.
pub fn remove_unpacked_songs(is_dir: bool) -> (command: DirectoryCommand)
    ensures
        command.path@ == UNPACKED_PATH@,
        command.operation == remove_operation(is_dir),
{
    remove_dir(UNPACKED_PATH, is_dir)
}

impl DirectoryCommand {
    /// What came of the command: `Err` exactly when an operation was tried
    /// and failed.
    pub fn outcome(&self, succeeded: bool) -> (r: Result<(), DirectoryOpFailed>)
        ensures
            r is Err <==> self.operation != DirectoryOperation::Keep && !succeeded,
            r matches Err(failure) ==> failure.operation == self.operation,
    {
        match self.operation {
            DirectoryOperation::Keep => Ok(()),
            _ => if succeeded {
                Ok(())
            } else {
                Err(DirectoryOpFailed { operation: self.operation })
            },
        }
    }

    /// The line to log once the operation has been tried; `None` where
    /// there was nothing to do.
    pub fn report(&self, succeeded: bool) -> (line: Option<String>)
        ensures
            line.is_some() == directory_report(self.path@, self.operation, succeeded).is_some(),
            line matches Some(text) ==> Some(text@) == directory_report(
                self.path@,
                self.operation,
                succeeded,
            ),
    {
        match self.operation {
            DirectoryOperation::Keep => None,
            DirectoryOperation::Create => if succeeded {
                let mut text = self.path.clone();
                text.append(" directory created");
                Some(text)
            } else {
                let mut text = String::from_str("Failed to create directory ");
                text.append(self.path.as_str());
                Some(text)
            },
            DirectoryOperation::RemoveAll => if succeeded {
                let mut text = self.path.clone();
                text.append(" directory removed with all its contents");
                Some(text)
            } else {
                let mut text = String::from_str("Failed to remove directory ");
                text.append(self.path.as_str());
                Some(text)
            },
        }
    }
}

/// What stands at a path, as far as the pipeline cares.
pub enum DirectoryModel {
    /// No directory.
    Absent,
    /// A directory with `entries` things in it.
    Present { entries: nat },
}

impl DirectoryModel {
    /// What a look at the path tells.
    pub open spec fn is_dir(self) -> bool {
        self is Present
    }

    /// What stands at the path once `operation` has been carried out with
    /// success.
    pub open spec fn after(self, operation: DirectoryOperation) -> DirectoryModel {
        match operation {
            DirectoryOperation::Keep => self,
            DirectoryOperation::Create => DirectoryModel::Present { entries: 0 },
            DirectoryOperation::RemoveAll => DirectoryModel::Absent,
        }
    }

    /// What stands at the path after a successful `create_dir`.
    pub open spec fn ensured(self) -> DirectoryModel {
        self.after(ensure_operation(self.is_dir()))
    }

    /// What stands at the path after a successful `remove_dir`.
    pub open spec fn removed(self) -> DirectoryModel {
        self.after(remove_operation(self.is_dir()))
    }
}

/// Making sure of a directory twice is as good as once: where the first
/// operation succeeds the directory is there, the second call asks for
/// nothing, so that nothing can fail, and the directory is left as it was.
pub proof fn lemma_ensure_is_idempotent(dir: DirectoryModel)
    ensures
        dir.ensured().is_dir(),
        ensure_operation(dir.ensured().is_dir()) == DirectoryOperation::Keep,
        forall|path: Seq<char>, succeeded: bool|
            directory_report(path, ensure_operation(dir.ensured().is_dir()), succeeded) is None,
        dir.ensured().ensured() == dir.ensured(),
{
}

/// Removing a directory and then making sure of it leaves an empty
/// directory, where both operations succeed.
pub proof fn lemma_remove_then_ensure_is_empty(dir: DirectoryModel)
    ensures
        dir.removed() == DirectoryModel::Absent,
        dir.removed().ensured() == (DirectoryModel::Present { entries: 0 }),
{
}

} // verus!
