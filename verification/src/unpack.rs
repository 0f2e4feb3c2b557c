//! Unpacking: which archive goes where, and what is said of the result.
//!
//! Every archive is unpacked into a directory of its own, named after the
//! item, below [`UNPACKED_PATH`]. The archive's inner layout is kept as it
//! is. Each item is planned on its own, so that a corrupt archive costs
//! that one item and nothing else.

use crate::directory::UNPACKED_PATH;
use crate::entry::{check_entry, entry_fault, fault_text};
use crate::foreign::failure_of;
use crate::item::{archive_path, item_models, DownloadItem, DownloadItemModel};
use vstd::prelude::*;
use vstd::string::*;
use zip_extract::ZipExtractError;

verus! {

/// How the extraction of one archive ended.
#[derive(Debug, PartialEq, Eq)]
pub enum ExtractionOutcome {
    /// Every entry was written below the target directory.
    Success,
    /// The archive could not be read, or an entry could not be written.
    IoFailure(String),
    /// The archive is corrupt or is no archive.
    FormatFailure,
    /// The path of an entry could not be brought into a safe form. Holds the
    /// path as the archive gave it, and what went wrong.
    PathNormalizationFailure(String, String),
}

/// An extraction outcome as a mathematical value.
pub enum ExtractionOutcomeModel {
    Success,
    IoFailure(Seq<char>),
    FormatFailure,
    PathNormalizationFailure(Seq<char>, Seq<char>),
}

impl View for ExtractionOutcome {
    type V = ExtractionOutcomeModel;

    open spec fn view(&self) -> ExtractionOutcomeModel {
        match *self {
            ExtractionOutcome::Success => ExtractionOutcomeModel::Success,
            ExtractionOutcome::IoFailure(detail) => ExtractionOutcomeModel::IoFailure(detail@),
            ExtractionOutcome::FormatFailure => ExtractionOutcomeModel::FormatFailure,
            ExtractionOutcome::PathNormalizationFailure(path, detail) =>
                ExtractionOutcomeModel::PathNormalizationFailure(path@, detail@),
        }
    }
}

/// The work on one archive: read `archive_path` in full and extract every
/// entry below `target_dir`, after making sure that `root` is there.
#[derive(Debug, PartialEq, Eq)]
pub struct UnpackJob {
    pub archive_path: String,
    pub identifier: String,
    /// The directory below which all archives are unpacked.
    pub root: String,
    /// The directory of this item.
    pub target_dir: String,
    /// Whether a folder that holds the whole archive is left out of the
    /// paths. It never is.
    pub strip_toplevel: bool,
}

/// An unpack job as a mathematical value.
pub struct UnpackJobModel {
    pub archive_path: Seq<char>,
    pub identifier: Seq<char>,
    pub root: Seq<char>,
    pub target_dir: Seq<char>,
    pub strip_toplevel: bool,
}

impl View for UnpackJob {
    type V = UnpackJobModel;

    open spec fn view(&self) -> UnpackJobModel {
        UnpackJobModel {
            archive_path: self.archive_path@,
            identifier: self.identifier@,
            root: self.root@,
            target_dir: self.target_dir@,
            strip_toplevel: self.strip_toplevel,
        }
    }
}

/// The directory into which the item `name` is unpacked.
pub open spec fn target_dir(name: Seq<char>) -> Seq<char> {
    UNPACKED_PATH@ + "/"@ + name
}

/// The job that unpacks the archive at `path` for the item `name`.
pub open spec fn job_for(path: Seq<char>, name: Seq<char>) -> UnpackJobModel {
    UnpackJobModel {
        archive_path: path,
        identifier: name,
        root: UNPACKED_PATH@,
        target_dir: target_dir(name),
        strip_toplevel: false,
    }
}

/// The jobs of a batch: one for each item, in order, whatever comes of the
/// others.
pub open spec fn jobs_for(items: Seq<DownloadItemModel>) -> Seq<UnpackJobModel> {
    Seq::new(
        items.len(),
        |i: int| job_for(archive_path(items[i].identifier), items[i].identifier),
    )
}

/// The views of the jobs of `jobs`, in order.
pub open spec fn job_models(jobs: Seq<UnpackJob>) -> Seq<UnpackJobModel> {
    Seq::new(jobs.len(), |i: int| jobs[i]@)
}

/// The line that is logged for a job that ended with `outcome`.
pub open spec fn unpack_report(job: UnpackJobModel, outcome: ExtractionOutcomeModel) -> Seq<char> {
    match outcome {
        ExtractionOutcomeModel::Success => "Archive "@ + job.archive_path + " unpacked to "@
            + job.target_dir,
        ExtractionOutcomeModel::IoFailure(detail) => "Failed to extract archive "@
            + job.archive_path + " to "@ + job.target_dir + ", IO error "@ + detail,
        ExtractionOutcomeModel::FormatFailure => "Failed to extract archive "@ + job.archive_path
            + " to "@ + job.target_dir + ", ZIP error"@,
        ExtractionOutcomeModel::PathNormalizationFailure(path, _) => "Failed to extract archive "@
            + path + " to "@ + job.target_dir + ", StripTopLevel error"@,
    }
}

/// Where the entry `name` goes below `target`, or the failure that a name
/// unfit for unpacking ends the job with.
pub open spec fn entry_placement(target: Seq<char>, name: Seq<char>) -> Result<
    Seq<char>,
    ExtractionOutcomeModel,
> {
    match entry_fault(name) {
        None => Ok(target + "/"@ + name),
        Some(fault) => Err(
            ExtractionOutcomeModel::PathNormalizationFailure(name, fault_text(fault)),
        ),
    }
}

/// The outcome of an extraction from what the extracting call returned:
/// `Success` exactly when it returned `Ok`.
pub fn extraction_outcome(result: Result<(), ZipExtractError>) -> (outcome: ExtractionOutcome)
    ensures
        (outcome@ is Success) == (result is Ok),
{
    match result {
        Ok(_) => ExtractionOutcome::Success,
        Err(error) => failure_of(error),
    }
}

/// Plans the unpacking of the archive at `path` for the item `name`.
pub fn unpack_zip(path: &str, name: &str) -> (job: UnpackJob)
    ensures
        job@ == job_for(path@, name@),
{
    let mut target = String::from_str(UNPACKED_PATH);
    target.append("/");
    target.append(name);
    UnpackJob {
        archive_path: String::from_str(path),
        identifier: String::from_str(name),
        root: String::from_str(UNPACKED_PATH),
        target_dir: target,
        strip_toplevel: false,
    }
}

/// Plans the unpacking of a batch: one job for each item, in order. The
/// jobs do not depend on one another, so a failure of one leaves the
/// others to be tried.
pub fn unpack_songs(items: &Vec<DownloadItem>) -> (jobs: Vec<UnpackJob>)
    ensures
        job_models(jobs@) == jobs_for(item_models(items@)),
{
    let mut jobs: Vec<UnpackJob> = Vec::new();
    let mut i: usize = 0;
    while i < items.len()
        invariant
            i <= items.len(),
            jobs.len() == i,
            forall|k: int|
                0 <= k < i ==> (#[trigger] jobs[k])@ == job_for(
                    archive_path(items[k]@.identifier),
                    items[k]@.identifier,
                ),
        decreases items.len() - i,
    {
        let path = items[i].archive_path();
        let job = unpack_zip(path.as_str(), items[i].identifier.as_str());
        jobs.push(job);
        i = i + 1;
    }
    assert(job_models(jobs@) =~= jobs_for(item_models(items@)));
    jobs
}

impl ExtractionOutcome {
    /// True when every entry was written.
    pub fn is_success(&self) -> (r: bool)
        ensures
            r == (self@ is Success),
    {
        match self {
            ExtractionOutcome::Success => true,
            _ => false,
        }
    }
}

impl UnpackJob {
    /// The path under which the entry `name` of the archive is unpacked: the
    /// name as it stands, below the directory of the item. A name that is
    /// absolute, leads to a parent directory or is malformed is refused with
    /// the outcome that ends the job.
    pub fn entry_path(&self, name: &str) -> (r: Result<String, ExtractionOutcome>)
        ensures
            r is Ok == entry_placement(self@.target_dir, name@) is Ok,
            r matches Ok(path) ==> Ok::<Seq<char>, ExtractionOutcomeModel>(path@)
                == entry_placement(self@.target_dir, name@),
            r matches Err(outcome) ==> Err::<Seq<char>, ExtractionOutcomeModel>(outcome@)
                == entry_placement(self@.target_dir, name@),
    {
        match check_entry(name) {
            Ok(_) => {
                let mut path = self.target_dir.clone();
                path.append("/");
                path.append(name);
                Ok(path)
            },
            Err(fault) => Err(
                ExtractionOutcome::PathNormalizationFailure(String::from_str(name), fault.message()),
            ),
        }
    }

    /// The line to log for this job once it has ended with `outcome`.
    pub fn report(&self, outcome: &ExtractionOutcome) -> (line: String)
        ensures
            line@ == unpack_report(self@, outcome@),
    {
        match outcome {
            ExtractionOutcome::Success => {
                let mut line = String::from_str("Archive ");
                line.append(self.archive_path.as_str());
                line.append(" unpacked to ");
                line.append(self.target_dir.as_str());
                line
            },
            ExtractionOutcome::IoFailure(detail) => {
                let mut line = String::from_str("Failed to extract archive ");
                line.append(self.archive_path.as_str());
                line.append(" to ");
                line.append(self.target_dir.as_str());
                line.append(", IO error ");
                line.append(detail.as_str());
                line
            },
            ExtractionOutcome::FormatFailure => {
                let mut line = String::from_str("Failed to extract archive ");
                line.append(self.archive_path.as_str());
                line.append(" to ");
                line.append(self.target_dir.as_str());
                line.append(", ZIP error");
                line
            },
            ExtractionOutcome::PathNormalizationFailure(path, _) => {
                let mut line = String::from_str("Failed to extract archive ");
                line.append(path.as_str());
                line.append(" to ");
                line.append(self.target_dir.as_str());
                line.append(", StripTopLevel error");
                line
            },
        }
    }
}

/// A batch plans a job for every item, each with the item's own archive and
/// a directory of its own: what comes of one job changes no other.
pub proof fn lemma_every_item_is_planned(items: Seq<DownloadItemModel>, i: int)
    requires
        0 <= i < items.len(),
    ensures
        jobs_for(items).len() == items.len(),
        jobs_for(items)[i].identifier == items[i].identifier,
        jobs_for(items)[i].archive_path == archive_path(items[i].identifier),
        jobs_for(items)[i].target_dir == target_dir(items[i].identifier),
        jobs_for(items)[i] == jobs_for(seq![items[i]])[0],
{
}

} // verus!
