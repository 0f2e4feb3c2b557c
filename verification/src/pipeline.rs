//! The order of a batch.
//!
//! A batch is planned before anything is done: the download directory is
//! made, every item that can be fetched is fetched, the directory of
//! earlier unpackings is swept, every item is unpacked, the downloads are
//! removed and the result manifest is saved. No step waits on the success
//! of another, so that one item's failure never costs a later item its turn.

use crate::directory::{DOWNLOADED_PATH, UNPACKED_PATH};
use crate::item::{
    archive_path, item_models, retrieval_targets, target_models, targets, DownloadItem,
    DownloadItemModel, RetrievalTarget, RetrievalTargetModel,
};
use crate::unpack::{job_for, job_models, jobs_for, unpack_songs, UnpackJob, UnpackJobModel};
use vstd::prelude::*;
use vstd::string::*;

verus! {

/// One step of a batch.
#[derive(Debug, PartialEq, Eq)]
pub enum BatchStep {
    /// Make sure that the directory is there.
    EnsureDirectory(String),
    /// Fetch one item with a streaming transfer. It is fetch number
    /// `position` of a batch of `count` items.
    Fetch { target: RetrievalTarget, position: usize, count: usize },
    /// Remove what earlier batches unpacked.
    RemoveUnpacked,
    /// Unpack one archive.
    Unpack(UnpackJob),
    /// Remove the downloaded archives.
    RemoveDownloaded,
    /// Save the result manifest.
    SaveManifest,
}

/// A step of a batch as a mathematical value.
pub enum BatchStepModel {
    EnsureDirectory(Seq<char>),
    Fetch { target: RetrievalTargetModel, position: usize, count: usize },
    RemoveUnpacked,
    Unpack(UnpackJobModel),
    RemoveDownloaded,
    SaveManifest,
}

impl View for BatchStep {
    type V = BatchStepModel;

    open spec fn view(&self) -> BatchStepModel {
        match *self {
            BatchStep::EnsureDirectory(path) => BatchStepModel::EnsureDirectory(path@),
            BatchStep::Fetch { target, position, count } => BatchStepModel::Fetch {
                target: target@,
                position,
                count,
            },
            BatchStep::RemoveUnpacked => BatchStepModel::RemoveUnpacked,
            BatchStep::Unpack(job) => BatchStepModel::Unpack(job@),
            BatchStep::RemoveDownloaded => BatchStepModel::RemoveDownloaded,
            BatchStep::SaveManifest => BatchStepModel::SaveManifest,
        }
    }
}

/// The views of the steps of `steps`, in order.
pub open spec fn step_models(steps: Seq<BatchStep>) -> Seq<BatchStepModel> {
    Seq::new(steps.len(), |i: int| steps[i]@)
}

/// The fetches of a batch of `count` items: one for each target, numbered
/// from one.
pub open spec fn fetch_steps(found: Seq<RetrievalTargetModel>, count: usize) -> Seq<
    BatchStepModel,
> {
    Seq::new(
        found.len(),
        |i: int| BatchStepModel::Fetch { target: found[i], position: (i + 1) as usize, count },
    )
}

/// The unpacking of a batch: for each job, first its root directory is made
/// sure of, then the job is run.
pub open spec fn unpack_steps(jobs: Seq<UnpackJobModel>) -> Seq<BatchStepModel> {
    Seq::new(
        2 * jobs.len(),
        |i: int|
            if i % 2 == 0 {
                BatchStepModel::EnsureDirectory(jobs[i / 2].root)
            } else {
                BatchStepModel::Unpack(jobs[i / 2])
            },
    )
}

/// The steps of the batch that fetches and unpacks `todo`, in order.
pub open spec fn batch_steps(todo: Seq<DownloadItemModel>) -> Seq<BatchStepModel> {
    seq![BatchStepModel::EnsureDirectory(DOWNLOADED_PATH@)] + fetch_steps(
        targets(todo),
        todo.len() as usize,
    ) + seq![BatchStepModel::RemoveUnpacked] + unpack_steps(jobs_for(todo)) + seq![
        BatchStepModel::RemoveDownloaded,
        BatchStepModel::SaveManifest,
    ]
}

/// Plans the batch that fetches and unpacks the items of `todo`.
pub fn plan_batch(todo: &Vec<DownloadItem>) -> (steps: Vec<BatchStep>)
    ensures
        step_models(steps@) == batch_steps(item_models(todo@)),
{
    let ghost models = item_models(todo@);
    let count: usize = todo.len();
    let found = retrieval_targets(todo);
    let jobs = unpack_songs(todo);
    let ghost wanted = targets(models);
    let ghost planned = jobs_for(models);
    let mut steps: Vec<BatchStep> = Vec::new();
    steps.push(BatchStep::EnsureDirectory(String::from_str(DOWNLOADED_PATH)));
    let ghost head = seq![BatchStepModel::EnsureDirectory(DOWNLOADED_PATH@)];
    assert(step_models(steps@) =~= head + fetch_steps(wanted.take(0), count));
    let mut position: usize = 0;
    let total: usize = found.len();
    for target in it: found
        invariant
            it.seq() == found@,
            it.seq().len() == total,
            target_models(found@) == wanted,
            position == it.index(),
            step_models(steps@) == head + fetch_steps(wanted.take(it.index() as int), count),
    {
        let ghost before = step_models(steps@);
        let ghost added = BatchStepModel::Fetch {
            target: target@,
            position: (position + 1) as usize,
            count,
        };
        assert(target@ == wanted[position as int]);
        steps.push(BatchStep::Fetch { target, position: position + 1, count });
        position = position + 1;
        assert(step_models(steps@) =~= before.push(added));
        assert(before.push(added) =~= head + fetch_steps(wanted.take(position as int), count));
    }
    assert(wanted.take(found@.len() as int) =~= wanted);
    steps.push(BatchStep::RemoveUnpacked);
    let ghost front = head + fetch_steps(wanted, count) + seq![BatchStepModel::RemoveUnpacked];
    assert(step_models(steps@) =~= front + unpack_steps(planned.take(0)));
    for job in it: jobs
        invariant
            it.seq() == jobs@,
            job_models(jobs@) == planned,
            step_models(steps@) == front + unpack_steps(planned.take(it.index() as int)),
    {
        let ghost k = it.index() as int;
        let ghost before = step_models(steps@);
        let ghost next = job@;
        assert(next == planned[k]);
        steps.push(BatchStep::EnsureDirectory(String::from_str(job.root.as_str())));
        steps.push(BatchStep::Unpack(job));
        proof {
            let more = before.push(BatchStepModel::EnsureDirectory(next.root)).push(
                BatchStepModel::Unpack(next),
            );
            assert(step_models(steps@) =~= more);
            let old_part = unpack_steps(planned.take(k));
            let new_part = unpack_steps(planned.take(k + 1));
            assert forall|j: int| 0 <= j < new_part.len() implies new_part[j] == (old_part.push(
                BatchStepModel::EnsureDirectory(next.root),
            ).push(BatchStepModel::Unpack(next)))[j] by {
                if j < 2 * k {
                    assert(planned.take(k + 1)[j / 2] == planned.take(k)[j / 2]);
                } else {
                    assert(j / 2 == k);
                    assert(planned.take(k + 1)[j / 2] == planned[k]);
                }
            }
            assert(new_part =~= old_part.push(BatchStepModel::EnsureDirectory(next.root)).push(
                BatchStepModel::Unpack(next),
            ));
            assert(more =~= front + new_part);
        }
    }
    assert(planned.take(jobs@.len() as int) =~= planned);
    let ghost before = step_models(steps@);
    steps.push(BatchStep::RemoveDownloaded);
    steps.push(BatchStep::SaveManifest);
    assert(step_models(steps@) =~= before.push(BatchStepModel::RemoveDownloaded).push(
        BatchStepModel::SaveManifest,
    ));
    assert(step_models(steps@) =~= batch_steps(models));
    steps
}

/// No archive is unpacked before every fetch of the batch has had its turn:
/// in the plan each fetch stands before each unpacking.
pub proof fn lemma_fetches_precede_unpacking(todo: Seq<DownloadItemModel>, i: int, j: int)
    requires
        0 <= i < batch_steps(todo).len(),
        0 <= j < batch_steps(todo).len(),
        batch_steps(todo)[i] is Fetch,
        batch_steps(todo)[j] is Unpack,
    ensures
        i < j,
{
}

/// Every item of the batch is unpacked, whatever comes of the others: the
/// plan holds, for each item, the step that makes sure of the root directory
/// and right after it the item's own job.
pub proof fn lemma_every_item_has_its_turn(todo: Seq<DownloadItemModel>, k: int)
    requires
        0 <= k < todo.len(),
    ensures
        batch_steps(todo).len() == targets(todo).len() + 2 * todo.len() + 4,
        batch_steps(todo)[targets(todo).len() + 2 + 2 * k] == BatchStepModel::EnsureDirectory(
            UNPACKED_PATH@,
        ),
        batch_steps(todo)[targets(todo).len() as int + 1] == BatchStepModel::RemoveUnpacked,
        batch_steps(todo)[targets(todo).len() + 3 + 2 * k] == BatchStepModel::Unpack(
            job_for(archive_path(todo[k].identifier), todo[k].identifier),
        ),
{
}

/// Every item that can be fetched is fetched once, in playlist order: the
/// fetches of the plan are the targets of the items that have a key.
pub proof fn lemma_every_target_is_fetched(todo: Seq<DownloadItemModel>, t: int)
    requires
        0 <= t < targets(todo).len(),
    ensures
        batch_steps(todo)[1 + t] == (BatchStepModel::Fetch {
            target: targets(todo)[t],
            position: (t + 1) as usize,
            count: todo.len() as usize,
        }),
{
}

} // verus!
