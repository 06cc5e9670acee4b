//! The folder-migration driver's bookkeeping. Migration must look atomic to
//! the user: the source tree is removed only once every file stands in the
//! destination, and on any failure the source is left untouched, so the
//! next resolution demands the same migration again.

use vstd::prelude::*;

use crate::config::ConfigModel;
use crate::laws::lemma_migration_preempts_everything;
use crate::probes::{FolderMigration, MigrationModel, ProbesModel};
use crate::resolver::spec_resolve;
use crate::state::StateModel;

verus! {

/// One folder migration in flight: `total_files` files to copy from the
/// legacy tree into the new location, then — only once all of them are
/// there — the source tree may go.
#[derive(Debug)]
pub struct MigrationTask {
    pub from: String,
    pub to: String,
    pub cleanup_folder: Option<String>,
    /// How many files the plan copies.
    pub total_files: usize,
    /// How many are copied so far.
    pub copied: usize,
    /// Whether a copy failed; the task is then abandoned.
    pub failed: bool,
    /// Whether the source tree was removed.
    pub source_removed: bool,
}

impl MigrationTask {
    /// The task is consistent: the source tree can only be gone once every
    /// file was copied and nothing failed.
    pub open spec fn wf(&self) -> bool {
        &&& self.copied <= self.total_files
        &&& self.source_removed ==> self.copied == self.total_files && !self.failed
    }

    /// Begins the migration a resolved `FolderMigrationRequired` demands,
    /// over the `total_files` files the caller enumerated in the source
    /// tree.
    pub fn begin(plan: FolderMigration, total_files: usize) -> (r: MigrationTask)
        ensures
            r.wf(),
            r.from@ == plan@.from,
            r.to@ == plan@.to,
            r.mig_cleanup() == plan@.cleanup_folder,
            r.total_files == total_files,
            r.copied == 0,
            !r.failed,
            !r.source_removed,
    {
        MigrationTask {
            from: plan.from,
            to: plan.to,
            cleanup_folder: plan.cleanup_folder,
            total_files,
            copied: 0,
            failed: false,
            source_removed: false,
        }
    }

    /// The model of the cleanup folder path.
    pub open spec fn mig_cleanup(&self) -> Option<Seq<char>> {
        match self.cleanup_folder {
            Some(c) => Some(c@),
            None => None,
        }
    }

    /// Records one file copied into the destination.
    pub fn record_copied(&mut self)
        requires
            old(self).wf(),
            !old(self).failed,
            !old(self).source_removed,
            old(self).copied < old(self).total_files,
        ensures
            final(self).wf(),
            final(self).copied == old(self).copied + 1,
            final(self).total_files == old(self).total_files,
            !final(self).failed,
            !final(self).source_removed,
            final(self).from == old(self).from,
            final(self).to == old(self).to,
            final(self).cleanup_folder == old(self).cleanup_folder,
    {
        self.copied = self.copied + 1;
    }

    /// Records a failed copy: the task is abandoned with the source tree in
    /// place, so the migration can be restarted safely.
    pub fn record_failure(&mut self)
        requires
            old(self).wf(),
            !old(self).source_removed,
        ensures
            final(self).wf(),
            final(self).failed,
            !final(self).source_removed,
            final(self).copied == old(self).copied,
            final(self).total_files == old(self).total_files,
            final(self).from == old(self).from,
            final(self).to == old(self).to,
            final(self).cleanup_folder == old(self).cleanup_folder,
    {
        self.failed = true;
    }

    /// Whether the destination is fully populated and the source tree may
    /// now be removed — the atomicity gate.
    pub fn may_remove_source(&self) -> (r: bool)
        ensures
            r == (self.copied == self.total_files && !self.failed),
    {
        self.copied == self.total_files && !self.failed
    }

    /// Records that the source tree was removed; allowed only through the
    /// gate above.
    pub fn record_source_removed(&mut self)
        requires
            old(self).wf(),
            old(self).copied == old(self).total_files,
            !old(self).failed,
        ensures
            final(self).wf(),
            final(self).source_removed,
            final(self).copied == old(self).copied,
            final(self).total_files == old(self).total_files,
            final(self).from == old(self).from,
            final(self).to == old(self).to,
            final(self).cleanup_folder == old(self).cleanup_folder,
    {
        self.source_removed = true;
    }
}

/// Law: migration is atomic from the user's perspective. In every
/// consistent task whose source tree is gone, the destination was fully
/// populated first and nothing had failed.
pub proof fn lemma_migration_atomicity(t: MigrationTask)
    requires
        t.wf(),
        t.source_removed,
    ensures
        t.copied == t.total_files,
        !t.failed,
{
}

/// Law: a failed migration comes back. A consistent task that failed still
/// has its source tree, so the layout probe reports the same migration
/// again and the next resolution returns `FolderMigrationRequired` with the
/// same paths, whatever the other probes say.
pub proof fn lemma_failed_migration_resolves_again(
    t: MigrationTask,
    c: ConfigModel,
    p: ProbesModel,
)
    requires
        t.wf(),
        t.failed,
        p.migration == Some(
            MigrationModel { from: t.from@, to: t.to@, cleanup_folder: t.mig_cleanup() },
        ),
    ensures
        !t.source_removed,
        spec_resolve(c, p) == Ok::<StateModel, crate::error::ResolutionErrorModel>(
            StateModel::FolderMigrationRequired {
                from: t.from@,
                to: t.to@,
                cleanup_folder: t.mig_cleanup(),
            },
        ),
{
    lemma_migration_preempts_everything(
        c,
        p,
        MigrationModel { from: t.from@, to: t.to@, cleanup_folder: t.mig_cleanup() },
    );
}

} // verus!
