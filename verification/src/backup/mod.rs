//! Packing the configured folders into tarballs.
pub mod interface;

use crate::config::config_file::Config;
use crate::text::{after_last_slash, last_segment};
use vstd::prelude::*;

verus! {

/// The backup job of a configuration.
#[derive(Clone, Debug)]
pub struct Backup(pub Config);

/// One tarball to write: the folder at `path`, archived under
/// `folder_name` into the file `tar_name`.
#[derive(Clone, Debug)]
pub struct TarballJob {
    pub path: String,
    pub folder_name: String,
    pub tar_name: String,
}

/// The tarballs to write, in order, and the path that stops the run, if any.
#[derive(Clone, Debug)]
pub struct TarballPlan {
    pub jobs: Vec<TarballJob>,
    pub failed_path: Option<String>,
}

/// The folder name under which `path` is archived: its last piece split at '/'.
pub open spec fn folder_name_of(path: Seq<char>) -> Seq<char> {
    after_last_slash(path)
}

/// The folder name of a path is its last piece: a suffix of the path that
/// holds no '/', and which either is the whole path or follows a '/'. So a
/// path without '/' is its own folder name, and a path that ends in '/' has
/// an empty one.
pub proof fn lemma_folder_name_is_last_piece(path: Seq<char>)
    ensures
        ({
            let f = folder_name_of(path);
            &&& f.len() <= path.len()
            &&& path.subrange(path.len() - f.len(), path.len() as int) == f
            &&& forall|i: int| 0 <= i < f.len() ==> f[i] != '/'
            &&& f.len() < path.len() ==> path[path.len() - f.len() - 1] == '/'
        }),
        (forall|i: int| 0 <= i < path.len() ==> path[i] != '/') ==> folder_name_of(path) == path,
        path.len() > 0 && path.last() == '/' ==> folder_name_of(path).len() == 0,
    decreases path.len(),
{
    if path.len() > 0 && path.last() != '/' {
        let rest = path.drop_last();
        lemma_folder_name_is_last_piece(rest);
        let f0 = folder_name_of(rest);
        let f = folder_name_of(path);
        assert(f == f0.push(path.last()));
        assert(path.subrange(path.len() - f.len(), path.len() as int) =~= rest.subrange(
            rest.len() - f0.len(),
            rest.len() as int,
        ).push(path.last()));
        assert forall|i: int| 0 <= i < f.len() implies f[i] != '/' by {
            if i < f0.len() {
                assert(f[i] == f0[i]);
            }
        }
        if f.len() < path.len() {
            assert(path[path.len() - f.len() - 1] == rest[rest.len() - f0.len() - 1]);
        }
        if forall|i: int| 0 <= i < path.len() ==> path[i] != '/' {
            assert forall|i: int| 0 <= i < rest.len() implies rest[i] != '/' by {
                assert(rest[i] == path[i]);
            }
            assert(f =~= path);
        }
    } else if path.len() > 0 {
        if forall|i: int| 0 <= i < path.len() ==> path[i] != '/' {
            assert(path[path.len() - 1] != '/');
        }
        assert(path.subrange(path.len() as int, path.len() as int) =~= Seq::<char>::empty());
    } else {
        assert(path.subrange(0, 0) =~= path);
    }
}

/// The name of the tarball of `folder`.
pub open spec fn tar_name_of(folder: Seq<char>) -> Seq<char> {
    folder + ".tar.gz"@
}

/// A tarball is named by its whole folder name: the name is the folder name
/// followed by the seven characters ".tar.gz", so two different folder names
/// never share a tarball, and no tarball overwrites another's.
pub proof fn lemma_tarball_name_keeps_folder_name(f: Seq<char>, g: Seq<char>)
    ensures
        tar_name_of(f).len() == f.len() + 7,
        tar_name_of(f).take(f.len() as int) == f,
        tar_name_of(f).skip(f.len() as int) == seq!['.', 't', 'a', 'r', '.', 'g', 'z'],
        f != g ==> tar_name_of(f) != tar_name_of(g),
{
    reveal_strlit(".tar.gz");
    assert(tar_name_of(f).take(f.len() as int) =~= f);
    assert(tar_name_of(f).skip(f.len() as int) =~= seq!['.', 't', 'a', 'r', '.', 'g', 'z']);
    assert(tar_name_of(g).take(g.len() as int) =~= g);
}

/// `job` archives the folder at `path`.
pub open spec fn tarball_job_for(job: TarballJob, path: Seq<char>) -> bool {
    &&& job.path@ == path
    &&& job.folder_name@ == folder_name_of(path)
    &&& job.tar_name@ == tar_name_of(folder_name_of(path))
}

/// `plan` archives the paths in order, up to the first one whose folder name
/// is empty, which it names as the failure.
pub open spec fn tarball_plan_for(plan: TarballPlan, paths: Seq<Seq<char>>) -> bool {
    let k = plan.jobs@.len() as int;
    &&& k <= paths.len()
    &&& forall|i: int| 0 <= i < k ==> #[trigger] tarball_job_for(plan.jobs@[i], paths[i])
    &&& forall|i: int| 0 <= i < k ==> folder_name_of(#[trigger] paths[i]).len() > 0
    &&& match plan.failed_path {
        Some(p) => k < paths.len() && p@ == paths[k] && folder_name_of(paths[k]).len() == 0,
        None => k == paths.len(),
    }
}

/// The tarball job of one path, with its folder name.
pub fn tarball_job(path: &String) -> (job: TarballJob)
    ensures
        tarball_job_for(job, path@),
{
    let folder_name = last_segment(path.as_str());
    let tar_name = folder_name.clone().concat(".tar.gz");
    TarballJob { path: path.clone(), folder_name, tar_name }
}

impl Backup {
    /// The tarballs that a backup run writes, one per configured path, in
    /// order. A path whose folder name is empty (such as one that ends in
    /// '/') stops the run: the tarballs before it are still written, and the
    /// run then fails with the message of `BackupError::EmptyFolderName`.
    pub fn tarball_plan(&self) -> (plan: TarballPlan)
        ensures
            tarball_plan_for(plan, self.0.backup.backup_path.deep_view()),
    {
        let paths = &self.0.backup.backup_path;
        let ghost dv = paths.deep_view();
        let mut jobs: Vec<TarballJob> = Vec::new();
        let mut i: usize = 0;
        while i < paths.len()
            invariant
                dv == paths.deep_view(),
                dv == self.0.backup.backup_path.deep_view(),
                i <= paths.len(),
                jobs@.len() == i,
                forall|j: int| 0 <= j < i ==> #[trigger] tarball_job_for(jobs@[j], dv[j]),
                forall|j: int| 0 <= j < i ==> folder_name_of(#[trigger] dv[j]).len() > 0,
            decreases paths.len() - i,
        {
            let job = tarball_job(&paths[i]);
            assert(dv[i as int] == paths@[i as int]@);
            if job.folder_name.as_str().unicode_len() == 0 {
                let failed = paths[i].clone();
                assert(dv.len() == paths@.len());
                return TarballPlan { jobs, failed_path: Some(failed) };
            }
            jobs.push(job);
            i = i + 1;
        }
        assert(dv.len() == paths@.len());
        TarballPlan { jobs, failed_path: None }
    }
}

/// Why a backup run stops.
#[derive(Clone, Debug)]
pub enum BackupError {
    /// The folder name of this path is empty.
    EmptyFolderName(String),
}

impl BackupError {
    /// The message the run fails with.
    pub fn message(&self) -> (m: String)
        ensures
            m@ == "File is empty!"@,
    {
        String::from_str("File is empty!")
    }
}

} // verus!
