//! The Minio store: its setup from the configuration, and the decisions of
//! its upload, listing and bucket operations.
use crate::backup::{folder_name_of, tar_name_of, tarball_job_for, tarball_plan_for, TarballPlan};
use crate::config::config_file::Config;
use crate::storage::{ObjectStorage, StorageError};
use crate::storage::clock::{is_day_stamp, utc_now_formatted, UtcDay};
use crate::text::{copy_texts, last_segment};
use crate::storage::bucket::{path_style_bucket, BucketFields, BucketSettings, ConfiguredBucket};
use vstd::prelude::*;

verus! {

/// The Minio store of a configuration.
#[derive(Debug)]
pub struct MinioStore {
    /// The bucket the uploads and listings go through, with its fields.
    pub bucket: ConfiguredBucket,
    /// The folders whose tarballs are uploaded.
    pub backup_paths: Vec<String>,
}

/// `f` are the fields of the bucket that `cfg` describes.
pub open spec fn bucket_fields_from(cfg: Config, f: BucketFields) -> bool {
    match cfg.storage.minio {
        Some(m) => {
            &&& f.name@ == cfg.storage.backup_path@
            &&& f.custom_region matches Some((r, e)) && r@ == m.region@ && e@ == m.endpoint@
            &&& f.credentials.0 matches Some(k) && k@ == m.access_key@
            &&& f.credentials.1 matches Some(k) && k@ == m.secret_key@
            &&& f.credentials.2 is None
            &&& f.credentials.3 is None
            &&& f.path_style
        },
        None => false,
    }
}

impl ObjectStorage for MinioStore {
    /// The Minio store of `cfg`: a path-style bucket named
    /// `cfg.storage.backup_path` on the configured custom region and endpoint,
    /// with the configured keys, which uploads the configured backup paths.
    /// Fails when `cfg` names no Minio store.
    fn init(cfg: &Config) -> (r: Result<Self, StorageError>)
        ensures
            cfg.storage.minio is None <==> r is Err,
            r matches Err(e) ==> e is MissingMinioConfig,
            r matches Ok(s) ==> bucket_fields_from(*cfg, s.bucket.read_fields())
                && s.backup_paths.deep_view()
                == cfg.backup.backup_path.deep_view(),
    {
        match &cfg.storage.minio {
            Some(m) => {
                let settings = BucketSettings {
                    name: cfg.storage.backup_path.clone(),
                    region: m.region.clone(),
                    endpoint: m.endpoint.clone(),
                    access_key: m.access_key.clone(),
                    secret_key: m.secret_key.clone(),
                };
                let bucket = path_style_bucket(&settings);
                let backup_paths = copy_texts(&cfg.backup.backup_path);
                Ok(MinioStore { bucket, backup_paths })
            },
            None => Err(StorageError::MissingMinioConfig),
        }
    }
}

/// One tarball to upload: the local file it reads and the key it is stored
/// under.
#[derive(Clone, Debug)]
pub struct UploadJob {
    pub file_name: String,
    pub object_path: String,
    /// The clock's day the key is stamped with, when the job was made from a
    /// reading of the clock.
    pub day: Option<UtcDay>,
}

/// The local file that the upload of `path` reads: the tarball that the
/// backup run writes for it.
pub open spec fn upload_file_name_of(path: Seq<char>) -> Seq<char> {
    tar_name_of(folder_name_of(path))
}

/// The name under which the tarball of `path` is stored on day `date`.
pub open spec fn stored_name_of(path: Seq<char>, date: Seq<char>) -> Seq<char> {
    folder_name_of(path) + "-"@ + date + ".tar.gz"@
}

/// The key under which the tarball of `path` is stored on day `date`: the
/// folder name, '/', and the stored name.
pub open spec fn upload_object_path_of(path: Seq<char>, date: Seq<char>) -> Seq<char> {
    folder_name_of(path) + "/"@ + stored_name_of(path, date)
}

/// `jobs` uploads the tarballs of `paths`, in order, the upload of
/// `paths[i]` stamped with the day `dates[i]`.
pub open spec fn upload_plan_for(jobs: Seq<UploadJob>, paths: Seq<Seq<char>>, dates: Seq<Seq<char>>) -> bool {
    &&& jobs.len() == paths.len()
    &&& dates.len() == paths.len()
    &&& forall|i: int|
        0 <= i < jobs.len() ==> {
            &&& (#[trigger] jobs[i]).file_name@ == upload_file_name_of(paths[i])
            &&& jobs[i].object_path@ == upload_object_path_of(paths[i], dates[i])
        }
}

/// The upload of one path on day `date`: it reads the path's tarball and
/// stores it under `<folder>/<folder>-<date>.tar.gz`.
pub fn upload_job(path: &String, date: &str) -> (job: UploadJob)
    ensures
        job.file_name@ == upload_file_name_of(path@),
        job.object_path@ == upload_object_path_of(path@, date@),
        job.day is None,
{
    let folder = last_segment(path.as_str());
    let file_name = folder.clone().concat(".tar.gz");
    let stored_name = folder.clone().concat("-").concat(date).concat(".tar.gz");
    let object_path = folder.concat("/").concat(stored_name.as_str());
    UploadJob { file_name, object_path, day: None }
}

/// `job` uploads the tarball of `path` under a key stamped with the day it
/// holds from the clock.
pub open spec fn is_clock_stamped_upload(job: UploadJob, path: Seq<char>) -> bool {
    &&& job.file_name@ == upload_file_name_of(path)
    &&& job.day matches Some(d) && job.object_path@ == upload_object_path_of(path, d@)
}

/// The key of an upload holds its day: two uploads of the same folder on
/// different days are stored under different keys, so no day's backup
/// overwrites another's.
pub proof fn lemma_uploads_on_different_days_get_different_keys(
    a: UploadJob,
    b: UploadJob,
    path: Seq<char>,
)
    requires
        is_clock_stamped_upload(a, path),
        is_clock_stamped_upload(b, path),
        a.day->0@ != b.day->0@,
    ensures
        a.object_path@ != b.object_path@,
{
    let da = a.day->0@;
    let db = b.day->0@;
    let folder = folder_name_of(path);
    let head = folder + "/"@ + folder + "-"@;
    assert(upload_object_path_of(path, da) =~= head + da + ".tar.gz"@);
    assert(upload_object_path_of(path, db) =~= head + db + ".tar.gz"@);
    if a.object_path@ == b.object_path@ {
        assert(da.len() == db.len());
        assert((head + da + ".tar.gz"@).subrange(head.len() as int, (head.len() + da.len()) as int) =~= da);
        assert((head + db + ".tar.gz"@).subrange(head.len() as int, (head.len() + db.len()) as int) =~= db);
    }
}

/// A run uploads the very tarballs it writes: for every path that the backup
/// plan archives, the matching upload reads the file the plan writes, and
/// stores it under the plan's folder name, '/', and that folder name
/// followed by '-', the day of that upload and ".tar.gz".
pub proof fn lemma_uploads_read_the_written_tarballs(
    plan: TarballPlan,
    jobs: Seq<UploadJob>,
    paths: Seq<Seq<char>>,
    dates: Seq<Seq<char>>,
)
    requires
        tarball_plan_for(plan, paths),
        upload_plan_for(jobs, paths, dates),
    ensures
        forall|i: int|
            0 <= i < plan.jobs@.len() ==> {
                let folder = (#[trigger] plan.jobs@[i]).folder_name@;
                &&& folder.len() > 0
                &&& jobs[i].file_name@ == plan.jobs@[i].tar_name@
                &&& jobs[i].object_path@ == folder + "/"@ + folder + "-"@ + dates[i] + ".tar.gz"@
            },
{
    assert forall|i: int| 0 <= i < plan.jobs@.len() implies {
        let folder = (#[trigger] plan.jobs@[i]).folder_name@;
        &&& folder.len() > 0
        &&& jobs[i].file_name@ == plan.jobs@[i].tar_name@
        &&& jobs[i].object_path@ == folder + "/"@ + folder + "-"@ + dates[i] + ".tar.gz"@
    } by {
        let folder = folder_name_of(paths[i]);
        assert(tarball_job_for(plan.jobs@[i], paths[i]));
        assert(folder.len() > 0);
        assert(jobs[i].file_name@ == upload_file_name_of(paths[i]));
        assert(folder + "/"@ + (folder + "-"@ + dates[i] + ".tar.gz"@) =~= folder + "/"@ + folder
            + "-"@ + dates[i] + ".tar.gz"@);
    }
}

impl MinioStore {
    /// The uploads of a run: one per backup path, in order, each stamped
    /// with the UTC day ("%Y-%m-%d") read from the clock when its job is
    /// made, and kept in the job.
    pub fn upload_jobs(&self) -> (jobs: Vec<UploadJob>)
        ensures
            exists|dates: Seq<Seq<char>>|
                #[trigger] upload_plan_for(jobs@, self.backup_paths.deep_view(), dates) && forall|i: int|
                    0 <= i < dates.len() ==> is_day_stamp(#[trigger] dates[i]),
            jobs@.len() == self.backup_paths@.len(),
            forall|i: int|
                0 <= i < jobs@.len() ==> is_clock_stamped_upload(
                    #[trigger] jobs@[i],
                    self.backup_paths.deep_view()[i],
                ),
    {
        let ghost dv = self.backup_paths.deep_view();
        let ghost mut dates: Seq<Seq<char>> = Seq::empty();
        let mut jobs: Vec<UploadJob> = Vec::new();
        let mut i: usize = 0;
        while i < self.backup_paths.len()
            invariant
                dv == self.backup_paths.deep_view(),
                i <= self.backup_paths.len(),
                jobs@.len() == i,
                dates.len() == i,
                forall|j: int| 0 <= j < i ==> is_day_stamp(#[trigger] dates[j]),
                forall|j: int|
                    0 <= j < i ==> {
                        &&& (#[trigger] jobs@[j]).file_name@ == upload_file_name_of(dv[j])
                        &&& jobs@[j].object_path@ == upload_object_path_of(dv[j], dates[j])
                        &&& is_clock_stamped_upload(jobs@[j], dv[j])
                    },
            decreases self.backup_paths.len() - i,
        {
            let day_format = "%Y-%m-%d";
            let day = utc_now_formatted(day_format);
            assert(dv[i as int] == self.backup_paths@[i as int]@);
            let mut job = upload_job(&self.backup_paths[i], day.as_str());
            proof {
                dates = dates.push(day@);
            }
            job.day = Some(day);
            jobs.push(job);
            i = i + 1;
        }
        assert(dv.len() == self.backup_paths@.len());
        assert(upload_plan_for(jobs@, dv, dates));
        jobs
    }
}

/// What came of uploading one tarball: the local file could not be opened,
/// the store refused it, or it was stored.
#[derive(Clone, Copy, Debug, PartialEq, Eq, Structural)]
pub enum UploadOutcome {
    NotOpened,
    NotStored,
    Stored,
}

/// Where an upload stands: the job it takes next, by its index, or finished,
/// or stopped by a file that could not be opened.
#[derive(Clone, Copy, Debug, PartialEq, Eq, Structural)]
pub enum UploadStep {
    Next(usize),
    Finished,
    Aborted,
}

/// The first step of an upload of `total` jobs.
pub open spec fn upload_start(total: nat) -> UploadStep {
    if total == 0 {
        UploadStep::Finished
    } else {
        UploadStep::Next(0)
    }
}

/// The step after job `done` of `total` came to `outcome`: a file that
/// cannot be opened stops the upload; a refused store does not.
pub open spec fn upload_step_after(done: nat, total: nat, outcome: UploadOutcome) -> UploadStep {
    if outcome is NotOpened {
        UploadStep::Aborted
    } else if done + 1 < total {
        UploadStep::Next((done + 1) as usize)
    } else {
        UploadStep::Finished
    }
}

/// Where an upload of `total` jobs stands once `k` outcomes of `outcomes`
/// were handed to it, in order, while it went on.
pub open spec fn upload_step_after_all(total: nat, outcomes: Seq<UploadOutcome>, k: nat) -> UploadStep
    decreases k,
{
    if k == 0 {
        upload_start(total)
    } else {
        match upload_step_after_all(total, outcomes, (k - 1) as nat) {
            UploadStep::Next(j) => upload_step_after(j as nat, total, outcomes[k - 1]),
            other => other,
        }
    }
}

/// The first step of an upload of `total` jobs.
pub fn first_upload_step(total: usize) -> (step: UploadStep)
    ensures
        step == upload_start(total as nat),
{
    if total == 0 {
        UploadStep::Finished
    } else {
        UploadStep::Next(0)
    }
}

/// The step of an upload after job `done` of `total` came to `outcome`.
pub fn next_upload_step(done: usize, total: usize, outcome: UploadOutcome) -> (step: UploadStep)
    requires
        done < total,
    ensures
        step == upload_step_after(done as nat, total as nat, outcome),
{
    match outcome {
        UploadOutcome::NotOpened => UploadStep::Aborted,
        _ => if done + 1 < total {
            UploadStep::Next(done + 1)
        } else {
            UploadStep::Finished
        },
    }
}

/// An upload tries its jobs in order and stops only at a file that cannot be
/// opened: after the outcomes of its first `k` jobs, it takes job `k` next
/// when none of them was an unopened file and jobs are left, it is finished
/// when none was and none are left, and it is aborted as soon as one was.
/// A refused store never stops it.
pub proof fn lemma_upload_stops_only_at_unopened_file(
    total: nat,
    outcomes: Seq<UploadOutcome>,
    k: nat,
)
    requires
        k <= total,
        total <= usize::MAX,
        outcomes.len() == total,
    ensures
        upload_step_after_all(total, outcomes, k) == (if exists|i: int|
            0 <= i < k && #[trigger] outcomes[i] is NotOpened {
            UploadStep::Aborted
        } else if k < total {
            UploadStep::Next(k as usize)
        } else {
            UploadStep::Finished
        }),
    decreases k,
{
    if k > 0 {
        let p = (k - 1) as nat;
        lemma_upload_stops_only_at_unopened_file(total, outcomes, p);
        if exists|i: int| 0 <= i < p && #[trigger] outcomes[i] is NotOpened {
            let i = choose|i: int| 0 <= i < p && #[trigger] outcomes[i] is NotOpened;
            assert(0 <= i < k && outcomes[i] is NotOpened);
        } else if outcomes[p as int] is NotOpened {
            assert(0 <= p < k && outcomes[p as int] is NotOpened);
        } else {
            assert forall|i: int| 0 <= i < k implies !(#[trigger] outcomes[i] is NotOpened) by {
                if i < p {
                } else {
                    assert(i == p);
                }
            }
        }
    }
}

/// Whether a bucket exists, from the status of a HEAD request on it: every
/// answer but 404 counts as "exists".
pub fn exists_from_head_status(status: u16) -> (exists: bool)
    ensures
        exists == (status != 404),
{
    status != 404
}

/// Whether a bucket may be created: only when it does not exist yet.
pub fn check_bucket_absent(exists: bool) -> (r: Result<(), StorageError>)
    ensures
        r is Ok <==> !exists,
        r matches Err(e) ==> e is BucketAlreadyExists,
{
    if exists {
        Err(StorageError::BucketAlreadyExists)
    } else {
        Ok(())
    }
}

/// All the keys of the pages of a listing, page after page.
pub open spec fn flatten_keys(pages: Seq<Seq<Seq<char>>>) -> Seq<Seq<char>>
    decreases pages.len(),
{
    if pages.len() == 0 {
        Seq::empty()
    } else {
        flatten_keys(pages.drop_last()) + pages.last()
    }
}

/// The object keys of a listing, given the keys of each of its pages.
pub fn collect_keys(pages: &Vec<Vec<String>>) -> (keys: Vec<String>)
    ensures
        keys.deep_view() == flatten_keys(pages.deep_view()),
{
    let ghost dv = pages.deep_view();
    let mut keys: Vec<String> = Vec::new();
    let mut i: usize = 0;
    assert(dv.take(0) =~= Seq::<Seq<Seq<char>>>::empty());
    assert(keys.deep_view() =~= flatten_keys(dv.take(0)));
    while i < pages.len()
        invariant
            dv == pages.deep_view(),
            i <= pages.len(),
            keys.deep_view() == flatten_keys(dv.take(i as int)),
        decreases pages.len() - i,
    {
        let page = &pages[i];
        assert(dv[i as int] == page.deep_view());
        let ghost before = keys.deep_view();
        let mut j: usize = 0;
        while j < page.len()
            invariant
                j <= page.len(),
                keys.deep_view() =~= before + page.deep_view().take(j as int),
            decreases page.len() - j,
        {
            let ghost prev = keys.deep_view();
            keys.push(page[j].clone());
            assert(keys.deep_view() =~= prev.push(page@[j as int]@));
            assert(page.deep_view().take(j + 1) =~= page.deep_view().take(j as int).push(
                page@[j as int]@,
            ));
            j = j + 1;
        }
        assert(page.deep_view().take(page.len() as int) =~= page.deep_view());
        assert(dv.take(i + 1).drop_last() =~= dv.take(i as int));
        assert(dv.take(i + 1).last() == dv[i as int]);
        i = i + 1;
    }
    assert(dv.take(pages.len() as int) =~= dv);
    keys
}

} // verus!
