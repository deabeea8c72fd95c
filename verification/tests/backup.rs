use holdmybackup::backup::interface::{next_run_step, BackupInterface, RunStep};
use holdmybackup::backup::{tarball_job, Backup, BackupError};
use holdmybackup::config::config_file::{
    Backup as BackupSection, BackupStrategy, Config, Minio, Storage,
};

fn config_with_paths(paths: &[&str]) -> Config {
    Config {
        backup: BackupSection {
            strategy: BackupStrategy::KeepEverything,
            backup_path: paths.iter().map(|p| p.to_string()).collect(),
        },
        storage: Storage {
            backup_path: "backups".to_string(),
            minio: Some(Minio {
                access_key: "access".to_string(),
                secret_key: "secret".to_string(),
                endpoint: "http://127.0.0.1:9000".to_string(),
                region: "eu-central-1".to_string(),
            }),
        },
    }
}

#[test]
fn folder_name_is_last_path_piece() {
    let job = tarball_job(&"/var/lib/data".to_string());
    assert_eq!(job.path, "/var/lib/data");
    assert_eq!(job.folder_name, "data");
    assert_eq!(job.tar_name, "data.tar.gz");
}

#[test]
fn path_without_slash_is_its_own_folder() {
    let job = tarball_job(&"photos".to_string());
    assert_eq!(job.folder_name, "photos");
    assert_eq!(job.tar_name, "photos.tar.gz");
}

#[test]
fn dot_path_is_archived_as_dot() {
    let job = tarball_job(&".".to_string());
    assert_eq!(job.folder_name, ".");
    assert_eq!(job.tar_name, "..tar.gz");
}

#[test]
fn trailing_slash_gives_empty_folder_name() {
    let job = tarball_job(&"/home/user/".to_string());
    assert_eq!(job.folder_name, "");
    assert_eq!(job.tar_name, ".tar.gz");
}

#[test]
fn plan_archives_every_path_in_order() {
    let backup = Backup(config_with_paths(&["/a/one", "two", "/x/y/three"]));
    let plan = backup.tarball_plan();
    assert!(plan.failed_path.is_none());
    let names: Vec<&str> = plan.jobs.iter().map(|j| j.tar_name.as_str()).collect();
    assert_eq!(names, vec!["one.tar.gz", "two.tar.gz", "three.tar.gz"]);
    let paths: Vec<&str> = plan.jobs.iter().map(|j| j.path.as_str()).collect();
    assert_eq!(paths, vec!["/a/one", "two", "/x/y/three"]);
}

#[test]
fn plan_stops_at_first_empty_folder_name() {
    let backup = Backup(config_with_paths(&["/a/one", "/b/", "/c/three"]));
    let plan = backup.tarball_plan();
    assert_eq!(plan.jobs.len(), 1);
    assert_eq!(plan.jobs[0].folder_name, "one");
    assert_eq!(plan.failed_path, Some("/b/".to_string()));
}

#[test]
fn plan_of_no_paths_is_empty() {
    let backup = Backup(config_with_paths(&[]));
    let plan = backup.tarball_plan();
    assert!(plan.jobs.is_empty());
    assert!(plan.failed_path.is_none());
}

#[test]
fn empty_path_fails_the_run() {
    let backup = Backup(config_with_paths(&[""]));
    let plan = backup.tarball_plan();
    assert!(plan.jobs.is_empty());
    assert_eq!(plan.failed_path, Some(String::new()));
}

#[test]
fn empty_folder_error_message() {
    let e = BackupError::EmptyFolderName("/b/".to_string());
    assert_eq!(e.message(), "File is empty!");
}

#[test]
fn interface_keeps_its_config() {
    let cfg = config_with_paths(&["/srv"]);
    let interface = BackupInterface::init(cfg);
    assert_eq!(interface.0.backup.backup_path, vec!["/srv".to_string()]);
    assert_eq!(interface.0.storage.backup_path, "backups");
}

#[test]
fn check_create_tarball() {
    // The sample configuration: the current folder is backed up.
    let backup = Backup(config_with_paths(&["."]));
    let plan = backup.tarball_plan();
    assert!(plan.failed_path.is_none());
    assert_eq!(plan.jobs.len(), 1);
    assert_eq!(plan.jobs[0].path, ".");
    assert_eq!(plan.jobs[0].tar_name, "..tar.gz");
}

#[test]
fn run_goes_through_its_steps() {
    let mut step = RunStep::WriteTarballs;
    let mut seen = vec![step];
    for ok in [false, true, false, false] {
        step = next_run_step(step, ok);
        seen.push(step);
    }
    assert_eq!(
        seen,
        vec![
            RunStep::WriteTarballs,
            RunStep::SetUpStore,
            RunStep::Upload,
            RunStep::RemoveTarballs,
            RunStep::Done
        ]
    );
    assert_eq!(next_run_step(RunStep::Done, false), RunStep::Done);
}

#[test]
fn run_fails_when_store_cannot_be_set_up() {
    let step = next_run_step(RunStep::WriteTarballs, true);
    let step = next_run_step(step, false);
    assert_eq!(step, RunStep::Failed);
    assert_eq!(next_run_step(step, true), RunStep::Failed);
}
