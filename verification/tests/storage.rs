use holdmybackup::backup::Backup;
use holdmybackup::config::config_file::{
    Backup as BackupSection, BackupStrategy, Config, Minio, Storage,
};
use holdmybackup::storage::minio::{
    check_bucket_absent, collect_keys, exists_from_head_status, first_upload_step,
    next_upload_step, upload_job, MinioStore, UploadOutcome, UploadStep,
};
use holdmybackup::storage::model::ResponseModel;
use holdmybackup::storage::{ObjectStorage, StorageError};

fn config(minio: Option<Minio>, paths: &[&str]) -> Config {
    Config {
        backup: BackupSection {
            strategy: BackupStrategy::KeepLastN(3),
            backup_path: paths.iter().map(|p| p.to_string()).collect(),
        },
        storage: Storage { backup_path: "backups".to_string(), minio },
    }
}

fn minio() -> Minio {
    Minio {
        access_key: "minioadmin".to_string(),
        secret_key: "SECRET-REDACTED".to_string(),
        endpoint: "http://127.0.0.1:9000".to_string(),
        region: "us-east-1".to_string(),
    }
}

#[test]
fn minio_store_from_config() {
    let store = MinioStore::init(&config(Some(minio()), &["/data/a", "b"])).unwrap();
    let fields = store.bucket.fields();
    assert_eq!(fields.name, "backups");
    assert_eq!(
        fields.custom_region,
        Some(("us-east-1".to_string(), "http://127.0.0.1:9000".to_string()))
    );
    assert_eq!(fields.credentials.0, Some("minioadmin".to_string()));
    assert_eq!(fields.credentials.1, Some("SECRET-REDACTED".to_string()));
    assert_eq!(fields.credentials.2, None);
    assert_eq!(fields.credentials.3, None);
    assert!(fields.path_style);
    assert_eq!(store.backup_paths, vec!["/data/a".to_string(), "b".to_string()]);
    let bucket = store.bucket.bucket();
    assert_eq!(bucket.name, "backups");
    assert_eq!(bucket.credentials.access_key, Some("minioadmin".to_string()));
    assert_eq!(bucket.credentials.security_token, None);
    assert_eq!(bucket.credentials.session_token, None);
    assert!(bucket.is_path_style());
}

#[test]
fn minio_store_needs_minio_config() {
    match MinioStore::init(&config(None, &["/data/a"])) {
        Err(e) => {
            assert!(matches!(e, StorageError::MissingMinioConfig));
            assert_eq!(e.message(), "Trying to create minio without a configuration.");
        }
        Ok(_) => panic!("a store without minio settings"),
    }
}

#[test]
fn upload_job_names_file_and_key() {
    let job = upload_job(&"/var/backups/db".to_string(), "2021-09-12");
    assert_eq!(job.file_name, "db.tar.gz");
    assert_eq!(job.object_path, "db/db-2021-09-12.tar.gz");
}

#[test]
fn upload_job_of_trailing_slash() {
    let job = upload_job(&"/var/".to_string(), "2021-09-12");
    assert_eq!(job.file_name, ".tar.gz");
    assert_eq!(job.object_path, "/-2021-09-12.tar.gz");
}

#[test]
fn upload_jobs_follow_the_backup_paths() {
    let store = MinioStore::init(&config(Some(minio()), &["/p/one", "/p/two"])).unwrap();
    let jobs = store.upload_jobs();
    assert_eq!(jobs.len(), 2);
    assert_eq!(jobs[0].file_name, "one.tar.gz");
    assert_eq!(jobs[1].file_name, "two.tar.gz");
    let date0 = jobs[0].object_path.strip_prefix("one/one-").unwrap().strip_suffix(".tar.gz").unwrap();
    let date1 = jobs[1].object_path.strip_prefix("two/two-").unwrap().strip_suffix(".tar.gz").unwrap();
    for date in [date0, date1] {
        assert_eq!(date.len(), 10);
        assert_eq!(&date[4..5], "-");
        assert_eq!(&date[7..8], "-");
        assert!(date.chars().enumerate().all(|(i, c)| i == 4 || i == 7 || c.is_ascii_digit()));
    }
}

#[test]
fn upload_key_folder_is_tarball_folder() {
    let cfg = config(Some(minio()), &["/srv/www", "/etc/"]);
    let plan = Backup(cfg.clone()).tarball_plan();
    let job = upload_job(&cfg.backup.backup_path[0], "2022-02-02");
    assert_eq!(plan.jobs.len(), 1);
    assert_eq!(plan.jobs[0].folder_name, "www");
    assert_eq!(job.file_name, plan.jobs[0].tar_name);
    assert_eq!(job.object_path, "www/www-2022-02-02.tar.gz");
}

#[test]
fn bucket_exists_unless_not_found() {
    assert!(!exists_from_head_status(404));
    assert!(exists_from_head_status(200));
    assert!(exists_from_head_status(403));
    assert!(exists_from_head_status(500));
}

#[test]
fn bucket_created_only_when_absent() {
    assert!(check_bucket_absent(false).is_ok());
    match check_bucket_absent(true) {
        Err(e) => assert_eq!(e.message(), "Bucket already exists."),
        Ok(()) => panic!("an existing bucket would be created again"),
    }
}

#[test]
fn listing_keys_in_page_order() {
    let pages = vec![
        vec!["a/a-1.tar.gz".to_string(), "b/b-1.tar.gz".to_string()],
        vec![],
        vec!["c/c-2.tar.gz".to_string()],
    ];
    let keys = collect_keys(&pages);
    assert_eq!(keys, vec!["a/a-1.tar.gz", "b/b-1.tar.gz", "c/c-2.tar.gz"]);
    assert!(collect_keys(&vec![]).is_empty());
}

#[test]
fn response_model_holds_list() {
    let m = ResponseModel { list: Some(vec!["k".to_string()]) };
    assert_eq!(m.list.unwrap(), vec!["k".to_string()]);
}

#[test]
fn upload_goes_on_after_a_refused_store() {
    assert_eq!(first_upload_step(0), UploadStep::Finished);
    assert_eq!(first_upload_step(3), UploadStep::Next(0));
    assert_eq!(next_upload_step(0, 3, UploadOutcome::NotStored), UploadStep::Next(1));
    assert_eq!(next_upload_step(1, 3, UploadOutcome::Stored), UploadStep::Next(2));
    assert_eq!(next_upload_step(2, 3, UploadOutcome::NotStored), UploadStep::Finished);
}

#[test]
fn upload_stops_at_unopened_file() {
    assert_eq!(next_upload_step(0, 3, UploadOutcome::NotOpened), UploadStep::Aborted);
    assert_eq!(next_upload_step(2, 3, UploadOutcome::NotOpened), UploadStep::Aborted);
}
