use crev_util::store::{
    dirs_created, replaced, store_str_to_file, store_to_file_with, temp_written, Payload,
    StoreJob, StoreStep, EXTENSION_MARK, TEMP_EXTENSION,
};
use std::collections::BTreeMap;

fn job_of(step: Option<StoreStep<String>>) -> StoreJob {
    match step {
        Some(StoreStep::CreateDirs { job }) => job,
        other => panic!("unexpected first step {:?}", other),
    }
}

#[test]
fn the_temporary_extension() {
    assert_eq!(TEMP_EXTENSION, "tmp");
    assert_eq!(EXTENSION_MARK, ".");
}

#[test]
fn the_job_names_the_parent_and_the_sibling() {
    let job = job_of(store_str_to_file("/home/user/proofs/review.yaml", "text"));
    assert_eq!(job.target, "/home/user/proofs/review.yaml");
    assert_eq!(job.dir, "/home/user/proofs");
    assert_eq!(job.temp, "/home/user/proofs/review.tmp");
    assert_eq!(job.payload, Payload::Bytes(vec![b't', b'e', b'x', b't']));
}

#[test]
fn a_bare_file_name_has_the_empty_parent() {
    let job = job_of(store_str_to_file("notes.txt", ""));
    assert_eq!(job.target, "notes.txt");
    assert_eq!(job.dir, "");
    assert_eq!(job.temp, "notes.tmp");
    assert_eq!(job.payload, Payload::Bytes(vec![]));
}

#[test]
fn a_name_without_extension_gets_one() {
    let job = job_of(store_str_to_file("dir/ids", "x"));
    assert_eq!(job.dir, "dir");
    assert_eq!(job.temp, "dir/ids.tmp");
}

#[test]
fn only_the_last_extension_is_replaced() {
    let job = job_of(store_to_file_with("a/b.tar.gz"));
    assert_eq!(job.temp, "a/b.tar.tmp");
    assert_eq!(job.payload, Payload::Routine);
}

#[test]
fn a_root_and_the_empty_path_cannot_be_stored_to() {
    assert_eq!(store_str_to_file::<String>("/", "text"), None);
    assert_eq!(store_str_to_file::<String>("", "text"), None);
    assert_eq!(store_to_file_with::<String>("/"), None);
    assert_eq!(store_to_file_with::<String>(""), None);
}

#[test]
fn a_target_with_the_temporary_extension_gets_another_sibling() {
    let job = job_of(store_str_to_file("cache/data.tmp", "x"));
    assert_eq!(job.target, "cache/data.tmp");
    assert_eq!(job.dir, "cache");
    assert_eq!(job.temp, "cache/data.tmp.tmp");
    let job = job_of(store_to_file_with("tmp.tmp"));
    assert_eq!(job.temp, "tmp.tmp.tmp");
}

#[test]
fn a_target_without_a_file_name_gets_a_sibling_too() {
    let job = job_of(store_str_to_file("a/..", "x"));
    assert_eq!(job.dir, "a");
    assert_eq!(job.temp, "a/...tmp");
}

#[test]
fn the_temporary_file_is_never_the_target() {
    for path in [
        "f", "f.tmp", ".tmp", "tmp", "a/b.txt", "a/b.tmp", "a/b.TMP", "/x/y.tar.tmp", "a/..",
        "a/.", "./f.tmp", "a.tmp/b", "d/f.tmp.tmp",
    ] {
        let job = job_of(store_str_to_file(path, ""));
        assert_eq!(job.target, path);
        assert_ne!(job.temp, job.target, "path {:?}", path);
    }
}

#[test]
fn text_is_stored_as_its_utf8_bytes() {
    let job = job_of(store_str_to_file("a/b", "é€"));
    assert_eq!(job.payload, Payload::Bytes(vec![0xc3, 0xa9, 0xe2, 0x82, 0xac]));
}

fn sample_job() -> StoreJob {
    job_of(store_str_to_file("/d/f.txt", "new"))
}

#[test]
fn the_temporary_file_is_written_whether_or_not_the_directories_were_created() {
    let step: StoreStep<String> = dirs_created(sample_job(), Ok(()));
    assert_eq!(step, StoreStep::WriteTemp { job: sample_job() });
    let step: StoreStep<String> = dirs_created(sample_job(), Err("denied".to_string()));
    assert_eq!(step, StoreStep::WriteTemp { job: sample_job() });
}

#[test]
fn the_target_is_replaced_after_a_complete_write() {
    let step: StoreStep<String> = temp_written(sample_job(), Ok(()));
    assert_eq!(step, StoreStep::Replace { job: sample_job() });
}

#[test]
fn a_failed_write_ends_the_store_before_the_rename() {
    let step: StoreStep<String> = temp_written(sample_job(), Err("disk full".to_string()));
    assert_eq!(step, StoreStep::Finished { result: Err("disk full".to_string()) });
}

#[test]
fn the_store_ends_as_the_rename_did() {
    let step: StoreStep<String> = replaced(Ok(()));
    assert_eq!(step, StoreStep::Finished { result: Ok(()) });
    let step: StoreStep<String> = replaced(Err("cross-device link".to_string()));
    assert_eq!(step, StoreStep::Finished { result: Err("cross-device link".to_string()) });
}

/// Files in memory, and a point at which the machine stops.
struct Disk {
    files: BTreeMap<String, Vec<u8>>,
    dirs: Vec<String>,
}

/// Where a run of a store is cut short.
#[derive(Debug, Clone, Copy, PartialEq, Eq)]
enum Stop {
    Never,
    /// The write fails after this many bytes.
    WriteFailsAfter(usize),
    /// The machine crashes after the write, before the rename.
    CrashBeforeRename,
    RenameFails,
}

impl Disk {
    fn new() -> Disk {
        Disk { files: BTreeMap::new(), dirs: Vec::new() }
    }

    /// Performs the steps of a store; `None` stands for a crash.
    fn run(&mut self, first: Option<StoreStep<String>>, stop: Stop) -> Option<Result<(), String>> {
        let mut step = first.expect("a path with a parent");
        loop {
            step = match step {
                StoreStep::CreateDirs { job } => {
                    self.dirs.push(job.dir.clone());
                    dirs_created(job, Ok(()))
                }
                StoreStep::WriteTemp { job } => {
                    let bytes = match &job.payload {
                        Payload::Bytes(bytes) => bytes.clone(),
                        Payload::Routine => b"from the routine".to_vec(),
                    };
                    self.files.insert(job.temp.clone(), Vec::new());
                    match stop {
                        Stop::WriteFailsAfter(n) => {
                            self.files.insert(job.temp.clone(), bytes[..n].to_vec());
                            temp_written(job, Err("disk full".to_string()))
                        }
                        _ => {
                            self.files.insert(job.temp.clone(), bytes);
                            temp_written(job, Ok(()))
                        }
                    }
                }
                StoreStep::Replace { job } => match stop {
                    Stop::CrashBeforeRename => return None,
                    Stop::RenameFails => replaced(Err("busy".to_string())),
                    _ => {
                        let bytes = self.files.remove(&job.temp).expect("a temporary file");
                        self.files.insert(job.target.clone(), bytes);
                        replaced(Ok(()))
                    }
                },
                StoreStep::Finished { result } => return Some(result),
            }
        }
    }

    fn read(&self, path: &str) -> Option<&[u8]> {
        self.files.get(path).map(|bytes| bytes.as_slice())
    }
}

#[test]
fn a_store_leaves_the_content_and_no_temporary_file() {
    let mut disk = Disk::new();
    assert_eq!(disk.run(store_str_to_file("/d/f.txt", "A"), Stop::Never), Some(Ok(())));
    assert_eq!(disk.read("/d/f.txt"), Some(&b"A"[..]));
    assert_eq!(disk.read("/d/f.tmp"), None);
    assert_eq!(disk.dirs, vec!["/d".to_string()]);
}

#[test]
fn the_second_of_two_stores_wins() {
    let mut disk = Disk::new();
    assert_eq!(disk.run(store_str_to_file("/d/f.txt", "A"), Stop::Never), Some(Ok(())));
    assert_eq!(disk.run(store_str_to_file("/d/f.txt", "B"), Stop::Never), Some(Ok(())));
    assert_eq!(disk.read("/d/f.txt"), Some(&b"B"[..]));
    assert_eq!(disk.read("/d/f.tmp"), None);
    assert_eq!(disk.files.len(), 1);
}

#[test]
fn storing_the_same_content_again_changes_nothing() {
    let mut disk = Disk::new();
    assert_eq!(disk.run(store_str_to_file("/d/f.txt", "A"), Stop::Never), Some(Ok(())));
    let once = disk.files.clone();
    assert_eq!(disk.run(store_str_to_file("/d/f.txt", "A"), Stop::Never), Some(Ok(())));
    assert_eq!(disk.files, once);
}

#[test]
fn a_crash_before_the_rename_leaves_the_old_content() {
    let mut disk = Disk::new();
    assert_eq!(disk.run(store_str_to_file("/d/f.txt", "old"), Stop::Never), Some(Ok(())));
    assert_eq!(disk.run(store_str_to_file("/d/f.txt", "new"), Stop::CrashBeforeRename), None);
    assert_eq!(disk.read("/d/f.txt"), Some(&b"old"[..]));
}

#[test]
fn a_crash_before_the_first_rename_leaves_no_file() {
    let mut disk = Disk::new();
    assert_eq!(disk.run(store_str_to_file("/d/f.txt", "new"), Stop::CrashBeforeRename), None);
    assert_eq!(disk.read("/d/f.txt"), None);
}

#[test]
fn a_failed_write_leaves_the_old_content_and_is_reported() {
    let mut disk = Disk::new();
    assert_eq!(disk.run(store_str_to_file("/d/f.txt", "old"), Stop::Never), Some(Ok(())));
    assert_eq!(
        disk.run(store_str_to_file("/d/f.txt", "newer"), Stop::WriteFailsAfter(2)),
        Some(Err("disk full".to_string()))
    );
    assert_eq!(disk.read("/d/f.txt"), Some(&b"old"[..]));
    assert_eq!(disk.read("/d/f.tmp"), Some(&b"ne"[..]));
}

#[test]
fn a_failed_rename_leaves_the_old_content_and_is_reported() {
    let mut disk = Disk::new();
    assert_eq!(disk.run(store_str_to_file("/d/f.txt", "old"), Stop::Never), Some(Ok(())));
    assert_eq!(
        disk.run(store_str_to_file("/d/f.txt", "new"), Stop::RenameFails),
        Some(Err("busy".to_string()))
    );
    assert_eq!(disk.read("/d/f.txt"), Some(&b"old"[..]));
}

#[test]
fn a_routine_writes_through_the_same_steps() {
    let mut disk = Disk::new();
    assert_eq!(disk.run(store_to_file_with("/d/f.bin"), Stop::Never), Some(Ok(())));
    assert_eq!(disk.read("/d/f.bin"), Some(&b"from the routine"[..]));
    assert_eq!(disk.read("/d/f.tmp"), None);
}

#[test]
fn a_target_with_the_temporary_extension_is_stored_like_any_other() {
    let mut disk = Disk::new();
    assert_eq!(disk.run(store_str_to_file("/d/f.tmp", "A"), Stop::Never), Some(Ok(())));
    assert_eq!(disk.read("/d/f.tmp"), Some(&b"A"[..]));
    assert_eq!(disk.files.len(), 1);
    assert_eq!(disk.run(store_str_to_file("/d/f.tmp", "B"), Stop::CrashBeforeRename), None);
    assert_eq!(disk.read("/d/f.tmp"), Some(&b"A"[..]));
    assert_eq!(
        disk.run(store_str_to_file("/d/f.tmp", "newer"), Stop::WriteFailsAfter(2)),
        Some(Err("disk full".to_string()))
    );
    assert_eq!(disk.read("/d/f.tmp"), Some(&b"A"[..]));
    assert_eq!(disk.read("/d/f.tmp.tmp"), Some(&b"ne"[..]));
    assert_eq!(disk.run(store_str_to_file("/d/f.tmp", "B"), Stop::Never), Some(Ok(())));
    assert_eq!(disk.read("/d/f.tmp"), Some(&b"B"[..]));
    assert_eq!(disk.read("/d/f.tmp.tmp"), None);
}

#[test]
fn a_routine_that_fails_leaves_the_old_content() {
    let mut disk = Disk::new();
    assert_eq!(disk.run(store_str_to_file("/d/f.bin", "old"), Stop::Never), Some(Ok(())));
    assert_eq!(
        disk.run(store_to_file_with("/d/f.bin"), Stop::WriteFailsAfter(4)),
        Some(Err("disk full".to_string()))
    );
    assert_eq!(disk.read("/d/f.bin"), Some(&b"old"[..]));
    assert_eq!(disk.read("/d/f.tmp"), Some(&b"from"[..]));
}
