use safe_backup::backup::Backup;
use safe_backup::cli::{Cli, Commands, Operation};
use safe_backup::delete::Delete;
use safe_backup::error::{ErrorKind, OpError};
use safe_backup::guard::FileKind;
use safe_backup::protocol::{Fault, Reply, Request, Step};
use safe_backup::restore::Restore;
use std::collections::BTreeMap;

const CWD: &str = "/work";

#[derive(Clone, Debug, PartialEq)]
enum Node {
    File(Vec<u8>),
    Dir,
    Symlink(String),
}

/// A file system in memory that answers requests as a real one would.
struct Disk {
    nodes: BTreeMap<String, Node>,
    seen: Vec<Request>,
}

fn failed(fault: Fault, detail: &str) -> Reply {
    Reply::Failed { fault, detail: detail.to_string() }
}

fn ancestors(path: &str) -> Vec<String> {
    let mut out = vec!["/".to_string()];
    let mut current = String::new();
    for part in path.split('/').filter(|p| !p.is_empty()) {
        current.push('/');
        current.push_str(part);
        out.push(current.clone());
    }
    out
}

impl Disk {
    fn new() -> Disk {
        let mut nodes = BTreeMap::new();
        nodes.insert("/".to_string(), Node::Dir);
        Disk { nodes, seen: Vec::new() }
    }

    fn with_dir(mut self, path: &str) -> Disk {
        for dir in ancestors(path) {
            self.nodes.insert(dir, Node::Dir);
        }
        self
    }

    fn with_file(mut self, path: &str, content: &[u8]) -> Disk {
        self.nodes.insert(path.to_string(), Node::File(content.to_vec()));
        self
    }

    fn with_symlink(mut self, path: &str, to: &str) -> Disk {
        self.nodes.insert(path.to_string(), Node::Symlink(to.to_string()));
        self
    }

    fn follow(&self, path: &str) -> Option<&Node> {
        match self.nodes.get(path) {
            Some(Node::Symlink(to)) => self.follow(to),
            other => other,
        }
    }

    fn content(&self, path: &str) -> Option<Vec<u8>> {
        match self.nodes.get(path) {
            Some(Node::File(bytes)) => Some(bytes.clone()),
            _ => None,
        }
    }

    fn perform(&mut self, request: &Request) -> Reply {
        self.seen.push(request.clone());
        match request {
            Request::Inspect { path } => match self.nodes.get(path) {
                Some(Node::File(_)) => Reply::Metadata(FileKind::Regular),
                Some(Node::Dir) => Reply::Metadata(FileKind::Directory),
                Some(Node::Symlink(_)) => Reply::Metadata(FileKind::Symlink),
                None => failed(Fault::Other, "No such file or directory (os error 2)"),
            },
            Request::MakeDirs { path } => {
                for dir in ancestors(path) {
                    match self.follow(&dir) {
                        Some(Node::Dir) => {}
                        Some(_) => return failed(Fault::Other, "Not a directory (os error 20)"),
                        None => {
                            self.nodes.insert(dir, Node::Dir);
                        }
                    }
                }
                Reply::Done
            }
            Request::Probe { path } => Reply::Exists(self.follow(path).is_some()),
            Request::CopyNew { from, to } => {
                let bytes = match self.follow(from) {
                    Some(Node::File(bytes)) => bytes.clone(),
                    _ => return failed(Fault::Other, "No such file or directory (os error 2)"),
                };
                if self.nodes.contains_key(to) {
                    return failed(Fault::AlreadyExists, "File exists (os error 17)");
                }
                self.nodes.insert(to.clone(), Node::File(bytes));
                Reply::Done
            }
            Request::Remove { path } => match self.nodes.remove(path) {
                Some(_) => Reply::Done,
                None => failed(Fault::Other, "No such file or directory (os error 2)"),
            },
        }
    }

    fn drive(&mut self, mut step: Step<Operation>) -> Result<String, OpError> {
        loop {
            match step {
                Step::Perform(state) => {
                    let reply = self.perform(&state.request());
                    step = state.advance(reply);
                }
                Step::Completed(event) => return Ok(event),
                Step::Failed(error) => return Err(error),
            }
        }
    }

    fn backup(&mut self, src: &str, dest: &str) -> Result<String, OpError> {
        let command = Commands::Backup { src: src.to_string(), dest: dest.to_string() };
        self.drive(Operation::start(&command, Some(CWD)))
    }

    fn restore(&mut self, backup: &str, target: &str) -> Result<String, OpError> {
        let command = Commands::Restore { backup: backup.to_string(), target: target.to_string() };
        self.drive(Operation::start(&command, Some(CWD)))
    }

    fn delete(&mut self, file: &str) -> Result<String, OpError> {
        let command = Commands::Delete { file: file.to_string() };
        self.drive(Operation::start(&command, Some(CWD)))
    }
}

fn inspect(path: &str) -> Request {
    Request::Inspect { path: path.to_string() }
}

fn backup_state(src: &str, dest: &str) -> Backup {
    match Backup::start(src, dest, Some(CWD)) {
        Step::Perform(state) => state,
        other => panic!("backup did not start: {:?}", other),
    }
}

fn restore_state(backup: &str, target: &str) -> Restore {
    match Restore::start(backup, target, Some(CWD)) {
        Step::Perform(state) => state,
        other => panic!("restore did not start: {:?}", other),
    }
}

fn delete_state(file: &str) -> Delete {
    match Delete::start(file, Some(CWD)) {
        Step::Perform(state) => state,
        other => panic!("delete did not start: {:?}", other),
    }
}

fn next<S: std::fmt::Debug>(step: Step<S>) -> S {
    match step {
        Step::Perform(state) => state,
        other => panic!("the operation ended: {:?}", other),
    }
}

fn error_of<S: std::fmt::Debug>(step: Step<S>) -> OpError {
    match step {
        Step::Failed(error) => error,
        other => panic!("the operation did not fail: {:?}", other),
    }
}

#[test]
fn valid_backup_restore_delete_cycle() {
    let mut disk = Disk::new()
        .with_dir("/tmp/dir")
        .with_file("/tmp/dir/sample.txt", b"hello safe backup\n");

    assert!(disk.backup("/tmp/dir/sample.txt", "/tmp/dir/sample.txt.bak").is_ok());
    assert!(disk.restore("/tmp/dir/sample.txt.bak", "/tmp/dir/restored").is_ok());

    let restored = "/tmp/dir/restored/sample.txt";
    assert!(disk.nodes.contains_key(restored));
    let content = String::from_utf8(disk.content(restored).unwrap()).unwrap();
    assert!(content.contains("hello safe backup"));

    assert!(disk.delete(restored).is_ok());
    assert!(!disk.nodes.contains_key(restored));
}

#[test]
fn symlink_and_directory_deletion_prevented() {
    let mut disk = Disk::new()
        .with_dir("/tmp/dir")
        .with_file("/tmp/dir/file.txt", b"")
        .with_symlink("/tmp/dir/link.txt", "/tmp/dir/file.txt")
        .with_dir("/tmp/dir/subdir");

    let error = disk.delete("/tmp/dir/link.txt").unwrap_err();
    assert!(error.message().contains("Refusing to delete symlink"));

    let error = disk.delete("/tmp/dir/subdir").unwrap_err();
    assert!(error.message().contains("not a regular file"));
}

#[test]
fn concrete_scenario() {
    let mut disk = Disk::new().with_dir("/tmp/t").with_file("/tmp/t/sample.txt", b"hello");

    let event = disk.backup("/tmp/t/sample.txt", "/tmp/t/sample.txt.bak").unwrap();
    assert_eq!(event, "Backup completed: /tmp/t/sample.txt \u{2192} /tmp/t/sample.txt.bak");
    assert_eq!(disk.content("/tmp/t/sample.txt.bak"), Some(b"hello".to_vec()));

    let event = disk.restore("/tmp/t/sample.txt.bak", "/tmp/t/restored").unwrap();
    assert_eq!(
        event,
        "Restore completed: /tmp/t/sample.txt.bak \u{2192} /tmp/t/restored/sample.txt"
    );
    assert_eq!(disk.content("/tmp/t/restored/sample.txt"), Some(b"hello".to_vec()));

    let event = disk.delete("/tmp/t/restored/sample.txt").unwrap();
    assert_eq!(event, "Deleted file: /tmp/t/restored/sample.txt");
    assert!(!disk.nodes.contains_key("/tmp/t/restored/sample.txt"));
    assert_eq!(disk.content("/tmp/t/sample.txt"), Some(b"hello".to_vec()));
}

#[test]
fn round_trip_restores_the_same_bytes_under_the_same_name() {
    let bytes: Vec<u8> = (0..=255).collect();
    let mut disk = Disk::new().with_dir("/data").with_file("/data/report.tar.gz", &bytes);
    disk.backup("/data/report.tar.gz", "/data/report.tar.gz.bak").unwrap();
    disk.restore("/data/report.tar.gz.bak", "/elsewhere/deep").unwrap();
    assert_eq!(disk.content("/elsewhere/deep/report.tar.gz"), Some(bytes));
}

#[test]
fn backup_asks_in_a_fixed_order() {
    let mut disk = Disk::new().with_dir("/tmp/t").with_file("/tmp/t/a.txt", b"x");
    disk.backup("/tmp/t/a.txt", "/tmp/out/a.txt.bak").unwrap();
    assert_eq!(
        disk.seen,
        vec![
            inspect("/tmp/t/a.txt"),
            Request::MakeDirs { path: "/tmp/out".to_string() },
            Request::Probe { path: "/tmp/out/a.txt.bak".to_string() },
            Request::CopyNew {
                from: "/tmp/t/a.txt".to_string(),
                to: "/tmp/out/a.txt.bak".to_string()
            },
        ]
    );
}

#[test]
fn restore_asks_in_a_fixed_order() {
    let mut disk = Disk::new().with_dir("/tmp/t").with_file("/tmp/t/a.txt.bak", b"x");
    disk.restore("/tmp/t/a.txt.bak", "/tmp/back").unwrap();
    assert_eq!(
        disk.seen,
        vec![
            inspect("/tmp/t/a.txt.bak"),
            Request::MakeDirs { path: "/tmp/back".to_string() },
            Request::Probe { path: "/tmp/back/a.txt".to_string() },
            Request::CopyNew {
                from: "/tmp/t/a.txt.bak".to_string(),
                to: "/tmp/back/a.txt".to_string()
            },
        ]
    );
}

#[test]
fn delete_asks_in_a_fixed_order() {
    let mut disk = Disk::new().with_dir("/tmp/t").with_file("/tmp/t/a.txt", b"x");
    disk.delete("/tmp/t/a.txt").unwrap();
    assert_eq!(
        disk.seen,
        vec![inspect("/tmp/t/a.txt"), Request::Remove { path: "/tmp/t/a.txt".to_string() }]
    );
}

#[test]
fn relative_paths_are_taken_from_the_working_directory() {
    let mut disk = Disk::new().with_dir("/work").with_file("/work/a.txt", b"x");
    disk.backup("a.txt", "./saved/../saved/a.txt.bak").unwrap();
    assert_eq!(disk.content("/work/saved/a.txt.bak"), Some(b"x".to_vec()));
}

#[test]
fn backup_does_not_overwrite() {
    let mut disk = Disk::new()
        .with_dir("/tmp/t")
        .with_file("/tmp/t/a.txt", b"new")
        .with_file("/tmp/t/a.txt.bak", b"old");
    let error = disk.backup("/tmp/t/a.txt", "/tmp/t/a.txt.bak").unwrap_err();
    assert_eq!(error.kind, ErrorKind::AlreadyExists);
    assert_eq!(error.message, "Backup file already exists: /tmp/t/a.txt.bak");
    assert_eq!(disk.content("/tmp/t/a.txt.bak"), Some(b"old".to_vec()));
    assert!(!disk.seen.iter().any(|r| matches!(r, Request::CopyNew { .. })));
}

#[test]
fn restore_does_not_overwrite() {
    let mut disk = Disk::new()
        .with_dir("/tmp/t")
        .with_file("/tmp/t/a.txt", b"current")
        .with_file("/tmp/t/a.txt.bak", b"saved");
    let error = disk.restore("/tmp/t/a.txt.bak", "/tmp/t").unwrap_err();
    assert_eq!(error.kind, ErrorKind::AlreadyExists);
    assert_eq!(error.message, "Destination file already exists: /tmp/t/a.txt");
    assert_eq!(disk.content("/tmp/t/a.txt"), Some(b"current".to_vec()));
}

#[test]
fn exclusive_creation_has_the_last_word() {
    let mut disk = Disk::new()
        .with_dir("/tmp/t")
        .with_file("/tmp/t/a.txt", b"new")
        .with_symlink("/tmp/t/a.txt.bak", "/tmp/t/nowhere");
    let error = disk.backup("/tmp/t/a.txt", "/tmp/t/a.txt.bak").unwrap_err();
    assert_eq!(error.kind, ErrorKind::AlreadyExists);
    assert_eq!(error.message, "File exists (os error 17)");
    assert_eq!(
        disk.nodes.get("/tmp/t/a.txt.bak"),
        Some(&Node::Symlink("/tmp/t/nowhere".to_string()))
    );
}

#[test]
fn a_race_for_the_destination_is_already_exists() {
    let state = backup_state("/tmp/a.txt", "/tmp/a.txt.bak");
    let state = next(state.advance(Reply::Metadata(FileKind::Regular)));
    let state = next(state.advance(Reply::Done));
    let state = next(state.advance(Reply::Exists(false)));
    let error = error_of(state.advance(failed(Fault::AlreadyExists, "File exists (os error 17)")));
    assert_eq!(error.kind, ErrorKind::AlreadyExists);

    let state = restore_state("/tmp/a.txt.bak", "/tmp/r");
    let state = next(state.advance(Reply::Metadata(FileKind::Regular)));
    let state = next(state.advance(Reply::Done));
    let state = next(state.advance(Reply::Exists(false)));
    let error = error_of(state.advance(failed(Fault::AlreadyExists, "File exists (os error 17)")));
    assert_eq!(error.kind, ErrorKind::AlreadyExists);
}

#[test]
fn a_copy_that_fails_otherwise_is_an_io_failure() {
    let state = backup_state("/tmp/a.txt", "/tmp/a.txt.bak");
    let state = next(state.advance(Reply::Metadata(FileKind::Regular)));
    let state = next(state.advance(Reply::Done));
    let state = next(state.advance(Reply::Exists(false)));
    let error = error_of(state.advance(failed(Fault::Other, "No space left on device")));
    assert_eq!(error, OpError::new(ErrorKind::IoFailure, "No space left on device".to_string()));
}

#[test]
fn extension_is_enforced_before_anything_is_created() {
    let mut disk = Disk::new().with_dir("/work").with_file("/work/src.txt", b"x");
    let before = disk.nodes.clone();
    let error = disk.backup("src.txt", "x/evil").unwrap_err();
    assert_eq!(error.kind, ErrorKind::ExtensionMismatch);
    assert_eq!(error.message, "Destination must have a `.bak` extension: /work/x/evil");
    assert_eq!(disk.nodes, before);
    assert_eq!(disk.seen, vec![inspect("/work/src.txt")]);

    assert!(disk.backup("src.txt", "x/evil.bak").is_ok());
    assert_eq!(disk.content("/work/x/evil.bak"), Some(b"x".to_vec()));
}

#[test]
fn restore_enforces_the_extension() {
    let mut disk = Disk::new().with_dir("/tmp/t").with_file("/tmp/t/a.txt", b"x");
    let before = disk.nodes.clone();
    let error = disk.restore("/tmp/t/a.txt", "/tmp/r").unwrap_err();
    assert_eq!(error.kind, ErrorKind::ExtensionMismatch);
    assert_eq!(error.message, "Backup file does not have a `.bak` extension: /tmp/t/a.txt");
    assert_eq!(disk.nodes, before);
}

#[test]
fn the_extension_is_case_sensitive() {
    let mut disk = Disk::new().with_dir("/tmp/t").with_file("/tmp/t/a.txt", b"x");
    let error = disk.backup("/tmp/t/a.txt", "/tmp/t/a.txt.BAK").unwrap_err();
    assert_eq!(error.kind, ErrorKind::ExtensionMismatch);
}

#[test]
fn directories_are_rejected() {
    let mut disk = Disk::new().with_dir("/tmp/t/dir");
    let before = disk.nodes.clone();

    let error = disk.delete("/tmp/t/dir").unwrap_err();
    assert_eq!(error.kind, ErrorKind::WrongFileType);
    assert_eq!(error.message, "Path is not a regular file: /tmp/t/dir");

    let error = disk.backup("/tmp/t/dir", "/tmp/t/x.bak").unwrap_err();
    assert_eq!(error.kind, ErrorKind::WrongFileType);
    assert_eq!(error.message, "Source is not a regular file: /tmp/t/dir");

    assert_eq!(disk.nodes, before);
}

#[test]
fn restore_rejects_a_directory() {
    let mut disk = Disk::new().with_dir("/tmp/t/dir.bak");
    let error = disk.restore("/tmp/t/dir.bak", "/tmp/r").unwrap_err();
    assert_eq!(error.kind, ErrorKind::WrongFileType);
    assert_eq!(error.message, "Backup path is not a file: /tmp/t/dir.bak");
}

#[test]
fn symlinks_are_rejected_and_the_referent_is_untouched() {
    let mut disk = Disk::new()
        .with_dir("/tmp/t")
        .with_file("/tmp/t/real.bak", b"secret")
        .with_symlink("/tmp/t/link.bak", "/tmp/t/real.bak");
    let before = disk.nodes.clone();

    let error = disk.delete("/tmp/t/link.bak").unwrap_err();
    assert_eq!(error.kind, ErrorKind::WrongFileType);
    assert_eq!(error.message, "Refusing to delete symlink: /tmp/t/link.bak");

    let error = disk.restore("/tmp/t/link.bak", "/tmp/r").unwrap_err();
    assert_eq!(error.kind, ErrorKind::WrongFileType);
    assert_eq!(error.message, "Refusing to restore symlink: /tmp/t/link.bak");

    assert_eq!(disk.nodes, before);
}

#[test]
fn backup_rejects_a_symlink_source() {
    let mut disk = Disk::new()
        .with_dir("/tmp/t")
        .with_file("/tmp/t/real.txt", b"secret")
        .with_symlink("/tmp/t/link.txt", "/tmp/t/real.txt");
    let error = disk.backup("/tmp/t/link.txt", "/tmp/t/link.txt.bak").unwrap_err();
    assert_eq!(error.kind, ErrorKind::WrongFileType);
    assert_eq!(error.message, "Source is not a regular file: /tmp/t/link.txt");
    assert!(!disk.nodes.contains_key("/tmp/t/link.txt.bak"));
}

#[test]
fn other_entries_are_rejected() {
    let error = error_of(delete_state("/dev/null").advance(Reply::Metadata(FileKind::Other)));
    assert_eq!(error.kind, ErrorKind::WrongFileType);
    assert_eq!(error.message, "Path is not a regular file: /dev/null");
}

#[test]
fn a_missing_file_is_a_metadata_error() {
    let mut disk = Disk::new().with_dir("/tmp/t");
    let error = disk.delete("/tmp/t/none").unwrap_err();
    assert_eq!(error.kind, ErrorKind::Metadata);
    assert_eq!(error.message, "No such file or directory (os error 2)");
    let error = disk.backup("/tmp/t/none", "/tmp/t/none.bak").unwrap_err();
    assert_eq!(error.kind, ErrorKind::Metadata);
    let error = disk.restore("/tmp/t/none.bak", "/tmp/t").unwrap_err();
    assert_eq!(error.kind, ErrorKind::Metadata);
}

#[test]
fn the_source_is_checked_before_the_extension() {
    let mut disk = Disk::new().with_dir("/tmp/t/dir");
    let error = disk.backup("/tmp/t/dir", "/tmp/t/evil").unwrap_err();
    assert_eq!(error.kind, ErrorKind::WrongFileType);
}

#[test]
fn a_directory_that_cannot_be_made_is_an_io_failure() {
    let mut disk = Disk::new()
        .with_dir("/tmp/t")
        .with_file("/tmp/t/a.txt", b"x")
        .with_file("/tmp/t/plain", b"y");
    let error = disk.backup("/tmp/t/a.txt", "/tmp/t/plain/a.txt.bak").unwrap_err();
    assert_eq!(error.kind, ErrorKind::IoFailure);
    assert_eq!(error.message, "Not a directory (os error 20)");
    assert!(!disk.seen.iter().any(|r| matches!(r, Request::CopyNew { .. })));
}

#[test]
fn a_removal_that_fails_is_an_io_failure() {
    let state = next(delete_state("/tmp/a").advance(Reply::Metadata(FileKind::Regular)));
    assert_eq!(state.request(), Request::Remove { path: "/tmp/a".to_string() });
    let error = error_of(state.advance(failed(Fault::Other, "Permission denied (os error 13)")));
    assert_eq!(
        error,
        OpError::new(ErrorKind::IoFailure, "Permission denied (os error 13)".to_string())
    );
}

#[test]
fn a_reply_that_answers_another_request_is_an_io_failure() {
    let error = error_of(delete_state("/tmp/a").advance(Reply::Exists(true)));
    assert_eq!(error.kind, ErrorKind::IoFailure);
    assert_eq!(error.message, "Unexpected reply to a file-system request");
    let error = error_of(backup_state("/tmp/a", "/tmp/a.bak").advance(Reply::Done));
    assert_eq!(error.kind, ErrorKind::IoFailure);
    let state = next(restore_state("/tmp/a.bak", "/r").advance(Reply::Metadata(FileKind::Regular)));
    let error = error_of(state.advance(Reply::Metadata(FileKind::Directory)));
    assert_eq!(error.kind, ErrorKind::IoFailure);
}

#[test]
fn operations_fail_without_a_working_directory_for_relative_paths() {
    let command = Commands::Delete { file: "a.txt".to_string() };
    let error = error_of(Operation::start(&command, None));
    assert_eq!(error.kind, ErrorKind::PathResolution);
    let error = error_of(Backup::start("/abs/a.txt", "a.txt.bak", None));
    assert_eq!(error.kind, ErrorKind::PathResolution);
    let error = error_of(Restore::start("a.txt.bak", "/abs", None));
    assert_eq!(error.kind, ErrorKind::PathResolution);
    assert!(matches!(Delete::start("/abs/a.txt", None), Step::Perform(_)));
}

#[test]
fn the_command_line_starts_its_operation() {
    let cli = Cli { command: Commands::Delete { file: "/tmp/../tmp/a.txt".to_string() } };
    let state = next(cli.start(None));
    assert_eq!(state.request(), inspect("/tmp/a.txt"));
    assert!(matches!(state, Operation::Delete(_)));

    let cli = Cli {
        command: Commands::Backup { src: "a".to_string(), dest: "b.bak".to_string() },
    };
    let state = next(cli.start(Some("/w")));
    assert_eq!(state.request(), inspect("/w/a"));
    assert!(matches!(state, Operation::Backup(_)));

    let cli = Cli {
        command: Commands::Restore { backup: "b.bak".to_string(), target: "t".to_string() },
    };
    let state = next(cli.start(Some("/w")));
    assert_eq!(state.request(), inspect("/w/b.bak"));
    assert!(matches!(state, Operation::Restore(_)));
}

#[test]
fn traversal_in_the_destination_is_resolved_before_the_guards() {
    let mut disk = Disk::new().with_dir("/tmp/dir").with_file("/tmp/dir/good.txt", b"data");
    disk.backup("/tmp/dir/good.txt", "/tmp/dir/../evil.txt.bak").unwrap();
    assert_eq!(disk.content("/tmp/evil.txt.bak"), Some(b"data".to_vec()));
    assert!(disk.nodes.keys().all(|path| !path.contains("..")));
}

#[test]
fn a_backup_into_the_root_makes_the_root() {
    let state = backup_state("/a.txt", "/a.txt.bak");
    let state = next(state.advance(Reply::Metadata(FileKind::Regular)));
    assert_eq!(state.request(), Request::MakeDirs { path: "/".to_string() });
}

#[test]
fn a_restore_into_the_root_joins_without_a_second_slash() {
    let state = restore_state("/tmp/a.txt.bak", "/");
    let state = next(state.advance(Reply::Metadata(FileKind::Regular)));
    let state = next(state.advance(Reply::Done));
    assert_eq!(state.request(), Request::Probe { path: "/a.txt".to_string() });
}

#[test]
fn every_operation_ends_within_four_replies() {
    let mut disk = Disk::new().with_dir("/tmp/t").with_file("/tmp/t/a.txt", b"x");
    disk.backup("/tmp/t/a.txt", "/tmp/t/a.txt.bak").unwrap();
    assert_eq!(disk.seen.len(), 4);
    disk.seen.clear();
    disk.restore("/tmp/t/a.txt.bak", "/tmp/r").unwrap();
    assert_eq!(disk.seen.len(), 4);
    disk.seen.clear();
    disk.delete("/tmp/r/a.txt").unwrap();
    assert_eq!(disk.seen.len(), 2);
}
