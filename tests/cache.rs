use alphred::cache::{error_icon, CacheAction, CacheError, CacheEvent, CacheLookup, ERROR_ICON_NAME};
use std::collections::HashMap;

/// A disk kept in memory: directories and files by path.
struct Disk {
    dirs: Vec<String>,
    files: HashMap<String, Vec<u8>>,
}

/// Drives one lookup against the in-memory disk, counting producer calls.
fn run(
    name: &str,
    root: Option<&str>,
    disk: &mut Disk,
    produce: &dyn Fn() -> Result<Vec<u8>, Vec<String>>,
    calls: &mut u32,
) -> Result<String, CacheError> {
    let (mut lookup, mut action) = CacheLookup::start(name);
    loop {
        let event = match action {
            CacheAction::ReadRootVar => CacheEvent::RootVar(root.map(|r| r.to_string())),
            CacheAction::CheckDir(d) => CacheEvent::DirExists(disk.dirs.contains(&d)),
            CacheAction::CreateDir(d) => {
                disk.dirs.push(d);
                CacheEvent::DirCreated(Ok(()))
            }
            CacheAction::CheckFile(f) => CacheEvent::FileExists(disk.files.contains_key(&f)),
            CacheAction::Produce => {
                *calls += 1;
                CacheEvent::Produced(produce())
            }
            CacheAction::WriteFile(f, bytes) => {
                disk.files.insert(f, bytes);
                CacheEvent::Written(Ok(()))
            }
            CacheAction::Finish(r) => return r,
            CacheAction::Wait => panic!("lookup ignored an event"),
        };
        action = lookup.step(event);
    }
}

fn empty_disk() -> Disk {
    Disk { dirs: Vec::new(), files: HashMap::new() }
}

#[test]
fn first_lookup_produces_and_writes() {
    let mut disk = empty_disk();
    let mut calls = 0;
    let r = run("greeting.txt", Some("/root/cache"), &mut disk, &|| Ok(b"hi".to_vec()), &mut calls);
    assert_eq!(r, Ok("/root/cache/greeting.txt".to_string()));
    assert_eq!(calls, 1);
    assert_eq!(disk.files.get("/root/cache/greeting.txt"), Some(&b"hi".to_vec()));
    assert!(disk.dirs.contains(&"/root/cache".to_string()));
}

#[test]
fn second_lookup_hits_and_skips_producer() {
    let mut disk = empty_disk();
    let mut calls = 0;
    let first = run("greeting.txt", Some("/root/cache"), &mut disk, &|| Ok(b"hi".to_vec()), &mut calls);
    let second = run("greeting.txt", Some("/root/cache"), &mut disk, &|| Ok(b"bye".to_vec()), &mut calls);
    assert_eq!(first, second);
    assert_eq!(calls, 1);
    assert_eq!(disk.files.get("/root/cache/greeting.txt"), Some(&b"hi".to_vec()));
}

#[test]
fn unset_root_is_a_configuration_error() {
    let mut disk = empty_disk();
    let mut calls = 0;
    let r = run("x", None, &mut disk, &|| Ok(Vec::new()), &mut calls);
    assert_eq!(r, Err(CacheError::Configuration));
    assert_eq!(calls, 0);
}

#[test]
fn existing_root_is_not_created_again() {
    let (mut lookup, _) = CacheLookup::start("x");
    let a = lookup.step(CacheEvent::RootVar(Some("/r".to_string())));
    assert!(matches!(a, CacheAction::CheckDir(ref d) if d == "/r"));
    let a = lookup.step(CacheEvent::DirExists(true));
    assert!(matches!(a, CacheAction::CheckFile(ref f) if f == "/r/x"));
}

#[test]
fn missing_root_is_created() {
    let (mut lookup, _) = CacheLookup::start("x");
    lookup.step(CacheEvent::RootVar(Some("/r".to_string())));
    let a = lookup.step(CacheEvent::DirExists(false));
    assert!(matches!(a, CacheAction::CreateDir(ref d) if d == "/r"));
}

#[test]
fn failed_root_creation_is_an_io_error() {
    let (mut lookup, _) = CacheLookup::start("x");
    lookup.step(CacheEvent::RootVar(Some("/r".to_string())));
    lookup.step(CacheEvent::DirExists(false));
    let a = lookup.step(CacheEvent::DirCreated(Err("denied".to_string())));
    assert!(matches!(a, CacheAction::Finish(Err(CacheError::Io(ref m))) if m == "denied"));
}

#[test]
fn producer_error_is_passed_on() {
    let mut disk = empty_disk();
    let mut calls = 0;
    let r = run("x", Some("/r"), &mut disk, &|| Err(vec!["outer".to_string(), "inner".to_string()]), &mut calls);
    assert_eq!(r, Err(CacheError::Producer(vec!["outer".to_string(), "inner".to_string()])));
    assert!(disk.files.is_empty());
}

#[test]
fn failed_write_is_an_io_error() {
    let (mut lookup, _) = CacheLookup::start("x");
    lookup.step(CacheEvent::RootVar(Some("/r".to_string())));
    lookup.step(CacheEvent::DirExists(true));
    lookup.step(CacheEvent::FileExists(false));
    let a = lookup.step(CacheEvent::Produced(Ok(vec![1, 2])));
    assert!(matches!(a, CacheAction::WriteFile(ref f, ref b) if f == "/r/x" && b == &vec![1u8, 2]));
    let a = lookup.step(CacheEvent::Written(Err("full".to_string())));
    assert!(matches!(a, CacheAction::Finish(Err(CacheError::Io(ref m))) if m == "full"));
}

#[test]
fn unexpected_event_is_ignored() {
    let (mut lookup, _) = CacheLookup::start("x");
    let a = lookup.step(CacheEvent::FileExists(true));
    assert!(matches!(a, CacheAction::Wait));
    let a = lookup.step(CacheEvent::RootVar(None));
    assert!(matches!(a, CacheAction::Finish(Err(CacheError::Configuration))));
    let a = lookup.step(CacheEvent::RootVar(None));
    assert!(matches!(a, CacheAction::Wait));
}

#[test]
fn error_icon_lookup_uses_reserved_name() {
    let (lookup, a) = CacheLookup::start_error_icon();
    assert_eq!(lookup.name, ERROR_ICON_NAME);
    assert!(matches!(a, CacheAction::ReadRootVar));
}

#[test]
fn error_icon_from_outcome() {
    let icon = error_icon(Ok("/r/.alphred.error".to_string())).unwrap();
    assert_eq!(icon.path, "/r/.alphred.error");
    assert!(error_icon(Err(CacheError::Configuration)).is_err());
}
