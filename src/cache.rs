//! The decisions of the artifact cache. A lookup is a state machine: the
//! caller performs each action it asks for (read the configured root, look
//! at the disk, run the producer, write a file) and feeds back what happened.
use vstd::prelude::*;
use crate::item::Icon;

verus! {

/// The name under which the built-in error icon is cached.
pub const ERROR_ICON_NAME: &'static str = ".alphred.error";

/// `name` joined onto the directory `root`, as `std::path::Path::join`
/// forms it.
pub uninterp spec fn path_joined(root: Seq<char>, name: Seq<char>) -> Seq<char>;

/// Relies on `std::path::Path::join`: the path of `name` under `root`. Both
/// arguments are UTF-8, so the joined path converts back without loss.
#[verifier::external_body]
fn join_path(root: &str, name: &str) -> (r: String)
    ensures
        r@ == path_joined(root@, name@),
{
    std::path::Path::new(root).join(name).to_string_lossy().into_owned()
}

/// Why a lookup failed.
#[derive(Clone, Debug, PartialEq, Eq)]
pub enum CacheError {
    /// The cache root is not configured.
    Configuration,
    /// Creating the root directory or writing the entry failed.
    Io(String),
    /// The producer failed; its causes, outermost first.
    Producer(Vec<String>),
}

/// What the caller observed after performing the last action.
#[derive(Debug)]
pub enum CacheEvent {
    /// The configured cache root, if it is set.
    RootVar(Option<String>),
    /// Whether the root directory exists.
    DirExists(bool),
    /// The outcome of creating the root directory and its parents.
    DirCreated(Result<(), String>),
    /// Whether the entry's file exists.
    FileExists(bool),
    /// What the producer returned.
    Produced(Result<Vec<u8>, Vec<String>>),
    /// The outcome of writing the entry's file.
    Written(Result<(), String>),
}

/// What the caller is to do next.
#[derive(Debug)]
pub enum CacheAction {
    /// Read the variable that configures the cache root.
    ReadRootVar,
    /// Tell whether this directory exists.
    CheckDir(String),
    /// Create this directory and its missing parents.
    CreateDir(String),
    /// Tell whether this file exists.
    CheckFile(String),
    /// Run the producer.
    Produce,
    /// Create or truncate this file and write these bytes to it.
    WriteFile(String, Vec<u8>),
    /// The lookup is over, with the entry's path or an error.
    Finish(Result<String, CacheError>),
    /// The event was not the one awaited; nothing changes.
    Wait,
}

/// Where a lookup stands.
#[derive(Debug)]
pub enum CachePhase {
    ReadingRoot,
    CheckingRoot(String),
    CreatingRoot(String),
    CheckingEntry(String),
    Producing(String),
    Writing(String),
    Finished,
}

/// One request for the cache entry `name`.
#[derive(Debug)]
pub struct CacheLookup {
    pub name: String,
    pub phase: CachePhase,
}

/// The entry's path is known: look for its file.
pub open spec fn entry_step(
    name: Seq<char>,
    root: String,
    q: CachePhase,
    a: CacheAction,
) -> bool {
    exists|path: String|
        path@ == path_joined(root@, name) && q == CachePhase::CheckingEntry(path) && a
            == CacheAction::CheckFile(path)
}

/// One transition: from phase `p` on event `e` to phase `q`, asking for `a`.
pub open spec fn step_spec(
    name: Seq<char>,
    p: CachePhase,
    e: CacheEvent,
    q: CachePhase,
    a: CacheAction,
) -> bool {
    match (p, e) {
        (CachePhase::ReadingRoot, CacheEvent::RootVar(None)) => q is Finished && a
            == CacheAction::Finish(Err(CacheError::Configuration)),
        (CachePhase::ReadingRoot, CacheEvent::RootVar(Some(root))) => q
            == CachePhase::CheckingRoot(root) && a == CacheAction::CheckDir(root),
        (CachePhase::CheckingRoot(root), CacheEvent::DirExists(true)) => entry_step(
            name,
            root,
            q,
            a,
        ),
        (CachePhase::CheckingRoot(root), CacheEvent::DirExists(false)) => q
            == CachePhase::CreatingRoot(root) && a == CacheAction::CreateDir(root),
        (CachePhase::CreatingRoot(root), CacheEvent::DirCreated(Ok(()))) => entry_step(
            name,
            root,
            q,
            a,
        ),
        (CachePhase::CreatingRoot(_), CacheEvent::DirCreated(Err(m))) => q is Finished && a
            == CacheAction::Finish(Err(CacheError::Io(m))),
        (CachePhase::CheckingEntry(path), CacheEvent::FileExists(true)) => q is Finished && a
            == CacheAction::Finish(Ok(path)),
        (CachePhase::CheckingEntry(path), CacheEvent::FileExists(false)) => q
            == CachePhase::Producing(path) && a == CacheAction::Produce,
        (CachePhase::Producing(path), CacheEvent::Produced(Ok(bytes))) => q
            == CachePhase::Writing(path) && a == CacheAction::WriteFile(path, bytes),
        (CachePhase::Producing(_), CacheEvent::Produced(Err(causes))) => q is Finished && a
            == CacheAction::Finish(Err(CacheError::Producer(causes))),
        (CachePhase::Writing(path), CacheEvent::Written(Ok(()))) => q is Finished && a
            == CacheAction::Finish(Ok(path)),
        (CachePhase::Writing(_), CacheEvent::Written(Err(m))) => q is Finished && a
            == CacheAction::Finish(Err(CacheError::Io(m))),
        (p, _) => q == p && a == CacheAction::Wait,
    }
}

impl CacheLookup {
    /// A lookup of the entry `name`, and its first action.
    pub fn start(name: &str) -> (r: (CacheLookup, CacheAction))
        ensures
            r.0.name@ == name@,
            r.0.phase is ReadingRoot,
            r.1 is ReadRootVar,
    {
        (CacheLookup { name: String::from_str(name), phase: CachePhase::ReadingRoot }, CacheAction::ReadRootVar)
    }

    /// A lookup of the built-in error icon, and its first action.
    pub fn start_error_icon() -> (r: (CacheLookup, CacheAction))
        ensures
            r.0.name@ == ERROR_ICON_NAME@,
            r.0.phase is ReadingRoot,
            r.1 is ReadRootVar,
    {
        CacheLookup::start(ERROR_ICON_NAME)
    }

    /// Moves on by what the caller observed, and says what to do next.
    pub fn step(&mut self, e: CacheEvent) -> (a: CacheAction)
        ensures
            final(self).name == old(self).name,
            step_spec(old(self).name@, old(self).phase, e, final(self).phase, a),
    {
        let mut phase = CachePhase::Finished;
        std::mem::swap(&mut phase, &mut self.phase);
        match (phase, e) {
            (CachePhase::ReadingRoot, CacheEvent::RootVar(None)) => {
                CacheAction::Finish(Err(CacheError::Configuration))
            },
            (CachePhase::ReadingRoot, CacheEvent::RootVar(Some(root))) => {
                let dir = root.clone();
                self.phase = CachePhase::CheckingRoot(root);
                CacheAction::CheckDir(dir)
            },
            (CachePhase::CheckingRoot(root), CacheEvent::DirExists(true)) => {
                self.enter_entry(&root)
            },
            (CachePhase::CheckingRoot(root), CacheEvent::DirExists(false)) => {
                let dir = root.clone();
                self.phase = CachePhase::CreatingRoot(root);
                CacheAction::CreateDir(dir)
            },
            (CachePhase::CreatingRoot(root), CacheEvent::DirCreated(Ok(()))) => {
                self.enter_entry(&root)
            },
            (CachePhase::CreatingRoot(_), CacheEvent::DirCreated(Err(m))) => {
                CacheAction::Finish(Err(CacheError::Io(m)))
            },
            (CachePhase::CheckingEntry(path), CacheEvent::FileExists(true)) => {
                CacheAction::Finish(Ok(path))
            },
            (CachePhase::CheckingEntry(path), CacheEvent::FileExists(false)) => {
                self.phase = CachePhase::Producing(path);
                CacheAction::Produce
            },
            (CachePhase::Producing(path), CacheEvent::Produced(Ok(bytes))) => {
                let target = path.clone();
                self.phase = CachePhase::Writing(path);
                CacheAction::WriteFile(target, bytes)
            },
            (CachePhase::Producing(_), CacheEvent::Produced(Err(causes))) => {
                CacheAction::Finish(Err(CacheError::Producer(causes)))
            },
            (CachePhase::Writing(path), CacheEvent::Written(Ok(()))) => {
                CacheAction::Finish(Ok(path))
            },
            (CachePhase::Writing(_), CacheEvent::Written(Err(m))) => {
                CacheAction::Finish(Err(CacheError::Io(m)))
            },
            (p, _) => {
                self.phase = p;
                CacheAction::Wait
            },
        }
    }

    fn enter_entry(&mut self, root: &String) -> (a: CacheAction)
        ensures
            final(self).name == old(self).name,
            entry_step(old(self).name@, *root, final(self).phase, a),
    {
        let path = join_path(root.as_str(), self.name.as_str());
        let target = path.clone();
        self.phase = CachePhase::CheckingEntry(path);
        CacheAction::CheckFile(target)
    }
}

/// The error icon, from the outcome of its lookup: the cached file's path, or
/// the lookup's error unchanged.
pub fn error_icon(outcome: Result<String, CacheError>) -> (r: Result<Icon, CacheError>)
    ensures
        match outcome {
            Ok(path) => r matches Ok(icon) && icon.path@ == path@,
            Err(e) => r == Err::<Icon, CacheError>(e),
        },
{
    match outcome {
        Ok(path) => Ok(Icon::new(path.as_str())),
        Err(e) => Err(e),
    }
}

} // verus!
