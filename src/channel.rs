use vstd::prelude::*;
use vstd::string::StringSliceAdditionalSpecFns;

verus! {

/// The name that an export written into a watched directory starts with;
/// other files there are ignored.
pub const EXPORT_FILE_PREFIX: &'static str = "bitwarden_export";

/// How long the watcher waits for writes to settle before it reports them,
/// in milliseconds: long enough not to read a half-written export, short
/// enough to stay responsive.
pub const DEBOUNCE_MILLIS: u64 = 500;

/// `prefix` starts `name`.
pub open spec fn has_prefix(name: Seq<u8>, prefix: Seq<u8>) -> bool {
    prefix.len() <= name.len() && name.subrange(0, prefix.len() as int) == prefix
}

/// Whether a file in a watched directory is taken for the export.
pub fn is_export_file(name: &str) -> (r: bool)
    ensures
        r == has_prefix(name.spec_bytes(), EXPORT_FILE_PREFIX.spec_bytes()),
{
    let n = name.as_bytes();
    let p = EXPORT_FILE_PREFIX.as_bytes();
    if p.len() > n.len() {
        return false;
    }
    let mut i: usize = 0;
    while i < p.len()
        invariant
            i <= p@.len() <= n@.len(),
            n@ == name.spec_bytes(),
            p@ == EXPORT_FILE_PREFIX.spec_bytes(),
            n@.subrange(0, i as int) == p@.subrange(0, i as int),
        decreases p.len() - i,
    {
        if n[i] != p[i] {
            assert(n@.subrange(0, p@.len() as int)[i as int] != p@[i as int]);
            return false;
        }
        i = i + 1;
        assert(n@.subrange(0, i as int) =~= p@.subrange(0, i as int));
    }
    assert(p@.subrange(0, p@.len() as int) =~= p@);
    true
}

/// What a watched channel watches.
#[derive(Debug, Clone, Copy, PartialEq, Eq, Structural)]
pub enum WatchTarget {
    /// A directory, recursively; the export is the first file whose name
    /// starts with `EXPORT_FILE_PREFIX`.
    Directory,
    /// A single file, which is the export.
    File,
}

/// How a watched channel is set up, from what is found at its path.
#[derive(Debug, Clone, Copy, PartialEq, Eq, Structural)]
pub enum Provision {
    /// Nothing is there: create the directory (and its parents).
    CreateDirectory,
    /// A directory is there: watch it as it is.
    ReuseDirectory,
    /// A file is there: it may hold a stale export, so empty it, then watch it.
    EmptyFile,
}

pub fn provision_plan(exists: bool, is_dir: bool) -> (r: Provision)
    ensures
        !exists ==> r == Provision::CreateDirectory,
        exists && is_dir ==> r == Provision::ReuseDirectory,
        exists && !is_dir ==> r == Provision::EmptyFile,
{
    if !exists {
        Provision::CreateDirectory
    } else if is_dir {
        Provision::ReuseDirectory
    } else {
        Provision::EmptyFile
    }
}

impl Provision {
    /// What is watched once the path is set up.
    pub fn target(&self) -> (r: WatchTarget)
        ensures
            r == (if *self == Provision::EmptyFile { WatchTarget::File } else { WatchTarget::Directory }),
    {
        match self {
            Provision::EmptyFile => WatchTarget::File,
            _ => WatchTarget::Directory,
        }
    }
}

/// The kinds of file-system event that the capture tells apart.
#[derive(Debug, Clone, Copy, PartialEq, Eq, Structural)]
pub enum WatchEventKind {
    Create,
    Write,
    Other,
}

/// The export is captured from an event that creates or writes a file, and
/// in a watched directory only from one whose name marks it as an export.
pub open spec fn captures(target: WatchTarget, kind: WatchEventKind, file_name: Option<Seq<u8>>) -> bool {
    &&& (kind == WatchEventKind::Create || kind == WatchEventKind::Write)
    &&& (target == WatchTarget::File || (file_name matches Some(n) && has_prefix(
        n,
        EXPORT_FILE_PREFIX.spec_bytes(),
    )))
}

/// Whether the capture reads the file that an event names; every other event
/// is ignored.
pub fn should_capture(target: WatchTarget, kind: WatchEventKind, file_name: Option<&str>) -> (r: bool)
    ensures
        r == captures(
            target,
            kind,
            match file_name {
                Some(n) => Some(n.spec_bytes()),
                None => None,
            },
        ),
{
    match kind {
        WatchEventKind::Other => false,
        _ => match target {
            WatchTarget::File => true,
            WatchTarget::Directory => match file_name {
                Some(n) => is_export_file(n),
                None => false,
            },
        },
    }
}

} // verus!
