//! Validated mutations of the workspace tree.
//!
//! Each operation is decided from what the caller observed on disk right
//! before acting (does the path exist, is it a directory) and yields at most
//! one file-system operation for the caller to perform, or the reason for
//! refusing. The effect of an operation is described over an abstract
//! file system that maps each path to the entry found there; an entry's
//! descendants are the paths that extend its path by a separator.
use vstd::prelude::*;

verus! {

/// Why a request was refused or failed.
#[derive(Clone, Copy, Debug, PartialEq, Eq, Structural)]
pub enum ErrorKind {
    /// The target does not exist where existence was required.
    NotFound,
    /// The target exists where absence was required.
    AlreadyExists,
    /// A supplied path lacks a required component (a stem or a parent).
    InvalidPath,
    /// The underlying read, write, create or delete failed.
    Io,
}

/// An error surfaced to the caller: its kind and a readable cause.
#[derive(Clone, Debug)]
pub struct WorkspaceError {
    pub kind: ErrorKind,
    pub cause: String,
}

impl WorkspaceError {
    /// An error of the given kind with the given cause.
    pub fn new(kind: ErrorKind, cause: String) -> (r: Self)
        ensures
            r.kind == kind,
            r.cause@ == cause@,
    {
        WorkspaceError { kind, cause }
    }

    /// The cause, as shown to the user.
    pub fn message(&self) -> (r: String)
        ensures
            r@ == self.cause@,
    {
        self.cause.clone()
    }
}

/// One file-system operation for the caller to perform.
#[derive(Clone, Debug)]
pub enum FsOp {
    /// Create the directory and every missing ancestor.
    CreateDirAll(String),
    /// Move the entry at the first path to the second.
    Rename(String, String),
    /// Remove a directory with everything in it.
    RemoveDirAll(String),
    /// Remove a single file.
    RemoveFile(String),
}

/// What an entry of the abstract file system is.
pub enum Node {
    File(Seq<u8>),
    Dir,
}

/// The abstract file system: each path maps to the entry found there.
pub type FsModel = Map<Seq<char>, Node>;

/// An operation over path sequences.
pub enum OpModel {
    CreateDirAll(Seq<char>),
    Rename(Seq<char>, Seq<char>),
    RemoveDirAll(Seq<char>),
    RemoveFile(Seq<char>),
}

impl View for FsOp {
    type V = OpModel;

    open spec fn view(&self) -> OpModel {
        match self {
            FsOp::CreateDirAll(p) => OpModel::CreateDirAll(p@),
            FsOp::Rename(a, b) => OpModel::Rename(a@, b@),
            FsOp::RemoveDirAll(p) => OpModel::RemoveDirAll(p@),
            FsOp::RemoveFile(p) => OpModel::RemoveFile(p@),
        }
    }
}

/// Whether `q` is `p` or lies below it: a non-empty `p` followed by a
/// separator and more.
pub open spec fn within(q: Seq<char>, p: Seq<char>) -> bool {
    q == p || (p.len() > 0 && q.len() > p.len() && q.subrange(0, p.len() as int) == p && q[p.len() as int] == '/')
}

/// Every entry's non-empty ancestors are directories that are present.
pub open spec fn well_formed(fs: FsModel) -> bool {
    forall|q: Seq<char>, p: Seq<char>|
        fs.contains_key(q) && #[trigger] within(q, p) && p != q ==> fs.contains_key(p) && fs[p] is Dir
}

impl OpModel {
    /// The file system after the operation has been carried out.
    ///
    /// Creating adds a directory at the path and at each missing ancestor;
    /// removing takes the entry with all its descendants; renaming moves the
    /// entry with all its descendants under the new path.
    pub open spec fn apply(self, fs: FsModel) -> FsModel {
        match self {
            OpModel::CreateDirAll(p) => Map::new(
                |q: Seq<char>| fs.contains_key(q) || (within(p, q) && (q == p || q.len() > 0)),
                |q: Seq<char>| if fs.contains_key(q) { fs[q] } else { Node::Dir },
            ),
            OpModel::Rename(a, b) => Map::new(
                |q: Seq<char>|
                    (fs.contains_key(q) && !within(q, a) && !within(q, b)) || (within(q, b)
                        && fs.contains_key(a + q.skip(b.len() as int))),
                |q: Seq<char>| if within(q, b) { fs[a + q.skip(b.len() as int)] } else { fs[q] },
            ),
            OpModel::RemoveDirAll(p) => Map::new(
                |q: Seq<char>| fs.contains_key(q) && !within(q, p),
                |q: Seq<char>| fs[q],
            ),
            OpModel::RemoveFile(p) => Map::new(
                |q: Seq<char>| fs.contains_key(q) && !within(q, p),
                |q: Seq<char>| fs[q],
            ),
        }
    }
}

/// Whether something, file or directory, is at `p`.
pub open spec fn exists_in(fs: FsModel, p: Seq<char>) -> bool {
    fs.contains_key(p)
}

/// Whether a directory is at `p`.
pub open spec fn is_dir_in(fs: FsModel, p: Seq<char>) -> bool {
    fs.contains_key(p) && fs[p] is Dir
}

/// Carries out an optional operation.
pub open spec fn apply_opt(op: Option<OpModel>, fs: FsModel) -> FsModel {
    match op {
        Some(o) => o.apply(fs),
        None => fs,
    }
}

/// An optional operation seen over path sequences.
pub open spec fn op_opt_view(r: Option<FsOp>) -> Option<OpModel> {
    match r {
        Some(o) => Some(o@),
        None => None,
    }
}

/// A planned operation or refusal seen over path sequences.
pub open spec fn op_res_view(r: Result<FsOp, ErrorKind>) -> Result<OpModel, ErrorKind> {
    match r {
        Ok(o) => Ok(o@),
        Err(e) => Err(e),
    }
}

/// Making sure a directory exists: nothing to do when something is there.
pub open spec fn ensure_plan(p: Seq<char>, exists: bool) -> Option<OpModel> {
    if exists {
        None
    } else {
        Some(OpModel::CreateDirAll(p))
    }
}

/// Creating a new directory: refused when anything occupies the path.
pub open spec fn create_plan(p: Seq<char>, exists: bool) -> Result<OpModel, ErrorKind> {
    if exists {
        Err(ErrorKind::AlreadyExists)
    } else {
        Ok(OpModel::CreateDirAll(p))
    }
}

/// Renaming: the source must exist and the target must not.
pub open spec fn rename_plan(
    old: Seq<char>,
    new: Seq<char>,
    old_exists: bool,
    new_exists: bool,
) -> Result<OpModel, ErrorKind> {
    if !old_exists {
        Err(ErrorKind::NotFound)
    } else if new_exists {
        Err(ErrorKind::AlreadyExists)
    } else {
        Ok(OpModel::Rename(old, new))
    }
}

/// Deleting: the path must exist; a directory goes with its contents.
pub open spec fn delete_plan(p: Seq<char>, exists: bool, is_dir: bool) -> Result<OpModel, ErrorKind> {
    if !exists {
        Err(ErrorKind::NotFound)
    } else if is_dir {
        Ok(OpModel::RemoveDirAll(p))
    } else {
        Ok(OpModel::RemoveFile(p))
    }
}

/// Makes sure a directory is at `path`; `exists` says whether anything is
/// there now. Nothing is done when something is; never an error.
pub fn ensure_directory(path: &str, exists: bool) -> (r: Option<FsOp>)
    ensures
        op_opt_view(r) == ensure_plan(path@, exists),
{
    if exists {
        None
    } else {
        Some(FsOp::CreateDirAll(String::from_str(path)))
    }
}

/// Creates a genuinely new directory at `path`; `exists` says whether
/// anything is there now, which is refused.
pub fn create_directory(path: &str, exists: bool) -> (r: Result<FsOp, ErrorKind>)
    ensures
        op_res_view(r) == create_plan(path@, exists),
{
    if exists {
        Err(ErrorKind::AlreadyExists)
    } else {
        Ok(FsOp::CreateDirAll(String::from_str(path)))
    }
}

/// Renames `old_path` to `new_path`, never overwriting.
pub fn rename_file(old_path: &str, new_path: &str, old_exists: bool, new_exists: bool) -> (r: Result<
    FsOp,
    ErrorKind,
>)
    ensures
        op_res_view(r) == rename_plan(old_path@, new_path@, old_exists, new_exists),
{
    if !old_exists {
        Err(ErrorKind::NotFound)
    } else if new_exists {
        Err(ErrorKind::AlreadyExists)
    } else {
        Ok(FsOp::Rename(String::from_str(old_path), String::from_str(new_path)))
    }
}

/// Deletes the entry at `path`, recursively when `is_dir`.
pub fn delete_file(path: &str, exists: bool, is_dir: bool) -> (r: Result<FsOp, ErrorKind>)
    ensures
        op_res_view(r) == delete_plan(path@, exists, is_dir),
{
    if !exists {
        Err(ErrorKind::NotFound)
    } else if is_dir {
        Ok(FsOp::RemoveDirAll(String::from_str(path)))
    } else {
        Ok(FsOp::RemoveFile(String::from_str(path)))
    }
}

/// The error reported when carrying out an operation failed.
pub fn io_error(cause: String) -> (r: WorkspaceError)
    ensures
        r.kind == ErrorKind::Io,
        r.cause@ == cause@,
{
    WorkspaceError::new(ErrorKind::Io, cause)
}

/// The error reported for a refused request, with its readable cause.
pub fn refusal(kind: ErrorKind) -> (r: WorkspaceError)
    ensures
        r.kind == kind,
        r.cause@ == refusal_text(kind),
{
    let cause = match kind {
        ErrorKind::NotFound => String::from_str("the file does not exist"),
        ErrorKind::AlreadyExists => String::from_str("a file or directory with the same name already exists"),
        ErrorKind::InvalidPath => String::from_str("the file path is invalid"),
        ErrorKind::Io => String::from_str("the operation failed"),
    };
    WorkspaceError::new(kind, cause)
}

/// The readable cause given for each kind of refusal.
pub open spec fn refusal_text(kind: ErrorKind) -> Seq<char> {
    match kind {
        ErrorKind::NotFound => "the file does not exist"@,
        ErrorKind::AlreadyExists => "a file or directory with the same name already exists"@,
        ErrorKind::InvalidPath => "the file path is invalid"@,
        ErrorKind::Io => "the operation failed"@,
    }
}

/// Making sure a directory exists, twice in a row on the file system that
/// results, succeeds both times and leaves a directory at the path, provided
/// no file stood there to begin with.
pub proof fn law_ensure_directory_twice(fs: FsModel, p: Seq<char>)
    requires
        exists_in(fs, p) ==> is_dir_in(fs, p),
    ensures
        ({
            let fs1 = apply_opt(ensure_plan(p, exists_in(fs, p)), fs);
            let fs2 = apply_opt(ensure_plan(p, exists_in(fs1, p)), fs1);
            &&& is_dir_in(fs1, p)
            &&& ensure_plan(p, exists_in(fs1, p)) is None
            &&& fs2 == fs1
            &&& is_dir_in(fs2, p)
        }),
{
    let fs1 = apply_opt(ensure_plan(p, exists_in(fs, p)), fs);
    if !exists_in(fs, p) {
        assert(within(p, p));
        assert(fs1.contains_key(p));
    }
}

/// Creating a directory where something already exists is refused with
/// `AlreadyExists`, and no operation is issued, so the entry is unchanged.
pub proof fn law_create_existing_refused(fs: FsModel, p: Seq<char>)
    requires
        exists_in(fs, p),
    ensures
        create_plan(p, exists_in(fs, p)) == Err::<OpModel, ErrorKind>(ErrorKind::AlreadyExists),
{
}

/// Renaming an existing entry to a free path succeeds: the old path is gone
/// and every entry that stood at or below it now stands at the same place
/// below the new path, unchanged. Renaming onto an occupied path is
/// refused, and no operation is issued.
pub proof fn law_rename(fs: FsModel, old: Seq<char>, new: Seq<char>)
    requires
        well_formed(fs),
        old.len() > 0,
        new.len() > 0,
        exists_in(fs, old),
    ensures
        !exists_in(fs, new) ==> ({
            let r = rename_plan(old, new, exists_in(fs, old), exists_in(fs, new));
            &&& r is Ok
            &&& !exists_in(r->Ok_0.apply(fs), old)
            &&& exists_in(r->Ok_0.apply(fs), new)
            &&& forall|q: Seq<char>|
                exists_in(fs, q) && #[trigger] within(q, old) ==> exists_in(
                    r->Ok_0.apply(fs),
                    new + q.skip(old.len() as int),
                ) && r->Ok_0.apply(fs)[new + q.skip(old.len() as int)] == fs[q]
        }),
        exists_in(fs, new) ==> rename_plan(old, new, exists_in(fs, old), exists_in(fs, new))
            == Err::<OpModel, ErrorKind>(ErrorKind::AlreadyExists),
{
    if !exists_in(fs, new) {
        let fs1 = OpModel::Rename(old, new).apply(fs);
        assert(within(old, old));
        if within(old, new) {
            assert(fs.contains_key(new));
        }
        assert(new.skip(new.len() as int) =~= Seq::<char>::empty());
        assert(old + new.skip(new.len() as int) =~= old);
        assert(within(new, new));
        assert forall|q: Seq<char>|
            exists_in(fs, q) && #[trigger] within(q, old) implies exists_in(fs1, new + q.skip(old.len() as int))
                && fs1[new + q.skip(old.len() as int)] == fs[q] by {
            let k = new + q.skip(old.len() as int);
            assert(k.skip(new.len() as int) =~= q.skip(old.len() as int));
            if q == old {
                assert(k =~= new);
            } else {
                assert(k.subrange(0, new.len() as int) =~= new);
                assert(k[new.len() as int] == q[old.len() as int]);
            }
            assert(within(k, new));
            assert(q =~= old + q.skip(old.len() as int)) by {
                if q != old {
                    assert(q.subrange(0, old.len() as int) == old);
                }
            }
        }
    }
}

/// Deleting an existing entry, file or directory, succeeds and leaves
/// nothing at the path or below it; deleting a missing one is refused with
/// `NotFound` and no operation is issued.
pub proof fn law_delete(fs: FsModel, p: Seq<char>)
    ensures
        exists_in(fs, p) ==> ({
            let r = delete_plan(p, exists_in(fs, p), is_dir_in(fs, p));
            &&& r is Ok
            &&& forall|q: Seq<char>| #[trigger] within(q, p) ==> !exists_in(r->Ok_0.apply(fs), q)
        }),
        !exists_in(fs, p) ==> delete_plan(p, exists_in(fs, p), is_dir_in(fs, p))
            == Err::<OpModel, ErrorKind>(ErrorKind::NotFound),
{
}

} // verus!
