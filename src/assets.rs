//! Colocation of pasted assets: a document's assets live in a sibling
//! directory named after the document's stem.
use vstd::prelude::*;
use crate::paths::{joined, join_path, opt_view};
use crate::workspace::{ErrorKind, WorkspaceError, refusal, refusal_text};

verus! {

/// The stem (file name without its last extension) of a path.
pub uninterp spec fn path_stem(p: Seq<char>) -> Option<Seq<char>>;

/// The parent directory of a path.
pub uninterp spec fn path_parent(p: Seq<char>) -> Option<Seq<char>>;

/// Relies on std::path::Path::file_stem, read as UTF-8: the stem of the
/// path's last component, if it has one.
#[verifier::external_body]
fn file_stem_of(p: &str) -> (r: Option<String>)
    ensures
        opt_view(r) == path_stem(p@),
{
    std::path::Path::new(p).file_stem().and_then(|s| s.to_str()).map(|s| s.to_string())
}

/// Relies on std::path::Path::parent: the path without its last component,
/// absent for a root or an empty path.
#[verifier::external_body]
fn parent_of(p: &str) -> (r: Option<String>)
    ensures
        opt_view(r) == path_parent(p@),
{
    std::path::Path::new(p).parent().map(|d| d.to_string_lossy().to_string())
}

/// Where a pasted asset goes and how the document refers to it.
#[derive(Clone, Debug)]
pub struct AssetPlan {
    /// The asset directory, created if missing and reused otherwise.
    pub dir: String,
    /// The asset file, overwritten if present.
    pub file: String,
    /// The reference to embed in the document: `<stem>/<name>.<ext>`.
    pub relative: String,
}

/// The asset's file name: `<name>.<ext>`.
pub open spec fn asset_file_name(name: Seq<char>, ext: Seq<char>) -> Seq<char> {
    name + seq!['.'] + ext
}

/// Whether a separator occurs in `s`.
pub open spec fn has_separator(s: Seq<char>) -> bool {
    exists|i: int| 0 <= i < s.len() && s[i] == '/'
}

/// Whether a stem, an asset name and an extension each stay one path
/// component: a non-empty stem, and no separator in any of them.
pub open spec fn parts_valid(stem: Seq<char>, name: Seq<char>, ext: Seq<char>) -> bool {
    stem.len() > 0 && !has_separator(stem) && !has_separator(name) && !has_separator(ext)
}

/// Whether `s` holds a separator.
pub fn contains_separator(s: &str) -> (r: bool)
    ensures
        r == has_separator(s@),
{
    let n = s.unicode_len();
    let mut i: usize = 0;
    while i < n
        invariant
            n == s@.len(),
            i <= n,
            forall|j: int| 0 <= j < i ==> s@[j] != '/',
        decreases n - i,
    {
        if s.get_char(i) == '/' {
            return true;
        }
        i = i + 1;
    }
    false
}

/// The plan for an asset of a document whose parent and stem are given:
/// the directory, the file inside it, and the reference to embed.
pub open spec fn plan_spec(parent: Seq<char>, stem: Seq<char>, name: Seq<char>, ext: Seq<char>) -> (
    Seq<char>,
    Seq<char>,
    Seq<char>,
) {
    let dir = joined(parent, stem);
    (dir, dir + seq!['/'] + asset_file_name(name, ext), stem + seq!['/'] + asset_file_name(name, ext))
}

/// Whether a plan holds the directory, file and reference of `plan_spec`.
pub open spec fn plan_matches(p: AssetPlan, parent: Seq<char>, stem: Seq<char>, name: Seq<char>, ext: Seq<char>) -> bool {
    let s = plan_spec(parent, stem, name, ext);
    p.dir@ == s.0 && p.file@ == s.1 && p.relative@ == s.2
}

/// The file lies directly in the asset directory, and the reference,
/// resolved against the document's directory, names the file.
pub open spec fn plan_consistent(p: AssetPlan, parent: Seq<char>) -> bool {
    &&& p.file@ == joined(parent, p.relative@)
    &&& p.file@.len() > p.dir@.len()
    &&& p.file@.subrange(0, p.dir@.len() + 1int) == p.dir@ + seq!['/']
}

/// When the stem and parent of `document` were found and form valid parts,
/// whether the asset directory would be the document itself (a document
/// without an extension, such as a hidden-dot name).
pub open spec fn dir_is_document(document: Seq<char>, parent: Seq<char>, stem: Seq<char>) -> bool {
    joined(parent, stem) == document
}

/// Places an asset named `image_name` with extension `extension` for the
/// document at `document` whose stem and parent directory were found. The
/// stem is checked first, then the parent; a missing one, a stem, name or
/// extension that is not a single path component, or an asset directory
/// that would be the document itself, is an invalid path.
pub fn plan_from_parts(
    document: &str,
    stem: Option<String>,
    parent: Option<String>,
    image_name: &str,
    extension: &str,
) -> (r: Result<AssetPlan, WorkspaceError>)
    ensures
        stem is None ==> (r matches Err(e) && e.kind == ErrorKind::InvalidPath && e.cause@ == refusal_text(ErrorKind::InvalidPath)),
        stem is Some && parent is None ==> (r matches Err(e) && e.kind == ErrorKind::InvalidPath && e.cause@ == "the parent directory cannot be found"@),
        stem is Some && parent is Some && (!parts_valid(stem->Some_0@, image_name@, extension@)
            || dir_is_document(document@, parent->Some_0@, stem->Some_0@)) ==> (r matches Err(e)
            && e.kind == ErrorKind::InvalidPath && e.cause@ == refusal_text(ErrorKind::InvalidPath)),
        stem is Some && parent is Some && parts_valid(stem->Some_0@, image_name@, extension@)
            && !dir_is_document(document@, parent->Some_0@, stem->Some_0@) ==> (r matches Ok(p)
            && plan_matches(p, parent->Some_0@, stem->Some_0@, image_name@, extension@)
            && plan_consistent(p, parent->Some_0@)),
{
    let stem = match stem {
        Some(s) => s,
        None => return Err(refusal(ErrorKind::InvalidPath)),
    };
    let parent = match parent {
        Some(d) => d,
        None => return Err(WorkspaceError::new(ErrorKind::InvalidPath, String::from_str("the parent directory cannot be found"))),
    };
    if stem.as_str().unicode_len() == 0 || contains_separator(stem.as_str()) || contains_separator(image_name)
        || contains_separator(extension) {
        return Err(refusal(ErrorKind::InvalidPath));
    }
    let dir = join_path(parent.as_str(), stem.as_str());
    if dir == String::from_str(document) {
        return Err(refusal(ErrorKind::InvalidPath));
    }
    let mut file_name = String::from_str(image_name);
    file_name.append(".");
    file_name.append(extension);
    proof {
        reveal_strlit(".");
        reveal_strlit("/");
    }
    let mut file = dir.clone();
    file.append("/");
    file.append(file_name.as_str());
    let mut relative = stem.clone();
    relative.append("/");
    relative.append(file_name.as_str());
    let ghost fname = asset_file_name(image_name@, extension@);
    assert(relative@ =~= stem@ + seq!['/'] + fname);
    assert(file_name@ =~= fname);
    assert(file@ =~= dir@ + seq!['/'] + fname);
    proof {
        assert(stem@[0] != '/');
        assert(relative@[0] == stem@[0]);
        if parent@.len() == 0 || parent@.last() == '/' {
            assert(joined(parent@, relative@) =~= parent@ + relative@);
            assert(dir@ =~= parent@ + stem@);
        } else {
            assert(joined(parent@, relative@) =~= parent@ + seq!['/'] + relative@);
            assert(dir@ =~= parent@ + seq!['/'] + stem@);
        }
        assert(joined(parent@, relative@) =~= file@);
        assert(file@.subrange(0, dir@.len() + 1int) =~= dir@ + seq!['/']);
    }
    Ok(AssetPlan { dir, file, relative })
}

/// Places a pasted asset for the document at `file_path`: the directory
/// `<parent>/<stem>`, the file `<name>.<ext>` in it, and the reference
/// `<stem>/<name>.<ext>` to embed. Fails with an invalid path when the
/// document path has no stem or no parent, when the name or extension is not
/// a single path component, or when the asset directory would be the
/// document itself.
pub fn save_clipboard_image(file_path: &str, image_name: &str, extension: &str) -> (r: Result<
    AssetPlan,
    WorkspaceError,
>)
    ensures
        path_stem(file_path@) is None ==> (r matches Err(e) && e.kind == ErrorKind::InvalidPath),
        path_stem(file_path@) is Some && path_parent(file_path@) is None ==> (r matches Err(e)
            && e.kind == ErrorKind::InvalidPath),
        path_stem(file_path@) is Some && path_parent(file_path@) is Some && (!parts_valid(
            path_stem(file_path@)->Some_0,
            image_name@,
            extension@,
        ) || dir_is_document(file_path@, path_parent(file_path@)->Some_0, path_stem(file_path@)->Some_0))
            ==> (r matches Err(e) && e.kind == ErrorKind::InvalidPath),
        path_stem(file_path@) is Some && path_parent(file_path@) is Some && parts_valid(
            path_stem(file_path@)->Some_0,
            image_name@,
            extension@,
        ) && !dir_is_document(file_path@, path_parent(file_path@)->Some_0, path_stem(file_path@)->Some_0)
            ==> (r matches Ok(p) && plan_matches(
            p,
            path_parent(file_path@)->Some_0,
            path_stem(file_path@)->Some_0,
            image_name@,
            extension@,
        ) && plan_consistent(p, path_parent(file_path@)->Some_0)),
{
    let stem = file_stem_of(file_path);
    let parent = parent_of(file_path);
    plan_from_parts(file_path, stem, parent, image_name, extension)
}

} // verus!
