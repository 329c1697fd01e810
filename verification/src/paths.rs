//! Paths as sequences of components, and the path arithmetic behind every file move.

use std::hash::{Hash, Hasher};
use std::path::{Path, PathBuf};

use async_tempfile::TempFile;
use vstd::prelude::*;
use vstd::string::*;

verus! {

/// One component of a Unix path.
pub enum PathPart {
    /// The leading `/`.
    Root,
    /// A leading `.`.
    CurDir,
    /// A `..`.
    ParentDir,
    /// A file or directory name.
    Normal(Seq<u8>),
}

/// `std::path::Path`.
#[verifier::external_type_specification]
#[verifier::external_body]
pub struct ExPath(std::path::Path);

/// `std::path::PathBuf`.
#[verifier::external_type_specification]
#[verifier::external_body]
pub struct ExPathBuf(std::path::PathBuf);

/// `async_tempfile::TempFile`, a file that is removed once it is not used any more.
#[verifier::external_type_specification]
#[verifier::external_body]
pub struct ExTempFile(async_tempfile::TempFile);

/// The components that a path holds, as `Path::components` lists them.
pub uninterp spec fn path_parts(path: &Path) -> Seq<PathPart>;

/// The components that an owned path holds.
pub uninterp spec fn buf_parts(path: &PathBuf) -> Seq<PathPart>;

/// The components of the path of a temporary file.
pub uninterp spec fn temp_parts(file: &TempFile) -> Seq<PathPart>;

/// `.`
pub const DOT: u8 = 46;

/// `/`
pub const SEPARATOR: u8 = 47;

/// Whether `parts` is how a path can be made up: a root or a leading `.` stands first, names are
/// not empty and hold no separator.
pub open spec fn valid_parts(parts: Seq<PathPart>) -> bool {
    forall|i: int|
        0 <= i < parts.len() ==> match #[trigger] parts[i] {
            PathPart::Root | PathPart::CurDir => i == 0,
            PathPart::ParentDir => true,
            PathPart::Normal(name) => name.len() > 0 && !name.contains(SEPARATOR),
        }
}

/// The name that a path ends in, if it ends in one.
pub open spec fn file_name(parts: Seq<PathPart>) -> Option<Seq<u8>> {
    if parts.len() > 0 {
        match parts.last() {
            PathPart::Normal(name) => Some(name),
            _ => None,
        }
    } else {
        None
    }
}

/// Where the last `.` of a name stands, or -1 if it has none.
pub open spec fn final_dot(name: Seq<u8>) -> int
    decreases name.len(),
{
    if name.len() == 0 {
        -1
    } else if name.last() == DOT {
        name.len() - 1
    } else {
        final_dot(name.drop_last())
    }
}

/// A file name without its extension. A leading `.` starts no extension.
pub open spec fn stem_of(name: Seq<u8>) -> Seq<u8> {
    if final_dot(name) > 0 {
        name.take(final_dot(name))
    } else {
        name
    }
}

/// What follows the last `.` of a file name. A leading `.` starts no extension.
pub open spec fn extension_of(name: Seq<u8>) -> Option<Seq<u8>> {
    if final_dot(name) > 0 {
        Some(name.skip(final_dot(name) + 1))
    } else {
        None
    }
}

/// The extension of the name that a path ends in.
pub open spec fn extension(parts: Seq<PathPart>) -> Option<Seq<u8>> {
    match file_name(parts) {
        Some(name) => extension_of(name),
        None => None,
    }
}

/// A path with the extension of its file name replaced by one that is not empty, or with that one
/// added where there was none. A path that ends in no name is left as it is.
pub open spec fn replaced_extension(parts: Seq<PathPart>, ext: Seq<u8>) -> Seq<PathPart> {
    match file_name(parts) {
        Some(name) => parts.drop_last().push(PathPart::Normal(stem_of(name).push(DOT) + ext)),
        None => parts,
    }
}

/// Whether a path ends in a name that is a `.` but for its extension.
pub open spec fn dot_stem(parts: Seq<PathPart>) -> bool {
    file_name(parts) matches Some(name) && stem_of(name) == seq![DOT]
}

/// `rest` taken as seen from `base`: an absolute `rest` stands for itself, and a leading `.` of
/// `rest` adds nothing to a `base` that is not empty.
pub open spec fn joined(base: Seq<PathPart>, rest: Seq<PathPart>) -> Seq<PathPart> {
    if rest.len() > 0 && rest[0] is Root {
        rest
    } else if rest.len() > 0 && rest[0] is CurDir && base.len() > 0 {
        base + rest.skip(1)
    } else {
        base + rest
    }
}

/// Whether a path has a parent: it is neither empty nor does it end in a root.
pub open spec fn has_parent(parts: Seq<PathPart>) -> bool {
    parts.len() > 0 && !(parts.last() is Root)
}

/// `PathBuf::as_path`: the borrowed path holds the same components, and those make up a path.
#[verifier::external_body]
pub(crate) fn borrow_path(path: &PathBuf) -> (borrowed: &Path)
    ensures
        path_parts(borrowed) == buf_parts(path),
        valid_parts(path_parts(borrowed)),
{
    path.as_path()
}

/// `TempFile::file_path`: the path that the file holds for as long as it lives.
#[verifier::external_body]
fn temp_path(file: &TempFile) -> (path: &PathBuf)
    ensures
        buf_parts(path) == temp_parts(file),
{
    file.file_path()
}

/// `Path::eq`: two paths are equal if their components are.
#[verifier::external_body]
fn same_path(a: &Path, b: &Path) -> (same: bool)
    ensures
        same == (path_parts(a) == path_parts(b)),
{
    a.eq(b)
}

/// `Path::hash`: feeds the path to the hasher. Nothing is claimed of the hasher's state: what a
/// path feeds to it is not portable, and what a hasher makes of it is up to its implementation.
#[verifier::external_body]
fn hash_path<H: Hasher>(path: &Path, state: &mut H) {
    path.hash(state);
}

/// `Path::extension`: what follows the last `.` of the file name, unless that `.` starts it.
#[verifier::external_body]
pub(crate) fn path_extension(path: &Path) -> (ext: Option<Vec<u8>>)
    ensures
        ext is Some <==> extension(path_parts(path)) is Some,
        ext matches Some(bytes) ==> Some(bytes@) == extension(path_parts(path)),
{
    path.extension().map(|ext| ext.as_encoded_bytes().to_vec())
}

/// `Path::with_extension`: the extension is replaced, or added where there was none. The new
/// extension may not be empty, which could leave a `.` or `..` as the name, nor hold a separator.
/// Nothing is claimed of a name like `..mp4`: without its extension it may be taken for a `..`,
/// which has none.
#[verifier::external_body]
pub(crate) fn path_with_extension(path: &Path, ext: &str) -> (renamed: PathBuf)
    requires
        ext.spec_bytes().len() > 0,
        !ext.spec_bytes().contains(SEPARATOR),
    ensures
        !dot_stem(path_parts(path)) ==> buf_parts(&renamed) == replaced_extension(
            path_parts(path),
            ext.spec_bytes(),
        ),
{
    path.with_extension(ext)
}

/// `Path::strip_prefix`: succeeds if the components of `base` come first in `path`, and gives
/// the components after them, which make up the path together with those of `base`.
#[verifier::external_body]
fn strip_base<'a>(path: &'a Path, base: &Path) -> (rest: Option<&'a Path>)
    ensures
        rest is Some <==> path_parts(base).is_prefix_of(path_parts(path)),
        rest matches Some(rest) ==> path_parts(rest) == path_parts(path).skip(
            path_parts(base).len() as int,
        ) && valid_parts(path_parts(base) + path_parts(rest)),
{
    path.strip_prefix(base).ok()
}

/// `Path::join`: appends `rest`, which replaces `base` if it is absolute.
#[verifier::external_body]
fn join_paths(base: &Path, rest: &Path) -> (whole: PathBuf)
    ensures
        buf_parts(&whole) == joined(path_parts(base), path_parts(rest)),
{
    base.join(rest)
}

/// `Path::parent`: the path without its final component, unless it is empty or ends in a root.
#[verifier::external_body]
fn path_parent(path: &Path) -> (parent: Option<PathBuf>)
    ensures
        parent is Some <==> has_parent(path_parts(path)),
        parent matches Some(parent) ==> buf_parts(&parent) == path_parts(path).drop_last(),
{
    path.parent().map(|parent| parent.to_path_buf())
}

/// What a file can be found by: a path of its own, or something that owns one.
pub trait AsPath: std::fmt::Debug {
    /// The components of the path.
    spec fn parts(&self) -> Seq<PathPart>;

    fn as_path(&self) -> (path: &Path)
        ensures
            path_parts(path) == self.parts(),
            valid_parts(path_parts(path)),
    ;
}

impl AsPath for PathBuf {
    open spec fn parts(&self) -> Seq<PathPart> {
        buf_parts(self)
    }

    fn as_path(&self) -> (path: &Path) {
        borrow_path(self)
    }
}

impl AsPath for TempFile {
    open spec fn parts(&self) -> Seq<PathPart> {
        temp_parts(self)
    }

    fn as_path(&self) -> (path: &Path) {
        borrow_path(temp_path(self))
    }
}

/// Whether `state` is a hasher that goes from what it is to what it becomes as one can when a path
/// of these components is fed to it.
pub closed spec fn feeds<H: Hasher>(parts: Seq<PathPart>, state: &mut H) -> bool {
    exists|path: &Path|
        path_parts(path) == parts && #[trigger] call_ensures(hash_path::<H>, (path, state), ())
}

/// Feeds the path that `p` is found by to a hasher, once. What can become of the hasher depends on
/// the components of that path, and on nothing else that `p` holds.
pub fn hash_as_path<P: AsPath, H: Hasher>(p: &P, state: &mut H)
    ensures
        exists|fed: &mut H| #[trigger]
            feeds(p.parts(), fed) && *fed == *old(state) && *final(fed) == *final(state),
{
    let path = p.as_path();
    let feed = hash_path::<H>;
    feed(path, state);
    assert(forall|fed: &mut H| #[trigger]
        call_ensures(feed, (path, fed), ()) ==> feeds(p.parts(), fed));
}

/// Things that are found by the same path do the same to hashers that are alike, if what becomes
/// of such a hasher is determined by the components that it is fed.
pub proof fn law_equal_paths_hash_alike<A: AsPath, B: AsPath, H: Hasher>(
    a: &A,
    b: &B,
    s: &mut H,
    t: &mut H,
)
    requires
        forall|f: &mut H, g: &mut H| #[trigger]
            feeds(a.parts(), f) && #[trigger] feeds(a.parts(), g) && *f == *g ==> *final(f)
                == *final(g),
        a.parts() == b.parts(),
        *s == *t,
        feeds(a.parts(), s),
        feeds(b.parts(), t),
    ensures
        *final(s) == *final(t),
{
}

/// Whether `a` and `b` are found by the same path.
pub fn eq_as_path<A: AsPath, B: AsPath>(a: &A, b: &B) -> (same: bool)
    ensures
        same == (a.parts() == b.parts()),
{
    same_path(a.as_path(), b.as_path())
}

/// Where a file goes when it is moved from one directory tree to another.
#[derive(Debug)]
pub struct Destination {
    /// The path that the file is given.
    pub file: PathBuf,
    /// The directory that has to exist first.
    pub dir: PathBuf,
}

/// Why a file has no place in another directory tree.
#[derive(Clone, Copy, Debug, PartialEq, Eq, Structural)]
pub enum SubtreeError {
    /// The file does not lie below the root that it is moved from.
    OutsideRoot,
    /// The place it would be given lies in no directory.
    NoParent,
}

/// The place below `dst_root` that corresponds to `src_file`'s place below `src_root`.
pub open spec fn relocated(
    src_root: Seq<PathPart>,
    src_file: Seq<PathPart>,
    dst_root: Seq<PathPart>,
) -> Seq<PathPart> {
    joined(dst_root, src_file.skip(src_root.len() as int))
}

/// Finds the place below `dst_root` for the file `src_file`, a canonical path, that lies
/// below `src_root`.
pub fn recreate_subtree(src_root: &Path, src_file: &Path, dst_root: &Path) -> (found: Result<
    Destination,
    SubtreeError,
>)
    ensures
        ({
            let inside = path_parts(src_root).is_prefix_of(path_parts(src_file));
            let target = relocated(path_parts(src_root), path_parts(src_file), path_parts(dst_root));
            match found {
                Ok(destination) => {
                    &&& inside
                    &&& has_parent(target)
                    &&& buf_parts(&destination.file) == target
                    &&& buf_parts(&destination.dir) == target.drop_last()
                    &&& path_parts(src_root).len() > 0 ==> {
                        &&& path_parts(dst_root).is_prefix_of(target)
                        &&& target.skip(path_parts(dst_root).len() as int) == path_parts(
                            src_file,
                        ).skip(path_parts(src_root).len() as int)
                    }
                },
                Err(SubtreeError::OutsideRoot) => !inside,
                Err(SubtreeError::NoParent) => inside && !has_parent(target),
            }
        }),
{
    match strip_base(src_file, src_root) {
        Some(subtree) => {
            proof {
                assert(path_parts(src_root) + path_parts(subtree) =~= path_parts(src_file));
                if path_parts(src_root).len() > 0 {
                    law_relocation_mirrors_tree(
                        path_parts(src_root),
                        path_parts(src_file),
                        path_parts(dst_root),
                    );
                }
            }
            let file = join_paths(dst_root, subtree);
            match path_parent(borrow_path(&file)) {
                Some(dir) => Ok(Destination { file, dir }),
                None => Err(SubtreeError::NoParent),
            }
        },
        None => Err(SubtreeError::OutsideRoot),
    }
}

/// A file moved to another tree lies below that tree's root, at the place it had below its own.
/// The root that it is moved from must not be empty: below the empty path, absolute paths lie too.
pub proof fn law_relocation_mirrors_tree(
    src_root: Seq<PathPart>,
    src_file: Seq<PathPart>,
    dst_root: Seq<PathPart>,
)
    requires
        valid_parts(src_file),
        src_root.is_prefix_of(src_file),
        src_root.len() > 0,
    ensures
        dst_root.is_prefix_of(relocated(src_root, src_file, dst_root)),
        relocated(src_root, src_file, dst_root).skip(dst_root.len() as int) == src_file.skip(
            src_root.len() as int,
        ),
{
    let rest = src_file.skip(src_root.len() as int);
    if rest.len() > 0 {
        assert(rest[0] == src_file[src_root.len() as int]);
    }
    assert((dst_root + rest).skip(dst_root.len() as int) =~= rest);
}

/// Different files are moved to different places.
pub proof fn law_relocation_keeps_files_apart(
    src_root: Seq<PathPart>,
    file: Seq<PathPart>,
    other: Seq<PathPart>,
    dst_root: Seq<PathPart>,
)
    requires
        valid_parts(file),
        valid_parts(other),
        src_root.is_prefix_of(file),
        src_root.is_prefix_of(other),
        src_root.len() > 0,
        file != other,
    ensures
        relocated(src_root, file, dst_root) != relocated(src_root, other, dst_root),
{
    law_relocation_mirrors_tree(src_root, file, dst_root);
    law_relocation_mirrors_tree(src_root, other, dst_root);
    if file.skip(src_root.len() as int) == other.skip(src_root.len() as int) {
        assert(file =~= src_root + file.skip(src_root.len() as int));
        assert(other =~= src_root + other.skip(src_root.len() as int));
    }
}

/// Moving a file to its own tree leaves it where it is.
pub proof fn law_relocation_home(root: Seq<PathPart>, file: Seq<PathPart>)
    requires
        valid_parts(file),
        root.is_prefix_of(file),
        root.len() > 0,
    ensures
        relocated(root, file, root) == file,
{
    law_relocation_mirrors_tree(root, file, root);
    assert(file =~= root + file.skip(root.len() as int));
    assert(relocated(root, file, root) =~= root + file.skip(root.len() as int));
}

/// The last `.` of a name is a `.`, and none follows it.
proof fn lemma_final_dot(name: Seq<u8>)
    ensures
        -1 <= final_dot(name) < name.len(),
        final_dot(name) >= 0 ==> name[final_dot(name)] == DOT,
        forall|i: int| final_dot(name) < i < name.len() ==> name[i] != DOT,
    decreases name.len(),
{
    if name.len() > 0 && name.last() != DOT {
        lemma_final_dot(name.drop_last());
        assert forall|i: int| final_dot(name) < i < name.len() implies name[i] != DOT by {
            if i < name.len() - 1 {
                assert(name.drop_last()[i] == name[i]);
            }
        }
    }
}

/// A `.` that no other follows is the last one.
proof fn lemma_final_dot_unique(name: Seq<u8>, at: int)
    requires
        0 <= at < name.len(),
        name[at] == DOT,
        forall|i: int| at < i < name.len() ==> name[i] != DOT,
    ensures
        final_dot(name) == at,
{
    lemma_final_dot(name);
    if final_dot(name) < at {
        assert(name[at] != DOT);
    }
}

/// Whether `ext` can be read back as an extension: it is not empty and holds no `.`.
pub open spec fn plain_extension(ext: Seq<u8>) -> bool {
    ext.len() > 0 && !ext.contains(DOT)
}

/// A replaced extension is the one that is read back, and nothing else of the path changes:
/// neither the directory nor the name before the extension.
pub proof fn law_replaced_extension_is_read_back(parts: Seq<PathPart>, ext: Seq<u8>)
    requires
        valid_parts(parts),
        plain_extension(ext),
        file_name(parts) is Some,
    ensures
        extension(replaced_extension(parts, ext)) == Some(ext),
        replaced_extension(parts, ext).drop_last() == parts.drop_last(),
        file_name(replaced_extension(parts, ext)) is Some,
        stem_of(file_name(replaced_extension(parts, ext)).unwrap()) == stem_of(
            file_name(parts).unwrap(),
        ),
{
    let name = file_name(parts).unwrap();
    let stem = stem_of(name);
    let renamed = stem.push(DOT) + ext;
    assert(parts[parts.len() - 1] == PathPart::Normal(name));
    lemma_final_dot(name);
    assert(stem.len() > 0);
    assert forall|i: int| stem.len() < i < renamed.len() implies renamed[i] != DOT by {
        assert(renamed[i] == ext[i - stem.len() - 1]);
        assert(ext.contains(ext[i - stem.len() - 1]));
    }
    lemma_final_dot_unique(renamed, stem.len() as int);
    assert(renamed.skip(stem.len() as int + 1) =~= ext);
    assert(renamed.take(stem.len() as int) =~= stem);
    assert(replaced_extension(parts, ext).last() == PathPart::Normal(renamed));
    assert(replaced_extension(parts, ext).drop_last() =~= parts.drop_last());
}

/// Replacing an extension gives the same path back exactly when the path had that extension.
pub proof fn law_replaced_extension_fixpoint(parts: Seq<PathPart>, ext: Seq<u8>)
    requires
        valid_parts(parts),
        plain_extension(ext),
        file_name(parts) is Some,
    ensures
        replaced_extension(parts, ext) == parts <==> extension(parts) == Some(ext),
{
    law_replaced_extension_is_read_back(parts, ext);
    if extension(parts) == Some(ext) {
        let name = file_name(parts).unwrap();
        lemma_final_dot(name);
        assert(name =~= stem_of(name).push(DOT) + ext);
        assert(replaced_extension(parts, ext) =~= parts);
    }
}

/// The extension of a name is what follows its last `.`, which does not stand first, and the stem
/// is what comes before it. A name without such a `.` is all stem.
pub proof fn law_extension_follows_last_dot(name: Seq<u8>)
    ensures
        match extension_of(name) {
            Some(ext) => name == stem_of(name).push(DOT) + ext && stem_of(name).len() > 0
                && !ext.contains(DOT),
            None => stem_of(name) == name && forall|i: int|
                0 < i < name.len() ==> #[trigger] name[i] != DOT,
        },
        DOT == '.' as u8,
{
    lemma_final_dot(name);
    if final_dot(name) > 0 {
        let ext = name.skip(final_dot(name) + 1);
        assert(name =~= stem_of(name).push(DOT) + ext);
        if ext.contains(DOT) {
            let i = choose|i: int| 0 <= i < ext.len() && ext[i] == DOT;
            assert(name[final_dot(name) + 1 + i] == DOT);
        }
    }
}

/// The extension of a path is that of the name that it ends in.
pub proof fn law_extension_is_of_the_last_name(parents: Seq<PathPart>, last: PathPart)
    ensures
        extension(parents.push(last)) == match last {
            PathPart::Normal(name) => extension_of(name),
            _ => None,
        },
        extension(Seq::<PathPart>::empty()) is None,
{
    assert(parents.push(last).last() == last);
}

/// Things are found by the same path exactly if all components are the same.
pub proof fn law_paths_are_equal_by_component<A: AsPath, B: AsPath>(a: &A, b: &B, same: bool)
    requires
        call_ensures(eq_as_path::<A, B>, (a, b), same),
    ensures
        same <==> a.parts().len() == b.parts().len() && forall|i: int|
            0 <= i < a.parts().len() ==> #[trigger] a.parts()[i] == b.parts()[i],
{
    if a.parts().len() == b.parts().len() && forall|i: int|
        0 <= i < a.parts().len() ==> #[trigger] a.parts()[i] == b.parts()[i] {
        assert(a.parts() =~= b.parts());
    }
}

/// A file below its root always finds a place below another root, in the directory that it is then
/// in, and that place ends with the name that the file has. A file that does not lie below the root
/// never does.
pub proof fn law_files_below_root_find_a_place(
    src_root: &Path,
    src_file: &Path,
    dst_root: &Path,
    found: Result<Destination, SubtreeError>,
)
    requires
        call_ensures(recreate_subtree, (src_root, src_file, dst_root), found),
        valid_parts(path_parts(src_file)),
        path_parts(src_root).len() > 0,
    ensures
        !path_parts(src_root).is_prefix_of(path_parts(src_file)) <==> found == Err::<
            Destination,
            _,
        >(SubtreeError::OutsideRoot),
        path_parts(src_root).is_prefix_of(path_parts(src_file)) && path_parts(src_file).len()
            > path_parts(src_root).len() ==> {
            &&& found is Ok
            &&& buf_parts(&found.unwrap().file) == path_parts(dst_root) + path_parts(src_file).skip(
                path_parts(src_root).len() as int,
            )
            &&& buf_parts(&found.unwrap().dir) == buf_parts(&found.unwrap().file).drop_last()
            &&& buf_parts(&found.unwrap().file).last() == path_parts(src_file).last()
        },
{
    let root = path_parts(src_root);
    let file = path_parts(src_file);
    let rest = file.skip(root.len() as int);
    if root.is_prefix_of(file) && file.len() > root.len() {
        law_relocation_mirrors_tree(root, file, path_parts(dst_root));
        assert(rest[0] == file[root.len() as int]);
        assert(rest.last() == file[file.len() - 1]);
        let target = relocated(root, file, path_parts(dst_root));
        assert(target =~= path_parts(dst_root) + rest);
        assert(target.last() == file.last());
    }
}

/// A name is a `.` but for its extension exactly if it is one, or if it starts with two and has no
/// other.
pub proof fn law_dot_stems(parents: Seq<PathPart>, name: Seq<u8>)
    ensures
        dot_stem(parents.push(PathPart::Normal(name))) <==> name == seq![DOT] || (name.len() >= 2
            && name[0] == DOT && name[1] == DOT && forall|i: int|
            2 <= i < name.len() ==> #[trigger] name[i] != DOT),
        !dot_stem(parents.push(PathPart::ParentDir)),
        !dot_stem(Seq::<PathPart>::empty()),
{
    let parts = parents.push(PathPart::Normal(name));
    assert(parts.last() == PathPart::Normal(name));
    assert(parents.push(PathPart::ParentDir).last() is ParentDir);
    lemma_final_dot(name);
    if dot_stem(parts) && final_dot(name) > 0 {
        assert(name.take(final_dot(name)).len() == 1);
        assert(name.take(final_dot(name))[0] == DOT);
    }
    if name.len() >= 2 && name[0] == DOT && name[1] == DOT && forall|i: int|
        2 <= i < name.len() ==> #[trigger] name[i] != DOT {
        lemma_final_dot_unique(name, 1);
        assert(stem_of(name) =~= seq![DOT]);
    }
    if name == seq![DOT] {
        assert(final_dot(name) <= 0);
    }
}

/// A path that ends in no name is left as it is when its extension is replaced.
pub proof fn law_nameless_paths_keep_their_end(parts: Seq<PathPart>, ext: Seq<u8>)
    requires
        parts.len() == 0 || !(parts.last() is Normal),
    ensures
        replaced_extension(parts, ext) == parts,
        file_name(parts) is None,
{
}

} // verus!
