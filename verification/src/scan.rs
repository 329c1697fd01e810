//! What is made of each entry that is found below the video directory.

use std::path::Path;

use vstd::prelude::*;
use vstd::string::*;

use crate::paths::{extension, path_extension, path_parts, PathPart};

verus! {

/// How an entry below the video directory is handled.
#[derive(Clone, Copy, Debug, PartialEq, Eq, Structural)]
pub enum EntryRoute {
    Symlink,
    Dir,
    NonVideo,
    Video,
}

/// A byte in lower case, if it is an ASCII letter.
pub open spec fn lower(byte: u8) -> u8 {
    if 65 <= byte <= 90 {
        (byte + 32) as u8
    } else {
        byte
    }
}

/// The extensions of video files, in lower case.
pub open spec fn video_extensions() -> Seq<&'static str> {
    seq!["avi", "flv", "m4v", "mkv", "mov", "mp4", "mpg", "ts", "vob", "webm", "wmv"]
}

/// Whether `ext` reads `name`, whatever the case of its ASCII letters.
pub open spec fn reads_as(ext: Seq<u8>, name: &str) -> bool {
    ext.map_values(|byte: u8| lower(byte)) == name.spec_bytes()
}

/// Whether `ext` is the extension of a video file.
pub open spec fn is_video_extension(ext: Seq<u8>) -> bool {
    exists|i: int|
        0 <= i < video_extensions().len() && reads_as(ext, #[trigger] video_extensions()[i])
}

/// How an entry is handled: symlinks first, whatever they lead to, then directories. A file is a
/// video if its extension says so.
pub open spec fn entry_route(parts: Seq<PathPart>, is_symlink: bool, is_dir: bool) -> EntryRoute {
    if is_symlink {
        EntryRoute::Symlink
    } else if is_dir {
        EntryRoute::Dir
    } else {
        match extension(parts) {
            Some(ext) => if is_video_extension(ext) {
                EntryRoute::Video
            } else {
                EntryRoute::NonVideo
            },
            None => EntryRoute::NonVideo,
        }
    }
}

/// Whether `ext` reads `name`, whatever the case of its ASCII letters.
fn check_extension(ext: &Vec<u8>, name: &str) -> (same: bool)
    ensures
        same == reads_as(ext@, name),
{
    let bytes = name.as_bytes();
    let ghost lowered = ext@.map_values(|byte: u8| lower(byte));
    if ext.len() != bytes.len() {
        assert(lowered.len() != name.spec_bytes().len());
        return false;
    }
    let mut i: usize = 0;
    while i < ext.len()
        invariant
            i <= ext@.len() == bytes@.len(),
            bytes@ == name.spec_bytes(),
            lowered == ext@.map_values(|byte: u8| lower(byte)),
            forall|j: int| 0 <= j < i ==> lowered[j] == bytes@[j],
        decreases ext.len() - i,
    {
        let byte = ext[i];
        let lowered_byte = if 65 <= byte && byte <= 90 {
            byte + 32
        } else {
            byte
        };
        if lowered_byte != bytes[i] {
            assert(lowered[i as int] != bytes@[i as int]);
            return false;
        }
        i = i + 1;
    }
    assert(lowered =~= name.spec_bytes());
    true
}

/// Decides whether `ext` is the extension of a video file.
pub fn has_video_extension(ext: &Vec<u8>) -> (video: bool)
    ensures
        video == is_video_extension(ext@),
{
    let names = ["avi", "flv", "m4v", "mkv", "mov", "mp4", "mpg", "ts", "vob", "webm", "wmv"];
    assert(names@ =~= video_extensions());
    let mut i: usize = 0;
    while i < names.len()
        invariant
            i <= names@.len(),
            names@ == video_extensions(),
            forall|j: int| 0 <= j < i ==> !reads_as(ext@, #[trigger] video_extensions()[j]),
        decreases names.len() - i,
    {
        if check_extension(ext, names[i]) {
            assert(reads_as(ext@, video_extensions()[i as int]));
            return true;
        }
        i = i + 1;
    }
    false
}

/// Decides how an entry is handled.
pub fn route_entry(path: &Path, is_symlink: bool, is_dir: bool) -> (route: EntryRoute)
    ensures
        route == entry_route(path_parts(path), is_symlink, is_dir),
{
    if is_symlink {
        return EntryRoute::Symlink;
    }
    if is_dir {
        return EntryRoute::Dir;
    }
    match path_extension(path) {
        Some(ext) => if has_video_extension(&ext) {
            EntryRoute::Video
        } else {
            EntryRoute::NonVideo
        },
        None => EntryRoute::NonVideo,
    }
}

/// The case of an extension does not matter.
pub proof fn law_extension_case_does_not_matter(ext: Seq<u8>, other: Seq<u8>)
    requires
        ext.map_values(|byte: u8| lower(byte)) == other.map_values(|byte: u8| lower(byte)),
    ensures
        is_video_extension(ext) == is_video_extension(other),
{
    assert forall|i: int| 0 <= i < video_extensions().len() implies reads_as(
        ext,
        #[trigger] video_extensions()[i],
    ) == reads_as(other, video_extensions()[i]) by {}
}

/// A symlink is a symlink whatever it leads to, and a directory is one whatever its name. A file is
/// a video exactly if its name has one of the known extensions.
pub proof fn law_entries_are_told_apart(
    path: &Path,
    is_symlink: bool,
    is_dir: bool,
    route: EntryRoute,
)
    requires
        call_ensures(route_entry, (path, is_symlink, is_dir), route),
    ensures
        route == EntryRoute::Symlink <==> is_symlink,
        route == EntryRoute::Dir <==> !is_symlink && is_dir,
        route == EntryRoute::Video <==> !is_symlink && !is_dir && (extension(
            path_parts(path),
        ) matches Some(ext) && is_video_extension(ext)),
        route == entry_route(path_parts(path), is_symlink, is_dir),
{
}

/// An extension is one of a video exactly if it reads, in lower case, as one of these.
pub proof fn law_video_extensions(ext: Seq<u8>)
    ensures
        is_video_extension(ext) <==> {
            ||| reads_as(ext, "avi")
            ||| reads_as(ext, "flv")
            ||| reads_as(ext, "m4v")
            ||| reads_as(ext, "mkv")
            ||| reads_as(ext, "mov")
            ||| reads_as(ext, "mp4")
            ||| reads_as(ext, "mpg")
            ||| reads_as(ext, "ts")
            ||| reads_as(ext, "vob")
            ||| reads_as(ext, "webm")
            ||| reads_as(ext, "wmv")
        },
{
    let names = video_extensions();
    assert(names[0] == "avi" && names[1] == "flv" && names[2] == "m4v" && names[3] == "mkv");
    assert(names[4] == "mov" && names[5] == "mp4" && names[6] == "mpg" && names[7] == "ts");
    assert(names[8] == "vob" && names[9] == "webm" && names[10] == "wmv");
    if is_video_extension(ext) {
        let i = choose|i: int|
            0 <= i < video_extensions().len() && reads_as(ext, #[trigger] video_extensions()[i]);
        assert(i == 0 || i == 1 || i == 2 || i == 3 || i == 4 || i == 5 || i == 6 || i == 7 || i
            == 8 || i == 9 || i == 10);
    }
}

/// In lower case, a capital letter is the small one 32 places on, and anything else stays.
pub proof fn law_lower_case(byte: u8)
    ensures
        'A' as u8 <= byte <= 'Z' as u8 ==> lower(byte) == byte + 32,
        !('A' as u8 <= byte <= 'Z' as u8) ==> lower(byte) == byte,
        lower(lower(byte)) == lower(byte),
{
}

/// An extension reads as a name exactly if it has as many letters, and each is that of the name but
/// for its case.
pub proof fn law_extension_reads_letter_by_letter(ext: Seq<u8>, name: &str)
    ensures
        reads_as(ext, name) <==> ext.len() == name.spec_bytes().len() && forall|i: int|
            0 <= i < ext.len() ==> lower(#[trigger] ext[i]) == name.spec_bytes()[i],
{
    let lowered = ext.map_values(|byte: u8| lower(byte));
    if ext.len() == name.spec_bytes().len() && forall|i: int|
        0 <= i < ext.len() ==> lower(#[trigger] ext[i]) == name.spec_bytes()[i] {
        assert(lowered =~= name.spec_bytes());
    }
    if reads_as(ext, name) {
        assert forall|i: int| 0 <= i < ext.len() implies lower(#[trigger] ext[i])
            == name.spec_bytes()[i] by {
            assert(lowered[i] == lower(ext[i]));
        }
    }
}

/// What is decided of an extension is whether it is one of a video.
pub proof fn law_extension_is_decided(ext: &Vec<u8>, video: bool)
    requires
        call_ensures(has_video_extension, (ext,), video),
    ensures
        video <==> is_video_extension(ext@),
{
}

} // verus!
