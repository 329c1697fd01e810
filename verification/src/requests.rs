//! What the file handlers ask of the file system, one thing at a time.

use std::path::{Path, PathBuf};

use vstd::prelude::*;

use crate::paths::{buf_parts, path_parts, PathPart};

verus! {

/// A file that can be copied.
#[derive(Clone, Copy, Debug, PartialEq, Eq, Structural)]
pub enum CopySource {
    /// The file that the handler was given.
    File,
    /// The transcode of that file.
    Transcode,
}

/// Something to be done, but for copies of a transcode with the file that a handler was given.
#[derive(Debug)]
pub enum Request<'a> {
    /// See whether it is a symlink.
    IsSymlink,
    /// See whether it is a directory.
    IsDir,
    /// See whether it is a file.
    IsFile,
    /// Look for an entry in the directory.
    IsEmptyDir,
    /// Remove the file.
    RemoveFile,
    /// Remove the directory.
    RemoveDir,
    /// Find the canonical path of the file.
    Canonicalize,
    /// Create this directory and those that it lies in.
    CreateDirAll(&'a Path),
    /// Copy this file to this path.
    CopyTo(CopySource, &'a Path),
}

/// What came of a request.
#[derive(Debug)]
pub enum Reply {
    /// What was seen.
    Answer(bool),
    /// The canonical path.
    Located(PathBuf),
    /// It was done.
    Completed,
    /// It could not be done.
    Failed,
}

/// The mathematical content of a [`Request`].
pub enum RequestView {
    IsSymlink,
    IsDir,
    IsFile,
    IsEmptyDir,
    RemoveFile,
    RemoveDir,
    Canonicalize,
    CreateDirAll(Seq<PathPart>),
    CopyTo(CopySource, Seq<PathPart>),
}

/// The mathematical content of a [`Reply`].
pub enum ReplyView {
    Answer(bool),
    Located(Seq<PathPart>),
    Completed,
    Failed,
}

impl<'a> View for Request<'a> {
    type V = RequestView;

    open spec fn view(&self) -> RequestView {
        match *self {
            Request::IsSymlink => RequestView::IsSymlink,
            Request::IsDir => RequestView::IsDir,
            Request::IsFile => RequestView::IsFile,
            Request::IsEmptyDir => RequestView::IsEmptyDir,
            Request::RemoveFile => RequestView::RemoveFile,
            Request::RemoveDir => RequestView::RemoveDir,
            Request::Canonicalize => RequestView::Canonicalize,
            Request::CreateDirAll(dir) => RequestView::CreateDirAll(path_parts(dir)),
            Request::CopyTo(source, file) => RequestView::CopyTo(source, path_parts(file)),
        }
    }
}

impl View for Reply {
    type V = ReplyView;

    open spec fn view(&self) -> ReplyView {
        match *self {
            Reply::Answer(answer) => ReplyView::Answer(answer),
            Reply::Located(path) => ReplyView::Located(buf_parts(&path)),
            Reply::Completed => ReplyView::Completed,
            Reply::Failed => ReplyView::Failed,
        }
    }
}

/// The content of a request, if there is one.
pub open spec fn request_view(request: Option<Request<'_>>) -> Option<RequestView> {
    match request {
        Some(request) => Some(request@),
        None => None,
    }
}

impl RequestView {
    /// Whether `reply` can come of the request.
    pub open spec fn answered_by(self, reply: ReplyView) -> bool {
        match self {
            RequestView::IsSymlink | RequestView::IsDir | RequestView::IsFile => reply is Answer,
            RequestView::IsEmptyDir => reply is Answer || reply is Failed,
            RequestView::Canonicalize => reply is Located || reply is Failed,
            _ => reply is Completed || reply is Failed,
        }
    }

    /// Whether the request changes what the file system holds.
    pub open spec fn alters(self) -> bool {
        match self {
            RequestView::RemoveFile
            | RequestView::RemoveDir
            | RequestView::CreateDirAll(_)
            | RequestView::CopyTo(_, _) => true,
            _ => false,
        }
    }
}

/// A request asks for what it is called, of the path that it carries.
pub proof fn law_requests_mean_what_they_say(request: Request<'_>)
    ensures
        request@ is IsSymlink <==> request is IsSymlink,
        request@ is IsDir <==> request is IsDir,
        request@ is IsFile <==> request is IsFile,
        request@ is IsEmptyDir <==> request is IsEmptyDir,
        request@ is RemoveFile <==> request is RemoveFile,
        request@ is RemoveDir <==> request is RemoveDir,
        request@ is Canonicalize <==> request is Canonicalize,
        request matches Request::CreateDirAll(dir) ==> request@ == RequestView::CreateDirAll(
            path_parts(dir),
        ),
        request matches Request::CopyTo(source, file) ==> request@ == RequestView::CopyTo(
            source,
            path_parts(file),
        ),
{
}

/// A reply tells what it is called, of the path that it carries.
pub proof fn law_replies_mean_what_they_say(reply: Reply)
    ensures
        reply matches Reply::Answer(answer) ==> reply@ == ReplyView::Answer(answer),
        reply matches Reply::Located(path) ==> reply@ == ReplyView::Located(buf_parts(&path)),
        reply is Completed <==> reply@ == ReplyView::Completed,
        reply is Failed <==> reply@ == ReplyView::Failed,
{
}

/// A question is answered, a path is located, and anything else is completed. All but the plain
/// questions can fail.
pub proof fn law_requests_have_their_replies(request: RequestView, reply: ReplyView)
    ensures
        request.answered_by(reply) <==> match reply {
            ReplyView::Answer(_) => request is IsSymlink || request is IsDir || request is IsFile
                || request is IsEmptyDir,
            ReplyView::Located(_) => request is Canonicalize,
            ReplyView::Completed => request.alters(),
            ReplyView::Failed => request.alters() || request is IsEmptyDir
                || request is Canonicalize,
        },
        request.alters() <==> request is RemoveFile || request is RemoveDir
            || request is CreateDirAll || request is CopyTo,
{
}

} // verus!
