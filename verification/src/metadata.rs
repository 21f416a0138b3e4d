//! The layout of the metadata tree: `/metadata/{sha}` holds what was
//! extracted from the file with the content key `sha`, its attachments under
//! `att` and its subtitles under `sub`.

use crate::text::chars_of;
use vstd::prelude::*;
use vstd::string::*;

verus! {

/// The metadata directory of the content key `sha`.
pub open spec fn metadata_dir(sha: Seq<char>) -> Seq<char> {
    "/metadata/"@ + sha
}

/// A path with one more component, as the file system reads it: a component
/// that starts at the root stands alone; any other follows the path, after a
/// `/` unless the path is empty or ends in one.
pub open spec fn joined(base: Seq<char>, component: Seq<char>) -> Seq<char> {
    if component.len() > 0 && component[0] == '/' {
        component
    } else if base.len() > 0 && base.last() != '/' {
        base + "/"@ + component
    } else {
        base + component
    }
}

/// The file of the attachment `name` of the content key `sha`.
pub open spec fn attachment_path(sha: Seq<char>, name: Seq<char>) -> Seq<char> {
    joined(joined(joined("/metadata"@, sha), "att"@), name)
}

/// The file of the subtitle `name` of the content key `sha`.
pub open spec fn subtitle_path(sha: Seq<char>, name: Seq<char>) -> Seq<char> {
    joined(joined(joined("/metadata"@, sha), "sub"@), name)
}

/// The metadata directory of the content key `sha`: while it is missing, the
/// extraction is due.
pub fn get_metadata_dir(sha: &str) -> (dir: String)
    ensures
        dir@ == metadata_dir(sha@),
{
    let mut dir = "/metadata/".to_owned();
    dir.append(sha);
    dir
}

/// Adds a component to a path.
pub fn join(base: String, component: &str) -> (path: String)
    ensures
        path@ == joined(base@, component@),
{
    let part = chars_of(component);
    if part.len() > 0 && part[0] == '/' {
        return component.to_owned();
    }
    let start = chars_of(base.as_str());
    let mut path = base;
    if start.len() > 0 && start[start.len() - 1] != '/' {
        path.append("/");
    }
    path.append(component);
    path
}

/// The file of the attachment `name` of the content key `sha`.
pub fn get_attachment_path(sha: &str, name: &str) -> (file: String)
    ensures
        file@ == attachment_path(sha@, name@),
{
    join(join(join("/metadata".to_owned(), sha), "att"), name)
}

/// The file of the subtitle `name` of the content key `sha`.
pub fn get_subtitle_path(sha: &str, name: &str) -> (file: String)
    ensures
        file@ == subtitle_path(sha@, name@),
{
    join(join(join("/metadata".to_owned(), sha), "sub"), name)
}

} // verus!
