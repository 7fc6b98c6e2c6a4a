//! Files found in the local tree.

use vstd::prelude::*;
use crate::record::{optional_text, FileRecord, FileWrapper, DIRECTORY_MIME_TYPE};
use crate::timestamp::Timestamp;

verus! {

/// The MIME type of a local file whose extension tells nothing.
pub const DEFAULT_MIME_TYPE: &'static str = "text/plain";

/// The first media type that `mime_guess::from_path` guesses for `path`, in
/// the short form that `Mime::essence_str` gives it; `None` where it guesses
/// nothing. The guess goes by the extension of the path's last segment, as
/// the standard library finds it on the host.
pub uninterp spec fn guessed_mime_type(path: Seq<char>) -> Option<Seq<char>>;

/// Asks `mime_guess::from_path` for the media types of `path` and hands back
/// the first one, written by `Mime::essence_str`.
#[verifier::external_body]
fn guess_mime_type(path: &str) -> (guess: Option<String>)
    ensures
        optional_text(guess) == guessed_mime_type(path@),
{
    mime_guess::from_path(path).first().map(|mime| mime.essence_str().to_string())
}

/// The MIME type of a local file: the folder type for a folder, else what
/// was guessed from the path, else `DEFAULT_MIME_TYPE`.
pub open spec fn local_mime(guess: Option<Seq<char>>, directory: bool) -> Seq<char> {
    if directory {
        DIRECTORY_MIME_TYPE@
    } else {
        match guess {
            Some(mime_type) => mime_type,
            None => DEFAULT_MIME_TYPE@,
        }
    }
}

/// The record of a local file: it has no identifier and no link yet, is
/// owned and not trashed, and both its times are the file's modification
/// time.
pub open spec fn local_record(
    name: Seq<char>,
    path: Seq<char>,
    directory: bool,
    modified: Timestamp,
    guess: Option<Seq<char>>,
) -> FileRecord {
    FileRecord {
        id: Seq::empty(),
        name,
        mime_type: local_mime(guess, directory),
        path,
        directory,
        web_view_link: None,
        owned_by_me: true,
        last_modified: modified,
        last_accessed: modified,
        trashed: false,
    }
}

/// Chooses the MIME type of a local file, given what was guessed from its path.
pub fn local_mime_type(guess: Option<String>, directory: bool) -> (mime_type: String)
    ensures
        mime_type@ == local_mime(optional_text(guess), directory),
{
    if directory {
        DIRECTORY_MIME_TYPE.to_string()
    } else {
        match guess {
            Some(mime_type) => mime_type,
            None => DEFAULT_MIME_TYPE.to_string(),
        }
    }
}

/// Makes the record of a local file, given what was guessed from its path.
pub fn local_file_of(
    name: String,
    path: String,
    directory: bool,
    modified: Timestamp,
    guess: Option<String>,
) -> (file: FileWrapper)
    ensures
        file@ == local_record(name@, path@, directory, modified, optional_text(guess)),
{
    FileWrapper {
        id: String::new(),
        name,
        mime_type: local_mime_type(guess, directory),
        path,
        directory,
        web_view_link: None,
        owned_by_me: true,
        last_modified: modified,
        last_accessed: modified,
        trashed: false,
    }
}

/// Makes the record of the local file `name` at `path`, last modified at
/// `modified`. The MIME type of a file that is no folder is guessed from its
/// path.
pub fn local_file(name: String, path: String, directory: bool, modified: Timestamp) -> (file:
    FileWrapper)
    ensures
        file@ == local_record(name@, path@, directory, modified, guessed_mime_type(path@)),
{
    let guess = if directory {
        None
    } else {
        guess_mime_type(path.as_str())
    };
    local_file_of(name, path, directory, modified, guess)
}

} // verus!
