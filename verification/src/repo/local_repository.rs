//! A repository backed by a directory of the local file system.

use vstd::prelude::*;
use vstd::utf8::{decode_utf8, encode_utf8, encode_utf8_decode_utf8, valid_utf8};

use crate::repo::platform::{
    debug_format, debug_text, io_error, join_path, joined_path, path_exists, path_is_dir,
    path_is_file, text_from_utf8,
};

verus! {

/// What the cause of a `FileReadError` says when a file does not hold text.
pub const INVALID_TEXT: &'static str = "stream did not contain valid UTF-8";

/// Why a [`LocalRepository`] could not be made, or could not give a file.
#[derive(Debug)]
pub enum LocalRepositoryError {
    /// Nothing exists at `path`.
    FileNotFound { path: String },
    /// `path` exists, and is no regular file.
    NotAFile { path: String },
    /// `path` exists, and is no directory.
    NotADirectory { path: String },
    /// The file could not be opened, read or decoded as text.
    FileReadError(std::io::Error),
}

/// What a [`LocalRepositoryError`] says, with each path as the sequence of its
/// characters.
pub enum Failure {
    FileNotFound { path: Seq<char> },
    NotAFile { path: Seq<char> },
    NotADirectory { path: Seq<char> },
    FileReadError(std::io::Error),
}

impl View for LocalRepositoryError {
    type V = Failure;

    open spec fn view(&self) -> Failure {
        match *self {
            LocalRepositoryError::FileNotFound { path } => Failure::FileNotFound { path: path@ },
            LocalRepositoryError::NotAFile { path } => Failure::NotAFile { path: path@ },
            LocalRepositoryError::NotADirectory { path } => Failure::NotADirectory { path: path@ },
            LocalRepositoryError::FileReadError(cause) => Failure::FileReadError(cause),
        }
    }
}

impl Failure {
    /// The line that tells a reader of the failure. A path is written as
    /// `{:?}` writes a string; the cause of a failed read is not part of it.
    pub open spec fn message(self) -> Seq<char> {
        match self {
            Failure::FileNotFound { path } => "File not found: "@ + debug_text(path),
            Failure::NotAFile { path } => "Not a file: "@ + debug_text(path),
            Failure::NotADirectory { path } => "Not a directory: "@ + debug_text(path),
            Failure::FileReadError(_) => "Failed to read file contents"@,
        }
    }
}

impl LocalRepositoryError {
    /// The line that tells a reader of this error.
    pub fn message(&self) -> (text: String)
        ensures
            text@ == self@.message(),
    {
        match self {
            LocalRepositoryError::FileNotFound { path } => String::from_str(
                "File not found: ",
            ).concat(debug_format(path.as_str()).as_str()),
            LocalRepositoryError::NotAFile { path } => String::from_str("Not a file: ").concat(
                debug_format(path.as_str()).as_str(),
            ),
            LocalRepositoryError::NotADirectory { path } => String::from_str(
                "Not a directory: ",
            ).concat(debug_format(path.as_str()).as_str()),
            LocalRepositoryError::FileReadError(_) => String::from_str(
                "Failed to read file contents",
            ),
        }
    }
}

impl From<std::io::Error> for LocalRepositoryError {
    /// A failure to open or read a file becomes a `FileReadError` that holds it.
    fn from(cause: std::io::Error) -> (error: Self) {
        LocalRepositoryError::FileReadError(cause)
    }
}

impl vstd::std_specs::convert::FromSpecImpl<std::io::Error> for LocalRepositoryError {
    open spec fn obeys_from_spec() -> bool {
        true
    }

    open spec fn from_spec(cause: std::io::Error) -> Self {
        LocalRepositoryError::FileReadError(cause)
    }
}

/// A repository whose files lie under one directory of the local file system.
///
/// The root was found to exist and to be a directory when the repository was
/// made. It is not looked at again, and it is never changed.
pub struct LocalRepository<'src> {
    directory: &'src str,
}

impl<'src> View for LocalRepository<'src> {
    type V = Seq<char>;

    /// The root directory, as the sequence of its characters.
    closed spec fn view(&self) -> Seq<char> {
        self.directory@
    }
}

impl<'src> LocalRepository<'src> {
    /// A repository rooted at `path`, if `path` exists and is a directory.
    ///
    /// The disk is asked whether `path` exists and, if so, whether it is a
    /// directory; [`LocalRepository::from_probe`] says what is returned for
    /// each answer. Whatever the disk answers, a repository that comes back
    /// has `path` as its root, and an error that comes back is `FileNotFound`
    /// or `NotADirectory` and names `path`.
    pub fn new(path: &'src str) -> (res: Result<Self, LocalRepositoryError>)
        ensures
            match res {
                Ok(repo) => repo@ == path@,
                Err(e) => e@ == (Failure::FileNotFound { path: path@ }) || e@
                    == (Failure::NotADirectory { path: path@ }),
            },
    {
        let exists = path_exists(path);
        let is_dir = exists && path_is_dir(path);
        Self::from_probe(path, exists, is_dir)
    }

    /// A repository rooted at `path`, given what the disk answered about
    /// `path`: `FileNotFound` if it does not exist, else `NotADirectory` if it
    /// is no directory, else the repository.
    pub fn from_probe(path: &'src str, exists: bool, is_dir: bool) -> (res: Result<
        Self,
        LocalRepositoryError,
    >)
        ensures
            !exists ==> (res matches Err(e) && e@ == (Failure::FileNotFound { path: path@ })),
            exists && !is_dir ==> (res matches Err(e) && e@ == (Failure::NotADirectory {
                path: path@,
            })),
            exists && is_dir ==> (res matches Ok(repo) && repo@ == path@),
    {
        if !exists {
            return Err(LocalRepositoryError::FileNotFound { path: path.to_owned() });
        }
        if !is_dir {
            return Err(LocalRepositoryError::NotADirectory { path: path.to_owned() });
        }
        Ok(Self { directory: path })
    }

    /// The root directory.
    pub fn root(&self) -> (root: &'src str)
        ensures
            root@ == self@,
    {
        self.directory
    }

    /// The path of the file that `path` names under the root, if it exists and
    /// is a regular file: the path to read.
    ///
    /// `path` is joined to the root as it is, dots included, so the result may
    /// lie outside the root. The disk is asked whether the joined path exists
    /// and, if so, whether it is a regular file;
    /// [`LocalRepository::check_file`] says what is returned for each answer.
    /// Whatever the disk answers, a path that comes back is the joined path,
    /// and an error that comes back is `FileNotFound` or `NotAFile` and names
    /// the joined path.
    pub fn locate(&self, path: &str) -> (res: Result<String, LocalRepositoryError>)
        ensures
            match res {
                Ok(full_path) => full_path@ == joined_path(self@, path@),
                Err(e) => e@ == (Failure::FileNotFound { path: joined_path(self@, path@) }) || e@
                    == (Failure::NotAFile { path: joined_path(self@, path@) }),
            },
    {
        let full_path = join_path(self.directory, path);
        let exists = path_exists(full_path.as_str());
        let is_file = exists && path_is_file(full_path.as_str());
        Self::check_file(full_path, exists, is_file)
    }

    /// The path to read, given what the disk answered about `full_path`:
    /// `FileNotFound` if it does not exist, else `NotAFile` if it is no
    /// regular file, else `full_path` itself.
    pub fn check_file(full_path: String, exists: bool, is_file: bool) -> (res: Result<
        String,
        LocalRepositoryError,
    >)
        ensures
            !exists ==> (res matches Err(e) && e@ == (Failure::FileNotFound {
                path: full_path@,
            })),
            exists && !is_file ==> (res matches Err(e) && e@ == (Failure::NotAFile {
                path: full_path@,
            })),
            exists && is_file ==> (res matches Ok(to_read) && to_read@ == full_path@),
    {
        if !exists {
            return Err(LocalRepositoryError::FileNotFound { path: full_path });
        }
        if !is_file {
            return Err(LocalRepositoryError::NotAFile { path: full_path });
        }
        Ok(full_path)
    }

    /// The text of a file, given the bytes that were read from it.
    ///
    /// Bytes that are UTF-8 give the text that they encode, and the text
    /// encodes to exactly these bytes. Any other bytes give a
    /// `FileReadError`, whose cause is of kind `InvalidData`.
    pub fn decode(bytes: Vec<u8>) -> (res: Result<String, LocalRepositoryError>)
        ensures
            valid_utf8(bytes@) ==> (res matches Ok(text) && text@ == decode_utf8(bytes@)
                && encode_utf8(text@) == bytes@),
            !valid_utf8(bytes@) ==> (res matches Err(e) && e@ is FileReadError),
    {
        match text_from_utf8(bytes) {
            Ok(text) => {
                proof {
                    encode_utf8_decode_utf8(text@);
                }
                Ok(text)
            },
            Err(_) => Err(
                LocalRepositoryError::FileReadError(
                    io_error(std::io::ErrorKind::InvalidData, INVALID_TEXT),
                ),
            ),
        }
    }
}

} // verus!
