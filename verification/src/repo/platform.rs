//! What this library asks of `std` without proof.
//!
//! None of these functions is verified: each hands its arguments to one
//! function of `std` and returns the answer.

use vstd::prelude::*;
use vstd::utf8::{encode_utf8, valid_utf8};

verus! {

/// `std::io::Error`, carried as it is: nothing is known of what it holds.
#[verifier::external_type_specification]
#[verifier::external_body]
pub struct ExIoError(std::io::Error);

/// `std::io::ErrorKind`, with its variants.
#[verifier::external_type_specification]
pub struct ExIoErrorKind(std::io::ErrorKind);

/// `std::string::FromUtf8Error`, carried as it is.
#[verifier::external_type_specification]
#[verifier::external_body]
pub struct ExFromUtf8Error(std::string::FromUtf8Error);

/// The path that `std::path::Path::join` makes of `root` and `path`.
pub uninterp spec fn joined_path(root: Seq<char>, path: Seq<char>) -> Seq<char>;

/// Calls `std::path::Path::join` on `root` with `path`, and gives the result
/// back as a string. The join reads the characters of its two arguments and
/// nothing else, neither the disk nor the working directory, so the result is
/// [`joined_path`] of the two. Both arguments are UTF-8, hence so is the
/// result, and turning it into a `String` loses nothing.
#[verifier::external_body]
pub(crate) fn join_path(root: &str, path: &str) -> (full: String)
    ensures
        full@ == joined_path(root@, path@),
{
    std::path::Path::new(root).join(path).to_string_lossy().into_owned()
}

/// Calls `std::path::Path::exists`: whether `path` names an entry on disk at
/// the moment of the call. The answer depends on the disk, so nothing is
/// claimed of it.
#[verifier::external_body]
pub(crate) fn path_exists(path: &str) -> bool {
    std::path::Path::new(path).exists()
}

/// Calls `std::path::Path::is_dir`: whether `path` names a directory on disk
/// at the moment of the call. The answer depends on the disk, so nothing is
/// claimed of it.
#[verifier::external_body]
pub(crate) fn path_is_dir(path: &str) -> bool {
    std::path::Path::new(path).is_dir()
}

/// Calls `std::path::Path::is_file`: whether `path` names a regular file on
/// disk at the moment of the call. The answer depends on the disk, so nothing
/// is claimed of it.
#[verifier::external_body]
pub(crate) fn path_is_file(path: &str) -> bool {
    std::path::Path::new(path).is_file()
}

/// The text that `std` writes for a string under `{:?}`: the string between
/// double quotes, with the characters that need it escaped.
pub uninterp spec fn debug_text(text: Seq<char>) -> Seq<char>;

/// Formats `text` with `<str as std::fmt::Debug>::fmt`. The format works on
/// the characters of `text` alone, so the result is [`debug_text`] of them.
#[verifier::external_body]
pub(crate) fn debug_format(text: &str) -> (quoted: String)
    ensures
        quoted@ == debug_text(text@),
{
    format!("{:?}", text)
}

/// Calls `String::from_utf8`, which accepts `bytes` if and only if they are
/// UTF-8, and then makes a string of these very bytes.
#[verifier::external_body]
pub(crate) fn text_from_utf8(bytes: Vec<u8>) -> (text: Result<
    String,
    std::string::FromUtf8Error,
>)
    ensures
        text is Ok <==> valid_utf8(bytes@),
        text matches Ok(t) ==> encode_utf8(t@) == bytes@,
{
    String::from_utf8(bytes)
}

/// Calls `std::io::Error::new` with `kind` and `message`. An `io::Error` is
/// opaque here, so nothing is claimed of the result.
#[verifier::external_body]
pub(crate) fn io_error(kind: std::io::ErrorKind, message: &str) -> std::io::Error {
    std::io::Error::new(kind, message)
}

} // verus!
