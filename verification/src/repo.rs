//! Sources of text files.

use vstd::prelude::*;

pub mod platform;
pub mod local_repository;

pub use local_repository::Failure;
pub use local_repository::LocalRepository;
pub use local_repository::LocalRepositoryError;

verus! {

/// A source of text files, each named by a path.
///
/// An implementer owns whatever it needs to resolve a path, and chooses the
/// error `E` that says why a file's contents are not available. Nothing is
/// promised here about which paths resolve.
pub trait Repository<E> {
    /// The full contents, as text, of the file that `path` names in this source.
    fn fetch_file_contents(&self, path: &str) -> Result<String, E>;
}

} // verus!
