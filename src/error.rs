use vstd::prelude::*;

use crate::result_code::ResultCode;

verus! {

/// Every way in which an operation of this layer can fail.
#[derive(Debug, Clone, PartialEq, Eq)]
pub enum Error {
    /// The operating system or the processor architecture has no downloader.
    UnsupportedPlatform,
    /// Fetching the downloader failed, in transport or on disk.
    DownloadError(String),
    /// The downloader could not be started, or ended with a failure status
    /// (`None` when it was ended by a signal or never ran).
    DownloaderFailed(Option<i32>),
    /// The engine's shared library could not be opened.
    LibraryLoadError(String),
    /// The shared library lacks one of the exports that the layer needs.
    SymbolNotFound(String),
    /// A directory could not be found, made canonical or written as a C string.
    PathResolutionError(String),
    /// The text holds a null byte and cannot be handed to the engine.
    InvalidTextEncoding,
    /// The engine reported a failure status.
    Foreign(ResultCode),
}

} // verus!
