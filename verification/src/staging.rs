//! The staged artifact: a uniquely named temporary file holding the
//! downloaded bytes, available to the user while staged and removed exactly
//! once when the pipeline is done with it.
//!
//! The file itself lives behind the `tempfile` crate; its contents, its path
//! text, and its read/write position are modeled by uninterpreted names that
//! the trusted wrappers below relate to one another.

use vstd::prelude::*;
use std::io::{Read, Seek, SeekFrom, Write};
use crate::error::FatalError;

verus! {

/// An owned handle to one uniquely named temporary file, kept opaque: its
/// contents, path text, and position are modeled by the uninterpreted names
/// below, which the trusted wrappers relate to one another.
#[verifier::external_body]
pub struct TempFileHandle {
    inner: tempfile::NamedTempFile,
}

/// The bytes the temporary file holds on disk.
pub uninterp spec fn temp_file_bytes(f: TempFileHandle) -> Seq<u8>;

/// The textual form of the temporary file's path, fixed at creation.
pub uninterp spec fn temp_file_path(f: TempFileHandle) -> Seq<char>;

/// The handle's read/write position, counted in bytes from the start.
pub uninterp spec fn temp_file_cursor(f: TempFileHandle) -> int;

/// Relies on `tempfile::NamedTempFile::new`: on success the file is fresh,
/// empty, uniquely named in the system temporary directory, and the position
/// is at the start.
#[verifier::external_body]
fn temp_create() -> (r: Result<TempFileHandle, String>)
    ensures
        r matches Ok(f) ==> temp_file_bytes(f) == Seq::<u8>::empty() && temp_file_cursor(f) == 0,
{
    match tempfile::NamedTempFile::new() {
        Ok(f) => Ok(TempFileHandle { inner: f }),
        Err(e) => Err(format!("{e}")),
    }
}

/// Relies on `tempfile`'s `Write` impl (`write_all`), which writes the whole
/// buffer at the current position: with the position at end of file this
/// appends exactly `bytes`. The file keeps its name either way; after a
/// failure the contents and position are unspecified.
#[verifier::external_body]
fn temp_write_all(f: &mut TempFileHandle, bytes: &[u8]) -> (r: Result<(), String>)
    requires
        temp_file_cursor(*old(f)) == temp_file_bytes(*old(f)).len(),
    ensures
        temp_file_path(*final(f)) == temp_file_path(*old(f)),
        r is Ok ==> temp_file_bytes(*final(f)) == temp_file_bytes(*old(f)) + bytes@
            && temp_file_cursor(*final(f)) == temp_file_bytes(*final(f)).len(),
{
    match f.inner.write_all(bytes) {
        Ok(()) => Ok(()),
        Err(e) => Err(format!("{e}")),
    }
}

/// Relies on `tempfile`'s `Write` impl (`flush`): pushes buffered data down to
/// the file; name, contents, and position are unchanged.
#[verifier::external_body]
fn temp_flush(f: &mut TempFileHandle) -> (r: Result<(), String>)
    ensures
        temp_file_path(*final(f)) == temp_file_path(*old(f)),
        temp_file_bytes(*final(f)) == temp_file_bytes(*old(f)),
        temp_file_cursor(*final(f)) == temp_file_cursor(*old(f)),
{
    match f.inner.flush() {
        Ok(()) => Ok(()),
        Err(e) => Err(format!("{e}")),
    }
}

/// Relies on `tempfile::NamedTempFile::path`: returns the path this handle
/// was created with; its display form depends on the handle alone.
#[verifier::external_body]
fn temp_path_string(f: &TempFileHandle) -> (r: String)
    ensures
        r@ == temp_file_path(*f),
{
    f.inner.path().display().to_string()
}

/// Relies on `tempfile`'s `Seek` impl: on success the position is `pos` bytes
/// from the start. Name and contents are unchanged either way; after a
/// failure the position is unspecified.
#[verifier::external_body]
fn temp_seek_start(f: &mut TempFileHandle, pos: u64) -> (r: Result<(), String>)
    ensures
        temp_file_path(*final(f)) == temp_file_path(*old(f)),
        temp_file_bytes(*final(f)) == temp_file_bytes(*old(f)),
        r is Ok ==> temp_file_cursor(*final(f)) == pos as int,
{
    match f.inner.seek(SeekFrom::Start(pos)) {
        Ok(_) => Ok(()),
        Err(e) => Err(format!("{e}")),
    }
}

/// Relies on `tempfile`'s `Read` impl (`read_to_end`), which appends to `buf`
/// everything from the current position to end of file and leaves the
/// position there. Name and contents are unchanged either way; after a
/// failure `buf` may hold a prefix and the position is unspecified.
#[verifier::external_body]
fn temp_read_to_end(f: &mut TempFileHandle, buf: &mut Vec<u8>) -> (r: Result<(), String>)
    requires
        0 <= temp_file_cursor(*old(f)) <= temp_file_bytes(*old(f)).len(),
    ensures
        temp_file_path(*final(f)) == temp_file_path(*old(f)),
        temp_file_bytes(*final(f)) == temp_file_bytes(*old(f)),
        r is Ok ==> final(buf)@ == old(buf)@ + temp_file_bytes(*old(f)).skip(temp_file_cursor(*old(f)))
            && temp_file_cursor(*final(f)) == temp_file_bytes(*final(f)).len() as int,
{
    match f.inner.read_to_end(buf) {
        Ok(_) => Ok(()),
        Err(e) => Err(format!("{e}")),
    }
}

/// Relies on `tempfile::NamedTempFile::close`: closes the handle and removes
/// the file from disk, reporting a failure to delete.
#[verifier::external_body]
fn temp_close(f: TempFileHandle) -> (r: Result<(), String>) {
    match f.inner.close() {
        Ok(()) => Ok(()),
        Err(e) => Err(format!("{e}")),
    }
}

/// A staged local file holding one downloaded byte payload. It exists on disk
/// from a successful `stage` until `cleanup`; nothing else writes, renames,
/// or removes it.
pub struct StagedArtifact {
    file: TempFileHandle,
    path: String,
}

impl StagedArtifact {
    /// The byte payload the artifact holds on disk.
    pub closed spec fn bytes(&self) -> Seq<u8> {
        temp_file_bytes(self.file)
    }

    /// The artifact's filesystem path, as text.
    pub closed spec fn path_spec(&self) -> Seq<char> {
        temp_file_path(self.file)
    }

    /// Well-formed: the cached path text matches the file's, and the file
    /// position rests at end of file, ready for a rewound read.
    pub closed spec fn inv(&self) -> bool {
        &&& self.path@ == temp_file_path(self.file)
        &&& temp_file_cursor(self.file) == temp_file_bytes(self.file).len()
    }

    /// Stage a payload: create a fresh uniquely named temporary file, write
    /// the whole payload, and flush it, so that no partial-write state is
    /// observable after a successful return.
    pub fn stage(bytes: &[u8]) -> (r: Result<StagedArtifact, FatalError>)
        ensures
            r matches Ok(a) ==> a.inv() && a.bytes() == bytes@,
            r matches Err(e) ==> e is StagingIoError,
    {
        let mut file = match temp_create() {
            Ok(f) => f,
            Err(detail) => {
                return Err(FatalError::StagingIoError { detail });
            },
        };
        if let Err(detail) = temp_write_all(&mut file, bytes) {
            return Err(FatalError::StagingIoError { detail });
        }
        proof {
            assert(Seq::<u8>::empty() + bytes@ =~= bytes@);
        }
        if let Err(detail) = temp_flush(&mut file) {
            return Err(FatalError::StagingIoError { detail });
        }
        let path = temp_path_string(&file);
        Ok(StagedArtifact { file, path })
    }

    /// The path at which the staged payload can be found, for display and for
    /// handoff to the user.
    pub fn path(&self) -> (r: &str)
        requires
            self.inv(),
        ensures
            r@ == self.path_spec(),
    {
        self.path.as_str()
    }

    /// Read the staged payload back from disk. The payload and the path are
    /// never changed by this; on success the result is exactly the staged
    /// bytes.
    pub fn read_back(&mut self) -> (r: Result<Vec<u8>, FatalError>)
        requires
            old(self).inv(),
        ensures
            final(self).bytes() == old(self).bytes(),
            final(self).path_spec() == old(self).path_spec(),
            r matches Ok(v) ==> v@ == old(self).bytes() && final(self).inv(),
            r matches Err(e) ==> e is StagingIoError,
    {
        if let Err(detail) = temp_seek_start(&mut self.file, 0) {
            return Err(FatalError::StagingIoError { detail });
        }
        let mut buf: Vec<u8> = Vec::new();
        if let Err(detail) = temp_read_to_end(&mut self.file, &mut buf) {
            return Err(FatalError::StagingIoError { detail });
        }
        proof {
            assert(temp_file_bytes(self.file).skip(0) =~= temp_file_bytes(self.file));
            assert(Seq::<u8>::empty() + temp_file_bytes(self.file) =~= temp_file_bytes(self.file));
        }
        Ok(buf)
    }

    /// Release the artifact: close the handle and remove the file from disk.
    /// A failure to delete is non-fatal; it is handed back as a diagnostic
    /// only and never alters the pipeline's outcome.
    pub fn cleanup(self) -> (r: Result<(), String>) {
        let StagedArtifact { file, path: _ } = self;
        temp_close(file)
    }
}

} // verus!
