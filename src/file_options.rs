//! Per-entry options that a writer is configured with.

use vstd::prelude::*;
use crate::compression::CompressionMethod;
use crate::date_time::DateTime;
use crate::zipcrypto::{derived_keys, ZipCryptoKeys};

verus! {

/// Metadata for a file to be written
#[derive(Copy, Clone)]
pub struct FileOptions {
    pub compression_method: CompressionMethod,
    pub compression_level: Option<i32>,
    pub last_modified_time: DateTime,
    pub permissions: Option<u32>,
    pub large_file: bool,
    pub encrypt_with: Option<ZipCryptoKeys>,
}

impl FileOptions {
    /// Set the compression method for the new file. The default is
    /// `CompressionMethod::Deflated`.
    pub fn compression_method(self, method: CompressionMethod) -> (r: FileOptions)
        ensures
            r == (FileOptions { compression_method: method, ..self }),
    {
        FileOptions { compression_method: method, ..self }
    }

    /// Set the compression level for the new file; `None` asks for the
    /// method's default. Deflated takes 0 to 9, Bzip2 1 to 9, Zstd -131072 to
    /// 22, Lzma and Xz 0 to 9; the other methods take no level.
    pub fn compression_level(self, level: Option<i32>) -> (r: FileOptions)
        ensures
            r == (FileOptions { compression_level: level, ..self }),
    {
        FileOptions { compression_level: level, ..self }
    }

    /// Set the last modified time. The default is the current time.
    pub fn last_modified_time(self, mod_time: DateTime) -> (r: FileOptions)
        ensures
            r == (FileOptions { last_modified_time: mod_time, ..self }),
    {
        FileOptions { last_modified_time: mod_time, ..self }
    }

    /// Set the unix permissions of the new file. Only the permission bits
    /// (`mode & 0o777`) are kept.
    pub fn unix_permissions(self, mode: u32) -> (r: FileOptions)
        ensures
            r == (FileOptions { permissions: Some(mode & 0o777), ..self }),
    {
        FileOptions { permissions: Some(mode & 0o777), ..self }
    }

    /// Set whether the new file may need ZIP64 sizes. The default is `false`.
    pub fn large_file(self, large: bool) -> (r: FileOptions)
        ensures
            r == (FileOptions { large_file: large, ..self }),
    {
        FileOptions { large_file: large, ..self }
    }

    /// Encrypt the new file with the traditional PKWARE cipher under `password`.
    pub fn with_deprecated_encryption(self, password: &[u8]) -> (r: FileOptions)
        ensures
            r.encrypt_with matches Some(k) && k.view() == derived_keys(password@),
            r == (FileOptions { encrypt_with: r.encrypt_with, ..self }),
    {
        FileOptions { encrypt_with: Some(ZipCryptoKeys::derive(password)), ..self }
    }
}

impl Default for FileOptions {
    /// Deflated at its default level, modified now, default permissions,
    /// not large, not encrypted.
    fn default() -> (r: FileOptions)
        ensures
            r.compression_method == CompressionMethod::Deflated,
            r.compression_level is None,
            r.last_modified_time.wf(),
            r.permissions is None,
            !r.large_file,
            r.encrypt_with is None,
    {
        FileOptions {
            compression_method: CompressionMethod::Deflated,
            compression_level: None,
            last_modified_time: DateTime::now(),
            permissions: None,
            large_file: false,
            encrypt_with: None,
        }
    }
}

} // verus!
