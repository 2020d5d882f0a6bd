//! Error type shared by the writer and the reader.

use vstd::prelude::*;

verus! {

#[verifier::external_type_specification]
#[verifier::external_body]
pub struct ExIoError(std::io::Error);

/// Why a configuration cannot be written.
#[derive(Copy, Clone, PartialEq, Eq, Structural, Debug)]
pub enum Unsupported {
    /// A level outside the method's accepted range, or a level for a method
    /// that takes none.
    CompressionLevel,
    /// Deflate64 can only be read.
    Deflate64Writing,
    /// AES is an encryption marker, not a method that can be written.
    AesWriting,
    /// A method this library has no codec for.
    Method,
}

/// Failures of the codec layer.
#[derive(Debug)]
pub enum ZipError {
    /// The underlying sink, source or backend failed.
    Io(std::io::Error),
    /// The writer was already closed.
    Closed,
    /// The archive asks for something this library cannot do.
    UnsupportedArchive(Unsupported),
    /// An embedded LZMA header declares a properties size other than five.
    InvalidLzmaPropertiesSize(u16),
    /// The source ended inside an embedded LZMA header.
    TruncatedLzmaHeader,
    /// The raw source of a lazy reader was already taken.
    ReaderTaken,
}

} // verus!
