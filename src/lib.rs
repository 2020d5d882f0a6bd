//! Streaming codec layer of a ZIP archive library: compression method
//! identifiers, the codec-switching writer and the lazy LZMA reader.

pub mod compression;
pub mod date_time;
pub mod error;
pub mod file_options;
pub mod generic_writer;
pub mod lzma_reader;
pub mod zipcrypto;
