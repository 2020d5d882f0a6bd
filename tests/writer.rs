use std::io::Read;
use ziperu_codec::compression::CompressionMethod;
use ziperu_codec::error::{Unsupported, ZipError};
use ziperu_codec::generic_writer::{clamp_opt, GenericZipWriter};
use ziperu_codec::lzma_reader::LzmaReader;
use ziperu_codec::zipcrypto::{MaybeEncrypted, ZipCryptoKeys, ZipCryptoWriter};

const TEXT: &[u8] = b"The quick brown fox jumps over the lazy dog. The quick brown fox jumps again.";

fn plain_writer() -> GenericZipWriter {
    GenericZipWriter::new(MaybeEncrypted::Unencrypted(Vec::new()))
}

fn into_bytes(sink: MaybeEncrypted) -> Vec<u8> {
    match sink {
        MaybeEncrypted::Unencrypted(v) => v,
        MaybeEncrypted::Encrypted(c) => c.buffer,
    }
}

fn compress(method: CompressionMethod, level: Option<i32>, data: &[u8]) -> Vec<u8> {
    let mut w = plain_writer();
    w.switch_to(method, level).unwrap();
    assert_eq!(w.current_compression(), Some(method));
    w.write_all(data).unwrap();
    into_bytes(w.finish().unwrap())
}

fn lzma_header(preset: u32) -> Vec<u8> {
    let options = lzma_rust2::LzmaOptions::with_preset(preset);
    let mut h = vec![1, 0, 5, 0, options.get_props()];
    h.extend_from_slice(&options.dict_size.to_le_bytes());
    h
}

fn decompress(method: CompressionMethod, level: Option<i32>, bytes: &[u8], len: usize) -> Vec<u8> {
    let mut out = Vec::new();
    match method {
        CompressionMethod::Stored => out.extend_from_slice(bytes),
        CompressionMethod::Deflated => {
            flate2::read::DeflateDecoder::new(bytes).read_to_end(&mut out).unwrap();
        }
        CompressionMethod::Bzip2 => {
            bzip2::read::BzDecoder::new(bytes).read_to_end(&mut out).unwrap();
        }
        CompressionMethod::Zstd => out = zstd::decode_all(bytes).unwrap(),
        CompressionMethod::Lzma => {
            let mut data = lzma_header(level.unwrap_or(6) as u32);
            data.extend_from_slice(bytes);
            let mut r = LzmaReader::new(data, len as u64);
            loop {
                let mut buf = vec![0u8; 7];
                let n = r.read(&mut buf).unwrap();
                if n == 0 {
                    break;
                }
                out.extend_from_slice(&buf[..n]);
            }
        }
        CompressionMethod::Xz => {
            lzma_rust2::XzReader::new(bytes, false).read_to_end(&mut out).unwrap();
        }
        _ => panic!("no decoder"),
    }
    out
}

fn level_error(r: Result<(), ZipError>) -> bool {
    matches!(r, Err(ZipError::UnsupportedArchive(Unsupported::CompressionLevel)))
}

#[test]
fn round_trip_every_method_and_boundary_level() {
    let cases: Vec<(CompressionMethod, Vec<Option<i32>>)> = vec![
        (CompressionMethod::Stored, vec![None]),
        (CompressionMethod::Deflated, vec![None, Some(0), Some(9)]),
        (CompressionMethod::Bzip2, vec![None, Some(1), Some(9)]),
        (CompressionMethod::Zstd, vec![None, Some(-131072), Some(22)]),
        (CompressionMethod::Lzma, vec![None, Some(0), Some(9)]),
        (CompressionMethod::Xz, vec![None, Some(0), Some(9)]),
    ];
    for (method, levels) in cases {
        for level in levels {
            let bytes = compress(method, level, TEXT);
            assert_eq!(decompress(method, level, &bytes, TEXT.len()), TEXT, "{method:?} {level:?}");
        }
    }
}

#[test]
fn compressing_methods_change_the_bytes() {
    for method in [CompressionMethod::Deflated, CompressionMethod::Bzip2, CompressionMethod::Zstd, CompressionMethod::Xz] {
        assert_ne!(compress(method, None, TEXT), TEXT);
    }
}

#[test]
fn level_boundaries() {
    let ranges = [
        (CompressionMethod::Deflated, 0, 9),
        (CompressionMethod::Bzip2, 1, 9),
        (CompressionMethod::Zstd, -131072, 22),
        (CompressionMethod::Lzma, 0, 9),
        (CompressionMethod::Xz, 0, 9),
    ];
    for (method, lo, hi) in ranges {
        assert!(level_error(plain_writer().switch_to(method, Some(lo - 1))));
        assert!(level_error(plain_writer().switch_to(method, Some(hi + 1))));
        assert!(plain_writer().switch_to(method, Some(lo)).is_ok());
        assert!(plain_writer().switch_to(method, Some(hi)).is_ok());
        assert!(plain_writer().switch_to(method, None).is_ok());
    }
}

#[test]
fn stored_rejects_level() {
    let mut w = plain_writer();
    w.switch_to(CompressionMethod::Deflated, None).unwrap();
    assert!(level_error(w.switch_to(CompressionMethod::Stored, Some(0))));
    assert!(w.is_closed());
    let mut w = plain_writer();
    w.switch_to(CompressionMethod::Deflated, None).unwrap();
    assert!(w.switch_to(CompressionMethod::Stored, None).is_ok());
    assert_eq!(w.current_compression(), Some(CompressionMethod::Stored));
}

#[test]
fn same_method_is_a_no_op() {
    let mut w = plain_writer();
    w.write_all(b"abc").unwrap();
    assert!(w.switch_to(CompressionMethod::Stored, Some(5)).is_ok());
    assert!(!w.is_closed());
    w.write_all(b"def").unwrap();
    assert_eq!(w.unwrap(), b"abcdef");
}

#[test]
fn unwritable_methods() {
    assert!(matches!(
        plain_writer().switch_to(CompressionMethod::Deflate64, None),
        Err(ZipError::UnsupportedArchive(Unsupported::Deflate64Writing))
    ));
    assert!(matches!(
        plain_writer().switch_to(CompressionMethod::Aes, None),
        Err(ZipError::UnsupportedArchive(Unsupported::AesWriting))
    ));
    assert!(matches!(
        plain_writer().switch_to(CompressionMethod::Unsupported(1), None),
        Err(ZipError::UnsupportedArchive(Unsupported::Method))
    ));
}

#[test]
fn switch_finishes_prior_codec() {
    let mut w = plain_writer();
    w.write_all(b"head").unwrap();
    w.switch_to(CompressionMethod::Deflated, Some(6)).unwrap();
    w.write_all(TEXT).unwrap();
    w.switch_to(CompressionMethod::Stored, None).unwrap();
    w.write_all(b"tail").unwrap();
    let out = w.unwrap();
    assert_eq!(&out[..4], b"head");
    assert_eq!(&out[out.len() - 4..], b"tail");
    let middle = &out[4..out.len() - 4];
    let mut decoded = Vec::new();
    flate2::read::DeflateDecoder::new(middle).read_to_end(&mut decoded).unwrap();
    assert_eq!(decoded, TEXT);
}

#[test]
fn closed_after_finish() {
    let mut w = plain_writer();
    w.write_all(b"abc").unwrap();
    let sink = w.finish().unwrap();
    assert_eq!(into_bytes(sink), b"abc");
    assert!(w.is_closed());
    assert_eq!(w.current_compression(), None);
    assert!(matches!(w.write_all(b"x"), Err(ZipError::Closed)));
    assert!(matches!(w.switch_to(CompressionMethod::Stored, None), Err(ZipError::Closed)));
    assert!(matches!(w.switch_to(CompressionMethod::Deflated, None), Err(ZipError::Closed)));
    assert!(matches!(w.finish(), Err(ZipError::Closed)));
}

#[test]
fn plain_sink_access() {
    let mut w = plain_writer();
    w.write_all(b"ab").unwrap();
    w.get_plain().push(b'c');
    w.write_all(b"d").unwrap();
    assert_eq!(w.unwrap(), b"abcd");
}

#[test]
fn encryption_lies_beneath_the_codec() {
    let keys = ZipCryptoKeys::derive(b"secret");
    let sink = MaybeEncrypted::Encrypted(ZipCryptoWriter { writer: Vec::new(), buffer: Vec::new(), keys });
    let mut w = GenericZipWriter::new(sink);
    w.switch_to(CompressionMethod::Deflated, None).unwrap();
    w.write_all(TEXT).unwrap();
    match w.finish().unwrap() {
        MaybeEncrypted::Encrypted(c) => {
            assert!(c.writer.is_empty());
            assert_eq!(c.keys, keys);
            let mut decoded = Vec::new();
            flate2::read::DeflateDecoder::new(&c.buffer[..]).read_to_end(&mut decoded).unwrap();
            assert_eq!(decoded, TEXT);
        }
        MaybeEncrypted::Unencrypted(_) => panic!("sink lost its encryption"),
    }
}

#[test]
fn clamp_opt_range() {
    assert_eq!(clamp_opt(0, 0, 9), Some(0));
    assert_eq!(clamp_opt(9, 0, 9), Some(9));
    assert_eq!(clamp_opt(-1, 0, 9), None);
    assert_eq!(clamp_opt(10, 0, 9), None);
}
