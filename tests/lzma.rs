use ziperu_codec::error::ZipError;
use ziperu_codec::lzma_reader::{parse_header, LzmaReader};

const TEXT: &[u8] = b"hello hello hello lzma lzma lzma";

fn lzma_entry(data: &[u8]) -> Vec<u8> {
    let options = lzma_rust2::LzmaOptions::with_preset(6);
    let mut out = vec![0x01, 0x00, 0x05, 0x00, options.get_props()];
    out.extend_from_slice(&options.dict_size.to_le_bytes());
    let mut w = lzma_rust2::LzmaWriter::new_no_header(Vec::new(), &options, false).unwrap();
    std::io::Write::write_all(&mut w, data).unwrap();
    out.extend_from_slice(&w.finish().unwrap());
    out
}

#[test]
fn header_fields() {
    let h = [0x01, 0x00, 0x05, 0x00, 0x5d, 0x00, 0x00, 0x80, 0x00];
    assert!(matches!(parse_header(&h), Ok((0x5d, 0x0080_0000))));
    assert!(matches!(parse_header(&h[..3]), Err(ZipError::TruncatedLzmaHeader)));
    assert!(matches!(parse_header(&h[..8]), Err(ZipError::TruncatedLzmaHeader)));
    let bad = [0x01, 0x00, 0x06, 0x01, 0x5d, 0x00, 0x00, 0x80, 0x00];
    assert!(matches!(parse_header(&bad), Err(ZipError::InvalidLzmaPropertiesSize(0x0106))));
}

#[test]
fn reads_exactly_the_declared_size() {
    let data = lzma_entry(TEXT);
    let mut r = LzmaReader::new(data, TEXT.len() as u64);
    let mut out = Vec::new();
    let mut buf = vec![0u8; 5];
    loop {
        let n = r.read(&mut buf).unwrap();
        if n == 0 {
            break;
        }
        out.extend_from_slice(&buf[..n]);
    }
    assert_eq!(out, TEXT);
}

#[test]
fn never_more_than_declared() {
    let data = lzma_entry(TEXT);
    let mut r = LzmaReader::new(data, TEXT.len() as u64);
    let mut buf = vec![0u8; 100];
    let n = r.read(&mut buf).unwrap();
    assert_eq!(&buf[..n], &TEXT[..n]);
    let mut total = n;
    loop {
        let n = r.read(&mut buf).unwrap();
        if n == 0 {
            break;
        }
        total += n;
    }
    assert_eq!(total, TEXT.len());
    assert_eq!(r.read(&mut buf).unwrap(), 0);

    let data = lzma_entry(TEXT);
    let mut r = LzmaReader::new(data, 10);
    let mut total = 0;
    while let Ok(n) = r.read(&mut buf) {
        if n == 0 {
            break;
        }
        assert_eq!(&buf[..n], &TEXT[total..total + n]);
        total += n;
    }
    assert!(total <= 10);
}

#[test]
fn malformed_properties_size() {
    for size in [0u16, 4, 6, 0x0500, 0xffff] {
        let mut data = lzma_entry(TEXT);
        data[2..4].copy_from_slice(&size.to_le_bytes());
        let mut r = LzmaReader::new(data, TEXT.len() as u64);
        let mut buf = vec![0xaau8; 16];
        let e = r.read(&mut buf);
        assert!(matches!(e, Err(ZipError::InvalidLzmaPropertiesSize(s)) if s == size));
        assert_eq!(buf, vec![0xaau8; 16]);
        assert!(matches!(r.read(&mut buf), Err(ZipError::ReaderTaken)));
    }
}

#[test]
fn truncated_header() {
    let mut r = LzmaReader::new(vec![0x01, 0x00, 0x05, 0x00, 0x5d], 4);
    let mut buf = vec![0u8; 4];
    assert!(matches!(r.read(&mut buf), Err(ZipError::TruncatedLzmaHeader)));
}

#[test]
fn into_inner_before_and_after() {
    let data = lzma_entry(TEXT);
    let r = LzmaReader::new(data.clone(), TEXT.len() as u64);
    assert_eq!(r.into_inner(), data);
    let mut r = LzmaReader::new(data.clone(), TEXT.len() as u64);
    let mut buf = vec![0u8; 4];
    r.read(&mut buf).unwrap();
    assert_eq!(r.into_inner(), data);
}
