use ziperu_codec::compression::{supported_compression_methods, CompressionMethod};

#[test]
fn from_eq_to() {
    for v in 0..(u16::MAX as u32 + 1) {
        let from = CompressionMethod::from_u16(v as u16);
        let to = from.to_u16() as u32;
        assert_eq!(v, to);
    }
}

#[test]
fn to_eq_from() {
    fn check_match(method: CompressionMethod) {
        let to = method.to_u16();
        let from = CompressionMethod::from_u16(to);
        let back = from.to_u16();
        assert_eq!(to, back);
    }

    for method in supported_compression_methods() {
        check_match(method);
    }
}

#[test]
fn to_display_fmt() {
    fn check_match(method: CompressionMethod) {
        let debug_str = format!("{method:?}");
        let display_str = method.to_string();
        assert_eq!(debug_str, display_str);
    }

    for method in supported_compression_methods() {
        check_match(method);
    }
}

#[test]
fn supported_methods_in_order() {
    assert_eq!(
        supported_compression_methods(),
        vec![
            CompressionMethod::Stored,
            CompressionMethod::Deflated,
            CompressionMethod::Bzip2,
            CompressionMethod::Zstd,
            CompressionMethod::Lzma,
            CompressionMethod::Xz,
        ]
    );
}

#[test]
fn supported_methods_decode_to_themselves() {
    for method in supported_compression_methods() {
        assert_eq!(CompressionMethod::from_u16(method.to_u16()), method);
    }
}

#[test]
fn named_codes() {
    assert_eq!(CompressionMethod::from_u16(0), CompressionMethod::Stored);
    assert_eq!(CompressionMethod::from_u16(8), CompressionMethod::Deflated);
    assert_eq!(CompressionMethod::from_u16(9), CompressionMethod::Deflate64);
    assert_eq!(CompressionMethod::from_u16(12), CompressionMethod::Bzip2);
    assert_eq!(CompressionMethod::from_u16(14), CompressionMethod::Lzma);
    assert_eq!(CompressionMethod::from_u16(93), CompressionMethod::Zstd);
    assert_eq!(CompressionMethod::from_u16(95), CompressionMethod::Xz);
    assert_eq!(CompressionMethod::from_u16(99), CompressionMethod::Aes);
    assert_eq!(CompressionMethod::from_u16(1), CompressionMethod::Unsupported(1));
    assert_eq!(CompressionMethod::from_u16(65535), CompressionMethod::Unsupported(65535));
    assert_eq!(CompressionMethod::Aes.to_u16(), 99);
    assert_eq!(CompressionMethod::Unsupported(20).to_u16(), 20);
}

#[test]
fn unsupported_codes_collapse() {
    assert_ne!(CompressionMethod::Unsupported(8), CompressionMethod::Deflated);
    assert_eq!(CompressionMethod::Unsupported(8).to_u16(), 8);
    assert_eq!(CompressionMethod::from_u16(CompressionMethod::Unsupported(8).to_u16()), CompressionMethod::Deflated);
}

#[test]
fn names_match_debug_for_every_method() {
    let methods = [
        CompressionMethod::Deflate64,
        CompressionMethod::Aes,
        CompressionMethod::Unsupported(0),
        CompressionMethod::Unsupported(7),
        CompressionMethod::Unsupported(10),
        CompressionMethod::Unsupported(1234),
        CompressionMethod::Unsupported(65535),
    ];
    for method in methods {
        assert_eq!(format!("{method:?}"), method.to_string());
    }
    assert_eq!(CompressionMethod::Unsupported(1234).to_string(), "Unsupported(1234)");
}
