use ziperu_codec::compression::CompressionMethod;
use ziperu_codec::date_time::DateTime;
use ziperu_codec::file_options::FileOptions;
use ziperu_codec::zipcrypto::ZipCryptoKeys;

#[test]
fn builders_set_their_field() {
    let time = DateTime::from_date_and_time(2020, 5, 17, 13, 45, 30).unwrap();
    let options = FileOptions::default()
        .compression_method(CompressionMethod::Bzip2)
        .compression_level(Some(3))
        .last_modified_time(time)
        .unix_permissions(0o100755)
        .large_file(true);
    assert_eq!(options.compression_method, CompressionMethod::Bzip2);
    assert_eq!(options.compression_level, Some(3));
    assert_eq!(options.last_modified_time, time);
    assert_eq!(options.permissions, Some(0o755));
    assert!(options.large_file);
    assert!(options.encrypt_with.is_none());
}

#[test]
fn default_options() {
    let options = FileOptions::default();
    assert_eq!(options.compression_method, CompressionMethod::Deflated);
    assert_eq!(options.compression_level, None);
    assert_eq!(options.permissions, None);
    assert!(!options.large_file);
    assert!(options.encrypt_with.is_none());
    let t = options.last_modified_time;
    assert!(t.year >= 1980 && t.year <= 2107);
}

#[test]
fn date_time_bounds() {
    assert!(DateTime::from_date_and_time(1979, 12, 31, 23, 59, 59).is_none());
    assert!(DateTime::from_date_and_time(2108, 1, 1, 0, 0, 0).is_none());
    assert!(DateTime::from_date_and_time(2000, 13, 1, 0, 0, 0).is_none());
    assert!(DateTime::from_date_and_time(2000, 1, 0, 0, 0, 0).is_none());
    assert!(DateTime::from_date_and_time(2000, 1, 1, 24, 0, 0).is_none());
    assert_eq!(
        DateTime::from_date_and_time(1980, 1, 1, 0, 0, 0).unwrap(),
        DateTime::default()
    );
}

#[test]
fn password_keys() {
    let keys = ZipCryptoKeys::derive(b"password");
    assert_eq!((keys.key_0, keys.key_1, keys.key_2), (0xea9b4e4d, 0xba789085, 0x5ff8707d));
    let keys = ZipCryptoKeys::derive(b"a");
    assert_eq!((keys.key_0, keys.key_1, keys.key_2), (0x64799c96, 0xb303049c, 0xa253270a));
    let keys = ZipCryptoKeys::derive(b"");
    assert_eq!((keys.key_0, keys.key_1, keys.key_2), (0x12345678, 0x23456789, 0x34567890));
    let options = FileOptions::default().with_deprecated_encryption(b"password");
    assert_eq!(options.encrypt_with, Some(ZipCryptoKeys::derive(b"password")));
}
