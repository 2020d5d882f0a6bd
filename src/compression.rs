//! Possible ZIP compression methods.

use vstd::prelude::*;

verus! {

/// Identifies the storage format used to compress a file within a ZIP archive.
///
/// Each file's compression method is stored alongside it, allowing the
/// contents to be read without context.
#[derive(Copy, Clone, PartialEq, Eq, Structural, Debug)]
#[non_exhaustive]
pub enum CompressionMethod {
    /// Store the file as is
    Stored,
    /// Compress the file using Deflate
    Deflated,
    /// Compress the file using Deflate64 (decompression only)
    Deflate64,
    /// Compress the file using BZIP2
    Bzip2,
    /// Encrypted using AES; the actual method is kept in the AES extra field
    Aes,
    /// Compress the file using ZStandard
    Zstd,
    /// Compress the file using lzma
    Lzma,
    /// Compress the file using xz
    Xz,
    /// Unsupported compression method
    Unsupported(u16),
}

/// Wire code of each named method.
pub const CODE_STORED: u16 = 0;
pub const CODE_DEFLATED: u16 = 8;
pub const CODE_DEFLATE64: u16 = 9;
pub const CODE_BZIP2: u16 = 12;
pub const CODE_LZMA: u16 = 14;
pub const CODE_ZSTD: u16 = 93;
pub const CODE_XZ: u16 = 95;
pub const CODE_AES: u16 = 99;

/// The method that a wire code denotes.
pub open spec fn spec_from_u16(val: u16) -> CompressionMethod {
    if val == CODE_STORED {
        CompressionMethod::Stored
    } else if val == CODE_DEFLATED {
        CompressionMethod::Deflated
    } else if val == CODE_DEFLATE64 {
        CompressionMethod::Deflate64
    } else if val == CODE_BZIP2 {
        CompressionMethod::Bzip2
    } else if val == CODE_LZMA {
        CompressionMethod::Lzma
    } else if val == CODE_ZSTD {
        CompressionMethod::Zstd
    } else if val == CODE_XZ {
        CompressionMethod::Xz
    } else if val == CODE_AES {
        CompressionMethod::Aes
    } else {
        CompressionMethod::Unsupported(val)
    }
}

/// The wire code stored for a method.
pub open spec fn spec_to_u16(m: CompressionMethod) -> u16 {
    match m {
        CompressionMethod::Stored => CODE_STORED,
        CompressionMethod::Deflated => CODE_DEFLATED,
        CompressionMethod::Deflate64 => CODE_DEFLATE64,
        CompressionMethod::Bzip2 => CODE_BZIP2,
        CompressionMethod::Lzma => CODE_LZMA,
        CompressionMethod::Zstd => CODE_ZSTD,
        CompressionMethod::Xz => CODE_XZ,
        CompressionMethod::Aes => CODE_AES,
        CompressionMethod::Unsupported(v) => v,
    }
}

/// A method is canonical when it is what its own wire code decodes to: every
/// named variant, and `Unsupported(v)` for a code `v` that no named variant has.
pub open spec fn is_canonical(m: CompressionMethod) -> bool {
    spec_from_u16(spec_to_u16(m)) == m
}

/// The methods that can be both written and read.
pub open spec fn spec_supported_methods() -> Seq<CompressionMethod> {
    seq![
        CompressionMethod::Stored,
        CompressionMethod::Deflated,
        CompressionMethod::Bzip2,
        CompressionMethod::Zstd,
        CompressionMethod::Lzma,
        CompressionMethod::Xz,
    ]
}


/// The decimal digit character for `d < 10`.
pub open spec fn digit_char(d: nat) -> char {
    if d == 0 { '0' } else if d == 1 { '1' } else if d == 2 { '2' } else if d == 3 { '3' }
    else if d == 4 { '4' } else if d == 5 { '5' } else if d == 6 { '6' } else if d == 7 { '7' }
    else if d == 8 { '8' } else { '9' }
}

/// The decimal rendering of a natural number, most significant digit first.
pub open spec fn decimal(n: nat) -> Seq<char>
    decreases n,
{
    if n < 10 {
        seq![digit_char(n)]
    } else {
        decimal(n / 10).push(digit_char(n % 10))
    }
}

/// The human-readable name of a method: its variant name, and for an
/// unsupported method the carried code in parentheses.
pub open spec fn method_name(m: CompressionMethod) -> Seq<char> {
    match m {
        CompressionMethod::Stored => "Stored"@,
        CompressionMethod::Deflated => "Deflated"@,
        CompressionMethod::Deflate64 => "Deflate64"@,
        CompressionMethod::Bzip2 => "Bzip2"@,
        CompressionMethod::Aes => "Aes"@,
        CompressionMethod::Zstd => "Zstd"@,
        CompressionMethod::Lzma => "Lzma"@,
        CompressionMethod::Xz => "Xz"@,
        CompressionMethod::Unsupported(v) => "Unsupported("@ + decimal(v as nat) + ")"@,
    }
}

fn digit_str(d: u16) -> (r: &'static str)
    requires
        d < 10,
    ensures
        r@ == seq![digit_char(d as nat)],
{
    proof {
        reveal_strlit("0");
        reveal_strlit("1");
        reveal_strlit("2");
        reveal_strlit("3");
        reveal_strlit("4");
        reveal_strlit("5");
        reveal_strlit("6");
        reveal_strlit("7");
        reveal_strlit("8");
        reveal_strlit("9");
    }
    let r = if d == 0 { "0" } else if d == 1 { "1" } else if d == 2 { "2" } else if d == 3 { "3" }
    else if d == 4 { "4" } else if d == 5 { "5" } else if d == 6 { "6" } else if d == 7 { "7" }
    else if d == 8 { "8" } else { "9" };
    assert(r@ =~= seq![digit_char(d as nat)]);
    r
}

fn append_decimal(s: &mut String, n: u16)
    ensures
        final(s)@ == old(s)@ + decimal(n as nat),
    decreases n,
{
    if n >= 10 {
        append_decimal(s, n / 10);
    }
    s.append(digit_str(n % 10));
    assert(s@ =~= old(s)@ + decimal(n as nat));
}

impl CompressionMethod {
    pub const STORE: CompressionMethod = CompressionMethod::Stored;
    pub const DEFLATE: CompressionMethod = CompressionMethod::Deflated;
    pub const DEFLATE64: CompressionMethod = CompressionMethod::Deflate64;
    pub const BZIP2: CompressionMethod = CompressionMethod::Bzip2;
    pub const LZMA: CompressionMethod = CompressionMethod::Lzma;
    pub const ZSTD: CompressionMethod = CompressionMethod::Zstd;
    pub const XZ: CompressionMethod = CompressionMethod::Xz;
    pub const AES: CompressionMethod = CompressionMethod::Aes;

    /// Converts an u16 to its corresponding CompressionMethod
    pub fn from_u16(val: u16) -> (r: CompressionMethod)
        ensures
            r == spec_from_u16(val),
    {
        match val {
            CODE_STORED => CompressionMethod::Stored,
            CODE_DEFLATED => CompressionMethod::Deflated,
            CODE_DEFLATE64 => CompressionMethod::Deflate64,
            CODE_BZIP2 => CompressionMethod::Bzip2,
            CODE_LZMA => CompressionMethod::Lzma,
            CODE_ZSTD => CompressionMethod::Zstd,
            CODE_XZ => CompressionMethod::Xz,
            CODE_AES => CompressionMethod::Aes,
            v => CompressionMethod::Unsupported(v),
        }
    }

    /// Converts a CompressionMethod to a u16
    pub fn to_u16(self) -> (r: u16)
        ensures
            r == spec_to_u16(self),
    {
        match self {
            CompressionMethod::Stored => CODE_STORED,
            CompressionMethod::Deflated => CODE_DEFLATED,
            CompressionMethod::Deflate64 => CODE_DEFLATE64,
            CompressionMethod::Bzip2 => CODE_BZIP2,
            CompressionMethod::Lzma => CODE_LZMA,
            CompressionMethod::Zstd => CODE_ZSTD,
            CompressionMethod::Xz => CODE_XZ,
            CompressionMethod::Aes => CODE_AES,
            CompressionMethod::Unsupported(v) => v,
        }
    }

    /// The human-readable rendering of the method, identical to its `Debug` form.
    pub fn to_string(&self) -> (r: String)
        ensures
            r@ == method_name(*self),
    {
        match *self {
            CompressionMethod::Stored => String::from_str("Stored"),
            CompressionMethod::Deflated => String::from_str("Deflated"),
            CompressionMethod::Deflate64 => String::from_str("Deflate64"),
            CompressionMethod::Bzip2 => String::from_str("Bzip2"),
            CompressionMethod::Aes => String::from_str("Aes"),
            CompressionMethod::Zstd => String::from_str("Zstd"),
            CompressionMethod::Lzma => String::from_str("Lzma"),
            CompressionMethod::Xz => String::from_str("Xz"),
            CompressionMethod::Unsupported(v) => {
                let mut s = String::from_str("Unsupported(");
                append_decimal(&mut s, v);
                s.append(")");
                s
            },
        }
    }
}

/// Decoding any wire code and encoding the method again gives back that code.
pub proof fn lemma_code_round_trip(code: u16)
    ensures
        spec_to_u16(spec_from_u16(code)) == code,
{
}

/// Every supported method is canonical: its wire code decodes to the method
/// itself, so encoding it once more gives the same code.
pub proof fn lemma_supported_round_trip(i: int)
    requires
        0 <= i < spec_supported_methods().len(),
    ensures
        is_canonical(spec_supported_methods()[i]),
        spec_to_u16(spec_from_u16(spec_to_u16(spec_supported_methods()[i]))) == spec_to_u16(
            spec_supported_methods()[i],
        ),
{
}

/// The compression methods which have been implemented, in a fixed order.
pub fn supported_compression_methods() -> (r: Vec<CompressionMethod>)
    ensures
        r@ == spec_supported_methods(),
{
    let r = vec![
        CompressionMethod::Stored,
        CompressionMethod::Deflated,
        CompressionMethod::Bzip2,
        CompressionMethod::Zstd,
        CompressionMethod::Lzma,
        CompressionMethod::Xz,
    ];
    assert(r@ =~= spec_supported_methods());
    r
}

} // verus!
