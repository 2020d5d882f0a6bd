//! A reader for LZMA entries, whose stream header sits at the start of the
//! entry data and is parsed on the first read.

use vstd::prelude::*;
use crate::error::ZipError;

verus! {

/// Length of the embedded header: version, properties size, properties.
pub const LZMA_HEADER_LEN: usize = 9;

/// The properties size every LZMA header must declare.
pub const LZMA_PROPERTIES_SIZE: u16 = 5;

/// A little-endian 16-bit value.
pub open spec fn le16(b0: u8, b1: u8) -> u16 {
    (b0 as int + b1 as int * 0x100) as u16
}

/// A little-endian 32-bit value.
pub open spec fn le32(b0: u8, b1: u8, b2: u8, b3: u8) -> u32 {
    (b0 as int + b1 as int * 0x100 + b2 as int * 0x1_0000 + b3 as int * 0x100_0000) as u32
}

/// The properties size that the header at the start of `data` declares.
pub open spec fn declared_properties_size(data: Seq<u8>) -> u16 {
    le16(data[2], data[3])
}

/// Reads the embedded header at the start of `data`: two bytes of version
/// (not checked), two bytes of properties size (which must be five), the
/// properties byte and a four-byte dictionary size, all little-endian.
pub fn parse_header(data: &[u8]) -> (r: Result<(u8, u32), ZipError>)
    ensures
        data@.len() < 4 ==> r matches Err(ZipError::TruncatedLzmaHeader),
        data@.len() >= 4 && declared_properties_size(data@) != LZMA_PROPERTIES_SIZE ==> (r matches Err(
            ZipError::InvalidLzmaPropertiesSize(p),
        ) && p == declared_properties_size(data@)),
        data@.len() >= 4 && declared_properties_size(data@) == LZMA_PROPERTIES_SIZE && data@.len() < 9
            ==> r matches Err(ZipError::TruncatedLzmaHeader),
        data@.len() >= 9 && declared_properties_size(data@) == LZMA_PROPERTIES_SIZE ==> (r matches Ok(v)
            && v == (data@[4], le32(data@[5], data@[6], data@[7], data@[8]))),
{
    if data.len() < 4 {
        return Err(ZipError::TruncatedLzmaHeader);
    }
    let properties_size: u16 = (data[2] as u16) + (data[3] as u16) * 0x100;
    if properties_size != LZMA_PROPERTIES_SIZE {
        return Err(ZipError::InvalidLzmaPropertiesSize(properties_size));
    }
    if data.len() < LZMA_HEADER_LEN {
        return Err(ZipError::TruncatedLzmaHeader);
    }
    let dict_size: u32 = (data[5] as u32) + (data[6] as u32) * 0x100 + (data[7] as u32) * 0x1_0000
        + (data[8] as u32) * 0x100_0000;
    Ok((data[4], dict_size))
}

/// A raw LZMA decoder (`lzma_rust2`, no header) over a byte buffer.
#[verifier::external_body]
pub struct LzmaDecoder {
    inner: lzma_rust2::LzmaReader<std::io::Cursor<Vec<u8>>>,
}

/// What a decoder was built over (payload, declared size, properties byte,
/// dictionary size) and how many decoded bytes it has yielded so far.
pub uninterp spec fn lzma_decoder_fed(d: LzmaDecoder) -> (Seq<u8>, u64, u8, u32, nat);

/// The decoded bytes a decoder built over `input` yields, in order, until it
/// stops at an end marker, at the declared size, or on a failure.
pub uninterp spec fn lzma_decoded(input: (Seq<u8>, u64, u8, u32)) -> Seq<u8>;

/// Whether a decoder over `input` can be built and decodes it without failure.
pub uninterp spec fn lzma_decodes(input: (Seq<u8>, u64, u8, u32)) -> bool;

/// The build inputs of a decoder, without its position.
pub open spec fn decoder_input(f: (Seq<u8>, u64, u8, u32, nat)) -> (Seq<u8>, u64, u8, u32) {
    (f.0, f.1, f.2, f.3)
}

impl LzmaDecoder {
    /// Relies on `lzma_rust2::LzmaReader::new_with_props`: a decoder over
    /// `payload` that stops at an end marker or after `uncompressed_size`
    /// bytes, or the error for a bad properties byte or dictionary size.
    #[verifier::external_body]
    fn new(payload: Vec<u8>, uncompressed_size: u64, props: u8, dict_size: u32) -> (r: std::io::Result<LzmaDecoder>)
        ensures
            lzma_decodes((payload@, uncompressed_size, props, dict_size)) ==> r is Ok,
            r matches Ok(d) ==> lzma_decoder_fed(d) == (payload@, uncompressed_size, props, dict_size, 0nat),
    {
        let source = std::io::Cursor::new(payload);
        lzma_rust2::LzmaReader::new_with_props(source, uncompressed_size, props, dict_size, None)
            .map(|inner| LzmaDecoder { inner })
    }

    /// Relies on `std::io::Read::read` of `LzmaReader`: it fills a prefix of
    /// the buffer with the next decoded bytes and reports their number, at
    /// most the buffer's length.
    #[verifier::external_body]
    fn read(&mut self, buf: &mut Vec<u8>) -> (r: std::io::Result<usize>)
        ensures
            final(buf)@.len() == old(buf)@.len(),
            decoder_input(lzma_decoder_fed(*final(self))) == decoder_input(lzma_decoder_fed(*old(self))),
            lzma_decodes(decoder_input(lzma_decoder_fed(*old(self)))) ==> r is Ok,
            r matches Ok(n) ==> {
                let f = lzma_decoder_fed(*old(self));
                let out = lzma_decoded(decoder_input(f));
                &&& n <= old(buf)@.len()
                &&& f.4 + n <= out.len()
                &&& final(buf)@.subrange(0, n as int) == out.subrange(f.4 as int, f.4 + n)
                &&& lzma_decoder_fed(*final(self)) == (f.0, f.1, f.2, f.3, (f.4 + n) as nat)
            },
    {
        std::io::Read::read(&mut self.inner, buf.as_mut_slice())
    }

    /// Relies on `LzmaReader::into_inner` and `Cursor::into_inner`: the
    /// buffer the decoder read from.
    #[verifier::external_body]
    fn into_inner(self) -> (r: Vec<u8>)
        ensures
            r@ == lzma_decoder_fed(self).0,
    {
        self.inner.into_inner().into_inner()
    }
}

/// The two states of the reader: before the first read it holds the raw
/// entry data; afterwards the decoder, with the header it was built from and
/// the number of bytes it may still yield.
enum ReaderState {
    Uninitialized { reader: Option<Vec<u8>>, uncompressed_size: u64 },
    Initialized { decoder: LzmaDecoder, header: Vec<u8>, remaining: u64, props: u8, dict_size: u32 },
}

/// Decodes an LZMA entry whose header is embedded in its data, parsing that
/// header on the first read.
pub struct LzmaReader {
    state: ReaderState,
}

/// A vector of `n` zero bytes.
fn zeroes(n: usize) -> (r: Vec<u8>)
    ensures
        r@.len() == n,
{
    let mut r: Vec<u8> = Vec::new();
    while r.len() < n
        invariant
            r@.len() <= n,
        decreases n - r@.len(),
    {
        r.push(0);
    }
    r
}

/// The bytes of `data` in `start..end`.
fn slice_of(data: &Vec<u8>, start: usize, end: usize) -> (r: Vec<u8>)
    requires
        start <= end <= data@.len(),
    ensures
        r@ == data@.subrange(start as int, end as int),
{
    let mut r: Vec<u8> = Vec::new();
    let mut i: usize = start;
    while i < end
        invariant
            start <= i <= end <= data@.len(),
            r@ == data@.subrange(start as int, i as int),
        decreases end - i,
    {
        r.push(data[i]);
        i = i + 1;
        assert(r@ =~= data@.subrange(start as int, i as int));
    }
    r
}

/// The build inputs that an entry's data gives its decoder: the bytes after
/// the header, the declared size, and the header's properties byte and
/// dictionary size.
pub open spec fn entry_input(data: Seq<u8>, size: u64) -> (Seq<u8>, u64, u8, u32) {
    (data.subrange(9, data.len() as int), size, data[4], le32(data[5], data[6], data[7], data[8]))
}

impl LzmaReader {
    /// Whether the header has been parsed and the decoder built.
    pub closed spec fn initialized(&self) -> bool {
        self.state is Initialized
    }

    /// The raw entry data still held before the first read, if any.
    pub closed spec fn raw(&self) -> Option<Seq<u8>> {
        match self.state {
            ReaderState::Uninitialized { reader, .. } => match reader {
                Some(r) => Some(r@),
                None => None,
            },
            _ => None,
        }
    }

    /// The raw entry data the reader holds, directly or through its decoder.
    pub closed spec fn source(&self) -> Option<Seq<u8>> {
        match self.state {
            ReaderState::Uninitialized { reader, .. } => match reader {
                Some(r) => Some(r@),
                None => None,
            },
            ReaderState::Initialized { decoder, header, .. } => Some(header@ + lzma_decoder_fed(decoder).0),
        }
    }

    /// How many more decoded bytes the reader may yield.
    pub closed spec fn remaining(&self) -> nat {
        match self.state {
            ReaderState::Uninitialized { uncompressed_size, .. } => uncompressed_size as nat,
            ReaderState::Initialized { remaining, .. } => remaining as nat,
        }
    }

    /// The properties byte and dictionary size the decoder was built with.
    pub closed spec fn header(&self) -> Option<(u8, u32)> {
        match self.state {
            ReaderState::Initialized { props, dict_size, .. } => Some((props, dict_size)),
            _ => None,
        }
    }

    /// The build inputs of the decoder, once built.
    pub closed spec fn input(&self) -> Option<(Seq<u8>, u64, u8, u32)> {
        match self.state {
            ReaderState::Initialized { decoder, .. } => Some(decoder_input(lzma_decoder_fed(decoder))),
            _ => None,
        }
    }

    /// How many decoded bytes the decoder has yielded (zero before it is built).
    pub closed spec fn position(&self) -> nat {
        match self.state {
            ReaderState::Initialized { decoder, .. } => lzma_decoder_fed(decoder).4,
            _ => 0,
        }
    }

    /// A reader over the raw entry data that will yield at most
    /// `uncompressed_size` bytes.
    pub fn new(reader: Vec<u8>, uncompressed_size: u64) -> (r: LzmaReader)
        ensures
            !r.initialized(),
            r.raw() == Some(reader@),
            r.source() == Some(reader@),
            r.remaining() == uncompressed_size,
    {
        LzmaReader { state: ReaderState::Uninitialized { reader: Some(reader), uncompressed_size } }
    }

    /// The raw entry data, header included, before or after the first read.
    /// The data must not have been taken by a failed first read.
    pub fn into_inner(self) -> (r: Vec<u8>)
        requires
            self.source() is Some,
        ensures
            self.source() == Some(r@),
    {
        match self.state {
            ReaderState::Uninitialized { reader, .. } => match reader {
                Some(r) => r,
                None => {
                    assert(false);
                    unreached()
                },
            },
            ReaderState::Initialized { decoder, header, .. } => {
                let mut raw = header;
                let mut payload = decoder.into_inner();
                raw.append(&mut payload);
                raw
            },
        }
    }

    /// Reads decoded bytes into a prefix of `buf` and returns their number.
    /// The first call parses the header and builds the decoder over the bytes
    /// after it; a header that cannot be read fails with no bytes returned.
    pub fn read(&mut self, buf: &mut Vec<u8>) -> (r: Result<usize, ZipError>)
        ensures
            final(buf)@.len() == old(buf)@.len(),
            r matches Ok(n) ==> {
                &&& n <= old(buf)@.len()
                &&& n <= old(self).remaining()
                &&& final(self).initialized()
                &&& final(self).remaining() == old(self).remaining() - n
            },
            r is Err ==> final(self).remaining() == old(self).remaining(),
            old(self).initialized() ==> {
                &&& final(self).initialized()
                &&& final(self).header() == old(self).header()
                &&& final(self).input() == old(self).input()
                &&& final(self).source() == old(self).source()
                &&& r matches Err(e) ==> e is Io
                &&& lzma_decodes(old(self).input().unwrap()) ==> r is Ok
                &&& r matches Ok(n) ==> {
                    &&& final(self).position() == old(self).position() + n
                    &&& final(buf)@.subrange(0, n as int) == lzma_decoded(old(self).input().unwrap()).subrange(
                        old(self).position() as int,
                        old(self).position() + n,
                    )
                }
            },
            !old(self).initialized() ==> match old(self).raw() {
                None => (r matches Err(ZipError::ReaderTaken)) && final(buf)@ == old(buf)@,
                Some(data) => {
                    &&& data.len() < 4 ==> (r matches Err(ZipError::TruncatedLzmaHeader))
                    &&& data.len() >= 4 && declared_properties_size(data) != LZMA_PROPERTIES_SIZE ==> (r matches Err(
                        ZipError::InvalidLzmaPropertiesSize(p),
                    ) && p == declared_properties_size(data))
                    &&& data.len() >= 4 && declared_properties_size(data) == LZMA_PROPERTIES_SIZE && data.len() < 9
                        ==> (r matches Err(ZipError::TruncatedLzmaHeader))
                    &&& (r is Err && !(r matches Err(ZipError::Io(_)))) ==> final(buf)@ == old(buf)@ && !final(self).initialized()
                    &&& !final(self).initialized() ==> final(self).raw() is None
                    &&& data.len() >= 9 && declared_properties_size(data) == LZMA_PROPERTIES_SIZE ==> {
                        let input = entry_input(data, old(self).remaining() as u64);
                        &&& r matches Err(e) ==> e is Io
                        &&& lzma_decodes(input) ==> r is Ok
                        &&& final(self).initialized() ==> {
                            &&& final(self).header() == Some((data[4], le32(data[5], data[6], data[7], data[8])))
                            &&& final(self).input() == Some(input)
                            &&& final(self).source() == Some(data)
                        }
                        &&& r matches Ok(n) ==> {
                            &&& final(self).position() == n
                            &&& final(buf)@.subrange(0, n as int) == lzma_decoded(input).subrange(0, n as int)
                        }
                    }
                },
            },
    {
        match &mut self.state {
            ReaderState::Uninitialized { reader, uncompressed_size } => {
                let size = *uncompressed_size;
                let data = match reader.take() {
                    Some(d) => d,
                    None => return Err(ZipError::ReaderTaken),
                };
                let (props, dict_size) = match parse_header(data.as_slice()) {
                    Ok(h) => h,
                    Err(e) => return Err(e),
                };
                let header = slice_of(&data, 0, LZMA_HEADER_LEN);
                let payload = slice_of(&data, LZMA_HEADER_LEN, data.len());
                assert(header@ + payload@ =~= data@);
                let decoder = match LzmaDecoder::new(payload, size, props, dict_size) {
                    Ok(d) => d,
                    Err(e) => return Err(ZipError::Io(e)),
                };
                self.state = ReaderState::Initialized { decoder, header, remaining: size, props, dict_size };
            },
            ReaderState::Initialized { .. } => {},
        }
        self.read_initialized(buf)
    }

    /// Reads from the decoder, never past the declared size.
    fn read_initialized(&mut self, buf: &mut Vec<u8>) -> (r: Result<usize, ZipError>)
        requires
            old(self).initialized(),
        ensures
            final(buf)@.len() == old(buf)@.len(),
            final(self).initialized(),
            final(self).header() == old(self).header(),
            final(self).input() == old(self).input(),
            final(self).source() == old(self).source(),
            r matches Ok(n) ==> {
                &&& n <= old(buf)@.len()
                &&& n <= old(self).remaining()
                &&& final(self).remaining() == old(self).remaining() - n
                &&& final(self).position() == old(self).position() + n
                &&& final(buf)@.subrange(0, n as int) == lzma_decoded(old(self).input().unwrap()).subrange(
                    old(self).position() as int,
                    old(self).position() + n,
                )
            },
            r is Err ==> final(self).remaining() == old(self).remaining(),
            r matches Err(e) ==> e is Io,
            lzma_decodes(old(self).input().unwrap()) ==> r is Ok,
    {
        match &mut self.state {
            ReaderState::Initialized { decoder: reader, remaining, .. } => {
                if (buf.len() as u64) <= *remaining {
                    match reader.read(buf) {
                        Ok(n) => {
                            *remaining = *remaining - n as u64;
                            Ok(n)
                        },
                        Err(e) => Err(ZipError::Io(e)),
                    }
                } else {
                    let mut tmp = zeroes(*remaining as usize);
                    match reader.read(&mut tmp) {
                        Ok(n) => {
                            let mut i: usize = 0;
                            while i < n
                                invariant
                                    i <= n <= tmp@.len(),
                                    tmp@.len() < buf@.len(),
                                    buf@.len() == old(buf)@.len(),
                                    forall|j: int| 0 <= j < i ==> buf@[j] == tmp@[j],
                                decreases n - i,
                            {
                                buf.set(i, tmp[i]);
                                i = i + 1;
                            }
                            assert(buf@.subrange(0, n as int) =~= tmp@.subrange(0, n as int));
                            *remaining = *remaining - n as u64;
                            Ok(n)
                        },
                        Err(e) => Err(ZipError::Io(e)),
                    }
                }
            },
            _ => {
                assert(false);
                unreached()
            },
        }
    }
}

} // verus!
