//! The codec-switching writer.

use vstd::prelude::*;
use bzip2::write::BzEncoder;
use flate2::write::DeflateEncoder;
use lzma_rust2::{LzmaWriter, XzWriter};
use zstd::stream::write::Encoder as ZstdEncoder;
use crate::compression::CompressionMethod;
use crate::error::{Unsupported, ZipError};
use crate::zipcrypto::MaybeEncrypted;

verus! {

/// A Deflate encoder (`flate2`) that compresses into a byte buffer.
#[verifier::external_body]
pub struct DeflateStream {
    inner: DeflateEncoder<Vec<u8>>,
}

/// What a DeflateStream was fed: its level and each chunk written to it, in order.
pub uninterp spec fn deflate_fed(s: DeflateStream) -> (u32, Seq<Seq<u8>>);

/// Whether writing `data` succeeds on an encoder fed with `fed`.
pub uninterp spec fn deflate_write_ok(fed: (u32, Seq<Seq<u8>>), data: Seq<u8>) -> bool;

/// The finished stream of an encoder fed with `fed`, or `None` where finishing fails.
pub uninterp spec fn deflate_output(fed: (u32, Seq<Seq<u8>>)) -> Option<Seq<u8>>;

impl DeflateStream {
    /// Relies on `DeflateEncoder::new` and `flate2::Compression::new`: an
    /// encoder at the given level over an empty buffer, with nothing fed yet.
    #[verifier::external_body]
    fn new(level: u32) -> (r: DeflateStream)
        ensures
            deflate_fed(r) == (level, Seq::<Seq<u8>>::empty()),
    {
        DeflateStream { inner: DeflateEncoder::new(Vec::new(), flate2::Compression::new(level)) }
    }

    /// Relies on `std::io::Write::write_all` of `DeflateEncoder`: the chunk is fed whole, or the error comes back.
    #[verifier::external_body]
    fn write_all(&mut self, data: &[u8]) -> (r: std::io::Result<()>)
        ensures
            (r is Ok) == deflate_write_ok(deflate_fed(*old(self)), data@),
            r is Ok ==> deflate_fed(*final(self)) == (deflate_fed(*old(self)).0, deflate_fed(*old(self)).1.push(data@)),
    {
        std::io::Write::write_all(&mut self.inner, data)
    }

    /// Relies on `DeflateEncoder::finish`: ends the stream and hands back the buffer,
    /// which holds the whole compressed stream.
    #[verifier::external_body]
    fn finish(self) -> (r: std::io::Result<Vec<u8>>)
        ensures
            (r is Ok) == deflate_output(deflate_fed(self)) is Some,
            r matches Ok(v) ==> deflate_output(deflate_fed(self)) == Some(v@),
    {
        self.inner.finish()
    }
}

/// A BZIP2 encoder (`bzip2`) that compresses into a byte buffer.
#[verifier::external_body]
pub struct Bzip2Stream {
    inner: BzEncoder<Vec<u8>>,
}

/// What a Bzip2Stream was fed: its level and each chunk written to it, in order.
pub uninterp spec fn bzip2_fed(s: Bzip2Stream) -> (u32, Seq<Seq<u8>>);

/// Whether writing `data` succeeds on an encoder fed with `fed`.
pub uninterp spec fn bzip2_write_ok(fed: (u32, Seq<Seq<u8>>), data: Seq<u8>) -> bool;

/// The finished stream of an encoder fed with `fed`, or `None` where finishing fails.
pub uninterp spec fn bzip2_output(fed: (u32, Seq<Seq<u8>>)) -> Option<Seq<u8>>;

impl Bzip2Stream {
    /// Relies on `BzEncoder::new` and `bzip2::Compression::new`, which panics
    /// outside `1..=9`: an encoder at the given level over an empty buffer.
    #[verifier::external_body]
    fn new(level: u32) -> (r: Bzip2Stream)
        requires
            1 <= level <= 9,
        ensures
            bzip2_fed(r) == (level, Seq::<Seq<u8>>::empty()),
    {
        Bzip2Stream { inner: BzEncoder::new(Vec::new(), bzip2::Compression::new(level)) }
    }

    /// Relies on `std::io::Write::write_all` of `BzEncoder`: the chunk is fed whole, or the error comes back.
    #[verifier::external_body]
    fn write_all(&mut self, data: &[u8]) -> (r: std::io::Result<()>)
        ensures
            (r is Ok) == bzip2_write_ok(bzip2_fed(*old(self)), data@),
            r is Ok ==> bzip2_fed(*final(self)) == (bzip2_fed(*old(self)).0, bzip2_fed(*old(self)).1.push(data@)),
    {
        std::io::Write::write_all(&mut self.inner, data)
    }

    /// Relies on `BzEncoder::finish`: ends the stream and hands back the buffer,
    /// which holds the whole compressed stream.
    #[verifier::external_body]
    fn finish(self) -> (r: std::io::Result<Vec<u8>>)
        ensures
            (r is Ok) == bzip2_output(bzip2_fed(self)) is Some,
            r matches Ok(v) ==> bzip2_output(bzip2_fed(self)) == Some(v@),
    {
        self.inner.finish()
    }
}

/// A ZStandard encoder (`zstd`) that compresses into a byte buffer.
#[verifier::external_body]
pub struct ZstdStream {
    inner: ZstdEncoder<'static, Vec<u8>>,
}

/// What a ZstdStream was fed: its level and each chunk written to it, in order.
pub uninterp spec fn zstd_fed(s: ZstdStream) -> (i32, Seq<Seq<u8>>);

/// Whether writing `data` succeeds on an encoder fed with `fed`.
pub uninterp spec fn zstd_write_ok(fed: (i32, Seq<Seq<u8>>), data: Seq<u8>) -> bool;

/// The finished stream of an encoder fed with `fed`, or `None` where finishing fails.
pub uninterp spec fn zstd_output(fed: (i32, Seq<Seq<u8>>)) -> Option<Seq<u8>>;

/// Whether setting up an encoder at `level` succeeds.
pub uninterp spec fn zstd_setup_ok(level: i32) -> bool;

impl ZstdStream {
    /// Relies on `zstd::stream::write::Encoder::new`: an encoder at the given
    /// level over an empty buffer, or the error of its setup.
    #[verifier::external_body]
    fn new(level: i32) -> (r: std::io::Result<ZstdStream>)
        ensures
            (r is Ok) == zstd_setup_ok(level),
            r matches Ok(e) ==> zstd_fed(e) == (level, Seq::<Seq<u8>>::empty()),
    {
        ZstdEncoder::new(Vec::new(), level).map(|inner| ZstdStream { inner })
    }

    /// Relies on `std::io::Write::write_all` of the zstd `Encoder`: the chunk is fed whole, or the error comes back.
    #[verifier::external_body]
    fn write_all(&mut self, data: &[u8]) -> (r: std::io::Result<()>)
        ensures
            (r is Ok) == zstd_write_ok(zstd_fed(*old(self)), data@),
            r is Ok ==> zstd_fed(*final(self)) == (zstd_fed(*old(self)).0, zstd_fed(*old(self)).1.push(data@)),
    {
        std::io::Write::write_all(&mut self.inner, data)
    }

    /// Relies on `zstd::stream::write::Encoder::finish`: ends the stream and hands back the buffer,
    /// which holds the whole compressed stream.
    #[verifier::external_body]
    fn finish(self) -> (r: std::io::Result<Vec<u8>>)
        ensures
            (r is Ok) == zstd_output(zstd_fed(self)) is Some,
            r matches Ok(v) ==> zstd_output(zstd_fed(self)) == Some(v@),
    {
        self.inner.finish()
    }
}

/// A raw LZMA encoder (`lzma_rust2`, no header, no end marker) that
/// compresses into a byte buffer.
#[verifier::external_body]
pub struct LzmaStream {
    inner: LzmaWriter<Vec<u8>>,
}

/// What a LzmaStream was fed: its level and each chunk written to it, in order.
pub uninterp spec fn lzma_fed(s: LzmaStream) -> (u32, Seq<Seq<u8>>);

/// Whether writing `data` succeeds on an encoder fed with `fed`.
pub uninterp spec fn lzma_write_ok(fed: (u32, Seq<Seq<u8>>), data: Seq<u8>) -> bool;

/// The finished stream of an encoder fed with `fed`, or `None` where finishing fails.
pub uninterp spec fn lzma_output(fed: (u32, Seq<Seq<u8>>)) -> Option<Seq<u8>>;

/// Whether setting up an encoder at `level` succeeds.
pub uninterp spec fn lzma_setup_ok(level: u32) -> bool;

impl LzmaStream {
    /// Relies on `LzmaWriter::new_no_header` with `LzmaOptions::with_preset`:
    /// a headerless encoder without end marker over an empty buffer.
    #[verifier::external_body]
    fn new(level: u32) -> (r: std::io::Result<LzmaStream>)
        ensures
            (r is Ok) == lzma_setup_ok(level),
            r matches Ok(e) ==> lzma_fed(e) == (level, Seq::<Seq<u8>>::empty()),
    {
        let options = lzma_rust2::LzmaOptions::with_preset(level);
        LzmaWriter::new_no_header(Vec::new(), &options, false).map(|inner| LzmaStream { inner })
    }

    /// Relies on `std::io::Write::write_all` of `LzmaWriter`: the chunk is fed whole, or the error comes back.
    #[verifier::external_body]
    fn write_all(&mut self, data: &[u8]) -> (r: std::io::Result<()>)
        ensures
            (r is Ok) == lzma_write_ok(lzma_fed(*old(self)), data@),
            r is Ok ==> lzma_fed(*final(self)) == (lzma_fed(*old(self)).0, lzma_fed(*old(self)).1.push(data@)),
    {
        std::io::Write::write_all(&mut self.inner, data)
    }

    /// Relies on `LzmaWriter::finish`: ends the stream and hands back the buffer,
    /// which holds the whole compressed stream.
    #[verifier::external_body]
    fn finish(self) -> (r: std::io::Result<Vec<u8>>)
        ensures
            (r is Ok) == lzma_output(lzma_fed(self)) is Some,
            r matches Ok(v) ==> lzma_output(lzma_fed(self)) == Some(v@),
    {
        self.inner.finish()
    }
}

/// An XZ encoder (`lzma_rust2`) that compresses into a byte buffer.
#[verifier::external_body]
pub struct XzStream {
    inner: XzWriter<Vec<u8>>,
}

/// What a XzStream was fed: its level and each chunk written to it, in order.
pub uninterp spec fn xz_fed(s: XzStream) -> (u32, Seq<Seq<u8>>);

/// Whether writing `data` succeeds on an encoder fed with `fed`.
pub uninterp spec fn xz_write_ok(fed: (u32, Seq<Seq<u8>>), data: Seq<u8>) -> bool;

/// The finished stream of an encoder fed with `fed`, or `None` where finishing fails.
pub uninterp spec fn xz_output(fed: (u32, Seq<Seq<u8>>)) -> Option<Seq<u8>>;

/// Whether setting up an encoder at `level` succeeds.
pub uninterp spec fn xz_setup_ok(level: u32) -> bool;

impl XzStream {
    /// Relies on `XzWriter::new` with `XzOptions::with_preset`: an encoder over
    /// an empty buffer, or the error of its setup.
    #[verifier::external_body]
    fn new(level: u32) -> (r: std::io::Result<XzStream>)
        ensures
            (r is Ok) == xz_setup_ok(level),
            r matches Ok(e) ==> xz_fed(e) == (level, Seq::<Seq<u8>>::empty()),
    {
        let options = lzma_rust2::XzOptions::with_preset(level);
        XzWriter::new(Vec::new(), options).map(|inner| XzStream { inner })
    }

    /// Relies on `std::io::Write::write_all` of `XzWriter`: the chunk is fed whole, or the error comes back.
    #[verifier::external_body]
    fn write_all(&mut self, data: &[u8]) -> (r: std::io::Result<()>)
        ensures
            (r is Ok) == xz_write_ok(xz_fed(*old(self)), data@),
            r is Ok ==> xz_fed(*final(self)) == (xz_fed(*old(self)).0, xz_fed(*old(self)).1.push(data@)),
    {
        std::io::Write::write_all(&mut self.inner, data)
    }

    /// Relies on `XzWriter::finish`: ends the stream and hands back the buffer,
    /// which holds the whole compressed stream.
    #[verifier::external_body]
    fn finish(self) -> (r: std::io::Result<Vec<u8>>)
        ensures
            (r is Ok) == xz_output(xz_fed(self)) is Some,
            r matches Ok(v) ==> xz_output(xz_fed(self)) == Some(v@),
    {
        self.inner.finish()
    }
}

/// Relies on `flate2::Compression::none`, `best` and `level`: the accepted
/// Deflate levels run from 0 to 9.
#[verifier::external_body]
fn deflate_level_bounds() -> (r: (u32, u32))
    ensures
        r == (0u32, 9u32),
{
    (flate2::Compression::none().level(), flate2::Compression::best().level())
}

/// Relies on `flate2::Compression::default` and `level`: the default is 6.
#[verifier::external_body]
fn deflate_default_level() -> (r: u32)
    ensures
        r == 6,
{
    flate2::Compression::default().level()
}

/// Relies on `bzip2::Compression::fast`, `best` and `level`: the accepted
/// BZIP2 levels run from 1 to 9.
#[verifier::external_body]
fn bzip2_level_bounds() -> (r: (u32, u32))
    ensures
        r == (1u32, 9u32),
{
    (bzip2::Compression::fast().level(), bzip2::Compression::best().level())
}

/// Relies on `bzip2::Compression::default` and `level`: the default is 6.
#[verifier::external_body]
fn bzip2_default_level() -> (r: u32)
    ensures
        r == 6,
{
    bzip2::Compression::default().level()
}

/// Relies on `zstd::compression_level_range`, which asks the C library:
/// `ZSTD_minCLevel` is minus the largest block size, 1 << 17, and
/// `ZSTD_maxCLevel` is 22.
#[verifier::external_body]
fn zstd_level_bounds() -> (r: (i32, i32))
    ensures
        r == (-131072i32, 22i32),
{
    let range = zstd::compression_level_range();
    (*range.start(), *range.end())
}

/// Relies on `zstd::DEFAULT_COMPRESSION_LEVEL`, which is `ZSTD_CLEVEL_DEFAULT`, 3.
#[verifier::external_body]
fn zstd_default_level() -> (r: i32)
    ensures
        r == 3,
{
    zstd::DEFAULT_COMPRESSION_LEVEL
}

/// The accepted level range of a method that takes a level, as the backends
/// report it.
pub open spec fn level_range(m: CompressionMethod) -> Option<(int, int)> {
    match m {
        CompressionMethod::Deflated => Some((0, 9)),
        CompressionMethod::Bzip2 => Some((1, 9)),
        CompressionMethod::Zstd => Some((-131072, 22)),
        CompressionMethod::Lzma => Some((0, 9)),
        CompressionMethod::Xz => Some((0, 9)),
        _ => None,
    }
}

/// The level a method that takes a level uses when none is given.
pub open spec fn default_level(m: CompressionMethod) -> int {
    match m {
        CompressionMethod::Zstd => 3,
        _ => 6,
    }
}

/// The level a switch to `m` uses: the one given, else the default.
pub open spec fn effective_level(m: CompressionMethod, level: Option<i32>) -> int {
    match level {
        Some(l) => l as int,
        None => default_level(m),
    }
}

/// Why a switch to `m` at `level` is refused, if it is.
pub open spec fn switch_rejection(m: CompressionMethod, level: Option<i32>) -> Option<Unsupported> {
    match m {
        CompressionMethod::Stored => if level is Some {
            Some(Unsupported::CompressionLevel)
        } else {
            None
        },
        CompressionMethod::Deflate64 => Some(Unsupported::Deflate64Writing),
        CompressionMethod::Aes => Some(Unsupported::AesWriting),
        CompressionMethod::Unsupported(_) => Some(Unsupported::Method),
        _ => {
            let (lo, hi) = level_range(m).unwrap();
            let l = effective_level(m, level);
            if lo <= l && l <= hi {
                None
            } else {
                Some(Unsupported::CompressionLevel)
            }
        },
    }
}

/// At the edges of a method's level range: the lowest and highest levels and
/// the default are accepted, one below the lowest and one above the highest
/// are refused as a level error.
pub proof fn lemma_level_boundaries(m: CompressionMethod)
    requires
        level_range(m) is Some,
    ensures
        ({
            let (lo, hi) = level_range(m).unwrap();
            &&& switch_rejection(m, Some(lo as i32)) is None
            &&& switch_rejection(m, Some(hi as i32)) is None
            &&& switch_rejection(m, None) is None
            &&& switch_rejection(m, Some((lo - 1) as i32)) == Some(Unsupported::CompressionLevel)
            &&& switch_rejection(m, Some((hi + 1) as i32)) == Some(Unsupported::CompressionLevel)
        }),
{
}

/// The stored method takes no level: any explicit level is refused, none is
/// accepted.
pub proof fn lemma_stored_takes_no_level(level: i32)
    ensures
        switch_rejection(CompressionMethod::Stored, Some(level)) == Some(Unsupported::CompressionLevel),
        switch_rejection(CompressionMethod::Stored, None) is None,
{
}

/// Returns `value` when it lies in `lo..=hi`.
pub fn clamp_opt(value: i32, lo: i32, hi: i32) -> (r: Option<i32>)
    ensures
        r == (if lo <= value && value <= hi { Some(value) } else { None::<i32> }),
{
    if lo <= value && value <= hi {
        Some(value)
    } else {
        None
    }
}

/// The accepted Deflate levels.
fn deflate_compression_level_range() -> (r: (i32, i32))
    ensures
        r == (0i32, 9i32),
{
    let (lo, hi) = deflate_level_bounds();
    (lo as i32, hi as i32)
}

/// The accepted BZIP2 levels.
fn bzip2_compression_level_range() -> (r: (i32, i32))
    ensures
        r == (1i32, 9i32),
{
    let (lo, hi) = bzip2_level_bounds();
    (lo as i32, hi as i32)
}

/// Whether the encoder for `m` at `level` can be set up. Setting up the
/// Deflate and BZIP2 encoders cannot fail.
pub open spec fn setup_ok(m: CompressionMethod, level: Option<i32>) -> bool {
    match m {
        CompressionMethod::Zstd => zstd_setup_ok(effective_level(m, level) as i32),
        CompressionMethod::Lzma => lzma_setup_ok(effective_level(m, level) as u32),
        CompressionMethod::Xz => xz_setup_ok(effective_level(m, level) as u32),
        _ => true,
    }
}

/// The state of the writer: closed, or exactly one active encoder over the
/// sink.
enum WriterState {
    Closed,
    Storer(MaybeEncrypted),
    Deflater(DeflateStream, MaybeEncrypted),
    Bzip2(Bzip2Stream, MaybeEncrypted),
    Zstd(ZstdStream, MaybeEncrypted),
    Lzma(LzmaStream, MaybeEncrypted),
    Xz(XzStream, MaybeEncrypted),
}

/// A writer that sends each entry's bytes through exactly one encoder at a
/// time, over a sink that may encrypt.
///
/// Each encoder compresses into a buffer of its own; when the encoder is
/// finished, its whole stream is written to the sink. The stored method
/// writes to the sink directly. A switch that is refused after the prior
/// encoder was finished leaves the writer closed.
pub struct GenericZipWriter {
    state: WriterState,
}

/// The sink that a state writes to, if it has one.
spec fn state_sink(s: WriterState) -> Option<MaybeEncrypted> {
    match s {
        WriterState::Closed => None,
        WriterState::Storer(w) => Some(w),
        WriterState::Deflater(_, w) => Some(w),
        WriterState::Bzip2(_, w) => Some(w),
        WriterState::Zstd(_, w) => Some(w),
        WriterState::Lzma(_, w) => Some(w),
        WriterState::Xz(_, w) => Some(w),
    }
}

/// What finishing the encoder of a state adds to the sink, or `None` where
/// finishing fails.
spec fn state_output(s: WriterState) -> Option<Seq<u8>> {
    match s {
        WriterState::Closed => None,
        WriterState::Storer(_) => Some(Seq::empty()),
        WriterState::Deflater(e, _) => deflate_output(deflate_fed(e)),
        WriterState::Bzip2(e, _) => bzip2_output(bzip2_fed(e)),
        WriterState::Zstd(e, _) => zstd_output(zstd_fed(e)),
        WriterState::Lzma(e, _) => lzma_output(lzma_fed(e)),
        WriterState::Xz(e, _) => xz_output(xz_fed(e)),
    }
}

/// Finishes the encoder of `state`, writes its stream to the sink and
/// returns the sink.
fn finish_state(state: WriterState) -> (r: Result<MaybeEncrypted, ZipError>)
    requires
        !(state is Closed),
    ensures
        (r is Ok) == state_output(state) is Some,
        state_output(state) matches Some(out) ==> (r matches Ok(w) && w.bytes()
            == state_sink(state).unwrap().bytes() + out && w.is_encrypted()
            == state_sink(state).unwrap().is_encrypted()),
        state matches WriterState::Storer(w0) ==> (r matches Ok(w) && w == w0),
        r matches Err(e) ==> e is Io,
{
    let (out, mut w) = match state {
        WriterState::Storer(w) => {
            assert(w.bytes() + Seq::<u8>::empty() =~= w.bytes());
            return Ok(w);
        },
        WriterState::Deflater(e, w) => (e.finish(), w),
        WriterState::Bzip2(e, w) => (e.finish(), w),
        WriterState::Zstd(e, w) => (e.finish(), w),
        WriterState::Lzma(e, w) => (e.finish(), w),
        WriterState::Xz(e, w) => (e.finish(), w),
        WriterState::Closed => return Err(ZipError::Closed),
    };
    match out {
        Ok(bytes) => {
            w.write_all(bytes.as_slice());
            Ok(w)
        },
        Err(e) => Err(ZipError::Io(e)),
    }
}

impl GenericZipWriter {
    /// The active method, or `None` once closed.
    pub closed spec fn current(&self) -> Option<CompressionMethod> {
        match self.state {
            WriterState::Closed => None,
            WriterState::Storer(_) => Some(CompressionMethod::Stored),
            WriterState::Deflater(..) => Some(CompressionMethod::Deflated),
            WriterState::Bzip2(..) => Some(CompressionMethod::Bzip2),
            WriterState::Zstd(..) => Some(CompressionMethod::Zstd),
            WriterState::Lzma(..) => Some(CompressionMethod::Lzma),
            WriterState::Xz(..) => Some(CompressionMethod::Xz),
        }
    }

    /// The bytes the sink holds (empty once closed).
    pub closed spec fn sink(&self) -> Seq<u8> {
        match state_sink(self.state) {
            Some(w) => w.bytes(),
            None => Seq::empty(),
        }
    }

    /// Whether the sink encrypts.
    pub closed spec fn encrypted(&self) -> bool {
        match state_sink(self.state) {
            Some(w) => w.is_encrypted(),
            None => false,
        }
    }

    /// The level the active encoder was set up with (zero when storing or
    /// closed).
    pub closed spec fn level(&self) -> int {
        match self.state {
            WriterState::Deflater(e, _) => deflate_fed(e).0 as int,
            WriterState::Bzip2(e, _) => bzip2_fed(e).0 as int,
            WriterState::Zstd(e, _) => zstd_fed(e).0 as int,
            WriterState::Lzma(e, _) => lzma_fed(e).0 as int,
            WriterState::Xz(e, _) => xz_fed(e).0 as int,
            _ => 0,
        }
    }

    /// The chunks written to the active encoder and not yet finished (none
    /// when storing or closed).
    pub closed spec fn fed(&self) -> Seq<Seq<u8>> {
        match self.state {
            WriterState::Deflater(e, _) => deflate_fed(e).1,
            WriterState::Bzip2(e, _) => bzip2_fed(e).1,
            WriterState::Zstd(e, _) => zstd_fed(e).1,
            WriterState::Lzma(e, _) => lzma_fed(e).1,
            WriterState::Xz(e, _) => xz_fed(e).1,
            _ => Seq::empty(),
        }
    }

    /// Whether writing `data` through the active encoder succeeds: always
    /// when storing, never once closed, else as the backend's write does.
    pub closed spec fn write_ok(&self, data: Seq<u8>) -> bool {
        match self.state {
            WriterState::Closed => false,
            WriterState::Storer(_) => true,
            WriterState::Deflater(e, _) => deflate_write_ok(deflate_fed(e), data),
            WriterState::Bzip2(e, _) => bzip2_write_ok(bzip2_fed(e), data),
            WriterState::Zstd(e, _) => zstd_write_ok(zstd_fed(e), data),
            WriterState::Lzma(e, _) => lzma_write_ok(lzma_fed(e), data),
            WriterState::Xz(e, _) => xz_write_ok(xz_fed(e), data),
        }
    }

    /// What finishing the active encoder adds to the sink: nothing when
    /// storing, else the backend's finished stream of what it was fed;
    /// `None` where finishing fails or the writer is closed.
    pub closed spec fn finished_output(&self) -> Option<Seq<u8>> {
        state_output(self.state)
    }

    /// Whether the writer has reached its terminal state.
    pub open spec fn closed(&self) -> bool {
        self.current() is None
    }

    /// A writer that stores bytes as they are into `sink`.
    pub fn new(sink: MaybeEncrypted) -> (r: GenericZipWriter)
        ensures
            r.current() == Some(CompressionMethod::Stored),
            r.sink() == sink.bytes(),
            r.encrypted() == sink.is_encrypted(),
            r.fed() == Seq::<Seq<u8>>::empty(),
            r.finished_output() == Some(Seq::<u8>::empty()),
    {
        GenericZipWriter { state: WriterState::Storer(sink) }
    }

    pub fn is_closed(&self) -> (r: bool)
        ensures
            r == self.closed(),
    {
        matches!(self.state, WriterState::Closed)
    }

    /// The active method, or `None` once closed.
    pub fn current_compression(&self) -> (r: Option<CompressionMethod>)
        ensures
            r == self.current(),
    {
        match self.state {
            WriterState::Closed => None,
            WriterState::Storer(_) => Some(CompressionMethod::Stored),
            WriterState::Deflater(..) => Some(CompressionMethod::Deflated),
            WriterState::Bzip2(..) => Some(CompressionMethod::Bzip2),
            WriterState::Zstd(..) => Some(CompressionMethod::Zstd),
            WriterState::Lzma(..) => Some(CompressionMethod::Lzma),
            WriterState::Xz(..) => Some(CompressionMethod::Xz),
        }
    }

    /// Writes all of `data` through the active encoder.
    pub fn write_all(&mut self, data: &[u8]) -> (r: Result<(), ZipError>)
        ensures
            old(self).closed() ==> (r matches Err(ZipError::Closed) && *final(self) == *old(self)),
            !old(self).closed() ==> {
                &&& (r is Ok) == old(self).write_ok(data@)
                &&& r matches Err(e) ==> e is Io
                &&& final(self).current() == old(self).current()
                &&& final(self).encrypted() == old(self).encrypted()
                &&& final(self).sink() == (if old(self).current() == Some(CompressionMethod::Stored) {
                    old(self).sink() + data@
                } else {
                    old(self).sink()
                })
                &&& r is Ok ==> final(self).level() == old(self).level()
                &&& old(self).current() == Some(CompressionMethod::Stored) ==> final(self).finished_output() == Some(Seq::<u8>::empty())
                &&& r is Ok ==> final(self).fed() == (if old(self).current() == Some(CompressionMethod::Stored) {
                    old(self).fed()
                } else {
                    old(self).fed().push(data@)
                })
            },
    {
        let res = match &mut self.state {
            WriterState::Closed => return Err(ZipError::Closed),
            WriterState::Storer(w) => {
                w.write_all(data);
                return Ok(());
            },
            WriterState::Deflater(e, _) => e.write_all(data),
            WriterState::Bzip2(e, _) => e.write_all(data),
            WriterState::Zstd(e, _) => e.write_all(data),
            WriterState::Lzma(e, _) => e.write_all(data),
            WriterState::Xz(e, _) => e.write_all(data),
        };
        match res {
            Ok(()) => Ok(()),
            Err(e) => Err(ZipError::Io(e)),
        }
    }

    /// Makes `compression` the active method, finishing the prior encoder
    /// first. A switch to the active method does nothing; its level is not
    /// compared.
    pub fn switch_to(&mut self, compression: CompressionMethod, compression_level: Option<i32>) -> (r: Result<(), ZipError>)
        ensures
            old(self).current() == Some(compression) ==> (r is Ok && *final(self) == *old(self)),
            old(self).closed() ==> (r matches Err(ZipError::Closed) && *final(self) == *old(self)),
            old(self).current() != Some(compression) && !old(self).closed() ==> {
                &&& r is Err ==> final(self).closed()
                &&& r matches Err(e) ==> e is Io || e is UnsupportedArchive
                &&& old(self).finished_output() is None ==> (r matches Err(ZipError::Io(_)))
                &&& old(self).finished_output() matches Some(out) ==> {
                    &&& switch_rejection(compression, compression_level) matches Some(u) ==> (r matches Err(
                        ZipError::UnsupportedArchive(v),
                    ) && v == u)
                    &&& switch_rejection(compression, compression_level) is None && !setup_ok(
                        compression,
                        compression_level,
                    ) ==> (r matches Err(ZipError::Io(_)))
                    &&& switch_rejection(compression, compression_level) is None && setup_ok(
                        compression,
                        compression_level,
                    ) ==> {
                        &&& r is Ok
                        &&& final(self).current() == Some(compression)
                        &&& final(self).sink() == old(self).sink() + out
                        &&& final(self).encrypted() == old(self).encrypted()
                        &&& final(self).fed() == Seq::<Seq<u8>>::empty()
                        &&& compression == CompressionMethod::Stored ==> final(self).finished_output() == Some(Seq::<u8>::empty())
                        &&& compression != CompressionMethod::Stored ==> final(self).level()
                            == effective_level(compression, compression_level)
                    }
                }
            },
    {
        match self.current_compression() {
            Some(method) => {
                if method == compression {
                    return Ok(());
                }
            },
            None => return Err(ZipError::Closed),
        }
        let mut prior = WriterState::Closed;
        core::mem::swap(&mut self.state, &mut prior);
        let bare = match finish_state(prior) {
            Ok(w) => w,
            Err(e) => return Err(e),
        };
        let level_error = ZipError::UnsupportedArchive(Unsupported::CompressionLevel);
        let next = match compression {
            CompressionMethod::Stored => {
                if compression_level.is_some() {
                    return Err(level_error);
                }
                WriterState::Storer(bare)
            },
            CompressionMethod::Deflated => {
                let level = match compression_level {
                    Some(l) => l,
                    None => deflate_default_level() as i32,
                };
                let (lo, hi) = deflate_compression_level_range();
                match clamp_opt(level, lo, hi) {
                    Some(l) => WriterState::Deflater(DeflateStream::new(l as u32), bare),
                    None => return Err(level_error),
                }
            },
            CompressionMethod::Deflate64 => {
                return Err(ZipError::UnsupportedArchive(Unsupported::Deflate64Writing));
            },
            CompressionMethod::Bzip2 => {
                let level = match compression_level {
                    Some(l) => l,
                    None => bzip2_default_level() as i32,
                };
                let (lo, hi) = bzip2_compression_level_range();
                match clamp_opt(level, lo, hi) {
                    Some(l) => WriterState::Bzip2(Bzip2Stream::new(l as u32), bare),
                    None => return Err(level_error),
                }
            },
            CompressionMethod::Aes => {
                return Err(ZipError::UnsupportedArchive(Unsupported::AesWriting));
            },
            CompressionMethod::Zstd => {
                let level = match compression_level {
                    Some(l) => l,
                    None => zstd_default_level(),
                };
                let (lo, hi) = zstd_level_bounds();
                match clamp_opt(level, lo, hi) {
                    Some(l) => match ZstdStream::new(l) {
                        Ok(e) => WriterState::Zstd(e, bare),
                        Err(e) => return Err(ZipError::Io(e)),
                    },
                    None => return Err(level_error),
                }
            },
            CompressionMethod::Lzma => {
                let level = match compression_level {
                    Some(l) => l,
                    None => 6,
                };
                match clamp_opt(level, 0, 9) {
                    Some(l) => match LzmaStream::new(l as u32) {
                        Ok(e) => WriterState::Lzma(e, bare),
                        Err(e) => return Err(ZipError::Io(e)),
                    },
                    None => return Err(level_error),
                }
            },
            CompressionMethod::Xz => {
                let level = match compression_level {
                    Some(l) => l,
                    None => 6,
                };
                match clamp_opt(level, 0, 9) {
                    Some(l) => match XzStream::new(l as u32) {
                        Ok(e) => WriterState::Xz(e, bare),
                        Err(e) => return Err(ZipError::Io(e)),
                    },
                    None => return Err(level_error),
                }
            },
            CompressionMethod::Unsupported(_) => {
                return Err(ZipError::UnsupportedArchive(Unsupported::Method));
            },
        };
        self.state = next;
        Ok(())
    }

    /// Finishes the active encoder, closes the writer and returns the sink.
    pub fn finish(&mut self) -> (r: Result<MaybeEncrypted, ZipError>)
        ensures
            final(self).closed(),
            old(self).closed() ==> (r matches Err(ZipError::Closed)),
            !old(self).closed() ==> {
                &&& (r is Ok) == old(self).finished_output() is Some
                &&& old(self).finished_output() matches Some(out) ==> (r matches Ok(w) && w.bytes()
                    == old(self).sink() + out && w.is_encrypted() == old(self).encrypted())
                &&& r matches Err(e) ==> e is Io
            },
    {
        if self.is_closed() {
            return Err(ZipError::Closed);
        }
        let mut prior = WriterState::Closed;
        core::mem::swap(&mut self.state, &mut prior);
        finish_state(prior)
    }

    /// Whether the bare sink can be had: the stored method over an
    /// unencrypted sink.
    pub fn is_plain(&self) -> (r: bool)
        ensures
            r == (self.current() == Some(CompressionMethod::Stored) && !self.encrypted()),
    {
        matches!(self.state, WriterState::Storer(MaybeEncrypted::Unencrypted(_)))
    }

    /// The bare sink. The caller must have switched back to the stored method
    /// over an unencrypted sink.
    pub fn get_plain(&mut self) -> (r: &mut Vec<u8>)
        requires
            old(self).current() == Some(CompressionMethod::Stored),
            !old(self).encrypted(),
        ensures
            r@ == old(self).sink(),
            final(self).sink() == final(r)@,
            final(self).current() == old(self).current(),
            final(self).encrypted() == old(self).encrypted(),
            final(self).fed() == old(self).fed(),
    {
        match &mut self.state {
            WriterState::Storer(MaybeEncrypted::Unencrypted(w)) => w,
            _ => {
                assert(false);
                unreached()
            },
        }
    }

    /// Unwraps the bare sink. The caller must have switched back to the
    /// stored method over an unencrypted sink.
    pub fn unwrap(self) -> (r: Vec<u8>)
        requires
            self.current() == Some(CompressionMethod::Stored),
            !self.encrypted(),
        ensures
            r@ == self.sink(),
    {
        match self.state {
            WriterState::Storer(MaybeEncrypted::Unencrypted(w)) => w,
            _ => {
                assert(false);
                unreached()
            },
        }
    }
}

} // verus!
