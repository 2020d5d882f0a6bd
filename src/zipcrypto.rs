//! Keys of the traditional PKWARE stream cipher, and the sink that collects
//! the bytes that cipher will cover.

use vstd::prelude::*;

verus! {

/// The reflected CRC-32 polynomial.
pub const CRC32_POLY: u32 = 0xEDB8_8320;

/// One bit step of the reflected CRC-32 register.
pub open spec fn crc_bit(c: u32) -> u32 {
    if c & 1 == 1 {
        (c >> 1) ^ CRC32_POLY
    } else {
        c >> 1
    }
}

/// `n` bit steps of the CRC-32 register.
pub open spec fn crc_bits(c: u32, n: nat) -> u32
    decreases n,
{
    if n == 0 {
        c
    } else {
        crc_bits(crc_bit(c), (n - 1) as nat)
    }
}

/// The CRC-32 register after one more byte.
pub open spec fn crc32_byte(crc: u32, b: u8) -> u32 {
    crc_bits(crc ^ (b as u32), 8)
}

/// The three keys after one byte of plaintext.
pub open spec fn key_step(k: (u32, u32, u32), b: u8) -> (u32, u32, u32) {
    let k0 = crc32_byte(k.0, b);
    let k1 = ((((k.1 as nat + (k0 & 0xff) as nat) % 0x1_0000_0000) * 0x0808_8405 + 1)
        % 0x1_0000_0000) as u32;
    let k2 = crc32_byte(k.2, (k1 >> 24) as u8);
    (k0, k1, k2)
}

/// The keys that a password sets up, fed byte by byte into the initial keys.
pub open spec fn derived_keys(password: Seq<u8>) -> (u32, u32, u32)
    decreases password.len(),
{
    if password.len() == 0 {
        (0x1234_5678u32, 0x2345_6789u32, 0x3456_7890u32)
    } else {
        key_step(derived_keys(password.drop_last()), password.last())
    }
}

fn crc32_update(crc: u32, b: u8) -> (r: u32)
    ensures
        r == crc32_byte(crc, b),
{
    let mut c: u32 = crc ^ (b as u32);
    let mut i: u32 = 0;
    while i < 8
        invariant
            i <= 8,
            crc_bits(c, (8 - i) as nat) == crc32_byte(crc, b),
        decreases 8 - i,
    {
        let next: u32 = if c & 1 == 1 {
            (c >> 1) ^ CRC32_POLY
        } else {
            c >> 1
        };
        assert(next == crc_bit(c));
        assert(crc_bits(c, (8 - i) as nat) == crc_bits(next, (8 - i - 1) as nat));
        c = next;
        i = i + 1;
    }
    c
}

/// The running keys of the traditional PKWARE cipher.
#[derive(Copy, Clone, PartialEq, Eq, Structural, Debug)]
pub struct ZipCryptoKeys {
    pub key_0: u32,
    pub key_1: u32,
    pub key_2: u32,
}

impl ZipCryptoKeys {
    pub open spec fn view(&self) -> (u32, u32, u32) {
        (self.key_0, self.key_1, self.key_2)
    }

    /// Feeds one byte of plaintext into the keys.
    pub fn update(&mut self, b: u8)
        ensures
            final(self).view() == key_step(old(self).view(), b),
    {
        self.key_0 = crc32_update(self.key_0, b);
        let low: u32 = self.key_0 & 0xff;
        let k1_in: u32 = self.key_1;
        let k1: u32 = k1_in.wrapping_add(low).wrapping_mul(0x0808_8405).wrapping_add(1);
        assert(k1 == ((((k1_in as nat + low as nat) % 0x1_0000_0000) * 0x0808_8405 + 1)
            % 0x1_0000_0000) as u32) by (nonlinear_arith)
            requires
                k1 == vstd::wrapping::u32_specs::wrapping_add(
                    vstd::wrapping::u32_specs::wrapping_mul(
                        vstd::wrapping::u32_specs::wrapping_add(k1_in, low),
                        0x0808_8405,
                    ),
                    1,
                ),
        ;
        self.key_1 = k1;
        self.key_2 = crc32_update(self.key_2, (k1 >> 24) as u8);
    }

    /// The keys derived from a password.
    pub fn derive(password: &[u8]) -> (r: ZipCryptoKeys)
        ensures
            r.view() == derived_keys(password@),
    {
        let mut keys = ZipCryptoKeys { key_0: 0x1234_5678, key_1: 0x2345_6789, key_2: 0x3456_7890 };
        let mut i: usize = 0;
        while i < password.len()
            invariant
                i <= password@.len(),
                keys.view() == derived_keys(password@.subrange(0, i as int)),
            decreases password@.len() - i,
        {
            assert(password@.subrange(0, i as int + 1).drop_last() =~= password@.subrange(0, i as int));
            keys.update(password[i]);
            i = i + 1;
        }
        assert(password@.subrange(0, password@.len() as int) =~= password@);
        keys
    }
}

/// A sink that collects the bytes of an encrypted entry. The cipher runs over
/// them when the entry is complete, as it needs the entry's checksum first.
pub struct ZipCryptoWriter {
    /// The sink the encrypted bytes finally go to.
    pub writer: Vec<u8>,
    /// The plaintext collected so far.
    pub buffer: Vec<u8>,
    /// The keys the entry is encrypted with.
    pub keys: ZipCryptoKeys,
}

/// An output sink, encrypting or not.
pub enum MaybeEncrypted {
    Unencrypted(Vec<u8>),
    Encrypted(ZipCryptoWriter),
}

impl MaybeEncrypted {
    /// The bytes written into this sink so far.
    pub open spec fn bytes(&self) -> Seq<u8> {
        match self {
            MaybeEncrypted::Unencrypted(w) => w@,
            MaybeEncrypted::Encrypted(c) => c.buffer@,
        }
    }

    pub open spec fn is_encrypted(&self) -> bool {
        self is Encrypted
    }

    /// Appends bytes to the sink.
    pub fn write_all(&mut self, data: &[u8])
        ensures
            final(self).bytes() == old(self).bytes() + data@,
            final(self).is_encrypted() == old(self).is_encrypted(),
            *old(self) matches MaybeEncrypted::Encrypted(c) ==> *final(self) matches MaybeEncrypted::Encrypted(d)
                && d.writer@ == c.writer@ && d.keys == c.keys,
    {
        match self {
            MaybeEncrypted::Unencrypted(w) => append_bytes(w, data),
            MaybeEncrypted::Encrypted(c) => append_bytes(&mut c.buffer, data),
        }
    }
}

/// Appends a slice to a byte vector.
pub fn append_bytes(v: &mut Vec<u8>, data: &[u8])
    ensures
        final(v)@ == old(v)@ + data@,
{
    let mut i: usize = 0;
    while i < data.len()
        invariant
            i <= data@.len(),
            v@ == old(v)@ + data@.subrange(0, i as int),
        decreases data@.len() - i,
    {
        v.push(data[i]);
        i = i + 1;
        assert(v@ =~= old(v)@ + data@.subrange(0, i as int));
    }
    assert(data@.subrange(0, data@.len() as int) =~= data@);
}

} // verus!
