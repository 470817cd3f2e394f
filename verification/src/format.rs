//! The container codec: `MAGIC || SALT || NONCE || SEALED`, with no length
//! prefix, since the first three are of fixed width.

use crate::cipher::NONCE_LEN;
use crate::error::FormatError;
use crate::kdf::SALT_LEN;
use vstd::prelude::*;
use vstd::slice::slice_subrange;

verus! {

/// Marker that opens every container of format version 1: the bytes of `ZV1!`.
pub const MAGIC: [u8; 4] = [0x5A, 0x56, 0x31, 0x21];

/// Length of the magic marker in bytes.
pub const MAGIC_LEN: usize = 4;

/// Length of everything that precedes the sealed ciphertext: the marker,
/// the salt and the nonce.
pub const HEADER_LEN: usize = 32;

/// The fields that a container carries besides its marker.
pub struct Parts {
    pub salt: Seq<u8>,
    pub nonce: Seq<u8>,
    pub sealed: Seq<u8>,
}

/// The bytes of the container that holds `salt`, `nonce` and `sealed`.
pub open spec fn container_bytes(salt: Seq<u8>, nonce: Seq<u8>, sealed: Seq<u8>) -> Seq<u8> {
    MAGIC@ + salt + nonce + sealed
}

/// What decoding makes of `data`: the length is checked first, then the marker,
/// and whatever follows the header is the sealed ciphertext, of any length.
pub open spec fn decode_spec(data: Seq<u8>) -> Result<Parts, FormatError> {
    if data.len() < HEADER_LEN {
        Err(FormatError::TooShort)
    } else if data.subrange(0, MAGIC_LEN as int) != MAGIC@ {
        Err(FormatError::MagicMismatch)
    } else {
        Ok(
            Parts {
                salt: data.subrange(MAGIC_LEN as int, MAGIC_LEN + SALT_LEN),
                nonce: data.subrange(MAGIC_LEN + SALT_LEN, HEADER_LEN as int),
                sealed: data.subrange(HEADER_LEN as int, data.len() as int),
            },
        )
    }
}

/// A decoded container. The salt and the nonce are copied out of the input;
/// the sealed ciphertext is borrowed from it.
pub struct Container<'a> {
    pub salt: [u8; SALT_LEN],
    pub nonce: [u8; NONCE_LEN],
    pub sealed: &'a [u8],
}

impl<'a> View for Container<'a> {
    type V = Parts;

    open spec fn view(&self) -> Parts {
        Parts { salt: self.salt@, nonce: self.nonce@, sealed: self.sealed@ }
    }
}

/// Copies the `N` bytes of `data` that start at `start`.
fn take_array<const N: usize>(data: &[u8], start: usize) -> (out: [u8; N])
    requires
        start + N <= data@.len(),
    ensures
        out@ == data@.subrange(start as int, start + N),
{
    let mut out = [0u8; N];
    let mut i: usize = 0;
    while i < N
        invariant
            i <= N,
            start + N <= data.len(),
            forall|j: int| 0 <= j < i ==> out@[j] == data@[start + j],
        decreases N - i,
    {
        out[i] = data[start + i];
        i += 1;
    }
    out
}

/// Whether `data` opens with `MAGIC`.
fn has_magic(data: &[u8]) -> (b: bool)
    requires
        data@.len() >= MAGIC_LEN,
    ensures
        b == (data@.subrange(0, MAGIC_LEN as int) == MAGIC@),
{
    let b = data[0] == MAGIC[0] && data[1] == MAGIC[1] && data[2] == MAGIC[2] && data[3]
        == MAGIC[3];
    proof {
        let head = data@.subrange(0, MAGIC_LEN as int);
        assert(b ==> head =~= MAGIC@);
        assert(!b ==> head[0] != MAGIC@[0] || head[1] != MAGIC@[1] || head[2] != MAGIC@[2]
            || head[3] != MAGIC@[3]);
    }
    b
}

/// Serialises a container: the marker, then `salt`, `nonce` and `sealed` in
/// that order, with no length prefix.
pub fn encode_container(
    salt: &[u8; SALT_LEN],
    nonce: &[u8; NONCE_LEN],
    sealed: &[u8],
) -> (out: Vec<u8>)
    ensures
        out@ == container_bytes(salt@, nonce@, sealed@),
{
    let mut out: Vec<u8> = Vec::new();
    out.extend_from_slice(&MAGIC);
    out.extend_from_slice(salt);
    out.extend_from_slice(nonce);
    out.extend_from_slice(sealed);
    out
}

/// Parses a container. Input shorter than the header is `TooShort`; input
/// whose first four bytes differ from `MAGIC` is `MagicMismatch`; anything
/// else decodes, whatever the length of the sealed part.
pub fn decode_container<'a>(data: &'a [u8]) -> (r: Result<Container<'a>, FormatError>)
    ensures
        match r {
            Ok(c) => decode_spec(data@) == Ok::<Parts, FormatError>(c@),
            Err(e) => decode_spec(data@) == Err::<Parts, FormatError>(e),
        },
{
    if data.len() < HEADER_LEN {
        return Err(FormatError::TooShort);
    }
    if !has_magic(data) {
        return Err(FormatError::MagicMismatch);
    }
    let salt: [u8; SALT_LEN] = take_array(data, MAGIC_LEN);
    let nonce: [u8; NONCE_LEN] = take_array(data, MAGIC_LEN + SALT_LEN);
    let sealed = slice_subrange(data, HEADER_LEN, data.len());
    Ok(Container { salt, nonce, sealed })
}

/// The parts of a container after the byte at offset `i` of the container,
/// which lies behind the marker, is replaced by `byte`.
pub open spec fn parts_with_byte(parts: Parts, i: int, byte: u8) -> Parts {
    if i < MAGIC_LEN + SALT_LEN {
        Parts { salt: parts.salt.update(i - MAGIC_LEN, byte), ..parts }
    } else if i < HEADER_LEN {
        Parts { nonce: parts.nonce.update(i - MAGIC_LEN - SALT_LEN, byte), ..parts }
    } else {
        Parts { sealed: parts.sealed.update(i - HEADER_LEN, byte), ..parts }
    }
}

/// Decoding inverts encoding: a container made of a 16-byte salt, a 12-byte
/// nonce and any sealed bytes, the empty ones included, decodes to exactly
/// those three.
pub proof fn lemma_decode_of_container(salt: Seq<u8>, nonce: Seq<u8>, sealed: Seq<u8>)
    requires
        salt.len() == SALT_LEN,
        nonce.len() == NONCE_LEN,
    ensures
        decode_spec(container_bytes(salt, nonce, sealed)) == Ok::<Parts, FormatError>(
            Parts { salt, nonce, sealed },
        ),
{
    let data = container_bytes(salt, nonce, sealed);
    assert(data.subrange(0, MAGIC_LEN as int) =~= MAGIC@);
    assert(data.subrange(MAGIC_LEN as int, MAGIC_LEN + SALT_LEN) =~= salt);
    assert(data.subrange(MAGIC_LEN + SALT_LEN, HEADER_LEN as int) =~= nonce);
    assert(data.subrange(HEADER_LEN as int, data.len() as int) =~= sealed);
}

/// Encoding inverts decoding: what decodes is the container of its own
/// parts, which are a 16-byte salt, a 12-byte nonce and the rest of the input.
pub proof fn lemma_container_of_decode(data: Seq<u8>)
    requires
        decode_spec(data) is Ok,
    ensures
        ({
            let parts = decode_spec(data)->Ok_0;
            &&& container_bytes(parts.salt, parts.nonce, parts.sealed) == data
            &&& parts.salt.len() == SALT_LEN
            &&& parts.nonce.len() == NONCE_LEN
            &&& parts.sealed.len() + HEADER_LEN == data.len()
        }),
{
    let parts = decode_spec(data)->Ok_0;
    assert(container_bytes(parts.salt, parts.nonce, parts.sealed) =~= data);
}

/// Two containers are the same bytes only if they hold the same salt, the
/// same nonce and the same sealed ciphertext.
pub proof fn lemma_container_injective(
    salt1: Seq<u8>,
    nonce1: Seq<u8>,
    sealed1: Seq<u8>,
    salt2: Seq<u8>,
    nonce2: Seq<u8>,
    sealed2: Seq<u8>,
)
    requires
        salt1.len() == SALT_LEN,
        salt2.len() == SALT_LEN,
        nonce1.len() == NONCE_LEN,
        nonce2.len() == NONCE_LEN,
        container_bytes(salt1, nonce1, sealed1) == container_bytes(salt2, nonce2, sealed2),
    ensures
        salt1 == salt2,
        nonce1 == nonce2,
        sealed1 == sealed2,
{
    lemma_decode_of_container(salt1, nonce1, sealed1);
    lemma_decode_of_container(salt2, nonce2, sealed2);
}

/// Input of at least 32 bytes with any byte of a valid marker changed is
/// rejected as `MagicMismatch`.
pub proof fn lemma_altered_magic_rejected(data: Seq<u8>, i: int, byte: u8)
    requires
        decode_spec(data) is Ok,
        0 <= i < MAGIC_LEN,
        byte != data[i],
    ensures
        decode_spec(data.update(i, byte)) == Err::<Parts, FormatError>(FormatError::MagicMismatch),
{
    let altered = data.update(i, byte);
    assert(altered.subrange(0, MAGIC_LEN as int)[i] == byte);
    assert(data.subrange(0, MAGIC_LEN as int)[i] == data[i]);
}

/// A container with any byte behind the marker replaced still decodes: the
/// change shows in the salt, the nonce or the sealed ciphertext, and in
/// nothing else.
pub proof fn lemma_altered_body_decodes(data: Seq<u8>, i: int, byte: u8)
    requires
        decode_spec(data) is Ok,
        MAGIC_LEN <= i < data.len(),
    ensures
        decode_spec(data.update(i, byte)) == Ok::<Parts, FormatError>(
            parts_with_byte(decode_spec(data)->Ok_0, i, byte),
        ),
{
    let altered = data.update(i, byte);
    let parts = decode_spec(data)->Ok_0;
    let expected = parts_with_byte(parts, i, byte);
    assert(altered.subrange(0, MAGIC_LEN as int) =~= data.subrange(0, MAGIC_LEN as int));
    assert(altered.subrange(MAGIC_LEN as int, MAGIC_LEN + SALT_LEN) =~= expected.salt);
    assert(altered.subrange(MAGIC_LEN + SALT_LEN, HEADER_LEN as int) =~= expected.nonce);
    assert(altered.subrange(HEADER_LEN as int, altered.len() as int) =~= expected.sealed);
}

} // verus!
