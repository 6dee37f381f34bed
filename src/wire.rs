use parity_scale_codec::{DecodeAll, Encode};
use vstd::prelude::*;

use crate::ids::{STORE_KEY_EXT_ID, VERIFY_EXT_ID};

verus! {

/// One call across the module/host boundary: the operation selector and
/// the SCALE-encoded arguments.
pub struct CallRequest {
    pub op: u32,
    pub input: Vec<u8>,
}

/// The host's answer to one call: a status code and an output buffer.
pub struct CallResponse {
    pub status: u32,
    pub output: Vec<u8>,
}

/// An argument buffer that is not the SCALE encoding of the operation's
/// arguments: it ends early, a length is not in its shortest compact form
/// or does not fit in 32 bits, or bytes remain after the last field.
#[derive(Debug, Clone, Copy, PartialEq, Eq, Structural)]
pub struct DecodeError {}

/// The arguments of "register key".
pub struct StoreKeyArgs {
    pub caller: [u8; 32],
    pub id: [u8; 8],
    pub key: Vec<u8>,
}

/// The arguments of "verify proof".
pub struct VerifyArgs {
    pub id: [u8; 8],
    pub proof: Vec<u8>,
    pub public_input: Vec<u8>,
}

/// The two little-endian bytes of a number below 2^16.
pub open spec fn le16_bytes(n: nat) -> Seq<u8> {
    seq![(n % 256) as u8, ((n / 256) % 256) as u8]
}

/// The number that two little-endian bytes stand for.
pub open spec fn le16_value(b: Seq<u8>) -> nat {
    (b[0] as int + 256 * (b[1] as int)) as nat
}

/// The four little-endian bytes of a number below 2^32.
pub open spec fn le32_bytes(n: nat) -> Seq<u8> {
    seq![
        (n % 256) as u8,
        ((n / 256) % 256) as u8,
        ((n / 256 / 256) % 256) as u8,
        ((n / 256 / 256 / 256) % 256) as u8,
    ]
}

/// The number that four little-endian bytes stand for.
pub open spec fn le32_value(b: Seq<u8>) -> nat {
    (b[0] as int + 256 * (b[1] as int + 256 * (b[2] as int + 256 * (b[3] as int)))) as nat
}

/// SCALE's compact form of a length below 2^32: the two low bits of the
/// first byte give the width (one, two or four bytes holding the length
/// times four plus the width mark), and lengths from 2^30 on are the byte 3
/// followed by the length in four bytes.
pub open spec fn compact_len(n: nat) -> Seq<u8> {
    if n < 64 {
        seq![(4 * n) as u8]
    } else if n < 16384 {
        le16_bytes(4 * n + 1)
    } else if n < 1073741824 {
        le32_bytes(4 * n + 2)
    } else {
        seq![3u8] + le32_bytes(n)
    }
}

/// A variable-length field on the wire, as SCALE writes a byte vector: its
/// compact length, then its bytes.
pub open spec fn material(m: Seq<u8>) -> Seq<u8> {
    compact_len(m.len()) + m
}

/// The argument buffer of "register key": caller, key identifier, key.
pub open spec fn store_key_input(caller: Seq<u8>, id: Seq<u8>, key: Seq<u8>) -> Seq<u8> {
    caller + id + material(key)
}

/// The argument buffer of "verify proof": key identifier, proof, public input.
pub open spec fn verify_input(id: Seq<u8>, proof: Seq<u8>, public_input: Seq<u8>) -> Seq<u8> {
    id + material(proof) + material(public_input)
}

/// The compact length that starts at `pos`, and the position after it.
/// Only the shortest form of a length is accepted.
pub open spec fn compact_at(b: Seq<u8>, pos: int) -> Option<(nat, int)> {
    if pos + 1 > b.len() {
        None
    } else if b[pos] % 4 == 0 {
        Some((((b[pos] as int) / 4) as nat, pos + 1))
    } else if b[pos] % 4 == 1 {
        if pos + 2 > b.len() {
            None
        } else {
            let n = le16_value(b.subrange(pos, pos + 2)) / 4;
            if n < 64 {
                None
            } else {
                Some((n, pos + 2))
            }
        }
    } else if b[pos] % 4 == 2 {
        if pos + 4 > b.len() {
            None
        } else {
            let n = le32_value(b.subrange(pos, pos + 4)) / 4;
            if n < 16384 {
                None
            } else {
                Some((n, pos + 4))
            }
        }
    } else if b[pos] != 3 {
        None
    } else if pos + 5 > b.len() {
        None
    } else {
        let n = le32_value(b.subrange(pos + 1, pos + 5));
        if n < 1073741824 {
            None
        } else {
            Some((n, pos + 5))
        }
    }
}

/// The variable-length field that starts at `pos`, and the position after it.
pub open spec fn material_at(b: Seq<u8>, pos: int) -> Option<(Seq<u8>, int)> {
    match compact_at(b, pos) {
        None => None,
        Some((n, start)) => if start + n > b.len() {
            None
        } else {
            Some((b.subrange(start, start + n), start + n))
        },
    }
}

/// What the receiving side reads from a "register key" buffer.
pub open spec fn parse_store_key(b: Seq<u8>) -> Option<(Seq<u8>, Seq<u8>, Seq<u8>)> {
    if b.len() < 40 {
        None
    } else {
        match material_at(b, 40) {
            None => None,
            Some((key, end)) => if end < b.len() {
                None
            } else {
                Some((b.subrange(0, 32), b.subrange(32, 40), key))
            },
        }
    }
}

/// What the receiving side reads from a "verify proof" buffer.
pub open spec fn parse_verify(b: Seq<u8>) -> Option<(Seq<u8>, Seq<u8>, Seq<u8>)> {
    if b.len() < 8 {
        None
    } else {
        match material_at(b, 8) {
            None => None,
            Some((proof, next)) => match material_at(b, next) {
                None => None,
                Some((public_input, end)) => if end < b.len() {
                    None
                } else {
                    Some((b.subrange(0, 8), proof, public_input))
                },
            },
        }
    }
}

proof fn lemma_le16_round_trip(n: nat)
    requires
        n < 65536,
    ensures
        le16_bytes(n).len() == 2,
        le16_value(le16_bytes(n)) == n,
        le16_bytes(n)[0] % 4 == n % 4,
{
    assert(n == 256 * (n / 256) + n % 256);
}

proof fn lemma_le16_bytes_of_value(b: Seq<u8>)
    requires
        b.len() == 2,
    ensures
        le16_value(b) < 65536,
        le16_bytes(le16_value(b)) == b,
        le16_value(b) % 4 == b[0] % 4,
{
    let v = le16_value(b);
    assert(v % 256 == b[0] as int && v / 256 == b[1] as int);
    assert(le16_bytes(v) =~= b);
}

proof fn lemma_le32_round_trip(n: nat)
    requires
        n <= u32::MAX,
    ensures
        le32_bytes(n).len() == 4,
        le32_value(le32_bytes(n)) == n,
        le32_bytes(n)[0] % 4 == n % 4,
{
    let b = le32_bytes(n);
    let q1 = n / 256;
    let q2 = q1 / 256;
    let q3 = q2 / 256;
    assert(n == 256 * q1 + n % 256);
    assert(q1 == 256 * q2 + q1 % 256);
    assert(q2 == 256 * q3 + q2 % 256);
    assert(q3 < 256);
    assert(b[3] == q3);
}

proof fn lemma_le32_bytes_of_value(b: Seq<u8>)
    requires
        b.len() == 4,
    ensures
        le32_value(b) <= u32::MAX,
        le32_bytes(le32_value(b)) == b,
        le32_value(b) % 4 == b[0] % 4,
{
    let v = le32_value(b);
    let q1 = b[1] as int + 256 * (b[2] as int + 256 * (b[3] as int));
    let q2 = b[2] as int + 256 * (b[3] as int);
    assert(v == b[0] as int + 256 * q1);
    assert(v % 256 == b[0] as int && v / 256 == q1);
    assert(q1 % 256 == b[1] as int && q1 / 256 == q2);
    assert(q2 % 256 == b[2] as int && q2 / 256 == b[3] as int);
    assert(le32_bytes(v) =~= b);
}

/// A compact length is read back as the length it was written from.
pub proof fn lemma_compact_read(b: Seq<u8>, pos: int, n: nat)
    requires
        0 <= pos,
        n <= u32::MAX,
        pos + compact_len(n).len() <= b.len(),
        b.subrange(pos, pos + compact_len(n).len()) == compact_len(n),
    ensures
        compact_at(b, pos) == Some((n, pos + compact_len(n).len())),
{
    let c = compact_len(n);
    assert(b[pos] == c[0]);
    if n < 64 {
    } else if n < 16384 {
        lemma_le16_round_trip(4 * n + 1);
        assert(b.subrange(pos, pos + 2) == c);
    } else if n < 1073741824 {
        lemma_le32_round_trip(4 * n + 2);
        assert(b.subrange(pos, pos + 4) == c);
    } else {
        lemma_le32_round_trip(n);
        let w = b.subrange(pos, pos + 5);
        assert forall|i: int| 0 <= i < 4 implies b.subrange(pos + 1, pos + 5)[i] == le32_bytes(n)[i] by {
            assert(b.subrange(pos + 1, pos + 5)[i] == w[i + 1]);
        }
        assert(b.subrange(pos + 1, pos + 5) =~= le32_bytes(n));
    }
}

/// A compact length that is read back is below 2^32 and stands on the wire
/// in exactly the form that `compact_len` writes.
pub proof fn lemma_compact_canonical(b: Seq<u8>, pos: int)
    requires
        0 <= pos,
        compact_at(b, pos) is Some,
    ensures
        ({
            let (n, end) = compact_at(b, pos)->Some_0;
            &&& n <= u32::MAX
            &&& end == pos + compact_len(n).len()
            &&& b.subrange(pos, end) == compact_len(n)
        }),
{
    let (n, end) = compact_at(b, pos)->Some_0;
    if b[pos] % 4 == 0 {
        assert(b.subrange(pos, end) =~= compact_len(n));
    } else if b[pos] % 4 == 1 {
        let s = b.subrange(pos, pos + 2);
        lemma_le16_bytes_of_value(s);
        assert(4 * n + 1 == le16_value(s));
    } else if b[pos] % 4 == 2 {
        let s = b.subrange(pos, pos + 4);
        lemma_le32_bytes_of_value(s);
        assert(4 * n + 2 == le32_value(s));
    } else {
        let s = b.subrange(pos + 1, pos + 5);
        lemma_le32_bytes_of_value(s);
        assert(b.subrange(pos, end) =~= seq![3u8] + s);
    }
}

/// A variable-length field is read back as the bytes it was written from.
pub proof fn lemma_material_read(b: Seq<u8>, pos: int, m: Seq<u8>)
    requires
        0 <= pos,
        m.len() <= u32::MAX,
        pos + material(m).len() <= b.len(),
        b.subrange(pos, pos + material(m).len()) == material(m),
    ensures
        material_at(b, pos) == Some((m, pos + material(m).len())),
{
    let c = compact_len(m.len());
    let start = pos + c.len();
    assert(material(m).subrange(0, c.len() as int) =~= c);
    assert(material(m).subrange(c.len() as int, material(m).len() as int) =~= m);
    assert(b.subrange(pos, start) =~= b.subrange(pos, pos + material(m).len() as int).subrange(0, c.len() as int));
    lemma_compact_read(b, pos, m.len());
    assert(b.subrange(start, start + m.len() as int) =~= b.subrange(pos, pos + material(m).len() as int).subrange(c.len() as int, material(m).len() as int));
}

/// Reading back a "register key" buffer gives the caller, the key identifier
/// and the key it was written from, for every key whose length fits in 32
/// bits (the empty key included); SCALE writes no longer vector.
pub proof fn lemma_store_key_round_trip(caller: Seq<u8>, id: Seq<u8>, key: Seq<u8>)
    requires
        caller.len() == 32,
        id.len() == 8,
        key.len() <= u32::MAX,
    ensures
        parse_store_key(store_key_input(caller, id, key)) == Some((caller, id, key)),
{
    let b = store_key_input(caller, id, key);
    assert(b.subrange(40, 40 + material(key).len() as int) =~= material(key));
    lemma_material_read(b, 40, key);
    assert(b.subrange(0, 32) =~= caller);
    assert(b.subrange(32, 40) =~= id);
}

/// Reading back a "verify proof" buffer gives the key identifier, the proof
/// and the public input it was written from, for all lengths that fit in 32
/// bits (empty ones included); SCALE writes no longer vector.
pub proof fn lemma_verify_round_trip(id: Seq<u8>, proof: Seq<u8>, public_input: Seq<u8>)
    requires
        id.len() == 8,
        proof.len() <= u32::MAX,
        public_input.len() <= u32::MAX,
    ensures
        parse_verify(verify_input(id, proof, public_input)) == Some(
            (id, proof, public_input),
        ),
{
    let b = verify_input(id, proof, public_input);
    let p = 8 + material(proof).len() as int;
    assert(b.subrange(8, p) =~= material(proof));
    lemma_material_read(b, 8, proof);
    assert(b.subrange(p, p + material(public_input).len() as int) =~= material(public_input));
    lemma_material_read(b, p, public_input);
    assert(b.subrange(0, 8) =~= id);
}

/// A "register key" buffer that is read back is exactly the encoding of
/// what was read from it.
pub proof fn lemma_store_key_parse_exact(b: Seq<u8>)
    requires
        parse_store_key(b) is Some,
    ensures
        ({
            let (caller, id, key) = parse_store_key(b)->Some_0;
            store_key_input(caller, id, key) == b
        }),
{
    let (caller, id, key) = parse_store_key(b)->Some_0;
    lemma_compact_canonical(b, 40);
    assert(store_key_input(caller, id, key) =~= b);
}

/// A "verify proof" buffer that is read back is exactly the encoding of
/// what was read from it.
pub proof fn lemma_verify_parse_exact(b: Seq<u8>)
    requires
        parse_verify(b) is Some,
    ensures
        ({
            let (id, proof, public_input) = parse_verify(b)->Some_0;
            verify_input(id, proof, public_input) == b
        }),
{
    let (id, proof, public_input) = parse_verify(b)->Some_0;
    let next = material_at(b, 8)->Some_0.1;
    lemma_compact_canonical(b, 8);
    lemma_compact_canonical(b, next);
    assert(verify_input(id, proof, public_input) =~= b);
}

#[verifier::external_type_specification]
#[verifier::external_body]
pub struct ExCodecError(parity_scale_codec::Error);

/// Relies on parity_scale_codec's `Encode` for a tuple of `&[u8; 32]`,
/// `&[u8; 8]` and `&Vec<u8>`: the fields in order, each array as its bytes,
/// the vector as its `Compact<u32>` length then its bytes. It panics on a
/// vector longer than `u32::MAX`.
#[verifier::external_body]
fn scale_encode_store_key(caller: &[u8; 32], id: &[u8; 8], key: &Vec<u8>) -> (r: Vec<u8>)
    requires
        key@.len() <= u32::MAX,
    ensures
        r@ == store_key_input(caller@, id@, key@),
{
    (caller, id, key).encode()
}

/// Relies on parity_scale_codec's `Encode` for a tuple of `&[u8; 8]`,
/// `&Vec<u8>` and `&Vec<u8>`, written as for `scale_encode_store_key`.
#[verifier::external_body]
fn scale_encode_verify(id: &[u8; 8], proof: &Vec<u8>, public_input: &Vec<u8>) -> (r: Vec<u8>)
    requires
        proof@.len() <= u32::MAX,
        public_input@.len() <= u32::MAX,
    ensures
        r@ == verify_input(id@, proof@, public_input@),
{
    (id, proof, public_input).encode()
}

/// Relies on parity_scale_codec's `DecodeAll` for `([u8; 32], [u8; 8],
/// Vec<u8>)`: arrays read their bytes, a vector reads a `Compact<u32>`
/// length (shortest form only) then that many bytes, and any byte left over
/// is an error.
#[verifier::external_body]
fn scale_decode_store_key(input: &Vec<u8>) -> (r: Result<
    ([u8; 32], [u8; 8], Vec<u8>),
    parity_scale_codec::Error,
>)
    ensures
        match r {
            Ok((caller, id, key)) => parse_store_key(input@) == Some((caller@, id@, key@)),
            Err(_) => parse_store_key(input@) is None,
        },
{
    <([u8; 32], [u8; 8], Vec<u8>)>::decode_all(&mut input.as_slice())
}

/// Relies on parity_scale_codec's `DecodeAll` for `([u8; 8], Vec<u8>,
/// Vec<u8>)`, read as for `scale_decode_store_key`.
#[verifier::external_body]
fn scale_decode_verify(input: &Vec<u8>) -> (r: Result<
    ([u8; 8], Vec<u8>, Vec<u8>),
    parity_scale_codec::Error,
>)
    ensures
        match r {
            Ok((id, proof, public_input)) => parse_verify(input@) == Some(
                (id@, proof@, public_input@),
            ),
            Err(_) => parse_verify(input@) is None,
        },
{
    <([u8; 8], Vec<u8>, Vec<u8>)>::decode_all(&mut input.as_slice())
}

/// Encodes a "register key" call: its arguments as SCALE encodes the tuple
/// (caller, key identifier, key).
pub fn encode_store_key(caller: &[u8; 32], id: &[u8; 8], key: &Vec<u8>) -> (r: CallRequest)
    requires
        key@.len() <= u32::MAX,
    ensures
        r.op == STORE_KEY_EXT_ID,
        r.input@ == store_key_input(caller@, id@, key@),
{
    CallRequest { op: STORE_KEY_EXT_ID, input: scale_encode_store_key(caller, id, key) }
}

/// Encodes a "verify proof" call: its arguments as SCALE encodes the tuple
/// (key identifier, proof, public input).
pub fn encode_verify(id: &[u8; 8], proof: &Vec<u8>, public_input: &Vec<u8>) -> (r: CallRequest)
    requires
        proof@.len() <= u32::MAX,
        public_input@.len() <= u32::MAX,
    ensures
        r.op == VERIFY_EXT_ID,
        r.input@ == verify_input(id@, proof@, public_input@),
{
    CallRequest { op: VERIFY_EXT_ID, input: scale_encode_verify(id, proof, public_input) }
}

/// Reads the arguments of "register key" back from its buffer, as the
/// receiving side does. It fails exactly on the buffers that encode no
/// arguments at all.
pub fn decode_store_key(input: &Vec<u8>) -> (r: Result<StoreKeyArgs, DecodeError>)
    ensures
        match r {
            Ok(a) => parse_store_key(input@) == Some((a.caller@, a.id@, a.key@)),
            Err(_) => parse_store_key(input@) is None,
        },
        r matches Ok(a) ==> store_key_input(a.caller@, a.id@, a.key@) == input@,
        r is Err ==> forall|caller: Seq<u8>, id: Seq<u8>, key: Seq<u8>|
            caller.len() == 32 && id.len() == 8 && key.len() <= u32::MAX
                ==> #[trigger] store_key_input(caller, id, key) != input@,
{
    match scale_decode_store_key(input) {
        Ok((caller, id, key)) => {
            proof {
                lemma_store_key_parse_exact(input@);
            }
            Ok(StoreKeyArgs { caller, id, key })
        },
        Err(_) => {
            proof {
                assert forall|caller: Seq<u8>, id: Seq<u8>, key: Seq<u8>|
                    caller.len() == 32 && id.len() == 8 && key.len() <= u32::MAX
                    implies #[trigger] store_key_input(caller, id, key) != input@ by {
                    lemma_store_key_round_trip(caller, id, key);
                }
            }
            Err(DecodeError {})
        },
    }
}

/// Reads the arguments of "verify proof" back from its buffer, as the
/// receiving side does. It fails exactly on the buffers that encode no
/// arguments at all.
pub fn decode_verify(input: &Vec<u8>) -> (r: Result<VerifyArgs, DecodeError>)
    ensures
        match r {
            Ok(a) => parse_verify(input@) == Some((a.id@, a.proof@, a.public_input@)),
            Err(_) => parse_verify(input@) is None,
        },
        r matches Ok(a) ==> verify_input(a.id@, a.proof@, a.public_input@) == input@,
        r is Err ==> forall|id: Seq<u8>, proof: Seq<u8>, public_input: Seq<u8>|
            id.len() == 8 && proof.len() <= u32::MAX && public_input.len() <= u32::MAX
                ==> #[trigger] verify_input(id, proof, public_input) != input@,
{
    match scale_decode_verify(input) {
        Ok((id, proof, public_input)) => {
            proof {
                lemma_verify_parse_exact(input@);
            }
            Ok(VerifyArgs { id, proof, public_input })
        },
        Err(_) => {
            proof {
                assert forall|id: Seq<u8>, proof: Seq<u8>, public_input: Seq<u8>|
                    id.len() == 8 && proof.len() <= u32::MAX && public_input.len() <= u32::MAX
                    implies #[trigger] verify_input(id, proof, public_input) != input@ by {
                    lemma_verify_round_trip(id, proof, public_input);
                }
            }
            Err(DecodeError {})
        },
    }
}

} // verus!
