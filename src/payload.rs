//! The proof payload wire format: an optional `0x` prefix, then the hex
//! encoding of the receipt bytes followed by a 32-byte program identity made
//! of eight little-endian 32-bit words.
use vstd::prelude::*;
use crate::error::VerifyError;

verus! {

/// Length in bytes of the program identity that ends every payload.
pub const IMAGE_ID_SIZE: usize = 32;

/// Number of 32-bit words in a program identity.
pub const IMAGE_ID_WORDS: usize = 8;

pub open spec fn strip_hex_prefix(s: Seq<char>) -> Seq<char> {
    if s.len() >= 2 && s[0] == '0' && s[1] == 'x' {
        s.subrange(2, s.len() as int)
    } else {
        s
    }
}

pub open spec fn is_hex_digit(c: char) -> bool {
    (48 <= c as u32 <= 57) || (97 <= c as u32 <= 102) || (65 <= c as u32 <= 70)
}

pub open spec fn hex_digit_value(c: char) -> int {
    if 48 <= c as u32 <= 57 {
        c as u32 - 48
    } else if 97 <= c as u32 <= 102 {
        c as u32 - 87
    } else {
        c as u32 - 55
    }
}

/// An even number of hex digits, of either case.
pub open spec fn valid_hex(s: Seq<char>) -> bool {
    s.len() % 2 == 0 && forall|i: int| 0 <= i < s.len() ==> is_hex_digit(#[trigger] s[i])
}

/// The bytes that a hex string spells, two digits per byte, high digit first.
pub open spec fn hex_bytes(s: Seq<char>) -> Seq<u8> {
    Seq::new(
        s.len() / 2,
        |i: int| (hex_digit_value(s[2 * i]) * 16 + hex_digit_value(s[2 * i + 1])) as u8,
    )
}

/// The bytes of a payload string once its prefix is removed.
pub open spec fn payload_bytes(s: Seq<char>) -> Seq<u8> {
    hex_bytes(strip_hex_prefix(s))
}

/// The 32-bit little-endian word that starts at byte `k`.
pub open spec fn le_word(b: Seq<u8>, k: int) -> u32 {
    (b[k] as int + b[k + 1] as int * 0x100 + b[k + 2] as int * 0x1_0000 + b[k + 3] as int
        * 0x100_0000) as u32
}

/// The words of a 32-byte identity.
pub open spec fn identity_words(b: Seq<u8>) -> Seq<u32> {
    Seq::new(IMAGE_ID_WORDS as nat, |i: int| le_word(b, 4 * i))
}

/// A payload split into its receipt bytes and its identity bytes.
#[derive(Debug)]
pub struct ProofPayload {
    pub receipt: Vec<u8>,
    pub identity: Vec<u8>,
}

impl ProofPayload {
    pub open spec fn wf(&self) -> bool {
        self.identity@.len() == IMAGE_ID_SIZE
    }
}

/// Relies on hex::decode: it accepts an even number of hex digits of either
/// case and turns each pair into one byte, high digit first; any other input
/// is an error.
#[verifier::external_body]
fn hex_decode(s: &str) -> (r: Option<Vec<u8>>)
    ensures
        r.is_some() <==> valid_hex(s@),
        r.is_some() ==> r.unwrap()@ == hex_bytes(s@),
{
    hex::decode(s).ok()
}

/// Removes one leading `0x`, if there is one.
pub fn strip_hex_prefix_str(s: &str) -> (r: &str)
    ensures
        r@ == strip_hex_prefix(s@),
{
    let n: usize = s.unicode_len();
    if n >= 2 && s.get_char(0) == '0' && s.get_char(1) == 'x' {
        s.substring_char(2, n)
    } else {
        s
    }
}

fn copy_range(v: &Vec<u8>, from: usize, to: usize) -> (r: Vec<u8>)
    requires
        from <= to <= v@.len(),
    ensures
        r@ == v@.subrange(from as int, to as int),
{
    let mut r: Vec<u8> = Vec::new();
    let mut i: usize = from;
    while i < to
        invariant
            from <= i <= to <= v@.len(),
            r@ == v@.subrange(from as int, i as int),
        decreases to - i,
    {
        r.push(v[i]);
        i = i + 1;
    }
    r
}

/// Decodes a payload string and splits off the trailing 32-byte identity.
pub fn decode_payload(payload: &str) -> (r: Result<ProofPayload, VerifyError>)
    ensures
        !valid_hex(strip_hex_prefix(payload@)) ==> r == Err::<ProofPayload, VerifyError>(
            VerifyError::MalformedHex,
        ),
        valid_hex(strip_hex_prefix(payload@)) && payload_bytes(payload@).len() <= IMAGE_ID_SIZE
            ==> r == Err::<ProofPayload, VerifyError>(VerifyError::PayloadTooSmall),
        valid_hex(strip_hex_prefix(payload@)) && payload_bytes(payload@).len() > IMAGE_ID_SIZE
            ==> r.is_ok() && r.unwrap().wf() && r.unwrap().receipt@ == payload_bytes(
            payload@,
        ).subrange(0, payload_bytes(payload@).len() - IMAGE_ID_SIZE) && r.unwrap().identity@
            == payload_bytes(payload@).subrange(
            payload_bytes(payload@).len() - IMAGE_ID_SIZE,
            payload_bytes(payload@).len() as int,
        ),
{
    let clean: &str = strip_hex_prefix_str(payload);
    let bytes: Vec<u8> = match hex_decode(clean) {
        Some(b) => b,
        None => {
            return Err(VerifyError::MalformedHex);
        },
    };
    let n: usize = bytes.len();
    if n <= IMAGE_ID_SIZE {
        return Err(VerifyError::PayloadTooSmall);
    }
    let receipt: Vec<u8> = copy_range(&bytes, 0, n - IMAGE_ID_SIZE);
    let identity: Vec<u8> = copy_range(&bytes, n - IMAGE_ID_SIZE, n);
    Ok(ProofPayload { receipt, identity })
}

/// Reads a 32-byte identity as eight little-endian 32-bit words.
pub fn parse_identity(identity: &[u8]) -> (r: Vec<u32>)
    requires
        identity@.len() == IMAGE_ID_SIZE,
    ensures
        r@ == identity_words(identity@),
{
    let mut r: Vec<u32> = Vec::new();
    let mut i: usize = 0;
    while i < IMAGE_ID_WORDS
        invariant
            i <= IMAGE_ID_WORDS,
            identity@.len() == IMAGE_ID_SIZE,
            r@.len() == i,
            forall|j: int| 0 <= j < i ==> r@[j] == le_word(identity@, 4 * j),
        decreases IMAGE_ID_WORDS - i,
    {
        let k: usize = 4 * i;
        let w: u32 = identity[k] as u32 + identity[k + 1] as u32 * 0x100 + identity[k + 2] as u32
            * 0x1_0000 + identity[k + 3] as u32 * 0x100_0000;
        r.push(w);
        i = i + 1;
    }
    assert(r@ =~= identity_words(identity@));
    r
}

/// The lower-case hex digit of a value below 16.
pub open spec fn hex_digit_char(v: int) -> char {
    seq!['0', '1', '2', '3', '4', '5', '6', '7', '8', '9', 'a', 'b', 'c', 'd', 'e', 'f'][v]
}

/// Lower-case hex encoding, two digits per byte, high digit first.
pub open spec fn hex_encode(b: Seq<u8>) -> Seq<char> {
    Seq::new(
        2 * b.len(),
        |j: int|
            if j % 2 == 0 {
                hex_digit_char(b[j / 2] as int / 16)
            } else {
                hex_digit_char(b[j / 2] as int % 16)
            },
    )
}

proof fn lemma_hex_digit_char(v: int)
    requires
        0 <= v < 16,
    ensures
        is_hex_digit(hex_digit_char(v)),
        hex_digit_value(hex_digit_char(v)) == v,
        hex_digit_char(v) != 'x',
{
}

proof fn lemma_hex_round_trip(b: Seq<u8>)
    ensures
        valid_hex(hex_encode(b)),
        hex_bytes(hex_encode(b)) == b,
{
    let e = hex_encode(b);
    assert forall|i: int| 0 <= i < e.len() implies is_hex_digit(#[trigger] e[i]) by {
        lemma_hex_digit_char(b[i / 2] as int / 16);
        lemma_hex_digit_char(b[i / 2] as int % 16);
    }
    assert forall|i: int| 0 <= i < b.len() implies #[trigger] hex_bytes(e)[i] == b[i] by {
        lemma_hex_digit_char(b[i] as int / 16);
        lemma_hex_digit_char(b[i] as int % 16);
        assert((2 * i) / 2 == i && (2 * i + 1) / 2 == i);
        assert((2 * i) % 2 == 0 && (2 * i + 1) % 2 == 1);
    }
    assert(hex_bytes(e) =~= b);
}

/// Encoding receipt bytes followed by a 32-byte identity as hex, with or
/// without the `0x` prefix, and decoding the result gives back exactly the
/// receipt bytes and the identity bytes.
pub proof fn lemma_payload_round_trip(receipt: Seq<u8>, identity: Seq<u8>, prefixed: bool)
    requires
        receipt.len() > 0,
        identity.len() == IMAGE_ID_SIZE,
    ensures
        ({
            let text = if prefixed {
                seq!['0', 'x'] + hex_encode(receipt + identity)
            } else {
                hex_encode(receipt + identity)
            };
            let bytes = payload_bytes(text);
            &&& valid_hex(strip_hex_prefix(text))
            &&& bytes.len() > IMAGE_ID_SIZE
            &&& bytes.subrange(0, bytes.len() - IMAGE_ID_SIZE) == receipt
            &&& bytes.subrange(bytes.len() - IMAGE_ID_SIZE, bytes.len() as int) == identity
        }),
{
    let all = receipt + identity;
    let e = hex_encode(all);
    lemma_hex_round_trip(all);
    lemma_hex_digit_char(all[0] as int % 16);
    let text = if prefixed {
        seq!['0', 'x'] + e
    } else {
        e
    };
    assert(e[1] != 'x');
    assert(strip_hex_prefix(text) =~= e);
    assert(all.subrange(0, all.len() - IMAGE_ID_SIZE) =~= receipt);
    assert(all.subrange(all.len() - IMAGE_ID_SIZE, all.len() as int) =~= identity);
}

} // verus!
