//! The seed of the random generator: 32 bytes given as hex text, or drawn
//! from the operating system.
use vstd::prelude::*;
use vstd::utf8::encode_utf8;

verus! {

/// Length in bytes of a seed.
pub const SEED_LENGTH: usize = 32;

#[verifier::external_type_specification]
#[verifier::external_body]
pub struct ExFromHexError(hex::FromHexError);

#[verifier::external_type_specification]
#[verifier::external_body]
pub struct ExGetrandomError(getrandom::Error);

/// Why no seed could be had.
#[derive(Debug, Clone, Copy, PartialEq, Eq, Structural)]
pub enum SeedError {
    /// The text is not a sequence of hex digit pairs.
    InvalidHex,
    /// The text decodes to a number of bytes other than `SEED_LENGTH`.
    WrongLength { length: usize },
    /// The operating system gave no random bytes.
    RandomUnavailable,
}

/// The value of an ASCII hex digit, either case.
pub open spec fn hex_digit_value(b: u8) -> Option<u8> {
    if 48 <= b <= 57 {
        Some((b - 48) as u8)
    } else if 97 <= b <= 102 {
        Some((b - 97 + 10) as u8)
    } else if 65 <= b <= 70 {
        Some((b - 65 + 10) as u8)
    } else {
        None
    }
}

/// The bytes that hex text `data` denotes, two digits per byte, high digit
/// first; `None` for text of odd length or with a byte that is no hex digit.
pub open spec fn spec_hex_decode(data: Seq<u8>) -> Option<Seq<u8>> {
    if data.len() % 2 == 0 && forall|i: int| 0 <= i < data.len() ==> #[trigger] hex_digit_value(data[i]) is Some {
        Some(
            Seq::new(
                data.len() / 2,
                |k: int|
                    (hex_digit_value(data[2 * k])->0 * 16 + hex_digit_value(data[2 * k + 1])->0) as u8,
            ),
        )
    } else {
        None
    }
}

/// Calls `hex::decode`, which decodes hex text of even length made of the
/// digits 0-9, a-f and A-F into bytes, and fails on anything else.
#[verifier::external_body]
fn hex_decode(data: &[u8]) -> (r: Result<Vec<u8>, hex::FromHexError>)
    ensures
        r is Ok <==> spec_hex_decode(data@) is Some,
        r matches Ok(bytes) ==> spec_hex_decode(data@) == Some(bytes@),
{
    hex::decode(data)
}

/// Calls `getrandom::getrandom`, which fills `dest` with random bytes from the
/// operating system or fails. What the bytes are is not stated: they are
/// random.
#[verifier::external_body]
fn fill_random(dest: &mut [u8; 32]) -> (r: Result<(), getrandom::Error>) {
    getrandom::getrandom(dest)
}

/// The seed that hex text `text` denotes.
pub open spec fn spec_seed_from_text(text: Seq<char>) -> Result<Seq<u8>, SeedError> {
    match spec_hex_decode(encode_utf8(text)) {
        None => Err(SeedError::InvalidHex),
        Some(bytes) => if bytes.len() == SEED_LENGTH {
            Ok(bytes)
        } else {
            Err(SeedError::WrongLength { length: bytes.len() as usize })
        },
    }
}

/// The seed that hex text `text` denotes: 32 bytes, two hex digits each.
pub fn seed_from_text(text: &str) -> (r: Result<[u8; 32], SeedError>)
    ensures
        r matches Ok(array) ==> spec_seed_from_text(text@) == Ok::<Seq<u8>, SeedError>(array@),
        r matches Err(e) ==> spec_seed_from_text(text@) == Err::<Seq<u8>, SeedError>(e),
{
    let vec = match hex_decode(text.as_bytes()) {
        Ok(v) => v,
        Err(_) => {
            return Err(SeedError::InvalidHex);
        },
    };
    if vec.len() != SEED_LENGTH {
        return Err(SeedError::WrongLength { length: vec.len() });
    }
    let mut array = [0u8; 32];
    let mut i: usize = 0;
    while i < SEED_LENGTH
        invariant
            i <= SEED_LENGTH,
            vec@.len() == SEED_LENGTH,
            forall|j: int| 0 <= j < i ==> #[trigger] array@[j] == vec@[j],
        decreases SEED_LENGTH - i,
    {
        array[i] = vec[i];
        i = i + 1;
    }
    assert(array@ =~= vec@);
    Ok(array)
}

/// The seed from a draw of the operating system's random source: the bytes
/// drawn, or `RandomUnavailable` when the draw failed.
pub fn seed_from_draw(drawn: Option<[u8; 32]>) -> (r: Result<[u8; 32], SeedError>)
    ensures
        drawn matches Some(bytes) ==> r == Ok::<[u8; 32], SeedError>(bytes),
        drawn is None ==> r == Err::<[u8; 32], SeedError>(SeedError::RandomUnavailable),
{
    match drawn {
        Some(bytes) => Ok(bytes),
        None => Err(SeedError::RandomUnavailable),
    }
}

/// The seed of a run: the one given as hex text, or else 32 random bytes.
/// Given text must denote exactly 32 bytes (see `seed_from_text`, which says
/// why a text does not).
pub fn seed(seed_text: Option<String>) -> (r: Result<[u8; 32], SeedError>)
    requires
        seed_text matches Some(text) ==> spec_seed_from_text(text@) is Ok,
    ensures
        seed_text matches Some(text) ==> (r matches Ok(array) && spec_seed_from_text(text@)
            == Ok::<Seq<u8>, SeedError>(array@)),
        seed_text is None ==> (r is Ok || r == Err::<[u8; 32], SeedError>(SeedError::RandomUnavailable)),
{
    match seed_text {
        Some(string) => seed_from_text(string.as_str()),
        None => {
            let mut array = [0u8; 32];
            match fill_random(&mut array) {
                Ok(()) => seed_from_draw(Some(array)),
                Err(_) => seed_from_draw(None),
            }
        },
    }
}

/// The lower-case hex digit for `v < 16`, as a byte.
pub open spec fn hex_digit(v: int) -> u8 {
    if v < 10 {
        (48 + v) as u8
    } else {
        (87 + v) as u8
    }
}

/// The hex text of `bytes`: two lower-case digits per byte, high digit first.
pub open spec fn spec_hex_encode(bytes: Seq<u8>) -> Seq<u8> {
    Seq::new(
        2 * bytes.len(),
        |i: int|
            if i % 2 == 0 {
                hex_digit((bytes[i / 2] / 16) as int)
            } else {
                hex_digit((bytes[i / 2] % 16) as int)
            },
    )
}

/// Decoding the hex text of any bytes gives them back.
pub proof fn law_hex_round_trip(bytes: Seq<u8>)
    ensures
        spec_hex_decode(spec_hex_encode(bytes)) == Some(bytes),
{
    let text = spec_hex_encode(bytes);
    assert forall|i: int| 0 <= i < text.len() implies #[trigger] hex_digit_value(text[i]) is Some by {
        let b = bytes[i / 2];
        assert(0 <= b / 16 < 16 && 0 <= b % 16 < 16);
    }
    assert(text.len() % 2 == 0) by {
        assert(text.len() == 2 * bytes.len());
    }
    let decoded = spec_hex_decode(text)->0;
    assert(text.len() / 2 == bytes.len());
    assert forall|k: int| 0 <= k < bytes.len() implies #[trigger] decoded[k] == bytes[k] by {
        let b = bytes[k];
        assert((2 * k) % 2 == 0 && (2 * k) / 2 == k);
        assert((2 * k + 1) % 2 == 1 && (2 * k + 1) / 2 == k);
        assert(hex_digit_value(text[2 * k])->0 == b / 16);
        assert(hex_digit_value(text[2 * k + 1])->0 == b % 16);
        assert((b / 16) * 16 + b % 16 == b);
    }
    assert(decoded =~= bytes);
}

/// The seed written as the hex text of 32 bytes is those bytes.
pub proof fn law_seed_round_trip(bytes: Seq<u8>)
    requires
        bytes.len() == SEED_LENGTH,
    ensures
        spec_seed_from_text(spec_hex_encode(bytes).map_values(|b: u8| b as char)) == Ok::<
            Seq<u8>,
            SeedError,
        >(bytes),
{
    let text = spec_hex_encode(bytes);
    let chars = text.map_values(|b: u8| b as char);
    assert forall|i: int| 0 <= i < chars.len() implies '\0' <= #[trigger] chars[i] <= '\u{7f}' by {
        let b = bytes[i / 2];
        assert(0 <= b / 16 < 16 && 0 <= b % 16 < 16);
    }
    vstd::utf8::is_ascii_chars_encode_utf8(chars);
    assert forall|i: int| 0 <= i < text.len() implies #[trigger] encode_utf8(chars)[i] == text[i] by {
        assert(chars[i] as u8 == encode_utf8(chars)[i]);
        let b = bytes[i / 2];
        assert(0 <= b / 16 < 16 && 0 <= b % 16 < 16);
    }
    assert(encode_utf8(chars) =~= text);
    law_hex_round_trip(bytes);
}

} // verus!
