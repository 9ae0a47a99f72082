//! Externally encoded account identifiers.
//!
//! An account identifier travels between processes as a hex string with an
//! optional `0x` prefix.  It decodes to a fixed-length binary identifier;
//! a malformed hex payload or a payload of the wrong length is rejected
//! with a descriptive decode error.  Encoding always produces the canonical
//! form: a `0x` prefix followed by lowercase digits.

use vstd::prelude::*;

use crate::errors::{DecodeFault, ServiceError};

verus! {

/// Length in bytes of a decoded account identifier.
pub const ACCOUNT_ID_LENGTH: usize = 15;

/// Is `c` an ASCII hex digit (either case)?
pub open spec fn is_hex_digit(c: u8) -> bool {
    (48 <= c && c <= 57)  // '0' ..= '9'
    || (97 <= c && c <= 102)  // 'a' ..= 'f'
    || (65 <= c && c <= 70)  // 'A' ..= 'F'
}

/// Is `c` a canonical (lowercase) ASCII hex digit?
pub open spec fn is_canonical_hex_digit(c: u8) -> bool {
    (48 <= c && c <= 57) || (97 <= c && c <= 102)
}

/// Numeric value of a hex digit.
pub open spec fn hex_digit_value(c: u8) -> u8
    recommends
        is_hex_digit(c),
{
    if 48 <= c && c <= 57 {
        (c - 48) as u8
    } else if 97 <= c && c <= 102 {
        (c - 97 + 10) as u8
    } else {
        (c - 65 + 10) as u8
    }
}

/// Canonical digit for a value below sixteen.
pub open spec fn lower_hex_digit(v: u8) -> u8
    recommends
        v < 16,
{
    if v < 10 {
        (v + 48) as u8
    } else {
        (v - 10 + 97) as u8
    }
}

/// A well-formed hex payload: even length, every character a digit.
pub open spec fn valid_hex(s: Seq<u8>) -> bool {
    &&& s.len() % 2 == 0
    &&& forall|i: int| 0 <= i < s.len() ==> is_hex_digit(#[trigger] s[i])
}

/// A well-formed hex payload written entirely in canonical digits.
pub open spec fn canonical_hex(s: Seq<u8>) -> bool {
    &&& s.len() % 2 == 0
    &&& forall|i: int| 0 <= i < s.len() ==> is_canonical_hex_digit(#[trigger] s[i])
}

/// Does the string carry the optional `0x` prefix?
pub open spec fn has_hex_prefix(s: Seq<u8>) -> bool {
    s.len() >= 2 && s[0] == 48 && s[1] == 120
}

/// The hex payload of an external identifier string: the string itself,
/// or everything after the optional `0x` prefix.
pub open spec fn strip_hex_prefix_spec(s: Seq<u8>) -> Seq<u8> {
    if has_hex_prefix(s) {
        s.skip(2)
    } else {
        s
    }
}

/// Canonical hex encoding of a byte string: two digits per byte, high
/// nibble first.
pub open spec fn hex_encode_spec(bytes: Seq<u8>) -> Seq<u8> {
    Seq::new(
        bytes.len() * 2,
        |i: int|
            if i % 2 == 0 {
                lower_hex_digit(bytes[i / 2] / 16)
            } else {
                lower_hex_digit(bytes[i / 2] % 16)
            },
    )
}

/// The bytes denoted by a well-formed hex payload.
pub open spec fn hex_decode_spec(s: Seq<u8>) -> Seq<u8>
    recommends
        valid_hex(s),
{
    Seq::new(
        s.len() / 2,
        |i: int| (hex_digit_value(s[2 * i]) * 16 + hex_digit_value(s[2 * i + 1])) as u8,
    )
}

/// Canonical external form of an identifier: `0x` plus lowercase digits.
pub open spec fn encode_id_spec(bytes: Seq<u8>) -> Seq<u8> {
    seq![48u8, 120u8] + hex_encode_spec(bytes)
}

/// An external identifier string that decodes to an account identifier:
/// after the optional prefix, a well-formed hex payload of the fixed
/// identifier length.
pub open spec fn valid_external_id(s: Seq<u8>) -> bool {
    &&& valid_hex(strip_hex_prefix_spec(s))
    &&& strip_hex_prefix_spec(s).len() == 2 * (ACCOUNT_ID_LENGTH as int)
}

/// The decode fault reported for a malformed external identifier string:
/// an odd payload is reported before a bad digit, a bad digit before a
/// wrong decoded length.
pub open spec fn decode_fault_spec(s: Seq<u8>) -> DecodeFault
    recommends
        !valid_external_id(s),
{
    let p = strip_hex_prefix_spec(s);
    if p.len() % 2 != 0 {
        DecodeFault::OddLength
    } else if !valid_hex(p) {
        DecodeFault::InvalidDigit
    } else {
        DecodeFault::WrongLength
    }
}

/// A fixed-length binary account identifier.
///
/// This is the only externally shared handle to an account; it is immutable
/// once created.
#[derive(Debug, PartialEq, Eq, Hash)]
pub struct AccountId {
    bytes: Vec<u8>,
}

impl View for AccountId {
    type V = Seq<u8>;

    closed spec fn view(&self) -> Seq<u8> {
        self.bytes@
    }
}

impl AccountId {
    /// The identifier holds exactly the fixed number of bytes.
    pub open spec fn wf(self) -> bool {
        self@.len() == ACCOUNT_ID_LENGTH as int
    }

    /// Wraps a raw identifier, rejecting any payload of the wrong length.
    pub fn from_bytes(bytes: Vec<u8>) -> (r: Result<AccountId, ServiceError>)
        ensures
            r is Ok <==> bytes@.len() == ACCOUNT_ID_LENGTH as int,
            r matches Ok(id) ==> id@ == bytes@ && id.wf(),
            r is Err ==> r == Err::<AccountId, ServiceError>(
                ServiceError::DecodeError(DecodeFault::WrongLength),
            ),
    {
        if bytes.len() == ACCOUNT_ID_LENGTH {
            Ok(AccountId { bytes })
        } else {
            Err(ServiceError::DecodeError(DecodeFault::WrongLength))
        }
    }

    /// The raw identifier bytes.
    pub fn as_bytes(&self) -> (r: &Vec<u8>)
        ensures
            r@ == self@,
    {
        &self.bytes
    }

    /// A copy of this identifier.
    pub fn duplicate(&self) -> (r: AccountId)
        ensures
            r@ == self@,
    {
        AccountId { bytes: self.bytes.clone() }
    }

    /// Do two identifiers denote the same account?
    pub fn same_id(&self, other: &AccountId) -> (r: bool)
        ensures
            r == (self@ == other@),
    {
        bytes_eq(&self.bytes, &other.bytes)
    }

    /// Renders this identifier in its canonical external form.
    pub fn encode(&self) -> (r: Vec<u8>)
        ensures
            r@ == encode_id_spec(self@),
    {
        encode_with_prefix(&self.bytes)
    }
}

/// Renders a byte string as `0x` plus its canonical hex encoding.
pub fn encode_with_prefix(bytes: &Vec<u8>) -> (r: Vec<u8>)
    ensures
        r@ == encode_id_spec(bytes@),
{
    let mut out: Vec<u8> = Vec::new();
    out.push(48);
    out.push(120);
    let mut i: usize = 0;
    while i < bytes.len()
        invariant
            i <= bytes@.len(),
            out@.len() == 2 + 2 * i,
            out@[0] == 48u8,
            out@[1] == 120u8,
            forall|j: int| 0 <= j < 2 * i ==> out@[2 + j] == #[trigger] hex_encode_spec(bytes@)[j],
        decreases bytes@.len() - i,
    {
        let b = bytes[i];
        proof {
            lemma_byte_split(b);
        }
        out.push(lower_hex_digit_exec(b / 16));
        out.push(lower_hex_digit_exec(b % 16));
        i += 1;
    }
    proof {
        assert(out@ =~= encode_id_spec(bytes@));
    }
    out
}

/// Element-wise equality of two byte strings.
pub fn bytes_eq(a: &Vec<u8>, b: &Vec<u8>) -> (r: bool)
    ensures
        r == (a@ == b@),
{
    if a.len() != b.len() {
        return false;
    }
    let mut i: usize = 0;
    while i < a.len()
        invariant
            a@.len() == b@.len(),
            i <= a@.len(),
            forall|j: int| 0 <= j < i ==> a@[j] == b@[j],
        decreases a@.len() - i,
    {
        if a[i] != b[i] {
            return false;
        }
        i += 1;
    }
    proof {
        assert(a@ =~= b@);
    }
    true
}

/// Value of one hex digit, or `None` for any other character.
fn hex_digit_value_exec(c: u8) -> (r: Option<u8>)
    ensures
        r is Some <==> is_hex_digit(c),
        r matches Some(v) ==> v == hex_digit_value(c) && v < 16,
{
    if 48 <= c && c <= 57 {
        Some(c - 48)
    } else if 97 <= c && c <= 102 {
        Some(c - 97 + 10)
    } else if 65 <= c && c <= 70 {
        Some(c - 65 + 10)
    } else {
        None
    }
}

/// Canonical digit for a value below sixteen.
fn lower_hex_digit_exec(v: u8) -> (r: u8)
    requires
        v < 16,
    ensures
        r == lower_hex_digit(v),
{
    if v < 10 {
        v + 48
    } else {
        v - 10 + 97
    }
}

/// Decodes an external identifier string into an account identifier.
///
/// Accepts the optional `0x` prefix.  Rejects an odd number of digits, a
/// non-hex character, and a payload whose decoded length is not the fixed
/// identifier length, each with its own decode fault.
pub fn decode_account_id(input: &Vec<u8>) -> (r: Result<AccountId, ServiceError>)
    ensures
        r is Ok <==> valid_external_id(input@),
        r matches Ok(id) ==> id@ == hex_decode_spec(strip_hex_prefix_spec(input@)) && id.wf(),
        strip_hex_prefix_spec(input@).len() % 2 != 0 ==> r == Err::<AccountId, ServiceError>(
            ServiceError::DecodeError(DecodeFault::OddLength),
        ),
        strip_hex_prefix_spec(input@).len() % 2 == 0 && !valid_hex(strip_hex_prefix_spec(input@))
            ==> r == Err::<AccountId, ServiceError>(
            ServiceError::DecodeError(DecodeFault::InvalidDigit),
        ),
        valid_hex(strip_hex_prefix_spec(input@)) && strip_hex_prefix_spec(input@).len() != 2 * (
        ACCOUNT_ID_LENGTH as int) ==> r == Err::<AccountId, ServiceError>(
            ServiceError::DecodeError(DecodeFault::WrongLength),
        ),
        !valid_external_id(input@) ==> r == Err::<AccountId, ServiceError>(
            ServiceError::DecodeError(decode_fault_spec(input@)),
        ),
{
    let off: usize = if input.len() >= 2 && input[0] == 48 && input[1] == 120 {
        2
    } else {
        0
    };
    let ghost p: Seq<u8> = strip_hex_prefix_spec(input@);
    proof {
        assert(p =~= input@.skip(off as int));
    }
    let end = input.len();
    let n = end - off;
    if n % 2 != 0 {
        return Err(ServiceError::DecodeError(DecodeFault::OddLength));
    }
    let half = n / 2;
    let mut out: Vec<u8> = Vec::new();
    let mut i: usize = 0;
    while i < half
        invariant
            p == input@.skip(off as int),
            p == strip_hex_prefix_spec(input@),
            p.len() == n,
            n % 2 == 0,
            half == n / 2,
            off + n == end,
            end == input@.len(),
            i <= half,
            out@.len() == i,
            forall|j: int| 0 <= j < 2 * i ==> is_hex_digit(#[trigger] p[j]),
            forall|j: int|
                0 <= j < i ==> out@[j] == (hex_digit_value(p[2 * j]) * 16 + hex_digit_value(
                    p[2 * j + 1],
                )) as u8,
        decreases half - i,
    {
        proof {
            assert(2 * (i as int) + 1 < n as int);
        }
        let c1 = input[off + 2 * i];
        let c2 = input[off + 2 * i + 1];
        proof {
            assert(p[2 * (i as int)] == c1);
            assert(p[2 * (i as int) + 1] == c2);
        }
        let v1 = match hex_digit_value_exec(c1) {
            Some(v) => v,
            None => {
                proof {
                    assert(!is_hex_digit(p[2 * (i as int)]));
                    assert(!valid_hex(p));
                }
                return Err(ServiceError::DecodeError(DecodeFault::InvalidDigit));
            },
        };
        let v2 = match hex_digit_value_exec(c2) {
            Some(v) => v,
            None => {
                proof {
                    assert(!is_hex_digit(p[2 * (i as int) + 1]));
                    assert(!valid_hex(p));
                }
                return Err(ServiceError::DecodeError(DecodeFault::InvalidDigit));
            },
        };
        out.push(v1 * 16 + v2);
        i += 1;
    }
    proof {
        assert(valid_hex(p)) by {
            assert(forall|j: int| 0 <= j < p.len() ==> is_hex_digit(#[trigger] p[j]));
        }
        assert(out@ =~= hex_decode_spec(p));
    }
    if out.len() != ACCOUNT_ID_LENGTH {
        return Err(ServiceError::DecodeError(DecodeFault::WrongLength));
    }
    Ok(AccountId { bytes: out })
}

/// High and low nibble of a byte recombine to the byte.
proof fn lemma_byte_split(b: u8)
    ensures
        b / 16 < 16,
        b % 16 < 16,
        (b / 16) * 16 + b % 16 == b,
{
    assert(b / 16 < 16 && b % 16 < 16 && (b / 16) * 16 + b % 16 == b) by (nonlinear_arith);
}

/// A two-digit value splits back into its nibbles.
proof fn lemma_nibble_join(v1: u8, v2: u8)
    requires
        v1 < 16,
        v2 < 16,
    ensures
        (v1 * 16 + v2) / 16 == v1,
        (v1 * 16 + v2) % 16 == v2,
{
    assert((v1 * 16 + v2) / 16 == v1 && (v1 * 16 + v2) % 16 == v2) by (nonlinear_arith)
        requires
            v1 < 16,
            v2 < 16,
    ;
}

/// A canonical digit round-trips through its value.
proof fn lemma_canonical_digit_round_trip(c: u8)
    requires
        is_canonical_hex_digit(c),
    ensures
        hex_digit_value(c) < 16,
        lower_hex_digit(hex_digit_value(c)) == c,
{
}

/// A value below sixteen round-trips through its canonical digit.
proof fn lemma_value_round_trip(v: u8)
    requires
        v < 16,
    ensures
        is_canonical_hex_digit(lower_hex_digit(v)),
        is_hex_digit(lower_hex_digit(v)),
        hex_digit_value(lower_hex_digit(v)) == v,
{
}

/// Encoding any byte string yields a canonical hex payload that decodes
/// back to the same bytes.
pub proof fn lemma_decode_of_encode(bytes: Seq<u8>)
    ensures
        valid_hex(hex_encode_spec(bytes)),
        canonical_hex(hex_encode_spec(bytes)),
        hex_decode_spec(hex_encode_spec(bytes)) == bytes,
{
    let e = hex_encode_spec(bytes);
    assert forall|i: int| 0 <= i < e.len() implies is_hex_digit(#[trigger] e[i])
        && is_canonical_hex_digit(e[i]) by {
        lemma_byte_split(bytes[i / 2]);
        if i % 2 == 0 {
            lemma_value_round_trip(bytes[i / 2] / 16);
        } else {
            lemma_value_round_trip(bytes[i / 2] % 16);
        }
    }
    let d = hex_decode_spec(e);
    assert forall|i: int| 0 <= i < d.len() implies d[i] == bytes[i] by {
        lemma_byte_split(bytes[i]);
        assert((2 * i) / 2 == i);
        assert((2 * i + 1) / 2 == i);
        assert(e[2 * i] == lower_hex_digit(bytes[i] / 16));
        assert(e[2 * i + 1] == lower_hex_digit(bytes[i] % 16));
        lemma_value_round_trip(bytes[i] / 16);
        lemma_value_round_trip(bytes[i] % 16);
    }
    assert(d =~= bytes);
}

/// Decoding a canonical hex payload and re-encoding it reproduces the
/// payload exactly.
pub proof fn lemma_encode_of_decode(s: Seq<u8>)
    requires
        canonical_hex(s),
    ensures
        hex_encode_spec(hex_decode_spec(s)) == s,
{
    let d = hex_decode_spec(s);
    let e = hex_encode_spec(d);
    assert(e.len() == s.len());
    assert forall|j: int| 0 <= j < e.len() implies e[j] == s[j] by {
        let i = j / 2;
        lemma_canonical_digit_round_trip(s[2 * i]);
        lemma_canonical_digit_round_trip(s[2 * i + 1]);
        lemma_nibble_join(hex_digit_value(s[2 * i]), hex_digit_value(s[2 * i + 1]));
        if j % 2 == 0 {
            assert(j == 2 * i);
            assert(e[j] == lower_hex_digit(d[i] / 16));
        } else {
            assert(j == 2 * i + 1);
            assert(e[j] == lower_hex_digit(d[i] % 16));
        }
    }
    assert(e =~= s);
}

/// Identifier round trip: decoding a validly formed external identifier
/// string written in canonical digits and re-encoding it reproduces the
/// original value, modulo `0x`-prefix normalization.
pub proof fn lemma_identifier_round_trip(s: Seq<u8>)
    requires
        valid_external_id(s),
        canonical_hex(strip_hex_prefix_spec(s)),
    ensures
        encode_id_spec(hex_decode_spec(strip_hex_prefix_spec(s))) == seq![48u8, 120u8]
            + strip_hex_prefix_spec(s),
{
    let p = strip_hex_prefix_spec(s);
    lemma_encode_of_decode(p);
    assert(encode_id_spec(hex_decode_spec(p)) =~= seq![48u8, 120u8] + p);
}

/// Re-encoding an identifier and decoding the result gives the identifier
/// back: the canonical external form is itself validly formed.
pub proof fn lemma_encode_then_decode(bytes: Seq<u8>)
    requires
        bytes.len() == ACCOUNT_ID_LENGTH as int,
    ensures
        valid_external_id(encode_id_spec(bytes)),
        hex_decode_spec(strip_hex_prefix_spec(encode_id_spec(bytes))) == bytes,
{
    lemma_decode_of_encode(bytes);
    assert(strip_hex_prefix_spec(encode_id_spec(bytes)) =~= hex_encode_spec(bytes));
}

} // verus!
