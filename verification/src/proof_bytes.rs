//! Reading a generated proof: a flat JSON object whose values are strings of
//! hexadecimal digits, one for each curve point and public input.

use vstd::prelude::*;
use vstd::string::StrSliceExecFns;

verus! {

/// A proof and its public inputs as the prover wrote them out.
#[derive(Clone, Copy, Debug, PartialEq, Eq)]
pub struct GeneratedProof {
    /// The G1 point A.
    pub pi_a: [u8; 64],
    /// The G2 point B.
    pub pi_b: [u8; 128],
    /// The G1 point C.
    pub pi_c: [u8; 64],
    /// The first public input: the salary commitment.
    pub salary_commitment: [u8; 32],
    /// The second public input: the payment nullifier.
    pub payment_nullifier: [u8; 32],
    /// The third public input: the hash of the recipient.
    pub recipient_hash: [u8; 32],
}

/// Whether `c` is white space as ASCII has it.
pub open spec fn is_space(c: char) -> bool {
    c == ' ' || c == '\t' || c == '\n' || c == '\x0C' || c == '\r'
}

/// Whether the key `field`, in its quotes, stands at position `i` of `json`.
pub open spec fn key_at(json: Seq<char>, field: Seq<char>, i: int) -> bool {
    &&& 0 <= i
    &&& i + field.len() + 2 <= json.len()
    &&& json[i] == '"'
    &&& json.subrange(i + 1, i + 1 + field.len()) == field
    &&& json[i + 1 + field.len()] == '"'
}

/// The first position at or after `from` where the key stands, or the length
/// of `json` if there is none.
pub open spec fn key_position(json: Seq<char>, field: Seq<char>, from: int) -> int
    decreases json.len() - from,
{
    if from < 0 || from + field.len() + 2 > json.len() {
        json.len() as int
    } else if key_at(json, field, from) {
        from
    } else {
        key_position(json, field, from + 1)
    }
}

/// The first position at or after `from` that holds no white space, or the
/// length of `json`.
pub open spec fn skip_spaces(json: Seq<char>, from: int) -> int
    decreases json.len() - from,
{
    if from < 0 || from >= json.len() {
        json.len() as int
    } else if !is_space(json[from]) {
        from
    } else {
        skip_spaces(json, from + 1)
    }
}

/// The first position at or after `from` that holds a quote, or the length
/// of `json`.
pub open spec fn next_quote(json: Seq<char>, from: int) -> int
    decreases json.len() - from,
{
    if from < 0 || from >= json.len() {
        json.len() as int
    } else if json[from] == '"' {
        from
    } else {
        next_quote(json, from + 1)
    }
}

/// The string value of the first occurrence of the key `field` in `json`:
/// after the key come optional white space, a colon, optional white space,
/// and the value between quotes.  There is no value if the key does not
/// occur, or if what follows its first occurrence has another form.
pub open spec fn field_value(json: Seq<char>, field: Seq<char>) -> Option<Seq<char>> {
    let key = key_position(json, field, 0);
    let colon = skip_spaces(json, key + field.len() + 2);
    let open = skip_spaces(json, colon + 1);
    let close = next_quote(json, open + 1);
    if key >= json.len() {
        None
    } else if colon >= json.len() || json[colon] != ':' {
        None
    } else if open >= json.len() || json[open] != '"' {
        None
    } else if close >= json.len() {
        None
    } else {
        Some(json.subrange(open + 1, close))
    }
}

fn is_space_char(c: char) -> (yes: bool)
    ensures
        yes == is_space(c),
{
    c == ' ' || c == '\t' || c == '\n' || c == '\x0C' || c == '\r'
}

fn key_stands_at(json: &str, field: &str, i: usize, n: usize, m: usize) -> (yes: bool)
    requires
        n == json@.len(),
        m == field@.len(),
        i + m + 2 <= n,
    ensures
        yes == key_at(json@, field@, i as int),
{
    if json.get_char(i) != '"' || json.get_char(i + 1 + m) != '"' {
        return false;
    }
    let mut k: usize = 0;
    while k < m
        invariant
            k <= m,
            n == json@.len(),
            m == field@.len(),
            i + m + 2 <= n,
            forall|j: int| 0 <= j < k ==> json@[i + 1 + j] == field@[j],
        decreases m - k,
    {
        if json.get_char(i + 1 + k) != field.get_char(k) {
            assert(json@.subrange(i + 1, i + 1 + m)[k as int] != field@[k as int]);
            return false;
        }
        k = k + 1;
    }
    assert(json@.subrange(i + 1, i + 1 + m) =~= field@);
    true
}

fn find_key(json: &str, field: &str, n: usize, m: usize) -> (at: usize)
    requires
        n == json@.len(),
        m == field@.len(),
    ensures
        at == key_position(json@, field@, 0),
        at <= n,
        at < n ==> at + m + 2 <= n,
{
    if m > n || n - m < 2 {
        return n;
    }
    let last = n - m - 2;
    let mut i: usize = 0;
    while i <= last
        invariant
            i <= last + 1,
            last == n - m - 2,
            n == json@.len(),
            m == field@.len(),
            key_position(json@, field@, 0) == key_position(json@, field@, i as int),
        decreases last + 1 - i,
    {
        if key_stands_at(json, field, i, n, m) {
            return i;
        }
        i = i + 1;
    }
    n
}

fn skip_space_chars(json: &str, from: usize, n: usize) -> (at: usize)
    requires
        n == json@.len(),
    ensures
        at == skip_spaces(json@, from as int),
        at <= n,
        at < n ==> from <= at,
{
    if from >= n {
        return n;
    }
    let mut i = from;
    while i < n && is_space_char(json.get_char(i))
        invariant
            from <= i <= n,
            n == json@.len(),
            skip_spaces(json@, from as int) == skip_spaces(json@, i as int),
        decreases n - i,
    {
        i = i + 1;
    }
    i
}

fn find_quote(json: &str, from: usize, n: usize) -> (at: usize)
    requires
        n == json@.len(),
    ensures
        at == next_quote(json@, from as int),
        at <= n,
        at < n ==> from <= at,
{
    if from >= n {
        return n;
    }
    let mut i = from;
    while i < n && json.get_char(i) != '"'
        invariant
            from <= i <= n,
            n == json@.len(),
            next_quote(json@, from as int) == next_quote(json@, i as int),
        decreases n - i,
    {
        i = i + 1;
    }
    i
}

/// Extracts the string value of the key `field` from a flat JSON object.
/// Only the first occurrence of the key counts.
pub fn extract_str_field<'a>(json: &'a str, field: &str) -> (value: Option<&'a str>)
    ensures
        match value {
            Some(text) => field_value(json@, field@) == Some(text@),
            None => field_value(json@, field@) is None,
        },
{
    let n = json.unicode_len();
    let m = field.unicode_len();
    let key = find_key(json, field, n, m);
    if key >= n {
        return None;
    }
    let colon = skip_space_chars(json, key + m + 2, n);
    if colon >= n || json.get_char(colon) != ':' {
        return None;
    }
    let open = skip_space_chars(json, colon + 1, n);
    if open >= n || json.get_char(open) != '"' {
        return None;
    }
    let close = find_quote(json, open + 1, n);
    if close >= n {
        return None;
    }
    Some(json.substring_char(open + 1, close))
}

/// The value of a hexadecimal digit, in either case.
pub open spec fn hex_digit(c: char) -> Option<u8> {
    if '0' <= c && c <= '9' {
        Some((c as u32 - '0' as u32) as u8)
    } else if 'a' <= c && c <= 'f' {
        Some((c as u32 - 'a' as u32 + 10) as u8)
    } else if 'A' <= c && c <= 'F' {
        Some((c as u32 - 'A' as u32 + 10) as u8)
    } else {
        None
    }
}

/// The byte that two hexadecimal digits spell, the high one first; none if
/// either character is no hexadecimal digit.
pub open spec fn hex_pair(high: char, low: char) -> Option<u8> {
    match (hex_digit(high), hex_digit(low)) {
        (Some(h), Some(l)) => Some((16 * h + l) as u8),
        _ => None,
    }
}

/// The `n` bytes that `hex` spells, two characters to the byte; none if
/// `hex` has another length or holds a pair that spells no byte.
pub open spec fn hex_bytes(hex: Seq<char>, n: nat) -> Option<Seq<u8>> {
    if hex.len() == 2 * n && (forall|i: int|
        0 <= i < n ==> (#[trigger] hex_pair(hex[2 * i], hex[2 * i + 1])) is Some) {
        Some(Seq::new(n, |i: int| hex_pair(hex[2 * i], hex[2 * i + 1])->Some_0))
    } else {
        None
    }
}

fn hex_digit_value(c: char) -> (value: Option<u8>)
    ensures
        value == hex_digit(c),
{
    if '0' <= c && c <= '9' {
        Some((c as u32 - '0' as u32) as u8)
    } else if 'a' <= c && c <= 'f' {
        Some((c as u32 - 'a' as u32 + 10) as u8)
    } else if 'A' <= c && c <= 'F' {
        Some((c as u32 - 'A' as u32 + 10) as u8)
    } else {
        None
    }
}

fn hex_pair_value(high: char, low: char) -> (value: Option<u8>)
    ensures
        value == hex_pair(high, low),
{
    match (hex_digit_value(high), hex_digit_value(low)) {
        (Some(h), Some(l)) => Some(16 * h + l),
        _ => None,
    }
}

/// Decodes a string of hexadecimal digits into exactly `N` bytes.
pub fn hex_decode<const N: usize>(hex: &str) -> (bytes: Option<[u8; N]>)
    ensures
        match bytes {
            Some(array) => hex_bytes(hex@, N as nat) == Some(array@),
            None => hex_bytes(hex@, N as nat) is None,
        },
{
    let n = hex.unicode_len();
    if N > usize::MAX / 2 || n != N * 2 {
        return None;
    }
    let mut out = [0u8; N];
    let mut i: usize = 0;
    while i < N
        invariant
            i <= N,
            n == hex@.len(),
            n == N * 2,
            forall|j: int|
                0 <= j < i ==> (#[trigger] hex_pair(hex@[2 * j], hex@[2 * j + 1])) == Some(out@[j]),
        decreases N - i,
    {
        match hex_pair_value(hex.get_char(2 * i), hex.get_char(2 * i + 1)) {
            None => {
                assert(hex_pair(hex@[2 * (i as int)], hex@[2 * (i as int) + 1]) is None);
                return None;
            },
            Some(byte) => {
                out[i] = byte;
            },
        }
        i = i + 1;
    }
    assert(out@ =~= Seq::new(N as nat, |i: int| hex_pair(hex@[2 * i], hex@[2 * i + 1])->Some_0));
    Some(out)
}

/// The proof that a JSON object spells: each of the six fields must be there
/// and hold as many bytes as its point or input takes.
pub open spec fn parsed(json: Seq<char>) -> Option<GeneratedProof> {
    let a = decoded_field(json, "pi_a"@, 64);
    let b = decoded_field(json, "pi_b"@, 128);
    let c = decoded_field(json, "pi_c"@, 64);
    let commitment = decoded_field(json, "salary_commitment"@, 32);
    let nullifier = decoded_field(json, "payment_nullifier"@, 32);
    let recipient = decoded_field(json, "recipient_hash"@, 32);
    if a is Some && b is Some && c is Some && commitment is Some && nullifier is Some
        && recipient is Some {
        Some(
            GeneratedProof {
                pi_a: array_of::<64>(a->Some_0),
                pi_b: array_of::<128>(b->Some_0),
                pi_c: array_of::<64>(c->Some_0),
                salary_commitment: array_of::<32>(commitment->Some_0),
                payment_nullifier: array_of::<32>(nullifier->Some_0),
                recipient_hash: array_of::<32>(recipient->Some_0),
            },
        )
    } else {
        None
    }
}

/// The bytes that the value of `field` spells, if it is there and spells `n`
/// bytes.
pub open spec fn decoded_field(json: Seq<char>, field: Seq<char>, n: nat) -> Option<Seq<u8>> {
    match field_value(json, field) {
        None => None,
        Some(hex) => hex_bytes(hex, n),
    }
}

/// The array that holds `bytes`.
pub open spec fn array_of<const N: usize>(bytes: Seq<u8>) -> [u8; N] {
    choose|array: [u8; N]| array@ == bytes
}

fn decode_field<const N: usize>(json: &str, field: &str) -> (bytes: Option<[u8; N]>)
    ensures
        match bytes {
            Some(array) => decoded_field(json@, field@, N as nat) == Some(array@) && array
                == array_of::<N>(array@),
            None => decoded_field(json@, field@, N as nat) is None,
        },
{
    match extract_str_field(json, field) {
        None => None,
        Some(hex) => match hex_decode::<N>(hex) {
            None => None,
            Some(array) => {
                proof {
                    let chosen = array_of::<N>(array@);
                    assert(chosen@ == array@);
                    vstd::array::axiom_array_ext_equal(chosen, array);
                }
                Some(array)
            },
        },
    }
}

/// Parses the JSON object that a prover wrote.
pub fn parse_proof_bytes(json: &str) -> (proof: Option<GeneratedProof>)
    ensures
        proof == parsed(json@),
{
    let pi_a = decode_field::<64>(json, "pi_a");
    let pi_b = decode_field::<128>(json, "pi_b");
    let pi_c = decode_field::<64>(json, "pi_c");
    let salary_commitment = decode_field::<32>(json, "salary_commitment");
    let payment_nullifier = decode_field::<32>(json, "payment_nullifier");
    let recipient_hash = decode_field::<32>(json, "recipient_hash");
    match (pi_a, pi_b, pi_c, salary_commitment, payment_nullifier, recipient_hash) {
        (
            Some(pi_a),
            Some(pi_b),
            Some(pi_c),
            Some(salary_commitment),
            Some(payment_nullifier),
            Some(recipient_hash),
        ) => Some(
            GeneratedProof {
                pi_a,
                pi_b,
                pi_c,
                salary_commitment,
                payment_nullifier,
                recipient_hash,
            },
        ),
        _ => None,
    }
}

} // verus!
