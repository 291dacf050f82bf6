//! The freshness record that accompanies a replicated snapshot.
//!
//! A record is a compact text with named fields,
//! `{"timestamp":1700000000,"size":2048}`. A reader consumes the timestamp
//! only and looks for nothing behind it, so fields may be appended later.

use vstd::prelude::*;
use vstd::string::StringSliceAdditionalSpecFns;
use vstd::slice::slice_subrange;
use vstd::utf8::valid_utf8;
use vstd::utf8::{is_leading_byte_width_1, partial_valid_utf8, partial_valid_utf8_extend_ascii_block};
use crate::decimal::{
    all_digits, decimal_digits, is_digit, lemma_digits_denote, lemma_parse_digits, parse_decimal,
    parse_u64, push_decimal,
};

verus! {

/// Why a freshness record could not be read.
#[derive(Clone, Copy, Debug, PartialEq, Eq, Structural)]
pub enum MetadataFormatError {
    /// The record is not UTF-8 text.
    InvalidEncoding,
    /// The record has no `"timestamp":` field.
    MissingTimestamp,
    /// Neither `,` nor `}` follows the timestamp field.
    UnterminatedTimestamp,
    /// The timestamp is not an unsigned 64-bit decimal number.
    InvalidNumber,
}

/// When a snapshot was taken, in seconds since the epoch, and how many bytes
/// it has.
#[derive(Clone, Copy, Debug, PartialEq, Eq, Structural)]
pub struct FreshnessMetadata {
    pub timestamp: u64,
    pub size: u64,
}

/// The bytes of `"timestamp":`, quotes and colon included.
pub open spec fn timestamp_key() -> Seq<u8> {
    seq![34u8, 116, 105, 109, 101, 115, 116, 97, 109, 112, 34, 58]
}

/// The bytes of `,"size":`.
pub open spec fn size_key() -> Seq<u8> {
    seq![44u8, 34, 115, 105, 122, 101, 34, 58]
}

/// `pattern` stands in `text` at index `i`.
pub open spec fn occurs_at(text: Seq<u8>, pattern: Seq<u8>, i: int) -> bool {
    &&& 0 <= i
    &&& i + pattern.len() <= text.len()
    &&& text.subrange(i, i + pattern.len()) == pattern
}

/// `i` is the first index at which `pattern` stands in `text`.
pub open spec fn first_occurrence(text: Seq<u8>, pattern: Seq<u8>, i: int) -> bool {
    &&& occurs_at(text, pattern, i)
    &&& forall|j: int| 0 <= j < i ==> !occurs_at(text, pattern, j)
}

/// The first index at which `pattern` stands in `text`, if it stands anywhere.
pub open spec fn find(text: Seq<u8>, pattern: Seq<u8>) -> Option<int> {
    if exists|i: int| occurs_at(text, pattern, i) {
        Some(choose|i: int| first_occurrence(text, pattern, i))
    } else {
        None
    }
}

/// `b` ends a field's value: `,` or `}`.
pub open spec fn is_terminator(b: u8) -> bool {
    b == 44 || b == 125
}

/// `i` is the index of the first terminator in `text`.
pub open spec fn first_terminator_at(text: Seq<u8>, i: int) -> bool {
    &&& 0 <= i < text.len()
    &&& is_terminator(text[i])
    &&& forall|j: int| 0 <= j < i ==> !is_terminator(#[trigger] text[j])
}

/// The index of the first terminator in `text`, if it holds one.
pub open spec fn find_terminator(text: Seq<u8>) -> Option<int> {
    if exists|i: int| 0 <= i < text.len() && is_terminator(#[trigger] text[i]) {
        Some(choose|i: int| first_terminator_at(text, i))
    } else {
        None
    }
}

/// `b` is blank: a space, a tab, a line feed or a carriage return.
pub open spec fn is_blank(b: u8) -> bool {
    b == 32 || b == 9 || b == 10 || b == 13
}

/// `s` without the blanks that it starts with.
pub open spec fn trim_start(s: Seq<u8>) -> Seq<u8>
    decreases s.len(),
{
    if s.len() > 0 && is_blank(s[0]) {
        trim_start(s.drop_first())
    } else {
        s
    }
}

/// `s` without the blanks that it ends with.
pub open spec fn trim_end(s: Seq<u8>) -> Seq<u8>
    decreases s.len(),
{
    if s.len() > 0 && is_blank(s.last()) {
        trim_end(s.drop_last())
    } else {
        s
    }
}

/// `s` without the blanks on either side.
pub open spec fn trim(s: Seq<u8>) -> Seq<u8> {
    trim_end(trim_start(s))
}

/// The timestamp that a record's text carries.
///
/// The value starts behind the first `"timestamp":` and ends before the next
/// `,` or `}`. Blanks around it are ignored. What is left must be an unsigned
/// 64-bit decimal number.
pub open spec fn timestamp_of(text: Seq<u8>) -> Result<u64, MetadataFormatError> {
    match find(text, timestamp_key()) {
        None => Err(MetadataFormatError::MissingTimestamp),
        Some(at) => {
            let rest = text.subrange(at + timestamp_key().len(), text.len() as int);
            match find_terminator(rest) {
                None => Err(MetadataFormatError::UnterminatedTimestamp),
                Some(end) => match parse_u64(trim(rest.subrange(0, end))) {
                    Some(t) => Ok(t),
                    None => Err(MetadataFormatError::InvalidNumber),
                },
            }
        },
    }
}

/// The timestamp that a record's bytes carry: the bytes must be UTF-8 text,
/// and the text is read as `timestamp_of` says.
pub open spec fn decoded_timestamp(record: Seq<u8>) -> Result<u64, MetadataFormatError> {
    if valid_utf8(record) {
        timestamp_of(record)
    } else {
        Err(MetadataFormatError::InvalidEncoding)
    }
}

/// The text of a record: `{"timestamp":T,"size":N}` with both numbers in
/// their shortest decimal notation.
pub open spec fn encoded(m: FreshnessMetadata) -> Seq<u8> {
    seq![123u8] + timestamp_key() + decimal_digits(m.timestamp as nat) + size_key()
        + decimal_digits(m.size as nat) + seq![125u8]
}

/// An index that is a first occurrence is the one that `find` names.
pub proof fn lemma_find_first(text: Seq<u8>, pattern: Seq<u8>, i: int)
    requires
        first_occurrence(text, pattern, i),
    ensures
        find(text, pattern) == Some(i),
{
    let k = choose|k: int| first_occurrence(text, pattern, k);
    assert(first_occurrence(text, pattern, k));
    if k < i {
        assert(!occurs_at(text, pattern, k));
    }
    if i < k {
        assert(!occurs_at(text, pattern, i));
    }
}

/// Where `pattern` stands at `i`, some index is its first occurrence.
pub proof fn lemma_first_occurrence_exists(text: Seq<u8>, pattern: Seq<u8>, i: int)
    requires
        occurs_at(text, pattern, i),
    ensures
        exists|k: int| first_occurrence(text, pattern, k),
    decreases i,
{
    if forall|j: int| 0 <= j < i ==> !occurs_at(text, pattern, j) {
        assert(first_occurrence(text, pattern, i));
    } else {
        let j = choose|j: int| 0 <= j < i && occurs_at(text, pattern, j);
        lemma_first_occurrence_exists(text, pattern, j);
    }
}

/// The index that `find` names is a first occurrence.
pub proof fn lemma_find_some(text: Seq<u8>, pattern: Seq<u8>)
    ensures
        find(text, pattern) matches Some(i) ==> first_occurrence(text, pattern, i),
{
    if exists|i: int| occurs_at(text, pattern, i) {
        let i = choose|i: int| occurs_at(text, pattern, i);
        lemma_first_occurrence_exists(text, pattern, i);
    }
}

/// Where no index is an occurrence, `find` names none.
pub proof fn lemma_find_none(text: Seq<u8>, pattern: Seq<u8>)
    requires
        forall|j: int| 0 <= j ==> !occurs_at(text, pattern, j),
    ensures
        find(text, pattern) == None::<int>,
{
}

/// Where a terminator stands at `i`, some index is the first terminator.
pub proof fn lemma_first_terminator_exists(text: Seq<u8>, i: int)
    requires
        0 <= i < text.len(),
        is_terminator(text[i]),
    ensures
        exists|k: int| first_terminator_at(text, k),
    decreases i,
{
    if forall|j: int| 0 <= j < i ==> !is_terminator(#[trigger] text[j]) {
        assert(first_terminator_at(text, i));
    } else {
        let j = choose|j: int| 0 <= j < i && is_terminator(#[trigger] text[j]);
        lemma_first_terminator_exists(text, j);
    }
}

/// The index that `find_terminator` names is the first terminator.
pub proof fn lemma_find_terminator_some(text: Seq<u8>)
    ensures
        find_terminator(text) matches Some(i) ==> first_terminator_at(text, i),
{
    if exists|i: int| 0 <= i < text.len() && is_terminator(#[trigger] text[i]) {
        let i = choose|i: int| 0 <= i < text.len() && is_terminator(#[trigger] text[i]);
        lemma_first_terminator_exists(text, i);
    }
}

/// An index that is the first terminator is the one that `find_terminator`
/// names.
pub proof fn lemma_find_terminator_first(text: Seq<u8>, i: int)
    requires
        first_terminator_at(text, i),
    ensures
        find_terminator(text) == Some(i),
{
    let k = choose|k: int| first_terminator_at(text, k);
    assert(first_terminator_at(text, k));
    if k < i {
        assert(!is_terminator(text[k]));
    }
    if i < k {
        assert(!is_terminator(text[i]));
    }
}

/// `pattern` stands in `text` at index `at`.
fn stands_at(text: &[u8], pattern: &[u8], at: usize) -> (b: bool)
    requires
        at + pattern@.len() <= text@.len(),
    ensures
        b == occurs_at(text@, pattern@, at as int),
{
    let n: usize = text.len();
    let m: usize = pattern.len();
    let mut k: usize = 0;
    while k < m
        invariant
            k <= m,
            m == pattern@.len(),
            n == text@.len(),
            at + m <= n,
            forall|j: int| 0 <= j < k ==> text@[at + j] == pattern@[j],
        decreases m - k,
    {
        if text[at + k] != pattern[k] {
            proof {
                let window = text@.subrange(at as int, at + m);
                assert(window[k as int] == text@[at + k]);
            }
            return false;
        }
        k += 1;
    }
    assert(text@.subrange(at as int, at + m) =~= pattern@);
    true
}

/// The first index at which `pattern` stands in `text`.
pub fn find_pattern(text: &[u8], pattern: &[u8]) -> (r: Option<usize>)
    ensures
        match r {
            Some(i) => find(text@, pattern@) == Some(i as int),
            None => find(text@, pattern@) == None::<int>,
        },
{
    let n: usize = text.len();
    let m: usize = pattern.len();
    if m > n {
        proof {
            lemma_find_none(text@, pattern@);
        }
        return None;
    }
    let last: usize = n - m;
    let mut i: usize = 0;
    loop
        invariant
            n == text@.len(),
            m == pattern@.len(),
            last == n - m,
            i <= last,
            forall|j: int| 0 <= j < i ==> !occurs_at(text@, pattern@, j),
        ensures
            forall|j: int| 0 <= j <= last ==> !occurs_at(text@, pattern@, j),
        decreases last - i,
    {
        if stands_at(text, pattern, i) {
            proof {
                lemma_find_first(text@, pattern@, i as int);
            }
            return Some(i);
        }
        if i == last {
            break;
        }
        i += 1;
    }
    proof {
        lemma_find_none(text@, pattern@);
    }
    None
}

/// The index of the first `,` or `}` in `text`.
pub fn find_value_end(text: &[u8]) -> (r: Option<usize>)
    ensures
        match r {
            Some(i) => find_terminator(text@) == Some(i as int),
            None => find_terminator(text@) == None::<int>,
        },
{
    let n: usize = text.len();
    let mut i: usize = 0;
    while i < n
        invariant
            n == text@.len(),
            i <= n,
            forall|j: int| 0 <= j < i ==> !is_terminator(#[trigger] text@[j]),
        decreases n - i,
    {
        let b: u8 = text[i];
        if b == 44 || b == 125 {
            proof {
                lemma_find_terminator_first(text@, i as int);
            }
            return Some(i);
        }
        i += 1;
    }
    None
}

/// `b` is blank.
fn blank(b: u8) -> (r: bool)
    ensures
        r == is_blank(b),
{
    b == 32 || b == 9 || b == 10 || b == 13
}

/// `text` without the blanks on either side.
pub fn trim_blanks(text: &[u8]) -> (r: &[u8])
    ensures
        r@ == trim(text@),
{
    let n: usize = text.len();
    let mut lo: usize = 0;
    assert(text@.subrange(0, n as int) =~= text@);
    while lo < n && blank(text[lo])
        invariant
            n == text@.len(),
            lo <= n,
            trim_start(text@) == trim_start(text@.subrange(lo as int, n as int)),
        decreases n - lo,
    {
        assert(text@.subrange(lo as int, n as int).drop_first() =~= text@.subrange(
            lo + 1,
            n as int,
        ));
        lo += 1;
    }
    let ghost head = text@.subrange(lo as int, n as int);
    assert(trim_start(text@) == head);
    let mut hi: usize = n;
    while hi > lo && blank(text[hi - 1])
        invariant
            n == text@.len(),
            lo <= hi <= n,
            trim_end(head) == trim_end(text@.subrange(lo as int, hi as int)),
            head == text@.subrange(lo as int, n as int),
        decreases hi - lo,
    {
        assert(text@.subrange(lo as int, hi as int).drop_last() =~= text@.subrange(
            lo as int,
            hi - 1,
        ));
        hi -= 1;
    }
    slice_subrange(text, lo, hi)
}

/// Reads the timestamp out of a record's bytes, taken as text.
pub fn timestamp_in(text: &[u8]) -> (r: Result<u64, MetadataFormatError>)
    ensures
        r == timestamp_of(text@),
{
    let key: Vec<u8> = vec![34u8, 116, 105, 109, 101, 115, 116, 97, 109, 112, 34, 58];
    assert(key@ =~= timestamp_key());
    let at: usize = match find_pattern(text, key.as_slice()) {
        Some(at) => at,
        None => {
            return Err(MetadataFormatError::MissingTimestamp);
        },
    };
    let n: usize = text.len();
    proof {
        lemma_find_some(text@, timestamp_key());
        assert(occurs_at(text@, timestamp_key(), at as int));
    }
    let rest: &[u8] = slice_subrange(text, at + key.len(), n);
    let end: usize = match find_value_end(rest) {
        Some(end) => end,
        None => {
            return Err(MetadataFormatError::UnterminatedTimestamp);
        },
    };
    proof {
        lemma_find_terminator_some(rest@);
    }
    let value: &[u8] = trim_blanks(slice_subrange(rest, 0, end));
    match parse_decimal(value) {
        Some(t) => Ok(t),
        None => Err(MetadataFormatError::InvalidNumber),
    }
}

/// Reads the timestamp out of a record's text.
pub fn extract_timestamp_from_json(json_str: &str) -> (r: Result<u64, MetadataFormatError>)
    ensures
        r == timestamp_of(json_str.spec_bytes()),
{
    timestamp_in(json_str.as_bytes())
}

/// `core::str::from_utf8` of the standard library: it accepts exactly the
/// byte strings that are well-formed UTF-8, and the text it returns consists
/// of the bytes it was given.
#[verifier::external_body]
fn utf8_text<'a>(bytes: &'a [u8]) -> (r: Option<&'a str>)
    ensures
        r is Some <==> valid_utf8(bytes@),
        r matches Some(text) ==> text.spec_bytes() == bytes@,
{
    match core::str::from_utf8(bytes) {
        Ok(text) => Some(text),
        Err(_) => None,
    }
}

/// Reads the timestamp out of a record as it comes from the store.
pub fn decode_timestamp(record: &[u8]) -> (r: Result<u64, MetadataFormatError>)
    ensures
        r == decoded_timestamp(record@),
{
    match utf8_text(record) {
        Some(text) => extract_timestamp_from_json(text),
        None => Err(MetadataFormatError::InvalidEncoding),
    }
}

impl FreshnessMetadata {
    /// The record's text.
    pub fn encode(&self) -> (out: Vec<u8>)
        ensures
            out@ == encoded(*self),
    {
        let mut out: Vec<u8> = vec![123u8, 34u8, 116, 105, 109, 101, 115, 116, 97, 109, 112, 34, 58];
        assert(out@ =~= seq![123u8] + timestamp_key());
        push_decimal(&mut out, self.timestamp);
        let size_field: Vec<u8> = vec![44u8, 34, 115, 105, 122, 101, 34, 58];
        assert(size_field@ =~= size_key());
        out.extend_from_slice(size_field.as_slice());
        push_decimal(&mut out, self.size);
        out.push(125u8);
        assert(out@ =~= encoded(*self));
        out
    }
}

/// A byte string without a byte above 127 is UTF-8 text.
pub proof fn lemma_ascii_is_utf8(bytes: Seq<u8>)
    requires
        is_ascii_bytes(bytes),
    ensures
        valid_utf8(bytes),
{
    assert(bytes.subrange(0, 0) =~= Seq::<u8>::empty());
    assert(partial_valid_utf8(bytes, 0));
    assert forall|i: int| 0 <= i < bytes.len() implies #[trigger] is_leading_byte_width_1(
        bytes[i],
    ) by {}
    partial_valid_utf8_extend_ascii_block(bytes, 0, bytes.len() as int);
    assert(bytes.subrange(0, bytes.len() as int) =~= bytes);
}

/// A run of digits that is not empty has no blank on either side.
pub proof fn lemma_trim_digits(digits: Seq<u8>)
    requires
        digits.len() > 0,
        all_digits(digits),
    ensures
        trim(digits) == digits,
{
    assert(is_digit(digits[0]));
    assert(is_digit(digits.last()));
}

/// Where the first `"timestamp":` stands at `at` and the first terminator
/// behind it at `end`, the record carries what the text between them
/// denotes, blanks aside.
pub proof fn lemma_timestamp_between(text: Seq<u8>, at: int, end: int)
    requires
        first_occurrence(text, timestamp_key(), at),
        first_terminator_at(text.subrange(at + timestamp_key().len(), text.len() as int), end),
    ensures
        timestamp_of(text) == match parse_u64(
            trim(text.subrange(at + timestamp_key().len(), at + timestamp_key().len() + end)),
        ) {
            Some(t) => Ok::<u64, MetadataFormatError>(t),
            None => Err(MetadataFormatError::InvalidNumber),
        },
{
    let rest = text.subrange(at + timestamp_key().len(), text.len() as int);
    lemma_find_first(text, timestamp_key(), at);
    lemma_find_terminator_first(rest, end);
    assert(rest.subrange(0, end) =~= text.subrange(
        at + timestamp_key().len(),
        at + timestamp_key().len() + end,
    ));
}

/// A record stays readable whatever is appended behind its timestamp field:
/// a text that opens with `{"timestamp":`, the shortest notation of `t` and
/// a comma carries the timestamp `t`, whatever follows.
pub proof fn law_timestamp_ignores_later_fields(t: u64, later: Seq<u8>)
    ensures
        timestamp_of(seq![123u8] + timestamp_key() + decimal_digits(t as nat) + seq![44u8] + later)
            == Ok::<u64, MetadataFormatError>(t),
{
    let key = timestamp_key();
    let digits = decimal_digits(t as nat);
    let text = seq![123u8] + key + digits + seq![44u8] + later;
    lemma_digits_denote(t as nat);
    lemma_parse_digits(t);
    assert(text.subrange(1, 1 + key.len() as int) =~= key);
    assert(!occurs_at(text, key, 0)) by {
        assert(text.subrange(0, key.len() as int)[0] == 123u8);
        assert(key[0] == 34u8);
    }
    let rest = text.subrange(1 + key.len() as int, text.len() as int);
    assert(rest =~= digits + seq![44u8] + later);
    let d = digits.len() as int;
    assert(rest[d] == 44u8);
    assert forall|j: int| 0 <= j < d implies !is_terminator(#[trigger] rest[j]) by {
        assert(rest[j] == digits[j]);
        assert(is_digit(digits[j]));
    }
    lemma_timestamp_between(text, 1, d);
    assert(text.subrange(1 + key.len() as int, 1 + key.len() as int + d) =~= digits);
    lemma_trim_digits(digits);
}

/// No byte of `s` is above 127.
pub open spec fn is_ascii_bytes(s: Seq<u8>) -> bool {
    forall|i: int| 0 <= i < s.len() ==> #[trigger] s[i] <= 127
}

/// Two byte strings without a byte above 127 make one when joined.
pub proof fn lemma_ascii_join(a: Seq<u8>, b: Seq<u8>)
    requires
        is_ascii_bytes(a),
        is_ascii_bytes(b),
    ensures
        is_ascii_bytes(a + b),
{
    assert forall|i: int| 0 <= i < (a + b).len() implies #[trigger] (a + b)[i] <= 127 by {
        if i < a.len() {
            assert((a + b)[i] == a[i]);
        } else {
            assert((a + b)[i] == b[i - a.len()]);
        }
    }
}

/// The notation of a number has no byte above 127.
pub proof fn lemma_digits_ascii(n: nat)
    ensures
        is_ascii_bytes(decimal_digits(n)),
{
    lemma_digits_denote(n);
    let s = decimal_digits(n);
    assert forall|i: int| 0 <= i < s.len() implies #[trigger] s[i] <= 127 by {
        assert(is_digit(s[i]));
    }
}

/// The text of a record is UTF-8.
pub proof fn lemma_encoded_is_utf8(m: FreshnessMetadata)
    ensures
        valid_utf8(encoded(m)),
{
    let open = seq![123u8];
    let stamp = decimal_digits(m.timestamp as nat);
    let size = decimal_digits(m.size as nat);
    let close = seq![125u8];
    lemma_digits_ascii(m.timestamp as nat);
    lemma_digits_ascii(m.size as nat);
    assert(is_ascii_bytes(open));
    assert(is_ascii_bytes(close));
    assert(is_ascii_bytes(timestamp_key()));
    assert(is_ascii_bytes(size_key()));
    lemma_ascii_join(open, timestamp_key());
    lemma_ascii_join(open + timestamp_key(), stamp);
    lemma_ascii_join(open + timestamp_key() + stamp, size_key());
    lemma_ascii_join(open + timestamp_key() + stamp + size_key(), size);
    lemma_ascii_join(open + timestamp_key() + stamp + size_key() + size, close);
    lemma_ascii_is_utf8(encoded(m));
}

/// What `encode` writes, `decode_timestamp` reads: the text of a record is
/// UTF-8 and carries the record's timestamp.
pub proof fn law_encoded_timestamp_is_decoded(m: FreshnessMetadata)
    ensures
        timestamp_of(encoded(m)) == Ok::<u64, MetadataFormatError>(m.timestamp),
        decoded_timestamp(encoded(m)) == Ok::<u64, MetadataFormatError>(m.timestamp),
{
    let stamp = decimal_digits(m.timestamp as nat);
    let size = decimal_digits(m.size as nat);
    let later = size_key().subrange(1, 8) + size + seq![125u8];
    assert(seq![44u8] + size_key().subrange(1, 8) =~= size_key());
    assert(encoded(m) =~= seq![123u8] + timestamp_key() + stamp + seq![44u8] + later);
    law_timestamp_ignores_later_fields(m.timestamp, later);
    lemma_encoded_is_utf8(m);
}

} // verus!
