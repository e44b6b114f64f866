//! Fingerprints of queries and of query responses.

use super::{Query, QueryResponse};
use vstd::prelude::*;
use vstd::slice::slice_to_vec;
use vstd::utf8::encode_utf8;

verus! {

/// The BLAKE3 digest of a byte sequence.
pub uninterp spec fn blake3_of(input: Seq<u8>) -> Seq<u8>;

/// Relies on blake3::hash: the 32-byte BLAKE3 digest of `input`, which
/// depends on the bytes alone.
#[verifier::external_body]
fn blake3_digest(input: &[u8]) -> (r: [u8; 32])
    ensures
        r@ == blake3_of(input@),
{
    *blake3::hash(input).as_bytes()
}

/// A 256-bit fingerprint.
#[derive(Clone, Copy, Debug, Hash, PartialEq, Eq)]
pub struct Uid {
    pub bytes: [u8; 32],
}

impl View for Uid {
    type V = Seq<u8>;

    open spec fn view(&self) -> Seq<u8> {
        self.bytes@
    }
}

/// The lowercase hexadecimal digit of `n < 16`.
pub open spec fn hex_digit(n: u8) -> char {
    if n < 10 {
        (('0' as u8) + n) as char
    } else {
        (('a' as u8) + n - 10) as char
    }
}

/// Lowercase hexadecimal text of `b`, two digits per byte, high nibble first.
pub open spec fn hex_of(b: Seq<u8>) -> Seq<char>
    decreases b.len(),
{
    if b.len() == 0 {
        seq![]
    } else {
        hex_of(b.drop_last()) + seq![hex_digit(b.last() / 16), hex_digit(b.last() % 16)]
    }
}

fn hex_digit_exec(n: u8) -> (c: char)
    requires
        n < 16,
    ensures
        c == hex_digit(n),
{
    if n < 10 {
        ('0' as u8 + n) as char
    } else {
        ('a' as u8 + n - 10) as char
    }
}


/// Relies on String::push: appends one character.
#[verifier::external_body]
pub(crate) fn push_char(s: &mut String, c: char)
    ensures
        final(s)@ == old(s)@.push(c),
{
    s.push(c)
}

impl Uid {
    /// The lowercase hexadecimal form of the fingerprint (64 characters).
    pub fn to_hex(&self) -> (r: String)
        ensures
            r@ == hex_of(self@),
            r@.len() == 64,
    {
        let mut out = String::new();
        let mut i: usize = 0;
        while i < 32
            invariant
                i <= 32,
                out@ == hex_of(self@.subrange(0, i as int)),
            decreases 32 - i,
        {
            let b = self.bytes[i];
            push_char(&mut out, hex_digit_exec(b / 16));
            push_char(&mut out, hex_digit_exec(b % 16));
            proof {
                let pre = self@.subrange(0, i as int + 1);
                assert(pre.drop_last() =~= self@.subrange(0, i as int));
                assert(pre.last() == b);
            }
            i = i + 1;
        }
        proof {
            assert(self@.subrange(0, 32) =~= self@);
            lemma_hex_len(self@);
        }
        out
    }
}

/// Hexadecimal text has two characters per byte.
pub proof fn lemma_hex_len(b: Seq<u8>)
    ensures
        hex_of(b).len() == 2 * b.len(),
    decreases b.len(),
{
    if b.len() > 0 {
        lemma_hex_len(b.drop_last());
    }
}

/// Different byte sequences have different hexadecimal text.
pub proof fn lemma_hex_injective(a: Seq<u8>, b: Seq<u8>)
    requires
        hex_of(a) == hex_of(b),
    ensures
        a == b,
    decreases a.len(),
{
    lemma_hex_len(a);
    lemma_hex_len(b);
    if a.len() > 0 {
        let n = hex_of(a).len();
        let x = a.last();
        let y = b.last();
        assert(hex_of(a)[n - 2] == hex_digit(x / 16));
        assert(hex_of(b)[n - 2] == hex_digit(y / 16));
        assert(hex_of(a)[n - 1] == hex_digit(x % 16));
        assert(hex_of(b)[n - 1] == hex_digit(y % 16));
        lemma_hex_digit_injective(x / 16, y / 16);
        lemma_hex_digit_injective(x % 16, y % 16);
        assert(hex_of(a.drop_last()) =~= hex_of(a).subrange(0, n - 2));
        assert(hex_of(b.drop_last()) =~= hex_of(b).subrange(0, n - 2));
        lemma_hex_injective(a.drop_last(), b.drop_last());
        assert(x == 16 * (x / 16) + x % 16);
        assert(y == 16 * (y / 16) + y % 16);
        assert(a =~= a.drop_last().push(x));
        assert(b =~= b.drop_last().push(y));
    } else {
        assert(a =~= b);
    }
}

proof fn lemma_hex_digit_injective(m: u8, n: u8)
    requires
        m < 16,
        n < 16,
        hex_digit(m) == hex_digit(n),
    ensures
        m == n,
{
}

/// The bytes hashed for a query: the migration, a zero byte, then the statement.
pub open spec fn query_digest_input(initial_sql: Seq<char>, query: Seq<char>) -> Seq<u8> {
    encode_utf8(initial_sql) + seq![0u8] + encode_utf8(query)
}

/// The `Debug` text of a list of column names.
pub uninterp spec fn header_debug_text(h: Seq<Seq<char>>) -> Seq<char>;

/// The `Debug` text of a list of rows of optional cells.
pub uninterp spec fn rows_debug_text(r: Seq<Seq<Option<Seq<char>>>>) -> Seq<char>;

/// Relies on the standard `Debug` formatting of `Vec<String>`, whose text
/// depends on the strings alone.
#[verifier::external_body]
fn debug_header(h: &Vec<String>) -> (r: String)
    ensures
        r@ == header_debug_text(h.deep_view()),
{
    format!("{:?}", h)
}

/// Relies on the standard `Debug` formatting of `Vec<Vec<Option<String>>>`,
/// whose text depends on the cells alone.
#[verifier::external_body]
fn debug_rows(r: &Vec<Vec<Option<String>>>) -> (s: String)
    ensures
        s@ == rows_debug_text(r.deep_view()),
{
    format!("{:?}", r)
}

/// The bytes hashed for a response: the `Debug` text of the header, a zero
/// byte, then the `Debug` text of the rows.
pub open spec fn response_digest_input(
    header: Seq<Seq<char>>,
    rows: Seq<Seq<Option<Seq<char>>>>,
) -> Seq<u8> {
    encode_utf8(header_debug_text(header)) + seq![0u8] + encode_utf8(rows_debug_text(rows))
}

/// The fingerprint of a query, from its migration and its statement text.
pub open spec fn query_uid_of(initial_sql: Seq<char>, query: Seq<char>) -> Seq<u8> {
    blake3_of(query_digest_input(initial_sql, query))
}

/// The fingerprint of a response, from its header and its rows.
pub open spec fn response_uid_of(
    header: Seq<Seq<char>>,
    rows: Seq<Seq<Option<Seq<char>>>>,
) -> Seq<u8> {
    blake3_of(response_digest_input(header, rows))
}

fn digest_of_pair(left: &str, right: &str) -> (r: Uid)
    ensures
        r@ == blake3_of(encode_utf8(left@) + seq![0u8] + encode_utf8(right@)),
{
    let mut input = slice_to_vec(left.as_bytes());
    input.push(0u8);
    let mut tail = slice_to_vec(right.as_bytes());
    input.append(&mut tail);
    assert(input@ =~= encode_utf8(left@) + seq![0u8] + encode_utf8(right@));
    Uid { bytes: blake3_digest(input.as_slice()) }
}

/// Something that has a content fingerprint, used as a cache key.
pub trait UidGetter {
    /// The fingerprint's bytes.
    spec fn uid_spec(&self) -> Seq<u8>;

    /// Get the UID of this value (for caching).
    fn get_uid(&self) -> (r: Uid)
        ensures
            r@ == self.uid_spec(),
    ;
}

impl UidGetter for Query {
    open spec fn uid_spec(&self) -> Seq<u8> {
        query_uid_of(self.initial_sql@, self.query@)
    }

    /// The fingerprint of the migration and the statement, separated by a
    /// zero byte. Format the statement first so that equivalent queries agree.
    fn get_uid(&self) -> (r: Uid) {
        digest_of_pair(self.initial_sql.as_str(), self.query.as_str())
    }
}

impl UidGetter for QueryResponse {
    open spec fn uid_spec(&self) -> Seq<u8> {
        response_uid_of(self.header.deep_view(), self.rows.deep_view())
    }

    /// The fingerprint of the header's and the rows' text, separated by a
    /// zero byte.
    fn get_uid(&self) -> (r: Uid) {
        let h = debug_header(&self.header);
        let rows = debug_rows(&self.rows);
        digest_of_pair(h.as_str(), rows.as_str())
    }
}

} // verus!
