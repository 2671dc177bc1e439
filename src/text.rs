//! Text as the foreign process stores it: small-string-optimised records
//! in code page 437, and the word-wise casing used for display names.

use vstd::prelude::*;
use crate::memory::{ProcessMemory, POINTER_SIZE};
use codepage_437::{FromCp437, CP437_CONTROL};

verus! {

/// Size of the inline character buffer of a foreign string.
pub const STRING_BUFFER_LENGTH: u64 = 16;

/// Longest foreign string that is read; a longer length is a corrupt record.
pub const MAX_STRING_LENGTH: u64 = 1024;

/// The character that code page 437 gives to a byte.
pub uninterp spec fn cp437_char(b: u8) -> char;

/// What `char::to_uppercase` makes of a character.
pub uninterp spec fn upper_of(c: char) -> Seq<char>;

/// What `str::to_lowercase` makes of a string.
pub uninterp spec fn lower_of(s: Seq<char>) -> Seq<char>;

pub open spec fn cp437_text(b: Seq<u8>) -> Seq<char> {
    Seq::new(b.len(), |i: int| cp437_char(b[i]))
}

/// Relies on codepage_437's `String::from_cp437` with the control-character
/// dialect: one character per byte, each the dialect's image of the byte;
/// that dialect maps every byte below 0x80 to the same code point.
#[verifier::external_body]
fn decode_cp437(b: Vec<u8>) -> (r: String)
    ensures
        r@.len() == b@.len(),
        forall|i: int| 0 <= i < b@.len() ==> r@[i] == cp437_char(b@[i]),
        forall|i: int| 0 <= i < b@.len() && b@[i] < 0x80 ==> r@[i] == (b@[i] as char),
{
    String::from_cp437(b, &CP437_CONTROL)
}

/// Relies on `char::to_uppercase`, collected into a string.
#[verifier::external_body]
fn upper_char(c: char) -> (r: String)
    ensures
        r@ == upper_of(c),
{
    c.to_uppercase().collect::<String>()
}

/// Relies on `str::to_lowercase`.
#[verifier::external_body]
pub(crate) fn lowercase(s: &str) -> (r: String)
    ensures
        r@ == lower_of(s@),
{
    s.to_lowercase()
}

/// Relies on `String::push`: appends one character.
#[verifier::external_body]
pub(crate) fn push_char(s: &mut String, c: char)
    ensures
        final(s)@ == old(s)@.push(c),
{
    s.push(c)
}

/// Where the characters of the string whose record is at `a` live: inline,
/// or behind the pointer at `a` when the capacity exceeds the inline buffer.
pub open spec fn string_data_addr(mem: &ProcessMemory, a: int) -> int {
    let cap = mem.i32_at(a + STRING_BUFFER_LENGTH + POINTER_SIZE);
    if cap < 0 || cap > STRING_BUFFER_LENGTH {
        mem.u64_at(a)
    } else {
        a
    }
}

/// The raw bytes of the string whose record is at `a`; empty when the
/// length field is negative or above the ceiling.
pub open spec fn string_bytes(mem: &ProcessMemory, a: int) -> Seq<u8> {
    let len = mem.i32_at(a + STRING_BUFFER_LENGTH);
    if len < 0 || len > MAX_STRING_LENGTH {
        Seq::empty()
    } else {
        mem.bytes(string_data_addr(mem, a), len)
    }
}

pub open spec fn string_at(mem: &ProcessMemory, a: int) -> Seq<char> {
    cp437_text(string_bytes(mem, a))
}

/// Reads the foreign string whose record is at `base + off`.
pub fn read_string(mem: &ProcessMemory, base: u64, off: u64) -> (r: String)
    ensures
        r@ == string_at(mem, base + off),
{
    let a = match base.checked_add(off) {
        Some(a) => a,
        None => {
            proof {
                mem.lemma_high_zero(base + off + STRING_BUFFER_LENGTH, 4);
                assert(string_bytes(mem, base + off) =~= Seq::<u8>::empty());
                assert(string_at(mem, base + off) =~= Seq::<char>::empty());
            }
            return String::new();
        },
    };
    let len = mem.read_i32(a, STRING_BUFFER_LENGTH);
    if len < 0 || len as u64 > MAX_STRING_LENGTH {
        assert(string_at(mem, base + off) =~= Seq::<char>::empty());
        return String::new();
    }
    let cap = mem.read_i32(a, STRING_BUFFER_LENGTH + POINTER_SIZE);
    let data = if cap < 0 || cap as u64 > STRING_BUFFER_LENGTH {
        mem.read_u64(a, 0)
    } else {
        a
    };
    let raw = mem.read_bytes(data, 0, len as u64);
    let r = decode_cp437(raw);
    assert(r@ =~= string_at(mem, base + off));
    r
}

/// A string whose capacity fits the inline buffer is read from the record
/// itself, a larger one through the pointer at the record's start, and one
/// whose length is above the ceiling reads as empty.
pub proof fn lemma_string_source(mem: &ProcessMemory, a: int)
    ensures
        ({
            let len = mem.i32_at(a + STRING_BUFFER_LENGTH);
            let cap = mem.i32_at(a + STRING_BUFFER_LENGTH + POINTER_SIZE);
            &&& (0 <= len <= MAX_STRING_LENGTH && 0 <= cap <= STRING_BUFFER_LENGTH ==> string_bytes(mem, a) == mem.bytes(a, len))
            &&& (0 <= len <= MAX_STRING_LENGTH && cap > STRING_BUFFER_LENGTH ==> string_bytes(mem, a) == mem.bytes(mem.u64_at(a), len))
            &&& (len > MAX_STRING_LENGTH || len < 0 ==> string_at(mem, a).len() == 0)
            &&& string_at(mem, a).len() == string_bytes(mem, a).len()
        }),
{
}

/// The characters that Unicode marks White_Space, on which names split
/// into words.
pub open spec fn is_space(c: char) -> bool {
    let v = c as u32;
    (9 <= v && v <= 13) || v == 32 || v == 0x85 || v == 0xA0 || v == 0x1680 || (0x2000 <= v && v
        <= 0x200A) || v == 0x2028 || v == 0x2029 || v == 0x202F || v == 0x205F || v == 0x3000
}

pub fn is_space_char(c: char) -> (r: bool)
    ensures
        r == is_space(c),
{
    let v = c as u32;
    (9 <= v && v <= 13) || v == 32 || v == 0x85 || v == 0xA0 || v == 0x1680 || (0x2000 <= v && v
        <= 0x200A) || v == 0x2028 || v == 0x2029 || v == 0x202F || v == 0x205F || v == 0x3000
}

/// Scans `s` word by word: the text written so far, whether the scan
/// stands between words, and whether a word has been written.
pub open spec fn caps_state(s: Seq<char>) -> (Seq<char>, bool, bool)
    decreases s.len(),
{
    if s.len() == 0 {
        (Seq::empty(), true, false)
    } else {
        let prev = caps_state(s.drop_last());
        let c = s.last();
        if is_space(c) {
            (prev.0, true, prev.2)
        } else if prev.1 {
            (
                if prev.2 {
                    prev.0.push(' ')
                } else {
                    prev.0
                } + upper_of(c),
                false,
                true,
            )
        } else {
            (prev.0.push(c), false, prev.2)
        }
    }
}

/// The words of `s`, each with its first character upper-cased, joined by
/// single spaces.
pub open spec fn capitalized(s: Seq<char>) -> Seq<char> {
    caps_state(s).0
}

/// Upper-cases the first character of each whitespace-separated word and
/// joins the words with single spaces.
pub fn capitalize_each(input: &str) -> (r: String)
    ensures
        r@ == capitalized(input@),
{
    let n = input.unicode_len();
    let mut out = String::new();
    let mut between = true;
    let mut any = false;
    let mut i: usize = 0;
    assert(input@.subrange(0, 0) =~= Seq::<char>::empty());
    while i < n
        invariant
            i <= n == input@.len(),
            caps_state(input@.subrange(0, i as int)) == (out@, between, any),
        decreases n - i,
    {
        let c = input.get_char(i);
        proof {
            let p = input@.subrange(0, i as int + 1);
            assert(p.drop_last() =~= input@.subrange(0, i as int));
            assert(p.last() == c);
        }
        if is_space_char(c) {
            between = true;
        } else if between {
            if any {
                push_char(&mut out, ' ');
            }
            let u = upper_char(c);
            out.append(u.as_str());
            between = false;
            any = true;
        } else {
            push_char(&mut out, c);
        }
        i = i + 1;
    }
    assert(input@.subrange(0, n as int) =~= input@);
    out
}

/// Whether `needle` occurs in `hay` as a contiguous run.
pub open spec fn has_run(hay: Seq<char>, needle: Seq<char>) -> bool {
    exists|i: int|
        0 <= i && i + needle.len() <= hay.len() && #[trigger] hay.subrange(i, i + needle.len())
            == needle
}

pub fn chars_of(s: &str) -> (r: Vec<char>)
    ensures
        r@ == s@,
{
    let n = s.unicode_len();
    let mut out: Vec<char> = Vec::new();
    let mut i: usize = 0;
    while i < n
        invariant
            i <= n == s@.len(),
            out@ == s@.subrange(0, i as int),
        decreases n - i,
    {
        out.push(s.get_char(i));
        i = i + 1;
        assert(out@ =~= s@.subrange(0, i as int));
    }
    assert(s@.subrange(0, n as int) =~= s@);
    out
}

fn run_at(hay: &Vec<char>, needle: &Vec<char>, i: usize) -> (r: bool)
    requires
        i + needle@.len() <= hay@.len(),
    ensures
        r == (hay@.subrange(i as int, i + needle@.len()) == needle@),
{
    let hl = hay.len();
    let mut k: usize = 0;
    while k < needle.len()
        invariant
            i + needle@.len() <= hay@.len(),
            hl == hay@.len(),
            k <= needle@.len(),
            forall|j: int| 0 <= j < k ==> hay@[i + j] == needle@[j],
        decreases needle@.len() - k,
    {
        if hay[i + k] != needle[k] {
            assert(hay@.subrange(i as int, i + needle@.len())[k as int] != needle@[k as int]);
            return false;
        }
        k = k + 1;
    }
    assert(hay@.subrange(i as int, i + needle@.len()) =~= needle@);
    true
}

/// Whether `needle` occurs in `hay`.
pub fn contains_str(hay: &str, needle: &str) -> (r: bool)
    ensures
        r == has_run(hay@, needle@),
{
    let h = chars_of(hay);
    let nd = chars_of(needle);
    if nd.len() > h.len() {
        return false;
    }
    let last = h.len() - nd.len();
    let mut i: usize = 0;
    loop
        invariant
            i <= last,
            last + nd@.len() == h@.len(),
            h@ == hay@,
            nd@ == needle@,
            forall|j: int| 0 <= j < i ==> #[trigger] h@.subrange(j, j + nd@.len()) != nd@,
        decreases last - i,
    {
        if run_at(&h, &nd, i) {
            return true;
        }
        if i == last {
            return false;
        }
        i = i + 1;
    }
}

} // verus!
