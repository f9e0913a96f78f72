//! Names of cached downloads: a file is named after the SHA-256 digest of the
//! locator it was fetched from, with an extension taken from the locator.

use sha2::{Digest, Sha256};
use vstd::prelude::*;
use vstd::string::*;
use vstd::utf8::encode_utf8;

verus! {

/// The SHA-256 digest of `data`.
pub uninterp spec fn spec_sha256(data: Seq<u8>) -> Seq<u8>;

/// The character of a hexadecimal digit, in lower case.
pub open spec fn spec_hex_digit(nibble: int) -> char {
    if nibble == 0 {
        '0'
    } else if nibble == 1 {
        '1'
    } else if nibble == 2 {
        '2'
    } else if nibble == 3 {
        '3'
    } else if nibble == 4 {
        '4'
    } else if nibble == 5 {
        '5'
    } else if nibble == 6 {
        '6'
    } else if nibble == 7 {
        '7'
    } else if nibble == 8 {
        '8'
    } else if nibble == 9 {
        '9'
    } else if nibble == 10 {
        'a'
    } else if nibble == 11 {
        'b'
    } else if nibble == 12 {
        'c'
    } else if nibble == 13 {
        'd'
    } else if nibble == 14 {
        'e'
    } else {
        'f'
    }
}

/// `bytes` in hexadecimal: two lower-case digits for each byte, the high one first.
pub open spec fn spec_hex_lower(bytes: Seq<u8>) -> Seq<char>
    decreases bytes.len(),
{
    if bytes.len() == 0 {
        Seq::empty()
    } else {
        spec_hex_lower(bytes.drop_last()).push(spec_hex_digit(bytes.last() as int / 16)).push(
            spec_hex_digit(bytes.last() as int % 16),
        )
    }
}

/// Hashes `data` and writes the digest in hexadecimal.
///
/// Calls `sha2::Sha256` (`new`, `update`, `finalize`) and formats the digest
/// with `{:x}`. Trusted: the text is the lower-case hexadecimal form of the
/// SHA-256 digest of `data`; the digest has 32 bytes, so the text has 64
/// characters.
#[verifier::external_body]
fn sha256_hex(data: &[u8]) -> (hex: String)
    ensures
        hex@ == spec_hex_lower(spec_sha256(data@)),
        hex@.len() == 64,
{
    let mut hasher = Sha256::new();
    hasher.update(data);
    format!("{:x}", hasher.finalize())
}

/// Whether `c` ends the path of a locator: the start of a query or of a fragment.
pub open spec fn spec_is_mark(c: char) -> bool {
    c == '?' || c == '#'
}

/// The index just past the last `.` of `s`, or zero if `s` holds none.
pub open spec fn spec_after_last_dot(s: Seq<char>) -> int
    decreases s.len(),
{
    if s.len() == 0 {
        0
    } else if s.last() == '.' {
        s.len() as int
    } else {
        spec_after_last_dot(s.drop_last())
    }
}

/// The index of the first `?` or `#` of `s`, or the length of `s` if it holds none.
pub open spec fn spec_first_mark(s: Seq<char>) -> int
    decreases s.len(),
{
    if s.len() == 0 {
        0
    } else if spec_is_mark(s.first()) {
        0
    } else {
        1 + spec_first_mark(s.drop_first())
    }
}

/// What follows the last `.` of `url`, up to the first `?` or `#` after it.
pub open spec fn spec_suffix(url: Seq<char>) -> Seq<char> {
    let start = spec_after_last_dot(url);
    let tail = url.skip(start);
    tail.take(spec_first_mark(tail))
}

/// The extension under which `url` is cached: its suffix if that takes at
/// most five bytes, and `jpg` otherwise.
pub open spec fn spec_cache_extension(url: Seq<char>) -> Seq<char> {
    if encode_utf8(spec_suffix(url)).len() <= 5 {
        spec_suffix(url)
    } else {
        "jpg"@
    }
}

/// The file name under which `url` is cached.
pub open spec fn spec_cache_file_name(url: Seq<char>) -> Seq<char> {
    spec_hex_lower(spec_sha256(encode_utf8(url))) + "."@ + spec_cache_extension(url)
}

/// The first mark of a sequence lies within it or at its end.
proof fn lemma_first_mark_bounds(s: Seq<char>)
    ensures
        0 <= spec_first_mark(s) <= s.len(),
    decreases s.len(),
{
    if s.len() > 0 && !spec_is_mark(s.first()) {
        lemma_first_mark_bounds(s.drop_first());
    }
}

/// How the first mark moves when a character is appended: it stays where it
/// is if there is one already, and else falls on the new character or past it.
proof fn lemma_first_mark_push(s: Seq<char>, c: char)
    ensures
        spec_first_mark(s.push(c)) == if spec_first_mark(s) < s.len() {
            spec_first_mark(s)
        } else if spec_is_mark(c) {
            s.len() as int
        } else {
            s.len() as int + 1
        },
    decreases s.len(),
{
    lemma_first_mark_bounds(s);
    let pushed = s.push(c);
    if s.len() == 0 {
        assert(pushed.drop_first() =~= Seq::<char>::empty());
        assert(spec_first_mark(pushed.drop_first()) == 0);
    } else if !spec_is_mark(s.first()) {
        assert(pushed.drop_first() =~= s.drop_first().push(c));
        lemma_first_mark_push(s.drop_first(), c);
    }
}

/// Tells whether `c` starts a query or a fragment.
fn is_mark(c: char) -> (mark: bool)
    ensures
        mark == spec_is_mark(c),
{
    c == '?' || c == '#'
}

/// Finds the extension under which `url` is cached.
///
/// The extension is what follows the last `.` of the locator (the whole
/// locator if it has none), up to the first `?` or `#`. If that takes more
/// than five bytes, the extension is `jpg`.
pub fn cache_extension<'a>(url: &'a str) -> (ext: &'a str)
    ensures
        ext@ == spec_cache_extension(url@),
{
    let total: usize = url.unicode_len();
    let mut start: usize = 0;
    let mut stop: usize = 0;
    let mut i: usize = 0;
    for c in iter: url.chars()
        invariant
            iter.seq() == url@,
            i == iter.index(),
            total == url@.len(),
            start <= stop <= i <= total,
            start == spec_after_last_dot(url@.take(i as int)),
            stop - start == spec_first_mark(url@.take(i as int).skip(start as int)),
    {
        proof {
            let before = url@.take(i as int);
            let after = url@.take(i + 1);
            assert(after.drop_last() == before);
            assert(after.last() == c);
            if c != '.' {
                assert(after.skip(start as int) == before.skip(start as int).push(c));
                lemma_first_mark_push(before.skip(start as int), c);
            } else {
                assert(after.skip(i + 1) == Seq::<char>::empty());
            }
        }
        if c == '.' {
            start = i + 1;
            stop = i + 1;
        } else if stop == i && !is_mark(c) {
            stop = i + 1;
        }
        i += 1;
    }
    proof {
        assert(url@.take(total as int) == url@);
        assert(url@.subrange(start as int, stop as int) == spec_suffix(url@));
    }
    let suffix = url.substring_char(start, stop);
    if suffix.as_bytes().len() <= 5 {
        suffix
    } else {
        "jpg"
    }
}

/// Names the file under which `url` is cached: the SHA-256 digest of the
/// locator in lower-case hexadecimal, which takes 64 characters, then a `.`,
/// then the extension.
pub fn cache_file_name(url: &str) -> (name: String)
    ensures
        name@ == spec_cache_file_name(url@),
        spec_hex_lower(spec_sha256(encode_utf8(url@))).len() == 64,
        name@.len() == 65 + spec_cache_extension(url@).len(),
        name@.subrange(0, 64) == spec_hex_lower(spec_sha256(encode_utf8(url@))),
        name@[64] == '.',
        name@.skip(65) == spec_cache_extension(url@),
{
    proof {
        reveal_strlit(".");
    }
    let mut name = sha256_hex(url.as_bytes());
    name.append(".");
    name.append(cache_extension(url));
    name
}

} // verus!
