//! The string-processor domain object: the text operations exposed across
//! the boundary.

use crate::common::upper_of;
use crate::common::Logger;
use vstd::prelude::*;

verus! {

/// The parts joined left to right, with the separator between consecutive
/// parts.
pub open spec fn join_spec(parts: Seq<Seq<char>>, sep: Seq<char>) -> Seq<char>
    decreases parts.len(),
{
    if parts.len() == 0 {
        Seq::empty()
    } else if parts.len() == 1 {
        parts[0]
    } else {
        join_spec(parts.drop_last(), sep) + sep + parts.last()
    }
}

/// Unicode White_Space, the class `str::split_whitespace` splits on.
pub open spec fn is_ws(c: char) -> bool {
    let u = c as u32;
    (9 <= u && u <= 13) || u == 0x20 || u == 0x85 || u == 0xA0 || u == 0x1680 || (0x2000 <= u && u
        <= 0x200A) || u == 0x2028 || u == 0x2029 || u == 0x202F || u == 0x205F || u == 0x3000
}

/// The words (maximal runs of non-whitespace) from position `i` on, given
/// whether position `i` continues a word already begun.
pub open spec fn words_from(s: Seq<char>, i: int, in_word: bool) -> int
    decreases s.len() - i,
{
    if i < 0 || i >= s.len() {
        0
    } else {
        (if !is_ws(s[i]) && !in_word {
            1int
        } else {
            0int
        }) + words_from(s, i + 1, !is_ws(s[i]))
    }
}

/// How many whitespace-delimited words a text holds.
pub open spec fn word_count_spec(s: Seq<char>) -> int {
    words_from(s, 0, false)
}

/// Relies on String's FromIterator implementation: collecting characters
/// yields the string of exactly those characters.
#[verifier::external_body]
fn chars_to_string(chars: &Vec<char>) -> (r: String)
    ensures
        r@ == chars@,
{
    chars.iter().collect()
}

/// Whether a character is Unicode whitespace.
fn is_space(c: char) -> (r: bool)
    ensures
        r == is_ws(c),
{
    let u = c as u32;
    (9 <= u && u <= 13) || u == 0x20 || u == 0x85 || u == 0xA0 || u == 0x1680 || (0x2000 <= u && u
        <= 0x200A) || u == 0x2028 || u == 0x2029 || u == 0x202F || u == 0x205F || u == 0x3000
}

/// A string-processor instance. It owns only its log sink; every operation
/// is a pure function of its arguments.
pub struct StringProcessor {
    logger: Logger,
}

impl StringProcessor {
    /// The prefix the processor's log sink tags lines with.
    pub closed spec fn logger_prefix(self) -> Seq<char> {
        self.logger.prefix_spec()
    }

    pub fn new() -> (r: Self)
        ensures
            r.logger_prefix() == "StringLib"@,
    {
        StringProcessor { logger: Logger::new("StringLib") }
    }

    /// The text with its characters in reverse order.
    pub fn reverse(&self, s: &str) -> (r: String)
        ensures
            r@ == s@.reverse(),
    {
        let n = s.unicode_len();
        let mut chars: Vec<char> = Vec::new();
        let mut i: usize = 0;
        while i < n
            invariant
                n == s@.len(),
                0 <= i <= n,
                chars@.len() == i,
                forall|j: int| 0 <= j < i ==> chars@[j] == s@[n - 1 - j],
            decreases n - i,
        {
            chars.push(s.get_char(n - 1 - i));
            i += 1;
        }
        let out = chars_to_string(&chars);
        proof {
            assert(out@ =~= s@.reverse());
        }
        out
    }

    /// The texts joined left to right with the separator between
    /// consecutive ones.
    pub fn concat(&self, strings: &Vec<String>, separator: &str) -> (r: String)
        ensures
            r@ == join_spec(strings@.map_values(|s: String| s@), separator@),
    {
        let ghost parts = strings@.map_values(|s: String| s@);
        let mut out = String::new();
        let n = strings.len();
        let mut i: usize = 0;
        while i < n
            invariant
                n == strings@.len(),
                parts == strings@.map_values(|s: String| s@),
                0 <= i <= n,
                out@ == join_spec(parts.take(i as int), separator@),
            decreases n - i,
        {
            if i > 0 {
                out.append(separator);
            }
            out.append(strings[i].as_str());
            i += 1;
            proof {
                assert(parts.take(i as int).drop_last() =~= parts.take(i - 1));
                assert(out@ =~= join_spec(parts.take(i as int), separator@));
            }
        }
        proof {
            assert(parts.take(n as int) =~= parts);
        }
        out
    }

    /// The uppercase form of the text.
    pub fn to_upper(&self, s: &str) -> (r: String)
        ensures
            r@ == upper_of(s@),
    {
        crate::common::to_upper(s)
    }

    /// How many whitespace-delimited words the text holds.
    pub fn word_count(&self, s: &str) -> (r: usize)
        ensures
            r == word_count_spec(s@),
    {
        let n = s.unicode_len();
        let mut count: usize = 0;
        let mut in_word = false;
        let mut i: usize = 0;
        while i < n
            invariant
                n == s@.len(),
                0 <= i <= n,
                count <= i,
                count + words_from(s@, i as int, in_word) == word_count_spec(s@),
            decreases n - i,
        {
            let c = s.get_char(i);
            if !is_space(c) && !in_word {
                count += 1;
            }
            in_word = !is_space(c);
            i += 1;
        }
        count
    }
}

} // verus!
