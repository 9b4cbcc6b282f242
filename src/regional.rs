//! Spelling ASCII words with regional indicator symbols.

use vstd::prelude::*;
use vstd::string::is_ascii;

verus! {

/// Relies on `String::push`: it appends the character to the end of the
/// string.
pub assume_specification[ String::push ](string: &mut String, ch: char)
    ensures
        final(string)@ == old(string)@.push(ch),
;

/// The position of an ASCII letter in the alphabet, ignoring case.
pub open spec fn letter_index(c: char) -> Option<int> {
    if 'a' <= c && c <= 'z' {
        Some(c as int - 'a' as int)
    } else if 'A' <= c && c <= 'Z' {
        Some(c as int - 'A' as int)
    } else {
        None
    }
}

/// The regional indicator symbol for an ASCII letter, ignoring case.
pub open spec fn indicator_of(c: char) -> Option<char> {
    match letter_index(c) {
        Some(i) => Some((0x1F1E6 + i) as char),
        None => None,
    }
}

/// Every character of `s` is an ASCII letter.
pub open spec fn all_letters(s: Seq<char>) -> bool {
    forall|i: int| 0 <= i < s.len() ==> #[trigger] letter_index(s[i]) is Some
}

/// No letter occurs twice in `s`, ignoring case.
pub open spec fn distinct_letters(s: Seq<char>) -> bool {
    forall|i: int, j: int|
        0 <= i < j < s.len() ==> #[trigger] letter_index(s[i]) != #[trigger] letter_index(s[j])
}

/// `s` with each letter replaced by its regional indicator symbol.
pub open spec fn regional_codes(s: Seq<char>) -> Seq<char> {
    Seq::new(s.len(), |i: int| indicator_of(s[i])->0)
}

/// Why a text could not be spelled in regional indicator symbols.
pub enum RegionalCodeError {
    /// The first character that is not an ASCII letter.
    NotALetter(char),
    /// Some letter occurs twice, which a set of reactions cannot show.
    DuplicateLetter,
}

/// `r` is what spelling `input` in regional indicator symbols comes to: the
/// symbols when every character is a distinct letter; otherwise the first
/// character that is not a letter, or else the fact that a letter repeats.
pub open spec fn regional_result(input: Seq<char>, r: Result<String, RegionalCodeError>) -> bool {
    &&& r matches Ok(s) ==> all_letters(input) && distinct_letters(input) && s@ == regional_codes(input)
    &&& r matches Err(RegionalCodeError::NotALetter(c)) ==> exists|i: int|
        0 <= i < input.len() && input[i] == c && letter_index(c) is None
            && all_letters(#[trigger] input.subrange(0, i))
    &&& r matches Err(RegionalCodeError::DuplicateLetter) ==> all_letters(input) && !distinct_letters(input)
}

/// The regional indicator symbol for an ASCII letter, ignoring case.
pub fn regional_indicator(c: char) -> (r: Option<char>)
    ensures
        r == indicator_of(c),
{
    match c {
        'a' | 'A' => Some('\u{1F1E6}'),
        'b' | 'B' => Some('\u{1F1E7}'),
        'c' | 'C' => Some('\u{1F1E8}'),
        'd' | 'D' => Some('\u{1F1E9}'),
        'e' | 'E' => Some('\u{1F1EA}'),
        'f' | 'F' => Some('\u{1F1EB}'),
        'g' | 'G' => Some('\u{1F1EC}'),
        'h' | 'H' => Some('\u{1F1ED}'),
        'i' | 'I' => Some('\u{1F1EE}'),
        'j' | 'J' => Some('\u{1F1EF}'),
        'k' | 'K' => Some('\u{1F1F0}'),
        'l' | 'L' => Some('\u{1F1F1}'),
        'm' | 'M' => Some('\u{1F1F2}'),
        'n' | 'N' => Some('\u{1F1F3}'),
        'o' | 'O' => Some('\u{1F1F4}'),
        'p' | 'P' => Some('\u{1F1F5}'),
        'q' | 'Q' => Some('\u{1F1F6}'),
        'r' | 'R' => Some('\u{1F1F7}'),
        's' | 'S' => Some('\u{1F1F8}'),
        't' | 'T' => Some('\u{1F1F9}'),
        'u' | 'U' => Some('\u{1F1FA}'),
        'v' | 'V' => Some('\u{1F1FB}'),
        'w' | 'W' => Some('\u{1F1FC}'),
        'x' | 'X' => Some('\u{1F1FD}'),
        'y' | 'Y' => Some('\u{1F1FE}'),
        'z' | 'Z' => Some('\u{1F1FF}'),
        _ => None,
    }
}

/// Spells `input` in regional indicator symbols, one per letter. Fails on
/// the first character that is not an ASCII letter, and otherwise when a
/// letter occurs twice.
pub fn convert_to_regional_codes(input: &str) -> (r: Result<String, RegionalCodeError>)
    ensures
        regional_result(input@, r),
{
    let n = input.unicode_len();
    let mut codes: Vec<char> = Vec::new();
    let mut i: usize = 0;
    while i < n
        invariant
            n == input@.len(),
            i <= n,
            codes@.len() == i,
            all_letters(input@.subrange(0, i as int)),
            forall|k: int| 0 <= k < i ==> codes@[k] == #[trigger] indicator_of(input@[k])->0,
        decreases n - i,
    {
        let c = input.get_char(i);
        match regional_indicator(c) {
            Some(code) => codes.push(code),
            None => {
                return Err(RegionalCodeError::NotALetter(c));
            },
        }
        assert(input@.subrange(0, i + 1)[i as int] == c);
        i += 1;
    }
    assert(input@.subrange(0, n as int) =~= input@);
    let mut j: usize = 0;
    while j < n
        invariant
            n == input@.len(),
            j <= n,
            codes@.len() == n,
            all_letters(input@),
            forall|k: int| 0 <= k < n ==> codes@[k] == #[trigger] indicator_of(input@[k])->0,
            forall|a: int, b: int|
                0 <= a < b < j ==> #[trigger] letter_index(input@[a]) != #[trigger] letter_index(input@[b]),
        decreases n - j,
    {
        let mut k: usize = 0;
        while k < j
            invariant
                n == input@.len(),
                k <= j < n,
                codes@.len() == n,
                all_letters(input@),
                forall|x: int| 0 <= x < n ==> codes@[x] == #[trigger] indicator_of(input@[x])->0,
                forall|a: int| 0 <= a < k ==> #[trigger] letter_index(input@[a]) != letter_index(input@[j as int]),
            decreases j - k,
        {
            if codes[k] == codes[j] {
                assert(letter_index(input@[k as int]) is Some);
                assert(letter_index(input@[j as int]) is Some);
                assert(letter_index(input@[k as int]) == letter_index(input@[j as int]));
                return Err(RegionalCodeError::DuplicateLetter);
            }
            k += 1;
        }
        j += 1;
    }
    let mut out = String::new();
    let mut m: usize = 0;
    while m < n
        invariant
            n == input@.len(),
            m <= n,
            codes@.len() == n,
            forall|x: int| 0 <= x < n ==> codes@[x] == #[trigger] indicator_of(input@[x])->0,
            out@ == regional_codes(input@).subrange(0, m as int),
        decreases n - m,
    {
        out.push(codes[m]);
        assert(regional_codes(input@).subrange(0, m + 1) =~= regional_codes(input@).subrange(0, m as int).push(codes@[m as int]));
        m += 1;
    }
    assert(regional_codes(input@).subrange(0, n as int) =~= regional_codes(input@));
    Ok(out)
}

/// The emote text for a rule from what a person typed: ASCII text is taken
/// as a word to spell in regional indicator symbols, anything else as emotes.
pub fn prepare_emotes(input: &str) -> (r: Result<String, RegionalCodeError>)
    ensures
        is_ascii(input) ==> regional_result(input@, r),
        !is_ascii(input) ==> (r matches Ok(s) && s@ == input@),
{
    if input.is_ascii() {
        convert_to_regional_codes(input)
    } else {
        Ok(input.to_owned())
    }
}

} // verus!
