//! The character encoding of the pixel-matrix text shader, and the fixed-size
//! buffer contents built from a display text.

use vstd::prelude::*;
use vstd::std_specs::iter::IteratorSpec;
use vstd::string::StringSliceAdditionalSpecFns;

verus! {

/// The code of `'?'`, which also stands for every character that the shader
/// has no glyph for, and fills the unused tail of a buffer.
pub const DEFAULT_CODE: u32 = 36;

/// The code of the degree sign.
pub const DEGREE_CODE: u32 = 37;

/// The number of glyphs that the shader can draw. Every code is below it.
pub const GLYPH_COUNT: u32 = 38;

/// The degree sign, U+00B0.
pub const DEGREE_SIGN: char = '\u{b0}';

/// The shader's code for a character.
///
/// The digits take the codes 0 to 9 in order, the capital Latin letters the
/// codes 10 to 35 in order, the degree sign 37. The question mark and every
/// other character take 36.
pub open spec fn char_code(c: char) -> u32 {
    let u = c as u32;
    if 0x30 <= u <= 0x39 {
        (u - 0x30) as u32
    } else if 0x41 <= u <= 0x5a {
        (u - 0x41 + 10) as u32
    } else if u == 0xb0 {
        DEGREE_CODE
    } else {
        DEFAULT_CODE
    }
}

/// Whether the shader has a glyph of its own for the character.
pub open spec fn has_glyph(c: char) -> bool {
    let u = c as u32;
    0x30 <= u <= 0x39 || 0x41 <= u <= 0x5a || u == 0x3f || u == 0xb0
}

/// Looks a character up in the encoding table.
pub fn encode(c: char) -> (code: u32)
    ensures
        code == char_code(c),
        code < GLYPH_COUNT,
{
    match c {
        '0' => 0,
        '1' => 1,
        '2' => 2,
        '3' => 3,
        '4' => 4,
        '5' => 5,
        '6' => 6,
        '7' => 7,
        '8' => 8,
        '9' => 9,
        'A' => 10,
        'B' => 11,
        'C' => 12,
        'D' => 13,
        'E' => 14,
        'F' => 15,
        'G' => 16,
        'H' => 17,
        'I' => 18,
        'J' => 19,
        'K' => 20,
        'L' => 21,
        'M' => 22,
        'N' => 23,
        'O' => 24,
        'P' => 25,
        'Q' => 26,
        'R' => 27,
        'S' => 28,
        'T' => 29,
        'U' => 30,
        'V' => 31,
        'W' => 32,
        'X' => 33,
        'Y' => 34,
        'Z' => 35,
        '?' => 36,
        '\u{b0}' => 37,
        _ => DEFAULT_CODE,
    }
}

/// Every code is the index of a glyph.
pub proof fn lemma_code_below_glyph_count(c: char)
    ensures
        char_code(c) < GLYPH_COUNT,
{
}

/// A character takes `DEFAULT_CODE` exactly when it is the question mark or
/// has no glyph of its own.
pub proof fn lemma_default_code(c: char)
    ensures
        char_code(c) == DEFAULT_CODE <==> (c == '?' || !has_glyph(c)),
{
}

/// No two characters with glyphs of their own share a code.
pub proof fn lemma_codes_distinct(a: char, b: char)
    requires
        has_glyph(a),
        has_glyph(b),
        a != b,
    ensures
        char_code(a) != char_code(b),
{
}

/// Each glyph's index is the code of some character that has that glyph.
pub proof fn lemma_every_code_taken(code: u32)
    requires
        code < GLYPH_COUNT,
    ensures
        exists|c: char| has_glyph(c) && #[trigger] char_code(c) == code,
{
    let c: char = if code < 10 {
        (code + 0x30) as char
    } else if code < 36 {
        (code - 10 + 0x41) as char
    } else if code == 36 {
        '?'
    } else {
        DEGREE_SIGN
    };
    assert(has_glyph(c) && char_code(c) == code);
}

/// The codes that a buffer of `n` slots holds for a text: the code of each of
/// the first `n` characters in order, then `DEFAULT_CODE` in every slot that
/// the text does not reach.
pub open spec fn encoded_chars(text: Seq<char>, n: nat) -> Seq<u32> {
    Seq::new(
        n,
        |i: int|
            if i < text.len() {
                char_code(text[i])
            } else {
                DEFAULT_CODE
            },
    )
}

/// A buffer has as many codes as slots, and each is the index of a glyph.
pub proof fn lemma_encoded_chars_are_glyphs(text: Seq<char>, n: nat)
    ensures
        encoded_chars(text, n).len() == n,
        forall|i: int| 0 <= i < n ==> #[trigger] encoded_chars(text, n)[i] < GLYPH_COUNT,
{
}

/// A buffer's first slots are what a buffer of fewer slots holds for the
/// same text.
pub proof fn lemma_encoded_chars_prefix(text: Seq<char>, n: nat, m: nat)
    requires
        m <= n,
    ensures
        encoded_chars(text, n).take(m as int) == encoded_chars(text, m),
{
    assert(encoded_chars(text, n).take(m as int) =~= encoded_chars(text, m));
}

/// Characters beyond the last slot do not change what a buffer holds.
pub proof fn lemma_encoded_chars_cut(text: Seq<char>, n: nat)
    requires
        n <= text.len(),
    ensures
        encoded_chars(text, n) == encoded_chars(text.take(n as int), n),
{
    assert(encoded_chars(text, n) =~= encoded_chars(text.take(n as int), n));
}

/// The length of a text in bytes of its UTF-8 form, as a buffer records it:
/// cut down to its low 32 bits.
pub open spec fn byte_count(text: Seq<char>) -> u32 {
    ((vstd::utf8::encode_utf8(text).len() as usize) as u32)
}

/// What the text shader reads from its storage buffer: a character count and
/// one code per slot. `N` is the number of slots, which is the buffer's size.
#[derive(Debug)]
pub struct TextData<const N: usize> {
    pub count: u32,
    pub chars: [u32; N],
}

impl<const N: usize> Clone for TextData<N> {
    fn clone(&self) -> (copy: Self)
        ensures
            copy == *self,
    {
        TextData { count: self.count, chars: self.chars }
    }
}

impl<const N: usize> TextData<N> {
    /// Encodes a text for a buffer of `N` slots.
    ///
    /// Characters beyond the `N`th are left out, and slots beyond the text's
    /// end hold `DEFAULT_CODE`. The count is the text's length in bytes, not
    /// in characters, whether or not the text fits.
    pub fn new(s: &str) -> (data: Self)
        ensures
            data.chars@ == encoded_chars(s@, N as nat),
            data.count == byte_count(s@),
            s.spec_bytes().len() <= u32::MAX ==> data.count == s.spec_bytes().len(),
    {
        broadcast use vstd::string::group_string_axioms;
        broadcast use vstd::array::group_array_axioms;

        let mut chars = [DEFAULT_CODE;N];
        let mut it = s.chars();
        let mut i: usize = 0;
        while i < N
            invariant
                i <= N,
                i <= s@.len(),
                it.remaining() == s@.skip(i as int),
                forall|j: int| 0 <= j < i ==> chars@[j] == char_code(s@[j]),
                forall|j: int| i <= j < N ==> chars@[j] == DEFAULT_CODE,
            ensures
                i <= N,
                forall|j: int| 0 <= j < i ==> chars@[j] == char_code(s@[j]),
                forall|j: int| i <= j < N ==> chars@[j] == DEFAULT_CODE,
                i < N ==> i == s@.len(),
            decreases N - i,
        {
            match it.next() {
                Some(ch) => {
                    chars[i] = encode(ch);
                },
                None => {
                    break ;
                },
            }
            i += 1;
        }
        assert(chars@ =~= encoded_chars(s@, N as nat));
        let len: usize = s.len();
        let count: u32 = #[verifier::truncate] (len as u32);
        TextData { count, chars }
    }
}

} // verus!
