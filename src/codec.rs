//! Decoder for the stream's phrase-dictionary compression.
//!
//! A compressed payload is a sequence of code points. Code points below 256
//! stand for themselves; larger ones are dictionary codes. The dictionary
//! starts empty, its first code is 256, and every symbol after the first adds
//! one phrase to it. The dictionary is never capped, so adversarial input can
//! make it grow with the input's length.

use crate::text::{chars_of, push_char};
use vstd::prelude::*;

verus! {

/// Smallest dictionary code; code points below it are literals.
pub const FIRST_CODE: u32 = 256;

/// Whether a symbol is a literal code point rather than a dictionary code.
pub open spec fn is_literal(c: char) -> bool {
    (c as u32) < FIRST_CODE
}

/// The phrase a symbol stands for, given the dictionary built so far (code
/// `FIRST_CODE + k` at index `k`) and the previous phrase. A code that is not
/// yet assigned stands for the previous phrase followed by its own first symbol.
pub open spec fn resolve(c: char, dict: Seq<Seq<char>>, prev: Seq<char>) -> Seq<char> {
    if is_literal(c) {
        seq![c]
    } else if (c as u32) - FIRST_CODE < dict.len() {
        dict[(c as u32) - FIRST_CODE]
    } else {
        prev.push(prev[0])
    }
}

/// Decoder state after the first `n` symbols of `input` (`1 <= n`):
/// the output so far, the previous phrase, and the dictionary.
pub open spec fn decode_state(input: Seq<char>, n: nat) -> (Seq<char>, Seq<char>, Seq<Seq<char>>)
    decreases n,
{
    if n <= 1 {
        (seq![input[0]], seq![input[0]], Seq::empty())
    } else {
        let (out, prev, dict) = decode_state(input, (n - 1) as nat);
        let phrase = resolve(input[n - 1], dict, prev);
        (out + phrase, phrase, dict.push(prev.push(phrase[0])))
    }
}

/// The decoded text of a whole payload.
pub open spec fn decode_spec(input: Seq<char>) -> Seq<char> {
    if input.len() == 0 {
        Seq::empty()
    } else {
        decode_state(input, input.len()).0
    }
}

/// Every phrase the decoder holds is non-empty.
proof fn lemma_phrases_nonempty(input: Seq<char>, n: nat)
    requires
        1 <= n <= input.len(),
    ensures
        ({
            let (out, prev, dict) = decode_state(input, n);
            &&& prev.len() > 0
            &&& dict.len() == n - 1
            &&& forall|k: int| 0 <= k < dict.len() ==> #[trigger] dict[k].len() > 0
        }),
    decreases n,
{
    if n > 1 {
        lemma_phrases_nonempty(input, (n - 1) as nat);
    }
}

/// A payload made only of literal code points decodes to itself: the dictionary
/// it builds is never consulted.
pub proof fn lemma_literals_decode_to_themselves(input: Seq<char>)
    requires
        forall|i: int| 0 <= i < input.len() ==> is_literal(#[trigger] input[i]),
    ensures
        decode_spec(input) == input,
{
    if input.len() > 0 {
        lemma_literal_prefix(input, input.len());
        assert(input.subrange(0, input.len() as int) =~= input);
    }
}

proof fn lemma_literal_prefix(input: Seq<char>, n: nat)
    requires
        1 <= n <= input.len(),
        forall|i: int| 0 <= i < input.len() ==> is_literal(#[trigger] input[i]),
    ensures
        decode_state(input, n).0 == input.subrange(0, n as int),
        decode_state(input, n).1 == seq![input[n - 1]],
    decreases n,
{
    if n <= 1 {
        assert(input.subrange(0, 1) =~= seq![input[0]]);
    } else {
        lemma_literal_prefix(input, (n - 1) as nat);
        assert(is_literal(input[n - 1]));
        assert(input.subrange(0, n as int) =~= input.subrange(0, n - 1) + seq![input[n - 1]]);
    }
}

/// Decoding is a function of the payload alone: two decodings of the same
/// payload give the same text.
pub proof fn lemma_decode_deterministic(a: Seq<char>, b: Seq<char>)
    requires
        a == b,
    ensures
        decode_spec(a) == decode_spec(b),
{
}

fn copy_phrase(p: &Vec<char>) -> (r: Vec<char>)
    ensures
        r@ == p@,
{
    let mut r: Vec<char> = Vec::new();
    let mut j: usize = 0;
    while j < p.len()
        invariant
            j <= p@.len(),
            r@ == p@.subrange(0, j as int),
        decreases p@.len() - j,
    {
        r.push(p[j]);
        j = j + 1;
    }
    assert(r@ =~= p@);
    r
}

/// Expands a compressed payload. Never fails: malformed input decodes to
/// text that later structured parsing rejects.
pub fn decode(input: &str) -> (r: String)
    ensures
        r@ == decode_spec(input@),
{
    let data = chars_of(input);
    if data.len() == 0 {
        return String::new();
    }
    let first = data[0];
    let mut result = String::new();
    push_char(&mut result, first);
    let mut old_phrase: Vec<char> = Vec::new();
    old_phrase.push(first);
    let mut dictionary: Vec<Vec<char>> = Vec::new();
    proof {
        assert(result@ =~= seq![first]);
        assert(old_phrase@ =~= seq![first]);
        assert(dictionary.deep_view() =~= Seq::<Seq<char>>::empty());
    }
    let mut i: usize = 1;
    while i < data.len()
        invariant
            1 <= i <= data@.len(),
            data@ == input@,
            decode_state(input@, i as nat) == (result@, old_phrase@, dictionary.deep_view()),
        decreases data@.len() - i,
    {
        proof {
            lemma_phrases_nonempty(input@, i as nat);
        }
        let sym = data[i];
        let code = sym as u32;
        let phrase: Vec<char> = if code < FIRST_CODE {
            let mut p: Vec<char> = Vec::new();
            p.push(sym);
            proof {
                assert(p@ =~= seq![sym]);
            }
            p
        } else if ((code - FIRST_CODE) as usize) < dictionary.len() {
            let p = copy_phrase(&dictionary[(code - FIRST_CODE) as usize]);
            p
        } else {
            let mut p = copy_phrase(&old_phrase);
            p.push(old_phrase[0]);
            p
        };
        assert(phrase@ == resolve(sym, dictionary.deep_view(), old_phrase@));
        let ghost before = result@;
        let mut j: usize = 0;
        while j < phrase.len()
            invariant
                j <= phrase@.len(),
                result@ == before + phrase@.subrange(0, j as int),
            decreases phrase@.len() - j,
        {
            push_char(&mut result, phrase[j]);
            proof {
                assert(phrase@.subrange(0, j + 1) =~= phrase@.subrange(0, j as int).push(phrase@[j as int]));
            }
            j = j + 1;
        }
        assert(phrase@.subrange(0, phrase@.len() as int) =~= phrase@);
        let mut entry = copy_phrase(&old_phrase);
        entry.push(phrase[0]);
        let ghost old_dict = dictionary.deep_view();
        dictionary.push(entry);
        assert(dictionary@[dictionary@.len() - 1].deep_view() =~= entry@);
        assert(dictionary.deep_view() =~= old_dict.push(entry@));
        old_phrase = phrase;
        i = i + 1;
    }
    result
}

} // verus!
