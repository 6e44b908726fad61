use rand::rngs::ThreadRng;
use vstd::prelude::*;
use vstd::utf8::is_scalar;

use crate::random::draw_below;
use crate::text::char_from_u32;

verus! {

/// Number of draws the mutator makes, for the index and then for the bit,
/// before it gives up.
pub const MAX_ATTEMPTS: u32 = 1000000;

/// Code point of the newline character.
pub const NEWLINE: u32 = 10;

/// Why a mutation left the buffer as it was.
#[derive(Debug, PartialEq, Eq, Structural, Clone, Copy)]
pub enum MutateError {
    /// Every index drawn held a newline while newlines were not eligible.
    NoEligibleIndex,
    /// Every bit drawn gave an invalid or forbidden character.
    NoValidFlip,
}

/// The code point of `c` with bit `bit` flipped.
pub open spec fn flipped(c: char, bit: u32) -> u32 {
    (c as u32) ^ (1u32 << bit)
}

/// Whether a code point may be written back: a scalar value, and no newline
/// unless carnage is on.
pub open spec fn acceptable(v: u32, carnage: bool) -> bool {
    is_scalar(v) && (carnage || v != NEWLINE)
}

/// Whether the character at a position may be chosen for corruption.
pub open spec fn eligible(c: char, carnage: bool) -> bool {
    carnage || c != '\n'
}

/// `b` is `a` with one bit of its code point flipped, and acceptable.
pub open spec fn is_corruption_of(a: char, b: char, carnage: bool) -> bool {
    exists|bit: u32| bit < 32 && #[trigger] flipped(a, bit) == b as u32 && acceptable(b as u32, carnage)
}

/// `new` is `old` with the single character at `i` corrupted.
pub open spec fn corrupted_at(old: Seq<char>, new: Seq<char>, i: int, carnage: bool) -> bool {
    &&& new.len() == old.len()
    &&& 0 <= i < old.len()
    &&& eligible(old[i], carnage)
    &&& new[i] != old[i]
    &&& (carnage || new[i] != '\n')
    &&& is_corruption_of(old[i], new[i], carnage)
    &&& forall|j: int| 0 <= j < old.len() && j != i ==> new[j] == old[j]
}

/// Whether no position of `s` is eligible.
pub open spec fn none_eligible(s: Seq<char>, carnage: bool) -> bool {
    forall|j: int| 0 <= j < s.len() ==> !eligible(#[trigger] s[j], carnage)
}

proof fn lemma_flip_changes(v: u32, bit: u32)
    requires
        bit < 32,
    ensures
        v ^ (1u32 << bit) != v,
{
    assert(v ^ (1u32 << bit) != v) by (bit_vector)
        requires
            bit < 32,
    ;
}

proof fn lemma_newline_code()
    ensures
        ('\n' as u32) == NEWLINE,
{
}

/// Flips bit `bit` of `c`'s code point; the result when it is acceptable.
pub fn flip_bit(c: char, bit: u32, carnage: bool) -> (r: Option<char>)
    requires
        bit < 32,
    ensures
        r is Some <==> acceptable(flipped(c, bit), carnage),
        r is Some ==> r->0 as u32 == flipped(c, bit),
{
    let v: u32 = (c as u32) ^ (1u32 << bit);
    match char_from_u32(v) {
        Some(a) => {
            if !carnage && v == NEWLINE {
                None
            } else {
                Some(a)
            }
        },
        None => None,
    }
}

/// Tries to corrupt `text[index]` by flipping bit `bit`, writing the result
/// back only when it is acceptable. Returns whether it wrote.
pub fn corrupt_at(text: &mut Vec<char>, index: usize, bit: u32, carnage: bool) -> (r: bool)
    requires
        index < old(text)@.len(),
        bit < 32,
        eligible(old(text)@[index as int], carnage),
    ensures
        r == acceptable(flipped(old(text)@[index as int], bit), carnage),
        r ==> corrupted_at(old(text)@, final(text)@, index as int, carnage),
        r ==> final(text)@[index as int] as u32 == flipped(old(text)@[index as int], bit),
        !r ==> final(text)@ == old(text)@,
{
    let c = text[index];
    match flip_bit(c, bit, carnage) {
        Some(a) => {
            proof {
                lemma_flip_changes(c as u32, bit);
                lemma_newline_code();
            }
            text.set(index, a);
            assert(flipped(c, bit) == a as u32);
            true
        },
        None => false,
    }
}

/// Whether the character at `index` may be chosen for corruption.
pub fn eligible_at(text: &Vec<char>, index: usize, carnage: bool) -> (r: bool)
    requires
        index < text@.len(),
    ensures
        r == eligible(text@[index as int], carnage),
{
    carnage || text[index] != '\n'
}

/// Draws a position of `text` that is eligible for corruption, with at most
/// `MAX_ATTEMPTS` draws.
pub fn pick_index(carnage: bool, rng: &mut ThreadRng, text: &Vec<char>) -> (r: Option<usize>)
    requires
        text@.len() > 0,
    ensures
        r matches Some(i) ==> i < text@.len() && eligible(text@[i as int], carnage),
        none_eligible(text@, carnage) ==> r is None,
{
    let mut attempts: u32 = 0;
    while attempts < MAX_ATTEMPTS
        invariant
            text@.len() > 0,
            attempts <= MAX_ATTEMPTS,
        decreases MAX_ATTEMPTS - attempts,
    {
        let index = draw_below(rng, text.len());
        if eligible_at(text, index, carnage) {
            return Some(index);
        }
        attempts = attempts + 1;
    }
    None
}

/// Corrupts one character of `text` in place: draws an eligible position,
/// then draws bit positions until flipping one gives an acceptable
/// character, and writes it back. Returns the position it changed. Each of
/// the two searches gives up after `MAX_ATTEMPTS` draws, leaving `text` as
/// it was.
pub fn randomize_chars(carnage: bool, rng: &mut ThreadRng, text: &mut Vec<char>) -> (r: Result<usize, MutateError>)
    requires
        old(text)@.len() > 0,
    ensures
        final(text)@.len() == old(text)@.len(),
        r matches Ok(i) ==> corrupted_at(old(text)@, final(text)@, i as int, carnage),
        r is Err ==> final(text)@ == old(text)@,
        none_eligible(old(text)@, carnage) ==> r == Err::<usize, MutateError>(MutateError::NoEligibleIndex),
{
    let index = match pick_index(carnage, rng, text) {
        Some(i) => i,
        None => {
            return Err(MutateError::NoEligibleIndex);
        },
    };
    let mut attempts: u32 = 0;
    while attempts < MAX_ATTEMPTS
        invariant
            index < text@.len(),
            text@ == old(text)@,
            eligible(text@[index as int], carnage),
            attempts <= MAX_ATTEMPTS,
        decreases MAX_ATTEMPTS - attempts,
    {
        let bit = draw_below(rng, 32) as u32;
        if corrupt_at(text, index, bit, carnage) {
            return Ok(index);
        }
        attempts = attempts + 1;
    }
    Err(MutateError::NoValidFlip)
}

} // verus!
