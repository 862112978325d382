//! One line of text that shows where a machine stands.

use vstd::prelude::*;
use vstd::string::StringExecFns;
use crate::cpu::Cpu;
use crate::memory::Memory;
use crate::tryte::{nonary_string, Tryte};
use crate::word::Word;

verus! {

/// What each of the strings holds.
pub open spec fn texts(words: Seq<String>) -> Seq<Seq<char>> {
    words.map_values(|word: String| word@)
}

/// The words in a row, with one space between each two.
pub open spec fn joined(words: Seq<Seq<char>>) -> Seq<char>
    decreases words.len(),
{
    if words.len() == 0 {
        Seq::empty()
    } else if words.len() == 1 {
        words.last()
    } else {
        joined(words.drop_last()) + seq![' '] + words.last()
    }
}

/// The line made of a program counter and a stack that are already written
/// out: the two halves of the program counter, a colon and a space, and the
/// entries of the stack with one space between each two.
pub open spec fn line_text(hi: Seq<char>, lo: Seq<char>, stack: Seq<Seq<char>>) -> Seq<char> {
    hi + lo + seq![':', ' '] + joined(stack)
}

/// The nonary text of a tryte, or nothing where it has none.
pub open spec fn nonary_or_nothing(tryte: Tryte) -> Seq<char> {
    match nonary_string(tryte.hi, tryte.lo) {
        Some(digits) => digits,
        None => Seq::empty(),
    }
}

/// The nonary texts of the trytes of a stack that have one, from the bottom
/// to the top.
pub open spec fn nonary_words(stack: Seq<Tryte>) -> Seq<Seq<char>>
    decreases stack.len(),
{
    if stack.len() == 0 {
        Seq::empty()
    } else {
        match nonary_string(stack.last().hi, stack.last().lo) {
            Some(digits) => nonary_words(stack.drop_last()).push(digits),
            None => nonary_words(stack.drop_last()),
        }
    }
}

/// The line for a machine at `pc` with the evaluation stack `stack`: the
/// program counter as a word, its two trytes in nonary digits; a colon and
/// a space; and the stack in nonary digits from the bottom to the top.
pub open spec fn debug_text(pc: i32, stack: Seq<Tryte>) -> Seq<char> {
    let word = Word::of_int(pc as int);
    line_text(nonary_or_nothing(word.hi), nonary_or_nothing(word.lo), nonary_words(stack))
}

/// Whether a program counter fits a word, so that it can be shown as one.
pub fn fits_word(pc: i32) -> (fits: bool)
    ensures
        fits == (-265720 <= pc <= 265720),
{
    -265720 <= pc && pc <= 265720
}

/// Joins the words with one space between each two.
pub fn join_words(words: &Vec<String>) -> (line: String)
    ensures
        line@ == joined(texts(words@)),
{
    let mut line = String::new();
    let mut i: usize = 0;
    proof {
        reveal_strlit(" ");
        assert(" "@ =~= seq![' ']);
        assert(texts(words@.take(0)) =~= Seq::<Seq<char>>::empty());
    }
    while i < words.len()
        invariant
            i <= words.len(),
            " "@ == seq![' '],
            line@ == joined(texts(words@.take(i as int))),
        decreases words.len() - i,
    {
        proof {
            let upto = texts(words@.take(i + 1));
            assert(upto.drop_last() =~= texts(words@.take(i as int)));
            assert(upto.last() == words@[i as int]@);
            assert(Seq::<char>::empty() + words@[i as int]@ =~= words@[i as int]@);
        }
        if i > 0 {
            line.append(" ");
        }
        line.append(words[i].as_str());
        i += 1;
    }
    proof {
        assert(words@.take(words@.len() as int) =~= words@);
    }
    line
}

/// Writes the line out of its parts: the two halves of the program counter
/// and the entries of the stack.
pub fn format_line(hi: &str, lo: &str, stack: &Vec<String>) -> (line: String)
    ensures
        line@ == line_text(hi@, lo@, texts(stack@)),
{
    let mut line = String::new();
    line.append(hi);
    line.append(lo);
    line.append(": ");
    let words = join_words(stack);
    line.append(words.as_str());
    proof {
        reveal_strlit(": ");
        assert(": "@ =~= seq![':', ' ']);
        assert(Seq::<char>::empty() + hi@ =~= hi@);
    }
    line
}

/// The nonary text of `tryte`, or an empty string where it has none.
fn nonary_text(tryte: &Tryte) -> (text: String)
    ensures
        text@ == nonary_or_nothing(*tryte),
{
    match tryte.as_nonary_string() {
        Some(digits) => digits,
        None => String::new(),
    }
}

impl<M: Memory> Cpu<M> {
    /// The line that shows where the machine stands: its program counter
    /// and its evaluation stack, in nonary digits.
    pub fn debug(&self) -> (line: String)
        requires
            -265720 <= self@.pc <= 265720,
        ensures
            line@ == debug_text(self@.pc, self@.estack),
    {
        let stack = self.estack();
        let mut result: Vec<String> = Vec::new();
        let mut i: usize = 0;
        proof {
            assert(stack@.take(0) =~= Seq::<Tryte>::empty());
            assert(texts(result@) =~= Seq::<Seq<char>>::empty());
        }
        while i < stack.len()
            invariant
                i <= stack.len(),
                texts(result@) == nonary_words(stack@.take(i as int)),
            decreases stack.len() - i,
        {
            proof {
                let upto = stack@.take(i + 1);
                assert(upto.drop_last() =~= stack@.take(i as int));
                assert(upto.last() == stack@[i as int]);
            }
            let ghost before = result@;
            match stack[i].as_nonary_string() {
                Some(digits) => {
                    result.push(digits);
                    assert(texts(result@) =~= texts(before).push(digits@));
                },
                None => {},
            }
            i += 1;
        }
        proof {
            assert(stack@.take(stack@.len() as int) =~= stack@);
        }
        let pc = Word::from_integer(self.pc());
        let hi = nonary_text(pc.hi_tryte());
        let lo = nonary_text(pc.lo_tryte());
        format_line(hi.as_str(), lo.as_str(), &result)
    }
}

} // verus!
