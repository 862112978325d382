//! Trytes in binary-coded ternary, as the `bct` crate holds them.
//!
//! A trit takes two bits (`00` zero, `01` one, `10` minus one), a trybble is
//! three trits in the low six bits of a byte, and a tryte is two trybbles.

use vstd::prelude::*;

verus! {

/// The number between -13 and 13 that a trybble code stands for. The codes
/// are listed from `TTT` to `111`, with `T` for the trit minus one. A byte
/// that is no trybble code stands for zero, as the code `000` does.
pub open spec fn trybble_value(code: u8) -> int {
    if code == 0b101010 {
        -13
    } else if code == 0b101000 {
        -12
    } else if code == 0b101001 {
        -11
    } else if code == 0b100010 {
        -10
    } else if code == 0b100000 {
        -9
    } else if code == 0b100001 {
        -8
    } else if code == 0b100110 {
        -7
    } else if code == 0b100100 {
        -6
    } else if code == 0b100101 {
        -5
    } else if code == 0b001010 {
        -4
    } else if code == 0b001000 {
        -3
    } else if code == 0b001001 {
        -2
    } else if code == 0b000010 {
        -1
    } else if code == 0b000001 {
        1
    } else if code == 0b000110 {
        2
    } else if code == 0b000100 {
        3
    } else if code == 0b000101 {
        4
    } else if code == 0b011010 {
        5
    } else if code == 0b011000 {
        6
    } else if code == 0b011001 {
        7
    } else if code == 0b010010 {
        8
    } else if code == 0b010000 {
        9
    } else if code == 0b010001 {
        10
    } else if code == 0b010110 {
        11
    } else if code == 0b010100 {
        12
    } else if code == 0b010101 {
        13
    } else {
        0
    }
}

/// The trybble code of a number between -13 and 13. Any other number is
/// coded as zero is.
pub open spec fn trybble_code(value: int) -> u8 {
    if value == -13 {
        0b101010
    } else if value == -12 {
        0b101000
    } else if value == -11 {
        0b101001
    } else if value == -10 {
        0b100010
    } else if value == -9 {
        0b100000
    } else if value == -8 {
        0b100001
    } else if value == -7 {
        0b100110
    } else if value == -6 {
        0b100100
    } else if value == -5 {
        0b100101
    } else if value == -4 {
        0b001010
    } else if value == -3 {
        0b001000
    } else if value == -2 {
        0b001001
    } else if value == -1 {
        0b000010
    } else if value == 1 {
        0b000001
    } else if value == 2 {
        0b000110
    } else if value == 3 {
        0b000100
    } else if value == 4 {
        0b000101
    } else if value == 5 {
        0b011010
    } else if value == 6 {
        0b011000
    } else if value == 7 {
        0b011001
    } else if value == 8 {
        0b010010
    } else if value == 9 {
        0b010000
    } else if value == 10 {
        0b010001
    } else if value == 11 {
        0b010110
    } else if value == 12 {
        0b010100
    } else if value == 13 {
        0b010101
    } else {
        0
    }
}

/// The trit that a two-bit code stands for.
pub open spec fn trit_value(bits: int) -> int {
    if bits == 1 {
        1
    } else if bits == 2 {
        -1
    } else {
        0
    }
}

/// Whether a byte is the code of a trybble: three two-bit trits, none of
/// them `11`, and no bit above them.
pub open spec fn is_trybble_code(code: u8) -> bool {
    code < 64 && code / 16 != 3 && (code / 4) % 4 != 3 && code % 4 != 3
}

/// The text of the tryte with the trybble codes `hi` and `lo` in nonary
/// digits, as `bct::Tryte::as_nonary_string` writes it, if it writes any.
pub uninterp spec fn nonary_string(hi: u8, lo: u8) -> Option<Seq<char>>;

/// Six trits: a high and a low trybble, each held as its code.
#[derive(Clone, Copy, Debug, PartialEq, Eq, Structural)]
pub struct Tryte {
    pub hi: u8,
    pub lo: u8,
}

impl Tryte {
    /// The number that the tryte stands for, between -364 and 364.
    pub open spec fn value(self) -> int {
        27 * trybble_value(self.hi) + trybble_value(self.lo)
    }

    /// The tryte that a conversion from the number `n` gives. It stands for
    /// `n` where `n` lies between -364 and 364. Beyond that the high trybble
    /// does not fit its code and is coded as zero, so that only the low
    /// trybble of `n` is left.
    pub open spec fn of_int(n: int) -> Tryte {
        Tryte { hi: trybble_code((n + 13) / 27), lo: trybble_code((n + 13) % 27 - 13) }
    }

    /// A tryte from the codes of its two trybbles.
    pub fn from_bct_trybbles(hi: u8, lo: u8) -> (tryte: Tryte)
        ensures
            tryte == (Tryte { hi, lo }),
    {
        Tryte { hi, lo }
    }

    /// The code of the high trybble.
    pub fn hi_bct(&self) -> (code: u8)
        ensures
            code == self.hi,
    {
        self.hi
    }

    /// The code of the low trybble.
    pub fn lo_bct(&self) -> (code: u8)
        ensures
            code == self.lo,
    {
        self.lo
    }

    /// Calls `bct::Tryte::hi_value`, which looks the high trybble's code up
    /// in a table: the number that the code stands for, and zero for a byte
    /// that is no trybble code.
    #[verifier::external_body]
    pub(crate) fn hi_value(&self) -> (value: i8)
        ensures
            value == trybble_value(self.hi),
    {
        bct::Tryte::from_bct_trybbles(self.hi, self.lo).hi_value()
    }

    /// Calls `bct::Tryte::lo_value`, which looks the low trybble's code up in
    /// the same table as `hi_value` does.
    #[verifier::external_body]
    pub(crate) fn lo_value(&self) -> (value: i8)
        ensures
            value == trybble_value(self.lo),
    {
        bct::Tryte::from_bct_trybbles(self.hi, self.lo).lo_value()
    }

    /// Calls `bct::Tryte::to_integer`, which returns 27 times the value of
    /// the high trybble plus the value of the low one.
    #[verifier::external_body]
    pub(crate) fn to_integer(&self) -> (value: i16)
        ensures
            value == self.value(),
    {
        bct::Tryte::from_bct_trybbles(self.hi, self.lo).to_integer()
    }

    /// Calls `bct::Tryte::from` on an `i16`. It splits the number into a
    /// quotient and a remainder by 27, moves the remainder into the range
    /// from -13 to 13, and codes both through a table that gives zero for
    /// what is out of that range. The bounds keep the quotient between -126
    /// and 126, within the `i8` that the conversion computes it in.
    #[verifier::external_body]
    pub(crate) fn from_integer(n: i16) -> (tryte: Tryte)
        requires
            -3402 <= n <= 3402,
        ensures
            tryte == Tryte::of_int(n as int),
    {
        let tryte = bct::Tryte::from(n);
        Tryte { hi: tryte.hi_bct(), lo: tryte.lo_bct() }
    }

    /// Calls `bct::Tryte::add`, which converts the sum of the two values to a
    /// tryte as `bct::Tryte::from` does, and returns zero as the carry.
    #[verifier::external_body]
    pub(crate) fn add(first: &Tryte, second: &Tryte) -> (sum: (Tryte, i8))
        ensures
            sum.0 == Tryte::of_int(first.value() + second.value()),
            sum.1 == 0,
    {
        let first = bct::Tryte::from_bct_trybbles(first.hi, first.lo);
        let second = bct::Tryte::from_bct_trybbles(second.hi, second.lo);
        let (tryte, carry) = bct::Tryte::add(&first, &second);
        (Tryte { hi: tryte.hi_bct(), lo: tryte.lo_bct() }, carry)
    }

    /// Calls `bct::Tryte::as_nonary_string`, which writes the tryte's value
    /// in nonary digits. The text depends on the two codes alone; nothing
    /// more is claimed of it.
    #[verifier::external_body]
    pub(crate) fn as_nonary_string(&self) -> (text: Option<String>)
        ensures
            text is Some <==> nonary_string(self.hi, self.lo) is Some,
            text matches Some(digits) ==> nonary_string(self.hi, self.lo) == Some(digits@),
    {
        bct::Tryte::from_bct_trybbles(self.hi, self.lo).as_nonary_string()
    }
}

/// Calls `bct::translate::i8_trybble_to_bct`, which looks the number up in a
/// table: its trybble code, and zero for a number below -13 or above 13.
#[verifier::external_body]
pub(crate) fn i8_trybble_to_bct(number: i8) -> (code: u8)
    ensures
        code == trybble_code(number as int),
{
    bct::translate::i8_trybble_to_bct(number)
}

/// Every byte stands for a number that fits a trybble.
pub proof fn lemma_trybble_value_range(code: u8)
    ensures
        -13 <= trybble_value(code) <= 13,
{
}

/// A trybble code stands for the sum of its three trits, weighted by nine,
/// three and one.
pub proof fn lemma_trybble_value_is_positional(code: u8)
    requires
        is_trybble_code(code),
    ensures
        trybble_value(code) == 9 * trit_value((code / 16) as int) + 3 * trit_value(
            ((code / 4) % 4) as int,
        ) + trit_value((code % 4) as int),
{
}

/// Coding a number that fits a trybble and reading the code back gives the
/// number again.
pub proof fn lemma_trybble_code_round_trip(value: int)
    requires
        -13 <= value <= 13,
    ensures
        is_trybble_code(trybble_code(value)),
        trybble_value(trybble_code(value)) == value,
{
}

/// Every tryte stands for a number between -364 and 364.
pub proof fn lemma_tryte_value_range(tryte: Tryte)
    ensures
        -364 <= tryte.value() <= 364,
{
    lemma_trybble_value_range(tryte.hi);
    lemma_trybble_value_range(tryte.lo);
}

/// A number between -364 and 364 becomes a tryte that stands for it.
pub proof fn lemma_of_int_in_range(n: int)
    requires
        -364 <= n <= 364,
    ensures
        Tryte::of_int(n).value() == n,
{
    lemma_trybble_code_round_trip((n + 13) / 27);
    lemma_trybble_code_round_trip((n + 13) % 27 - 13);
}

/// A number beyond -364 or 364 loses its high trybble: the tryte stands for
/// the low trybble alone, the one number between -13 and 13 that differs
/// from `n` by a multiple of 27.
pub proof fn lemma_of_int_out_of_range(n: int)
    requires
        n < -364 || 364 < n,
    ensures
        Tryte::of_int(n).value() == (n + 13) % 27 - 13,
        -13 <= Tryte::of_int(n).value() <= 13,
        (n - Tryte::of_int(n).value()) % 27 == 0,
{
    lemma_trybble_code_round_trip((n + 13) % 27 - 13);
}

} // verus!
