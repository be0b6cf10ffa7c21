//! The 16-bit machine word and its wrapping arithmetic.
use vstd::prelude::*;
use std::ops::{BitAnd, BitOr, BitXor, Not};

verus! {

/// A single word in the memory space.
#[derive(Clone, Copy, PartialEq, Eq, Structural, PartialOrd, Ord, Debug)]
pub struct Word(pub u16);

/// Sum of two words modulo 2^16.
pub open spec fn wrap_add(a: u16, b: u16) -> u16 {
    ((a + b) % 0x10000) as u16
}

/// Difference of two words modulo 2^16.
pub open spec fn wrap_sub(a: u16, b: u16) -> u16 {
    ((a - b + 0x10000) % 0x10000) as u16
}

/// Product of two words modulo 2^16.
pub open spec fn wrap_mul(a: u16, b: u16) -> u16 {
    ((a * b) % 0x10000) as u16
}

impl Word {
    /// Builds a word from the low 16 bits of `value`.
    pub fn new_const(value: i32) -> (w: Word)
        ensures
            w.0 == value as u16,
    {
        Word(value as u16)
    }

    pub fn wrapping_add(self, rhs: Word) -> (w: Word)
        ensures
            w.0 == wrap_add(self.0, rhs.0),
            w.0 as int == (self.0 + rhs.0) % 0x10000,
    {
        Word(self.0.wrapping_add(rhs.0))
    }

    pub fn wrapping_sub(self, rhs: Word) -> (w: Word)
        ensures
            w.0 == wrap_sub(self.0, rhs.0),
            w.0 as int == (self.0 - rhs.0) % 0x10000,
    {
        Word(self.0.wrapping_sub(rhs.0))
    }

    pub fn wrapping_mul(self, rhs: Word) -> (w: Word)
        ensures
            w.0 == wrap_mul(self.0, rhs.0),
            w.0 as int == (self.0 * rhs.0) % 0x10000,
    {
        Word(self.0.wrapping_mul(rhs.0))
    }

    pub fn xor(self, rhs: Word) -> (w: Word)
        ensures
            w.0 == self.0 ^ rhs.0,
    {
        Word(self.0 ^ rhs.0)
    }

    pub fn and(self, rhs: Word) -> (w: Word)
        ensures
            w.0 == self.0 & rhs.0,
    {
        Word(self.0 & rhs.0)
    }

    pub fn or(self, rhs: Word) -> (w: Word)
        ensures
            w.0 == self.0 | rhs.0,
    {
        Word(self.0 | rhs.0)
    }

    pub fn not(self) -> (w: Word)
        ensures
            w.0 == !self.0,
    {
        Word(!self.0)
    }

    /// Shifts left; bits shifted past bit 15 are lost.
    pub fn shl(self, rhs: Word) -> (w: Word)
        requires
            rhs.0 < 16,
        ensures
            w.0 == self.0 << rhs.0,
    {
        Word(self.0 << rhs.0)
    }

    /// Logical shift right.
    pub fn shr(self, rhs: Word) -> (w: Word)
        requires
            rhs.0 < 16,
        ensures
            w.0 == self.0 >> rhs.0,
    {
        Word(self.0 >> rhs.0)
    }
}

impl BitXor for Word {
    type Output = Word;

    fn bitxor(self, rhs: Word) -> (w: Word) {
        Word(self.0 ^ rhs.0)
    }
}

impl vstd::std_specs::ops::BitXorSpecImpl for Word {
    open spec fn obeys_bitxor_spec() -> bool {
        true
    }

    open spec fn bitxor_req(self, rhs: Word) -> bool {
        true
    }

    open spec fn bitxor_spec(self, rhs: Word) -> Word {
        Word(self.0 ^ rhs.0)
    }
}

impl BitOr for Word {
    type Output = Word;

    fn bitor(self, rhs: Word) -> (w: Word) {
        Word(self.0 | rhs.0)
    }
}

impl vstd::std_specs::ops::BitOrSpecImpl for Word {
    open spec fn obeys_bitor_spec() -> bool {
        true
    }

    open spec fn bitor_req(self, rhs: Word) -> bool {
        true
    }

    open spec fn bitor_spec(self, rhs: Word) -> Word {
        Word(self.0 | rhs.0)
    }
}

impl BitAnd for Word {
    type Output = Word;

    fn bitand(self, rhs: Word) -> (w: Word) {
        Word(self.0 & rhs.0)
    }
}

impl vstd::std_specs::ops::BitAndSpecImpl for Word {
    open spec fn obeys_bitand_spec() -> bool {
        true
    }

    open spec fn bitand_req(self, rhs: Word) -> bool {
        true
    }

    open spec fn bitand_spec(self, rhs: Word) -> Word {
        Word(self.0 & rhs.0)
    }
}

impl Not for Word {
    type Output = Word;

    fn not(self) -> (w: Word) {
        Word(!self.0)
    }
}

impl vstd::std_specs::ops::NotSpecImpl for Word {
    open spec fn obeys_not_spec() -> bool {
        true
    }

    open spec fn not_req(self) -> bool {
        true
    }

    open spec fn not_spec(self) -> Word {
        Word(!self.0)
    }
}

impl From<u16> for Word {
    fn from(value: u16) -> (w: Word) {
        Word(value)
    }
}

impl vstd::std_specs::convert::FromSpecImpl<u16> for Word {
    open spec fn obeys_from_spec() -> bool {
        true
    }

    open spec fn from_spec(value: u16) -> Word {
        Word(value)
    }
}

impl From<i16> for Word {
    fn from(value: i16) -> (w: Word) {
        Word(value as u16)
    }
}

impl vstd::std_specs::convert::FromSpecImpl<i16> for Word {
    open spec fn obeys_from_spec() -> bool {
        true
    }

    open spec fn from_spec(value: i16) -> Word {
        Word(value as u16)
    }
}

impl From<i8> for Word {
    fn from(value: i8) -> (w: Word) {
        Word(value as u16)
    }
}

impl vstd::std_specs::convert::FromSpecImpl<i8> for Word {
    open spec fn obeys_from_spec() -> bool {
        true
    }

    open spec fn from_spec(value: i8) -> Word {
        Word(value as u16)
    }
}

impl From<Word> for u16 {
    fn from(value: Word) -> (v: u16) {
        value.0
    }
}

impl vstd::std_specs::convert::FromSpecImpl<Word> for u16 {
    open spec fn obeys_from_spec() -> bool {
        true
    }

    open spec fn from_spec(value: Word) -> u16 {
        value.0
    }
}

impl From<Word> for i16 {
    fn from(value: Word) -> (v: i16) {
        value.0 as i16
    }
}

impl vstd::std_specs::convert::FromSpecImpl<Word> for i16 {
    open spec fn obeys_from_spec() -> bool {
        true
    }

    open spec fn from_spec(value: Word) -> i16 {
        value.0 as i16
    }
}

impl From<Word> for usize {
    fn from(value: Word) -> (v: usize) {
        value.0 as usize
    }
}

impl vstd::std_specs::convert::FromSpecImpl<Word> for usize {
    open spec fn obeys_from_spec() -> bool {
        true
    }

    open spec fn from_spec(value: Word) -> usize {
        value.0 as usize
    }
}

} // verus!
