//! A record of three numbers of different kinds.

use vstd::prelude::*;

verus! {

/// Three numbers held side by side: a signed integer, an unsigned integer and
/// an IEEE-754 single-precision number.
///
/// The third is kept as its 32-bit pattern, so that every value of it,
/// whatever it encodes, is stored and handed back bit for bit.
///
/// A record is a plain value. A copy or a clone of it shares nothing with
/// its source, and a write to one of them is seen by no other.
#[derive(Clone, Copy, Debug)]
pub struct MyCustomStruct {
    pub a: i32,
    pub b: u32,
    pub c_bits: u32,
}

/// The record under its descriptive name.
pub type ValueRecord = MyCustomStruct;

impl MyCustomStruct {
    /// A record that holds exactly the three values given.
    ///
    /// Every triple is accepted and none is altered.
    pub fn new(a: i32, b: u32, c_bits: u32) -> (r: MyCustomStruct)
        ensures
            r.a == a,
            r.b == b,
            r.c_bits == c_bits,
    {
        MyCustomStruct { a, b, c_bits }
    }
}

} // verus!
