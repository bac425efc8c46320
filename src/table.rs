//! The spread lookup table: rows `(tag, dense, spread)` for every dense value
//! up to the table's width, the tag bounding the bit length of the value.
use vstd::prelude::*;
use crate::bits::{spread64_spec, spread_word64};

verus! {

/// Upper bound (exclusive) on the values of tag class `t`, for `t < 8`: the
/// classes are 11, 13, 14, 23, 25, 28, 42 and 56 bits wide.
pub open spec fn tag_bound(t: u8) -> u64 {
    if t == 0 {
        0x800
    } else if t == 1 {
        0x2000
    } else if t == 2 {
        0x4000
    } else if t == 3 {
        0x80_0000
    } else if t == 4 {
        0x200_0000
    } else if t == 5 {
        0x1000_0000
    } else if t == 6 {
        0x400_0000_0000
    } else {
        0x100_0000_0000_0000
    }
}

/// The least class whose bound `input` stays below, or 8 when it stays below
/// none.
pub open spec fn tag_spec(input: u64) -> u8 {
    if input < tag_bound(0) {
        0
    } else if input < tag_bound(1) {
        1
    } else if input < tag_bound(2) {
        2
    } else if input < tag_bound(3) {
        3
    } else if input < tag_bound(4) {
        4
    } else if input < tag_bound(5) {
        5
    } else if input < tag_bound(6) {
        6
    } else if input < tag_bound(7) {
        7
    } else {
        8
    }
}

/// The tag of a dense value.
pub fn get_tag(input: u64) -> (r: u8)
    ensures
        r == tag_spec(input),
        r <= 8,
        r < 8 ==> input < tag_bound(r),
        r > 0 ==> input >= tag_bound((r - 1) as u8),
{
    if input < 0x800 {
        0
    } else if input < 0x2000 {
        1
    } else if input < 0x4000 {
        2
    } else if input < 0x80_0000 {
        3
    } else if input < 0x200_0000 {
        4
    } else if input < 0x1000_0000 {
        5
    } else if input < 0x400_0000_0000 {
        6
    } else if input < 0x100_0000_0000_0000 {
        7
    } else {
        8
    }
}

/// A row of the spread table: a dense value with its tag and spread form.
#[derive(Debug, Copy, Clone, PartialEq, Eq, Structural)]
pub struct SpreadWord {
    pub tag: u8,
    pub dense: u64,
    pub spread: u128,
}

impl SpreadWord {
    /// The row is the one the table holds for its dense value: the tag of the
    /// value and its spread form (bit `i` of the value at bit `2i`).
    pub open spec fn wf(&self) -> bool {
        self.tag == tag_spec(self.dense) && self.spread == spread64_spec(self.dense)
    }

    /// The row for `dense`, a value of up to 64 bits.
    pub fn new(dense: u64) -> (r: Self)
        ensures
            r.wf(),
            r.dense == dense,
    {
        SpreadWord { tag: get_tag(dense), dense, spread: spread_word64(dense) }
    }

    /// The row for `dense` as a piece of `width` bits: none when the value
    /// does not fit the width.
    pub fn try_new(dense: u64, width: u64) -> (r: Option<Self>)
        requires
            width <= 64,
        ensures
            (width == 64 || dense < (1u64 << width)) <==> r.is_some(),
            r matches Some(w) ==> w.wf() && w.dense == dense,
    {
        if width == 64 || dense < (1u64 << width) {
            Some(SpreadWord::new(dense))
        } else {
            None
        }
    }
}

/// The table's rows for the dense values `0..n`, in order.
pub fn generate(n: u32) -> (rows: Vec<SpreadWord>)
    ensures
        rows@.len() == n,
        forall|i: int| 0 <= i < n ==> (#[trigger] rows@[i]).wf() && rows@[i].dense == i,
{
    let mut rows: Vec<SpreadWord> = Vec::new();
    let mut i: u32 = 0;
    while i < n
        invariant
            i <= n,
            rows@.len() == i,
            forall|j: int| 0 <= j < i ==> (#[trigger] rows@[j]).wf() && rows@[j].dense == j,
        decreases n - i,
    {
        rows.push(SpreadWord::new(i as u64));
        i = i + 1;
    }
    rows
}

} // verus!
