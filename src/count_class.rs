use vstd::prelude::*;

verus! {

/// The hit-count bucket of an 8-bit counter: 0, 1 and 2 map to themselves,
/// 3 maps to 4, and larger counts map to one value per range: 4-7 to 8,
/// 8-15 to 16, 16-31 to 32, 32-127 to 64 and 128-255 to 128.
pub open spec fn count_class(c: nat) -> nat {
    if c <= 2 {
        c
    } else if c == 3 {
        4
    } else if c <= 7 {
        8
    } else if c <= 15 {
        16
    } else if c <= 31 {
        32
    } else if c <= 127 {
        64
    } else {
        128
    }
}

/// The bucket pair of a 16-bit value: the class of its high byte in the high
/// byte, the class of its low byte in the low byte.
pub open spec fn count_class_16(v: nat) -> nat {
    count_class(v / 256) * 256 + count_class(v % 256)
}

fn class_of(c: u32) -> (r: u16)
    requires
        c < 256,
    ensures
        r as nat == count_class(c as nat),
{
    if c <= 2 {
        c as u16
    } else if c == 3 {
        4
    } else if c <= 7 {
        8
    } else if c <= 15 {
        16
    } else if c <= 31 {
        32
    } else if c <= 127 {
        64
    } else {
        128
    }
}

/// The lookup table that classifies two hit counters at once: entry `v`
/// holds the bucket pair of `v`, for every 16-bit `v`.
pub fn count_class_lookup_16() -> (r: Vec<u16>)
    ensures
        r@.len() == 65536,
        forall|v: int| 0 <= v < 65536 ==> #[trigger] r@[v] as nat == count_class_16(v as nat),
{
    let mut table: Vec<u16> = Vec::new();
    let mut v: u32 = 0;
    while v < 65536
        invariant
            v <= 65536,
            table@.len() == v,
            forall|k: int| 0 <= k < v ==> #[trigger] table@[k] as nat == count_class_16(k as nat),
        decreases 65536 - v,
    {
        let hi = class_of(v / 256);
        let lo = class_of(v % 256);
        table.push(hi * 256 + lo);
        v = v + 1;
    }
    table
}

} // verus!
