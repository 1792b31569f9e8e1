use vstd::prelude::*;

verus! {

/// Byte order of the integers written into a section.
#[derive(Clone, Copy, Debug, PartialEq, Eq, Structural)]
pub enum Endian {
    Big,
    Little,
}

/// Byte `i` of `v`, counted from the least significant one.
pub open spec fn byte_at(v: nat, i: nat) -> u8
    decreases i,
{
    if i == 0 {
        (v % 256) as u8
    } else {
        byte_at(v / 256, (i - 1) as nat)
    }
}

/// Which byte of a `w`-byte integer stands at position `j` in byte order `e`.
pub open spec fn significance(e: Endian, w: nat, j: nat) -> nat {
    match e {
        Endian::Little => j,
        Endian::Big => (w - 1 - j) as nat,
    }
}

/// The `w` bytes of `v` in byte order `e`.
pub open spec fn encode(v: nat, w: nat, e: Endian) -> Seq<u8> {
    Seq::new(w, |j: int| byte_at(v, significance(e, w, j as nat)))
}

/// Computes byte `i` of `v`, counted from the least significant one.
pub fn byte_of(v: u64, i: u8) -> (r: u8)
    ensures
        r == byte_at(v as nat, i as nat),
{
    let mut x: u64 = v;
    let mut k: u8 = i;
    while k > 0
        invariant
            byte_at(x as nat, k as nat) == byte_at(v as nat, i as nat),
        decreases k,
    {
        x = x / 256;
        k = k - 1;
    }
    (x % 256) as u8
}

/// Position `j` of a `w`-byte integer in byte order `e` holds byte `significance(e, w, j)`.
pub fn significance_of(e: Endian, w: u8, j: u8) -> (r: u8)
    requires
        j < w,
    ensures
        r as nat == significance(e, w as nat, j as nat),
        r < w,
{
    match e {
        Endian::Little => j,
        Endian::Big => w - 1 - j,
    }
}

} // verus!
