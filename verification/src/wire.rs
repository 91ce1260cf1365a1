use vstd::prelude::*;

verus! {

/// The unsigned value of a little-endian byte string.
pub open spec fn le_value(bytes: Seq<u8>) -> nat
    decreases bytes.len(),
{
    if bytes.len() == 0 {
        0
    } else {
        bytes[0] as nat + 256 * le_value(bytes.skip(1))
    }
}

/// `256^n`, the number of distinct values of an `n`-byte string.
pub open spec fn pow256(n: nat) -> nat
    decreases n,
{
    if n == 0 {
        1
    } else {
        256 * pow256((n - 1) as nat)
    }
}

/// The signed value of a little-endian byte string: the unsigned value,
/// sign-extended from the top bit of the last (most significant) byte.
pub open spec fn le_signed(bytes: Seq<u8>) -> int {
    if bytes.len() > 0 && bytes.last() >= 0x80 {
        le_value(bytes) - pow256(bytes.len())
    } else {
        le_value(bytes) as int
    }
}

pub proof fn lemma_pow256_values()
    ensures
        pow256(0) == 1,
        pow256(1) == 0x100,
        pow256(2) == 0x10000,
        pow256(3) == 0x1000000,
        pow256(4) == 0x100000000,
        pow256(5) == 0x10000000000,
        pow256(6) == 0x1000000000000,
        pow256(7) == 0x100000000000000,
        pow256(8) == 0x10000000000000000,
{
    assert(pow256(0) == 1);
    assert(pow256(1) == 0x100);
    assert(pow256(2) == 0x10000);
    assert(pow256(3) == 0x1000000);
    assert(pow256(4) == 0x100000000);
    assert(pow256(5) == 0x10000000000);
    assert(pow256(6) == 0x1000000000000);
    assert(pow256(7) == 0x100000000000000);
    assert(pow256(8) == 0x10000000000000000);
}

pub proof fn lemma_pow256_mono(a: nat, b: nat)
    requires
        a <= b,
    ensures
        pow256(a) <= pow256(b),
    decreases b,
{
    if a < b {
        lemma_pow256_mono(a, (b - 1) as nat);
    }
}

/// An `n`-byte string holds a value below `256^n`.
pub proof fn lemma_le_value_bound(bytes: Seq<u8>)
    ensures
        le_value(bytes) < pow256(bytes.len()),
    decreases bytes.len(),
{
    if bytes.len() > 0 {
        lemma_le_value_bound(bytes.skip(1));
    }
}

/// A window of a sequence, named from its start, is the same bytes as the
/// take of the skip.
pub proof fn lemma_subrange_is_skip_take(s: Seq<u8>, pos: int, width: int)
    requires
        0 <= pos,
        0 <= width,
        pos + width <= s.len(),
    ensures
        s.subrange(pos, pos + width) == s.skip(pos).take(width),
{
    assert(s.subrange(pos, pos + width) =~= s.skip(pos).take(width));
}

/// Read `width` bytes at `pos`, little-endian, into an unsigned integer.
pub fn read_le_unsigned(data: &[u8], pos: usize, width: usize) -> (r: u64)
    requires
        width <= 8,
        pos + width <= data@.len(),
    ensures
        r == le_value(data@.subrange(pos as int, pos as int + width as int)),
{
    let dlen = data.len();
    let mut acc: u64 = 0;
    let mut j: usize = width;
    proof {
        assert(data@.subrange(pos + width as int, pos + width as int) =~= Seq::<u8>::empty());
    }
    while j > 0
        invariant
            j <= width,
            width <= 8,
            pos + width <= dlen,
            dlen == data@.len(),
            acc == le_value(data@.subrange(pos + j as int, pos + width as int)),
            acc < pow256((width - j) as nat),
        decreases j,
    {
        j = j - 1;
        let b = data[pos + j];
        proof {
            let s = data@.subrange(pos + j as int, pos + width as int);
            assert(s.len() == width - j);
            assert(s[0] == data@[pos + j as int]);
            assert(s.skip(1) =~= data@.subrange(pos + j as int + 1, pos + width as int));
            lemma_pow256_mono((width - j - 1) as nat, 7);
            lemma_pow256_values();
            assert(acc < pow256((width - j - 1) as nat));
        }
        acc = acc * 256 + (b as u64);
    }
    acc
}

/// Read `width` bytes at `pos`, little-endian, sign-extending from the
/// declared width's sign bit.
pub fn read_le_signed(data: &[u8], pos: usize, width: usize) -> (r: i64)
    requires
        1 <= width <= 4,
        pos + width <= data@.len(),
    ensures
        r == le_signed(data@.subrange(pos as int, pos as int + width as int)),
{
    let dlen = data.len();
    let m = read_le_unsigned(data, pos, width);
    proof {
        let s = data@.subrange(pos as int, pos as int + width as int);
        lemma_le_value_bound(s);
        lemma_pow256_mono(width as nat, 4);
        lemma_pow256_values();
        assert(m < 0x100000000);
        assert(s.last() == data@[pos + width as int - 1]);
    }
    let top = data[pos + width - 1];
    let modulus: i64 = if width == 1 {
        0x100
    } else if width == 2 {
        0x10000
    } else if width == 3 {
        0x1000000
    } else {
        0x100000000
    };
    proof {
        assert(modulus == pow256(width as nat));
    }
    if top >= 0x80 {
        (m as i64) - modulus
    } else {
        m as i64
    }
}

} // verus!
