use vstd::prelude::*;

verus! {

pub open spec fn pow256(n: nat) -> nat
    decreases n,
{
    if n == 0 {
        1
    } else {
        256 * pow256((n - 1) as nat)
    }
}

/// The number that bytes `s` spell in little-endian order.
pub open spec fn le_value(s: Seq<u8>) -> nat
    decreases s.len(),
{
    if s.len() == 0 {
        0
    } else {
        le_value(s.drop_last()) + pow256((s.len() - 1) as nat) * (s.last() as nat)
    }
}

/// The 8-byte little-endian field that starts at `start`.
pub open spec fn le_u64_at(data: Seq<u8>, start: int) -> u64 {
    le_value(data.subrange(start, start + 8)) as u64
}

pub proof fn lemma_pow256_eight()
    ensures
        pow256(8) == 0x1_0000_0000_0000_0000,
{
    reveal_with_fuel(pow256, 9);
}

pub proof fn lemma_pow256_monotonic(m: nat, n: nat)
    requires
        m <= n,
    ensures
        1 <= pow256(m) <= pow256(n),
    decreases n,
{
    if m < n {
        lemma_pow256_monotonic(m, (n - 1) as nat);
    } else if n > 0 {
        lemma_pow256_monotonic((n - 1) as nat, (n - 1) as nat);
    }
}

/// Reads the `width`-byte little-endian integer that starts at `start`.
pub fn read_le(data: &[u8], start: usize, width: usize) -> (r: u64)
    requires
        width <= 8,
        start + width <= data@.len(),
    ensures
        r == le_value(data@.subrange(start as int, start + width)),
        r < pow256(width as nat),
{
    assert(data@.len() == data.len());
    proof {
        lemma_pow256_eight();
        lemma_pow256_monotonic(width as nat, 8);
    }
    let mut value: u128 = 0;
    let mut scale: u128 = 1;
    let mut i: usize = 0;
    while i < width
        invariant
            i <= width <= 8,
            start + width <= data@.len(),
            data@.len() == data.len(),
            scale == pow256(i as nat),
            value == le_value(data@.subrange(start as int, start + i)),
            value < scale,
            pow256(width as nat) <= 0x1_0000_0000_0000_0000,
        decreases width - i,
    {
        assert(start + i < data@.len());
        let b: u8 = data[start + i];
        let ghost prefix = data@.subrange(start as int, start + i + 1);
        assert(prefix.drop_last() =~= data@.subrange(start as int, start + i));
        assert(prefix.last() == b);
        assert(value + scale * (b as int) < scale * 256) by (nonlinear_arith)
            requires
                value < scale,
                b <= 255,
        ;
        assert(pow256((i + 1) as nat) == 256 * pow256(i as nat));
        proof {
            lemma_pow256_monotonic((i + 1) as nat, width as nat);
        }
        value = value + scale * (b as u128);
        scale = scale * 256;
        i = i + 1;
    }
    value as u64
}

/// Reads the 8-byte little-endian integer that starts at `start`.
pub fn read_u64_le(data: &[u8], start: usize) -> (r: u64)
    requires
        start + 8 <= data@.len(),
    ensures
        r == le_u64_at(data@, start as int),
{
    read_le(data, start, 8)
}

/// Appends `value` as `width` little-endian bytes.
pub fn write_le(out: &mut Vec<u8>, value: u64, width: usize)
    requires
        width <= 8,
        value < pow256(width as nat),
    ensures
        final(out)@.len() == old(out)@.len() + width,
        final(out)@.subrange(0, old(out)@.len() as int) == old(out)@,
        le_value(final(out)@.subrange(old(out)@.len() as int, old(out)@.len() + width)) == value,
{
    let ghost start = out@.len() as int;
    let mut rest: u64 = value;
    let mut i: usize = 0;
    assert(out@.subrange(start, start) =~= Seq::<u8>::empty());
    assert(out@.subrange(0, start) =~= old(out)@);
    assert(pow256(0) == 1);
    while i < width
        invariant
            i <= width <= 8,
            out@.len() == start + i,
            out@.subrange(0, start) == old(out)@,
            start == old(out)@.len(),
            rest as int * pow256(i as nat) + le_value(out@.subrange(start, start + i)) == value,
        decreases width - i,
    {
        let b: u8 = (rest % 256) as u8;
        let ghost before = out@;
        out.push(b);
        proof {
            let seg = out@.subrange(start, start + i + 1);
            assert(seg.drop_last() =~= before.subrange(start, start + i));
            assert(seg.last() == b);
            assert(out@.subrange(0, start) =~= before.subrange(0, start));
            let p = pow256(i as nat);
            assert(pow256((i + 1) as nat) == 256 * p);
            assert((rest as int / 256) * (256 * p) + p * (rest as int % 256) == rest as int * p)
                by (nonlinear_arith);
        }
        rest = rest / 256;
        i = i + 1;
    }
    proof {
        let w = pow256(width as nat);
        let low = le_value(out@.subrange(start, start + width));
        assert(rest == 0) by (nonlinear_arith)
            requires
                rest as int * w + low == value,
                low >= 0,
                value < w,
                w >= 1,
        ;
    }
}

/// Appends `value` as 8 little-endian bytes.
pub fn write_u64_le(out: &mut Vec<u8>, value: u64)
    ensures
        final(out)@.len() == old(out)@.len() + 8,
        final(out)@.subrange(0, old(out)@.len() as int) == old(out)@,
        le_u64_at(final(out)@, old(out)@.len() as int) == value,
{
    proof {
        lemma_pow256_eight();
    }
    write_le(out, value, 8);
}

/// Copies `len` bytes of `data` from `start` on.
pub fn copy_bytes(data: &[u8], start: usize, len: usize) -> (r: Vec<u8>)
    requires
        start + len <= data@.len(),
    ensures
        r@ == data@.subrange(start as int, start + len),
{
    assert(data@.len() == data.len());
    let mut out: Vec<u8> = Vec::new();
    let mut i: usize = 0;
    while i < len
        invariant
            i <= len,
            start + len <= data@.len(),
            data@.len() == data.len(),
            out@ == data@.subrange(start as int, start + i),
        decreases len - i,
    {
        out.push(data[start + i]);
        i = i + 1;
        assert(out@ =~= data@.subrange(start as int, start + i));
    }
    out
}

/// Appends all of `bytes`.
pub fn append_bytes(out: &mut Vec<u8>, bytes: &[u8])
    ensures
        final(out)@ == old(out)@ + bytes@,
{
    assert(bytes@.len() == bytes.len());
    let mut i: usize = 0;
    while i < bytes.len()
        invariant
            i <= bytes@.len(),
            bytes@.len() == bytes.len(),
            out@ == old(out)@ + bytes@.subrange(0, i as int),
        decreases bytes.len() - i,
    {
        out.push(bytes[i]);
        i = i + 1;
        assert(out@ =~= old(out)@ + bytes@.subrange(0, i as int));
    }
    assert(bytes@.subrange(0, bytes@.len() as int) =~= bytes@);
}

} // verus!
