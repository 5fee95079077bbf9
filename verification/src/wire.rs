use vstd::prelude::*;
use vstd::string::StrSliceExecFns;

verus! {

/// Little-endian wire form of a 64-bit unsigned quantity.
pub open spec fn u64_le_spec(x: u64) -> Seq<u8> {
    seq![
        (x & 0xff) as u8,
        ((x >> 8) & 0xff) as u8,
        ((x >> 16) & 0xff) as u8,
        ((x >> 24) & 0xff) as u8,
        ((x >> 32) & 0xff) as u8,
        ((x >> 40) & 0xff) as u8,
        ((x >> 48) & 0xff) as u8,
        ((x >> 56) & 0xff) as u8,
    ]
}

/// Big-endian wire form of a 64-bit unsigned quantity.
pub open spec fn u64_be_spec(x: u64) -> Seq<u8> {
    seq![
        ((x >> 56) & 0xff) as u8,
        ((x >> 48) & 0xff) as u8,
        ((x >> 40) & 0xff) as u8,
        ((x >> 32) & 0xff) as u8,
        ((x >> 24) & 0xff) as u8,
        ((x >> 16) & 0xff) as u8,
        ((x >> 8) & 0xff) as u8,
        (x & 0xff) as u8,
    ]
}

/// Little-endian wire form of one character, as a 32-bit scalar value.
pub open spec fn char_le_spec(c: char) -> Seq<u8> {
    seq![
        ((c as u32) & 0xff) as u8,
        (((c as u32) >> 8) & 0xff) as u8,
        (((c as u32) >> 16) & 0xff) as u8,
        (((c as u32) >> 24) & 0xff) as u8,
    ]
}

/// Big-endian wire form of one character, as a 32-bit scalar value.
pub open spec fn char_be_spec(c: char) -> Seq<u8> {
    seq![
        (((c as u32) >> 24) & 0xff) as u8,
        (((c as u32) >> 16) & 0xff) as u8,
        (((c as u32) >> 8) & 0xff) as u8,
        ((c as u32) & 0xff) as u8,
    ]
}

/// Little-endian wire form of a text: its characters in order.
pub open spec fn text_le_spec(s: Seq<char>) -> Seq<u8>
    decreases s.len(),
{
    if s.len() == 0 {
        Seq::<u8>::empty()
    } else {
        text_le_spec(s.drop_last()) + char_le_spec(s.last())
    }
}

/// Big-endian wire form of a text: its characters in order.
pub open spec fn text_be_spec(s: Seq<char>) -> Seq<u8>
    decreases s.len(),
{
    if s.len() == 0 {
        Seq::<u8>::empty()
    } else {
        text_be_spec(s.drop_last()) + char_be_spec(s.last())
    }
}

/// Appends the little-endian wire form of `x` to `out`.
pub fn put_u64_le(x: u64, out: &mut Vec<u8>)
    ensures
        final(out)@ == old(out)@ + u64_le_spec(x),
{
    proof {
        assert(x & 0xff < 256 && (x >> 8) & 0xff < 256 && (x >> 16) & 0xff < 256
            && (x >> 24) & 0xff < 256 && (x >> 32) & 0xff < 256 && (x >> 40) & 0xff < 256
            && (x >> 48) & 0xff < 256 && (x >> 56) & 0xff < 256) by (bit_vector);
    }
    out.push((x & 0xff) as u8);
    out.push(((x >> 8) & 0xff) as u8);
    out.push(((x >> 16) & 0xff) as u8);
    out.push(((x >> 24) & 0xff) as u8);
    out.push(((x >> 32) & 0xff) as u8);
    out.push(((x >> 40) & 0xff) as u8);
    out.push(((x >> 48) & 0xff) as u8);
    out.push(((x >> 56) & 0xff) as u8);
    proof {
        assert(out@ =~= old(out)@ + u64_le_spec(x));
    }
}

/// Appends the big-endian wire form of `x` to `out`.
pub fn put_u64_be(x: u64, out: &mut Vec<u8>)
    ensures
        final(out)@ == old(out)@ + u64_be_spec(x),
{
    proof {
        assert(x & 0xff < 256 && (x >> 8) & 0xff < 256 && (x >> 16) & 0xff < 256
            && (x >> 24) & 0xff < 256 && (x >> 32) & 0xff < 256 && (x >> 40) & 0xff < 256
            && (x >> 48) & 0xff < 256 && (x >> 56) & 0xff < 256) by (bit_vector);
    }
    out.push(((x >> 56) & 0xff) as u8);
    out.push(((x >> 48) & 0xff) as u8);
    out.push(((x >> 40) & 0xff) as u8);
    out.push(((x >> 32) & 0xff) as u8);
    out.push(((x >> 24) & 0xff) as u8);
    out.push(((x >> 16) & 0xff) as u8);
    out.push(((x >> 8) & 0xff) as u8);
    out.push((x & 0xff) as u8);
    proof {
        assert(out@ =~= old(out)@ + u64_be_spec(x));
    }
}

/// Appends the little-endian wire form of one character to `out`.
pub fn put_char_le(c: char, out: &mut Vec<u8>)
    ensures
        final(out)@ == old(out)@ + char_le_spec(c),
{
    let x: u32 = c as u32;
    proof {
        assert(x & 0xff < 256 && (x >> 8) & 0xff < 256 && (x >> 16) & 0xff < 256
            && (x >> 24) & 0xff < 256) by (bit_vector);
    }
    out.push((x & 0xff) as u8);
    out.push(((x >> 8) & 0xff) as u8);
    out.push(((x >> 16) & 0xff) as u8);
    out.push(((x >> 24) & 0xff) as u8);
    proof {
        assert(out@ =~= old(out)@ + char_le_spec(c));
    }
}

/// Appends the big-endian wire form of one character to `out`.
pub fn put_char_be(c: char, out: &mut Vec<u8>)
    ensures
        final(out)@ == old(out)@ + char_be_spec(c),
{
    let x: u32 = c as u32;
    proof {
        assert(x & 0xff < 256 && (x >> 8) & 0xff < 256 && (x >> 16) & 0xff < 256
            && (x >> 24) & 0xff < 256) by (bit_vector);
    }
    out.push(((x >> 24) & 0xff) as u8);
    out.push(((x >> 16) & 0xff) as u8);
    out.push(((x >> 8) & 0xff) as u8);
    out.push((x & 0xff) as u8);
    proof {
        assert(out@ =~= old(out)@ + char_be_spec(c));
    }
}

/// Appends the little-endian wire form of a text to `out`.
pub fn put_text_le(s: &str, out: &mut Vec<u8>)
    ensures
        final(out)@ == old(out)@ + text_le_spec(s@),
{
    let n: usize = s.unicode_len();
    let mut i: usize = 0;
    while i < n
        invariant
            n == s@.len(),
            i <= n,
            out@ == old(out)@ + text_le_spec(s@.take(i as int)),
        decreases n - i,
    {
        let c: char = s.get_char(i);
        put_char_le(c, out);
        proof {
            assert(s@.take(i + 1 as int).drop_last() =~= s@.take(i as int));
            assert(s@.take(i + 1 as int).last() == s@[i as int]);
        }
        i = i + 1;
    }
    proof {
        assert(s@.take(n as int) =~= s@);
    }
}

/// Appends the big-endian wire form of a text to `out`.
pub fn put_text_be(s: &str, out: &mut Vec<u8>)
    ensures
        final(out)@ == old(out)@ + text_be_spec(s@),
{
    let n: usize = s.unicode_len();
    let mut i: usize = 0;
    while i < n
        invariant
            n == s@.len(),
            i <= n,
            out@ == old(out)@ + text_be_spec(s@.take(i as int)),
        decreases n - i,
    {
        let c: char = s.get_char(i);
        put_char_be(c, out);
        proof {
            assert(s@.take(i + 1 as int).drop_last() =~= s@.take(i as int));
            assert(s@.take(i + 1 as int).last() == s@[i as int]);
        }
        i = i + 1;
    }
    proof {
        assert(s@.take(n as int) =~= s@);
    }
}

} // verus!
