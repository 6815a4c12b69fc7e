use vstd::prelude::*;

verus! {

/// Little-endian encoding of a 16-bit word.
pub open spec fn le16(v: u16) -> Seq<u8> {
    seq![v as u8, (v >> 8u16) as u8]
}

/// Little-endian encoding of a 32-bit word.
pub open spec fn le32(v: u32) -> Seq<u8> {
    seq![v as u8, (v >> 8u32) as u8, (v >> 16u32) as u8, (v >> 24u32) as u8]
}

/// Little-endian encoding of a 64-bit word.
pub open spec fn le64(v: u64) -> Seq<u8> {
    le32(v as u32) + le32((v >> 32u64) as u32)
}

/// Little-endian encoding of a sequence of 32-bit words, one after the other.
pub open spec fn le32_words(s: Seq<u32>) -> Seq<u8>
    decreases s.len(),
{
    if s.len() == 0 {
        Seq::empty()
    } else {
        le32_words(s.drop_last()) + le32(s.last())
    }
}

/// `n` zero bytes.
pub open spec fn zeros(n: nat) -> Seq<u8> {
    Seq::new(n, |i: int| 0u8)
}

/// The 16-bit word whose little-endian encoding is `s[at..at + 2]`.
pub open spec fn word16_at(s: Seq<u8>, at: int) -> u16 {
    (s[at] as u16) | ((s[at + 1] as u16) << 8u16)
}

pub proof fn lemma_le32_words_len(s: Seq<u32>)
    ensures
        le32_words(s).len() == 4 * s.len(),
    decreases s.len(),
{
    if s.len() > 0 {
        lemma_le32_words_len(s.drop_last());
    }
}

pub proof fn lemma_word16_of_le16(v: u16)
    ensures
        word16_at(le16(v), 0) == v,
{
    let s = le16(v);
    assert(s[0] == v as u8 && s[1] == (v >> 8u16) as u8);
    assert(((v as u8) as u16) | ((((v >> 8u16) as u8) as u16) << 8u16) == v) by (bit_vector);
}

pub proof fn lemma_le32_injective(x: u32, y: u32)
    requires
        le32(x) == le32(y),
    ensures
        x == y,
{
    assert(le32(x)[0] == le32(y)[0] && le32(x)[1] == le32(y)[1] && le32(x)[2] == le32(y)[2]
        && le32(x)[3] == le32(y)[3]);
    assert(x == y) by (bit_vector)
        requires
            x as u8 == y as u8,
            (x >> 8u32) as u8 == (y >> 8u32) as u8,
            (x >> 16u32) as u8 == (y >> 16u32) as u8,
            (x >> 24u32) as u8 == (y >> 24u32) as u8,
    ;
}

pub fn push_le32(out: &mut Vec<u8>, v: u32)
    ensures
        final(out)@ == old(out)@ + le32(v),
{
    out.push(v as u8);
    out.push((v >> 8u32) as u8);
    out.push((v >> 16u32) as u8);
    out.push((v >> 24u32) as u8);
    assert(final(out)@ =~= old(out)@ + le32(v));
}

pub fn push_le64(out: &mut Vec<u8>, v: u64)
    ensures
        final(out)@ == old(out)@ + le64(v),
{
    push_le32(out, v as u32);
    push_le32(out, (v >> 32u64) as u32);
    assert(final(out)@ =~= old(out)@ + le64(v));
}

/// Appends every byte of `data`.
pub fn push_all(out: &mut Vec<u8>, data: &[u8])
    ensures
        final(out)@ == old(out)@ + data@,
{
    let mut i: usize = 0;
    while i < data.len()
        invariant
            i <= data@.len(),
            out@ == old(out)@ + data@.subrange(0, i as int),
        decreases data@.len() - i,
    {
        out.push(data[i]);
        i = i + 1;
        assert(out@ =~= old(out)@ + data@.subrange(0, i as int));
    }
    assert(data@.subrange(0, i as int) =~= data@);
}

/// Appends `n` copies of `b`.
pub fn push_fill(out: &mut Vec<u8>, b: u8, n: usize)
    ensures
        final(out)@ == old(out)@ + Seq::new(n as nat, |i: int| b),
{
    let mut i: usize = 0;
    while i < n
        invariant
            i <= n,
            out@ == old(out)@ + Seq::new(i as nat, |j: int| b),
        decreases n - i,
    {
        out.push(b);
        i = i + 1;
        assert(out@ =~= old(out)@ + Seq::new(i as nat, |j: int| b));
    }
}

/// Reads the little-endian 16-bit word at `at`.
pub fn read_le16(b: &[u8], at: usize) -> (r: u16)
    requires
        at + 2 <= b@.len(),
    ensures
        le16(r) == b@.subrange(at as int, at + 2),
        r == word16_at(b@, at as int),
{
    let b0 = b[at];
    let b1 = b[at + 1];
    let r: u16 = (b0 as u16) | ((b1 as u16) << 8u16);
    assert(r as u8 == b0 && (r >> 8u16) as u8 == b1) by (bit_vector)
        requires
            r == (b0 as u16) | ((b1 as u16) << 8u16),
    ;
    assert(le16(r) =~= b@.subrange(at as int, at + 2));
    r
}

/// Reads the little-endian 32-bit word at `at`.
pub fn read_le32(b: &[u8], at: usize) -> (r: u32)
    requires
        at + 4 <= b@.len(),
    ensures
        le32(r) == b@.subrange(at as int, at + 4),
{
    let b0 = b[at];
    let b1 = b[at + 1];
    let b2 = b[at + 2];
    let b3 = b[at + 3];
    let r: u32 = (b0 as u32) | ((b1 as u32) << 8u32) | ((b2 as u32) << 16u32) | ((b3 as u32)
        << 24u32);
    assert(r as u8 == b0 && (r >> 8u32) as u8 == b1 && (r >> 16u32) as u8 == b2 && (r >> 24u32)
        as u8 == b3) by (bit_vector)
        requires
            r == (b0 as u32) | ((b1 as u32) << 8u32) | ((b2 as u32) << 16u32) | ((b3 as u32)
                << 24u32),
    ;
    assert(le32(r) =~= b@.subrange(at as int, at + 4));
    r
}

/// Reads the little-endian 64-bit word at `at`.
pub fn read_le64(b: &[u8], at: usize) -> (r: u64)
    requires
        at + 8 <= b@.len(),
    ensures
        le64(r) == b@.subrange(at as int, at + 8),
{
    let _len: usize = b.len();
    let lo = read_le32(b, at);
    let hi = read_le32(b, at + 4);
    let r: u64 = (lo as u64) | ((hi as u64) << 32u64);
    assert(r as u32 == lo && (r >> 32u64) as u32 == hi) by (bit_vector)
        requires
            r == (lo as u64) | ((hi as u64) << 32u64),
    ;
    assert(le64(r) =~= b@.subrange(at as int, at + 8));
    r
}

/// Copies `b[at..at + n]` into a new vector.
pub fn read_bytes(b: &[u8], at: usize, n: usize) -> (r: Vec<u8>)
    requires
        at + n <= b@.len(),
    ensures
        r@ == b@.subrange(at as int, at + n),
{
    let len = b.len();
    let mut r: Vec<u8> = Vec::new();
    let mut i: usize = 0;
    while i < n
        invariant
            i <= n,
            at + n <= b@.len(),
            len == b@.len(),
            r@ == b@.subrange(at as int, at + i),
        decreases n - i,
    {
        r.push(b[at + i]);
        i = i + 1;
        assert(r@ =~= b@.subrange(at as int, at + i));
    }
    r
}

/// The word `w` with the field `mask << lo` replaced by `v & mask`.
pub open spec fn set_field(w: u32, lo: u32, mask: u32, v: u32) -> u32 {
    (w & !(mask << lo)) | ((v & mask) << lo)
}

/// The field `mask << lo` of `w`, shifted down.
pub open spec fn get_field(w: u32, lo: u32, mask: u32) -> u32 {
    (w >> lo) & mask
}

pub fn with_field(w: u32, lo: u32, mask: u32, v: u32) -> (r: u32)
    requires
        lo < 32,
    ensures
        r == set_field(w, lo, mask, v),
{
    (w & !(mask << lo)) | ((v & mask) << lo)
}

pub fn field(w: u32, lo: u32, mask: u32) -> (r: u32)
    requires
        lo < 32,
    ensures
        r == get_field(w, lo, mask),
        r <= mask,
{
    let r = (w >> lo) & mask;
    assert(r <= mask) by (bit_vector)
        requires
            r == (w >> lo) & mask,
    ;
    r
}

} // verus!
