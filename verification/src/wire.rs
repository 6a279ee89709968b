//! Byte-level building blocks shared by the wire codecs.
use vstd::prelude::*;
use vstd::slice::slice_subrange;

verus! {

/// The sixteen lowercase hexadecimal digits, in order of value.
pub open spec fn hex_digits() -> Seq<char> {
    seq!['0', '1', '2', '3', '4', '5', '6', '7', '8', '9', 'a', 'b', 'c', 'd', 'e', 'f']
}

/// Lowercase hexadecimal rendering of `bytes`: two digits per byte, the high
/// nibble first.
pub open spec fn hex_string(bytes: Seq<u8>) -> Seq<char> {
    Seq::new(
        2 * bytes.len(),
        |i: int|
            if i % 2 == 0 {
                hex_digits()[bytes[i / 2] as int / 16]
            } else {
                hex_digits()[bytes[i / 2] as int % 16]
            },
    )
}

/// Calls `hex::encode`. Trusted: the result is the lowercase hexadecimal
/// rendering of the input, two digits per byte with the high nibble first.
#[verifier::external_body]
pub(crate) fn hex_encode(data: &[u8]) -> (s: String)
    ensures
        s@ == hex_string(data@),
{
    hex::encode(data)
}

/// The two bytes of `v`, least significant first.
pub open spec fn u16_le(v: u16) -> Seq<u8> {
    seq![(v % 256) as u8, (v / 256) as u8]
}

/// The 16-bit value whose little-endian bytes are `lo`, `hi`.
pub open spec fn u16_from_le(lo: u8, hi: u8) -> u16 {
    (lo as int + 256 * (hi as int)) as u16
}

/// The two bytes of `v`, most significant first.
pub open spec fn u16_be(v: u16) -> Seq<u8> {
    seq![(v / 256) as u8, (v % 256) as u8]
}

/// The 16-bit value whose big-endian bytes are `hi`, `lo`.
pub open spec fn u16_from_be(hi: u8, lo: u8) -> u16 {
    (256 * (hi as int) + lo as int) as u16
}

/// The four bytes of `v`, least significant first.
pub open spec fn u32_le(v: u32) -> Seq<u8> {
    seq![
        (v % 256) as u8,
        ((v / 256) % 256) as u8,
        ((v / 65536) % 256) as u8,
        (v / 16777216) as u8,
    ]
}

/// The 32-bit value whose little-endian bytes are `b0` to `b3`.
pub open spec fn u32_from_le(b0: u8, b1: u8, b2: u8, b3: u8) -> u32 {
    (b0 as int + 256 * (b1 as int) + 65536 * (b2 as int) + 16777216 * (b3 as int)) as u32
}

/// Calls `byteorder::LittleEndian::read_u16`. Trusted: the result is the
/// value whose low byte is `buf[0]` and whose high byte is `buf[1]`. The
/// outside function panics on fewer than two bytes, which `requires` excludes.
#[verifier::external_body]
fn le_read_u16(buf: &[u8]) -> (v: u16)
    requires
        buf@.len() >= 2,
    ensures
        v == u16_from_le(buf@[0], buf@[1]),
{
    <byteorder::LittleEndian as byteorder::ByteOrder>::read_u16(buf)
}

/// Calls `byteorder::LittleEndian::read_u32`. Trusted: the result is the
/// value whose bytes, least significant first, are `buf[0]` to `buf[3]`. The
/// outside function panics on fewer than four bytes, which `requires` excludes.
#[verifier::external_body]
fn le_read_u32(buf: &[u8]) -> (v: u32)
    requires
        buf@.len() >= 4,
    ensures
        v == u32_from_le(buf@[0], buf@[1], buf@[2], buf@[3]),
{
    <byteorder::LittleEndian as byteorder::ByteOrder>::read_u32(buf)
}

/// Calls `byteorder::LittleEndian::write_u16` on a fresh two-byte buffer.
/// Trusted: the buffer then holds the low byte of `v`, then its high byte.
#[verifier::external_body]
fn le_write_u16(v: u16) -> (b: [u8; 2])
    ensures
        b@ == u16_le(v),
{
    let mut buf = [0u8; 2];
    <byteorder::LittleEndian as byteorder::ByteOrder>::write_u16(&mut buf, v);
    buf
}

/// Calls `byteorder::LittleEndian::write_u32` on a fresh four-byte buffer.
/// Trusted: the buffer then holds the bytes of `v`, least significant first.
#[verifier::external_body]
fn le_write_u32(v: u32) -> (b: [u8; 4])
    ensures
        b@ == u32_le(v),
{
    let mut buf = [0u8; 4];
    <byteorder::LittleEndian as byteorder::ByteOrder>::write_u32(&mut buf, v);
    buf
}

/// Calls `byteorder::BigEndian::read_u16`. Trusted: the result is the value
/// whose high byte is `buf[0]` and whose low byte is `buf[1]`. The outside
/// function panics on fewer than two bytes, which `requires` excludes.
#[verifier::external_body]
fn be_read_u16(buf: &[u8]) -> (v: u16)
    requires
        buf@.len() >= 2,
    ensures
        v == u16_from_be(buf@[0], buf@[1]),
{
    <byteorder::BigEndian as byteorder::ByteOrder>::read_u16(buf)
}

/// Calls `byteorder::BigEndian::write_u16` on a fresh two-byte buffer.
/// Trusted: the buffer then holds the high byte of `v`, then its low byte.
#[verifier::external_body]
fn be_write_u16(v: u16) -> (b: [u8; 2])
    ensures
        b@ == u16_be(v),
{
    let mut buf = [0u8; 2];
    <byteorder::BigEndian as byteorder::ByteOrder>::write_u16(&mut buf, v);
    buf
}

/// Reads the little-endian 16-bit value at `pos`.
pub(crate) fn get_u16_le(data: &[u8], pos: usize) -> (v: u16)
    requires
        pos + 2 <= data@.len(),
    ensures
        v == u16_from_le(data@[pos as int], data@[pos + 1]),
{
    let len = data.len();
    assert(pos + 2 <= len);
    le_read_u16(slice_subrange(data, pos, pos + 2))
}

/// Reads the big-endian 16-bit value at `pos`.
pub(crate) fn get_u16_be(data: &[u8], pos: usize) -> (v: u16)
    requires
        pos + 2 <= data@.len(),
    ensures
        v == u16_from_be(data@[pos as int], data@[pos + 1]),
{
    let len = data.len();
    assert(pos + 2 <= len);
    be_read_u16(slice_subrange(data, pos, pos + 2))
}

/// Reads the little-endian 32-bit value at `pos`.
pub(crate) fn get_u32_le(data: &[u8], pos: usize) -> (v: u32)
    requires
        pos + 4 <= data@.len(),
    ensures
        v == u32_from_le(data@[pos as int], data@[pos + 1], data@[pos + 2], data@[pos + 3]),
{
    let len = data.len();
    assert(pos + 4 <= len);
    le_read_u32(slice_subrange(data, pos, pos + 4))
}

/// Appends `v`, least significant byte first.
pub fn put_u16_le(out: &mut Vec<u8>, v: u16)
    ensures
        final(out)@ == old(out)@ + u16_le(v),
{
    let b = le_write_u16(v);
    out.push(b[0]);
    out.push(b[1]);
    assert(out@ =~= old(out)@ + u16_le(v));
}

/// Appends `v`, most significant byte first.
pub fn put_u16_be(out: &mut Vec<u8>, v: u16)
    ensures
        final(out)@ == old(out)@ + u16_be(v),
{
    let b = be_write_u16(v);
    out.push(b[0]);
    out.push(b[1]);
    assert(out@ =~= old(out)@ + u16_be(v));
}

/// Appends `v`, least significant byte first.
pub fn put_u32_le(out: &mut Vec<u8>, v: u32)
    ensures
        final(out)@ == old(out)@ + u32_le(v),
{
    let b = le_write_u32(v);
    out.push(b[0]);
    out.push(b[1]);
    out.push(b[2]);
    out.push(b[3]);
    assert(out@ =~= old(out)@ + u32_le(v));
}

/// Reading back what `u16_le` wrote gives the value written.
pub proof fn lemma_u16_le_round_trip(v: u16)
    ensures
        u16_le(v).len() == 2,
        u16_from_le(u16_le(v)[0], u16_le(v)[1]) == v,
{
}

/// Reading back what `u16_be` wrote gives the value written.
pub proof fn lemma_u16_be_round_trip(v: u16)
    ensures
        u16_be(v).len() == 2,
        u16_from_be(u16_be(v)[0], u16_be(v)[1]) == v,
{
}

/// Reading back what `u32_le` wrote gives the value written.
pub proof fn lemma_u32_le_round_trip(v: u32)
    ensures
        u32_le(v).len() == 4,
        u32_from_le(u32_le(v)[0], u32_le(v)[1], u32_le(v)[2], u32_le(v)[3]) == v,
{
}

/// A pair of 12-bit values packed into three bytes: the first byte is the
/// low eight bits of `x`; the second holds the high four bits of `x` in its
/// low nibble and the low four bits of `y` in its high nibble; the third is
/// the high eight bits of `y`. Bits above the twelfth are dropped.
pub open spec fn xy12_bytes(x: u16, y: u16) -> Seq<u8> {
    seq![
        (x % 256) as u8,
        ((x / 256) % 16 + (y % 16) * 16) as u8,
        ((y / 16) % 256) as u8,
    ]
}

/// The first value packed in the three bytes.
pub open spec fn xy12_x(b0: u8, b1: u8, b2: u8) -> u16 {
    (b0 as int + (b1 as int % 16) * 256) as u16
}

/// The second value packed in the three bytes.
pub open spec fn xy12_y(b0: u8, b1: u8, b2: u8) -> u16 {
    (b1 as int / 16 + (b2 as int) * 16) as u16
}

/// Packs two 12-bit values into three bytes.
pub fn pack_xy12(x: u16, y: u16) -> (b: [u8; 3])
    ensures
        b@ == xy12_bytes(x, y),
{
    let b = [(x % 256) as u8, ((x / 256) % 16 + (y % 16) * 16) as u8, ((y / 16) % 256) as u8];
    assert(b@ =~= xy12_bytes(x, y));
    b
}

/// Unpacks the two 12-bit values held in three bytes.
pub fn unpack_xy12(b0: u8, b1: u8, b2: u8) -> (xy: (u16, u16))
    ensures
        xy.0 == xy12_x(b0, b1, b2),
        xy.1 == xy12_y(b0, b1, b2),
        xy.0 < 4096,
        xy.1 < 4096,
{
    (b0 as u16 + (b1 as u16 % 16) * 256, b1 as u16 / 16 + (b2 as u16) * 16)
}

/// Unpacking what was packed gives back both values, where each fits in
/// twelve bits.
pub proof fn lemma_xy12_round_trip(x: u16, y: u16)
    requires
        x < 4096,
        y < 4096,
    ensures
        xy12_bytes(x, y).len() == 3,
        xy12_x(xy12_bytes(x, y)[0], xy12_bytes(x, y)[1], xy12_bytes(x, y)[2]) == x,
        xy12_y(xy12_bytes(x, y)[0], xy12_bytes(x, y)[1], xy12_bytes(x, y)[2]) == y,
{
}

} // verus!
