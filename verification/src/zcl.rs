//! Messages of the Hue entertainment cluster, and their parsers.
//!
//! Each message has a specification function that gives its bytes and one
//! that says what bytes parse to; the laws at the end show that parsing
//! inverts packing.
use vstd::prelude::*;

use crate::error::{ZclError, ZclResult};
use crate::wire::{
    get_u16_be, get_u16_le, get_u32_le, lemma_u16_be_round_trip, lemma_u16_le_round_trip,
    lemma_u32_le_round_trip, put_u16_be, put_u16_le, put_u32_le, u16_be, u16_from_be, u16_from_le,
    u16_le, u32_from_le, u32_le, unpack_xy12, xy12_x, xy12_y,
};

verus! {

/// The stream reset message: two fixed bytes and the frame counter.
#[derive(Debug, Clone, Copy, PartialEq, Eq, Structural)]
pub struct HueEntStop {
    pub x0: u8,
    pub x1: u8,
    pub counter: u32,
}

impl HueEntStop {
    /// The six bytes of the message: `x0`, `x1`, then the counter,
    /// little-endian.
    pub open spec fn bytes(self) -> Seq<u8> {
        seq![self.x0, self.x1] + u32_le(self.counter)
    }

    /// The message that six bytes hold.
    pub open spec fn from_bytes(b: Seq<u8>) -> HueEntStop
        recommends
            b.len() == 6,
    {
        HueEntStop { x0: b[0], x1: b[1], counter: u32_from_le(b[2], b[3], b[4], b[5]) }
    }

    /// Packs the message into its six bytes.
    pub fn pack_to_vec(&self) -> (out: Vec<u8>)
        ensures
            out@ == self.bytes(),
            out@.len() == 6,
    {
        let mut out: Vec<u8> = Vec::new();
        out.push(self.x0);
        out.push(self.x1);
        put_u32_le(&mut out, self.counter);
        assert(out@ =~= self.bytes());
        out
    }

    /// Parses the message; fails unless there are exactly six bytes.
    pub fn parse(data: &[u8]) -> (r: ZclResult<HueEntStop>)
        ensures
            r is Ok <==> data@.len() == 6,
            r matches Ok(m) ==> m == Self::from_bytes(data@),
            r matches Err(e) ==> e == ZclError::InvalidValue,
    {
        if data.len() != 6 {
            return Err(ZclError::InvalidValue);
        }
        Ok(HueEntStop { x0: data[0], x1: data[1], counter: get_u32_le(data, 2) })
    }

    /// Parsing inverts packing.
    pub proof fn lemma_round_trip(self)
        ensures
            self.bytes().len() == 6,
            Self::from_bytes(self.bytes()) == self,
    {
        lemma_u32_le_round_trip(self.counter);
    }
}

/// The stream start message, which is also the segment map: a count and
/// that many member identifiers.
#[derive(Debug, Clone, PartialEq, Eq)]
pub struct HueEntStart {
    pub count: u16,
    pub members: Vec<u16>,
}

/// What a `HueEntStart` holds.
pub struct HueEntStartView {
    pub count: u16,
    pub members: Seq<u16>,
}

impl View for HueEntStart {
    type V = HueEntStartView;

    open spec fn view(&self) -> HueEntStartView {
        HueEntStartView { count: self.count, members: self.members@ }
    }
}

/// The bytes of `members`: each identifier little-endian, in order.
pub open spec fn members_bytes(members: Seq<u16>) -> Seq<u8> {
    Seq::new(2 * members.len(), |i: int| u16_le(members[i / 2])[i % 2])
}

/// The `n` identifiers that stand in `bytes` from `start` on.
pub open spec fn members_at(bytes: Seq<u8>, start: int, n: int) -> Seq<u16> {
    Seq::new(n as nat, |i: int| u16_from_le(bytes[start + 2 * i], bytes[start + 2 * i + 1]))
}

impl HueEntStartView {
    /// The count is the number of members.
    pub open spec fn wf(self) -> bool {
        self.count == self.members.len()
    }

    /// The bytes of the message: the count, big-endian, then the members.
    pub open spec fn bytes(self) -> Seq<u8> {
        u16_be(self.count) + members_bytes(self.members)
    }

    /// What `bytes` parse to: they must hold a count and exactly that many
    /// members.
    pub open spec fn parse_spec(bytes: Seq<u8>) -> Result<HueEntStartView, ZclError> {
        if bytes.len() < 2 {
            Err(ZclError::InvalidValue)
        } else {
            let count = u16_from_be(bytes[0], bytes[1]);
            if count * 2 != bytes.len() - 2 {
                Err(ZclError::InvalidValue)
            } else {
                Ok(HueEntStartView { count, members: members_at(bytes, 2, count as int) })
            }
        }
    }

    /// Parsing inverts packing, where the count is the number of members.
    pub proof fn lemma_round_trip(self)
        requires
            self.wf(),
        ensures
            Self::parse_spec(self.bytes()) == Ok::<_, ZclError>(self),
    {
        let b = self.bytes();
        let mb = members_bytes(self.members);
        lemma_u16_be_round_trip(self.count);
        assert(b.len() == 2 + 2 * self.members.len());
        assert(b[0] == u16_be(self.count)[0]);
        assert(b[1] == u16_be(self.count)[1]);
        let parsed = members_at(b, 2, self.count as int);
        assert forall|i: int| 0 <= i < self.members.len() implies parsed[i]
            == self.members[i] by {
            let m = self.members[i];
            lemma_u16_le_round_trip(m);
            assert(b[2 + 2 * i] == mb[2 * i]);
            assert(b[2 + 2 * i + 1] == mb[2 * i + 1]);
            assert((2 * i) / 2 == i && (2 * i) % 2 == 0);
            assert((2 * i + 1) / 2 == i && (2 * i + 1) % 2 == 1);
        }
        assert(parsed =~= self.members);
    }
}

impl HueEntStart {
    /// The message that carries `members`, if their number fits the count.
    pub fn new(members: &[u16]) -> (r: Option<HueEntStart>)
        ensures
            r is Some <==> members@.len() <= u16::MAX,
            r matches Some(m) ==> m@.wf() && m@.members == members@,
    {
        let n = members.len();
        if n > u16::MAX as usize {
            return None;
        }
        let mut list: Vec<u16> = Vec::new();
        let mut i: usize = 0;
        while i < n
            invariant
                n == members@.len(),
                i <= n,
                list@ == members@.subrange(0, i as int),
            decreases n - i,
        {
            list.push(members[i]);
            i += 1;
            assert(list@ =~= members@.subrange(0, i as int));
        }
        assert(members@.subrange(0, n as int) =~= members@);
        Some(HueEntStart { count: n as u16, members: list })
    }

    /// Packs the message: the count, big-endian, then each member,
    /// little-endian.
    pub fn pack(&self) -> (out: Vec<u8>)
        ensures
            out@ == self@.bytes(),
    {
        let mut out: Vec<u8> = Vec::new();
        put_u16_be(&mut out, self.count);
        let n = self.members.len();
        let mut i: usize = 0;
        while i < n
            invariant
                n == self.members@.len(),
                i <= n,
                out@ == u16_be(self.count) + members_bytes(self.members@.subrange(0, i as int)),
            decreases n - i,
        {
            let m = self.members[i];
            put_u16_le(&mut out, m);
            proof {
                let shorter = members_bytes(self.members@.subrange(0, i as int));
                let longer = members_bytes(self.members@.subrange(0, i + 1));
                assert forall|k: int| 0 <= k < longer.len() implies longer[k] == (shorter + u16_le(
                    m,
                ))[k] by {
                    if k < shorter.len() {
                        assert(self.members@.subrange(0, i + 1)[k / 2] == self.members@.subrange(
                            0,
                            i as int,
                        )[k / 2]);
                    } else {
                        assert(k / 2 == i);
                        assert(k % 2 == k - shorter.len());
                    }
                }
                assert(longer =~= shorter + u16_le(m));
                assert(out@ =~= u16_be(self.count) + longer);
            }
            i += 1;
        }
        assert(self.members@.subrange(0, n as int) =~= self.members@);
        out
    }

    /// Parses the message. Fails with `InvalidValue` unless the bytes hold
    /// a big-endian count and exactly that many little-endian members.
    pub fn parse(data: &[u8]) -> (r: ZclResult<HueEntStart>)
        ensures
            match r {
                Ok(m) => HueEntStartView::parse_spec(data@) == Ok::<_, ZclError>(m@),
                Err(e) => HueEntStartView::parse_spec(data@) == Err::<HueEntStartView, _>(e),
            },
    {
        let n = data.len();
        if n < 2 {
            return Err(ZclError::InvalidValue);
        }
        let count = get_u16_be(data, 0);
        if (count as usize) * 2 != n - 2 {
            return Err(ZclError::InvalidValue);
        }
        let mut members: Vec<u16> = Vec::new();
        let mut i: usize = 0;
        while i < count as usize
            invariant
                n == data@.len(),
                n == 2 + 2 * count,
                i <= count,
                members@ == members_at(data@, 2, i as int),
            decreases count - i,
        {
            members.push(get_u16_le(data, 2 + 2 * i));
            i += 1;
            assert(members@ =~= members_at(data@, 2, i as int));
        }
        Ok(HueEntStart { count, members })
    }
}

/// The six bytes in front of the light records of a frame.
#[derive(Debug, Clone, Copy, PartialEq, Eq, Structural)]
pub struct HueEntFrameHeader {
    pub counter: u32,
    pub x0: u16,
}

impl HueEntFrameHeader {
    /// The six bytes of the header: the counter, then `x0`, both
    /// little-endian.
    pub open spec fn bytes(self) -> Seq<u8> {
        u32_le(self.counter) + u16_le(self.x0)
    }

    /// The header that stands at the start of `b`.
    pub open spec fn from_bytes(b: Seq<u8>) -> HueEntFrameHeader
        recommends
            b.len() >= 6,
    {
        HueEntFrameHeader {
            counter: u32_from_le(b[0], b[1], b[2], b[3]),
            x0: u16_from_le(b[4], b[5]),
        }
    }

    /// Unpacks the header at the start of `data`.
    pub(crate) fn unpack_at(data: &[u8]) -> (h: HueEntFrameHeader)
        requires
            data.len() >= 6,
        ensures
            h == Self::from_bytes(data@),
    {
        HueEntFrameHeader { counter: get_u32_le(data, 0), x0: get_u16_le(data, 4) }
    }

    /// Unpacks a header from its six bytes. Fails with `InvalidValue`
    /// unless there are exactly six.
    pub fn unpack_from_slice(data: &[u8]) -> (r: ZclResult<HueEntFrameHeader>)
        ensures
            r is Ok <==> data@.len() == 6,
            r matches Ok(h) ==> h == Self::from_bytes(data@),
            r matches Err(e) ==> e == ZclError::InvalidValue,
    {
        if data.len() != 6 {
            return Err(ZclError::InvalidValue);
        }
        Ok(Self::unpack_at(data))
    }
}

/// One light of a frame: its address, its brightness, and its colour as a
/// pair of 12-bit coordinates packed into three bytes.
#[derive(Debug, Clone, Copy, PartialEq, Eq)]
pub struct HueEntFrameLight {
    pub addr: u16,
    pub b: u16,
    pub raw: [u8; 3],
}

impl HueEntFrameLight {
    /// The seven bytes of the record: address and brightness,
    /// little-endian, then the packed colour.
    pub open spec fn bytes(self) -> Seq<u8> {
        u16_le(self.addr) + u16_le(self.b) + self.raw@
    }

    /// The record whose seven bytes stand in `bytes` at `at`.
    pub open spec fn at(bytes: Seq<u8>, at: int) -> HueEntFrameLight {
        HueEntFrameLight {
            addr: u16_from_le(bytes[at], bytes[at + 1]),
            b: u16_from_le(bytes[at + 2], bytes[at + 3]),
            raw: [bytes[at + 4], bytes[at + 5], bytes[at + 6]],
        }
    }

    /// Unpacks the record at `pos`.
    pub(crate) fn unpack_at(data: &[u8], pos: usize) -> (l: HueEntFrameLight)
        requires
            pos + 7 <= data.len(),
        ensures
            l == Self::at(data@, pos as int),
    {
        let l = HueEntFrameLight {
            addr: get_u16_le(data, pos),
            b: get_u16_le(data, pos + 2),
            raw: [data[pos + 4], data[pos + 5], data[pos + 6]],
        };
        assert(l.raw =~= Self::at(data@, pos as int).raw);
        l
    }

    /// Unpacks a record from its seven bytes. Fails with `InvalidValue`
    /// unless there are exactly seven.
    pub fn unpack_from_slice(data: &[u8]) -> (r: ZclResult<HueEntFrameLight>)
        ensures
            r is Ok <==> data@.len() == 7,
            r matches Ok(l) ==> l == Self::at(data@, 0),
            r matches Err(e) ==> e == ZclError::InvalidValue,
    {
        if data.len() != 7 {
            return Err(ZclError::InvalidValue);
        }
        Ok(Self::unpack_at(data, 0))
    }

    /// Appends the seven bytes of the record.
    pub fn pack_into(&self, out: &mut Vec<u8>)
        ensures
            final(out)@ == old(out)@ + self.bytes(),
    {
        put_u16_le(out, self.addr);
        put_u16_le(out, self.b);
        out.push(self.raw[0]);
        out.push(self.raw[1]);
        out.push(self.raw[2]);
        assert(out@ =~= old(out)@ + self.bytes());
    }

    /// The colour of the light: its two 12-bit coordinates.
    pub fn xy12(&self) -> (xy: (u16, u16))
        ensures
            xy.0 == xy12_x(self.raw@[0], self.raw@[1], self.raw@[2]),
            xy.1 == xy12_y(self.raw@[0], self.raw@[1], self.raw@[2]),
            xy.0 < 4096,
            xy.1 < 4096,
    {
        unpack_xy12(self.raw[0], self.raw[1], self.raw[2])
    }

    /// A record is read back from its bytes, wherever they stand.
    pub proof fn lemma_round_trip(self, bytes: Seq<u8>, at: int)
        requires
            0 <= at,
            at + 7 <= bytes.len(),
            forall|j: int| 0 <= j < 7 ==> bytes[at + j] == self.bytes()[j],
        ensures
            self.bytes().len() == 7,
            Self::at(bytes, at) == self,
    {
        lemma_u16_le_round_trip(self.addr);
        lemma_u16_le_round_trip(self.b);
        let sb = self.bytes();
        assert(sb.len() == 7);
        assert(bytes[at + 0] == sb[0]);
        assert(bytes[at + 1] == sb[1]);
        assert(bytes[at + 2] == sb[2]);
        assert(bytes[at + 3] == sb[3]);
        assert(bytes[at + 4] == sb[4]);
        assert(bytes[at + 5] == sb[5]);
        assert(bytes[at + 6] == sb[6]);
        assert(Self::at(bytes, at).raw =~= self.raw);
    }
}

/// A frame of the entertainment stream: the counter, the smoothing, and
/// one record for each light.
#[derive(Debug, Clone, PartialEq, Eq)]
pub struct HueEntFrame {
    pub counter: u32,
    pub x0: u16,
    pub blks: Vec<HueEntFrameLight>,
}

/// What a `HueEntFrame` holds.
pub struct HueEntFrameView {
    pub counter: u32,
    pub x0: u16,
    pub blks: Seq<HueEntFrameLight>,
}

impl View for HueEntFrame {
    type V = HueEntFrameView;

    open spec fn view(&self) -> HueEntFrameView {
        HueEntFrameView { counter: self.counter, x0: self.x0, blks: self.blks@ }
    }
}

/// The bytes of the light records, seven for each.
pub open spec fn lights_bytes(blks: Seq<HueEntFrameLight>) -> Seq<u8> {
    Seq::new(7 * blks.len(), |i: int| blks[i / 7].bytes()[i % 7])
}

/// The `n` light records that stand in `bytes` from `start` on.
pub open spec fn lights_at(bytes: Seq<u8>, start: int, n: int) -> Seq<HueEntFrameLight> {
    Seq::new(n as nat, |i: int| HueEntFrameLight::at(bytes, start + 7 * i))
}

impl HueEntFrameView {
    /// The bytes of the frame: the header, then the light records.
    pub open spec fn bytes(self) -> Seq<u8> {
        u32_le(self.counter) + u16_le(self.x0) + lights_bytes(self.blks)
    }

    /// What `bytes` parse to: a header and then whole light records, as
    /// many as there are up to the end, with nothing left over. A header
    /// alone is a frame without lights.
    pub open spec fn parse_spec(bytes: Seq<u8>) -> Result<HueEntFrameView, ZclError> {
        if bytes.len() < 6 || (bytes.len() - 6) % 7 != 0 {
            Err(ZclError::InvalidValue)
        } else {
            let h = HueEntFrameHeader::from_bytes(bytes);
            Ok(
                HueEntFrameView {
                    counter: h.counter,
                    x0: h.x0,
                    blks: lights_at(bytes, 6, (bytes.len() - 6) / 7),
                },
            )
        }
    }

    /// Parsing inverts packing.
    pub proof fn lemma_round_trip(self)
        ensures
            Self::parse_spec(self.bytes()) == Ok::<_, ZclError>(self),
    {
        let b = self.bytes();
        let lb = lights_bytes(self.blks);
        let n = self.blks.len() as int;
        lemma_u32_le_round_trip(self.counter);
        lemma_u16_le_round_trip(self.x0);
        assert(b.len() == 6 + 7 * n);
        assert(b[0] == u32_le(self.counter)[0]);
        assert(b[1] == u32_le(self.counter)[1]);
        assert(b[2] == u32_le(self.counter)[2]);
        assert(b[3] == u32_le(self.counter)[3]);
        assert(b[4] == u16_le(self.x0)[0]);
        assert(b[5] == u16_le(self.x0)[1]);
        assert((b.len() - 6) / 7 == n && (b.len() - 6) % 7 == 0);
        let parsed = lights_at(b, 6, n);
        assert forall|i: int| 0 <= i < n implies parsed[i] == self.blks[i] by {
            let l = self.blks[i];
            lemma_u16_le_round_trip(l.addr);
            lemma_u16_le_round_trip(l.b);
            assert(l.bytes().len() == 7);
            assert forall|j: int| 0 <= j < 7 implies b[6 + 7 * i + j] == l.bytes()[j] by {
                assert(b[6 + 7 * i + j] == lb[7 * i + j]);
                assert((7 * i + j) / 7 == i && (7 * i + j) % 7 == j);
            }
            l.lemma_round_trip(b, 6 + 7 * i);
        }
        assert(parsed =~= self.blks);
    }
}

impl HueEntFrame {
    /// Packs the frame: the counter and `x0`, little-endian, then the
    /// light records.
    pub fn pack(&self) -> (out: Vec<u8>)
        ensures
            out@ == self@.bytes(),
    {
        let mut out: Vec<u8> = Vec::new();
        put_u32_le(&mut out, self.counter);
        put_u16_le(&mut out, self.x0);
        let ghost head = out@;
        let n = self.blks.len();
        let mut i: usize = 0;
        while i < n
            invariant
                n == self.blks@.len(),
                i <= n,
                head == u32_le(self.counter) + u16_le(self.x0),
                out@ == head + lights_bytes(self.blks@.subrange(0, i as int)),
            decreases n - i,
        {
            let l = self.blks[i];
            l.pack_into(&mut out);
            proof {
                lemma_u16_le_round_trip(l.addr);
                lemma_u16_le_round_trip(l.b);
                let shorter = lights_bytes(self.blks@.subrange(0, i as int));
                let longer = lights_bytes(self.blks@.subrange(0, i + 1));
                assert(l.bytes().len() == 7);
                assert forall|k: int| 0 <= k < longer.len() implies longer[k] == (shorter
                    + l.bytes())[k] by {
                    if k < shorter.len() {
                        assert(self.blks@.subrange(0, i + 1)[k / 7] == self.blks@.subrange(
                            0,
                            i as int,
                        )[k / 7]);
                    } else {
                        assert(k / 7 == i);
                        assert(k % 7 == k - shorter.len());
                    }
                }
                assert(longer =~= shorter + l.bytes());
                assert(out@ =~= head + longer);
            }
            i += 1;
        }
        assert(self.blks@.subrange(0, n as int) =~= self.blks@);
        out
    }

    /// Parses a frame. Fails with `InvalidValue` unless the bytes hold the
    /// six-byte header and then whole seven-byte light records, of which
    /// there may be none.
    pub fn parse(data: &[u8]) -> (r: ZclResult<HueEntFrame>)
        ensures
            match r {
                Ok(f) => HueEntFrameView::parse_spec(data@) == Ok::<_, ZclError>(f@),
                Err(e) => HueEntFrameView::parse_spec(data@) == Err::<HueEntFrameView, _>(e),
            },
    {
        let n = data.len();
        if n < 6 || (n - 6) % 7 != 0 {
            return Err(ZclError::InvalidValue);
        }
        let hdr = HueEntFrameHeader::unpack_at(data);
        let count = (n - 6) / 7;
        let mut blks: Vec<HueEntFrameLight> = Vec::new();
        let mut i: usize = 0;
        while i < count
            invariant
                n == data@.len(),
                n == 6 + 7 * count,
                i <= count,
                blks@ == lights_at(data@, 6, i as int),
            decreases count - i,
        {
            blks.push(HueEntFrameLight::unpack_at(data, 6 + 7 * i));
            i += 1;
            assert(blks@ =~= lights_at(data@, 6, i as int));
        }
        Ok(HueEntFrame { counter: hdr.counter, x0: hdr.x0, blks })
    }
}

} // verus!
