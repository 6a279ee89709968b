//! The entertainment stream engine: it turns segment maps, resets and
//! frames into Zigbee messages, and counts the frames it has sent.
use vstd::prelude::*;

use crate::error::{HueError, HueResult};
use crate::zcl::{
    HueEntFrame, HueEntFrameLight, HueEntFrameView, HueEntStart, HueEntStartView, HueEntStop,
};

verus! {

/// A message for a Zigbee cluster.
#[derive(Debug, Clone, PartialEq, Eq)]
pub struct ZigbeeMessage {
    /// Zigbee cluster id
    pub cluster: u16,
    /// Zigbee command id
    pub command: u8,
    /// Zigbee Zcl data bytes
    pub data: Vec<u8>,
    /// Disable default response
    pub ddr: bool,
}

/// What a `ZigbeeMessage` holds.
pub struct ZigbeeMessageView {
    pub cluster: u16,
    pub command: u8,
    pub data: Seq<u8>,
    pub ddr: bool,
}

impl View for ZigbeeMessage {
    type V = ZigbeeMessageView;

    open spec fn view(&self) -> ZigbeeMessageView {
        ZigbeeMessageView {
            cluster: self.cluster,
            command: self.command,
            data: self.data@,
            ddr: self.ddr,
        }
    }
}

impl ZigbeeMessage {
    /// A message with the default response disabled.
    pub fn new(cluster: u16, command: u8, data: Vec<u8>) -> (m: Self)
        ensures
            m@ == (ZigbeeMessageView { cluster, command, data: data@, ddr: true }),
    {
        ZigbeeMessage { cluster, command, data, ddr: true }
    }

    /// The same message with the default response disabled or not.
    pub fn with_ddr(self, ddr: bool) -> (m: Self)
        ensures
            m@ == (ZigbeeMessageView { ddr, ..self@ }),
    {
        ZigbeeMessage { cluster: self.cluster, command: self.command, data: self.data, ddr }
    }
}

/// The cluster of the entertainment stream.
pub const CLUSTER: u16 = 0xFC01;

/// The command that carries the segment map.
pub const CMD_SEGMENT_MAP: u8 = 7;

/// The command that resets the stream.
pub const CMD_RESET: u8 = 3;

/// The command that carries a frame.
pub const CMD_FRAME: u8 = 1;

/// The smoothing of a new stream.
pub const DEFAULT_SMOOTHING: u16 = 0x0400;

/// The state of an entertainment stream: the smoothing that goes into
/// every frame, and the number of the next frame.
pub struct EntertainmentZigbeeStream {
    smoothing: u16,
    counter: u32,
}

/// What an `EntertainmentZigbeeStream` holds.
pub struct StreamView {
    pub smoothing: u16,
    pub counter: u32,
}

impl View for EntertainmentZigbeeStream {
    type V = StreamView;

    closed spec fn view(&self) -> StreamView {
        StreamView { smoothing: self.smoothing, counter: self.counter }
    }
}

/// The message that resets a stream in state `s`: the bytes 0 and 1, then
/// the counter.
pub open spec fn reset_message(s: StreamView) -> ZigbeeMessageView {
    ZigbeeMessageView {
        cluster: CLUSTER,
        command: CMD_RESET,
        data: (HueEntStop { x0: 0, x1: 1, counter: s.counter }).bytes(),
        ddr: true,
    }
}

/// The message that carries the frame `blks` of a stream in state `s`.
pub open spec fn frame_message(s: StreamView, blks: Seq<HueEntFrameLight>) -> ZigbeeMessageView {
    ZigbeeMessageView {
        cluster: CLUSTER,
        command: CMD_FRAME,
        data: (HueEntFrameView { counter: s.counter, x0: s.smoothing, blks }).bytes(),
        ddr: true,
    }
}

/// The message that carries the segment map `map`.
pub open spec fn segment_message(map: Seq<u16>) -> ZigbeeMessageView {
    ZigbeeMessageView {
        cluster: CLUSTER,
        command: CMD_SEGMENT_MAP,
        data: (HueEntStartView { count: map.len() as u16, members: map }).bytes(),
        ddr: true,
    }
}

/// The state of a stream after `k` frames.
pub open spec fn after_frames(s: StreamView, k: nat) -> StreamView
    decreases k,
{
    if k == 0 {
        s
    } else {
        let prev = after_frames(s, (k - 1) as nat);
        StreamView { counter: (prev.counter + 1) as u32, ..prev }
    }
}

/// A stream that starts at counter `n` stands at `n + k` after `k`
/// frames, as long as that fits the counter, and keeps its smoothing.
pub proof fn lemma_counter_after_frames(s: StreamView, k: nat)
    requires
        s.counter + k <= u32::MAX,
    ensures
        after_frames(s, k).counter == s.counter + k,
        after_frames(s, k).smoothing == s.smoothing,
    decreases k,
{
    if k > 0 {
        lemma_counter_after_frames(s, (k - 1) as nat);
    }
}

impl Default for EntertainmentZigbeeStream {
    fn default() -> (s: Self)
        ensures
            s@ == (StreamView { smoothing: DEFAULT_SMOOTHING, counter: 0 }),
    {
        Self::new(0)
    }
}

impl EntertainmentZigbeeStream {
    pub const DEFAULT_SMOOTHING: u16 = DEFAULT_SMOOTHING;

    pub const CLUSTER: u16 = CLUSTER;

    pub const CMD_SEGMENT_MAP: u8 = CMD_SEGMENT_MAP;

    pub const CMD_RESET: u8 = CMD_RESET;

    pub const CMD_FRAME: u8 = CMD_FRAME;

    /// A stream whose next frame has the number `counter`, with the
    /// default smoothing.
    pub fn new(counter: u32) -> (s: Self)
        ensures
            s@ == (StreamView { smoothing: DEFAULT_SMOOTHING, counter }),
    {
        EntertainmentZigbeeStream { smoothing: DEFAULT_SMOOTHING, counter }
    }

    /// The number of the next frame.
    pub fn counter(&self) -> (c: u32)
        ensures
            c == self@.counter,
    {
        self.counter
    }

    /// The smoothing that goes into every frame.
    pub fn smoothing(&self) -> (s: u16)
        ensures
            s == self@.smoothing,
    {
        self.smoothing
    }

    /// Sets the smoothing.
    pub fn set_smoothing(&mut self, smoothing: u16)
        ensures
            final(self)@ == (StreamView { smoothing, ..old(self)@ }),
    {
        self.smoothing = smoothing;
    }

    /// The message that carries the segment map `map`. The state of the
    /// stream has no part in it and does not change. Fails where the map
    /// has more entries than its 16-bit count can say.
    pub fn segment_mapping(&mut self, map: &[u16]) -> (r: HueResult<ZigbeeMessage>)
        ensures
            final(self)@ == old(self)@,
            r is Ok <==> map@.len() <= u16::MAX,
            r matches Ok(m) ==> m@ == segment_message(map@),
            r matches Err(e) ==> e == HueError::TryFromIntError,
    {
        match HueEntStart::new(map) {
            Some(msg) => Ok(ZigbeeMessage::new(CLUSTER, CMD_SEGMENT_MAP, msg.pack())),
            None => Err(HueError::TryFromIntError),
        }
    }

    /// The message that resets the stream. It carries the counter and
    /// leaves it as it is.
    pub fn reset(&mut self) -> (r: HueResult<ZigbeeMessage>)
        ensures
            final(self)@ == old(self)@,
            r matches Ok(m) && m@ == reset_message(old(self)@),
    {
        let ent = HueEntStop { x0: 0, x1: 1, counter: self.counter };
        Ok(ZigbeeMessage::new(CLUSTER, CMD_RESET, ent.pack_to_vec()))
    }

    /// The message that carries the next frame. It carries the counter and
    /// the smoothing as they are, and then the counter goes up by one.
    pub fn frame(&mut self, blks: Vec<HueEntFrameLight>) -> (r: HueResult<ZigbeeMessage>)
        requires
            old(self)@.counter < u32::MAX,
        ensures
            final(self)@ == after_frames(old(self)@, 1),
            final(self)@.counter == old(self)@.counter + 1,
            final(self)@.smoothing == old(self)@.smoothing,
            r matches Ok(m) && m@ == frame_message(old(self)@, blks@),
    {
        let ent = HueEntFrame { counter: self.counter, x0: self.smoothing, blks };
        self.counter = self.counter + 1;
        proof {
            assert(after_frames(old(self)@, 0) == old(self)@);
            lemma_counter_after_frames(old(self)@, 1);
        }
        Ok(ZigbeeMessage::new(CLUSTER, CMD_FRAME, ent.pack()))
    }
}

} // verus!
