//! The Hue Zigbee per-light update message.
//!
//! A message is a little-endian 16-bit flag word followed by the fields
//! whose flags are set, in a fixed order. `encode_spec` and `decode_spec`
//! give the format as functions on byte sequences; `serialize` and
//! `from_reader` are proved against them, and `lemma_decode_encode` shows
//! that decoding inverts encoding.
use vstd::prelude::*;

use crate::error::{ApiError, ApiResult};
use crate::wire::{
    get_u16_le, pack_xy12, put_u16_le, u16_from_le, u16_le, unpack_xy12, xy12_bytes, xy12_x,
    xy12_y,
};

verus! {

/// Flag bit: the on/off byte is present.
pub const ON_OFF: u16 = 0x0001;

/// Flag bit: the brightness byte is present.
pub const BRIGHTNESS: u16 = 0x0002;

/// Flag bit: the colour temperature is present.
pub const COLOR_MIREK: u16 = 0x0004;

/// Flag bit: the colour coordinates are present.
pub const COLOR_XY: u16 = 0x0008;

/// Flag bit: the opaque 16-bit field is present.
pub const UNKNOWN_0: u16 = 0x0010;

/// Flag bit: the effect type byte is present.
pub const EFFECT_TYPE: u16 = 0x0020;

/// Flag bit: the gradient scale and offset are present.
pub const GRADIENT_PARAMS: u16 = 0x0040;

/// Flag bit: the effect speed byte is present.
pub const EFFECT_SPEED: u16 = 0x0080;

/// Flag bit: the gradient colours are present.
pub const GRADIENT_COLORS: u16 = 0x0100;

/// The reserved flag bits, which must all be clear.
pub const RESERVED: u16 = 0xFE00;

/// The most gradient points a message can carry: the length byte in front
/// of them counts a four-byte header and three bytes per point.
pub const MAX_GRADIENT_POINTS: usize = 83;

/// Light effects, each with the byte that stands for it on the wire.
#[derive(Debug, Clone, Copy, PartialEq, Eq, Structural)]
pub enum EffectType {
    NoEffect,
    Candle,
    Fireplace,
    Prism,
    Sunrise,
    Sparkle,
    Opal,
    Glisten,
    Underwater,
    Cosmos,
    Sunbeam,
    Enchant,
}

impl EffectType {
    /// The byte that stands for this effect.
    pub open spec fn code(self) -> u8 {
        match self {
            EffectType::NoEffect => 0x00,
            EffectType::Candle => 0x01,
            EffectType::Fireplace => 0x02,
            EffectType::Prism => 0x03,
            EffectType::Sunrise => 0x09,
            EffectType::Sparkle => 0x0a,
            EffectType::Opal => 0x0b,
            EffectType::Glisten => 0x0c,
            EffectType::Underwater => 0x0e,
            EffectType::Cosmos => 0x0f,
            EffectType::Sunbeam => 0x10,
            EffectType::Enchant => 0x11,
        }
    }

    /// The effect that `b` stands for, if any.
    pub open spec fn from_code(b: u8) -> Option<EffectType> {
        if b == 0x00 {
            Some(EffectType::NoEffect)
        } else if b == 0x01 {
            Some(EffectType::Candle)
        } else if b == 0x02 {
            Some(EffectType::Fireplace)
        } else if b == 0x03 {
            Some(EffectType::Prism)
        } else if b == 0x09 {
            Some(EffectType::Sunrise)
        } else if b == 0x0a {
            Some(EffectType::Sparkle)
        } else if b == 0x0b {
            Some(EffectType::Opal)
        } else if b == 0x0c {
            Some(EffectType::Glisten)
        } else if b == 0x0e {
            Some(EffectType::Underwater)
        } else if b == 0x0f {
            Some(EffectType::Cosmos)
        } else if b == 0x10 {
            Some(EffectType::Sunbeam)
        } else if b == 0x11 {
            Some(EffectType::Enchant)
        } else {
            None
        }
    }

    /// The byte that stands for this effect.
    pub fn to_primitive(&self) -> (b: u8)
        ensures
            b == self.code(),
    {
        match self {
            EffectType::NoEffect => 0x00,
            EffectType::Candle => 0x01,
            EffectType::Fireplace => 0x02,
            EffectType::Prism => 0x03,
            EffectType::Sunrise => 0x09,
            EffectType::Sparkle => 0x0a,
            EffectType::Opal => 0x0b,
            EffectType::Glisten => 0x0c,
            EffectType::Underwater => 0x0e,
            EffectType::Cosmos => 0x0f,
            EffectType::Sunbeam => 0x10,
            EffectType::Enchant => 0x11,
        }
    }

    /// The effect that `b` stands for; `None` where it stands for none.
    pub fn from_primitive(b: u8) -> (e: Option<EffectType>)
        ensures
            e == Self::from_code(b),
    {
        match b {
            0x00 => Some(EffectType::NoEffect),
            0x01 => Some(EffectType::Candle),
            0x02 => Some(EffectType::Fireplace),
            0x03 => Some(EffectType::Prism),
            0x09 => Some(EffectType::Sunrise),
            0x0a => Some(EffectType::Sparkle),
            0x0b => Some(EffectType::Opal),
            0x0c => Some(EffectType::Glisten),
            0x0e => Some(EffectType::Underwater),
            0x0f => Some(EffectType::Cosmos),
            0x10 => Some(EffectType::Sunbeam),
            0x11 => Some(EffectType::Enchant),
            _ => None,
        }
    }

    /// Every effect is found again from its byte.
    pub proof fn lemma_code_round_trip(self)
        ensures
            Self::from_code(self.code()) == Some(self),
    {
    }
}

/// How the points of a gradient are laid out along a light.
#[derive(Debug, Clone, Copy, PartialEq, Eq, Structural)]
pub enum GradientStyle {
    Linear,
    Scattered,
    Mirrored,
}

impl GradientStyle {
    /// The byte that stands for this style.
    pub open spec fn code(self) -> u8 {
        match self {
            GradientStyle::Linear => 0x00,
            GradientStyle::Scattered => 0x02,
            GradientStyle::Mirrored => 0x04,
        }
    }

    /// The style that `b` stands for, if any.
    pub open spec fn from_code(b: u8) -> Option<GradientStyle> {
        if b == 0x00 {
            Some(GradientStyle::Linear)
        } else if b == 0x02 {
            Some(GradientStyle::Scattered)
        } else if b == 0x04 {
            Some(GradientStyle::Mirrored)
        } else {
            None
        }
    }

    /// The byte that stands for this style.
    pub fn to_primitive(&self) -> (b: u8)
        ensures
            b == self.code(),
    {
        match self {
            GradientStyle::Linear => 0x00,
            GradientStyle::Scattered => 0x02,
            GradientStyle::Mirrored => 0x04,
        }
    }

    /// The style that `b` stands for; `None` where it stands for none.
    pub fn from_primitive(b: u8) -> (e: Option<GradientStyle>)
        ensures
            e == Self::from_code(b),
    {
        match b {
            0x00 => Some(GradientStyle::Linear),
            0x02 => Some(GradientStyle::Scattered),
            0x04 => Some(GradientStyle::Mirrored),
            _ => None,
        }
    }

    /// Every style is found again from its byte.
    pub proof fn lemma_code_round_trip(self)
        ensures
            Self::from_code(self.code()) == Some(self),
    {
    }
}

/// Colour coordinates as the wire carries them: each an unsigned fraction
/// of full scale. The colour field of an update uses all sixteen bits of
/// each coordinate, a gradient point the low twelve.
#[derive(Debug, Clone, Copy, PartialEq, Eq, Structural)]
pub struct XY {
    pub x: u16,
    pub y: u16,
}

impl XY {
    pub fn new(x: u16, y: u16) -> (xy: XY)
        ensures
            xy == (XY { x, y }),
    {
        XY { x, y }
    }
}

/// The four bytes in front of the gradient points.
#[derive(Debug, Clone, Copy, PartialEq, Eq, Structural)]
pub struct GradientUpdateHeader {
    /// High nibble of the first byte: the number of gradient points.
    pub nlights: u8,
    /// Low nibble of the first byte: meaning unknown.
    pub resv0: u8,
    /// Second byte: meaning unknown.
    pub resv1: u8,
    /// Third and fourth byte, little-endian: meaning unknown.
    pub resv2: u16,
}

impl Default for GradientUpdateHeader {
    fn default() -> (h: Self)
        ensures
            h == (GradientUpdateHeader { nlights: 0, resv0: 0, resv1: 0, resv2: 0 }),
    {
        GradientUpdateHeader { nlights: 0, resv0: 0, resv1: 0, resv2: 0 }
    }
}

impl GradientUpdateHeader {
    /// The packed header. Of the two nibble fields only the low four bits
    /// are kept.
    pub open spec fn bytes(self) -> Seq<u8> {
        seq![
            ((self.nlights % 16) * 16 + self.resv0 % 16) as u8,
            self.resv1,
            (self.resv2 % 256) as u8,
            (self.resv2 / 256) as u8,
        ]
    }

    /// The header packed in four bytes.
    pub open spec fn from_bytes(b0: u8, b1: u8, b2: u8, b3: u8) -> GradientUpdateHeader {
        GradientUpdateHeader {
            nlights: b0 / 16,
            resv0: b0 % 16,
            resv1: b1,
            resv2: u16_from_le(b2, b3),
        }
    }

    /// Both nibble fields fit in four bits.
    pub open spec fn fits(self) -> bool {
        self.nlights < 16 && self.resv0 < 16
    }

    /// Packs the header into its four bytes.
    pub fn pack(&self) -> (b: [u8; 4])
        ensures
            b@ == self.bytes(),
    {
        let b = [
            (self.nlights % 16) * 16 + self.resv0 % 16,
            self.resv1,
            (self.resv2 % 256) as u8,
            (self.resv2 / 256) as u8,
        ];
        assert(b@ =~= self.bytes());
        b
    }

    /// Unpacks a header from the four bytes at `pos`.
    pub(crate) fn unpack_at(src: &[u8], pos: usize) -> (h: GradientUpdateHeader)
        requires
            pos + 4 <= src.len(),
        ensures
            h == Self::from_bytes(src@[pos as int], src@[pos + 1], src@[pos + 2], src@[pos + 3]),
            h.fits(),
    {
        let b0 = src[pos];
        GradientUpdateHeader {
            nlights: b0 / 16,
            resv0: b0 % 16,
            resv1: src[pos + 1],
            resv2: get_u16_le(src, pos + 2),
        }
    }

    /// Unpacks a header from its four bytes. Fails with
    /// `HueZigbeeDecodeError` unless there are exactly four.
    pub fn unpack_from_slice(src: &[u8]) -> (r: ApiResult<GradientUpdateHeader>)
        ensures
            r is Ok <==> src@.len() == 4,
            r matches Ok(h) ==> h == Self::from_bytes(src@[0], src@[1], src@[2], src@[3])
                && h.fits(),
            r matches Err(e) ==> e == ApiError::HueZigbeeDecodeError,
    {
        if src.len() != 4 {
            return Err(ApiError::HueZigbeeDecodeError);
        }
        Ok(Self::unpack_at(src, 0))
    }

    /// Unpacking a packed header gives it back, where its nibble fields fit.
    pub proof fn lemma_round_trip(self)
        requires
            self.fits(),
        ensures
            self.bytes().len() == 4,
            Self::from_bytes(self.bytes()[0], self.bytes()[1], self.bytes()[2], self.bytes()[3])
                == self,
    {
    }
}

/// The colours of a gradient: a header and the points.
#[derive(Debug, Clone, PartialEq, Eq)]
pub struct GradientColors {
    pub header: GradientUpdateHeader,
    pub points: Vec<XY>,
}

/// What a `GradientColors` holds.
pub struct GradientColorsView {
    pub header: GradientUpdateHeader,
    pub points: Seq<XY>,
}

impl View for GradientColors {
    type V = GradientColorsView;

    open spec fn view(&self) -> GradientColorsView {
        GradientColorsView { header: self.header, points: self.points@ }
    }
}

impl GradientColorsView {
    /// The header counts the points, both of its nibble fields fit, and
    /// every coordinate fits in twelve bits.
    pub open spec fn wf(self) -> bool {
        &&& self.header.fits()
        &&& self.header.nlights == self.points.len()
        &&& forall|i: int|
            0 <= i < self.points.len() ==> (#[trigger] self.points[i]).x < 4096 && self.points[i].y
                < 4096
    }
}

/// Scale and offset of a gradient.
#[derive(Debug, Clone, Copy, PartialEq, Eq, Structural)]
pub struct GradientParams {
    pub scale: u8,
    pub offset: u8,
}

/// A per-light update: every field is optional, and only the fields that
/// are present are sent.
#[derive(Debug, Clone, PartialEq, Eq)]
pub struct HueZigbeeUpdate {
    pub onoff: Option<u8>,
    pub brightness: Option<u8>,
    pub color_mirek: Option<u16>,
    pub color_xy: Option<XY>,
    pub unk0: Option<u16>,
    pub gradient_colors: Option<GradientColors>,
    pub gradient_params: Option<GradientParams>,
    pub effect_type: Option<EffectType>,
    pub effect_speed: Option<u8>,
}

/// What a `HueZigbeeUpdate` holds.
pub struct HueZigbeeUpdateView {
    pub onoff: Option<u8>,
    pub brightness: Option<u8>,
    pub color_mirek: Option<u16>,
    pub color_xy: Option<XY>,
    pub unk0: Option<u16>,
    pub gradient_colors: Option<GradientColorsView>,
    pub gradient_params: Option<GradientParams>,
    pub effect_type: Option<EffectType>,
    pub effect_speed: Option<u8>,
}

impl View for HueZigbeeUpdate {
    type V = HueZigbeeUpdateView;

    open spec fn view(&self) -> HueZigbeeUpdateView {
        HueZigbeeUpdateView {
            onoff: self.onoff,
            brightness: self.brightness,
            color_mirek: self.color_mirek,
            color_xy: self.color_xy,
            unk0: self.unk0,
            gradient_colors: match self.gradient_colors {
                Some(g) => Some(g@),
                None => None,
            },
            gradient_params: self.gradient_params,
            effect_type: self.effect_type,
            effect_speed: self.effect_speed,
        }
    }
}

impl HueZigbeeUpdateView {
    /// The update with no field present.
    pub open spec fn empty() -> HueZigbeeUpdateView {
        HueZigbeeUpdateView {
            onoff: None,
            brightness: None,
            color_mirek: None,
            color_xy: None,
            unk0: None,
            gradient_colors: None,
            gradient_params: None,
            effect_type: None,
            effect_speed: None,
        }
    }

    /// The gradient colours, where present, are well formed. Such an update
    /// is decoded again from its encoding.
    pub open spec fn wf(self) -> bool {
        self.gradient_colors matches Some(g) ==> g.wf()
    }

    /// The update can be written: its gradient points, where present, can
    /// be counted by the length byte in front of them.
    pub open spec fn fits(self) -> bool {
        self.gradient_colors matches Some(g) ==> g.points.len() <= MAX_GRADIENT_POINTS
    }
}

impl Default for HueZigbeeUpdate {
    fn default() -> (u: Self)
        ensures
            u@ == HueZigbeeUpdateView::empty(),
    {
        HueZigbeeUpdate {
            onoff: None,
            brightness: None,
            color_mirek: None,
            color_xy: None,
            unk0: None,
            gradient_colors: None,
            gradient_params: None,
            effect_type: None,
            effect_speed: None,
        }
    }
}

impl HueZigbeeUpdate {
    /// The update with no field present.
    pub fn new() -> (u: Self)
        ensures
            u@ == HueZigbeeUpdateView::empty(),
    {
        HueZigbeeUpdate {
            onoff: None,
            brightness: None,
            color_mirek: None,
            color_xy: None,
            unk0: None,
            gradient_colors: None,
            gradient_params: None,
            effect_type: None,
            effect_speed: None,
        }
    }

    /// Sets the on/off byte: 1 for on, 0 for off.
    pub fn with_on_off(self, on_off: bool) -> (u: Self)
        ensures
            u@ == (HueZigbeeUpdateView { onoff: Some(if on_off { 1u8 } else { 0u8 }), ..self@ }),
    {
        let mut u = self;
        u.onoff = Some(if on_off { 1 } else { 0 });
        u
    }

    /// Sets the brightness.
    pub fn with_brightness(self, brightness: u8) -> (u: Self)
        ensures
            u@ == (HueZigbeeUpdateView { brightness: Some(brightness), ..self@ }),
    {
        let mut u = self;
        u.brightness = Some(brightness);
        u
    }

    /// Sets the colour temperature.
    pub fn with_color_mirek(self, mirek: u16) -> (u: Self)
        ensures
            u@ == (HueZigbeeUpdateView { color_mirek: Some(mirek), ..self@ }),
    {
        let mut u = self;
        u.color_mirek = Some(mirek);
        u
    }

    /// Sets the colour coordinates.
    pub fn with_color_xy(self, xy: XY) -> (u: Self)
        ensures
            u@ == (HueZigbeeUpdateView { color_xy: Some(xy), ..self@ }),
    {
        let mut u = self;
        u.color_xy = Some(xy);
        u
    }

    /// Sets the opaque 16-bit field.
    pub fn with_unknown0(self, unk0: u16) -> (u: Self)
        ensures
            u@ == (HueZigbeeUpdateView { unk0: Some(unk0), ..self@ }),
    {
        let mut u = self;
        u.unk0 = Some(unk0);
        u
    }

    /// Sets the gradient colours.
    pub fn with_gradient_colors(self, colors: GradientColors) -> (u: Self)
        ensures
            u@ == (HueZigbeeUpdateView { gradient_colors: Some(colors@), ..self@ }),
    {
        let mut u = self;
        u.gradient_colors = Some(colors);
        u
    }

    /// Sets the gradient scale and offset.
    pub fn with_gradient_transform(self, transform: GradientParams) -> (u: Self)
        ensures
            u@ == (HueZigbeeUpdateView { gradient_params: Some(transform), ..self@ }),
    {
        let mut u = self;
        u.gradient_params = Some(transform);
        u
    }

    /// Sets the effect type.
    pub fn with_effect_type(self, effect_type: EffectType) -> (u: Self)
        ensures
            u@ == (HueZigbeeUpdateView { effect_type: Some(effect_type), ..self@ }),
    {
        let mut u = self;
        u.effect_type = Some(effect_type);
        u
    }

    /// Sets the effect speed.
    pub fn with_effect_speed(self, effect_speed: u8) -> (u: Self)
        ensures
            u@ == (HueZigbeeUpdateView { effect_speed: Some(effect_speed), ..self@ }),
    {
        let mut u = self;
        u.effect_speed = Some(effect_speed);
        u
    }
}


/// The flag word sets the on/off flag.
#[verifier::opaque]
pub open spec fn has_on_off(w: u16) -> bool {
    w % 2 == 1
}

/// The flag word sets the brightness flag.
#[verifier::opaque]
pub open spec fn has_brightness(w: u16) -> bool {
    (w / 2) % 2 == 1
}

/// The flag word sets the colour temperature flag.
#[verifier::opaque]
pub open spec fn has_color_mirek(w: u16) -> bool {
    (w / 4) % 2 == 1
}

/// The flag word sets the colour coordinates flag.
#[verifier::opaque]
pub open spec fn has_color_xy(w: u16) -> bool {
    (w / 8) % 2 == 1
}

/// The flag word sets the flag of the opaque 16-bit field.
#[verifier::opaque]
pub open spec fn has_unknown0(w: u16) -> bool {
    (w / 16) % 2 == 1
}

/// The flag word sets the effect type flag.
#[verifier::opaque]
pub open spec fn has_effect_type(w: u16) -> bool {
    (w / 32) % 2 == 1
}

/// The flag word sets the gradient scale and offset flag.
#[verifier::opaque]
pub open spec fn has_gradient_params(w: u16) -> bool {
    (w / 64) % 2 == 1
}

/// The flag word sets the effect speed flag.
#[verifier::opaque]
pub open spec fn has_effect_speed(w: u16) -> bool {
    (w / 128) % 2 == 1
}

/// The flag word sets the gradient colours flag.
#[verifier::opaque]
pub open spec fn has_gradient_colors(w: u16) -> bool {
    (w / 256) % 2 == 1
}

/// The reserved bits that the flag word sets.
pub open spec fn reserved_bits(w: u16) -> u16 {
    (w - w % 512) as u16
}

/// `n` if `present`, else 0.
pub open spec fn when(present: bool, n: int) -> int {
    if present {
        n
    } else {
        0
    }
}

/// The flag word of an update: one bit for each field that is present.
pub open spec fn flag_word(u: HueZigbeeUpdateView) -> u16 {
    (when(u.onoff is Some, 1) + when(u.brightness is Some, 2) + when(u.color_mirek is Some, 4)
        + when(u.color_xy is Some, 8) + when(u.unk0 is Some, 16) + when(u.effect_type is Some, 32)
        + when(u.gradient_params is Some, 64) + when(u.effect_speed is Some, 128) + when(
        u.gradient_colors is Some,
        256,
    )) as u16
}

/// The bytes of the gradient points, three for each.
pub open spec fn points_bytes(points: Seq<XY>) -> Seq<u8> {
    Seq::new(3 * points.len(), |i: int| xy12_bytes(points[i / 3].x, points[i / 3].y)[i % 3])
}

/// The gradient colours on the wire: a length byte that counts what follows
/// it, the header, then the points.
pub open spec fn gradient_bytes(g: GradientColorsView) -> Seq<u8> {
    seq![(4 + 3 * g.points.len()) as u8] + g.header.bytes() + points_bytes(g.points)
}

/// An optional byte on the wire: the byte where present, else nothing.
pub open spec fn opt_u8_bytes(o: Option<u8>) -> Seq<u8> {
    match o {
        Some(v) => seq![v],
        None => seq![],
    }
}

/// An optional 16-bit value on the wire: little-endian where present, else
/// nothing.
pub open spec fn opt_u16_bytes(o: Option<u16>) -> Seq<u8> {
    match o {
        Some(v) => u16_le(v),
        None => seq![],
    }
}

/// The on/off field on the wire.
pub open spec fn on_off_field(u: HueZigbeeUpdateView) -> Seq<u8> {
    opt_u8_bytes(u.onoff)
}

/// The brightness field on the wire.
pub open spec fn brightness_field(u: HueZigbeeUpdateView) -> Seq<u8> {
    opt_u8_bytes(u.brightness)
}

/// The colour temperature field on the wire.
pub open spec fn mirek_field(u: HueZigbeeUpdateView) -> Seq<u8> {
    opt_u16_bytes(u.color_mirek)
}

/// Optional colour coordinates on the wire: both little-endian, `x` first.
pub open spec fn opt_xy_bytes(o: Option<XY>) -> Seq<u8> {
    match o {
        Some(xy) => u16_le(xy.x) + u16_le(xy.y),
        None => seq![],
    }
}

/// The colour coordinates field on the wire.
pub open spec fn xy_field(u: HueZigbeeUpdateView) -> Seq<u8> {
    opt_xy_bytes(u.color_xy)
}

/// The opaque 16-bit field on the wire.
pub open spec fn unknown0_field(u: HueZigbeeUpdateView) -> Seq<u8> {
    opt_u16_bytes(u.unk0)
}

/// The effect type field on the wire.
pub open spec fn effect_type_field(u: HueZigbeeUpdateView) -> Seq<u8> {
    match u.effect_type {
        Some(e) => seq![e.code()],
        None => seq![],
    }
}

/// The gradient colours field on the wire.
pub open spec fn gradient_field(u: HueZigbeeUpdateView) -> Seq<u8> {
    match u.gradient_colors {
        Some(g) => gradient_bytes(g),
        None => seq![],
    }
}

/// The effect speed field on the wire.
pub open spec fn effect_speed_field(u: HueZigbeeUpdateView) -> Seq<u8> {
    opt_u8_bytes(u.effect_speed)
}

/// The gradient scale and offset field on the wire.
pub open spec fn params_field(u: HueZigbeeUpdateView) -> Seq<u8> {
    match u.gradient_params {
        Some(p) => seq![p.scale, p.offset],
        None => seq![],
    }
}

/// The message that carries the update `u`: the flag word, then the fields
/// that are present, in wire order: on/off, brightness, colour temperature,
/// colour coordinates, the opaque field, effect type, gradient colours,
/// effect speed, gradient scale and offset.
pub open spec fn encode_spec(u: HueZigbeeUpdateView) -> Seq<u8> {
    u16_le(flag_word(u)) + on_off_field(u) + brightness_field(u) + mirek_field(u) + xy_field(u)
        + unknown0_field(u) + effect_type_field(u) + gradient_field(u) + effect_speed_field(u)
        + params_field(u)
}

/// Where the brightness byte stands in a message with flag word `w`.
pub open spec fn off_brightness(w: u16) -> int {
    2 + when(has_on_off(w), 1)
}

/// Where the colour temperature stands.
pub open spec fn off_mirek(w: u16) -> int {
    off_brightness(w) + when(has_brightness(w), 1)
}

/// Where the colour coordinates stand.
pub open spec fn off_xy(w: u16) -> int {
    off_mirek(w) + when(has_color_mirek(w), 2)
}

/// Where the opaque 16-bit field stands.
pub open spec fn off_unknown0(w: u16) -> int {
    off_xy(w) + when(has_color_xy(w), 4)
}

/// Where the effect type byte stands.
pub open spec fn off_effect_type(w: u16) -> int {
    off_unknown0(w) + when(has_unknown0(w), 2)
}

/// Where the gradient colours stand.
pub open spec fn off_gradient(w: u16) -> int {
    off_effect_type(w) + when(has_effect_type(w), 1)
}

/// The number of gradient points that the message announces: the high
/// nibble of the first header byte.
pub open spec fn gradient_count(w: u16, bytes: Seq<u8>) -> int {
    bytes[off_gradient(w) + 1] as int / 16
}

/// Where the effect speed byte stands. The gradient colours in front of it
/// take a length byte, four header bytes and three bytes for each point.
pub open spec fn off_effect_speed(w: u16, bytes: Seq<u8>) -> int {
    off_gradient(w) + when(has_gradient_colors(w), 5 + 3 * gradient_count(w, bytes))
}

/// Where the gradient scale and offset stand.
pub open spec fn off_params(w: u16, bytes: Seq<u8>) -> int {
    off_effect_speed(w, bytes) + when(has_effect_speed(w), 1)
}

/// Where the message ends.
pub open spec fn off_end(w: u16, bytes: Seq<u8>) -> int {
    off_params(w, bytes) + when(has_gradient_params(w), 2)
}

/// The `n` gradient points packed from `start` on.
pub open spec fn points_at(bytes: Seq<u8>, start: int, n: int) -> Seq<XY> {
    Seq::new(
        n as nat,
        |i: int|
            XY {
                x: xy12_x(bytes[start + 3 * i], bytes[start + 3 * i + 1], bytes[start + 3 * i + 2]),
                y: xy12_y(bytes[start + 3 * i], bytes[start + 3 * i + 1], bytes[start + 3 * i + 2]),
            },
    )
}

/// The gradient colours that stand at `g`. The length byte at `g` is
/// skipped: the header says how many points follow.
pub open spec fn gradient_at(bytes: Seq<u8>, g: int) -> GradientColorsView {
    GradientColorsView {
        header: GradientUpdateHeader::from_bytes(
            bytes[g + 1],
            bytes[g + 2],
            bytes[g + 3],
            bytes[g + 4],
        ),
        points: points_at(bytes, g + 5, bytes[g + 1] as int / 16),
    }
}

/// The fields of a message with flag word `w` that is long enough to hold
/// them, each read from where it stands.
pub open spec fn fields_at(w: u16, bytes: Seq<u8>) -> HueZigbeeUpdateView {
    HueZigbeeUpdateView {
        onoff: if has_on_off(w) {
            Some(bytes[2])
        } else {
            None
        },
        brightness: if has_brightness(w) {
            Some(bytes[off_brightness(w)])
        } else {
            None
        },
        color_mirek: if has_color_mirek(w) {
            Some(u16_from_le(bytes[off_mirek(w)], bytes[off_mirek(w) + 1]))
        } else {
            None
        },
        color_xy: if has_color_xy(w) {
            Some(
                XY {
                    x: u16_from_le(bytes[off_xy(w)], bytes[off_xy(w) + 1]),
                    y: u16_from_le(bytes[off_xy(w) + 2], bytes[off_xy(w) + 3]),
                },
            )
        } else {
            None
        },
        unk0: if has_unknown0(w) {
            Some(u16_from_le(bytes[off_unknown0(w)], bytes[off_unknown0(w) + 1]))
        } else {
            None
        },
        gradient_colors: if has_gradient_colors(w) {
            Some(gradient_at(bytes, off_gradient(w)))
        } else {
            None
        },
        gradient_params: if has_gradient_params(w) {
            Some(
                GradientParams {
                    scale: bytes[off_params(w, bytes)],
                    offset: bytes[off_params(w, bytes) + 1],
                },
            )
        } else {
            None
        },
        effect_type: if has_effect_type(w) {
            EffectType::from_code(bytes[off_effect_type(w)])
        } else {
            None
        },
        effect_speed: if has_effect_speed(w) {
            Some(bytes[off_effect_speed(w, bytes)])
        } else {
            None
        },
    }
}

/// What a message decodes to.
///
/// The flag word comes first. A reserved bit in it is refused before
/// anything else is read. The fields follow in wire order; the first one
/// that cannot be read decides the error: the input ends too early
/// (`IoError`), or the effect byte stands for no effect
/// (`HueZigbeeDecodeError`). Bytes after the last field are ignored.
pub open spec fn decode_spec(bytes: Seq<u8>) -> Result<HueZigbeeUpdateView, ApiError> {
    if bytes.len() < 2 {
        Err(ApiError::IoError)
    } else {
        let w = u16_from_le(bytes[0], bytes[1]);
        if w >= 512 {
            Err(ApiError::HueZigbeeUnknownFlags(reserved_bits(w)))
        } else if bytes.len() < off_gradient(w) {
            Err(ApiError::IoError)
        } else if has_effect_type(w) && EffectType::from_code(bytes[off_effect_type(w)]) is None {
            Err(ApiError::HueZigbeeDecodeError)
        } else if has_gradient_colors(w) && bytes.len() < off_gradient(w) + 5 {
            Err(ApiError::IoError)
        } else if bytes.len() < off_end(w, bytes) {
            Err(ApiError::IoError)
        } else {
            Ok(fields_at(w, bytes))
        }
    }
}

/// How the flag masks read a flag word.
proof fn lemma_flag_masks(w: u16)
    by (bit_vector)
    ensures
        (w & 0x0001 != 0) == (w % 2 == 1),
        (w & 0x0002 != 0) == ((w / 2) % 2 == 1),
        (w & 0x0004 != 0) == ((w / 4) % 2 == 1),
        (w & 0x0008 != 0) == ((w / 8) % 2 == 1),
        (w & 0x0010 != 0) == ((w / 16) % 2 == 1),
        (w & 0x0020 != 0) == ((w / 32) % 2 == 1),
        (w & 0x0040 != 0) == ((w / 64) % 2 == 1),
        (w & 0x0080 != 0) == ((w / 128) % 2 == 1),
        (w & 0x0100 != 0) == ((w / 256) % 2 == 1),
        (w & 0xFE00 != 0) == (w >= 512),
        w & 0xFE00 == w - w % 512,
{
}

/// A flag word taken apart.
struct FlagBits {
    on_off: bool,
    brightness: bool,
    color_mirek: bool,
    color_xy: bool,
    unknown0: bool,
    effect_type: bool,
    gradient_params: bool,
    effect_speed: bool,
    gradient_colors: bool,
    reserved: u16,
}

impl FlagBits {
    /// These are the flags of the word `w`.
    spec fn describes(self, w: u16) -> bool {
        &&& self.on_off == has_on_off(w)
        &&& self.brightness == has_brightness(w)
        &&& self.color_mirek == has_color_mirek(w)
        &&& self.color_xy == has_color_xy(w)
        &&& self.unknown0 == has_unknown0(w)
        &&& self.effect_type == has_effect_type(w)
        &&& self.gradient_params == has_gradient_params(w)
        &&& self.effect_speed == has_effect_speed(w)
        &&& self.gradient_colors == has_gradient_colors(w)
        &&& self.reserved == reserved_bits(w)
    }
}

/// Takes a flag word apart.
fn flag_bits(w: u16) -> (f: FlagBits)
    ensures
        f.describes(w),
        f.reserved != 0 <==> w >= 512,
{
    proof {
        lemma_flag_masks(w);
        reveal(has_on_off);
        reveal(has_brightness);
        reveal(has_color_mirek);
        reveal(has_color_xy);
        reveal(has_unknown0);
        reveal(has_effect_type);
        reveal(has_gradient_params);
        reveal(has_effect_speed);
        reveal(has_gradient_colors);
    }
    FlagBits {
        on_off: w & ON_OFF != 0,
        brightness: w & BRIGHTNESS != 0,
        color_mirek: w & COLOR_MIREK != 0,
        color_xy: w & COLOR_XY != 0,
        unknown0: w & UNKNOWN_0 != 0,
        effect_type: w & EFFECT_TYPE != 0,
        gradient_params: w & GRADIENT_PARAMS != 0,
        effect_speed: w & EFFECT_SPEED != 0,
        gradient_colors: w & GRADIENT_COLORS != 0,
        reserved: w & RESERVED,
    }
}

/// Appending is associative.
proof fn lemma_add_assoc(a: Seq<u8>, b: Seq<u8>, c: Seq<u8>)
    ensures
        (a + b) + c == a + (b + c),
{
    assert((a + b) + c =~= a + (b + c));
}

/// `flag` if `present`, else no flag.
fn flag_if(present: bool, flag: u16) -> (f: u16)
    ensures
        f == when(present, flag as int),
{
    if present {
        flag
    } else {
        0
    }
}

impl HueZigbeeUpdate {
    /// The flag word of this update: one bit for each field that is present.
    pub fn flags(&self) -> (w: u16)
        ensures
            w == flag_word(self@),
    {
        flag_if(self.onoff.is_some(), ON_OFF) + flag_if(self.brightness.is_some(), BRIGHTNESS)
            + flag_if(self.color_mirek.is_some(), COLOR_MIREK) + flag_if(
            self.color_xy.is_some(),
            COLOR_XY,
        ) + flag_if(self.unk0.is_some(), UNKNOWN_0) + flag_if(
            self.effect_type.is_some(),
            EFFECT_TYPE,
        ) + flag_if(self.gradient_params.is_some(), GRADIENT_PARAMS) + flag_if(
            self.effect_speed.is_some(),
            EFFECT_SPEED,
        ) + flag_if(self.gradient_colors.is_some(), GRADIENT_COLORS)
    }

    /// Appends the message that carries this update to `wtr`.
    ///
    /// Fails with `SerializationError`, and writes nothing, where there are
    /// more gradient points than the length byte in front of them can
    /// count.
    pub fn serialize(&self, wtr: &mut Vec<u8>) -> (r: ApiResult<()>)
        ensures
            r is Ok <==> self@.fits(),
            r is Ok ==> final(wtr)@ == old(wtr)@ + encode_spec(self@),
            r is Err ==> r == Err::<(), _>(ApiError::SerializationError),
            r is Err ==> final(wtr)@ == old(wtr)@,
    {
        if !self.fits_wire() {
            return Err(ApiError::SerializationError);
        }
        let ghost start = wtr@;
        let ghost u = self@;

        put_u16_le(wtr, self.flags());
        let ghost acc = u16_le(flag_word(u));
        put_opt_u8(wtr, self.onoff);
        proof {
            lemma_add_assoc(start, acc, on_off_field(u));
            acc = acc + on_off_field(u);
        }
        put_opt_u8(wtr, self.brightness);
        proof {
            lemma_add_assoc(start, acc, brightness_field(u));
            acc = acc + brightness_field(u);
        }
        put_opt_u16(wtr, self.color_mirek);
        proof {
            lemma_add_assoc(start, acc, mirek_field(u));
            acc = acc + mirek_field(u);
        }
        put_opt_xy(wtr, self.color_xy);
        proof {
            lemma_add_assoc(start, acc, xy_field(u));
            acc = acc + xy_field(u);
        }
        put_opt_u16(wtr, self.unk0);
        proof {
            lemma_add_assoc(start, acc, unknown0_field(u));
            acc = acc + unknown0_field(u);
        }
        put_effect_type(wtr, self.effect_type);
        proof {
            lemma_add_assoc(start, acc, effect_type_field(u));
            acc = acc + effect_type_field(u);
        }
        put_gradient(wtr, &self.gradient_colors);
        proof {
            lemma_add_assoc(start, acc, gradient_field(u));
            acc = acc + gradient_field(u);
        }
        put_opt_u8(wtr, self.effect_speed);
        proof {
            lemma_add_assoc(start, acc, effect_speed_field(u));
            acc = acc + effect_speed_field(u);
        }
        put_params(wtr, self.gradient_params);
        proof {
            lemma_add_assoc(start, acc, params_field(u));
            acc = acc + params_field(u);
        }
        assert(acc == encode_spec(u));

        Ok(())
    }

    /// Whether the update can be written.
    fn fits_wire(&self) -> (b: bool)
        ensures
            b == self@.fits(),
    {
        match &self.gradient_colors {
            Some(g) => g.points.len() <= MAX_GRADIENT_POINTS,
            None => true,
        }
    }

    /// Decodes the message at the start of `data`.
    ///
    /// A reserved bit in the flag word is refused with
    /// `HueZigbeeUnknownFlags`, whatever follows the flag word. An effect
    /// byte that stands for no effect is refused with
    /// `HueZigbeeDecodeError`. Input that ends before the last field does is
    /// refused with `IoError`.
    pub fn from_reader(data: &[u8]) -> (r: ApiResult<HueZigbeeUpdate>)
        ensures
            match r {
                Ok(u) => decode_spec(data@) == Ok::<_, ApiError>(u@),
                Err(e) => decode_spec(data@) == Err::<HueZigbeeUpdateView, _>(e),
            },
            data@.len() >= 2 && u16_from_le(data@[0], data@[1]) >= 512 ==> r == Err::<
                HueZigbeeUpdate,
                _,
            >(ApiError::HueZigbeeUnknownFlags(reserved_bits(u16_from_le(data@[0], data@[1])))),
    {
        match Layout::of(data) {
            Ok(layout) => Ok(layout.read(data)),
            Err(e) => Err(e),
        }
    }
}

/// Where the fields of a message stand.
struct Layout {
    flags: FlagBits,
    brightness: usize,
    mirek: usize,
    xy: usize,
    unknown0: usize,
    effect_type: usize,
    gradient: usize,
    effect_speed: usize,
    params: usize,
    end: usize,
}

impl Layout {
    /// The layout is that of the message at the start of `bytes`, whose
    /// flag word is `w`, and the message is all there.
    spec fn describes(self, w: u16, bytes: Seq<u8>) -> bool {
        &&& self.flags.describes(w)
        &&& self.brightness == off_brightness(w)
        &&& self.mirek == off_mirek(w)
        &&& self.xy == off_xy(w)
        &&& self.unknown0 == off_unknown0(w)
        &&& self.effect_type == off_effect_type(w)
        &&& self.gradient == off_gradient(w)
        &&& self.effect_speed == off_effect_speed(w, bytes)
        &&& self.params == off_params(w, bytes)
        &&& self.end == off_end(w, bytes)
        &&& self.end <= bytes.len()
    }

    /// Finds where the fields of the message stand, and checks what
    /// `decode_spec` checks.
    #[verifier::rlimit(60)]
    fn of(data: &[u8]) -> (r: ApiResult<Layout>)
        ensures
            match r {
                Ok(l) => data@.len() >= 2 && l.describes(
                    u16_from_le(data@[0], data@[1]),
                    data@,
                ) && decode_spec(data@) == Ok::<_, ApiError>(
                    fields_at(u16_from_le(data@[0], data@[1]), data@),
                ),
                Err(e) => decode_spec(data@) == Err::<HueZigbeeUpdateView, _>(e),
            },
            data@.len() >= 2 && u16_from_le(data@[0], data@[1]) >= 512 ==> r == Err::<Layout, _>(
                ApiError::HueZigbeeUnknownFlags(reserved_bits(u16_from_le(data@[0], data@[1]))),
            ),
    {
        let n = data.len();
        if n < 2 {
            return Err(ApiError::IoError);
        }
        let w = get_u16_le(data, 0);
        let f = flag_bits(w);
        if f.reserved != 0 {
            return Err(ApiError::HueZigbeeUnknownFlags(f.reserved));
        }
        let brightness: usize = 2 + width(f.on_off, 1);
        assert(brightness == off_brightness(w) && brightness <= 3);
        let mirek = brightness + width(f.brightness, 1);
        assert(mirek == off_mirek(w) && mirek <= 4);
        let xy = mirek + width(f.color_mirek, 2);
        assert(xy == off_xy(w) && xy <= 6);
        let unknown0 = xy + width(f.color_xy, 4);
        assert(unknown0 == off_unknown0(w) && unknown0 <= 10);
        let effect_type = unknown0 + width(f.unknown0, 2);
        assert(effect_type == off_effect_type(w) && effect_type <= 12);
        let gradient = effect_type + width(f.effect_type, 1);
        assert(gradient == off_gradient(w) && effect_type <= gradient <= 13);
        if n < gradient {
            return Err(ApiError::IoError);
        }
        if f.effect_type && EffectType::from_primitive(data[effect_type]).is_none() {
            return Err(ApiError::HueZigbeeDecodeError);
        }
        if f.gradient_colors && n - gradient < 5 {
            return Err(ApiError::IoError);
        }
        let count: usize = if f.gradient_colors {
            (data[gradient + 1] / 16) as usize
        } else {
            0
        };
        assert(count <= 15);
        let effect_speed = gradient + width(f.gradient_colors, 5 + 3 * count);
        assert(effect_speed == off_effect_speed(w, data@) && gradient <= effect_speed <= 63);
        let params = effect_speed + width(f.effect_speed, 1);
        assert(params == off_params(w, data@) && effect_speed <= params <= 64);
        let end = params + width(f.gradient_params, 2);
        assert(end == off_end(w, data@) && params <= end);
        if n < end {
            return Err(ApiError::IoError);
        }
        Ok(
            Layout {
                flags: f,
                brightness,
                mirek,
                xy,
                unknown0,
                effect_type,
                gradient,
                effect_speed,
                params,
                end,
            },
        )
    }

    /// Reads each field from where it stands.
    fn read(&self, data: &[u8]) -> (u: HueZigbeeUpdate)
        requires
            data@.len() >= 2,
            self.describes(u16_from_le(data@[0], data@[1]), data@),
            decode_spec(data@) is Ok,
        ensures
            u@ == fields_at(u16_from_le(data@[0], data@[1]), data@),
    {
        let ghost w = u16_from_le(data@[0], data@[1]);
        let n = data.len();
        let f = &self.flags;
        assert(2 <= self.brightness <= self.mirek <= self.xy <= self.unknown0 <= self.effect_type
            <= self.gradient <= self.effect_speed <= self.params <= self.end <= n);
        let effect_type = if f.effect_type {
            EffectType::from_primitive(data[self.effect_type])
        } else {
            None
        };
        let hz = HueZigbeeUpdate {
            onoff: opt_u8_at(data, 2, f.on_off),
            brightness: opt_u8_at(data, self.brightness, f.brightness),
            color_mirek: opt_u16_at(data, self.mirek, f.color_mirek),
            color_xy: opt_xy_at(data, self.xy, f.color_xy),
            unk0: opt_u16_at(data, self.unknown0, f.unknown0),
            gradient_colors: opt_gradient_at(data, self.gradient, f.gradient_colors),
            gradient_params: opt_params_at(data, self.params, f.gradient_params),
            effect_type,
            effect_speed: opt_u8_at(data, self.effect_speed, f.effect_speed),
        };
        proof {
            let v = fields_at(w, data@);
            assert(hz@.onoff == v.onoff);
            assert(hz@.brightness == v.brightness);
            assert(hz@.color_mirek == v.color_mirek);
            assert(hz@.color_xy == v.color_xy);
            assert(hz@.unk0 == v.unk0);
            assert(hz@.gradient_colors == v.gradient_colors);
            assert(hz@.gradient_params == v.gradient_params);
            assert(hz@.effect_type == v.effect_type);
            assert(hz@.effect_speed == v.effect_speed);
        }
        hz
    }
}

/// The byte at `pos` where `present`.
fn opt_u8_at(data: &[u8], pos: usize, present: bool) -> (o: Option<u8>)
    requires
        present ==> pos + 1 <= data.len(),
    ensures
        o == (if present {
            Some(data@[pos as int])
        } else {
            None
        }),
{
    if present {
        Some(data[pos])
    } else {
        None
    }
}

/// The little-endian 16-bit value at `pos` where `present`.
fn opt_u16_at(data: &[u8], pos: usize, present: bool) -> (o: Option<u16>)
    requires
        present ==> pos + 2 <= data.len(),
    ensures
        o == (if present {
            Some(u16_from_le(data@[pos as int], data@[pos + 1]))
        } else {
            None
        }),
{
    if present {
        Some(get_u16_le(data, pos))
    } else {
        None
    }
}

/// The colour coordinates at `pos` where `present`.
fn opt_xy_at(data: &[u8], pos: usize, present: bool) -> (o: Option<XY>)
    requires
        present ==> pos + 4 <= data.len(),
    ensures
        o == (if present {
            Some(
                XY {
                    x: u16_from_le(data@[pos as int], data@[pos + 1]),
                    y: u16_from_le(data@[pos + 2], data@[pos + 3]),
                },
            )
        } else {
            None
        }),
{
    if present {
        Some(XY { x: get_u16_le(data, pos), y: get_u16_le(data, pos + 2) })
    } else {
        None
    }
}

/// The gradient colours at `pos` where `present`.
fn opt_gradient_at(data: &[u8], pos: usize, present: bool) -> (o: Option<GradientColors>)
    requires
        present ==> pos + 5 <= data.len() && pos + 5 + 3 * (data@[pos + 1] as int / 16)
            <= data.len(),
    ensures
        match o {
            Some(g) => present && g@ == gradient_at(data@, pos as int),
            None => !present,
        },
{
    if present {
        let header = GradientUpdateHeader::unpack_at(data, pos + 1);
        let points = read_points(data, pos + 5, header.nlights as usize);
        Some(GradientColors { header, points })
    } else {
        None
    }
}

/// The gradient scale and offset at `pos` where `present`.
fn opt_params_at(data: &[u8], pos: usize, present: bool) -> (o: Option<GradientParams>)
    requires
        present ==> pos + 2 <= data.len(),
    ensures
        o == (if present {
            Some(GradientParams { scale: data@[pos as int], offset: data@[pos + 1] })
        } else {
            None
        }),
{
    if present {
        Some(GradientParams { scale: data[pos], offset: data[pos + 1] })
    } else {
        None
    }
}

/// `n` if `present`, else 0.
fn width(present: bool, n: usize) -> (k: usize)
    ensures
        k == when(present, n as int),
{
    if present {
        n
    } else {
        0
    }
}

/// Appends an optional byte.
fn put_opt_u8(wtr: &mut Vec<u8>, o: Option<u8>)
    ensures
        final(wtr)@ == old(wtr)@ + opt_u8_bytes(o),
{
    if let Some(v) = o {
        wtr.push(v);
    }
    assert(wtr@ =~= old(wtr)@ + opt_u8_bytes(o));
}

/// Appends an optional 16-bit value.
fn put_opt_u16(wtr: &mut Vec<u8>, o: Option<u16>)
    ensures
        final(wtr)@ == old(wtr)@ + opt_u16_bytes(o),
{
    if let Some(v) = o {
        put_u16_le(wtr, v);
    }
    assert(wtr@ =~= old(wtr)@ + opt_u16_bytes(o));
}

/// Appends optional colour coordinates.
fn put_opt_xy(wtr: &mut Vec<u8>, o: Option<XY>)
    ensures
        final(wtr)@ == old(wtr)@ + opt_xy_bytes(o),
{
    if let Some(xy) = o {
        put_u16_le(wtr, xy.x);
        put_u16_le(wtr, xy.y);
    }
    assert(wtr@ =~= old(wtr)@ + opt_xy_bytes(o));
}

/// Appends an optional effect type.
fn put_effect_type(wtr: &mut Vec<u8>, o: Option<EffectType>)
    ensures
        final(wtr)@ == old(wtr)@ + match o {
            Some(e) => seq![e.code()],
            None => seq![],
        },
{
    if let Some(e) = o {
        wtr.push(e.to_primitive());
    }
    assert(wtr@ =~= old(wtr)@ + match o {
        Some(e) => seq![e.code()],
        None => seq![],
    });
}

/// Appends optional gradient colours.
fn put_gradient(wtr: &mut Vec<u8>, o: &Option<GradientColors>)
    requires
        o matches Some(g) ==> g@.points.len() <= MAX_GRADIENT_POINTS,
    ensures
        final(wtr)@ == old(wtr)@ + match *o {
            Some(g) => gradient_bytes(g@),
            None => seq![],
        },
{
    if let Some(g) = o {
        write_gradient(g, wtr);
    }
    assert(wtr@ =~= old(wtr)@ + match *o {
        Some(g) => gradient_bytes(g@),
        None => seq![],
    });
}

/// Appends an optional gradient scale and offset.
fn put_params(wtr: &mut Vec<u8>, o: Option<GradientParams>)
    ensures
        final(wtr)@ == old(wtr)@ + match o {
            Some(p) => seq![p.scale, p.offset],
            None => seq![],
        },
{
    if let Some(p) = o {
        wtr.push(p.scale);
        wtr.push(p.offset);
    }
    assert(wtr@ =~= old(wtr)@ + match o {
        Some(p) => seq![p.scale, p.offset],
        None => seq![],
    });
}

/// Appends the gradient colours: the length byte, the header, the points.
fn write_gradient(g: &GradientColors, wtr: &mut Vec<u8>)
    requires
        g@.points.len() <= MAX_GRADIENT_POINTS,
    ensures
        final(wtr)@ == old(wtr)@ + gradient_bytes(g@),
{
    let ghost start = wtr@;
    let n = g.points.len();
    wtr.push((4 + 3 * n) as u8);
    let header = g.header.pack();
    wtr.push(header[0]);
    wtr.push(header[1]);
    wtr.push(header[2]);
    wtr.push(header[3]);
    assert(wtr@ =~= start + seq![(4 + 3 * n) as u8] + g.header.bytes());
    let ghost front = wtr@;
    let mut i: usize = 0;
    while i < n
        invariant
            n == g.points@.len(),
            i <= n,
            wtr@ == front + points_bytes(g.points@.subrange(0, i as int)),
        decreases n - i,
    {
        let point = g.points[i];
        let packed = pack_xy12(point.x, point.y);
        let ghost before = wtr@;
        wtr.push(packed[0]);
        wtr.push(packed[1]);
        wtr.push(packed[2]);
        assert(wtr@ =~= front + points_bytes(g.points@.subrange(0, i + 1))) by {
            let shorter = points_bytes(g.points@.subrange(0, i as int));
            let longer = points_bytes(g.points@.subrange(0, i + 1));
            assert(longer.len() == shorter.len() + 3);
            assert forall|k: int| 0 <= k < longer.len() implies longer[k] == (shorter + xy12_bytes(
                point.x,
                point.y,
            ))[k] by {
                if k < shorter.len() {
                    assert(g.points@.subrange(0, i + 1)[k / 3] == g.points@.subrange(
                        0,
                        i as int,
                    )[k / 3]);
                } else {
                    assert(k / 3 == i);
                    assert(k % 3 == k - shorter.len());
                }
            }
            assert(longer =~= shorter + xy12_bytes(point.x, point.y));
        }
        i += 1;
    }
    assert(g.points@.subrange(0, n as int) =~= g.points@);
}

/// Reads the `count` gradient points packed from `start` on.
fn read_points(data: &[u8], start: usize, count: usize) -> (points: Vec<XY>)
    requires
        start + 3 * count <= data.len(),
    ensures
        points@ == points_at(data@, start as int, count as int),
{
    let n = data.len();
    let mut points: Vec<XY> = Vec::new();
    let mut i: usize = 0;
    while i < count
        invariant
            n == data@.len(),
            start + 3 * count <= n,
            i <= count,
            points@ == points_at(data@, start as int, i as int),
        decreases count - i,
    {
        let base = start + 3 * i;
        let (x, y) = unpack_xy12(data[base], data[base + 1], data[base + 2]);
        points.push(XY { x, y });
        i += 1;
        assert(points@ =~= points_at(data@, start as int, i as int));
    }
    points
}


/// A word that is the sum of distinct powers of two has exactly their bits.
proof fn lemma_flag_sum(
    w: u16,
    b0: bool,
    b1: bool,
    b2: bool,
    b3: bool,
    b4: bool,
    b5: bool,
    b6: bool,
    b7: bool,
    b8: bool,
)
    by (bit_vector)
    requires
        w == (if b0 { 1u16 } else { 0u16 }) + (if b1 { 2u16 } else { 0u16 })
            + (if b2 { 4u16 } else { 0u16 }) + (if b3 { 8u16 } else { 0u16 })
            + (if b4 { 16u16 } else { 0u16 }) + (if b5 { 32u16 } else { 0u16 })
            + (if b6 { 64u16 } else { 0u16 }) + (if b7 { 128u16 } else { 0u16 })
            + (if b8 { 256u16 } else { 0u16 }),
    ensures
        w < 512,
        (w % 2 == 1) == b0,
        ((w / 2) % 2 == 1) == b1,
        ((w / 4) % 2 == 1) == b2,
        ((w / 8) % 2 == 1) == b3,
        ((w / 16) % 2 == 1) == b4,
        ((w / 32) % 2 == 1) == b5,
        ((w / 64) % 2 == 1) == b6,
        ((w / 128) % 2 == 1) == b7,
        ((w / 256) % 2 == 1) == b8,
{
}

/// The flag word of an update sets no reserved bit, and sets the flag of a
/// field exactly where the field is present.
pub proof fn lemma_flag_word(u: HueZigbeeUpdateView)
    ensures
        flag_word(u) < 512,
        has_on_off(flag_word(u)) == (u.onoff is Some),
        has_brightness(flag_word(u)) == (u.brightness is Some),
        has_color_mirek(flag_word(u)) == (u.color_mirek is Some),
        has_color_xy(flag_word(u)) == (u.color_xy is Some),
        has_unknown0(flag_word(u)) == (u.unk0 is Some),
        has_effect_type(flag_word(u)) == (u.effect_type is Some),
        has_gradient_params(flag_word(u)) == (u.gradient_params is Some),
        has_effect_speed(flag_word(u)) == (u.effect_speed is Some),
        has_gradient_colors(flag_word(u)) == (u.gradient_colors is Some),
{
    lemma_flag_sum(
        flag_word(u),
        u.onoff is Some,
        u.brightness is Some,
        u.color_mirek is Some,
        u.color_xy is Some,
        u.unk0 is Some,
        u.effect_type is Some,
        u.gradient_params is Some,
        u.effect_speed is Some,
        u.gradient_colors is Some,
    );
    reveal(has_on_off);
    reveal(has_brightness);
    reveal(has_color_mirek);
    reveal(has_color_xy);
    reveal(has_unknown0);
    reveal(has_effect_type);
    reveal(has_gradient_params);
    reveal(has_effect_speed);
    reveal(has_gradient_colors);
}

/// `p` is how `bytes` begins.
pub open spec fn begins_with(bytes: Seq<u8>, p: Seq<u8>) -> bool {
    p.len() <= bytes.len() && forall|i: int| 0 <= i < p.len() ==> bytes[i] == p[i]
}

/// Where `bytes` begins with `p + f`, it begins with `p`, and `f` follows.
proof fn lemma_field_follows(bytes: Seq<u8>, p: Seq<u8>, f: Seq<u8>)
    requires
        begins_with(bytes, p + f),
    ensures
        begins_with(bytes, p),
        (p + f).len() == p.len() + f.len(),
        forall|j: int| 0 <= j < f.len() ==> bytes[p.len() as int + j] == #[trigger] f[j],
{
    assert forall|i: int| 0 <= i < p.len() implies bytes[i] == p[i] by {
        assert((p + f)[i] == p[i]);
    }
    assert forall|j: int| 0 <= j < f.len() implies bytes[p.len() as int + j] == #[trigger] f[j] by {
        assert((p + f)[p.len() as int + j] == f[j]);
    }
}

/// Gradient colours that are well formed are read back from their bytes,
/// wherever those stand.
proof fn lemma_gradient_round_trip(g: GradientColorsView, bytes: Seq<u8>, at: int)
    requires
        g.wf(),
        0 <= at,
        at + gradient_bytes(g).len() <= bytes.len(),
        forall|j: int| 0 <= j < gradient_bytes(g).len() ==> bytes[at + j] == gradient_bytes(g)[j],
    ensures
        gradient_bytes(g).len() == 5 + 3 * g.points.len(),
        bytes[at + 1] as int / 16 == g.points.len(),
        gradient_at(bytes, at) == g,
{
    let n = g.points.len() as int;
    let gb = gradient_bytes(g);
    let hb = g.header.bytes();
    let pb = points_bytes(g.points);
    assert(gb.len() == 5 + 3 * n);
    assert forall|j: int| 0 <= j < 4 implies bytes[at + 1 + j] == hb[j] by {
        assert(gb[1 + j] == hb[j]);
    }
    assert forall|j: int| 0 <= j < 3 * n implies bytes[at + 5 + j] == pb[j] by {
        assert(gb[5 + j] == pb[j]);
    }
    g.header.lemma_round_trip();
    assert(bytes[at + 1] == hb[0]);
    assert(bytes[at + 2] == hb[1]);
    assert(bytes[at + 3] == hb[2]);
    assert(bytes[at + 4] == hb[3]);
    assert(bytes[at + 1] as int / 16 == n);
    let decoded = points_at(bytes, at + 5, n);
    assert forall|i: int| 0 <= i < n implies decoded[i] == g.points[i] by {
        let pt = g.points[i];
        crate::wire::lemma_xy12_round_trip(pt.x, pt.y);
        assert(pb[3 * i] == xy12_bytes(pt.x, pt.y)[0]) by {
            assert((3 * i) / 3 == i && (3 * i) % 3 == 0);
        }
        assert(pb[3 * i + 1] == xy12_bytes(pt.x, pt.y)[1]) by {
            assert((3 * i + 1) / 3 == i && (3 * i + 1) % 3 == 1);
        }
        assert(pb[3 * i + 2] == xy12_bytes(pt.x, pt.y)[2]) by {
            assert((3 * i + 2) / 3 == i && (3 * i + 2) % 3 == 2);
        }
        assert(bytes[at + 5 + 3 * i] == pb[3 * i]);
        assert(bytes[at + 5 + 3 * i + 1] == pb[3 * i + 1]);
        assert(bytes[at + 5 + 3 * i + 2] == pb[3 * i + 2]);
    }
    assert(decoded =~= g.points);
}

/// Where each field stands in the message that carries `u`, counted from
/// the lengths of the fields in front of it.
pub open spec fn pos_brightness(u: HueZigbeeUpdateView) -> int {
    2 + on_off_field(u).len() as int
}

pub open spec fn pos_mirek(u: HueZigbeeUpdateView) -> int {
    pos_brightness(u) + brightness_field(u).len()
}

pub open spec fn pos_xy(u: HueZigbeeUpdateView) -> int {
    pos_mirek(u) + mirek_field(u).len()
}

pub open spec fn pos_unknown0(u: HueZigbeeUpdateView) -> int {
    pos_xy(u) + xy_field(u).len()
}

pub open spec fn pos_effect_type(u: HueZigbeeUpdateView) -> int {
    pos_unknown0(u) + unknown0_field(u).len()
}

pub open spec fn pos_gradient(u: HueZigbeeUpdateView) -> int {
    pos_effect_type(u) + effect_type_field(u).len()
}

pub open spec fn pos_effect_speed(u: HueZigbeeUpdateView) -> int {
    pos_gradient(u) + gradient_field(u).len()
}

pub open spec fn pos_params(u: HueZigbeeUpdateView) -> int {
    pos_effect_speed(u) + effect_speed_field(u).len()
}

pub open spec fn pos_end(u: HueZigbeeUpdateView) -> int {
    pos_params(u) + params_field(u).len()
}

/// `f` stands in `bytes` at `at`.
pub open spec fn stands_at(bytes: Seq<u8>, at: int, f: Seq<u8>) -> bool {
    forall|j: int| 0 <= j < f.len() ==> bytes[at + j] == #[trigger] f[j]
}

/// In the message that carries `u`, every field stands where the lengths of
/// the fields in front of it put it.
pub proof fn lemma_encoded_fields(u: HueZigbeeUpdateView)
    ensures
        encode_spec(u).len() == pos_end(u),
        stands_at(encode_spec(u), 0, u16_le(flag_word(u))),
        stands_at(encode_spec(u), 2, on_off_field(u)),
        stands_at(encode_spec(u), pos_brightness(u), brightness_field(u)),
        stands_at(encode_spec(u), pos_mirek(u), mirek_field(u)),
        stands_at(encode_spec(u), pos_xy(u), xy_field(u)),
        stands_at(encode_spec(u), pos_unknown0(u), unknown0_field(u)),
        stands_at(encode_spec(u), pos_effect_type(u), effect_type_field(u)),
        stands_at(encode_spec(u), pos_gradient(u), gradient_field(u)),
        stands_at(encode_spec(u), pos_effect_speed(u), effect_speed_field(u)),
        stands_at(encode_spec(u), pos_params(u), params_field(u)),
{
    let bytes = encode_spec(u);
    let p0 = u16_le(flag_word(u));
    let p1 = p0 + on_off_field(u);
    let p2 = p1 + brightness_field(u);
    let p3 = p2 + mirek_field(u);
    let p4 = p3 + xy_field(u);
    let p5 = p4 + unknown0_field(u);
    let p6 = p5 + effect_type_field(u);
    let p7 = p6 + gradient_field(u);
    let p8 = p7 + effect_speed_field(u);
    let p9 = p8 + params_field(u);
    assert(bytes == p9);
    assert(begins_with(bytes, p9));
    lemma_field_follows(bytes, p8, params_field(u));
    lemma_field_follows(bytes, p7, effect_speed_field(u));
    lemma_field_follows(bytes, p6, gradient_field(u));
    lemma_field_follows(bytes, p5, effect_type_field(u));
    lemma_field_follows(bytes, p4, unknown0_field(u));
    lemma_field_follows(bytes, p3, xy_field(u));
    lemma_field_follows(bytes, p2, mirek_field(u));
    lemma_field_follows(bytes, p1, brightness_field(u));
    lemma_field_follows(bytes, p0, on_off_field(u));
    assert(p0.len() == 2);
    assert(stands_at(bytes, 0, p0));
}

/// The fields in front of the gradient colours stand, in the message that
/// carries `u`, where a decoder looks for them.
proof fn lemma_head_offsets(u: HueZigbeeUpdateView)
    ensures
        off_brightness(flag_word(u)) == pos_brightness(u),
        off_mirek(flag_word(u)) == pos_mirek(u),
        off_xy(flag_word(u)) == pos_xy(u),
        off_unknown0(flag_word(u)) == pos_unknown0(u),
        off_effect_type(flag_word(u)) == pos_effect_type(u),
        off_gradient(flag_word(u)) == pos_gradient(u),
{
    lemma_flag_word(u);
}

/// The fields in front of the gradient colours are read back from the
/// message that carries `u`.
proof fn lemma_head_fields(u: HueZigbeeUpdateView)
    ensures
        u16_from_le(encode_spec(u)[0], encode_spec(u)[1]) == flag_word(u),
        fields_at(flag_word(u), encode_spec(u)).onoff == u.onoff,
        fields_at(flag_word(u), encode_spec(u)).brightness == u.brightness,
        fields_at(flag_word(u), encode_spec(u)).color_mirek == u.color_mirek,
        fields_at(flag_word(u), encode_spec(u)).color_xy == u.color_xy,
        fields_at(flag_word(u), encode_spec(u)).unk0 == u.unk0,
        fields_at(flag_word(u), encode_spec(u)).effect_type == u.effect_type,
        u.effect_type is Some ==> EffectType::from_code(
            encode_spec(u)[off_effect_type(flag_word(u))],
        ) is Some,
{
    let bytes = encode_spec(u);
    let w = flag_word(u);
    lemma_flag_word(u);
    lemma_encoded_fields(u);
    lemma_head_offsets(u);
    crate::wire::lemma_u16_le_round_trip(w);
    assert(u16_from_le(bytes[0], bytes[1]) == w) by {
        assert(bytes[0int + 0] == u16_le(w)[0]);
        assert(bytes[0int + 1] == u16_le(w)[1]);
    }
    let v = fields_at(w, bytes);
    assert(v.onoff == u.onoff) by {
        if u.onoff is Some {
            assert(bytes[2int + 0] == on_off_field(u)[0]);
        }
    }
    assert(v.brightness == u.brightness) by {
        if u.brightness is Some {
            assert(bytes[pos_brightness(u) + 0] == brightness_field(u)[0]);
        }
    }
    assert(v.color_mirek == u.color_mirek) by {
        if u.color_mirek is Some {
            crate::wire::lemma_u16_le_round_trip(u.color_mirek->0);
            assert(bytes[pos_mirek(u) + 0] == mirek_field(u)[0]);
            assert(bytes[pos_mirek(u) + 1] == mirek_field(u)[1]);
        }
    }
    assert(v.color_xy == u.color_xy) by {
        if u.color_xy is Some {
            let xy = u.color_xy->0;
            crate::wire::lemma_u16_le_round_trip(xy.x);
            crate::wire::lemma_u16_le_round_trip(xy.y);
            assert(bytes[pos_xy(u) + 0] == xy_field(u)[0]);
            assert(bytes[pos_xy(u) + 1] == xy_field(u)[1]);
            assert(bytes[pos_xy(u) + 2] == xy_field(u)[2]);
            assert(bytes[pos_xy(u) + 3] == xy_field(u)[3]);
        }
    }
    assert(v.unk0 == u.unk0) by {
        if u.unk0 is Some {
            crate::wire::lemma_u16_le_round_trip(u.unk0->0);
            assert(bytes[pos_unknown0(u) + 0] == unknown0_field(u)[0]);
            assert(bytes[pos_unknown0(u) + 1] == unknown0_field(u)[1]);
        }
    }
    assert(v.effect_type == u.effect_type) by {
        if u.effect_type is Some {
            u.effect_type->0.lemma_code_round_trip();
            assert(bytes[pos_effect_type(u) + 0] == effect_type_field(u)[0]);
        }
    }
}

/// The gradient colours and the fields behind them are read back from the
/// message that carries `u`, and the message ends where a decoder expects.
proof fn lemma_tail_fields(u: HueZigbeeUpdateView)
    requires
        u.wf(),
    ensures
        u.gradient_colors is Some ==> pos_gradient(u) + 5 <= encode_spec(u).len(),
        off_end(flag_word(u), encode_spec(u)) == encode_spec(u).len(),
        fields_at(flag_word(u), encode_spec(u)).gradient_colors == u.gradient_colors,
        fields_at(flag_word(u), encode_spec(u)).effect_speed == u.effect_speed,
        fields_at(flag_word(u), encode_spec(u)).gradient_params == u.gradient_params,
{
    let bytes = encode_spec(u);
    let w = flag_word(u);
    lemma_flag_word(u);
    lemma_encoded_fields(u);
    lemma_head_offsets(u);
    let v = fields_at(w, bytes);
    assert(v.gradient_colors == u.gradient_colors && off_effect_speed(w, bytes)
        == pos_effect_speed(u) && (u.gradient_colors is Some ==> pos_gradient(u) + 5
        <= bytes.len())) by {
        if u.gradient_colors is Some {
            let g = u.gradient_colors->0;
            assert(gradient_field(u) == gradient_bytes(g));
            assert(gradient_bytes(g).len() == 5 + 3 * g.points.len());
            lemma_gradient_round_trip(g, bytes, pos_gradient(u));
        }
    }
    assert(off_params(w, bytes) == pos_params(u));
    assert(off_end(w, bytes) == pos_end(u));
    assert(v.effect_speed == u.effect_speed) by {
        if u.effect_speed is Some {
            assert(bytes[pos_effect_speed(u) + 0] == effect_speed_field(u)[0]);
        }
    }
    assert(v.gradient_params == u.gradient_params) by {
        if u.gradient_params is Some {
            assert(bytes[pos_params(u) + 0] == params_field(u)[0]);
            assert(bytes[pos_params(u) + 1] == params_field(u)[1]);
        }
    }
}

/// Decoding inverts encoding: a well-formed update is decoded again from
/// the message that carries it.
pub proof fn lemma_decode_encode(u: HueZigbeeUpdateView)
    requires
        u.wf(),
    ensures
        decode_spec(encode_spec(u)) == Ok::<_, ApiError>(u),
{
    let bytes = encode_spec(u);
    let w = flag_word(u);
    lemma_flag_word(u);
    lemma_head_offsets(u);
    lemma_head_fields(u);
    lemma_tail_fields(u);
    assert(bytes.len() >= off_gradient(w) >= 2) by {
        lemma_encoded_fields(u);
    }
    assert(fields_at(w, bytes) == u);
}


/// A message whose flag word sets a reserved bit is refused, with the
/// reserved bits it sets, whatever else the message holds.
pub proof fn lemma_reserved_flags_rejected(bytes: Seq<u8>)
    requires
        bytes.len() >= 2,
        u16_from_le(bytes[0], bytes[1]) >= 512,
    ensures
        decode_spec(bytes) == Err::<HueZigbeeUpdateView, _>(
            ApiError::HueZigbeeUnknownFlags(reserved_bits(u16_from_le(bytes[0], bytes[1]))),
        ),
        reserved_bits(u16_from_le(bytes[0], bytes[1])) >= 512,
{
}

/// A message that announces an effect type, holds every field in front of
/// it, and whose effect byte stands for no effect, is refused.
pub proof fn lemma_unknown_effect_rejected(bytes: Seq<u8>)
    requires
        bytes.len() >= 2,
        u16_from_le(bytes[0], bytes[1]) < 512,
        has_effect_type(u16_from_le(bytes[0], bytes[1])),
        bytes.len() > off_effect_type(u16_from_le(bytes[0], bytes[1])),
        EffectType::from_code(bytes[off_effect_type(u16_from_le(bytes[0], bytes[1]))]) is None,
    ensures
        decode_spec(bytes) == Err::<HueZigbeeUpdateView, _>(ApiError::HueZigbeeDecodeError),
{
}


} // verus!
