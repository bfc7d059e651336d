//! Raw kernel codes and the domain enums they decode to, together with the
//! plain results of the resource-listing queries.
//!
//! The kernel reports every classification as an integer whose meaning is
//! fixed by the device ABI. Each decoding below is an explicit, exhaustive
//! match with a defined `Unknown` fallback; nothing relies on representation
//! identity.

use vstd::prelude::*;

verus! {

// Connector interface codes of the device ABI.
pub const CONNECTOR_RAW_UNKNOWN: u32 = 0;

pub const CONNECTOR_RAW_VGA: u32 = 1;

pub const CONNECTOR_RAW_DVII: u32 = 2;

pub const CONNECTOR_RAW_DVID: u32 = 3;

pub const CONNECTOR_RAW_DVIA: u32 = 4;

pub const CONNECTOR_RAW_COMPOSITE: u32 = 5;

pub const CONNECTOR_RAW_SVIDEO: u32 = 6;

pub const CONNECTOR_RAW_LVDS: u32 = 7;

pub const CONNECTOR_RAW_COMPONENT: u32 = 8;

pub const CONNECTOR_RAW_NINE_PIN_DIN: u32 = 9;

pub const CONNECTOR_RAW_DISPLAY_PORT: u32 = 10;

pub const CONNECTOR_RAW_HDMIA: u32 = 11;

pub const CONNECTOR_RAW_HDMIB: u32 = 12;

pub const CONNECTOR_RAW_TV: u32 = 13;

pub const CONNECTOR_RAW_EDP: u32 = 14;

pub const CONNECTOR_RAW_VIRTUAL: u32 = 15;

pub const CONNECTOR_RAW_DSI: u32 = 16;

pub const CONNECTOR_RAW_DPI: u32 = 17;

// Encoder type codes of the device ABI.
pub const ENCODER_RAW_NONE: u32 = 0;

pub const ENCODER_RAW_DAC: u32 = 1;

pub const ENCODER_RAW_TMDS: u32 = 2;

pub const ENCODER_RAW_LVDS: u32 = 3;

pub const ENCODER_RAW_TVDAC: u32 = 4;

pub const ENCODER_RAW_VIRTUAL: u32 = 5;

pub const ENCODER_RAW_DSI: u32 = 6;

pub const ENCODER_RAW_DPMST: u32 = 7;

pub const ENCODER_RAW_DPI: u32 = 8;

// Object type codes of the device ABI, as used by the property queries.
pub const OBJECT_RAW_CRTC: u32 = 0xcccccccc;

pub const OBJECT_RAW_CONNECTOR: u32 = 0xc0c0c0c0;

pub const OBJECT_RAW_ENCODER: u32 = 0xe0e0e0e0;

pub const OBJECT_RAW_MODE: u32 = 0xdededede;

pub const OBJECT_RAW_PROPERTY: u32 = 0xb0b0b0b0;

pub const OBJECT_RAW_FB: u32 = 0xfbfbfbfb;

pub const OBJECT_RAW_BLOB: u32 = 0xbbbbbbbb;

pub const OBJECT_RAW_PLANE: u32 = 0xeeeeeeee;

pub const OBJECT_RAW_ANY: u32 = 0;

/// The physical interface a connector exposes.
#[derive(Debug, Clone, Copy, PartialEq, Eq, Structural)]
pub enum ConnectorInterface {
    Unknown,
    VGA,
    DVII,
    DVID,
    DVIA,
    Composite,
    SVideo,
    LVDS,
    Component,
    NinePinDIN,
    DisplayPort,
    HDMIA,
    HDMIB,
    TV,
    EDP,
    Virtual,
    DSI,
    DPI,
}

impl ConnectorInterface {
    /// The interface the given kernel code stands for.
    pub open spec fn spec_from_raw(raw: u32) -> ConnectorInterface {
        if raw == CONNECTOR_RAW_VGA {
            ConnectorInterface::VGA
        } else if raw == CONNECTOR_RAW_DVII {
            ConnectorInterface::DVII
        } else if raw == CONNECTOR_RAW_DVID {
            ConnectorInterface::DVID
        } else if raw == CONNECTOR_RAW_DVIA {
            ConnectorInterface::DVIA
        } else if raw == CONNECTOR_RAW_COMPOSITE {
            ConnectorInterface::Composite
        } else if raw == CONNECTOR_RAW_SVIDEO {
            ConnectorInterface::SVideo
        } else if raw == CONNECTOR_RAW_LVDS {
            ConnectorInterface::LVDS
        } else if raw == CONNECTOR_RAW_COMPONENT {
            ConnectorInterface::Component
        } else if raw == CONNECTOR_RAW_NINE_PIN_DIN {
            ConnectorInterface::NinePinDIN
        } else if raw == CONNECTOR_RAW_DISPLAY_PORT {
            ConnectorInterface::DisplayPort
        } else if raw == CONNECTOR_RAW_HDMIA {
            ConnectorInterface::HDMIA
        } else if raw == CONNECTOR_RAW_HDMIB {
            ConnectorInterface::HDMIB
        } else if raw == CONNECTOR_RAW_TV {
            ConnectorInterface::TV
        } else if raw == CONNECTOR_RAW_EDP {
            ConnectorInterface::EDP
        } else if raw == CONNECTOR_RAW_VIRTUAL {
            ConnectorInterface::Virtual
        } else if raw == CONNECTOR_RAW_DSI {
            ConnectorInterface::DSI
        } else if raw == CONNECTOR_RAW_DPI {
            ConnectorInterface::DPI
        } else {
            ConnectorInterface::Unknown
        }
    }

    /// Decodes the kernel's connector type code.
    pub fn from_raw(raw: u32) -> (r: ConnectorInterface)
        ensures
            r == Self::spec_from_raw(raw),
    {
        if raw == CONNECTOR_RAW_VGA {
            ConnectorInterface::VGA
        } else if raw == CONNECTOR_RAW_DVII {
            ConnectorInterface::DVII
        } else if raw == CONNECTOR_RAW_DVID {
            ConnectorInterface::DVID
        } else if raw == CONNECTOR_RAW_DVIA {
            ConnectorInterface::DVIA
        } else if raw == CONNECTOR_RAW_COMPOSITE {
            ConnectorInterface::Composite
        } else if raw == CONNECTOR_RAW_SVIDEO {
            ConnectorInterface::SVideo
        } else if raw == CONNECTOR_RAW_LVDS {
            ConnectorInterface::LVDS
        } else if raw == CONNECTOR_RAW_COMPONENT {
            ConnectorInterface::Component
        } else if raw == CONNECTOR_RAW_NINE_PIN_DIN {
            ConnectorInterface::NinePinDIN
        } else if raw == CONNECTOR_RAW_DISPLAY_PORT {
            ConnectorInterface::DisplayPort
        } else if raw == CONNECTOR_RAW_HDMIA {
            ConnectorInterface::HDMIA
        } else if raw == CONNECTOR_RAW_HDMIB {
            ConnectorInterface::HDMIB
        } else if raw == CONNECTOR_RAW_TV {
            ConnectorInterface::TV
        } else if raw == CONNECTOR_RAW_EDP {
            ConnectorInterface::EDP
        } else if raw == CONNECTOR_RAW_VIRTUAL {
            ConnectorInterface::Virtual
        } else if raw == CONNECTOR_RAW_DSI {
            ConnectorInterface::DSI
        } else if raw == CONNECTOR_RAW_DPI {
            ConnectorInterface::DPI
        } else {
            ConnectorInterface::Unknown
        }
    }
}

/// Whether a display is attached to a connector.
#[derive(Debug, Clone, Copy, PartialEq, Eq, Structural)]
pub enum Connection {
    Connected,
    Disconnected,
    Unknown,
}

impl Connection {
    /// The connection state the given kernel code stands for: 1 is
    /// connected, 2 is disconnected, everything else is unknown.
    pub open spec fn spec_from_raw(raw: u32) -> Connection {
        if raw == 1 {
            Connection::Connected
        } else if raw == 2 {
            Connection::Disconnected
        } else {
            Connection::Unknown
        }
    }

    /// Decodes the kernel's connection state code.
    pub fn from_raw(raw: u32) -> (r: Connection)
        ensures
            r == Self::spec_from_raw(raw),
    {
        if raw == 1 {
            Connection::Connected
        } else if raw == 2 {
            Connection::Disconnected
        } else {
            Connection::Unknown
        }
    }
}

/// The subpixel layout a connected display reports.
#[derive(Debug, Clone, Copy, PartialEq, Eq, Structural)]
pub enum SubPixelType {
    Unknown,
    HorizontalRGB,
    HorizontalBGR,
    VerticalRGB,
    VerticalBGR,
    NoSubPixel,
}

impl SubPixelType {
    /// The subpixel layout the given kernel code stands for.
    pub open spec fn spec_from_raw(raw: u32) -> SubPixelType {
        if raw == 2 {
            SubPixelType::HorizontalRGB
        } else if raw == 3 {
            SubPixelType::HorizontalBGR
        } else if raw == 4 {
            SubPixelType::VerticalRGB
        } else if raw == 5 {
            SubPixelType::VerticalBGR
        } else if raw == 6 {
            SubPixelType::NoSubPixel
        } else {
            SubPixelType::Unknown
        }
    }

    /// Decodes the kernel's subpixel code.
    pub fn from_raw(raw: u32) -> (r: SubPixelType)
        ensures
            r == Self::spec_from_raw(raw),
    {
        if raw == 2 {
            SubPixelType::HorizontalRGB
        } else if raw == 3 {
            SubPixelType::HorizontalBGR
        } else if raw == 4 {
            SubPixelType::VerticalRGB
        } else if raw == 5 {
            SubPixelType::VerticalBGR
        } else if raw == 6 {
            SubPixelType::NoSubPixel
        } else {
            SubPixelType::Unknown
        }
    }
}

/// The kind of signal conversion an encoder performs.
#[derive(Debug, Clone, Copy, PartialEq, Eq, Structural)]
pub enum EncoderType {
    NoEncoder,
    DAC,
    TMDS,
    LVDS,
    TVDAC,
    Virtual,
    DSI,
    DPMST,
    DPI,
}

impl EncoderType {
    /// The encoder type the given kernel code stands for.
    pub open spec fn spec_from_raw(raw: u32) -> EncoderType {
        if raw == ENCODER_RAW_DAC {
            EncoderType::DAC
        } else if raw == ENCODER_RAW_TMDS {
            EncoderType::TMDS
        } else if raw == ENCODER_RAW_LVDS {
            EncoderType::LVDS
        } else if raw == ENCODER_RAW_TVDAC {
            EncoderType::TVDAC
        } else if raw == ENCODER_RAW_VIRTUAL {
            EncoderType::Virtual
        } else if raw == ENCODER_RAW_DSI {
            EncoderType::DSI
        } else if raw == ENCODER_RAW_DPMST {
            EncoderType::DPMST
        } else if raw == ENCODER_RAW_DPI {
            EncoderType::DPI
        } else {
            EncoderType::NoEncoder
        }
    }

    /// Decodes the kernel's encoder type code.
    pub fn from_raw(raw: u32) -> (r: EncoderType)
        ensures
            r == Self::spec_from_raw(raw),
    {
        if raw == ENCODER_RAW_DAC {
            EncoderType::DAC
        } else if raw == ENCODER_RAW_TMDS {
            EncoderType::TMDS
        } else if raw == ENCODER_RAW_LVDS {
            EncoderType::LVDS
        } else if raw == ENCODER_RAW_TVDAC {
            EncoderType::TVDAC
        } else if raw == ENCODER_RAW_VIRTUAL {
            EncoderType::Virtual
        } else if raw == ENCODER_RAW_DSI {
            EncoderType::DSI
        } else if raw == ENCODER_RAW_DPMST {
            EncoderType::DPMST
        } else if raw == ENCODER_RAW_DPI {
            EncoderType::DPI
        } else {
            EncoderType::NoEncoder
        }
    }
}

/// The kind of object a property's object reference may point at.
#[derive(Debug, Clone, Copy, PartialEq, Eq, Structural)]
pub enum ObjectKind {
    Connector,
    Encoder,
    Controller,
    Framebuffer,
    Plane,
    Property,
    Mode,
    Blob,
    Unknown,
}

impl ObjectKind {
    /// The object kind the given kernel object type code stands for.
    pub open spec fn spec_from_raw(raw: u32) -> ObjectKind {
        if raw == OBJECT_RAW_CONNECTOR {
            ObjectKind::Connector
        } else if raw == OBJECT_RAW_ENCODER {
            ObjectKind::Encoder
        } else if raw == OBJECT_RAW_CRTC {
            ObjectKind::Controller
        } else if raw == OBJECT_RAW_FB {
            ObjectKind::Framebuffer
        } else if raw == OBJECT_RAW_PLANE {
            ObjectKind::Plane
        } else if raw == OBJECT_RAW_PROPERTY {
            ObjectKind::Property
        } else if raw == OBJECT_RAW_MODE {
            ObjectKind::Mode
        } else if raw == OBJECT_RAW_BLOB {
            ObjectKind::Blob
        } else {
            ObjectKind::Unknown
        }
    }

    /// The kernel object type code of an object kind; `Unknown` maps to the
    /// wildcard code that matches any object.
    pub open spec fn spec_to_raw(self) -> u32 {
        match self {
            ObjectKind::Connector => OBJECT_RAW_CONNECTOR,
            ObjectKind::Encoder => OBJECT_RAW_ENCODER,
            ObjectKind::Controller => OBJECT_RAW_CRTC,
            ObjectKind::Framebuffer => OBJECT_RAW_FB,
            ObjectKind::Plane => OBJECT_RAW_PLANE,
            ObjectKind::Property => OBJECT_RAW_PROPERTY,
            ObjectKind::Mode => OBJECT_RAW_MODE,
            ObjectKind::Blob => OBJECT_RAW_BLOB,
            ObjectKind::Unknown => OBJECT_RAW_ANY,
        }
    }

    /// Decodes the kernel's object type code.
    pub fn from_raw(raw: u32) -> (r: ObjectKind)
        ensures
            r == Self::spec_from_raw(raw),
    {
        if raw == OBJECT_RAW_CONNECTOR {
            ObjectKind::Connector
        } else if raw == OBJECT_RAW_ENCODER {
            ObjectKind::Encoder
        } else if raw == OBJECT_RAW_CRTC {
            ObjectKind::Controller
        } else if raw == OBJECT_RAW_FB {
            ObjectKind::Framebuffer
        } else if raw == OBJECT_RAW_PLANE {
            ObjectKind::Plane
        } else if raw == OBJECT_RAW_PROPERTY {
            ObjectKind::Property
        } else if raw == OBJECT_RAW_MODE {
            ObjectKind::Mode
        } else if raw == OBJECT_RAW_BLOB {
            ObjectKind::Blob
        } else {
            ObjectKind::Unknown
        }
    }

    /// Encodes an object kind as the kernel's object type code.
    pub fn to_raw(self) -> (r: u32)
        ensures
            r == self.spec_to_raw(),
    {
        match self {
            ObjectKind::Connector => OBJECT_RAW_CONNECTOR,
            ObjectKind::Encoder => OBJECT_RAW_ENCODER,
            ObjectKind::Controller => OBJECT_RAW_CRTC,
            ObjectKind::Framebuffer => OBJECT_RAW_FB,
            ObjectKind::Plane => OBJECT_RAW_PLANE,
            ObjectKind::Property => OBJECT_RAW_PROPERTY,
            ObjectKind::Mode => OBJECT_RAW_MODE,
            ObjectKind::Blob => OBJECT_RAW_BLOB,
            ObjectKind::Unknown => OBJECT_RAW_ANY,
        }
    }
}

/// The id lists the card-resource query reports: one list per static
/// resource kind of the device.
#[derive(Debug, Clone, PartialEq, Eq)]
pub struct CardResources {
    pub connectors: Vec<u32>,
    pub encoders: Vec<u32>,
    pub crtcs: Vec<u32>,
    pub framebuffers: Vec<u32>,
}

/// The id list the plane-resource query reports.
#[derive(Debug, Clone, PartialEq, Eq)]
pub struct PlaneResources {
    pub planes: Vec<u32>,
}

/// The raw result of the per-resource property listing: parallel arrays of
/// property ids and their current values.
#[derive(Debug, Clone, PartialEq, Eq)]
pub struct ResourceProperties {
    pub prop_ids: Vec<u32>,
    pub prop_values: Vec<u64>,
}

impl ResourceProperties {
    /// How many complete (id, value) pairs the two parallel arrays hold.
    pub open spec fn spec_pair_count(&self) -> int {
        if self.prop_ids@.len() <= self.prop_values@.len() {
            self.prop_ids@.len() as int
        } else {
            self.prop_values@.len() as int
        }
    }

    /// Pairs each property id with its reported current value, in order.
    pub fn pairs(&self) -> (r: Vec<(u32, u64)>)
        ensures
            r@.len() == self.spec_pair_count(),
            forall|i: int|
                0 <= i < r@.len() ==> r@[i] == (self.prop_ids@[i], self.prop_values@[i]),
    {
        let mut out: Vec<(u32, u64)> = Vec::new();
        let n = if self.prop_ids.len() <= self.prop_values.len() {
            self.prop_ids.len()
        } else {
            self.prop_values.len()
        };
        let mut i: usize = 0;
        while i < n
            invariant
                i <= n,
                n == self.spec_pair_count(),
                out@.len() == i,
                forall|k: int|
                    0 <= k < i ==> out@[k] == (self.prop_ids@[k], self.prop_values@[k]),
            decreases n - i,
        {
            out.push((self.prop_ids[i], self.prop_values[i]));
            i = i + 1;
        }
        out
    }
}

/// The crtc ids of `crtcs` whose position in the list is flagged in `mask`;
/// bit `n` of the mask admits the `n`-th id, order is kept.
pub open spec fn spec_filter_crtcs(s: Seq<u32>, mask: u32) -> Seq<u32>
    decreases s.len(),
{
    if s.len() == 0 {
        Seq::empty()
    } else {
        let prefix = spec_filter_crtcs(s.drop_last(), mask);
        if (1u32 << ((s.len() - 1) as u32)) & mask != 0 {
            prefix.push(s.last())
        } else {
            prefix
        }
    }
}

/// Keeps the crtc ids whose list position is set in an encoder's
/// possible-crtcs bitmask, in their original order.
pub fn filter_crtcs(crtcs: &Vec<u32>, mask: u32) -> (r: Vec<u32>)
    requires
        crtcs@.len() <= 32,
    ensures
        r@ == spec_filter_crtcs(crtcs@, mask),
{
    let mut out: Vec<u32> = Vec::new();
    let mut i: usize = 0;
    while i < crtcs.len()
        invariant
            i <= crtcs@.len(),
            crtcs@.len() <= 32,
            out@ == spec_filter_crtcs(crtcs@.take(i as int), mask),
        decreases crtcs@.len() - i,
    {
        let bit: u32 = 1u32 << (i as u32);
        if bit & mask != 0 {
            out.push(crtcs[i]);
        }
        proof {
            let taken = crtcs@.take(i + 1int);
            assert(taken.drop_last() =~= crtcs@.take(i as int));
            assert(taken.last() == crtcs@[i as int]);
        }
        i = i + 1;
    }
    proof {
        assert(crtcs@.take(crtcs@.len() as int) =~= crtcs@);
    }
    out
}

} // verus!
