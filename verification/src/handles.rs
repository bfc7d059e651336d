//! Live resource handles with their decoded kernel fields.
//!
//! A checkout yields a registry handle; the second-phase query for that
//! resource returns plain fields, which the constructors below decode
//! into a typed handle. Destroying the handle returns its id to the
//! registry's available set, and each handle can be destroyed only once,
//! since releasing consumes it.

use vstd::prelude::*;
use crate::mode::{mode_decodes, Mode, ModeInfo};
use crate::registry::{Handle, Registry, ResourceKind};
use crate::resource::{Connection, ConnectorInterface, EncoderType, SubPixelType};

verus! {

/// The plain fields the per-connector query reports.
#[derive(Debug, PartialEq, Eq)]
pub struct ConnectorQueryReply {
    pub connector_id: u32,
    pub connector_type: u32,
    pub connection: u32,
    pub subpixel: u32,
    pub encoder_id: u32,
    pub mm_width: u32,
    pub mm_height: u32,
    pub encoders: Vec<u32>,
    pub modes: Vec<ModeInfo>,
}

/// A checked-out connector: the physical output, its attachment state,
/// the encoders that can drive it and the modes its display offers.
#[derive(Debug)]
pub struct Connector {
    pub handle: Handle,
    pub interface: ConnectorInterface,
    pub state: Connection,
    pub subpixel: SubPixelType,
    pub curr_encoder: u32,
    pub encoders: Vec<u32>,
    pub modes: Vec<Mode>,
    pub size_mm: (u32, u32),
}

impl Connector {
    /// Populates a connector from the second-phase query: interface,
    /// state and subpixel decoded from their kernel codes, each mode
    /// decoded from its timing struct, the id lists taken as reported.
    pub fn from_query(handle: Handle, raw: &ConnectorQueryReply) -> (c: Connector)
        requires
            handle.spec_kind() == ResourceKind::Connector,
            handle.spec_id() == raw.connector_id,
        ensures
            c.spec_id() == raw.connector_id,
            c.interface == ConnectorInterface::spec_from_raw(raw.connector_type),
            c.state == Connection::spec_from_raw(raw.connection),
            c.subpixel == SubPixelType::spec_from_raw(raw.subpixel),
            c.curr_encoder == raw.encoder_id,
            c.encoders@ == raw.encoders@,
            c.modes@.len() == raw.modes@.len(),
            forall|i: int|
                0 <= i < c.modes@.len() ==> mode_decodes(c.modes@[i], raw.modes@[i]),
            c.size_mm == (raw.mm_width, raw.mm_height),
    {
        let mut modes: Vec<Mode> = Vec::new();
        let mut i: usize = 0;
        while i < raw.modes.len()
            invariant
                i <= raw.modes@.len(),
                modes@.len() == i,
                forall|k: int| 0 <= k < i ==> mode_decodes(modes@[k], raw.modes@[k]),
            decreases raw.modes@.len() - i,
        {
            modes.push(Mode::from_info(&raw.modes[i]));
            i = i + 1;
        }
        Connector {
            handle,
            interface: ConnectorInterface::from_raw(raw.connector_type),
            state: Connection::from_raw(raw.connection),
            subpixel: SubPixelType::from_raw(raw.subpixel),
            curr_encoder: raw.encoder_id,
            encoders: crate::compose::copy_ids(&raw.encoders),
            modes,
            size_mm: (raw.mm_width, raw.mm_height),
        }
    }

    pub closed spec fn spec_id(&self) -> u32 {
        self.handle.spec_id()
    }

    pub closed spec fn spec_kind(&self) -> ResourceKind {
        self.handle.spec_kind()
    }

    /// The connector's resource id.
    pub fn id(&self) -> (r: u32)
        ensures
            r == self.spec_id(),
    {
        self.handle.id()
    }

    /// The interface type the connector was checked out with.
    pub fn interface(&self) -> (r: ConnectorInterface)
        ensures
            r == self.interface,
    {
        self.interface
    }

    /// The attachment state the second-phase query reported.
    pub fn state(&self) -> (r: Connection)
        ensures
            r == self.state,
    {
        self.state
    }

    /// Destroys the handle: its id returns to the registry's available
    /// set.
    pub fn release(self, reg: &mut Registry)
        requires
            old(reg).wf(),
            old(reg)@.pool(self.spec_kind()).taken.contains(self.spec_id()),
        ensures
            final (reg).wf(),
            final (reg)@ == old(reg)@.after_release(self.spec_kind(), self.spec_id()),
    {
        reg.release(self.handle);
    }
}

/// The plain fields the per-encoder query reports.
#[derive(Debug, PartialEq, Eq)]
pub struct EncoderQueryReply {
    pub encoder_id: u32,
    pub encoder_type: u32,
    pub crtc_id: u32,
    pub possible_crtcs: u32,
    pub possible_clones: u32,
}

/// A checked-out encoder: its signal type, the controller currently
/// feeding it and the bitmask of controllers that could.
#[derive(Debug)]
pub struct Encoder {
    pub handle: Handle,
    pub encoder_type: EncoderType,
    pub crtc: u32,
    pub possible_crtcs: u32,
}

impl Encoder {
    /// Populates an encoder from the second-phase query.
    pub fn from_query(handle: Handle, raw: &EncoderQueryReply) -> (e: Encoder)
        requires
            handle.spec_kind() == ResourceKind::Encoder,
            handle.spec_id() == raw.encoder_id,
        ensures
            e.spec_id() == raw.encoder_id,
            e.encoder_type == EncoderType::spec_from_raw(raw.encoder_type),
            e.crtc == raw.crtc_id,
            e.possible_crtcs == raw.possible_crtcs,
    {
        Encoder {
            handle,
            encoder_type: EncoderType::from_raw(raw.encoder_type),
            crtc: raw.crtc_id,
            possible_crtcs: raw.possible_crtcs,
        }
    }

    pub closed spec fn spec_id(&self) -> u32 {
        self.handle.spec_id()
    }

    pub closed spec fn spec_kind(&self) -> ResourceKind {
        self.handle.spec_kind()
    }

    /// The encoder's resource id.
    pub fn id(&self) -> (r: u32)
        ensures
            r == self.spec_id(),
    {
        self.handle.id()
    }

    /// Destroys the handle: its id returns to the registry's available
    /// set.
    pub fn release(self, reg: &mut Registry)
        requires
            old(reg).wf(),
            old(reg)@.pool(self.spec_kind()).taken.contains(self.spec_id()),
        ensures
            final (reg).wf(),
            final (reg)@ == old(reg)@.after_release(self.spec_kind(), self.spec_id()),
    {
        reg.release(self.handle);
    }
}

/// The plain fields the per-controller query reports.
#[derive(Debug, PartialEq, Eq)]
pub struct ControllerQueryReply {
    pub crtc_id: u32,
    pub fb_id: u32,
    pub x: u32,
    pub y: u32,
    pub gamma_size: u32,
    pub mode: ModeInfo,
}

/// A checked-out scanout controller: the framebuffer it reads, its
/// position and its current mode, when one is set.
#[derive(Debug)]
pub struct Controller {
    pub handle: Handle,
    pub framebuffer: Option<u32>,
    pub position: (u32, u32),
    pub gamma_length: u32,
    pub mode: Option<Mode>,
}

impl Controller {
    /// Populates a controller from the second-phase query. A zero
    /// framebuffer id means no framebuffer is attached; a zero mode clock
    /// means no mode is set.
    pub fn from_query(handle: Handle, raw: &ControllerQueryReply) -> (c: Controller)
        requires
            handle.spec_kind() == ResourceKind::Controller,
            handle.spec_id() == raw.crtc_id,
        ensures
            c.spec_id() == raw.crtc_id,
            raw.fb_id == 0 ==> c.framebuffer is None,
            raw.fb_id != 0 ==> c.framebuffer == Some(raw.fb_id),
            c.position == (raw.x, raw.y),
            c.gamma_length == raw.gamma_size,
            raw.mode.clock == 0 ==> c.mode is None,
            raw.mode.clock != 0 ==> (c.mode matches Some(m) && mode_decodes(m, raw.mode)),
    {
        let framebuffer = if raw.fb_id == 0 {
            None
        } else {
            Some(raw.fb_id)
        };
        let mode = if raw.mode.clock == 0 {
            None
        } else {
            Some(Mode::from_info(&raw.mode))
        };
        Controller {
            handle,
            framebuffer,
            position: (raw.x, raw.y),
            gamma_length: raw.gamma_size,
            mode,
        }
    }

    pub closed spec fn spec_id(&self) -> u32 {
        self.handle.spec_id()
    }

    pub closed spec fn spec_kind(&self) -> ResourceKind {
        self.handle.spec_kind()
    }

    /// The controller's resource id.
    pub fn id(&self) -> (r: u32)
        ensures
            r == self.spec_id(),
    {
        self.handle.id()
    }

    /// Destroys the handle: its id returns to the registry's available
    /// set.
    pub fn release(self, reg: &mut Registry)
        requires
            old(reg).wf(),
            old(reg)@.pool(self.spec_kind()).taken.contains(self.spec_id()),
        ensures
            final (reg).wf(),
            final (reg)@ == old(reg)@.after_release(self.spec_kind(), self.spec_id()),
    {
        reg.release(self.handle);
    }
}

/// The plain fields the per-plane query reports.
#[derive(Debug, PartialEq, Eq)]
pub struct PlaneQueryReply {
    pub plane_id: u32,
    pub crtc_id: u32,
    pub fb_id: u32,
    pub possible_crtcs: u32,
    pub gamma_size: u32,
}

/// A checked-out plane: the controller and framebuffer it is attached
/// to, and the controllers it could attach to.
#[derive(Debug)]
pub struct Plane {
    pub handle: Handle,
    pub crtc: u32,
    pub framebuffer: u32,
    pub possible_crtcs: u32,
    pub gamma_length: u32,
}

impl Plane {
    /// Populates a plane from the second-phase query.
    pub fn from_query(handle: Handle, raw: &PlaneQueryReply) -> (p: Plane)
        requires
            handle.spec_kind() == ResourceKind::Plane,
            handle.spec_id() == raw.plane_id,
        ensures
            p.spec_id() == raw.plane_id,
            p.crtc == raw.crtc_id,
            p.framebuffer == raw.fb_id,
            p.possible_crtcs == raw.possible_crtcs,
            p.gamma_length == raw.gamma_size,
    {
        Plane {
            handle,
            crtc: raw.crtc_id,
            framebuffer: raw.fb_id,
            possible_crtcs: raw.possible_crtcs,
            gamma_length: raw.gamma_size,
        }
    }

    pub closed spec fn spec_id(&self) -> u32 {
        self.handle.spec_id()
    }

    pub closed spec fn spec_kind(&self) -> ResourceKind {
        self.handle.spec_kind()
    }

    /// The plane's resource id.
    pub fn id(&self) -> (r: u32)
        ensures
            r == self.spec_id(),
    {
        self.handle.id()
    }

    /// Destroys the handle: its id returns to the registry's available
    /// set.
    pub fn release(self, reg: &mut Registry)
        requires
            old(reg).wf(),
            old(reg)@.pool(self.spec_kind()).taken.contains(self.spec_id()),
        ensures
            final (reg).wf(),
            final (reg)@ == old(reg)@.after_release(self.spec_kind(), self.spec_id()),
    {
        reg.release(self.handle);
    }
}

} // verus!
