//! Display timing modes and their image in the kernel's fixed-size timing
//! struct.
//!
//! A `Mode` is immutable timing data; `ModeInfo` mirrors the kernel struct
//! field for field, with the name as a fixed 32-byte, NUL-terminated
//! buffer. Encoding truncates the name to the 31 content bytes the buffer
//! holds; decoding reads the bytes before the first NUL. Every numeric
//! field round-trips exactly.

use vstd::prelude::*;
use crate::names::{copy_bytes, lemma_nul_index_unique, name_before_nul, read_name};

verus! {

/// Length of the kernel timing struct's name buffer, terminator included.
pub const MODE_NAME_LEN: usize = 32;

/// A display timing descriptor.
#[derive(Debug, PartialEq, Eq)]
pub struct Mode {
    pub name: Vec<u8>,
    pub clock: u32,
    pub display: (u16, u16),
    pub hsync: (u16, u16),
    pub vsync: (u16, u16),
    pub hskew: u16,
    pub vscan: u16,
    pub htotal: u16,
    pub vtotal: u16,
    pub vrefresh: u32,
    pub flags: u32,
    pub mode_type: u32,
}

/// The kernel's fixed-size timing struct, as plain values. Its byte layout
/// on the wire is the surrounding program's concern; the fields and their
/// widths are fixed by the device ABI.
#[derive(Debug, PartialEq, Eq)]
pub struct ModeInfo {
    pub clock: u32,
    pub hdisplay: u16,
    pub vdisplay: u16,
    pub hsync_start: u16,
    pub hsync_end: u16,
    pub vsync_start: u16,
    pub vsync_end: u16,
    pub hskew: u16,
    pub vscan: u16,
    pub htotal: u16,
    pub vtotal: u16,
    pub vrefresh: u32,
    pub flags: u32,
    pub mode_type: u32,
    pub name: Vec<u8>,
}

/// The name buffer the kernel timing struct stores for `name`: the first
/// 31 bytes of the name, NUL-padded to 32 bytes.
pub open spec fn padded_name(name: Seq<u8>) -> Seq<u8> {
    let k = if name.len() <= 31 {
        name.len() as int
    } else {
        31
    };
    name.take(k) + Seq::new((32 - k) as nat, |i: int| 0u8)
}

/// The timing struct `info` is the encoding of mode `m`: every numeric
/// field taken as is, the name truncated and NUL-padded into the fixed
/// buffer.
pub open spec fn info_encodes(info: ModeInfo, m: Mode) -> bool {
    &&& info.clock == m.clock
    &&& info.hdisplay == m.display.0
    &&& info.vdisplay == m.display.1
    &&& info.hsync_start == m.hsync.0
    &&& info.hsync_end == m.hsync.1
    &&& info.vsync_start == m.vsync.0
    &&& info.vsync_end == m.vsync.1
    &&& info.hskew == m.hskew
    &&& info.vscan == m.vscan
    &&& info.htotal == m.htotal
    &&& info.vtotal == m.vtotal
    &&& info.vrefresh == m.vrefresh
    &&& info.flags == m.flags
    &&& info.mode_type == m.mode_type
    &&& info.name@ == padded_name(m.name@)
}

/// The mode `m` is the decoding of timing struct `info`: every numeric
/// field taken as is, the name read up to the buffer's first NUL.
pub open spec fn mode_decodes(m: Mode, info: ModeInfo) -> bool {
    &&& m.clock == info.clock
    &&& m.display == (info.hdisplay, info.vdisplay)
    &&& m.hsync == (info.hsync_start, info.hsync_end)
    &&& m.vsync == (info.vsync_start, info.vsync_end)
    &&& m.hskew == info.hskew
    &&& m.vscan == info.vscan
    &&& m.htotal == info.htotal
    &&& m.vtotal == info.vtotal
    &&& m.vrefresh == info.vrefresh
    &&& m.flags == info.flags
    &&& m.mode_type == info.mode_type
    &&& m.name@ == name_before_nul(info.name@)
}

impl Clone for Mode {
    /// A clone keeps every field of the mode.
    fn clone(&self) -> (r: Mode)
        ensures
            r.name@ == self.name@,
            r.clock == self.clock,
            r.display == self.display,
            r.hsync == self.hsync,
            r.vsync == self.vsync,
            r.hskew == self.hskew,
            r.vscan == self.vscan,
            r.htotal == self.htotal,
            r.vtotal == self.vtotal,
            r.vrefresh == self.vrefresh,
            r.flags == self.flags,
            r.mode_type == self.mode_type,
    {
        Mode {
            name: copy_bytes(&self.name),
            clock: self.clock,
            display: self.display,
            hsync: self.hsync,
            vsync: self.vsync,
            hskew: self.hskew,
            vscan: self.vscan,
            htotal: self.htotal,
            vtotal: self.vtotal,
            vrefresh: self.vrefresh,
            flags: self.flags,
            mode_type: self.mode_type,
        }
    }
}

impl Mode {
    /// Decodes the kernel timing struct: every numeric field is taken as
    /// is, the name is the buffer's bytes before the first NUL.
    pub fn from_info(info: &ModeInfo) -> (m: Mode)
        ensures
            m.clock == info.clock,
            m.display == (info.hdisplay, info.vdisplay),
            m.hsync == (info.hsync_start, info.hsync_end),
            m.vsync == (info.vsync_start, info.vsync_end),
            m.hskew == info.hskew,
            m.vscan == info.vscan,
            m.htotal == info.htotal,
            m.vtotal == info.vtotal,
            m.vrefresh == info.vrefresh,
            m.flags == info.flags,
            m.mode_type == info.mode_type,
            m.name@ == name_before_nul(info.name@),
            mode_decodes(m, *info),
    {
        Mode {
            name: read_name(&info.name),
            clock: info.clock,
            display: (info.hdisplay, info.vdisplay),
            hsync: (info.hsync_start, info.hsync_end),
            vsync: (info.vsync_start, info.vsync_end),
            hskew: info.hskew,
            vscan: info.vscan,
            htotal: info.htotal,
            vtotal: info.vtotal,
            vrefresh: info.vrefresh,
            flags: info.flags,
            mode_type: info.mode_type,
        }
    }

    /// Encodes the mode as the kernel timing struct: every numeric field
    /// is written as is, the name into the fixed buffer, truncated to its
    /// 31 content bytes and NUL-padded.
    pub fn to_info(&self) -> (r: ModeInfo)
        ensures
            r.clock == self.clock,
            r.hdisplay == self.display.0,
            r.vdisplay == self.display.1,
            r.hsync_start == self.hsync.0,
            r.hsync_end == self.hsync.1,
            r.vsync_start == self.vsync.0,
            r.vsync_end == self.vsync.1,
            r.hskew == self.hskew,
            r.vscan == self.vscan,
            r.htotal == self.htotal,
            r.vtotal == self.vtotal,
            r.vrefresh == self.vrefresh,
            r.flags == self.flags,
            r.mode_type == self.mode_type,
            r.name@.len() == MODE_NAME_LEN,
            r.name@ == padded_name(self.name@),
            info_encodes(r, *self),
    {
        let k = if self.name.len() <= 31 {
            self.name.len()
        } else {
            31
        };
        let mut name: Vec<u8> = Vec::new();
        let mut i: usize = 0;
        while i < k
            invariant
                i <= k,
                k <= self.name@.len(),
                k <= 31,
                name@ == self.name@.take(i as int),
            decreases k - i,
        {
            name.push(self.name[i]);
            proof {
                assert(name@ =~= self.name@.take(i + 1int));
            }
            i = i + 1;
        }
        while i < MODE_NAME_LEN
            invariant
                k <= i <= MODE_NAME_LEN,
                k <= 31,
                k <= self.name@.len(),
                name@.len() == i,
                name@.take(k as int) == self.name@.take(k as int),
                forall|j: int| k <= j < i ==> name@[j] == 0,
            decreases MODE_NAME_LEN - i,
        {
            name.push(0);
            i = i + 1;
        }
        proof {
            assert(name@ =~= padded_name(self.name@));
        }
        ModeInfo {
            clock: self.clock,
            hdisplay: self.display.0,
            vdisplay: self.display.1,
            hsync_start: self.hsync.0,
            hsync_end: self.hsync.1,
            vsync_start: self.vsync.0,
            vsync_end: self.vsync.1,
            hskew: self.hskew,
            vscan: self.vscan,
            htotal: self.htotal,
            vtotal: self.vtotal,
            vrefresh: self.vrefresh,
            flags: self.flags,
            mode_type: self.mode_type,
            name,
        }
    }
}

/// Law: the mode round trip. A mode encoded into the kernel timing
/// struct and decoded again preserves every numeric field exactly,
/// whatever the name; the name itself is preserved exactly when it fits
/// the buffer's 31 content bytes and holds no NUL of its own — the
/// kernel's fixed-length, NUL-termination limit.
pub proof fn lemma_mode_round_trip(m: Mode, info: ModeInfo, m2: Mode)
    requires
        info_encodes(info, m),
        mode_decodes(m2, info),
    ensures
        m2.clock == m.clock,
        m2.display == m.display,
        m2.hsync == m.hsync,
        m2.vsync == m.vsync,
        m2.hskew == m.hskew,
        m2.vscan == m.vscan,
        m2.htotal == m.htotal,
        m2.vtotal == m.vtotal,
        m2.vrefresh == m.vrefresh,
        m2.flags == m.flags,
        m2.mode_type == m.mode_type,
        m.name@.len() <= 31 && (forall|i: int| 0 <= i < m.name@.len() ==> m.name@[i] != 0)
            ==> m2.name@ == m.name@,
{
    if m.name@.len() <= 31 && (forall|i: int| 0 <= i < m.name@.len() ==> m.name@[i] != 0) {
        lemma_mode_name_round_trip(m.name@);
    }
}

/// The name buffer written for a short, NUL-free name reads back as that
/// name.
pub proof fn lemma_mode_name_round_trip(name: Seq<u8>)
    requires
        name.len() <= 31,
        forall|i: int| 0 <= i < name.len() ==> name[i] != 0,
    ensures
        name_before_nul(padded_name(name)) == name,
{
    let p = padded_name(name);
    assert(p.len() == 32);
    assert forall|i: int| 0 <= i < name.len() implies p[i] != 0 by {
        assert(p[i] == name[i]);
    }
    assert(p[name.len() as int] == 0);
    lemma_nul_index_unique(p, name.len() as int);
    assert(name_before_nul(p) =~= name);
}

} // verus!
