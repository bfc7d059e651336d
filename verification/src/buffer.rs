//! The dumb-buffer lifecycle: allocate, map, write and read, release.
//!
//! Creation is one kernel call whose reply carries the pitch, the handle
//! and the total byte length; those are authoritative and never recomputed
//! here. A mapping is a live view of the buffer's bytes; it borrows the
//! buffer, so the buffer cannot be destroyed while a mapping is alive,
//! which gives the unmap-before-destroy ordering at compile time. The
//! kernel calls themselves (the ioctls and the memory map) are issued by
//! the surrounding program from the request values built here.

use vstd::prelude::*;

verus! {

/// The create-dumb-buffer call's request and reply, as plain fields. The
/// caller fills width, height and bits-per-pixel; the kernel fills handle,
/// pitch and size.
#[derive(Debug, PartialEq, Eq)]
pub struct DrmModeCreateDumbBuffer {
    pub height: u32,
    pub width: u32,
    pub bpp: u32,
    pub flags: u32,
    pub handle: u32,
    pub pitch: u32,
    pub size: u64,
}

impl DrmModeCreateDumbBuffer {
    /// The request for a width-by-height buffer at the given bits per
    /// pixel, with every kernel-filled field zeroed.
    pub fn request(width: u32, height: u32, bpp: u8) -> (r: DrmModeCreateDumbBuffer)
        ensures
            r.width == width,
            r.height == height,
            r.bpp == bpp,
            r.flags == 0,
            r.handle == 0,
            r.pitch == 0,
            r.size == 0,
    {
        DrmModeCreateDumbBuffer {
            height,
            width,
            bpp: bpp as u32,
            flags: 0,
            handle: 0,
            pitch: 0,
            size: 0,
        }
    }
}

/// The map-dumb-buffer call's request and reply: the caller names the
/// buffer handle, the kernel returns the offset to map at.
#[derive(Debug, PartialEq, Eq)]
pub struct DrmModeMapDumbBuffer {
    pub handle: u32,
    pub offset: u64,
}

/// The destroy-dumb-buffer call's request: the handle to release.
#[derive(Debug, PartialEq, Eq)]
pub struct DrmModeDestroyDumbBuffer {
    pub handle: u32,
}

/// A capability every framebuffer backing store offers: geometry, layout
/// and the driver handle that names the memory.
pub trait IsBuffer {
    /// The width and height of the buffer.
    spec fn spec_size(&self) -> (u32, u32);

    /// Bytes per scanline.
    spec fn spec_stride(&self) -> u32;

    /// Bits per pixel.
    spec fn spec_bpp(&self) -> u32;

    /// Color depth.
    spec fn spec_depth(&self) -> u32;

    /// The driver-issued handle naming the buffer memory.
    spec fn spec_handle(&self) -> u32;

    fn size(&self) -> (r: (u32, u32))
        ensures
            r == self.spec_size(),
    ;

    fn stride(&self) -> (r: u32)
        ensures
            r == self.spec_stride(),
    ;

    fn bpp(&self) -> (r: u32)
        ensures
            r == self.spec_bpp(),
    ;

    fn depth(&self) -> (r: u32)
        ensures
            r == self.spec_depth(),
    ;

    fn handle(&self) -> (r: u32)
        ensures
            r == self.spec_handle(),
    ;
}

/// A device-backed pixel buffer. The pitch, handle and byte length come
/// from the kernel's create reply and are carried, never recomputed.
#[derive(Debug, PartialEq, Eq)]
pub struct Buffer {
    width: u32,
    height: u32,
    depth: u8,
    bpp: u8,
    pitch: u32,
    handle: u32,
    length: u64,
}

impl Buffer {
    pub closed spec fn spec_length(&self) -> u64 {
        self.length
    }

    /// Records the buffer the kernel created: geometry as requested,
    /// pitch, handle and byte length as the kernel reported them, and the
    /// fixed 24-bit color depth of a dumb buffer.
    pub fn from_create_reply(reply: &DrmModeCreateDumbBuffer, bpp: u8) -> (b: Buffer)
        ensures
            b.spec_size() == (reply.width, reply.height),
            b.spec_bpp() == bpp,
            b.spec_depth() == 24,
            b.spec_stride() == reply.pitch,
            b.spec_handle() == reply.handle,
            b.spec_length() == reply.size,
    {
        Buffer {
            width: reply.width,
            height: reply.height,
            depth: 24,
            bpp,
            pitch: reply.pitch,
            handle: reply.handle,
            length: reply.size,
        }
    }

    /// The byte length the kernel allotted.
    pub fn length(&self) -> (r: u64)
        ensures
            r == self.spec_length(),
    {
        self.length
    }

    /// The request for the map call that yields this buffer's offset.
    pub fn map_request(&self) -> (r: DrmModeMapDumbBuffer)
        ensures
            r.handle == self.spec_handle(),
            r.offset == 0,
    {
        DrmModeMapDumbBuffer { handle: self.handle, offset: 0 }
    }

    /// Opens a mapping of the buffer's bytes. The mapping borrows the
    /// buffer, so the buffer outlives it by construction. A freshly
    /// created dumb buffer's pages read back zero.
    pub fn map<'a>(&'a self) -> (m: Mapping<'a>)
        requires
            self.spec_length() <= usize::MAX,
        ensures
            m@.len() == self.spec_length(),
            forall|i: int| 0 <= i < m@.len() ==> m@[i] == 0,
    {
        let n = self.length as usize;
        let mut bytes: Vec<u8> = Vec::new();
        let mut i: usize = 0;
        while i < n
            invariant
                i <= n,
                bytes@.len() == i,
                forall|k: int| 0 <= k < i ==> bytes@[k] == 0,
            decreases n - i,
        {
            bytes.push(0);
            i = i + 1;
        }
        Mapping { buffer: self, bytes }
    }

    /// Consumes the buffer and yields the destroy request for its handle.
    /// No mapping can be alive here: a live mapping still borrows the
    /// buffer, and destroying under a mapping addresses memory the kernel
    /// has reclaimed.
    pub fn destroy(self) -> (r: DrmModeDestroyDumbBuffer)
        ensures
            r.handle == self.spec_handle(),
    {
        DrmModeDestroyDumbBuffer { handle: self.handle }
    }
}

impl IsBuffer for Buffer {
    closed spec fn spec_size(&self) -> (u32, u32) {
        (self.width, self.height)
    }

    closed spec fn spec_stride(&self) -> u32 {
        self.pitch
    }

    closed spec fn spec_bpp(&self) -> u32 {
        self.bpp as u32
    }

    closed spec fn spec_depth(&self) -> u32 {
        self.depth as u32
    }

    closed spec fn spec_handle(&self) -> u32 {
        self.handle
    }

    fn size(&self) -> (r: (u32, u32)) {
        (self.width, self.height)
    }

    fn stride(&self) -> (r: u32) {
        self.pitch
    }

    fn bpp(&self) -> (r: u32) {
        self.bpp as u32
    }

    fn depth(&self) -> (r: u32) {
        self.depth as u32
    }

    fn handle(&self) -> (r: u32) {
        self.handle
    }
}

/// The bytes of `m` with `data` written at `off` and everything else
/// untouched.
pub open spec fn spec_write(m: Seq<u8>, off: int, data: Seq<u8>) -> Seq<u8> {
    Seq::new(
        m.len(),
        |i: int|
            if off <= i < off + data.len() {
                data[i - off]
            } else {
                m[i]
            },
    )
}

/// A live view of a buffer's bytes in process memory. It borrows its
/// buffer for its whole life, so the buffer's destroy call cannot be
/// built while the mapping exists.
pub struct Mapping<'a> {
    buffer: &'a Buffer,
    bytes: Vec<u8>,
}

impl<'a> View for Mapping<'a> {
    type V = Seq<u8>;

    closed spec fn view(&self) -> Seq<u8> {
        self.bytes@
    }
}

impl<'a> Mapping<'a> {
    /// How many bytes the mapping spans.
    pub fn len(&self) -> (r: usize)
        ensures
            r == self@.len(),
    {
        self.bytes.len()
    }

    /// One byte of the mapping.
    pub fn read_byte(&self, offset: usize) -> (r: u8)
        requires
            offset < self@.len(),
        ensures
            r == self@[offset as int],
    {
        self.bytes[offset]
    }

    /// Writes `data` at `offset`; every byte outside the written range is
    /// untouched.
    pub fn write_bytes(&mut self, offset: usize, data: &Vec<u8>)
        requires
            offset + data@.len() <= old(self)@.len(),
        ensures
            final (self)@ == spec_write(old(self)@, offset as int, data@),
    {
        let cap = self.bytes.len();
        let mut i: usize = 0;
        while i < data.len()
            invariant
                i <= data@.len(),
                offset + data@.len() <= self@.len(),
                self@.len() == old(self)@.len(),
                self@.len() <= cap,
                self@ == spec_write(old(self)@, offset as int, data@.take(i as int)),
                forall|k: int|
                    offset + i <= k < self@.len() ==> self@[k] == old(self)@[k],
            decreases data@.len() - i,
        {
            self.bytes.set(offset + i, data[i]);
            proof {
                assert(self@ =~= spec_write(old(self)@, offset as int, data@.take(i + 1int)));
            }
            i = i + 1;
        }
        proof {
            assert(data@.take(data@.len() as int) =~= data@);
        }
    }

    /// Reads `n` bytes starting at `offset`.
    pub fn read_bytes(&self, offset: usize, n: usize) -> (r: Vec<u8>)
        requires
            offset + n <= self@.len(),
        ensures
            r@ == self@.subrange(offset as int, offset + n),
    {
        let cap = self.bytes.len();
        let mut out: Vec<u8> = Vec::new();
        let mut i: usize = 0;
        while i < n
            invariant
                i <= n,
                offset + n <= self@.len(),
                self@.len() <= cap,
                out@ == self@.subrange(offset as int, offset + i),
            decreases n - i,
        {
            out.push(self.bytes[offset + i]);
            proof {
                assert(out@ =~= self@.subrange(offset as int, offset + i + 1));
            }
            i = i + 1;
        }
        out
    }
}

/// Law: the buffer round trip. Writing a block of bytes and reading the
/// same range back yields exactly those bytes, and writing the identical
/// block again changes nothing: repeated identical writes are idempotent.
pub proof fn lemma_write_read_round_trip(m: Seq<u8>, off: int, data: Seq<u8>)
    requires
        0 <= off,
        off + data.len() <= m.len(),
    ensures
        spec_write(m, off, data).subrange(off, off + data.len()) == data,
        spec_write(spec_write(m, off, data), off, data) == spec_write(m, off, data),
{
    assert(spec_write(m, off, data).subrange(off, off + data.len()) =~= data);
    assert(spec_write(spec_write(m, off, data), off, data) =~= spec_write(m, off, data));
}

} // verus!
