use modesetting::buffer::{Buffer, DrmModeCreateDumbBuffer, IsBuffer};

fn created_buffer() -> Buffer {
    // The reply as the kernel would fill it in: pitch, handle and size
    // are the kernel's, never recomputed client-side.
    let reply = DrmModeCreateDumbBuffer {
        width: 64,
        height: 4,
        bpp: 32,
        flags: 0,
        handle: 9,
        pitch: 256,
        size: 1024,
    };
    Buffer::from_create_reply(&reply, 32)
}

#[test]
fn create_request_zeroes_the_kernel_fields() {
    let req = DrmModeCreateDumbBuffer::request(64, 4, 32);
    assert_eq!(req.width, 64);
    assert_eq!(req.height, 4);
    assert_eq!(req.bpp, 32);
    assert_eq!(req.handle, 0);
    assert_eq!(req.pitch, 0);
    assert_eq!(req.size, 0);
}

#[test]
fn the_buffer_carries_the_kernel_reply() {
    let b = created_buffer();
    assert_eq!(b.size(), (64, 4));
    assert_eq!(b.stride(), 256);
    assert_eq!(b.bpp(), 32);
    assert_eq!(b.depth(), 24);
    assert_eq!(b.handle(), 9);
    assert_eq!(b.length(), 1024);
}

#[test]
fn write_then_read_yields_the_same_bytes() {
    let b = created_buffer();
    let mut map = b.map();
    assert_eq!(map.len(), 1024);
    let data: Vec<u8> = (0..100).collect();
    map.write_bytes(20, &data);
    let back = map.read_bytes(20, 100);
    assert_eq!(back, data);
    // A second identical write changes nothing.
    map.write_bytes(20, &data);
    assert_eq!(map.read_bytes(20, 100), data);
    // Bytes outside the written range are untouched.
    assert_eq!(map.read_byte(19), 0);
    assert_eq!(map.read_byte(120), 0);
}

#[test]
fn a_fresh_mapping_reads_back_zero() {
    let b = created_buffer();
    let map = b.map();
    assert_eq!(map.read_bytes(0, 16), vec![0; 16]);
}

#[test]
fn map_request_names_the_buffer_handle() {
    let b = created_buffer();
    let req = b.map_request();
    assert_eq!(req.handle, 9);
    assert_eq!(req.offset, 0);
}

#[test]
fn destroy_names_the_buffer_handle() {
    let b = created_buffer();
    {
        let mut map = b.map();
        map.write_bytes(0, &vec![1, 2, 3]);
        // The mapping ends here; only then can the buffer be destroyed.
    }
    let destroy = b.destroy();
    assert_eq!(destroy.handle, 9);
}
