use modesetting::buffer::{Buffer, DrmModeCreateDumbBuffer};
use modesetting::compose::{bind_request, framebuffer_request, Framebuffer};
use modesetting::mode::Mode;
use modesetting::resource::{filter_crtcs, ResourceProperties};

fn buffer() -> Buffer {
    let reply = DrmModeCreateDumbBuffer {
        width: 640,
        height: 480,
        bpp: 32,
        flags: 0,
        handle: 5,
        pitch: 2560,
        size: 1228800,
    };
    Buffer::from_create_reply(&reply, 32)
}

fn mode() -> Mode {
    Mode {
        name: b"640x480".to_vec(),
        clock: 25175,
        display: (640, 480),
        hsync: (656, 752),
        vsync: (490, 492),
        hskew: 0,
        vscan: 0,
        htotal: 800,
        vtotal: 525,
        vrefresh: 60,
        flags: 0,
        mode_type: 0,
    }
}

#[test]
fn framebuffer_request_derives_every_field_from_the_buffer() {
    let b = buffer();
    let req = framebuffer_request(&b);
    assert_eq!(req.fb_id, 0);
    assert_eq!((req.width, req.height), (640, 480));
    assert_eq!(req.pitch, 2560);
    assert_eq!(req.bpp, 32);
    assert_eq!(req.depth, 24);
    assert_eq!(req.handle, 5);
}

#[test]
fn framebuffer_owns_the_returned_id() {
    let b = buffer();
    let mut req = framebuffer_request(&b);
    req.fb_id = 33; // as the kernel would fill it in
    let fb = Framebuffer::from_reply(&req);
    assert_eq!(fb.id, 33);
}

#[test]
fn bind_with_a_mode_sets_the_controller() {
    let m = mode();
    let req = bind_request(30, 33, &vec![7, 8], (0, 0), Some(&m));
    assert_eq!(req.crtc_id, 30);
    assert_eq!(req.fb_id, 33);
    assert_eq!(req.connectors, vec![7, 8]);
    assert_eq!(req.mode_valid, 1);
    let info = req.mode.expect("a mode was given");
    assert_eq!(info.clock, 25175);
    assert_eq!(info.hdisplay, 640);
    let mut expected_name = b"640x480".to_vec();
    expected_name.resize(32, 0);
    assert_eq!(info.name, expected_name);
}

#[test]
fn bind_without_a_mode_clears_the_controller() {
    let req = bind_request(30, 0, &vec![], (0, 0), None);
    assert_eq!(req.mode_valid, 0);
    assert!(req.mode.is_none());
    assert!(req.connectors.is_empty());
}

#[test]
fn filter_crtcs_keeps_the_flagged_positions() {
    let crtcs = vec![100, 200, 300, 400];
    // Bits 0 and 2 set: the first and third controller qualify.
    assert_eq!(filter_crtcs(&crtcs, 0b0101), vec![100, 300]);
    assert_eq!(filter_crtcs(&crtcs, 0), Vec::<u32>::new());
    assert_eq!(filter_crtcs(&crtcs, 0b1111), crtcs);
}

#[test]
fn property_listing_pairs_ids_with_values() {
    let props = ResourceProperties {
        prop_ids: vec![17, 18, 19],
        prop_values: vec![1, 2, 3],
    };
    assert_eq!(props.pairs(), vec![(17, 1), (18, 2), (19, 3)]);
    // Parallel arrays of unequal length pair up to the shorter one.
    let uneven = ResourceProperties {
        prop_ids: vec![17, 18],
        prop_values: vec![1],
    };
    assert_eq!(uneven.pairs(), vec![(17, 1)]);
}
