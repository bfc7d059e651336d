use modesetting::handles::{
    Controller, ControllerQueryReply, Encoder, EncoderQueryReply, Plane, PlaneQueryReply,
};
use modesetting::mode::ModeInfo;
use modesetting::registry::{Registry, ResourceKind};
use modesetting::resource::{CardResources, EncoderType, PlaneResources};

fn registry() -> Registry {
    let cres = CardResources {
        connectors: vec![7],
        encoders: vec![20],
        crtcs: vec![30],
        framebuffers: vec![],
    };
    let pres = PlaneResources { planes: vec![40] };
    Registry::snapshot(&cres, &pres)
}

fn zero_timing() -> ModeInfo {
    ModeInfo {
        clock: 0,
        hdisplay: 0,
        vdisplay: 0,
        hsync_start: 0,
        hsync_end: 0,
        vsync_start: 0,
        vsync_end: 0,
        hskew: 0,
        vscan: 0,
        htotal: 0,
        vtotal: 0,
        vrefresh: 0,
        flags: 0,
        mode_type: 0,
        name: vec![0; 32],
    }
}

#[test]
fn encoder_fields_come_from_the_query() {
    let mut reg = registry();
    let h = reg.checkout(ResourceKind::Encoder, 20).unwrap();
    let raw = EncoderQueryReply {
        encoder_id: 20,
        encoder_type: 2,
        crtc_id: 30,
        possible_crtcs: 0b01,
        possible_clones: 0,
    };
    let e = Encoder::from_query(h, &raw);
    assert_eq!(e.id(), 20);
    assert_eq!(e.encoder_type, EncoderType::TMDS);
    assert_eq!(e.crtc, 30);
    assert_eq!(e.possible_crtcs, 0b01);
    e.release(&mut reg);
    assert!(reg.iterate(ResourceKind::Encoder).contains(&20));
}

#[test]
fn an_idle_controller_has_no_framebuffer_and_no_mode() {
    let mut reg = registry();
    let h = reg.checkout(ResourceKind::Controller, 30).unwrap();
    let raw = ControllerQueryReply {
        crtc_id: 30,
        fb_id: 0,
        x: 0,
        y: 0,
        gamma_size: 256,
        mode: zero_timing(),
    };
    let c = Controller::from_query(h, &raw);
    assert_eq!(c.id(), 30);
    assert!(c.framebuffer.is_none());
    assert!(c.mode.is_none());
    assert_eq!(c.gamma_length, 256);
}

#[test]
fn a_scanning_controller_reports_framebuffer_and_mode() {
    let mut reg = registry();
    let h = reg.checkout(ResourceKind::Controller, 30).unwrap();
    let mut timing = zero_timing();
    timing.clock = 148500;
    timing.hdisplay = 1920;
    timing.name[0] = b'm';
    let raw = ControllerQueryReply {
        crtc_id: 30,
        fb_id: 33,
        x: 0,
        y: 0,
        gamma_size: 256,
        mode: timing,
    };
    let c = Controller::from_query(h, &raw);
    assert_eq!(c.framebuffer, Some(33));
    let m = c.mode.expect("a mode is set");
    assert_eq!(m.clock, 148500);
    assert_eq!(m.display.0, 1920);
    assert_eq!(m.name, b"m".to_vec());
}

#[test]
fn plane_fields_come_from_the_query() {
    let mut reg = registry();
    let h = reg.checkout(ResourceKind::Plane, 40).unwrap();
    let raw = PlaneQueryReply {
        plane_id: 40,
        crtc_id: 30,
        fb_id: 33,
        possible_crtcs: 1,
        gamma_size: 0,
    };
    let p = Plane::from_query(h, &raw);
    assert_eq!(p.id(), 40);
    assert_eq!(p.crtc, 30);
    assert_eq!(p.framebuffer, 33);
    p.release(&mut reg);
    assert!(reg.iterate(ResourceKind::Plane).contains(&40));
}
