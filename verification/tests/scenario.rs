use modesetting::handles::{Connector, ConnectorQueryReply};
use modesetting::mode::ModeInfo;
use modesetting::registry::{Registry, ResourceKind};
use modesetting::resource::{CardResources, Connection, ConnectorInterface, PlaneResources};

fn timing(name: &[u8], clock: u32) -> ModeInfo {
    let mut buf = name.to_vec();
    buf.resize(32, 0);
    ModeInfo {
        clock,
        hdisplay: 1920,
        vdisplay: 1080,
        hsync_start: 2008,
        hsync_end: 2052,
        vsync_start: 1084,
        vsync_end: 1089,
        hskew: 0,
        vscan: 0,
        htotal: 2200,
        vtotal: 1125,
        vrefresh: 60,
        flags: 5,
        mode_type: 64,
        name: buf,
    }
}

// The session walk-through: the device's id lists become the registry
// baseline, one connector is checked out, and the second-phase query
// populates its fields.
#[test]
fn snapshot_checkout_and_populate_one_connector() {
    let cres = CardResources {
        connectors: vec![7, 8],
        encoders: vec![20],
        crtcs: vec![30],
        framebuffers: vec![],
    };
    let pres = PlaneResources { planes: vec![40] };
    let mut reg = Registry::snapshot(&cres, &pres);

    let handle = reg.checkout(ResourceKind::Connector, 7).unwrap();

    // What the second-phase connector query would report: an HDMI jack
    // with a display attached, so its mode list is non-empty.
    let raw = ConnectorQueryReply {
        connector_id: 7,
        connector_type: 11,
        connection: 1,
        subpixel: 2,
        encoder_id: 20,
        mm_width: 600,
        mm_height: 340,
        encoders: vec![20],
        modes: vec![timing(b"1920x1080", 148500)],
    };
    let con = Connector::from_query(handle, &raw);

    assert_eq!(con.id(), 7);
    assert_eq!(con.interface(), ConnectorInterface::HDMIA);
    assert_eq!(con.state(), Connection::Connected);
    assert!(!con.modes.is_empty());
    assert_eq!(con.modes[0].name, b"1920x1080".to_vec());
    assert_eq!(con.curr_encoder, 20);
    assert_eq!(con.size_mm, (600, 340));

    // While the connector is held, nobody else can check out id 7.
    assert!(reg.checkout(ResourceKind::Connector, 7).is_err());

    // Destroying the handle returns the id to the available set.
    con.release(&mut reg);
    assert!(reg.iterate(ResourceKind::Connector).contains(&7));
}
