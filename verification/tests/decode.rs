use modesetting::resource::{
    Connection, ConnectorInterface, EncoderType, ObjectKind, SubPixelType,
};

#[test]
fn connector_interfaces_decode_from_their_codes() {
    assert_eq!(ConnectorInterface::from_raw(1), ConnectorInterface::VGA);
    assert_eq!(ConnectorInterface::from_raw(10), ConnectorInterface::DisplayPort);
    assert_eq!(ConnectorInterface::from_raw(11), ConnectorInterface::HDMIA);
    assert_eq!(ConnectorInterface::from_raw(14), ConnectorInterface::EDP);
    assert_eq!(ConnectorInterface::from_raw(17), ConnectorInterface::DPI);
    assert_eq!(ConnectorInterface::from_raw(0), ConnectorInterface::Unknown);
    assert_eq!(ConnectorInterface::from_raw(999), ConnectorInterface::Unknown);
}

#[test]
fn connection_states_decode_from_their_codes() {
    assert_eq!(Connection::from_raw(1), Connection::Connected);
    assert_eq!(Connection::from_raw(2), Connection::Disconnected);
    assert_eq!(Connection::from_raw(3), Connection::Unknown);
    assert_eq!(Connection::from_raw(0), Connection::Unknown);
}

#[test]
fn subpixel_layouts_decode_from_their_codes() {
    assert_eq!(SubPixelType::from_raw(1), SubPixelType::Unknown);
    assert_eq!(SubPixelType::from_raw(2), SubPixelType::HorizontalRGB);
    assert_eq!(SubPixelType::from_raw(5), SubPixelType::VerticalBGR);
    assert_eq!(SubPixelType::from_raw(6), SubPixelType::NoSubPixel);
    assert_eq!(SubPixelType::from_raw(77), SubPixelType::Unknown);
}

#[test]
fn encoder_types_decode_from_their_codes() {
    assert_eq!(EncoderType::from_raw(0), EncoderType::NoEncoder);
    assert_eq!(EncoderType::from_raw(1), EncoderType::DAC);
    assert_eq!(EncoderType::from_raw(2), EncoderType::TMDS);
    assert_eq!(EncoderType::from_raw(8), EncoderType::DPI);
    assert_eq!(EncoderType::from_raw(42), EncoderType::NoEncoder);
}

#[test]
fn object_kinds_round_trip_through_their_codes() {
    let kinds = [
        ObjectKind::Connector,
        ObjectKind::Encoder,
        ObjectKind::Controller,
        ObjectKind::Framebuffer,
        ObjectKind::Plane,
        ObjectKind::Property,
        ObjectKind::Mode,
        ObjectKind::Blob,
    ];
    for k in kinds {
        assert_eq!(ObjectKind::from_raw(k.to_raw()), k);
    }
    // The wildcard code of `Unknown` decodes back to `Unknown`.
    assert_eq!(ObjectKind::from_raw(ObjectKind::Unknown.to_raw()), ObjectKind::Unknown);
    assert_eq!(ObjectKind::from_raw(0xcccccccc), ObjectKind::Controller);
}
