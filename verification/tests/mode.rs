use modesetting::mode::{Mode, ModeInfo, MODE_NAME_LEN};

fn sample_mode(name: &[u8]) -> Mode {
    Mode {
        name: name.to_vec(),
        clock: 148500,
        display: (1920, 1080),
        hsync: (2008, 2052),
        vsync: (1084, 1089),
        hskew: 0,
        vscan: 1,
        htotal: 2200,
        vtotal: 1125,
        vrefresh: 60,
        flags: 5,
        mode_type: 64,
    }
}

#[test]
fn mode_round_trips_through_the_timing_struct() {
    let m = sample_mode(b"1920x1080");
    let info = m.to_info();
    assert_eq!(info.name.len(), MODE_NAME_LEN);
    let back = Mode::from_info(&info);
    assert_eq!(back, m);
}

#[test]
fn every_numeric_field_is_encoded_exactly() {
    let m = sample_mode(b"x");
    let info = m.to_info();
    assert_eq!(info.clock, 148500);
    assert_eq!((info.hdisplay, info.vdisplay), (1920, 1080));
    assert_eq!((info.hsync_start, info.hsync_end), (2008, 2052));
    assert_eq!((info.vsync_start, info.vsync_end), (1084, 1089));
    assert_eq!(info.hskew, 0);
    assert_eq!(info.vscan, 1);
    assert_eq!(info.htotal, 2200);
    assert_eq!(info.vtotal, 1125);
    assert_eq!(info.vrefresh, 60);
    assert_eq!(info.flags, 5);
    assert_eq!(info.mode_type, 64);
}

#[test]
fn a_name_too_long_for_the_buffer_is_truncated_to_31_bytes() {
    let long = vec![b'a'; 40];
    let m = sample_mode(&long);
    let info = m.to_info();
    let back = Mode::from_info(&info);
    assert_eq!(back.name, vec![b'a'; 31]);
    assert_eq!(back.clock, m.clock);
}

#[test]
fn decoding_stops_at_the_first_nul() {
    let mut name = vec![0u8; MODE_NAME_LEN];
    name[0] = b'h';
    name[1] = b'd';
    name[5] = b'x'; // past the terminator: not part of the name
    let info = ModeInfo {
        clock: 1,
        hdisplay: 2,
        vdisplay: 3,
        hsync_start: 4,
        hsync_end: 5,
        vsync_start: 6,
        vsync_end: 7,
        hskew: 8,
        vscan: 9,
        htotal: 10,
        vtotal: 11,
        vrefresh: 12,
        flags: 13,
        mode_type: 14,
        name,
    };
    let m = Mode::from_info(&info);
    assert_eq!(m.name, b"hd".to_vec());
    assert_eq!(m.display, (2, 3));
}

#[test]
fn cloned_mode_equals_the_original() {
    let m = sample_mode(b"640x480");
    let c = m.clone();
    assert_eq!(c, m);
}
