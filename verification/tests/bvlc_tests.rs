use bacnet_parse::bvlc::parse_bvlc;
use bacnet_parse::bvlc::BVLCFunction;
use bacnet_parse::Error;

#[test]
fn simple_test() {
    let bytes: &[u8] = &[
        0x81, 0x0a, 0x00, 0x1b, // BVLC
        0x01, 0x20, 0x00, 0x0d, 0x01, 0x3d, 0xff, // NPDU
        0x30, 0xc9, 0x0c, 0x0c, 0x02, 0x00, 0x00, 0x6f, 0x19, 0x4c, 0x29, 0x00, 0x3e, 0x21,
        0x21, 0x3f, // APDU
    ];

    let bvlc = parse_bvlc(&bytes).unwrap();
    assert_eq!(bvlc.bvlc_function(), BVLCFunction::UnicastNPDU);

    let npdu = bvlc.npdu().as_ref().unwrap();
    assert_eq!(npdu.ncpi_control(), 0x20);
    assert_eq!(npdu.is_apdu(), true);
    assert_eq!(npdu.is_src_spec_present(), false);
    assert_eq!(npdu.is_dst_spec_present(), true);
    assert_eq!(npdu.is_expecting_reply(), false);

    assert_eq!(npdu.src().is_none(), true);

    let dst_hopcount = npdu.dst_hopcount().as_ref().unwrap();
    assert_eq!(dst_hopcount.hopcount(), 255);

    let dst = dst_hopcount.dst();
    assert_eq!(dst.net(), 13);
    assert_eq!(dst.addr().len(), 1);
    assert_eq!(dst.addr()[0], 61);
}

#[test]
fn bvlc_three_bytes_is_length_error() {
    let bytes: &[u8] = &[0x81, 0x0a, 0x00];
    assert!(matches!(parse_bvlc(bytes), Err(Error::Length(_))));
}

#[test]
fn bvlc_wrong_marker_is_invalid_value() {
    let bytes: &[u8] = &[0x80, 0x0a, 0x00, 0x04];
    assert!(matches!(parse_bvlc(bytes), Err(Error::InvalidValue(_))));
}

#[test]
fn bvlc_length_field_mismatch_is_length_error() {
    // A well-formed minimal frame, then the same frame with a corrupted
    // length field, then with a corrupted (longer) buffer.
    let good: &[u8] = &[0x81, 0x00, 0x00, 0x04];
    assert!(parse_bvlc(good).is_ok());
    let bad_field: &[u8] = &[0x81, 0x00, 0x00, 0x05];
    assert!(matches!(parse_bvlc(bad_field), Err(Error::Length(_))));
    let bad_buffer: &[u8] = &[0x81, 0x00, 0x00, 0x04, 0x00];
    assert!(matches!(parse_bvlc(bad_buffer), Err(Error::Length(_))));
}

#[test]
fn bvlc_unknown_function_is_not_an_error() {
    let bytes: &[u8] = &[0x81, 0x77, 0x00, 0x04];
    let bvlc = parse_bvlc(bytes).unwrap();
    assert_eq!(bvlc.bvlc_function(), BVLCFunction::Unknown);
    assert!(bvlc.ip_port().is_none());
    assert!(bvlc.npdu().is_none());
    assert!(!bvlc.has_npdu());
    assert!(!bvlc.has_ip_port());
}

#[test]
fn bvlc_forwarded_carries_ip_port() {
    let bytes: &[u8] = &[
        0x81, 0x04, 0x00, 0x0d, // BVLC, forwarded, total length 13
        0xc0, 0xa8, 0x01, 0x02, 0xba, 0xc0, // originating ip and port
        0x01, 0x00, 0x99, // NPDU
    ];
    let bvlc = parse_bvlc(bytes).unwrap();
    assert_eq!(bvlc.bvlc_function(), BVLCFunction::ForwardedNPDU);
    assert!(bvlc.has_ip_port());
    assert!(bvlc.has_npdu());
    let ip_port = bvlc.ip_port().as_ref().unwrap();
    assert_eq!(ip_port.ip, 0xc0a80102);
    assert_eq!(ip_port.port, 0xbac0);
    let npdu = bvlc.npdu().as_ref().unwrap();
    assert_eq!(npdu.ncpi_control(), 0x00);
    assert_eq!(npdu.payload(), &[0x99]);
}

#[test]
fn bvlc_forwarded_too_short_is_length_error() {
    let bytes: &[u8] = &[0x81, 0x04, 0x00, 0x06, 0xc0, 0xa8];
    assert!(matches!(parse_bvlc(bytes), Err(Error::Length(_))));
}

#[test]
fn bvlc_swallows_npdu_failure() {
    // Unicast frame whose carried NPDU has a bad version byte: the BVLC
    // decode still succeeds, with no NPDU populated.
    let bytes: &[u8] = &[0x81, 0x0a, 0x00, 0x07, 0x02, 0x00, 0x99];
    let bvlc = parse_bvlc(bytes).unwrap();
    assert_eq!(bvlc.bvlc_function(), BVLCFunction::UnicastNPDU);
    assert!(bvlc.has_npdu());
    assert!(bvlc.npdu().is_none());
}
