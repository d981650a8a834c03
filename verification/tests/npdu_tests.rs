use bacnet_parse::npdu::parse_npdu;
use bacnet_parse::npdu::NCPIPriority;
use bacnet_parse::npdu::NetAddr;
use bacnet_parse::Error;

#[test]
fn netaddr_test() {
    let bytes: &[u8] = &[0x12, 0x34, 0x4, 192, 168, 1, 10];
    let (rest, netaddr) = NetAddr::parse(bytes).unwrap();
    assert_eq!(rest.len(), 0);
    assert_eq!(netaddr.net(), 0x1234);
    assert_eq!(netaddr.addr(), &[192, 168, 1, 10]);
}

#[test]
fn netaddr_empty_address_is_ok() {
    let bytes: &[u8] = &[0x12, 0x34, 0x00];
    let (rest, netaddr) = NetAddr::parse(bytes).unwrap();
    assert_eq!(rest.len(), 0);
    assert_eq!(netaddr.net(), 0x1234);
    assert_eq!(netaddr.addr().len(), 0);
}

#[test]
fn netaddr_short_is_length_error() {
    let bytes: &[u8] = &[0x12, 0x34];
    assert!(matches!(NetAddr::parse(bytes), Err(Error::Length(_))));
    let bytes: &[u8] = &[0x12, 0x34, 0x05, 0x01, 0x02];
    assert!(matches!(NetAddr::parse(bytes), Err(Error::Length(_))));
}

#[test]
fn control_bits_are_pure_projections() {
    // Every control octet: build a buffer whose conditional fields match the
    // control bits, decode it, and check each projection against the bits.
    for c16 in 0u16..=255 {
        let c = c16 as u8;
        let mut bytes: Vec<u8> = vec![0x01, c];
        if c & 0x20 != 0 {
            bytes.extend_from_slice(&[0x00, 0x0d, 0x01, 0x3d]);
        }
        if c & 0x08 != 0 {
            bytes.extend_from_slice(&[0x00, 0x01, 0x02, 0xaa, 0xbb]);
        }
        if c & 0x20 != 0 {
            bytes.push(0xff);
        }
        bytes.push(0x99);
        let npdu = parse_npdu(&bytes).unwrap();
        assert_eq!(npdu.ncpi_control(), c);
        assert_eq!(npdu.is_apdu(), c & 0x80 == 0);
        assert_eq!(npdu.is_dst_spec_present(), c & 0x20 != 0);
        assert_eq!(npdu.is_src_spec_present(), c & 0x08 != 0);
        assert_eq!(npdu.is_expecting_reply(), c & 0x04 != 0);
        let want = match c & 3 {
            0 => NCPIPriority::Normal,
            1 => NCPIPriority::Urgent,
            2 => NCPIPriority::CriticalEquip,
            _ => NCPIPriority::LifeSafety,
        };
        assert_eq!(npdu.prio(), want);
    }
}

#[test]
fn npdu_decodes_both_addresses() {
    let bytes: &[u8] = &[
        0x01, 0x28, // version, control: dst + src
        0x00, 0x0d, 0x01, 0x3d, // destination: net 13, 1-byte address
        0x00, 0x01, 0x02, 0xaa, 0xbb, // source: net 1, 2-byte address
        0xff, // hop count
        0x99, 0x9a, // payload
    ];
    let npdu = parse_npdu(bytes).unwrap();
    let dst_hopcount = npdu.dst_hopcount().as_ref().unwrap();
    assert_eq!(dst_hopcount.hopcount(), 255);
    assert_eq!(dst_hopcount.dst().net(), 13);
    assert_eq!(dst_hopcount.dst().addr(), &[0x3d]);
    let src = npdu.src().as_ref().unwrap();
    assert_eq!(src.net(), 1);
    assert_eq!(src.addr(), &[0xaa, 0xbb]);
    assert_eq!(npdu.payload(), &[0x99, 0x9a]);
}

#[test]
fn npdu_too_short_is_length_error() {
    let bytes: &[u8] = &[0x01, 0x20];
    assert!(matches!(parse_npdu(bytes), Err(Error::Length(_))));
}

#[test]
fn npdu_wrong_version_is_invalid_value() {
    let bytes: &[u8] = &[0x02, 0x00, 0x99];
    assert!(matches!(parse_npdu(bytes), Err(Error::InvalidValue(_))));
}

#[test]
fn npdu_tolerates_failed_destination() {
    // Destination bit set, but the destination's declared address length
    // overruns the buffer: the decode continues as if nothing had been
    // consumed, with no destination populated.
    let bytes: &[u8] = &[0x01, 0x20, 0x00, 0x0d, 0x20];
    let npdu = parse_npdu(bytes).unwrap();
    assert!(npdu.dst_hopcount().is_none());
    assert!(npdu.src().is_none());
    assert_eq!(npdu.payload().len(), bytes.len());
}

#[test]
fn npdu_propagates_failed_source() {
    // Source bit set, but the source address cannot decode: the error is
    // not tolerated.
    let bytes: &[u8] = &[0x01, 0x08, 0x00];
    assert!(matches!(parse_npdu(bytes), Err(Error::Length(_))));
}

#[test]
fn npdu_needs_hopcount_and_payload_after_destination() {
    // Destination decodes but only the hop-count byte remains: length error.
    let bytes: &[u8] = &[0x01, 0x20, 0x00, 0x0d, 0x01, 0x3d, 0xff];
    assert!(matches!(parse_npdu(bytes), Err(Error::Length(_))));
}
