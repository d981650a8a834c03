use bacnet_parse::bvlc::parse_bvlc;
use bacnet_parse::nsdu::apdu::parse_apdu;
use bacnet_parse::nsdu::apdu::BACnetRejectReason;
use bacnet_parse::nsdu::apdu::ConfirmedServiceChoice;
use bacnet_parse::nsdu::apdu::ErrorPDU;
use bacnet_parse::nsdu::apdu::PDUType;
use bacnet_parse::nsdu::object_type::ObjectType;
use bacnet_parse::nsdu::parse_rpdu;
use bacnet_parse::nsdu::parse_unsigned;
use bacnet_parse::nsdu::rpdu::RPDU;
use bacnet_parse::nsdu::tag::Tag;
use bacnet_parse::nsdu::unconfirmed_request_pdu::UnconfirmedServiceChoice;
use bacnet_parse::Error;

#[test]
fn basic_whois_test() {
    let bytes: &[u8] = &[
        0x81, 0x0b, 0x00, 0x1b, 0x01, 0x28, 0xff, 0xff, 0x00, 0x27, 0x2f, 0x06, 0x00, 0x40,
        0xae, 0x04, 0xd3, 0xff, 0xfe, 0x10, 0x08, 0x0a, 0x0b, 0x54, 0x1a, 0x0b, 0x54,
    ];
    let bvlc = parse_bvlc(&bytes).unwrap();
    let npdu = bvlc.npdu().as_ref().unwrap();
    let apdu = parse_apdu(npdu.payload()).unwrap();
    let ucs = UnconfirmedServiceChoice::parse(&apdu).unwrap();
    match ucs {
        UnconfirmedServiceChoice::WhoIs(lims) => {
            let lims = lims.unwrap();
            assert_eq!(lims.low_limit, 2900);
            assert_eq!(lims.high_limit, 2900);
        }
        _ => panic!("should be WhoIs"),
    }
}

#[test]
fn whois_two_bytes_means_no_limits() {
    let apdu = parse_apdu(&[0x10, 0x08]).unwrap();
    let ucs = UnconfirmedServiceChoice::parse(&apdu).unwrap();
    assert_eq!(ucs, UnconfirmedServiceChoice::WhoIs(None));
}

#[test]
fn whois_nonzero_tag_number_is_invalid_value() {
    let apdu = parse_apdu(&[0x10, 0x08, 0x1a, 0x0b, 0x54, 0x1a, 0x0b, 0x54]).unwrap();
    let r = UnconfirmedServiceChoice::parse(&apdu);
    assert!(matches!(r, Err(Error::InvalidValue(_))));
}

#[test]
fn whois_zero_size_limit_is_invalid_value() {
    // First tag has number 0 but value 0, which is no legal unsigned size.
    let apdu = parse_apdu(&[0x10, 0x08, 0x08, 0x1a, 0x0b, 0x54]).unwrap();
    let r = UnconfirmedServiceChoice::parse(&apdu);
    assert!(matches!(r, Err(Error::InvalidValue(_))));
}

#[test]
fn whois_truncated_limit_is_length_error() {
    let apdu = parse_apdu(&[0x10, 0x08, 0x0a, 0x0b]).unwrap();
    let r = UnconfirmedServiceChoice::parse(&apdu);
    assert!(matches!(r, Err(Error::Length(_))));
}

#[test]
fn unconfirmed_service_choices() {
    let apdu = parse_apdu(&[0x10, 0x00]).unwrap();
    assert_eq!(UnconfirmedServiceChoice::parse(&apdu).unwrap(), UnconfirmedServiceChoice::IAm);
    let apdu = parse_apdu(&[0x10, 0x01]).unwrap();
    assert_eq!(UnconfirmedServiceChoice::parse(&apdu).unwrap(), UnconfirmedServiceChoice::IHave);
    let apdu = parse_apdu(&[0x10, 0x07]).unwrap();
    assert_eq!(UnconfirmedServiceChoice::parse(&apdu).unwrap(), UnconfirmedServiceChoice::WhoHas);
    let apdu = parse_apdu(&[0x10, 0x22]).unwrap();
    assert_eq!(UnconfirmedServiceChoice::parse(&apdu).unwrap(), UnconfirmedServiceChoice::Unknown);
    let apdu = parse_apdu(&[0x10]).unwrap();
    assert!(matches!(UnconfirmedServiceChoice::parse(&apdu), Err(Error::Length(_))));
}

#[test]
fn tag_decode_is_restartable() {
    let bytes: &[u8] = &[0x2a, 0x99, 0x01, 0x02];
    let (r1, t1) = Tag::parse(bytes).unwrap();
    let (r2, t2) = Tag::parse(bytes).unwrap();
    assert_eq!(t1.number, t2.number);
    assert_eq!(t1.value, t2.value);
    assert_eq!(r1.len(), r2.len());
    assert_eq!(r1, r2);
}

#[test]
fn tag_short_values() {
    // High nibble is the number, low three bits the value.
    let (rest, tag) = Tag::parse(&[0x2a, 0x99]).unwrap();
    assert_eq!(tag.number, 2);
    assert_eq!(tag.value, 2);
    assert_eq!(rest, &[0x99]);
    // Opening and closing tags have value 0.
    let (rest, tag) = Tag::parse(&[0x3e, 0x99]).unwrap();
    assert_eq!(tag.number, 3);
    assert_eq!(tag.value, 0);
    assert_eq!(rest, &[0x99]);
    let (_, tag) = Tag::parse(&[0x3f]).unwrap();
    assert_eq!(tag.number, 3);
    assert_eq!(tag.value, 0);
}

#[test]
fn tag_extended_values() {
    // Extended value: the byte after the header is the value itself...
    let (rest, tag) = Tag::parse(&[0x15, 0x07, 0x99]).unwrap();
    assert_eq!(tag.number, 1);
    assert_eq!(tag.value, 7);
    assert_eq!(rest, &[0x99]);
    // ...unless it is 254 (16-bit value follows)...
    let (rest, tag) = Tag::parse(&[0x15, 254, 0x0b, 0x54, 0x99]).unwrap();
    assert_eq!(tag.number, 1);
    assert_eq!(tag.value, 2900);
    assert_eq!(rest, &[0x99]);
    // ...or 255 (32-bit value follows).
    let (rest, tag) = Tag::parse(&[0x15, 255, 0x00, 0x01, 0x00, 0x00, 0x99]).unwrap();
    assert_eq!(tag.number, 1);
    assert_eq!(tag.value, 0x10000);
    assert_eq!(rest, &[0x99]);
}

#[test]
fn tag_extended_number() {
    // A first byte with all four high bits set takes its number from the
    // next byte.
    let (rest, tag) = Tag::parse(&[0xf2, 0x21, 0x99]).unwrap();
    assert_eq!(tag.number, 0x21);
    assert_eq!(tag.value, 2);
    assert_eq!(rest, &[0x99]);
    let (rest, tag) = Tag::parse(&[0xf5, 0x21, 0x0c, 0x99]).unwrap();
    assert_eq!(tag.number, 0x21);
    assert_eq!(tag.value, 0x0c);
    assert_eq!(rest, &[0x99]);
}

#[test]
fn tag_truncated_is_length_error() {
    assert!(matches!(Tag::parse(&[]), Err(Error::Length(_))));
    assert!(matches!(Tag::parse(&[0xf2]), Err(Error::Length(_))));
    assert!(matches!(Tag::parse(&[0x15]), Err(Error::Length(_))));
    assert!(matches!(Tag::parse(&[0x15, 254, 0x0b]), Err(Error::Length(_))));
    assert!(matches!(Tag::parse(&[0x15, 255, 0x00, 0x01, 0x00]), Err(Error::Length(_))));
}

#[test]
fn unsigned_sizes() {
    let (rest, v) = parse_unsigned(&[0x12, 0x99], 1).unwrap();
    assert_eq!(v, 0x12);
    assert_eq!(rest, &[0x99]);
    let (_, v) = parse_unsigned(&[0x0b, 0x54], 2).unwrap();
    assert_eq!(v, 2900);
    let (_, v) = parse_unsigned(&[0x01, 0x02, 0x03], 3).unwrap();
    assert_eq!(v, 0x010203);
    let (_, v) = parse_unsigned(&[0x01, 0x02, 0x03, 0x04], 4).unwrap();
    assert_eq!(v, 0x01020304);
}

#[test]
fn unsigned_bad_size_is_invalid_value() {
    assert!(matches!(parse_unsigned(&[0x01], 0), Err(Error::InvalidValue(_))));
    assert!(matches!(parse_unsigned(&[0x01, 0x02, 0x03, 0x04, 0x05], 5), Err(Error::InvalidValue(_))));
}

#[test]
fn unsigned_short_buffer_is_length_error() {
    assert!(matches!(parse_unsigned(&[0x01], 2), Err(Error::Length(_))));
}

#[test]
fn apdu_classifies_pdu_type() {
    let apdu = parse_apdu(&[0x10, 0x08]).unwrap();
    assert_eq!(apdu.pdu_type(), PDUType::BACnetUnconfirmedRequestPDU);
    assert_eq!(apdu.pdu_type_byte(), 0x10);
    let apdu = parse_apdu(&[0x55]).unwrap();
    assert_eq!(apdu.pdu_type(), PDUType::Error);
    let apdu = parse_apdu(&[0x85]).unwrap();
    assert_eq!(apdu.pdu_type(), PDUType::Reserved);
    assert!(matches!(parse_apdu(&[]), Err(Error::Length(_))));
}

#[test]
fn error_pdu_is_exactly_three_bytes() {
    let e = ErrorPDU::parse(&[0x07, 0x01, 0x20]).unwrap();
    assert_eq!(e.invoke_id(), 0x07);
    assert_eq!(e.error_class(), 0x01);
    assert_eq!(e.error_code(), 0x20);
    assert!(matches!(ErrorPDU::parse(&[0x07, 0x01]), Err(Error::Length(_))));
    assert!(matches!(ErrorPDU::parse(&[0x07, 0x01, 0x20, 0x00]), Err(Error::Length(_))));
}

#[test]
fn service_and_reason_tables() {
    assert_eq!(ConfirmedServiceChoice::from_byte(0x0c), ConfirmedServiceChoice::ReadProperty);
    assert_eq!(ConfirmedServiceChoice::from_byte(0x99), ConfirmedServiceChoice::Unknown);
    assert_eq!(BACnetRejectReason::from_byte(9), BACnetRejectReason::UnrecognizedService);
    assert_eq!(BACnetRejectReason::from_byte(200), BACnetRejectReason::Unknown);
}

#[test]
fn object_type_table() {
    assert_eq!(ObjectType::parse(&[0x00, 0x08]), ObjectType::ObjectDevice);
    assert_eq!(ObjectType::parse(&[0x00, 0x38]), ObjectType::ObjectNetworkPort);
    assert_eq!(ObjectType::parse(&[0x00, 0x64]), ObjectType::Reserved);
    assert_eq!(ObjectType::parse(&[0x03, 0x00]), ObjectType::Proprietary);
    assert_eq!(ObjectType::parse(&[0x04, 0x00]), ObjectType::Invalid);
}

#[test]
fn rpdu_who_is_router() {
    let r = parse_rpdu(&[0x00]).unwrap();
    assert!(matches!(r, RPDU::WhoIsRouterToNetwork(None)));
    let r = parse_rpdu(&[0x00, 0x12, 0x34]).unwrap();
    assert!(matches!(r, RPDU::WhoIsRouterToNetwork(Some(0x1234))));
}

#[test]
fn rpdu_i_am_router_walks_dnets() {
    let r = parse_rpdu(&[0x01, 0x00, 0x01, 0x00, 0x02, 0x00]).unwrap();
    match r {
        RPDU::IAmRouterToNetwork(mut dnets) => {
            assert_eq!(dnets.next(), Some(1));
            assert_eq!(dnets.next(), Some(2));
            // A trailing odd byte ends the walk.
            assert_eq!(dnets.next(), None);
            assert_eq!(dnets.next(), None);
        }
        _ => panic!("should be IAmRouterToNetwork"),
    }
}

#[test]
fn rpdu_i_could_be_router() {
    let r = parse_rpdu(&[0x02, 0x00, 0x07]).unwrap();
    assert!(matches!(r, RPDU::ICouldBeRouterToNetwork(7)));
    assert!(matches!(parse_rpdu(&[0x02, 0x00]), Err(Error::Length(_))));
}

#[test]
fn rpdu_unit_messages_and_ranges() {
    assert!(matches!(parse_rpdu(&[0x03]).unwrap(), RPDU::RejectMessageToNetwork));
    assert!(matches!(parse_rpdu(&[0x06]).unwrap(), RPDU::InitializeRoutingTable));
    assert!(matches!(parse_rpdu(&[0x11]).unwrap(), RPDU::SetMasterKey));
    assert!(matches!(parse_rpdu(&[0x50]).unwrap(), RPDU::Reserved));
    assert!(matches!(parse_rpdu(&[0x80]).unwrap(), RPDU::Proprietary));
    assert!(matches!(parse_rpdu(&[]), Err(Error::Length(_))));
}
