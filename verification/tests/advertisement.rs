use ble_gatt_client::advertisement_builder::{
    ADType, AdvertisementData, BasicService, Complete16, CustomService, Error, Flag, FullName,
    Incomplete128, ShortName, StandardAdvertisementData,
};

#[test]
fn empty_payload_is_empty_slice() {
    let adv = StandardAdvertisementData::new();
    assert_eq!(adv.as_slice().unwrap(), &[] as &[u8]);
}

#[test]
fn raw_prepends_length_and_type() {
    let adv = AdvertisementData::<31>::new().raw(ADType::ManufacturerSpecificData, &[0xaa, 0xbb]);
    assert_eq!(adv.as_slice().unwrap(), &[0x03, 0xff, 0xaa, 0xbb]);
}

#[test]
fn flags_sum_codes() {
    let adv = StandardAdvertisementData::new().flags([Flag::LimitedDiscovery, Flag::LE_Only]);
    assert_eq!(adv.as_slice().unwrap(), &[0x02, 0x01, 0x05]);
}

#[test]
fn services_render_little_endian() {
    let adv = StandardAdvertisementData::new()
        .services(Complete16([BasicService::Battery, BasicService::HeartRate]));
    assert_eq!(adv.as_slice().unwrap(), &[0x05, 0x03, 0x0f, 0x18, 0x0d, 0x18]);
}

#[test]
fn custom_service_renders_reversed() {
    let bytes: [u8; 16] = [0, 1, 2, 3, 4, 5, 6, 7, 8, 9, 10, 11, 12, 13, 14, 15];
    let adv = AdvertisementData::<31>::new().services(Incomplete128([CustomService(bytes)]));
    let expected: Vec<u8> = [17u8, 0x06]
        .iter()
        .copied()
        .chain((0..16u8).rev())
        .collect();
    assert_eq!(adv.as_slice().unwrap(), expected.as_slice());
}

#[test]
fn name_structure() {
    let adv = StandardAdvertisementData::new().name(FullName("hi"));
    assert_eq!(adv.as_slice().unwrap(), &[0x03, 0x09, b'h', b'i']);
}

#[test]
fn adapt_name_prefers_full_name_when_it_fits() {
    let adv = StandardAdvertisementData::new()
        .adapt_name(FullName("full-name"), ShortName("s"));
    let expected: Vec<u8> = [10u8, 0x09]
        .iter()
        .copied()
        .chain(b"full-name".iter().copied())
        .collect();
    assert_eq!(adv.as_slice().unwrap(), expected.as_slice());
}

#[test]
fn adapt_name_falls_back_to_short_name() {
    let filler = [0u8; 20];
    let adv = StandardAdvertisementData::new()
        .raw(ADType::ManufacturerSpecificData, &filler)
        .adapt_name(FullName("a-very-long-name"), ShortName("s"));
    let slice = adv.as_slice().unwrap();
    assert_eq!(slice.len(), 22 + 3);
    assert_eq!(&slice[22..], &[0x02, 0x08, b's']);
}

#[test]
fn name_longer_than_one_structure_is_left_out() {
    // a name of over 254 bytes cannot be framed by the one-byte length
    // prefix: the payload is left unchanged
    let long = "x".repeat(300);
    let adv = ble_gatt_client::advertisement_builder::ExtendedAdvertisementData::new()
        .name(FullName(&long));
    assert_eq!(adv.as_slice().unwrap(), &[] as &[u8]);
}

#[test]
fn oversize_is_reported_with_the_needed_length() {
    let adv = AdvertisementData::<4>::new().raw(ADType::ShortName, &[b'a', b'b', b'c']);
    match adv.as_slice() {
        Err(Error::Oversize { expected }) => assert_eq!(expected, 5),
        _ => panic!("payload of five bytes must not fit four"),
    }
}

#[test]
fn oversized_structure_keeps_earlier_content_out_of_reach() {
    let adv = AdvertisementData::<4>::new()
        .raw(ADType::Flags, &[0x06])
        .raw(ADType::ShortName, &[b'a', b'b', b'c']);
    match adv.as_slice() {
        Err(Error::Oversize { expected }) => assert_eq!(expected, 8),
        _ => panic!("eight bytes must not fit four"),
    }
}
