use ble_gatt_client::gatt_client::{
    characteristics_response, descriptors_response, service_response, Client, DiscoverySession,
    SessionStep, Walk, WalkRequest, WalkStatus,
};
use ble_gatt_client::portal::PortalMessage;
use ble_gatt_client::status::{DiscoverError, GattError};
use ble_gatt_client::types::{
    Characteristic, Connection, Descriptor, DiscoveredService, HandleRange, Uuid,
};

const SUCCESS: u32 = 0x0000;
const ATTRIBUTE_NOT_FOUND: u32 = 0x010A;

fn chr(decl: u16, value: u16) -> Characteristic {
    Characteristic {
        uuid: Some(Uuid(0x2a19)),
        handle_decl: decl,
        handle_value: value,
        props: 0x02,
        has_ext_props: false,
    }
}

fn dsc(handle: u16) -> Descriptor {
    Descriptor { uuid: Some(Uuid(0x2902)), handle }
}

fn svc(start: u16, end: u16) -> DiscoveredService {
    DiscoveredService { uuid: Some(Uuid(0x180f)), range: HandleRange { start, end } }
}

fn found(start: u16, end: u16) -> PortalMessage {
    service_response(SUCCESS, &vec![svc(start, end)])
}

fn expect_chars(status: &WalkStatus) -> HandleRange {
    match status {
        WalkStatus::Pending(WalkRequest::Characteristics(r)) => *r,
        _ => panic!("expected a characteristic request"),
    }
}

fn expect_descs(status: &WalkStatus) -> HandleRange {
    match status {
        WalkStatus::Pending(WalkRequest::Descriptors(r)) => *r,
        _ => panic!("expected a descriptor request"),
    }
}

fn expect_failure(status: &WalkStatus) -> DiscoverError {
    match status {
        WalkStatus::Complete(Err(e)) => *e,
        _ => panic!("expected a failed walk"),
    }
}

/// A client that is complete exactly when it saw at least one characteristic.
struct OneOrMore {
    seen: Vec<(Characteristic, Vec<Descriptor>)>,
}

impl Client for OneOrMore {
    fn uuid() -> Uuid {
        Uuid(0x180f)
    }

    fn new_undiscovered(_conn: Connection) -> Self {
        OneOrMore { seen: Vec::new() }
    }

    fn discovered_characteristic(
        &mut self,
        characteristic: &Characteristic,
        descriptors: &[Descriptor],
    ) {
        self.seen.push((*characteristic, descriptors.to_vec()));
    }

    fn discovery_complete(&mut self) -> Result<(), DiscoverError> {
        if self.seen.is_empty() {
            Err(DiscoverError::ServiceIncomplete)
        } else {
            Ok(())
        }
    }
}

#[test]
fn unknown_service_uuid_is_service_not_found() {
    let mut walk = Walk::new();
    let outcome = walk.step(service_response(ATTRIBUTE_NOT_FOUND, &vec![]));
    assert_eq!(expect_failure(&outcome.status), DiscoverError::ServiceNotFound);
}

#[test]
fn empty_service_list_is_service_not_found() {
    let mut walk = Walk::new();
    let outcome = walk.step(service_response(SUCCESS, &vec![]));
    assert_eq!(expect_failure(&outcome.status), DiscoverError::ServiceNotFound);
}

#[test]
fn other_service_lookup_failures_propagate() {
    let mut walk = Walk::new();
    let outcome = walk.step(service_response(0x0105, &vec![]));
    assert_eq!(
        expect_failure(&outcome.status),
        DiscoverError::Gatt(GattError::AtterrInsufAuthentication)
    );
}

#[test]
fn duplicate_services_take_the_first() {
    let mut walk = Walk::new();
    let outcome = walk.step(service_response(SUCCESS, &vec![svc(1, 5), svc(6, 9)]));
    assert_eq!(expect_chars(&outcome.status), HandleRange { start: 1, end: 5 });
}

#[test]
fn descriptor_range_is_between_value_and_next_declaration() {
    let mut walk = Walk::new();
    walk.step(found(1, 20));
    let outcome = walk.step(characteristics_response(SUCCESS, &vec![chr(9, 10), chr(15, 16)]));
    // value handle 10, next declaration handle 15: descriptors live in [11, 14]
    assert_eq!(expect_descs(&outcome.status), HandleRange { start: 11, end: 14 });
    assert!(outcome.reports.is_empty());
}

#[test]
fn adjacent_declaration_skips_the_descriptor_request() {
    let mut walk = Walk::new();
    walk.step(found(1, 20));
    // value handle 10, next declaration handle 11: no room, no request issued
    let outcome = walk.step(characteristics_response(SUCCESS, &vec![chr(9, 10), chr(11, 12)]));
    assert_eq!(expect_chars(&outcome.status), HandleRange { start: 13, end: 20 });
    assert_eq!(outcome.reports.len(), 1);
    assert_eq!(outcome.reports[0].characteristic, chr(9, 10));
    assert!(outcome.reports[0].descriptors.is_empty());
}

#[test]
fn disconnection_while_awaiting_service() {
    let mut walk = Walk::new();
    let outcome = walk.step(PortalMessage::Disconnected);
    assert_eq!(expect_failure(&outcome.status), DiscoverError::Disconnected);
    assert!(outcome.reports.is_empty());
}

#[test]
fn disconnection_while_awaiting_characteristics() {
    let mut walk = Walk::new();
    walk.step(found(1, 20));
    let outcome = walk.step(PortalMessage::Disconnected);
    assert_eq!(expect_failure(&outcome.status), DiscoverError::Disconnected);
    assert!(outcome.reports.is_empty());
}

#[test]
fn disconnection_while_awaiting_descriptors() {
    let mut walk = Walk::new();
    walk.step(found(1, 20));
    walk.step(characteristics_response(SUCCESS, &vec![chr(2, 3), chr(5, 6)]));
    let outcome = walk.step(PortalMessage::Disconnected);
    assert_eq!(expect_failure(&outcome.status), DiscoverError::Disconnected);
    assert!(outcome.reports.is_empty());
    // the walk is over: nothing further is accepted, let alone requested
    let after = walk.step(descriptors_response(SUCCESS, &vec![dsc(4)]));
    assert_eq!(expect_failure(&after.status), DiscoverError::ProtocolViolation);
}

#[test]
fn empty_successful_page_is_a_protocol_violation() {
    let mut walk = Walk::new();
    walk.step(found(1, 20));
    let outcome = walk.step(characteristics_response(SUCCESS, &vec![]));
    assert_eq!(expect_failure(&outcome.status), DiscoverError::ProtocolViolation);
}

#[test]
fn oversized_page_is_a_protocol_violation() {
    let records: Vec<Characteristic> = (0..7u16).map(|i| chr(2 * i + 2, 2 * i + 3)).collect();
    let message = characteristics_response(SUCCESS, &records);
    let mut walk = Walk::new();
    walk.step(found(1, 40));
    let outcome = walk.step(message);
    assert_eq!(expect_failure(&outcome.status), DiscoverError::ProtocolViolation);
}

#[test]
fn descriptor_failures_propagate_unreinterpreted() {
    let mut walk = Walk::new();
    walk.step(found(1, 20));
    walk.step(characteristics_response(SUCCESS, &vec![chr(2, 3), chr(8, 9)]));
    // "attribute not found" is only reinterpreted at the service lookup and
    // at characteristic pagination; here it is an ordinary failure
    let outcome = walk.step(descriptors_response(ATTRIBUTE_NOT_FOUND, &vec![]));
    assert_eq!(
        expect_failure(&outcome.status),
        DiscoverError::Gatt(GattError::AtterrAttributeNotFound)
    );
}

#[test]
fn end_to_end_walk() {
    let mut walk = Walk::new();
    let outcome = walk.step(found(1, 20));
    assert_eq!(expect_chars(&outcome.status), HandleRange { start: 1, end: 20 });

    // one page holding characteristic a (decl 2, value 3) and b (decl 5, value 6)
    let outcome = walk.step(characteristics_response(SUCCESS, &vec![chr(2, 3), chr(5, 6)]));
    // a's descriptors are bounded by b's declaration: [4, 4]
    assert_eq!(expect_descs(&outcome.status), HandleRange { start: 4, end: 4 });
    assert!(outcome.reports.is_empty());

    let outcome = walk.step(descriptors_response(SUCCESS, &vec![dsc(4)]));
    assert_eq!(outcome.reports.len(), 1);
    assert_eq!(outcome.reports[0].characteristic, chr(2, 3));
    assert_eq!(outcome.reports[0].descriptors, vec![dsc(4)]);
    // pagination resumes past b's value handle
    assert_eq!(expect_chars(&outcome.status), HandleRange { start: 7, end: 20 });

    // pagination exhausted: b is finalized against the service's end handle
    let outcome = walk.step(characteristics_response(ATTRIBUTE_NOT_FOUND, &vec![]));
    assert_eq!(expect_descs(&outcome.status), HandleRange { start: 7, end: 20 });

    let outcome = walk.step(descriptors_response(SUCCESS, &vec![dsc(7), dsc(8)]));
    assert_eq!(outcome.reports.len(), 1);
    assert_eq!(outcome.reports[0].characteristic, chr(5, 6));
    assert_eq!(outcome.reports[0].descriptors, vec![dsc(7), dsc(8)]);
    assert!(matches!(outcome.status, WalkStatus::Complete(Ok(()))));
}

#[test]
fn pagination_enumerates_every_page_in_order() {
    // more characteristics than one page can carry: 6 + 2, adjacent so that
    // no descriptor requests interleave
    let page1: Vec<Characteristic> = (0..6u16).map(|i| chr(2 * i + 2, 2 * i + 3)).collect();
    let page2: Vec<Characteristic> = (6..8u16).map(|i| chr(2 * i + 2, 2 * i + 3)).collect();

    let mut walk = Walk::new();
    walk.step(found(1, 100));
    let outcome = walk.step(characteristics_response(SUCCESS, &page1));
    // five of the six are finalized; the sixth is held back, and the next
    // page starts one past its value handle
    assert_eq!(outcome.reports.len(), 5);
    assert_eq!(expect_chars(&outcome.status), HandleRange { start: 14, end: 100 });

    let outcome = walk.step(characteristics_response(SUCCESS, &page2));
    assert_eq!(outcome.reports.len(), 2);
    assert_eq!(expect_chars(&outcome.status), HandleRange { start: 18, end: 100 });

    let outcome = walk.step(characteristics_response(ATTRIBUTE_NOT_FOUND, &vec![]));
    // the last characteristic's descriptor range is [18, 100]
    assert_eq!(expect_descs(&outcome.status), HandleRange { start: 18, end: 100 });
    let outcome = walk.step(descriptors_response(SUCCESS, &vec![]));
    assert_eq!(outcome.reports.len(), 1);
    assert!(matches!(outcome.status, WalkStatus::Complete(Ok(()))));
}

#[test]
fn session_reports_incomplete_for_a_zero_characteristic_service() {
    let (mut session, uuid) = DiscoverySession::<OneOrMore>::begin(Connection { handle: 1 });
    assert_eq!(uuid, Uuid(0x180f));
    session.on_message(found(1, 20));
    // the very first page says "attribute not found": zero characteristics,
    // and the completeness check still runs
    let step = session.on_message(characteristics_response(ATTRIBUTE_NOT_FOUND, &vec![]));
    match step {
        SessionStep::Failed(e) => assert_eq!(e, DiscoverError::ServiceIncomplete),
        _ => panic!("a client requiring one characteristic must report incompleteness"),
    }
}

#[test]
fn session_is_ready_with_at_least_one_characteristic() {
    let (mut session, _uuid) = DiscoverySession::<OneOrMore>::begin(Connection { handle: 1 });
    session.on_message(found(1, 20));
    session.on_message(characteristics_response(SUCCESS, &vec![chr(2, 3), chr(5, 6)]));
    session.on_message(descriptors_response(SUCCESS, &vec![dsc(4)]));
    session.on_message(characteristics_response(ATTRIBUTE_NOT_FOUND, &vec![]));
    let step = session.on_message(descriptors_response(SUCCESS, &vec![dsc(7)]));
    match step {
        SessionStep::Ready(client) => {
            assert_eq!(client.seen.len(), 2);
            assert_eq!(client.seen[0].0, chr(2, 3));
            assert_eq!(client.seen[0].1, vec![dsc(4)]);
            assert_eq!(client.seen[1].0, chr(5, 6));
            assert_eq!(client.seen[1].1, vec![dsc(7)]);
        }
        _ => panic!("discovery must succeed with one characteristic seen"),
    }
}

#[test]
fn single_handle_service_has_no_characteristics() {
    // pagination runs strictly below the end handle, so a [5, 5] service
    // asks for nothing and completes at once
    let (mut session, _uuid) = DiscoverySession::<OneOrMore>::begin(Connection { handle: 7 });
    let step = session.on_message(found(5, 5));
    match step {
        SessionStep::Failed(e) => assert_eq!(e, DiscoverError::ServiceIncomplete),
        _ => panic!("an empty service must fail the one-or-more client"),
    }
}
