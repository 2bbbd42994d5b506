use centralized_relay::Address;
use centralized_relay::ConnectionState;
use centralized_relay::FeesState;
use centralized_relay::ICallService;
use centralized_relay::ErrorCode;

fn addr(id: u64) -> Address {
    Address { id }
}

/// A call service that accepts everything and records what it was handed.
struct RecordingService {
    messages: Vec<(String, Vec<u8>)>,
    errors: Vec<u64>,
}

impl RecordingService {
    fn new() -> RecordingService {
        RecordingService { messages: Vec::new(), errors: Vec::new() }
    }
}

impl ICallService for RecordingService {
    fn handle_message(&mut self, src_network: String, msg: Vec<u8>) -> Result<(), ErrorCode> {
        self.messages.push((src_network, msg));
        Ok(())
    }

    fn handle_error(&mut self, sn: u64) -> Result<(), ErrorCode> {
        self.errors.push(sn);
        Ok(())
    }
}

/// A call service that refuses every delivery.
struct RejectingService;

impl ICallService for RejectingService {
    fn handle_message(&mut self, _src_network: String, _msg: Vec<u8>) -> Result<(), ErrorCode> {
        Err(ErrorCode::Unauthorized)
    }

    fn handle_error(&mut self, _sn: u64) -> Result<(), ErrorCode> {
        Err(ErrorCode::Unauthorized)
    }
}

fn initialized(admin: Address, call_service: Address) -> ConnectionState {
    let mut connection = ConnectionState::new();
    let r = connection.initialize(admin, admin, call_service);
    assert_eq!(r, Ok(()));
    connection
}

#[test]
fn initialize_is_one_time() {
    let mut connection = ConnectionState::new();
    assert_eq!(connection.initialize(addr(9), addr(1), addr(2)), Ok(()));
    assert_eq!(connection.get_admin(), addr(1));
    assert_eq!(connection.outbound_sequence, 0);
    assert_eq!(
        connection.initialize(addr(9), addr(3), addr(4)),
        Err(ErrorCode::AlreadyInitialized)
    );
    assert_eq!(connection.get_admin(), addr(1));
}

#[test]
fn set_admin_gated_and_transfers_role() {
    let mut connection = initialized(addr(1), addr(2));
    assert_eq!(connection.set_admin(addr(5), addr(5)), Err(ErrorCode::Unauthorized));
    assert_eq!(connection.get_admin(), addr(1));
    assert_eq!(connection.set_admin(addr(1), addr(5)), Ok(()));
    assert_eq!(connection.get_admin(), addr(5));
    assert_eq!(connection.set_admin(addr(1), addr(1)), Err(ErrorCode::Unauthorized));
    assert_eq!(connection.set_admin(addr(5), addr(5)), Ok(()));
    assert_eq!(connection.get_admin(), addr(5));
}

#[test]
fn get_fee_adds_response_fee_exactly_when_asked() {
    let mut connection = initialized(addr(1), addr(2));
    assert_eq!(connection.set_fee(addr(1), String::from("eth"), 100, 50), Ok(()));
    assert_eq!(connection.get_fee(&String::from("eth"), true), Ok(150));
    assert_eq!(connection.get_fee(&String::from("eth"), false), Ok(100));
}

#[test]
fn get_fee_unset_network_is_not_zero() {
    let mut connection = initialized(addr(1), addr(2));
    assert_eq!(connection.get_fee(&String::from("eth"), false), Err(ErrorCode::FeeNotFound));
    assert_eq!(connection.set_fee(addr(1), String::from("zero"), 0, 0), Ok(()));
    assert_eq!(connection.get_fee(&String::from("zero"), true), Ok(0));
    assert_eq!(connection.get_fee(&String::from("eth"), true), Err(ErrorCode::FeeNotFound));
}

#[test]
fn get_fee_reports_overflow() {
    let mut connection = initialized(addr(1), addr(2));
    assert_eq!(connection.set_fee(addr(1), String::from("big"), u64::MAX, 1), Ok(()));
    assert_eq!(connection.get_fee(&String::from("big"), true), Err(ErrorCode::FeeOverflow));
    assert_eq!(connection.get_fee(&String::from("big"), false), Ok(u64::MAX));
}

#[test]
fn set_fee_overwrites_and_keeps_other_networks() {
    let mut connection = initialized(addr(1), addr(2));
    assert_eq!(connection.set_fee(addr(1), String::from("eth"), 100, 50), Ok(()));
    assert_eq!(connection.set_fee(addr(1), String::from("bsc"), 7, 3), Ok(()));
    assert_eq!(connection.set_fee(addr(1), String::from("eth"), 20, 5), Ok(()));
    assert_eq!(connection.get_fee(&String::from("eth"), true), Ok(25));
    assert_eq!(connection.get_fee(&String::from("bsc"), true), Ok(10));
}

#[test]
fn send_message_emits_event_and_collects_fee() {
    let mut connection = initialized(addr(1), addr(2));
    assert_eq!(connection.set_fee(addr(1), String::from("eth"), 100, 50), Ok(()));
    let result = connection.send_message(
        addr(2),
        String::from("eth"),
        String::from("svc"),
        1,
        vec![1, 2, 3],
        150,
    );
    let event = result.expect("a covered send must succeed");
    assert_eq!(event.destination_network, String::from("eth"));
    assert_eq!(event.assigned_sequence, 1);
    assert_eq!(event.payload, vec![1, 2, 3]);
    assert_eq!(connection.outbound_sequence, 1);
    assert_eq!(connection.collected_fees, 150);
}

#[test]
fn send_message_counts_successes() {
    let mut connection = initialized(addr(1), addr(2));
    assert_eq!(connection.set_fee(addr(1), String::from("eth"), 10, 4), Ok(()));
    for expected in 1..=3u64 {
        let result = connection.send_message(
            addr(2),
            String::from("eth"),
            String::from("svc"),
            0,
            vec![expected as u8],
            10,
        );
        assert_eq!(result.unwrap().assigned_sequence, expected);
    }
    assert_eq!(connection.outbound_sequence, 3);
    assert_eq!(connection.collected_fees, 30);
}

#[test]
fn send_message_only_call_service() {
    let mut connection = initialized(addr(1), addr(2));
    assert_eq!(connection.set_fee(addr(1), String::from("eth"), 100, 50), Ok(()));
    let result = connection.send_message(
        addr(66),
        String::from("eth"),
        String::from("svc"),
        1,
        vec![1],
        1000,
    );
    assert_eq!(result.unwrap_err(), ErrorCode::OnlyCallService);
    assert_eq!(connection.outbound_sequence, 0);
    assert_eq!(connection.collected_fees, 0);
}

#[test]
fn send_message_rejects_negative_hint() {
    let mut connection = initialized(addr(1), addr(2));
    assert_eq!(connection.set_fee(addr(1), String::from("eth"), 100, 50), Ok(()));
    let result = connection.send_message(
        addr(2),
        String::from("eth"),
        String::from("svc"),
        -1,
        vec![1],
        1000,
    );
    assert_eq!(result.unwrap_err(), ErrorCode::InvalidSequenceHint);
    assert_eq!(connection.outbound_sequence, 0);
}

#[test]
fn send_message_unpriced_network_fails() {
    let mut connection = initialized(addr(1), addr(2));
    let result = connection.send_message(
        addr(2),
        String::from("eth"),
        String::from("svc"),
        0,
        vec![1],
        1000,
    );
    assert_eq!(result.unwrap_err(), ErrorCode::FeeNotFound);
    assert_eq!(connection.outbound_sequence, 0);
}

#[test]
fn send_message_requires_covering_payment() {
    let mut connection = initialized(addr(1), addr(2));
    assert_eq!(connection.set_fee(addr(1), String::from("eth"), 100, 50), Ok(()));
    let result = connection.send_message(
        addr(2),
        String::from("eth"),
        String::from("svc"),
        1,
        vec![1],
        149,
    );
    assert_eq!(result.unwrap_err(), ErrorCode::InsufficientFee);
    assert_eq!(connection.outbound_sequence, 0);
    assert_eq!(connection.collected_fees, 0);
    let covered = connection.send_message(
        addr(2),
        String::from("eth"),
        String::from("svc"),
        1,
        vec![1],
        150,
    );
    assert!(covered.is_ok());
}

#[test]
fn recv_message_delivers_once() {
    let mut connection = initialized(addr(1), addr(2));
    let mut service = RecordingService::new();
    assert!(!connection.get_receipt(&String::from("eth"), 7));
    let first = connection.recv_message(addr(1), String::from("eth"), 7, vec![9, 9], &mut service);
    assert_eq!(first, Ok(()));
    assert!(connection.get_receipt(&String::from("eth"), 7));
    let second = connection.recv_message(addr(1), String::from("eth"), 7, vec![9, 9], &mut service);
    assert_eq!(second, Err(ErrorCode::DuplicateMessage));
    assert_eq!(service.messages.len(), 1);
    assert_eq!(service.messages[0], (String::from("eth"), vec![9, 9]));
}

#[test]
fn recv_message_distinct_keys_are_independent() {
    let mut connection = initialized(addr(1), addr(2));
    let mut service = RecordingService::new();
    assert_eq!(connection.recv_message(addr(1), String::from("eth"), 7, vec![1], &mut service), Ok(()));
    assert_eq!(connection.recv_message(addr(1), String::from("eth"), 8, vec![2], &mut service), Ok(()));
    assert_eq!(connection.recv_message(addr(1), String::from("bsc"), 7, vec![3], &mut service), Ok(()));
    assert!(connection.get_receipt(&String::from("eth"), 7));
    assert!(connection.get_receipt(&String::from("eth"), 8));
    assert!(connection.get_receipt(&String::from("bsc"), 7));
    assert!(!connection.get_receipt(&String::from("bsc"), 8));
    assert_eq!(service.messages.len(), 3);
}

#[test]
fn recv_message_requires_relayer_identity() {
    let mut connection = initialized(addr(1), addr(2));
    let mut service = RecordingService::new();
    let result = connection.recv_message(addr(66), String::from("eth"), 7, vec![1], &mut service);
    assert_eq!(result, Err(ErrorCode::Unauthorized));
    assert!(!connection.get_receipt(&String::from("eth"), 7));
    assert!(service.messages.is_empty());
}

#[test]
fn recv_message_marks_delivery_even_when_forward_fails() {
    let mut connection = initialized(addr(1), addr(2));
    let mut service = RejectingService;
    let first = connection.recv_message(addr(1), String::from("eth"), 7, vec![1], &mut service);
    assert_eq!(first, Err(ErrorCode::Unauthorized));
    assert!(connection.get_receipt(&String::from("eth"), 7));
    let second = connection.recv_message(addr(1), String::from("eth"), 7, vec![1], &mut service);
    assert_eq!(second, Err(ErrorCode::DuplicateMessage));
}

#[test]
fn revert_message_is_an_authorization_gate() {
    let connection = initialized(addr(1), addr(2));
    let mut service = RecordingService::new();
    assert_eq!(connection.revert_message(addr(66), 4, &mut service), Err(ErrorCode::OnlyCallService));
    assert!(service.errors.is_empty());
    assert_eq!(connection.revert_message(addr(2), 4, &mut service), Ok(()));
    assert_eq!(service.errors, vec![4]);
}

#[test]
fn claim_fees_takes_everything_once() {
    let mut connection = initialized(addr(1), addr(2));
    assert_eq!(connection.set_fee(addr(1), String::from("eth"), 100, 50), Ok(()));
    let sent = connection.send_message(
        addr(2),
        String::from("eth"),
        String::from("svc"),
        1,
        vec![1],
        150,
    );
    assert!(sent.is_ok());
    assert_eq!(connection.claim_fees(addr(66), addr(3)), Err(ErrorCode::Unauthorized));
    assert_eq!(connection.collected_fees, 150);
    assert_eq!(connection.claim_fees(addr(1), addr(3)), Ok(150));
    assert_eq!(connection.collected_fees, 0);
    assert_eq!(connection.claim_fees(addr(1), addr(3)), Ok(0));
}

#[test]
fn admin_operations_fail_closed_for_strangers() {
    let mut connection = initialized(addr(1), addr(2));
    assert_eq!(connection.set_fee(addr(1), String::from("eth"), 100, 50), Ok(()));
    let stranger = addr(77);
    assert_eq!(connection.set_admin(stranger, stranger), Err(ErrorCode::Unauthorized));
    assert_eq!(connection.set_fee(stranger, String::from("eth"), 0, 0), Err(ErrorCode::Unauthorized));
    assert_eq!(connection.claim_fees(stranger, stranger), Err(ErrorCode::Unauthorized));
    assert_eq!(connection.get_admin(), addr(1));
    assert_eq!(connection.get_fee(&String::from("eth"), true), Ok(150));
}

#[test]
fn fees_state_totals() {
    let entry = FeesState::new(String::from("eth"), 100, 50);
    assert_eq!(entry.total_fees(false), 100);
    assert_eq!(entry.total_fees(true), 150);
}

#[test]
fn full_relay_scenario() {
    let admin = addr(10);
    let call_service = addr(20);
    let attacker = addr(30);
    let mut connection = ConnectionState::new();
    assert_eq!(connection.initialize(admin, admin, call_service), Ok(()));
    assert_eq!(connection.set_fee(admin, String::from("eth"), 100, 50), Ok(()));
    assert_eq!(connection.get_fee(&String::from("eth"), true), Ok(150));
    let event = connection
        .send_message(call_service, String::from("eth"), String::from("svc"), 1, vec![1, 2, 3], 150)
        .expect("covered send succeeds");
    assert_eq!(event.destination_network, String::from("eth"));
    assert_eq!(event.assigned_sequence, 1);
    assert_eq!(event.payload, vec![1, 2, 3]);
    let attacked = connection.send_message(
        attacker,
        String::from("eth"),
        String::from("svc"),
        1,
        vec![1],
        150,
    );
    assert_eq!(attacked.unwrap_err(), ErrorCode::OnlyCallService);
    let mut service = RecordingService::new();
    let payload = vec![4, 5];
    assert_eq!(
        connection.recv_message(admin, String::from("eth"), 7, payload.clone(), &mut service),
        Ok(())
    );
    assert!(connection.get_receipt(&String::from("eth"), 7));
    assert_eq!(
        connection.recv_message(admin, String::from("eth"), 7, payload, &mut service),
        Err(ErrorCode::DuplicateMessage)
    );
}
