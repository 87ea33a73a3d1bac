use parsec_interface::operations::{Convert, NativeOperation, NativeResult};
use parsec_interface::operations_protobuf::ProtobufConverter;
use parsec_interface::requests::request::Request;
use parsec_interface::requests::response::Response;
use parsec_interface::requests::{Opcode, ResponseStatus};
use test_data_generator::fixture::{
    build_suite, create_test_fail, create_test_good, create_test_suite, create_tests,
    OperationKind, RequestData, ResponseData, TestCase,
};

fn clients_of(data: &ResponseData) -> Vec<String> {
    match data {
        ResponseData::ListClients { clients } => clients.clone(),
    }
}

fn decode_request(text: &str) -> (Opcode, NativeOperation) {
    let bytes = base64::decode(text).expect("request binary is not base64");
    let request = Request::read_from_stream(&mut &bytes[..], 1 << 16).expect("bad request envelope");
    let opcode = request.header.opcode;
    let op = ProtobufConverter
        .body_to_operation(request.body, Opcode::ListClients)
        .expect("bad request body");
    (opcode, op)
}

fn decode_response(text: &str) -> (Opcode, ResponseStatus, Vec<String>) {
    let bytes = base64::decode(text).expect("response binary is not base64");
    let response = Response::read_from_stream(&mut &bytes[..], 1 << 16).expect("bad response envelope");
    let header = response.header;
    let result = ProtobufConverter
        .body_to_result(response.body, Opcode::ListClients)
        .expect("bad response body");
    match result {
        NativeResult::ListClients(r) => (header.opcode, header.status, r.clients),
        other => panic!("unexpected result {:?}", other),
    }
}

fn assert_same_case(a: &TestCase, b: &TestCase) {
    assert_eq!(a.name, b.name);
    assert_eq!(a.request_data, b.request_data);
    assert_eq!(a.expected_request_binary, b.expected_request_binary);
    assert_eq!(a.response_binary, b.response_binary);
    assert_eq!(clients_of(&a.expected_response), clients_of(&b.expected_response));
    assert_eq!(a.expect_success, b.expect_success);
}

#[test]
fn normal_response_request_decodes_to_empty_list_clients() {
    let tc = create_test_good().unwrap();
    assert_eq!(tc.name, "normal_response");
    assert_eq!(tc.request_data, RequestData::ListClients);
    let (opcode, op) = decode_request(&tc.expected_request_binary);
    assert_eq!(opcode, Opcode::Ping);
    assert!(matches!(op, NativeOperation::ListClients(_)));
}

#[test]
fn normal_response_decodes_to_jim_and_bob() {
    let tc = create_test_good().unwrap();
    let (opcode, status, clients) = decode_response(&tc.response_binary);
    assert_eq!(opcode, Opcode::Ping);
    assert_eq!(status, ResponseStatus::Success);
    assert_eq!(clients, vec!["jim".to_string(), "bob".to_string()]);
    assert_eq!(clients_of(&tc.expected_response), vec!["jim".to_string(), "bob".to_string()]);
    assert!(tc.expect_success);
}

#[test]
fn fail_response_decodes_to_not_supported() {
    let tc = create_test_fail().unwrap();
    assert_eq!(tc.name, "fail_response");
    let (_, op) = decode_request(&tc.expected_request_binary);
    assert!(matches!(op, NativeOperation::ListClients(_)));
    let (opcode, status, clients) = decode_response(&tc.response_binary);
    assert_eq!(opcode, Opcode::Ping);
    assert_eq!(status, ResponseStatus::PsaErrorNotSupported);
    assert!(clients.is_empty());
    assert!(clients_of(&tc.expected_response).is_empty());
    assert!(!tc.expect_success);
}

#[test]
fn every_case_decodes_to_its_logical_values() {
    let suite = create_test_suite().unwrap();
    for tc in &suite.tests {
        let (_, op) = decode_request(&tc.expected_request_binary);
        match (op, tc.request_data) {
            (NativeOperation::ListClients(_), RequestData::ListClients) => {}
            (other, _) => panic!("unexpected operation {:?}", other),
        }
        let (_, status, clients) = decode_response(&tc.response_binary);
        assert_eq!(status == ResponseStatus::Success, tc.expect_success);
        assert_eq!(clients, clients_of(&tc.expected_response));
    }
}

#[test]
fn building_twice_gives_identical_suites() {
    let a = create_test_suite().unwrap();
    let b = create_test_suite().unwrap();
    assert_eq!(a.op_code, b.op_code);
    assert_eq!(a.tests.len(), b.tests.len());
    for (x, y) in a.tests.iter().zip(b.tests.iter()) {
        assert_same_case(x, y);
    }
}

#[test]
fn case_names_are_unique() {
    let suite = create_test_suite().unwrap();
    for i in 0..suite.tests.len() {
        for j in 0..suite.tests.len() {
            if i != j {
                assert_ne!(suite.tests[i].name, suite.tests[j].name);
            }
        }
    }
}

#[test]
fn suite_is_numbered_by_list_clients() {
    let suite = create_test_suite().unwrap();
    assert_eq!(suite.op_code, 0x1B);
    assert_eq!(suite.op_code, Opcode::ListClients as u32);
}

#[test]
fn tests_come_good_then_fail() {
    let tests = create_tests().unwrap();
    assert_eq!(tests.len(), 2);
    assert_same_case(&tests[0], &create_test_good().unwrap());
    assert_same_case(&tests[1], &create_test_fail().unwrap());
}

#[test]
fn binaries_are_base64_text() {
    let tc = create_test_good().unwrap();
    for text in [&tc.expected_request_binary, &tc.response_binary] {
        let bytes = base64::decode(text).unwrap();
        assert_eq!(&base64::encode(&bytes), text);
        assert_eq!(text.len(), (bytes.len() + 2) / 3 * 4);
        assert_ne!(text.as_bytes(), &bytes[..]);
    }
}

#[test]
fn build_suite_gives_the_list_clients_suite() {
    let built = build_suite(OperationKind::ListClients).unwrap();
    let direct = create_test_suite().unwrap();
    assert_eq!(built.op_code, direct.op_code);
    assert_eq!(built.tests.len(), 2);
    for (x, y) in built.tests.iter().zip(direct.tests.iter()) {
        assert_same_case(x, y);
    }
}
