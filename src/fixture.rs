use vstd::prelude::*;

use crate::protocol::{
    base64_of, encode_list_clients_request, encode_list_clients_response,
    list_clients_request_envelope, list_clients_response_envelope, names_view, opcode_number,
    to_base64, Status, WireOpcode,
};
use parsec_interface::requests::ResponseStatus;

verus! {

/// The operations that fixture suites are built for.
#[derive(Clone, Copy, Debug, PartialEq, Eq, Structural)]
pub enum OperationKind {
    ListClients,
}

/// The logical body of a request.
#[derive(Clone, Copy, Debug, PartialEq, Eq, Structural)]
pub enum RequestData {
    /// A ListClients operation, which has no fields.
    ListClients,
}

/// The logical result that a response is expected to decode to.
#[derive(Clone, Debug)]
pub enum ResponseData {
    /// A ListClients result: the client names, in order.
    ListClients { clients: Vec<String> },
}

/// One fixture: a request and a response envelope, base64-encoded, with the
/// logical values that they encode and whether the response reports success.
#[derive(Clone, Debug)]
pub struct TestCase {
    pub name: String,
    pub request_data: RequestData,
    pub expected_request_binary: String,
    pub response_binary: String,
    pub expected_response: ResponseData,
    pub expect_success: bool,
}

/// The fixtures of one operation, with the number of that operation.
#[derive(Clone, Debug)]
pub struct TestSuite {
    pub op_code: u32,
    pub tests: Vec<TestCase>,
}

/// Building a suite fails only when the protocol library cannot encode an
/// envelope; its status is kept.
#[derive(Debug)]
pub enum FixtureError {
    Encoding(ResponseStatus),
}

/// The opcode that every fixture envelope is framed under: a placeholder, the
/// operation itself being told by the body.
pub open spec fn frame_opcode() -> WireOpcode {
    WireOpcode::Ping
}

/// The client names that a response is expected to decode to.
pub open spec fn response_clients(r: ResponseData) -> Seq<Seq<char>> {
    match r {
        ResponseData::ListClients { clients } => names_view(clients@),
    }
}

/// The status that a response carries, given whether it reports success.
pub open spec fn status_for(success: bool) -> Status {
    if success {
        Status::Success
    } else {
        Status::PsaErrorNotSupported
    }
}

pub open spec fn normal_name() -> Seq<char> {
    "normal_response"@
}

pub open spec fn fail_name() -> Seq<char> {
    "fail_response"@
}

/// The clients listed by the successful fixture.
pub open spec fn normal_clients() -> Seq<Seq<char>> {
    seq!["jim"@, "bob"@]
}

/// Both envelopes of a ListClients fixture can be encoded.
pub open spec fn encodable(status: Status, clients: Seq<Seq<char>>) -> bool {
    &&& list_clients_request_envelope(frame_opcode().code()) is Some
    &&& list_clients_response_envelope(frame_opcode().code(), status.code(), clients) is Some
}

/// `tc` is the ListClients fixture named `name` whose response lists `clients`
/// under `status`: its binaries are the base64 text of the envelopes of its
/// logical values.
pub open spec fn is_fixture(tc: TestCase, name: Seq<char>, status: Status, clients: Seq<Seq<char>>) -> bool {
    &&& tc.name@ == name
    &&& tc.request_data == RequestData::ListClients
    &&& response_clients(tc.expected_response) == clients
    &&& tc.expect_success == status.is_success()
    &&& encodable(status, clients)
    &&& tc.expected_request_binary@ == base64_of(
        list_clients_request_envelope(frame_opcode().code())->0,
    )
    &&& tc.response_binary@ == base64_of(
        list_clients_response_envelope(frame_opcode().code(), status.code(), clients)->0,
    )
}

/// The successful fixture: an empty request, answered with success and the
/// clients "jim" and "bob", in that order.
pub open spec fn is_normal_fixture(tc: TestCase) -> bool {
    is_fixture(tc, normal_name(), Status::Success, normal_clients())
}

/// The failing fixture: an empty request, answered with an unsupported
/// operation status and no client.
pub open spec fn is_fail_fixture(tc: TestCase) -> bool {
    is_fixture(tc, fail_name(), Status::PsaErrorNotSupported, Seq::empty())
}

/// Every envelope of the ListClients suite can be encoded.
pub open spec fn suite_encodable() -> bool {
    &&& encodable(Status::Success, normal_clients())
    &&& encodable(Status::PsaErrorNotSupported, Seq::empty())
}

/// `s` is the ListClients suite: the successful fixture, then the failing one.
pub open spec fn is_list_clients_suite(s: TestSuite) -> bool {
    &&& s.op_code == WireOpcode::ListClients.code()
    &&& s.tests@.len() == 2
    &&& is_normal_fixture(s.tests@[0])
    &&& is_fail_fixture(s.tests@[1])
}

/// What building the ListClients suite returns: the suite exactly when every
/// envelope can be encoded, an encoding error otherwise.
pub open spec fn list_clients_outcome(r: Result<TestSuite, FixtureError>) -> bool {
    &&& r is Ok <==> suite_encodable()
    &&& r is Ok ==> is_list_clients_suite(r->Ok_0)
}

/// What building the suite of `kind` returns.
pub open spec fn suite_outcome(kind: OperationKind, r: Result<TestSuite, FixtureError>) -> bool {
    match kind {
        OperationKind::ListClients => list_clients_outcome(r),
    }
}

/// The ListClients fixture named `name` whose response carries `status` and
/// lists `clients`.
fn list_clients_fixture(name: &str, status: Status, clients: Vec<String>) -> (r: Result<TestCase, FixtureError>)
    ensures
        r is Ok <==> encodable(status, names_view(clients@)),
        r is Ok ==> is_fixture(r->Ok_0, name@, status, names_view(clients@)),
{
    let request = match encode_list_clients_request(WireOpcode::Ping) {
        Ok(bytes) => bytes,
        Err(e) => return Err(FixtureError::Encoding(e)),
    };
    let response = match encode_list_clients_response(WireOpcode::Ping, status, clients.clone()) {
        Ok(bytes) => bytes,
        Err(e) => return Err(FixtureError::Encoding(e)),
    };
    let expect_success = match status {
        Status::Success => true,
        _ => false,
    };
    Ok(TestCase {
        name: name.to_owned(),
        request_data: RequestData::ListClients,
        expected_request_binary: to_base64(&request),
        response_binary: to_base64(&response),
        expected_response: ResponseData::ListClients { clients },
        expect_success,
    })
}

/// The successful fixture: "jim" and "bob" listed under a success status.
pub fn create_test_good() -> (r: Result<TestCase, FixtureError>)
    ensures
        r is Ok <==> encodable(Status::Success, normal_clients()),
        r is Ok ==> is_normal_fixture(r->Ok_0),
{
    let clients: Vec<String> = vec!["jim".to_owned(), "bob".to_owned()];
    assert(names_view(clients@) =~= normal_clients());
    list_clients_fixture("normal_response", Status::Success, clients)
}

/// The failing fixture: no client, under an unsupported operation status.
pub fn create_test_fail() -> (r: Result<TestCase, FixtureError>)
    ensures
        r is Ok <==> encodable(Status::PsaErrorNotSupported, Seq::empty()),
        r is Ok ==> is_fail_fixture(r->Ok_0),
{
    let clients: Vec<String> = Vec::new();
    assert(names_view(clients@) =~= Seq::<Seq<char>>::empty());
    list_clients_fixture("fail_response", Status::PsaErrorNotSupported, clients)
}

/// The fixtures of the ListClients suite: the successful one, then the
/// failing one; the first encoding error ends the build.
pub fn create_tests() -> (r: Result<Vec<TestCase>, FixtureError>)
    ensures
        r is Ok <==> suite_encodable(),
        r is Ok ==> r->Ok_0@.len() == 2 && is_normal_fixture(r->Ok_0@[0]) && is_fail_fixture(
            r->Ok_0@[1],
        ),
{
    let good = create_test_good()?;
    let fail = create_test_fail()?;
    Ok(vec![good, fail])
}

/// The ListClients suite, under the number of the ListClients operation.
pub fn create_test_suite() -> (r: Result<TestSuite, FixtureError>)
    ensures
        list_clients_outcome(r),
{
    let tests = create_tests()?;
    Ok(TestSuite { op_code: opcode_number(WireOpcode::ListClients), tests })
}

/// The fixture suite of an operation kind.
pub fn build_suite(kind: OperationKind) -> (r: Result<TestSuite, FixtureError>)
    ensures
        suite_outcome(kind, r),
{
    match kind {
        OperationKind::ListClients => create_test_suite(),
    }
}

} // verus!
