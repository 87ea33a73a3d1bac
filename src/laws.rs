use vstd::prelude::*;

use crate::fixture::{
    fail_name, frame_opcode, is_list_clients_suite, normal_name, response_clients, status_for,
    suite_outcome, FixtureError, OperationKind, RequestData, TestCase, TestSuite,
};
use crate::protocol::{base64_of, list_clients_request_envelope, list_clients_response_envelope};

verus! {

/// Two fixtures hold the same text and the same logical values.
pub open spec fn same_case(a: TestCase, b: TestCase) -> bool {
    &&& a.name@ == b.name@
    &&& a.request_data == b.request_data
    &&& a.expected_request_binary@ == b.expected_request_binary@
    &&& a.response_binary@ == b.response_binary@
    &&& response_clients(a.expected_response) == response_clients(b.expected_response)
    &&& a.expect_success == b.expect_success
}

/// Two suites hold the same operation number and the same fixtures, in order.
pub open spec fn same_suite(a: TestSuite, b: TestSuite) -> bool {
    &&& a.op_code == b.op_code
    &&& a.tests@.len() == b.tests@.len()
    &&& forall|i: int| 0 <= i < a.tests@.len() ==> same_case(#[trigger] a.tests@[i], b.tests@[i])
}

/// In every fixture of a built suite, the request binary is the base64 text of
/// the envelope of the fixture's logical request, and the response binary that
/// of the envelope of its logical result under the status that its success
/// flag stands for: what a decoder reads back is what the fixture expects.
pub proof fn lemma_binaries_encode_logical_values(kind: OperationKind, s: TestSuite)
    requires
        suite_outcome(kind, Ok(s)),
    ensures
        forall|i: int|
            0 <= i < s.tests@.len() ==> {
                let tc = #[trigger] s.tests@[i];
                let request = list_clients_request_envelope(frame_opcode().code());
                let response = list_clients_response_envelope(
                    frame_opcode().code(),
                    status_for(tc.expect_success).code(),
                    response_clients(tc.expected_response),
                );
                &&& tc.request_data == RequestData::ListClients
                &&& request is Some
                &&& tc.expected_request_binary@ == base64_of(request->0)
                &&& response is Some
                &&& tc.response_binary@ == base64_of(response->0)
            },
{
}

/// Building the suite of one operation kind twice gives the same outcome:
/// both fail, or both give suites with the same text and values.
pub proof fn lemma_build_is_deterministic(
    kind: OperationKind,
    a: Result<TestSuite, FixtureError>,
    b: Result<TestSuite, FixtureError>,
)
    requires
        suite_outcome(kind, a),
        suite_outcome(kind, b),
    ensures
        a is Ok <==> b is Ok,
        a is Ok ==> same_suite(a->Ok_0, b->Ok_0),
{
}

/// No two fixtures of a built suite share a name.
pub proof fn lemma_names_unique(kind: OperationKind, s: TestSuite)
    requires
        suite_outcome(kind, Ok(s)),
    ensures
        forall|i: int, j: int|
            0 <= i < s.tests@.len() && 0 <= j < s.tests@.len() && i != j ==> #[trigger] s.tests@[i].name@
                != #[trigger] s.tests@[j].name@,
{
    assert(is_list_clients_suite(s));
    reveal_strlit("normal_response");
    reveal_strlit("fail_response");
    assert(normal_name().len() != fail_name().len());
}

} // verus!
