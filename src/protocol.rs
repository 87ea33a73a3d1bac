use vstd::prelude::*;

use parsec_interface::operations::list_clients;
use parsec_interface::operations::{Convert, NativeOperation, NativeResult};
use parsec_interface::operations_protobuf::ProtobufConverter;
use parsec_interface::requests::request::Request;
use parsec_interface::requests::response::Response;
use parsec_interface::requests::{Opcode, ResponseStatus};

verus! {

/// The protocol library's status codes, carried through unread in encoding errors.
#[verifier::external_type_specification]
#[verifier::external_body]
pub struct ExResponseStatus(ResponseStatus);

/// Operation codes of the wire protocol that fixtures are framed under.
#[derive(Clone, Copy, Debug, PartialEq, Eq, Structural)]
pub enum WireOpcode {
    Ping,
    ListClients,
}

impl WireOpcode {
    /// The number that the protocol assigns to the opcode.
    pub open spec fn code(self) -> u32 {
        match self {
            WireOpcode::Ping => 0x0001,
            WireOpcode::ListClients => 0x001B,
        }
    }
}

/// Status codes that a response envelope can carry.
#[derive(Clone, Copy, Debug, PartialEq, Eq, Structural)]
pub enum Status {
    Success,
    PsaErrorNotSupported,
}

impl Status {
    /// The number that the protocol assigns to the status.
    pub open spec fn code(self) -> u16 {
        match self {
            Status::Success => 0,
            Status::PsaErrorNotSupported => 1134,
        }
    }

    pub open spec fn is_success(self) -> bool {
        self == Status::Success
    }
}

/// The characters of each client name, in order.
pub open spec fn names_view(names: Seq<String>) -> Seq<Seq<char>> {
    names.map_values(|s: String| s@)
}

/// The wire bytes of a ListClients request with the protocol's default header
/// and the given opcode, or `None` when the protocol library cannot encode it.
pub uninterp spec fn list_clients_request_envelope(opcode: u32) -> Option<Seq<u8>>;

/// The wire bytes of a response with the given opcode and status whose body is
/// the ListClients result listing `clients`, or `None` when the protocol
/// library cannot encode it.
pub uninterp spec fn list_clients_response_envelope(
    opcode: u32,
    status: u16,
    clients: Seq<Seq<char>>,
) -> Option<Seq<u8>>;

/// The standard base64 text of `bytes`, with padding.
pub uninterp spec fn base64_of(bytes: Seq<u8>) -> Seq<char>;

/// Relies on the discriminants of `parsec_interface::requests::Opcode`.
#[verifier::external_body]
pub(crate) fn opcode_number(op: WireOpcode) -> (r: u32)
    ensures
        r == op.code(),
{
    match op {
        WireOpcode::Ping => Opcode::Ping as u32,
        WireOpcode::ListClients => Opcode::ListClients as u32,
    }
}

/// Relies on `ProtobufConverter::operation_to_body` and
/// `Request::write_to_stream` of parsec_interface, on a request made by
/// `Request::new` (the library's default header) with the given opcode. Both
/// encode into a `Vec` and are deterministic, so the outcome depends on the
/// opcode alone; on failure the protocol library's status is handed back.
#[verifier::external_body]
pub(crate) fn encode_list_clients_request(opcode: WireOpcode) -> (r: Result<Vec<u8>, ResponseStatus>)
    ensures
        r is Ok <==> list_clients_request_envelope(opcode.code()) is Some,
        r is Ok ==> r->Ok_0@ == list_clients_request_envelope(opcode.code())->0,
{
    let op = NativeOperation::ListClients(list_clients::Operation);
    let mut request = Request::new();
    request.header.opcode = match opcode {
        WireOpcode::Ping => Opcode::Ping,
        WireOpcode::ListClients => Opcode::ListClients,
    };
    request.body = ProtobufConverter.operation_to_body(op)?;
    let mut bytes = Vec::new();
    request.write_to_stream(&mut bytes)?;
    Ok(bytes)
}

/// Relies on `ProtobufConverter::result_to_body` and
/// `Response::write_to_stream` of parsec_interface, on a response made by
/// `Response::from_request_header` from the default request header with the
/// given opcode, and the given status. Both encode into a `Vec` and are
/// deterministic, so the outcome depends on the arguments alone; on failure
/// the protocol library's status is handed back.
#[verifier::external_body]
pub(crate) fn encode_list_clients_response(
    opcode: WireOpcode,
    status: Status,
    clients: Vec<String>,
) -> (r: Result<Vec<u8>, ResponseStatus>)
    ensures
        r is Ok <==> list_clients_response_envelope(opcode.code(), status.code(), names_view(clients@)) is Some,
        r is Ok ==> r->Ok_0@ == list_clients_response_envelope(opcode.code(), status.code(), names_view(clients@))->0,
{
    let result = NativeResult::ListClients(list_clients::Result { clients });
    let mut header = Request::new().header;
    header.opcode = match opcode {
        WireOpcode::Ping => Opcode::Ping,
        WireOpcode::ListClients => Opcode::ListClients,
    };
    let status = match status {
        Status::Success => ResponseStatus::Success,
        Status::PsaErrorNotSupported => ResponseStatus::PsaErrorNotSupported,
    };
    let mut response = Response::from_request_header(header, status);
    response.body = ProtobufConverter.result_to_body(result)?;
    let mut bytes = Vec::new();
    response.write_to_stream(&mut bytes)?;
    Ok(bytes)
}

/// Relies on `base64::encode`: standard alphabet, with padding, which depends
/// on the bytes alone.
#[verifier::external_body]
pub(crate) fn to_base64(bytes: &Vec<u8>) -> (r: String)
    ensures
        r@ == base64_of(bytes@),
{
    base64::encode(bytes)
}

} // verus!
