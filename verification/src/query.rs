//! One request/response exchange: building the outgoing query and
//! interpreting the datagram that comes back.
//!
//! The transport is a collaborator: the caller sends the encoded query,
//! waits with a bounded timeout, and hands whatever happened — a datagram
//! or a transport failure — to `resolve_outcome`, which decides the result
//! of the exchange for every possible outcome.

use vstd::prelude::*;

use crate::errors::QueryError;
use crate::errors::TransportError;
use crate::fields::MessageType;
use crate::fields::QueryClasses;
use crate::fields::QueryType;
use crate::fields::QueryTypes;
use crate::fields::RecursionDesired;
use crate::fields::Truncation;
use crate::flags::Flags;
use crate::flags::spec_set_message_type;
use crate::flags::spec_set_query_type;
use crate::flags::spec_set_recursion;
use crate::flags::spec_set_truncation;
use crate::message::DnsQuery;
use crate::message::SpecMessage;
use crate::message::spec_decode_message;

verus! {

/// The four octets of a resolved IPv4 address, highest first.
#[derive(Debug, Clone, Copy, PartialEq, Eq, Structural)]
pub struct Ipv4Address(pub u8, pub u8, pub u8, pub u8);

/// The flag word a query is sent with: a query of the given opcode, not
/// truncated, recursion as asked, every other field zero.
pub open spec fn spec_query_flags(opcode: QueryType, recursion: RecursionDesired) -> u16 {
    spec_set_recursion(
        spec_set_truncation(
            spec_set_query_type(spec_set_message_type(0, MessageType::Query), opcode),
            Truncation::NotExceeds512,
        ),
        recursion,
    )
}

/// What one exchange yields for a given response datagram: the decoded
/// message must carry the request's identification and exactly one A
/// answer of four data bytes, which are the address octets in order.
pub open spec fn spec_interpret_response(request_id: u16, bytes: Seq<u8>) -> Result<
    Ipv4Address,
    QueryError,
> {
    match spec_decode_message(bytes) {
        Err(e) => Err(QueryError::Decode(e)),
        Ok(m) => {
            if m.identification != request_id {
                Err(QueryError::IdentificationMismatch)
            } else {
                match m.answer {
                    Option::None => Err(QueryError::UnexpectedAnswer),
                    Option::Some(a) => {
                        if a.query_type == QueryTypes::A && a.data.len() == 4 {
                            Ok(Ipv4Address(a.data[0], a.data[1], a.data[2], a.data[3]))
                        } else {
                            Err(QueryError::UnexpectedAnswer)
                        }
                    },
                }
            }
        },
    }
}

/// What one exchange yields for every transport outcome: a timeout or a
/// socket failure becomes the matching query error, and a datagram is
/// interpreted as `spec_interpret_response` says.
pub open spec fn spec_resolve_outcome(request_id: u16, outcome: Result<
    Seq<u8>,
    TransportError,
>) -> Result<Ipv4Address, QueryError> {
    match outcome {
        Err(TransportError::Timeout) => Err(QueryError::Timeout),
        Err(TransportError::Io) => Err(QueryError::Io),
        Ok(bytes) => spec_interpret_response(request_id, bytes),
    }
}

/// Builds a query message: one question for the given name, type and
/// class, the given identification, no answer, and a flag word holding
/// exactly the query bit, the opcode, and the recursion wish.
pub fn build_query(
    query_name: Vec<u8>,
    identification: u16,
    query_type: QueryTypes,
    query_class: QueryClasses,
    opcode: QueryType,
    recursion: RecursionDesired,
) -> (r: DnsQuery)
    ensures
        r@ == (SpecMessage {
            identification: identification,
            flags: spec_query_flags(opcode, recursion),
            number_of_questions: 1,
            number_of_answer_records: 0,
            number_of_resource_records: 0,
            number_of_additional_records: 0,
            query_name: query_name@,
            query_type: query_type,
            query_class: query_class,
            answer: Option::None,
        }),
{
    let mut flags = Flags::new();
    flags.set_message_type(MessageType::Query);
    flags.set_query_type(opcode);
    flags.set_truncation(Truncation::NotExceeds512);
    flags.set_recursion(recursion);
    let r = DnsQuery {
        identification,
        flags,
        number_of_questions: 1,
        number_of_answer_records: 0,
        number_of_resource_records: 0,
        number_of_additional_records: 0,
        query_name,
        query_type,
        query_class,
        answer: None,
    };
    proof {
        assert(r@ =~~= (SpecMessage {
            identification: identification,
            flags: spec_query_flags(opcode, recursion),
            number_of_questions: 1,
            number_of_answer_records: 0,
            number_of_resource_records: 0,
            number_of_additional_records: 0,
            query_name: r.query_name@,
            query_type: query_type,
            query_class: query_class,
            answer: Option::None,
        }));
    }
    r
}

/// Builds the standard query of one resolve exchange: type A, class IN,
/// standard opcode, recursion desired, not truncated. Its flag word is
/// exactly the recursion-desired bit.
pub fn build_standard_query(query_name: Vec<u8>, identification: u16) -> (r: DnsQuery)
    ensures
        r@ == (SpecMessage {
            identification: identification,
            flags: 0x0100,
            number_of_questions: 1,
            number_of_answer_records: 0,
            number_of_resource_records: 0,
            number_of_additional_records: 0,
            query_name: query_name@,
            query_type: QueryTypes::A,
            query_class: QueryClasses::IN,
            answer: Option::None,
        }),
{
    proof {
        assert(((((0u16 & 0x7FFF) & 0x87FF) | (0u16 << 11u16)) & 0xFDFF) | 0x0100 == 0x0100)
            by (bit_vector);
    }
    build_query(
        query_name,
        identification,
        QueryTypes::A,
        QueryClasses::IN,
        QueryType::StandardQuery,
        RecursionDesired::Yes,
    )
}

/// Interprets a response datagram against the request's identification,
/// exactly as `spec_interpret_response` decides it.
pub fn interpret_response(request_id: u16, bytes: &Vec<u8>) -> (r: Result<Ipv4Address, QueryError>)
    ensures
        r == spec_interpret_response(request_id, bytes@),
{
    let m = match DnsQuery::from_bytes(bytes) {
        Ok(m) => m,
        Err(e) => {
            return Err(QueryError::Decode(e));
        },
    };
    if m.identification != request_id {
        return Err(QueryError::IdentificationMismatch);
    }
    match m.answer {
        None => Err(QueryError::UnexpectedAnswer),
        Some(a) => {
            if a.query_type == QueryTypes::A && a.data.len() == 4 {
                Ok(Ipv4Address(a.data[0], a.data[1], a.data[2], a.data[3]))
            } else {
                Err(QueryError::UnexpectedAnswer)
            }
        },
    }
}

/// Decides one whole exchange from what the transport reported: a timeout
/// fails with `Timeout`, a socket failure with `Io`, and a datagram is
/// interpreted against the request's identification.
pub fn resolve_outcome(request_id: u16, outcome: Result<Vec<u8>, TransportError>) -> (r: Result<
    Ipv4Address,
    QueryError,
>)
    ensures
        r == spec_resolve_outcome(
            request_id,
            match outcome {
                Ok(v) => Ok::<Seq<u8>, TransportError>(v@),
                Err(e) => Err::<Seq<u8>, TransportError>(e),
            },
        ),
{
    match outcome {
        Err(TransportError::Timeout) => Err(QueryError::Timeout),
        Err(TransportError::Io) => Err(QueryError::Io),
        Ok(bytes) => interpret_response(request_id, &bytes),
    }
}

} // verus!
