use dns_codec::errors::DecodeError;
use dns_codec::errors::QueryError;
use dns_codec::errors::TransportError;
use dns_codec::fields::QueryClasses;
use dns_codec::fields::QueryTypes;
use dns_codec::fields::opcode_from_u16;
use dns_codec::fields::record_class_from_u16;
use dns_codec::fields::record_class_value;
use dns_codec::fields::record_type_from_u16;
use dns_codec::fields::record_type_value;
use dns_codec::fields::response_code_from_u16;
use dns_codec::flags::Flags;
use dns_codec::message::Answer;
use dns_codec::message::DnsQuery;
use dns_codec::query::Ipv4Address;
use dns_codec::query::build_standard_query;
use dns_codec::query::interpret_response;
use dns_codec::query::resolve_outcome;

// A resolver that echoes a canned valid response: the request's
// identification, its question, and one A answer with the given data.
fn canned_response(request: &DnsQuery, data: Vec<u8>) -> Vec<u8> {
    let mut m = request.clone();
    m.flags = Flags { flags: 0x8180 };
    m.number_of_answer_records = 1;
    m.answer = Some(Answer {
        name: request.query_name.clone(),
        query_type: QueryTypes::A,
        query_class: QueryClasses::IN,
        ttl: 3600,
        data_length: data.len() as u16,
        data,
    });
    m.to_bytes().unwrap()
}

#[test]
fn standard_query_shape() {
    let q = build_standard_query(b"example.com".to_vec(), 567);
    assert_eq!(q.identification, 567);
    assert_eq!(q.flags.flags, 0x0100);
    assert_eq!(q.number_of_questions, 1);
    assert_eq!(q.number_of_answer_records, 0);
    assert_eq!(q.number_of_resource_records, 0);
    assert_eq!(q.number_of_additional_records, 0);
    assert_eq!(q.query_name, b"example.com".to_vec());
    assert_eq!(q.query_type, QueryTypes::A);
    assert_eq!(q.query_class, QueryClasses::IN);
    assert_eq!(q.answer, None);
}

#[test]
fn echoed_response_resolves_to_the_answer_address() {
    let q = build_standard_query(b"example.com".to_vec(), 567);
    let response = canned_response(&q, vec![93, 184, 216, 34]);
    assert_eq!(
        resolve_outcome(567, Ok(response)),
        Ok(Ipv4Address(93, 184, 216, 34))
    );
}

#[test]
fn mismatched_identification_fails_resolve() {
    let q = build_standard_query(b"example.com".to_vec(), 567);
    let response = canned_response(&q, vec![93, 184, 216, 34]);
    assert_eq!(
        resolve_outcome(568, Ok(response)),
        Err(QueryError::IdentificationMismatch)
    );
}

#[test]
fn transport_timeout_fails_resolve_with_timeout() {
    assert_eq!(
        resolve_outcome(567, Err(TransportError::Timeout)),
        Err(QueryError::Timeout)
    );
}

#[test]
fn transport_failure_fails_resolve_with_io() {
    assert_eq!(
        resolve_outcome(567, Err(TransportError::Io)),
        Err(QueryError::Io)
    );
}

#[test]
fn response_without_answer_fails_with_unexpected_answer() {
    let q = build_standard_query(b"example.com".to_vec(), 42);
    let response = q.to_bytes().unwrap();
    assert_eq!(
        interpret_response(42, &response),
        Err(QueryError::UnexpectedAnswer)
    );
}

#[test]
fn answer_with_wrong_data_length_fails_with_unexpected_answer() {
    let q = build_standard_query(b"example.com".to_vec(), 42);
    let response = canned_response(&q, vec![127, 0, 1]);
    assert_eq!(
        interpret_response(42, &response),
        Err(QueryError::UnexpectedAnswer)
    );
}

#[test]
fn answer_of_other_record_type_fails_with_unexpected_answer() {
    let q = build_standard_query(b"example.com".to_vec(), 42);
    let mut m = q.clone();
    m.flags = Flags { flags: 0x8180 };
    m.number_of_answer_records = 1;
    m.answer = Some(Answer {
        name: q.query_name.clone(),
        query_type: QueryTypes::TXT,
        query_class: QueryClasses::IN,
        ttl: 60,
        data_length: 4,
        data: vec![9, 9, 9, 9],
    });
    let response = m.to_bytes().unwrap();
    assert_eq!(
        interpret_response(42, &response),
        Err(QueryError::UnexpectedAnswer)
    );
}

#[test]
fn malformed_response_fails_resolve_with_decode_error() {
    assert_eq!(
        resolve_outcome(1, Ok(vec![0u8; 5])),
        Err(QueryError::Decode(DecodeError::Truncated))
    );
}

#[test]
fn enumeration_wire_values_round_trip() {
    assert_eq!(record_type_value(QueryTypes::A), 1);
    assert_eq!(record_type_from_u16(1), Some(QueryTypes::A));
    assert_eq!(record_type_value(QueryTypes::AAAA), 28);
    assert_eq!(record_type_from_u16(28), Some(QueryTypes::AAAA));
    assert_eq!(record_type_value(QueryTypes::DLV), 32769);
    assert_eq!(record_type_from_u16(32769), Some(QueryTypes::DLV));
    assert_eq!(record_type_from_u16(0xFFFF), None);
    assert_eq!(record_class_value(QueryClasses::IN), 1);
    assert_eq!(record_class_from_u16(255), Some(QueryClasses::ANY));
    assert_eq!(record_class_from_u16(0), None);
    assert_eq!(
        opcode_from_u16(2),
        Some(dns_codec::fields::QueryType::ServerStatusRequest)
    );
    assert_eq!(opcode_from_u16(3), None);
    assert_eq!(
        response_code_from_u16(5),
        Some(dns_codec::fields::ResponseCode::Refused)
    );
    assert_eq!(response_code_from_u16(6), None);
}
