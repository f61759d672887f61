use dns_codec::errors::DecodeError;
use dns_codec::errors::EncodeError;
use dns_codec::fields::QueryClasses;
use dns_codec::fields::QueryTypes;
use dns_codec::flags::Flags;
use dns_codec::message::Answer;
use dns_codec::message::DnsQuery;
use dns_codec::name::decode_name;
use dns_codec::name::encode_name;
use dns_codec::query::build_standard_query;

fn query_message(id: u16, name: &str) -> DnsQuery {
    build_standard_query(name.as_bytes().to_vec(), id)
}

fn response_message(id: u16, name: &str, data: Vec<u8>) -> DnsQuery {
    let mut m = query_message(id, name);
    m.flags = Flags { flags: 0x8180 };
    m.number_of_answer_records = 1;
    m.answer = Some(Answer {
        name: name.as_bytes().to_vec(),
        query_type: QueryTypes::A,
        query_class: QueryClasses::IN,
        ttl: 300,
        data_length: data.len() as u16,
        data,
    });
    m
}

#[test]
fn name_encodes_as_length_prefixed_labels() {
    let encoded = encode_name(&b"www.example.com".to_vec()).unwrap();
    let expected = [
        &[3u8][..],
        b"www",
        &[7],
        b"example",
        &[3],
        b"com",
        &[0],
    ]
    .concat();
    assert_eq!(encoded, expected);
}

#[test]
fn root_name_encodes_as_single_zero_octet() {
    assert_eq!(encode_name(&Vec::new()).unwrap(), vec![0u8]);
}

#[test]
fn name_round_trips_through_the_wire_form() {
    let encoded = encode_name(&b"www.example.com".to_vec()).unwrap();
    let (name, consumed) = decode_name(&encoded, 0).unwrap();
    assert_eq!(name, b"www.example.com".to_vec());
    assert_eq!(consumed, encoded.len());
}

#[test]
fn long_label_fails_encode_with_label_too_long() {
    let mut name = vec![b'a'; 64];
    name.extend_from_slice(b".com");
    assert_eq!(encode_name(&name), Err(EncodeError::LabelTooLong));
    let query = query_message(7, std::str::from_utf8(&name).unwrap());
    assert_eq!(query.to_bytes(), Err(EncodeError::LabelTooLong));
}

#[test]
fn empty_label_fails_encode_with_label_too_long() {
    assert_eq!(
        encode_name(&b"www..com".to_vec()),
        Err(EncodeError::LabelTooLong)
    );
    assert_eq!(
        encode_name(&b".www.com".to_vec()),
        Err(EncodeError::LabelTooLong)
    );
    assert_eq!(
        encode_name(&b"www.com.".to_vec()),
        Err(EncodeError::LabelTooLong)
    );
}

#[test]
fn sixty_three_byte_label_is_accepted() {
    let name = vec![b'a'; 63];
    let encoded = encode_name(&name).unwrap();
    assert_eq!(encoded.len(), 65);
    assert_eq!(encoded[0], 63);
}

#[test]
fn query_message_round_trips() {
    let m = query_message(0x1234, "www.example.com");
    let bytes = m.to_bytes().unwrap();
    let decoded = DnsQuery::from_bytes(&bytes).unwrap();
    assert_eq!(decoded, m);
}

#[test]
fn response_with_answer_round_trips() {
    let m = response_message(0xBEEF, "example.com", vec![93, 184, 216, 34]);
    let bytes = m.to_bytes().unwrap();
    let decoded = DnsQuery::from_bytes(&bytes).unwrap();
    assert_eq!(decoded, m);
}

#[test]
fn standard_query_has_exact_wire_form() {
    let bytes = query_message(0x1234, "example.com").to_bytes().unwrap();
    let expected = [
        &[0x12u8, 0x34, 0x01, 0x00, 0, 1, 0, 0, 0, 0, 0, 0][..],
        &[7],
        b"example",
        &[3],
        b"com",
        &[0, 0, 1, 0, 1],
    ]
    .concat();
    assert_eq!(bytes, expected);
}

#[test]
fn decode_ignores_padding_after_the_message() {
    // a datagram buffer may be longer than the message it carries
    let m = response_message(0x0102, "example.com", vec![10, 0, 0, 1]);
    let mut bytes = m.to_bytes().unwrap();
    bytes.resize(512, 0);
    let decoded = DnsQuery::from_bytes(&bytes).unwrap();
    assert_eq!(decoded, m);
}

#[test]
fn counts_are_carried_through_a_round_trip() {
    let mut m = query_message(5, "example.com");
    m.number_of_resource_records = 7;
    m.number_of_additional_records = 9;
    let bytes = m.to_bytes().unwrap();
    let decoded = DnsQuery::from_bytes(&bytes).unwrap();
    assert_eq!(decoded, m);
}

#[test]
fn truncated_header_fails_decode_with_truncated() {
    for n in 0..12 {
        let short = vec![0u8; n];
        assert_eq!(DnsQuery::from_bytes(&short), Err(DecodeError::Truncated));
    }
}

#[test]
fn truncated_name_fails_decode_with_truncated() {
    let mut bytes = query_message(1, "example.com").to_bytes().unwrap();
    // cut the buffer inside the name's first label
    bytes.truncate(14);
    assert_eq!(DnsQuery::from_bytes(&bytes), Err(DecodeError::Truncated));
}

#[test]
fn overlong_rdlength_fails_decode_with_truncated() {
    let m = response_message(9, "example.com", vec![93, 184, 216, 34]);
    let mut bytes = m.to_bytes().unwrap();
    // RDLENGTH sits 4 + 2 bytes before the 4 data bytes at the end
    let i = bytes.len() - 6;
    bytes[i] = 0x10;
    bytes[i + 1] = 0;
    assert_eq!(DnsQuery::from_bytes(&bytes), Err(DecodeError::Truncated));
}

#[test]
fn unknown_query_type_fails_decode_with_unknown_enum_value() {
    let mut bytes = query_message(1, "example.com").to_bytes().unwrap();
    // the question's 2-byte type field precedes the 2-byte class field
    let i = bytes.len() - 4;
    bytes[i] = 0xFF;
    bytes[i + 1] = 0xFF;
    assert_eq!(
        DnsQuery::from_bytes(&bytes),
        Err(DecodeError::UnknownEnumValue)
    );
}

#[test]
fn compression_pointer_fails_decode_with_compression_unsupported() {
    let mut bytes = query_message(1, "example.com").to_bytes().unwrap();
    // overwrite the first length octet with a pointer octet (high bits 11)
    bytes[12] = 0xC0;
    assert_eq!(
        DnsQuery::from_bytes(&bytes),
        Err(DecodeError::CompressionUnsupported)
    );
}

#[test]
fn name_over_255_octets_fails_decode_with_name_too_long() {
    // 128 one-byte labels encode to 257 octets
    let name = vec![b'a'; 255]
        .chunks(1)
        .map(|c| std::str::from_utf8(c).unwrap())
        .collect::<Vec<_>>()
        .join(".");
    let m = query_message(1, &name);
    let bytes = m.to_bytes().unwrap();
    assert_eq!(DnsQuery::from_bytes(&bytes), Err(DecodeError::NameTooLong));
}

#[test]
fn two_answer_records_fail_decode_with_unsupported_record_count() {
    let mut bytes = query_message(1, "example.com").to_bytes().unwrap();
    bytes[7] = 2;
    assert_eq!(
        DnsQuery::from_bytes(&bytes),
        Err(DecodeError::UnsupportedRecordCount)
    );
}

#[test]
fn answer_decode_takes_owner_name_from_question() {
    let m = response_message(3, "example.com", vec![1, 2, 3, 4]);
    let bytes = m.to_bytes().unwrap();
    let decoded = DnsQuery::from_bytes(&bytes).unwrap();
    let answer = decoded.answer.unwrap();
    assert_eq!(answer.name, b"example.com".to_vec());
    assert_eq!(answer.ttl, 300);
    assert_eq!(answer.data_length, 4);
    assert_eq!(answer.data, vec![1, 2, 3, 4]);
}

#[test]
fn answer_from_bytes_reads_fixed_fields() {
    // type A, class IN, ttl 0x01020304, two data bytes
    let bytes = vec![0, 1, 0, 1, 1, 2, 3, 4, 0, 2, 0xAB, 0xCD];
    let a = Answer::from_bytes(&bytes, 0, &b"x".to_vec()).unwrap();
    assert_eq!(a.query_type, QueryTypes::A);
    assert_eq!(a.query_class, QueryClasses::IN);
    assert_eq!(a.ttl, 0x01020304);
    assert_eq!(a.data, vec![0xAB, 0xCD]);
}

#[test]
fn answer_from_bytes_checks_bounds() {
    let bytes = vec![0, 1, 0, 1, 0, 0, 0, 0, 0];
    assert_eq!(
        Answer::from_bytes(&bytes, 0, &Vec::new()),
        Err(DecodeError::Truncated)
    );
}
