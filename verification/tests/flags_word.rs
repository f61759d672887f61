use dns_codec::errors::DecodeError;
use dns_codec::fields::AuthoritativeAnswer;
use dns_codec::fields::MessageType;
use dns_codec::fields::QueryType;
use dns_codec::fields::RecursionAvailable;
use dns_codec::fields::RecursionDesired;
use dns_codec::fields::ResponseCode;
use dns_codec::fields::Truncation;
use dns_codec::flags::Flags;

// Words whose opcode and response-code fields are inside the closed sets,
// with varied surrounding bits.
const WORDS: [u16; 6] = [0x0000, 0x8180, 0x2901, 0x0102, 0xA583, 0x0500];

#[test]
fn setting_each_field_back_to_its_value_leaves_the_word_unchanged() {
    for w in WORDS {
        let mut f = Flags { flags: w };
        let t = f.get_message_type();
        f.set_message_type(t);
        let q = f.get_query_type().unwrap();
        f.set_query_type(q);
        let a = f.get_authoritative();
        f.set_authoritative(a);
        let tc = f.get_truncation();
        f.set_truncation(tc);
        let rd = f.get_recursion();
        f.set_recursion(rd);
        let ra = f.get_recursion_available();
        f.set_recursion_available(ra);
        let rc = f.get_response_code().unwrap();
        f.set_response_code(rc);
        assert_eq!(f.flags, w);
    }
}

#[test]
fn setting_one_field_leaves_the_other_fields_alone() {
    for w in WORDS {
        let mut f = Flags { flags: w };
        f.set_message_type(MessageType::Response);
        assert_eq!(f.flags & 0x7FFF, w & 0x7FFF);
        let mut f = Flags { flags: w };
        f.set_query_type(QueryType::Update);
        assert_eq!(f.flags & 0x87FF, w & 0x87FF);
        let mut f = Flags { flags: w };
        f.set_authoritative(AuthoritativeAnswer::Authoritative);
        assert_eq!(f.flags & 0xFBFF, w & 0xFBFF);
        let mut f = Flags { flags: w };
        f.set_truncation(Truncation::Exceeds512);
        assert_eq!(f.flags & 0xFDFF, w & 0xFDFF);
        let mut f = Flags { flags: w };
        f.set_recursion(RecursionDesired::Yes);
        assert_eq!(f.flags & 0xFEFF, w & 0xFEFF);
        let mut f = Flags { flags: w };
        f.set_recursion_available(RecursionAvailable::Yes);
        assert_eq!(f.flags & 0xFF7F, w & 0xFF7F);
        let mut f = Flags { flags: w };
        f.set_response_code(ResponseCode::Refused);
        assert_eq!(f.flags & 0xFFF0, w & 0xFFF0);
    }
}

#[test]
fn every_word_round_trips_all_its_readable_fields() {
    for w in 0..=u16::MAX {
        let mut f = Flags { flags: w };
        let t = f.get_message_type();
        f.set_message_type(t);
        let a = f.get_authoritative();
        f.set_authoritative(a);
        let tc = f.get_truncation();
        f.set_truncation(tc);
        let rd = f.get_recursion();
        f.set_recursion(rd);
        let ra = f.get_recursion_available();
        f.set_recursion_available(ra);
        if let Ok(q) = f.get_query_type() {
            f.set_query_type(q);
        }
        if let Ok(rc) = f.get_response_code() {
            f.set_response_code(rc);
        }
        assert_eq!(f.flags, w);
    }
}

#[test]
fn message_type_uses_one_convention_for_get_and_set() {
    // standard polarity: bit 15 clear is a query, set is a response
    assert_eq!(Flags { flags: 0x0000 }.get_message_type(), MessageType::Query);
    assert_eq!(
        Flags { flags: 0x8000 }.get_message_type(),
        MessageType::Response
    );
    let mut f = Flags::new();
    f.set_message_type(MessageType::Response);
    assert_eq!(f.flags, 0x8000);
    assert_eq!(f.get_message_type(), MessageType::Response);
    f.set_message_type(MessageType::Query);
    assert_eq!(f.flags, 0x0000);
    assert_eq!(f.get_message_type(), MessageType::Query);
}

#[test]
fn recursion_available_uses_one_convention_for_get_and_set() {
    let mut f = Flags::new();
    f.set_recursion_available(RecursionAvailable::Yes);
    assert_eq!(f.flags, 0x0080);
    assert_eq!(f.get_recursion_available(), RecursionAvailable::Yes);
    f.set_recursion_available(RecursionAvailable::No);
    assert_eq!(f.flags, 0x0000);
    assert_eq!(f.get_recursion_available(), RecursionAvailable::No);
}

#[test]
fn new_flags_word_is_all_zero() {
    assert_eq!(Flags::new().flags, 0);
}

#[test]
fn from_bytes_reads_big_endian() {
    let f = Flags::from_bytes(&[0x81, 0x80]);
    assert_eq!(f.flags, 0x8180);
}

#[test]
fn unknown_opcode_field_fails_with_unknown_enum_value() {
    // opcode field (bits 11-14) holding 3, which no opcode uses
    let f = Flags { flags: 3 << 11 };
    assert_eq!(f.get_query_type(), Err(DecodeError::UnknownEnumValue));
}

#[test]
fn unknown_response_code_field_fails_with_unknown_enum_value() {
    let f = Flags { flags: 0x000F };
    assert_eq!(f.get_response_code(), Err(DecodeError::UnknownEnumValue));
}

#[test]
fn known_fields_read_back_their_members() {
    let f = Flags { flags: 0x8180 };
    assert_eq!(f.get_message_type(), MessageType::Response);
    assert_eq!(f.get_query_type(), Ok(QueryType::StandardQuery));
    assert_eq!(f.get_authoritative(), AuthoritativeAnswer::NonAuthoritative);
    assert_eq!(f.get_truncation(), Truncation::NotExceeds512);
    assert_eq!(f.get_recursion(), RecursionDesired::Yes);
    assert_eq!(f.get_recursion_available(), RecursionAvailable::Yes);
    assert_eq!(f.get_response_code(), Ok(ResponseCode::NoError));
}
