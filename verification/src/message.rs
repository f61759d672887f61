//! The whole-message codec: 12-byte header, question section, and an
//! optional single answer record, over one datagram buffer.

use vstd::prelude::*;

use crate::errors::DecodeError;
use crate::errors::EncodeError;
use crate::fields::QueryClasses;
use crate::fields::QueryTypes;
use crate::fields::record_class_from_u16;
use crate::fields::record_class_value;
use crate::fields::record_type_from_u16;
use crate::fields::record_type_value;
use crate::fields::spec_record_class_from_u16;
use crate::fields::spec_record_class_value;
use crate::fields::spec_record_type_from_u16;
use crate::fields::spec_record_type_value;
use crate::flags::Flags;
use crate::name::decode_name;
use crate::name::encode_name;
use crate::name::lemma_decode_encoded_name;
use crate::name::spec_decode_name;
use crate::name::spec_encode_name;
use crate::name::valid_name;
use crate::wire::push_range;
use crate::wire::push_u16;
use crate::wire::push_u32;
use crate::wire::read_u16;
use crate::wire::read_u32;
use crate::wire::spec_be16;
use crate::wire::spec_be32;
use crate::wire::spec_u16_of;
use crate::wire::spec_u32_of;

verus! {

/// The mathematical shape of an answer record.
#[verifier::ext_equal]
pub struct SpecAnswer {
    pub name: Seq<u8>,
    pub query_type: QueryTypes,
    pub query_class: QueryClasses,
    pub ttl: u32,
    pub data_length: u16,
    pub data: Seq<u8>,
}

/// The mathematical shape of a message.
#[verifier::ext_equal]
pub struct SpecMessage {
    pub identification: u16,
    pub flags: u16,
    pub number_of_questions: u16,
    pub number_of_answer_records: u16,
    pub number_of_resource_records: u16,
    pub number_of_additional_records: u16,
    pub query_name: Seq<u8>,
    pub query_type: QueryTypes,
    pub query_class: QueryClasses,
    pub answer: Option<SpecAnswer>,
}

/// An answer's data length field must declare the bytes it carries.
pub open spec fn wf_answer(a: SpecAnswer) -> bool {
    a.data.len() == a.data_length as int
}

/// A message whose encoding decodes back to itself: an encodable name
/// whose wire form keeps to the 255-octet bound, and an answer count that
/// declares the answer section truthfully. The answer's owner name is the
/// queried name, as the single-question exchange leaves it.
pub open spec fn wf_message(m: SpecMessage) -> bool {
    &&& valid_name(m.query_name)
    &&& spec_encode_name(m.query_name).len() <= 255
    &&& match m.answer {
        Option::None => m.number_of_answer_records == 0,
        Option::Some(a) => {
            &&& m.number_of_answer_records == 1
            &&& a.name == m.query_name
            &&& wf_answer(a)
        },
    }
}

/// The wire form of an answer record: type, class, time to live, declared
/// data length, then the data bytes.
pub open spec fn spec_encode_answer(a: SpecAnswer) -> Seq<u8> {
    spec_be16(spec_record_type_value(a.query_type)) + spec_be16(
        spec_record_class_value(a.query_class),
    ) + spec_be32(a.ttl) + spec_be16(a.data_length) + a.data
}

/// The wire form of a message: header, question, optional answer.
pub open spec fn spec_encode_message(m: SpecMessage) -> Seq<u8> {
    spec_be16(m.identification) + spec_be16(m.flags) + spec_be16(m.number_of_questions)
        + spec_be16(m.number_of_answer_records) + spec_be16(m.number_of_resource_records)
        + spec_be16(m.number_of_additional_records) + spec_encode_name(m.query_name) + spec_be16(
        spec_record_type_value(m.query_type),
    ) + spec_be16(spec_record_class_value(m.query_class)) + (match m.answer {
        Option::None => Seq::<u8>::empty(),
        Option::Some(a) => spec_encode_answer(a),
    })
}

/// Reading an answer record at `i`: every fixed field and the data slice
/// are held to the buffer end, and the wire type and class must lie in
/// their closed enumerations. The owner name is taken from the question.
pub open spec fn spec_decode_answer(bytes: Seq<u8>, i: int, qname: Seq<u8>) -> Result<
    SpecAnswer,
    DecodeError,
> {
    if i + 10 > bytes.len() {
        Err(DecodeError::Truncated)
    } else {
        match spec_record_type_from_u16(spec_u16_of(bytes[i], bytes[i + 1])) {
            Option::None => Err(DecodeError::UnknownEnumValue),
            Option::Some(t) => match spec_record_class_from_u16(
                spec_u16_of(bytes[i + 2], bytes[i + 3]),
            ) {
                Option::None => Err(DecodeError::UnknownEnumValue),
                Option::Some(cl) => {
                    let ttl = spec_u32_of(bytes[i + 4], bytes[i + 5], bytes[i + 6], bytes[i + 7]);
                    let dlen = spec_u16_of(bytes[i + 8], bytes[i + 9]);
                    if i + 10 + dlen > bytes.len() {
                        Err(DecodeError::Truncated)
                    } else {
                        Ok(
                            SpecAnswer {
                                name: qname,
                                query_type: t,
                                query_class: cl,
                                ttl: ttl,
                                data_length: dlen,
                                data: bytes.subrange(i + 10, i + 10 + dlen),
                            },
                        )
                    }
                },
            },
        }
    }
}

/// Reading a whole message: the 12-byte header, the question name, type
/// and class, then — exactly when the header declares one answer record —
/// a single answer. More than one declared answer is unsupported, and any
/// read past the buffer end is `Truncated`.
pub open spec fn spec_decode_message(bytes: Seq<u8>) -> Result<SpecMessage, DecodeError> {
    if bytes.len() < 12 {
        Err(DecodeError::Truncated)
    } else {
        let an = spec_u16_of(bytes[6], bytes[7]);
        match spec_decode_name(bytes, 12) {
            Err(e) => Err(e),
            Ok((qname, c)) => {
                let qpos = 12 + c;
                if qpos + 4 > bytes.len() {
                    Err(DecodeError::Truncated)
                } else {
                    match spec_record_type_from_u16(spec_u16_of(bytes[qpos], bytes[qpos + 1])) {
                        Option::None => Err(DecodeError::UnknownEnumValue),
                        Option::Some(qt) => match spec_record_class_from_u16(
                            spec_u16_of(bytes[qpos + 2], bytes[qpos + 3]),
                        ) {
                            Option::None => Err(DecodeError::UnknownEnumValue),
                            Option::Some(qc) => {
                                if an == 0 {
                                    Ok(spec_message_at(bytes, qname, qt, qc, Option::None))
                                } else if an == 1 {
                                    match spec_decode_answer(bytes, qpos + 4, qname) {
                                        Err(e) => Err(e),
                                        Ok(a) => Ok(
                                            spec_message_at(bytes, qname, qt, qc, Option::Some(a)),
                                        ),
                                    }
                                } else {
                                    Err(DecodeError::UnsupportedRecordCount)
                                }
                            },
                        },
                    }
                }
            },
        }
    }
}

/// The message assembled from a decoded header and question.
pub open spec fn spec_message_at(
    bytes: Seq<u8>,
    qname: Seq<u8>,
    qt: QueryTypes,
    qc: QueryClasses,
    answer: Option<SpecAnswer>,
) -> SpecMessage {
    SpecMessage {
        identification: spec_u16_of(bytes[0], bytes[1]),
        flags: spec_u16_of(bytes[2], bytes[3]),
        number_of_questions: spec_u16_of(bytes[4], bytes[5]),
        number_of_answer_records: spec_u16_of(bytes[6], bytes[7]),
        number_of_resource_records: spec_u16_of(bytes[8], bytes[9]),
        number_of_additional_records: spec_u16_of(bytes[10], bytes[11]),
        query_name: qname,
        query_type: qt,
        query_class: qc,
        answer: answer,
    }
}

/// One answer record: its owner name, type, class, time to live, declared
/// data length, and raw data bytes.
#[derive(Debug, Clone, PartialEq, Eq)]
pub struct Answer {
    pub name: Vec<u8>,
    pub query_type: QueryTypes,
    pub query_class: QueryClasses,
    pub ttl: u32,
    pub data_length: u16,
    pub data: Vec<u8>,
}

impl View for Answer {
    type V = SpecAnswer;

    open spec fn view(&self) -> SpecAnswer {
        SpecAnswer {
            name: self.name@,
            query_type: self.query_type,
            query_class: self.query_class,
            ttl: self.ttl,
            data_length: self.data_length,
            data: self.data@,
        }
    }
}

impl Answer {
    /// Reads the answer record at `start_index`, owner name supplied by
    /// the caller from the question section, exactly as
    /// `spec_decode_answer` lays it down.
    pub fn from_bytes(bytes: &Vec<u8>, start_index: usize, query_name: &Vec<u8>) -> (r: Result<
        Answer,
        DecodeError,
    >)
        ensures
            (r matches Ok(a) ==> spec_decode_answer(bytes@, start_index as int, query_name@)
                == Ok::<SpecAnswer, DecodeError>(a@)),
            (r matches Err(e) ==> spec_decode_answer(bytes@, start_index as int, query_name@)
                == Err::<SpecAnswer, DecodeError>(e)),
    {
        let n: usize = bytes.len();
        if start_index > n || n - start_index < 10 {
            return Err(DecodeError::Truncated);
        }
        let query_type = match record_type_from_u16(read_u16(bytes, start_index)) {
            Some(t) => t,
            None => {
                return Err(DecodeError::UnknownEnumValue);
            },
        };
        let query_class = match record_class_from_u16(read_u16(bytes, start_index + 2)) {
            Some(cl) => cl,
            None => {
                return Err(DecodeError::UnknownEnumValue);
            },
        };
        let ttl: u32 = read_u32(bytes, start_index + 4);
        let data_length: u16 = read_u16(bytes, start_index + 8);
        let dlen: usize = data_length as usize;
        if n - (start_index + 10) < dlen {
            return Err(DecodeError::Truncated);
        }
        let mut name: Vec<u8> = Vec::new();
        push_range(&mut name, query_name, 0, query_name.len());
        let mut data: Vec<u8> = Vec::new();
        push_range(&mut data, bytes, start_index + 10, start_index + 10 + dlen);
        proof {
            assert(name@ =~= query_name@);
            assert(data@ =~= bytes@.subrange(
                start_index as int + 10,
                start_index as int + 10 + data_length as int,
            ));
        }
        let a = Answer { name, query_type, query_class, ttl, data_length, data };
        proof {
            let s = spec_decode_answer(bytes@, start_index as int, query_name@);
            assert(s matches Ok(sa) && sa =~~= a@);
        }
        Ok(a)
    }
}

/// A DNS message: the unit of one exchange. Built field by field for an
/// outgoing query, or produced whole by decoding a received datagram.
#[derive(Debug, Clone, PartialEq, Eq)]
pub struct DnsQuery {
    pub identification: u16,
    pub flags: Flags,
    pub number_of_questions: u16,
    pub number_of_answer_records: u16,
    pub number_of_resource_records: u16,
    pub number_of_additional_records: u16,
    pub query_name: Vec<u8>,
    pub query_type: QueryTypes,
    pub query_class: QueryClasses,
    pub answer: Option<Answer>,
}

impl View for DnsQuery {
    type V = SpecMessage;

    open spec fn view(&self) -> SpecMessage {
        SpecMessage {
            identification: self.identification,
            flags: self.flags.flags,
            number_of_questions: self.number_of_questions,
            number_of_answer_records: self.number_of_answer_records,
            number_of_resource_records: self.number_of_resource_records,
            number_of_additional_records: self.number_of_additional_records,
            query_name: self.query_name@,
            query_type: self.query_type,
            query_class: self.query_class,
            answer: match self.answer {
                Option::None => Option::None,
                Option::Some(a) => Option::Some(a@),
            },
        }
    }
}

impl DnsQuery {
    /// Decodes a received datagram, exactly as `spec_decode_message` lays
    /// it down: a typed error on any malformed input, never a panic or a
    /// read past the buffer end.
    pub fn from_bytes(bytes: &Vec<u8>) -> (r: Result<DnsQuery, DecodeError>)
        ensures
            (r matches Ok(m) ==> spec_decode_message(bytes@) == Ok::<SpecMessage, DecodeError>(
                m@,
            )),
            (r matches Err(e) ==> spec_decode_message(bytes@) == Err::<SpecMessage, DecodeError>(
                e,
            )),
    {
        let n: usize = bytes.len();
        if n < 12 {
            return Err(DecodeError::Truncated);
        }
        let identification: u16 = read_u16(bytes, 0);
        let flags = Flags { flags: read_u16(bytes, 2) };
        let number_of_questions: u16 = read_u16(bytes, 4);
        let number_of_answer_records: u16 = read_u16(bytes, 6);
        let number_of_resource_records: u16 = read_u16(bytes, 8);
        let number_of_additional_records: u16 = read_u16(bytes, 10);
        let (query_name, c) = match decode_name(bytes, 12) {
            Ok(x) => x,
            Err(e) => {
                return Err(e);
            },
        };
        let qpos: usize = 12 + c;
        if n - qpos < 4 {
            return Err(DecodeError::Truncated);
        }
        let query_type = match record_type_from_u16(read_u16(bytes, qpos)) {
            Some(t) => t,
            None => {
                return Err(DecodeError::UnknownEnumValue);
            },
        };
        let query_class = match record_class_from_u16(read_u16(bytes, qpos + 2)) {
            Some(cl) => cl,
            None => {
                return Err(DecodeError::UnknownEnumValue);
            },
        };
        let answer: Option<Answer> = if number_of_answer_records == 0 {
            None
        } else if number_of_answer_records == 1 {
            match Answer::from_bytes(bytes, qpos + 4, &query_name) {
                Ok(a) => Some(a),
                Err(e) => {
                    return Err(e);
                },
            }
        } else {
            return Err(DecodeError::UnsupportedRecordCount);
        };
        let m = DnsQuery {
            identification,
            flags,
            number_of_questions,
            number_of_answer_records,
            number_of_resource_records,
            number_of_additional_records,
            query_name,
            query_type,
            query_class,
            answer,
        };
        proof {
            let s = spec_decode_message(bytes@);
            assert(s matches Ok(sm) && sm =~~= m@);
        }
        Ok(m)
    }

    /// Encodes the message for the wire. Fails, touching nothing, exactly
    /// when the name holds an empty label or one longer than 63 bytes.
    pub fn to_bytes(&self) -> (r: Result<Vec<u8>, EncodeError>)
        ensures
            (r is Ok <==> valid_name(self.query_name@)),
            (r matches Ok(v) ==> v@ == spec_encode_message(self@)),
            (r is Err ==> r == Err::<Vec<u8>, EncodeError>(EncodeError::LabelTooLong)),
    {
        let mut nb = match encode_name(&self.query_name) {
            Ok(nb) => nb,
            Err(e) => {
                return Err(e);
            },
        };
        let mut out: Vec<u8> = Vec::new();
        push_u16(&mut out, self.identification);
        push_u16(&mut out, self.flags.flags);
        push_u16(&mut out, self.number_of_questions);
        push_u16(&mut out, self.number_of_answer_records);
        push_u16(&mut out, self.number_of_resource_records);
        push_u16(&mut out, self.number_of_additional_records);
        out.append(&mut nb);
        push_u16(&mut out, record_type_value(self.query_type));
        push_u16(&mut out, record_class_value(self.query_class));
        match &self.answer {
            None => {},
            Some(a) => {
                push_u16(&mut out, record_type_value(a.query_type));
                push_u16(&mut out, record_class_value(a.query_class));
                push_u32(&mut out, a.ttl);
                push_u16(&mut out, a.data_length);
                push_range(&mut out, &a.data, 0, a.data.len());
                proof {
                    assert(a.data@.subrange(0, a.data@.len() as int) =~= a.data@);
                }
            },
        }
        proof {
            assert(out@ =~= spec_encode_message(self@));
        }
        Ok(out)
    }
}

/// Round trip: decoding the wire form of a well-formed message gives the
/// message back whole — identification, flag word, counts, question, and
/// answer record alike.
#[verifier::rlimit(100)]
pub proof fn lemma_message_round_trip(m: SpecMessage)
    requires
        wf_message(m),
    ensures
        spec_decode_message(spec_encode_message(m)) == Ok::<SpecMessage, DecodeError>(m),
{
    let bytes = spec_encode_message(m);
    let nm = spec_encode_name(m.query_name);
    let qpos = 12 + nm.len() as int;
    crate::wire::lemma_u16_round_trip(m.identification);
    crate::wire::lemma_u16_round_trip(m.flags);
    crate::wire::lemma_u16_round_trip(m.number_of_questions);
    crate::wire::lemma_u16_round_trip(m.number_of_answer_records);
    crate::wire::lemma_u16_round_trip(m.number_of_resource_records);
    crate::wire::lemma_u16_round_trip(m.number_of_additional_records);
    crate::wire::lemma_u16_round_trip(spec_record_type_value(m.query_type));
    crate::wire::lemma_u16_round_trip(spec_record_class_value(m.query_class));
    crate::fields::lemma_record_type_value_round_trip(m.query_type);
    crate::fields::lemma_record_class_value_round_trip(m.query_class);
    assert(bytes[0] == spec_be16(m.identification)[0]);
    assert(bytes[1] == spec_be16(m.identification)[1]);
    assert(bytes[2] == spec_be16(m.flags)[0]);
    assert(bytes[3] == spec_be16(m.flags)[1]);
    assert(bytes[4] == spec_be16(m.number_of_questions)[0]);
    assert(bytes[5] == spec_be16(m.number_of_questions)[1]);
    assert(bytes[6] == spec_be16(m.number_of_answer_records)[0]);
    assert(bytes[7] == spec_be16(m.number_of_answer_records)[1]);
    assert(bytes[8] == spec_be16(m.number_of_resource_records)[0]);
    assert(bytes[9] == spec_be16(m.number_of_resource_records)[1]);
    assert(bytes[10] == spec_be16(m.number_of_additional_records)[0]);
    assert(bytes[11] == spec_be16(m.number_of_additional_records)[1]);
    assert(bytes.subrange(12, 12 + nm.len() as int) =~= nm) by {
        assert forall|k: int| 0 <= k < nm.len() implies bytes[12 + k] == nm[k] by {}
    }
    lemma_decode_encoded_name(bytes, 12, m.query_name);
    assert(spec_decode_name(bytes, 12) == Ok::<(Seq<u8>, int), DecodeError>(
        (m.query_name, nm.len() as int),
    ));
    assert(bytes[qpos] == spec_be16(spec_record_type_value(m.query_type))[0]);
    assert(bytes[qpos + 1] == spec_be16(spec_record_type_value(m.query_type))[1]);
    assert(bytes[qpos + 2] == spec_be16(spec_record_class_value(m.query_class))[0]);
    assert(bytes[qpos + 3] == spec_be16(spec_record_class_value(m.query_class))[1]);
    assert(spec_record_type_from_u16(spec_u16_of(bytes[qpos], bytes[qpos + 1])) == Some(
        m.query_type,
    ));
    assert(spec_record_class_from_u16(spec_u16_of(bytes[qpos + 2], bytes[qpos + 3])) == Some(
        m.query_class,
    ));
    match m.answer {
        Option::None => {
            assert(spec_u16_of(bytes[6], bytes[7]) == 0);
            assert(spec_decode_message(bytes) matches Ok(d) && d =~~= m);
        },
        Option::Some(a) => {
            let apos = qpos + 4;
            crate::wire::lemma_u16_round_trip(spec_record_type_value(a.query_type));
            crate::wire::lemma_u16_round_trip(spec_record_class_value(a.query_class));
            crate::wire::lemma_u16_round_trip(a.data_length);
            crate::wire::lemma_u32_round_trip(a.ttl);
            crate::fields::lemma_record_type_value_round_trip(a.query_type);
            crate::fields::lemma_record_class_value_round_trip(a.query_class);
            assert(spec_u16_of(bytes[6], bytes[7]) == 1);
            assert(bytes[apos] == spec_be16(spec_record_type_value(a.query_type))[0]);
            assert(bytes[apos + 1] == spec_be16(spec_record_type_value(a.query_type))[1]);
            assert(bytes[apos + 2] == spec_be16(spec_record_class_value(a.query_class))[0]);
            assert(bytes[apos + 3] == spec_be16(spec_record_class_value(a.query_class))[1]);
            assert(bytes[apos + 4] == spec_be32(a.ttl)[0]);
            assert(bytes[apos + 5] == spec_be32(a.ttl)[1]);
            assert(bytes[apos + 6] == spec_be32(a.ttl)[2]);
            assert(bytes[apos + 7] == spec_be32(a.ttl)[3]);
            assert(bytes[apos + 8] == spec_be16(a.data_length)[0]);
            assert(bytes[apos + 9] == spec_be16(a.data_length)[1]);
            assert(spec_u16_of(bytes[apos + 8], bytes[apos + 9]) == a.data_length);
            assert(bytes.subrange(apos + 10, apos + 10 + a.data_length as int) =~= a.data) by {
                assert forall|k: int| 0 <= k < a.data.len() implies bytes[apos + 10 + k]
                    == a.data[k] by {}
            }
            assert(spec_decode_answer(bytes, apos, m.query_name) matches Ok(d) && d =~~= a);
            assert(spec_decode_message(bytes) matches Ok(d) && d =~~= m);
        },
    }
}

} // verus!
