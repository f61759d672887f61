//! The closed protocol enumerations and their wire-integer mappings.

use vstd::prelude::*;

verus! {

/// Whether the message is a query or a response (header bit 15).
#[derive(Debug, Clone, Copy, PartialEq, Eq, Structural)]
pub enum MessageType {
    Response,
    Query,
}

/// Whether the responder is authoritative for the queried name (bit 10).
#[derive(Debug, Clone, Copy, PartialEq, Eq, Structural)]
pub enum AuthoritativeAnswer {
    NonAuthoritative,
    Authoritative,
}

/// Whether the response was cut to fit the 512-byte datagram (bit 9).
#[derive(Debug, Clone, Copy, PartialEq, Eq, Structural)]
pub enum Truncation {
    Exceeds512,
    NotExceeds512,
}

/// Whether the requester asks for recursive resolution (bit 8).
#[derive(Debug, Clone, Copy, PartialEq, Eq, Structural)]
pub enum RecursionDesired {
    Yes,
    No,
}

/// Whether the responder offers recursive resolution (bit 7).
#[derive(Debug, Clone, Copy, PartialEq, Eq, Structural)]
pub enum RecursionAvailable {
    Yes,
    No,
}

/// The kind of DNS operation (the 4-bit opcode field, bits 11 to 14).
#[derive(Debug, Clone, Copy, PartialEq, Eq, Structural)]
pub enum QueryType {
    StandardQuery,
    InverseQuery,
    ServerStatusRequest,
    Notify,
    Update,
}

/// The response status (the 4-bit field in bits 0 to 3).
#[derive(Debug, Clone, Copy, PartialEq, Eq, Structural)]
pub enum ResponseCode {
    NoError,
    ProblemWithFormatSpecification,
    ServerFailure,
    NameError,
    RequestTypeNotSupported,
    Refused,
}

/// The record type asked about in the question section.
#[derive(Debug, Clone, Copy, PartialEq, Eq, Structural)]
pub enum QueryTypes {
    A,
    NS,
    MD,
    MF,
    CNAME,
    SOA,
    MB,
    MG,
    MR,
    NULL,
    WKS,
    PTR,
    HINFO,
    MINFO,
    MX,
    TXT,
    RP,
    AFSDB,
    X25,
    ISDN,
    RT,
    NSAP,
    NSAP_PTR,
    SIG,
    KEY,
    PX,
    GPOS,
    AAAA,
    LOC,
    NXT,
    EID,
    NIMLOC,
    SRV,
    ATMA,
    NAPTR,
    KX,
    CERT,
    A6,
    DNAME,
    SINK,
    OPT,
    APL,
    DS,
    SSHFP,
    IPSECKEY,
    RRSIG,
    NSEC,
    DNSKEY,
    DHCID,
    NSEC3,
    NSEC3PARAM,
    TLSA,
    SMIMEA,
    HIP,
    NINFO,
    RKEY,
    TALINK,
    CDS,
    CDNSKEY,
    OPENPGPKEY,
    CSYNC,
    ZONEMD,
    SVCB,
    HTTPS,
    SPF,
    UINFO,
    UID,
    GID,
    UNSPEC,
    NID,
    L32,
    L64,
    LP,
    EUI48,
    EUI64,
    TKEY,
    TSIG,
    IXFR,
    AXFR,
    MAILB,
    MAILA,
    ANY,
    URI,
    CAA,
    AVC,
    DOA,
    AMTRELAY,
    TA,
    DLV,
}

/// The protocol class of the queried record.
#[derive(Debug, Clone, Copy, PartialEq, Eq, Structural)]
pub enum QueryClasses {
    IN,
    CS,
    CH,
    HS,
    ANY,
}

/// The wire value of a `QueryType` member.
pub open spec fn spec_opcode_value(x: QueryType) -> u16 {
    match x {
        QueryType::StandardQuery => 0,
        QueryType::InverseQuery => 1,
        QueryType::ServerStatusRequest => 2,
        QueryType::Notify => 4,
        QueryType::Update => 5,
    }
}

/// The `QueryType` member a wire value stands for, if any.
pub open spec fn spec_opcode_from_u16(v: u16) -> Option<QueryType> {
    if v == 0 {
        Some(QueryType::StandardQuery)
    } else if v == 1 {
        Some(QueryType::InverseQuery)
    } else if v == 2 {
        Some(QueryType::ServerStatusRequest)
    } else if v == 4 {
        Some(QueryType::Notify)
    } else if v == 5 {
        Some(QueryType::Update)
    } else {
        None
    }
}

pub fn opcode_value(x: QueryType) -> (r: u16)
    ensures
        r == spec_opcode_value(x),
{
    match x {
        QueryType::StandardQuery => 0,
        QueryType::InverseQuery => 1,
        QueryType::ServerStatusRequest => 2,
        QueryType::Notify => 4,
        QueryType::Update => 5,
    }
}

pub fn opcode_from_u16(v: u16) -> (r: Option<QueryType>)
    ensures
        r == spec_opcode_from_u16(v),
{
    match v {
        0 => Some(QueryType::StandardQuery),
        1 => Some(QueryType::InverseQuery),
        2 => Some(QueryType::ServerStatusRequest),
        4 => Some(QueryType::Notify),
        5 => Some(QueryType::Update),
        _ => None,
    }
}

/// Mapping a member to its wire value and back yields the member.
pub proof fn lemma_opcode_value_round_trip(x: QueryType)
    ensures
        spec_opcode_from_u16(spec_opcode_value(x)) == Some(x),
{
}

/// The wire value of a `ResponseCode` member.
pub open spec fn spec_response_code_value(x: ResponseCode) -> u16 {
    match x {
        ResponseCode::NoError => 0,
        ResponseCode::ProblemWithFormatSpecification => 1,
        ResponseCode::ServerFailure => 2,
        ResponseCode::NameError => 3,
        ResponseCode::RequestTypeNotSupported => 4,
        ResponseCode::Refused => 5,
    }
}

/// The `ResponseCode` member a wire value stands for, if any.
pub open spec fn spec_response_code_from_u16(v: u16) -> Option<ResponseCode> {
    if v == 0 {
        Some(ResponseCode::NoError)
    } else if v == 1 {
        Some(ResponseCode::ProblemWithFormatSpecification)
    } else if v == 2 {
        Some(ResponseCode::ServerFailure)
    } else if v == 3 {
        Some(ResponseCode::NameError)
    } else if v == 4 {
        Some(ResponseCode::RequestTypeNotSupported)
    } else if v == 5 {
        Some(ResponseCode::Refused)
    } else {
        None
    }
}

pub fn response_code_value(x: ResponseCode) -> (r: u16)
    ensures
        r == spec_response_code_value(x),
{
    match x {
        ResponseCode::NoError => 0,
        ResponseCode::ProblemWithFormatSpecification => 1,
        ResponseCode::ServerFailure => 2,
        ResponseCode::NameError => 3,
        ResponseCode::RequestTypeNotSupported => 4,
        ResponseCode::Refused => 5,
    }
}

pub fn response_code_from_u16(v: u16) -> (r: Option<ResponseCode>)
    ensures
        r == spec_response_code_from_u16(v),
{
    match v {
        0 => Some(ResponseCode::NoError),
        1 => Some(ResponseCode::ProblemWithFormatSpecification),
        2 => Some(ResponseCode::ServerFailure),
        3 => Some(ResponseCode::NameError),
        4 => Some(ResponseCode::RequestTypeNotSupported),
        5 => Some(ResponseCode::Refused),
        _ => None,
    }
}

/// Mapping a member to its wire value and back yields the member.
pub proof fn lemma_response_code_value_round_trip(x: ResponseCode)
    ensures
        spec_response_code_from_u16(spec_response_code_value(x)) == Some(x),
{
}

/// The wire value of a `QueryTypes` member.
pub open spec fn spec_record_type_value(x: QueryTypes) -> u16 {
    match x {
        QueryTypes::A => 1,
        QueryTypes::NS => 2,
        QueryTypes::MD => 3,
        QueryTypes::MF => 4,
        QueryTypes::CNAME => 5,
        QueryTypes::SOA => 6,
        QueryTypes::MB => 7,
        QueryTypes::MG => 8,
        QueryTypes::MR => 9,
        QueryTypes::NULL => 10,
        QueryTypes::WKS => 11,
        QueryTypes::PTR => 12,
        QueryTypes::HINFO => 13,
        QueryTypes::MINFO => 14,
        QueryTypes::MX => 15,
        QueryTypes::TXT => 16,
        QueryTypes::RP => 17,
        QueryTypes::AFSDB => 18,
        QueryTypes::X25 => 19,
        QueryTypes::ISDN => 20,
        QueryTypes::RT => 21,
        QueryTypes::NSAP => 22,
        QueryTypes::NSAP_PTR => 23,
        QueryTypes::SIG => 24,
        QueryTypes::KEY => 25,
        QueryTypes::PX => 26,
        QueryTypes::GPOS => 27,
        QueryTypes::AAAA => 28,
        QueryTypes::LOC => 29,
        QueryTypes::NXT => 30,
        QueryTypes::EID => 31,
        QueryTypes::NIMLOC => 32,
        QueryTypes::SRV => 33,
        QueryTypes::ATMA => 34,
        QueryTypes::NAPTR => 35,
        QueryTypes::KX => 36,
        QueryTypes::CERT => 37,
        QueryTypes::A6 => 38,
        QueryTypes::DNAME => 39,
        QueryTypes::SINK => 40,
        QueryTypes::OPT => 41,
        QueryTypes::APL => 42,
        QueryTypes::DS => 43,
        QueryTypes::SSHFP => 44,
        QueryTypes::IPSECKEY => 45,
        QueryTypes::RRSIG => 46,
        QueryTypes::NSEC => 47,
        QueryTypes::DNSKEY => 48,
        QueryTypes::DHCID => 49,
        QueryTypes::NSEC3 => 50,
        QueryTypes::NSEC3PARAM => 51,
        QueryTypes::TLSA => 52,
        QueryTypes::SMIMEA => 53,
        QueryTypes::HIP => 55,
        QueryTypes::NINFO => 56,
        QueryTypes::RKEY => 57,
        QueryTypes::TALINK => 58,
        QueryTypes::CDS => 59,
        QueryTypes::CDNSKEY => 60,
        QueryTypes::OPENPGPKEY => 61,
        QueryTypes::CSYNC => 62,
        QueryTypes::ZONEMD => 63,
        QueryTypes::SVCB => 64,
        QueryTypes::HTTPS => 65,
        QueryTypes::SPF => 99,
        QueryTypes::UINFO => 100,
        QueryTypes::UID => 101,
        QueryTypes::GID => 102,
        QueryTypes::UNSPEC => 103,
        QueryTypes::NID => 104,
        QueryTypes::L32 => 105,
        QueryTypes::L64 => 106,
        QueryTypes::LP => 107,
        QueryTypes::EUI48 => 108,
        QueryTypes::EUI64 => 109,
        QueryTypes::TKEY => 249,
        QueryTypes::TSIG => 250,
        QueryTypes::IXFR => 251,
        QueryTypes::AXFR => 252,
        QueryTypes::MAILB => 253,
        QueryTypes::MAILA => 254,
        QueryTypes::ANY => 255,
        QueryTypes::URI => 256,
        QueryTypes::CAA => 257,
        QueryTypes::AVC => 258,
        QueryTypes::DOA => 259,
        QueryTypes::AMTRELAY => 260,
        QueryTypes::TA => 32768,
        QueryTypes::DLV => 32769,
    }
}

/// The `QueryTypes` member a wire value stands for, if any.
pub open spec fn spec_record_type_from_u16(v: u16) -> Option<QueryTypes> {
    if v == 1 {
        Some(QueryTypes::A)
    } else if v == 2 {
        Some(QueryTypes::NS)
    } else if v == 3 {
        Some(QueryTypes::MD)
    } else if v == 4 {
        Some(QueryTypes::MF)
    } else if v == 5 {
        Some(QueryTypes::CNAME)
    } else if v == 6 {
        Some(QueryTypes::SOA)
    } else if v == 7 {
        Some(QueryTypes::MB)
    } else if v == 8 {
        Some(QueryTypes::MG)
    } else if v == 9 {
        Some(QueryTypes::MR)
    } else if v == 10 {
        Some(QueryTypes::NULL)
    } else if v == 11 {
        Some(QueryTypes::WKS)
    } else if v == 12 {
        Some(QueryTypes::PTR)
    } else if v == 13 {
        Some(QueryTypes::HINFO)
    } else if v == 14 {
        Some(QueryTypes::MINFO)
    } else if v == 15 {
        Some(QueryTypes::MX)
    } else if v == 16 {
        Some(QueryTypes::TXT)
    } else if v == 17 {
        Some(QueryTypes::RP)
    } else if v == 18 {
        Some(QueryTypes::AFSDB)
    } else if v == 19 {
        Some(QueryTypes::X25)
    } else if v == 20 {
        Some(QueryTypes::ISDN)
    } else if v == 21 {
        Some(QueryTypes::RT)
    } else if v == 22 {
        Some(QueryTypes::NSAP)
    } else if v == 23 {
        Some(QueryTypes::NSAP_PTR)
    } else if v == 24 {
        Some(QueryTypes::SIG)
    } else if v == 25 {
        Some(QueryTypes::KEY)
    } else if v == 26 {
        Some(QueryTypes::PX)
    } else if v == 27 {
        Some(QueryTypes::GPOS)
    } else if v == 28 {
        Some(QueryTypes::AAAA)
    } else if v == 29 {
        Some(QueryTypes::LOC)
    } else if v == 30 {
        Some(QueryTypes::NXT)
    } else if v == 31 {
        Some(QueryTypes::EID)
    } else if v == 32 {
        Some(QueryTypes::NIMLOC)
    } else if v == 33 {
        Some(QueryTypes::SRV)
    } else if v == 34 {
        Some(QueryTypes::ATMA)
    } else if v == 35 {
        Some(QueryTypes::NAPTR)
    } else if v == 36 {
        Some(QueryTypes::KX)
    } else if v == 37 {
        Some(QueryTypes::CERT)
    } else if v == 38 {
        Some(QueryTypes::A6)
    } else if v == 39 {
        Some(QueryTypes::DNAME)
    } else if v == 40 {
        Some(QueryTypes::SINK)
    } else if v == 41 {
        Some(QueryTypes::OPT)
    } else if v == 42 {
        Some(QueryTypes::APL)
    } else if v == 43 {
        Some(QueryTypes::DS)
    } else if v == 44 {
        Some(QueryTypes::SSHFP)
    } else if v == 45 {
        Some(QueryTypes::IPSECKEY)
    } else if v == 46 {
        Some(QueryTypes::RRSIG)
    } else if v == 47 {
        Some(QueryTypes::NSEC)
    } else if v == 48 {
        Some(QueryTypes::DNSKEY)
    } else if v == 49 {
        Some(QueryTypes::DHCID)
    } else if v == 50 {
        Some(QueryTypes::NSEC3)
    } else if v == 51 {
        Some(QueryTypes::NSEC3PARAM)
    } else if v == 52 {
        Some(QueryTypes::TLSA)
    } else if v == 53 {
        Some(QueryTypes::SMIMEA)
    } else if v == 55 {
        Some(QueryTypes::HIP)
    } else if v == 56 {
        Some(QueryTypes::NINFO)
    } else if v == 57 {
        Some(QueryTypes::RKEY)
    } else if v == 58 {
        Some(QueryTypes::TALINK)
    } else if v == 59 {
        Some(QueryTypes::CDS)
    } else if v == 60 {
        Some(QueryTypes::CDNSKEY)
    } else if v == 61 {
        Some(QueryTypes::OPENPGPKEY)
    } else if v == 62 {
        Some(QueryTypes::CSYNC)
    } else if v == 63 {
        Some(QueryTypes::ZONEMD)
    } else if v == 64 {
        Some(QueryTypes::SVCB)
    } else if v == 65 {
        Some(QueryTypes::HTTPS)
    } else if v == 99 {
        Some(QueryTypes::SPF)
    } else if v == 100 {
        Some(QueryTypes::UINFO)
    } else if v == 101 {
        Some(QueryTypes::UID)
    } else if v == 102 {
        Some(QueryTypes::GID)
    } else if v == 103 {
        Some(QueryTypes::UNSPEC)
    } else if v == 104 {
        Some(QueryTypes::NID)
    } else if v == 105 {
        Some(QueryTypes::L32)
    } else if v == 106 {
        Some(QueryTypes::L64)
    } else if v == 107 {
        Some(QueryTypes::LP)
    } else if v == 108 {
        Some(QueryTypes::EUI48)
    } else if v == 109 {
        Some(QueryTypes::EUI64)
    } else if v == 249 {
        Some(QueryTypes::TKEY)
    } else if v == 250 {
        Some(QueryTypes::TSIG)
    } else if v == 251 {
        Some(QueryTypes::IXFR)
    } else if v == 252 {
        Some(QueryTypes::AXFR)
    } else if v == 253 {
        Some(QueryTypes::MAILB)
    } else if v == 254 {
        Some(QueryTypes::MAILA)
    } else if v == 255 {
        Some(QueryTypes::ANY)
    } else if v == 256 {
        Some(QueryTypes::URI)
    } else if v == 257 {
        Some(QueryTypes::CAA)
    } else if v == 258 {
        Some(QueryTypes::AVC)
    } else if v == 259 {
        Some(QueryTypes::DOA)
    } else if v == 260 {
        Some(QueryTypes::AMTRELAY)
    } else if v == 32768 {
        Some(QueryTypes::TA)
    } else if v == 32769 {
        Some(QueryTypes::DLV)
    } else {
        None
    }
}

pub fn record_type_value(x: QueryTypes) -> (r: u16)
    ensures
        r == spec_record_type_value(x),
{
    match x {
        QueryTypes::A => 1,
        QueryTypes::NS => 2,
        QueryTypes::MD => 3,
        QueryTypes::MF => 4,
        QueryTypes::CNAME => 5,
        QueryTypes::SOA => 6,
        QueryTypes::MB => 7,
        QueryTypes::MG => 8,
        QueryTypes::MR => 9,
        QueryTypes::NULL => 10,
        QueryTypes::WKS => 11,
        QueryTypes::PTR => 12,
        QueryTypes::HINFO => 13,
        QueryTypes::MINFO => 14,
        QueryTypes::MX => 15,
        QueryTypes::TXT => 16,
        QueryTypes::RP => 17,
        QueryTypes::AFSDB => 18,
        QueryTypes::X25 => 19,
        QueryTypes::ISDN => 20,
        QueryTypes::RT => 21,
        QueryTypes::NSAP => 22,
        QueryTypes::NSAP_PTR => 23,
        QueryTypes::SIG => 24,
        QueryTypes::KEY => 25,
        QueryTypes::PX => 26,
        QueryTypes::GPOS => 27,
        QueryTypes::AAAA => 28,
        QueryTypes::LOC => 29,
        QueryTypes::NXT => 30,
        QueryTypes::EID => 31,
        QueryTypes::NIMLOC => 32,
        QueryTypes::SRV => 33,
        QueryTypes::ATMA => 34,
        QueryTypes::NAPTR => 35,
        QueryTypes::KX => 36,
        QueryTypes::CERT => 37,
        QueryTypes::A6 => 38,
        QueryTypes::DNAME => 39,
        QueryTypes::SINK => 40,
        QueryTypes::OPT => 41,
        QueryTypes::APL => 42,
        QueryTypes::DS => 43,
        QueryTypes::SSHFP => 44,
        QueryTypes::IPSECKEY => 45,
        QueryTypes::RRSIG => 46,
        QueryTypes::NSEC => 47,
        QueryTypes::DNSKEY => 48,
        QueryTypes::DHCID => 49,
        QueryTypes::NSEC3 => 50,
        QueryTypes::NSEC3PARAM => 51,
        QueryTypes::TLSA => 52,
        QueryTypes::SMIMEA => 53,
        QueryTypes::HIP => 55,
        QueryTypes::NINFO => 56,
        QueryTypes::RKEY => 57,
        QueryTypes::TALINK => 58,
        QueryTypes::CDS => 59,
        QueryTypes::CDNSKEY => 60,
        QueryTypes::OPENPGPKEY => 61,
        QueryTypes::CSYNC => 62,
        QueryTypes::ZONEMD => 63,
        QueryTypes::SVCB => 64,
        QueryTypes::HTTPS => 65,
        QueryTypes::SPF => 99,
        QueryTypes::UINFO => 100,
        QueryTypes::UID => 101,
        QueryTypes::GID => 102,
        QueryTypes::UNSPEC => 103,
        QueryTypes::NID => 104,
        QueryTypes::L32 => 105,
        QueryTypes::L64 => 106,
        QueryTypes::LP => 107,
        QueryTypes::EUI48 => 108,
        QueryTypes::EUI64 => 109,
        QueryTypes::TKEY => 249,
        QueryTypes::TSIG => 250,
        QueryTypes::IXFR => 251,
        QueryTypes::AXFR => 252,
        QueryTypes::MAILB => 253,
        QueryTypes::MAILA => 254,
        QueryTypes::ANY => 255,
        QueryTypes::URI => 256,
        QueryTypes::CAA => 257,
        QueryTypes::AVC => 258,
        QueryTypes::DOA => 259,
        QueryTypes::AMTRELAY => 260,
        QueryTypes::TA => 32768,
        QueryTypes::DLV => 32769,
    }
}

pub fn record_type_from_u16(v: u16) -> (r: Option<QueryTypes>)
    ensures
        r == spec_record_type_from_u16(v),
{
    match v {
        1 => Some(QueryTypes::A),
        2 => Some(QueryTypes::NS),
        3 => Some(QueryTypes::MD),
        4 => Some(QueryTypes::MF),
        5 => Some(QueryTypes::CNAME),
        6 => Some(QueryTypes::SOA),
        7 => Some(QueryTypes::MB),
        8 => Some(QueryTypes::MG),
        9 => Some(QueryTypes::MR),
        10 => Some(QueryTypes::NULL),
        11 => Some(QueryTypes::WKS),
        12 => Some(QueryTypes::PTR),
        13 => Some(QueryTypes::HINFO),
        14 => Some(QueryTypes::MINFO),
        15 => Some(QueryTypes::MX),
        16 => Some(QueryTypes::TXT),
        17 => Some(QueryTypes::RP),
        18 => Some(QueryTypes::AFSDB),
        19 => Some(QueryTypes::X25),
        20 => Some(QueryTypes::ISDN),
        21 => Some(QueryTypes::RT),
        22 => Some(QueryTypes::NSAP),
        23 => Some(QueryTypes::NSAP_PTR),
        24 => Some(QueryTypes::SIG),
        25 => Some(QueryTypes::KEY),
        26 => Some(QueryTypes::PX),
        27 => Some(QueryTypes::GPOS),
        28 => Some(QueryTypes::AAAA),
        29 => Some(QueryTypes::LOC),
        30 => Some(QueryTypes::NXT),
        31 => Some(QueryTypes::EID),
        32 => Some(QueryTypes::NIMLOC),
        33 => Some(QueryTypes::SRV),
        34 => Some(QueryTypes::ATMA),
        35 => Some(QueryTypes::NAPTR),
        36 => Some(QueryTypes::KX),
        37 => Some(QueryTypes::CERT),
        38 => Some(QueryTypes::A6),
        39 => Some(QueryTypes::DNAME),
        40 => Some(QueryTypes::SINK),
        41 => Some(QueryTypes::OPT),
        42 => Some(QueryTypes::APL),
        43 => Some(QueryTypes::DS),
        44 => Some(QueryTypes::SSHFP),
        45 => Some(QueryTypes::IPSECKEY),
        46 => Some(QueryTypes::RRSIG),
        47 => Some(QueryTypes::NSEC),
        48 => Some(QueryTypes::DNSKEY),
        49 => Some(QueryTypes::DHCID),
        50 => Some(QueryTypes::NSEC3),
        51 => Some(QueryTypes::NSEC3PARAM),
        52 => Some(QueryTypes::TLSA),
        53 => Some(QueryTypes::SMIMEA),
        55 => Some(QueryTypes::HIP),
        56 => Some(QueryTypes::NINFO),
        57 => Some(QueryTypes::RKEY),
        58 => Some(QueryTypes::TALINK),
        59 => Some(QueryTypes::CDS),
        60 => Some(QueryTypes::CDNSKEY),
        61 => Some(QueryTypes::OPENPGPKEY),
        62 => Some(QueryTypes::CSYNC),
        63 => Some(QueryTypes::ZONEMD),
        64 => Some(QueryTypes::SVCB),
        65 => Some(QueryTypes::HTTPS),
        99 => Some(QueryTypes::SPF),
        100 => Some(QueryTypes::UINFO),
        101 => Some(QueryTypes::UID),
        102 => Some(QueryTypes::GID),
        103 => Some(QueryTypes::UNSPEC),
        104 => Some(QueryTypes::NID),
        105 => Some(QueryTypes::L32),
        106 => Some(QueryTypes::L64),
        107 => Some(QueryTypes::LP),
        108 => Some(QueryTypes::EUI48),
        109 => Some(QueryTypes::EUI64),
        249 => Some(QueryTypes::TKEY),
        250 => Some(QueryTypes::TSIG),
        251 => Some(QueryTypes::IXFR),
        252 => Some(QueryTypes::AXFR),
        253 => Some(QueryTypes::MAILB),
        254 => Some(QueryTypes::MAILA),
        255 => Some(QueryTypes::ANY),
        256 => Some(QueryTypes::URI),
        257 => Some(QueryTypes::CAA),
        258 => Some(QueryTypes::AVC),
        259 => Some(QueryTypes::DOA),
        260 => Some(QueryTypes::AMTRELAY),
        32768 => Some(QueryTypes::TA),
        32769 => Some(QueryTypes::DLV),
        _ => None,
    }
}

/// Mapping a member to its wire value and back yields the member.
pub proof fn lemma_record_type_value_round_trip(x: QueryTypes)
    ensures
        spec_record_type_from_u16(spec_record_type_value(x)) == Some(x),
{
}

/// The wire value of a `QueryClasses` member.
pub open spec fn spec_record_class_value(x: QueryClasses) -> u16 {
    match x {
        QueryClasses::IN => 1,
        QueryClasses::CS => 2,
        QueryClasses::CH => 3,
        QueryClasses::HS => 4,
        QueryClasses::ANY => 255,
    }
}

/// The `QueryClasses` member a wire value stands for, if any.
pub open spec fn spec_record_class_from_u16(v: u16) -> Option<QueryClasses> {
    if v == 1 {
        Some(QueryClasses::IN)
    } else if v == 2 {
        Some(QueryClasses::CS)
    } else if v == 3 {
        Some(QueryClasses::CH)
    } else if v == 4 {
        Some(QueryClasses::HS)
    } else if v == 255 {
        Some(QueryClasses::ANY)
    } else {
        None
    }
}

pub fn record_class_value(x: QueryClasses) -> (r: u16)
    ensures
        r == spec_record_class_value(x),
{
    match x {
        QueryClasses::IN => 1,
        QueryClasses::CS => 2,
        QueryClasses::CH => 3,
        QueryClasses::HS => 4,
        QueryClasses::ANY => 255,
    }
}

pub fn record_class_from_u16(v: u16) -> (r: Option<QueryClasses>)
    ensures
        r == spec_record_class_from_u16(v),
{
    match v {
        1 => Some(QueryClasses::IN),
        2 => Some(QueryClasses::CS),
        3 => Some(QueryClasses::CH),
        4 => Some(QueryClasses::HS),
        255 => Some(QueryClasses::ANY),
        _ => None,
    }
}

/// Mapping a member to its wire value and back yields the member.
pub proof fn lemma_record_class_value_round_trip(x: QueryClasses)
    ensures
        spec_record_class_from_u16(spec_record_class_value(x)) == Some(x),
{
}

} // verus!
