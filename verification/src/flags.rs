//! The packed 16-bit DNS header flag word.
//!
//! The word is the sole representation: every accessor is a pure mask read
//! and every mutator rewrites only its own field's bits. Fields, MSB first:
//! QR (bit 15), OPCODE (bits 11-14), AA (10), TC (9), RD (8), RA (7),
//! Z (4-6, unused), RCODE (0-3). Bit 15 follows the standard convention:
//! 0 is a query, 1 is a response, for the accessor and the mutator alike.

use vstd::prelude::*;

use crate::errors::DecodeError;
use crate::fields::AuthoritativeAnswer;
use crate::fields::MessageType;
use crate::fields::QueryType;
use crate::fields::RecursionAvailable;
use crate::fields::RecursionDesired;
use crate::fields::ResponseCode;
use crate::fields::Truncation;
use crate::fields::spec_opcode_from_u16;
use crate::fields::spec_opcode_value;
use crate::fields::spec_response_code_from_u16;
use crate::fields::spec_response_code_value;
use crate::fields::opcode_from_u16;
use crate::fields::opcode_value;
use crate::fields::response_code_from_u16;
use crate::fields::response_code_value;
use crate::wire::spec_u16_of;

verus! {

#[derive(Debug, Clone, Copy, PartialEq, Eq, Structural)]
pub struct Flags {
    pub flags: u16,
}

impl View for Flags {
    type V = u16;

    open spec fn view(&self) -> u16 {
        self.flags
    }
}

pub open spec fn spec_get_message_type(w: u16) -> MessageType {
    if w & 0x8000 == 0 {
        MessageType::Query
    } else {
        MessageType::Response
    }
}

pub open spec fn spec_set_message_type(w: u16, t: MessageType) -> u16 {
    match t {
        MessageType::Query => w & 0x7FFF,
        MessageType::Response => w | 0x8000,
    }
}

pub open spec fn spec_get_query_type(w: u16) -> Option<QueryType> {
    spec_opcode_from_u16((w >> 11) & 0xF)
}

pub open spec fn spec_set_query_type(w: u16, q: QueryType) -> u16 {
    (w & 0x87FF) | (spec_opcode_value(q) << 11)
}

pub open spec fn spec_get_authoritative(w: u16) -> AuthoritativeAnswer {
    if w & 0x0400 == 0 {
        AuthoritativeAnswer::NonAuthoritative
    } else {
        AuthoritativeAnswer::Authoritative
    }
}

pub open spec fn spec_set_authoritative(w: u16, a: AuthoritativeAnswer) -> u16 {
    match a {
        AuthoritativeAnswer::NonAuthoritative => w & 0xFBFF,
        AuthoritativeAnswer::Authoritative => w | 0x0400,
    }
}

pub open spec fn spec_get_truncation(w: u16) -> Truncation {
    if w & 0x0200 == 0 {
        Truncation::NotExceeds512
    } else {
        Truncation::Exceeds512
    }
}

pub open spec fn spec_set_truncation(w: u16, t: Truncation) -> u16 {
    match t {
        Truncation::NotExceeds512 => w & 0xFDFF,
        Truncation::Exceeds512 => w | 0x0200,
    }
}

pub open spec fn spec_get_recursion(w: u16) -> RecursionDesired {
    if w & 0x0100 == 0 {
        RecursionDesired::No
    } else {
        RecursionDesired::Yes
    }
}

pub open spec fn spec_set_recursion(w: u16, r: RecursionDesired) -> u16 {
    match r {
        RecursionDesired::No => w & 0xFEFF,
        RecursionDesired::Yes => w | 0x0100,
    }
}

pub open spec fn spec_get_recursion_available(w: u16) -> RecursionAvailable {
    if w & 0x0080 == 0 {
        RecursionAvailable::No
    } else {
        RecursionAvailable::Yes
    }
}

pub open spec fn spec_set_recursion_available(w: u16, r: RecursionAvailable) -> u16 {
    match r {
        RecursionAvailable::No => w & 0xFF7F,
        RecursionAvailable::Yes => w | 0x0080,
    }
}

pub open spec fn spec_get_response_code(w: u16) -> Option<ResponseCode> {
    spec_response_code_from_u16(w & 0xF)
}

pub open spec fn spec_set_response_code(w: u16, c: ResponseCode) -> u16 {
    (w & 0xFFF0) | spec_response_code_value(c)
}

impl Flags {
    /// The all-zero word: query, standard opcode, no flag bits set.
    pub fn new() -> (r: Self)
        ensures
            r.flags == 0,
    {
        Flags { flags: 0 }
    }

    /// Wraps the 16-bit value read big-endian from two wire bytes; any bit
    /// pattern is representable, so nothing is validated here.
    pub fn from_bytes(bytes: &[u8; 2]) -> (r: Self)
        ensures
            r.flags == spec_u16_of(bytes@[0], bytes@[1]),
    {
        let hi: u8 = bytes[0];
        let lo: u8 = bytes[1];
        Flags { flags: (hi as u16) * 256 + (lo as u16) }
    }

    pub fn get_message_type(&self) -> (r: MessageType)
        ensures
            r == spec_get_message_type(self.flags),
    {
        if self.flags & 0x8000 == 0 {
            MessageType::Query
        } else {
            MessageType::Response
        }
    }

    pub fn set_message_type(&mut self, message_type: MessageType)
        ensures
            final(self).flags == spec_set_message_type(old(self).flags, message_type),
    {
        match message_type {
            MessageType::Query => {
                self.flags = self.flags & 0x7FFF;
            },
            MessageType::Response => {
                self.flags = self.flags | 0x8000;
            },
        }
    }

    /// Reads the 4-bit opcode field; a value outside the closed opcode set
    /// is a decode error, never a panic.
    pub fn get_query_type(&self) -> (r: Result<QueryType, DecodeError>)
        ensures
            (r matches Ok(q) ==> spec_get_query_type(self.flags) == Some(q)),
            (r is Err ==> spec_get_query_type(self.flags) is None),
            (r is Err ==> r == Err::<QueryType, DecodeError>(DecodeError::UnknownEnumValue)),
    {
        let v: u16 = (self.flags >> 11) & 0xF;
        match opcode_from_u16(v) {
            Some(q) => Ok(q),
            None => Err(DecodeError::UnknownEnumValue),
        }
    }

    pub fn set_query_type(&mut self, query_type: QueryType)
        ensures
            final(self).flags == spec_set_query_type(old(self).flags, query_type),
    {
        let v: u16 = opcode_value(query_type);
        self.flags = (self.flags & 0x87FF) | (v << 11u16);
    }

    pub fn get_authoritative(&self) -> (r: AuthoritativeAnswer)
        ensures
            r == spec_get_authoritative(self.flags),
    {
        if self.flags & 0x0400 == 0 {
            AuthoritativeAnswer::NonAuthoritative
        } else {
            AuthoritativeAnswer::Authoritative
        }
    }

    pub fn set_authoritative(&mut self, authoritative: AuthoritativeAnswer)
        ensures
            final(self).flags == spec_set_authoritative(old(self).flags, authoritative),
    {
        match authoritative {
            AuthoritativeAnswer::NonAuthoritative => {
                self.flags = self.flags & 0xFBFF;
            },
            AuthoritativeAnswer::Authoritative => {
                self.flags = self.flags | 0x0400;
            },
        }
    }

    pub fn get_truncation(&self) -> (r: Truncation)
        ensures
            r == spec_get_truncation(self.flags),
    {
        if self.flags & 0x0200 == 0 {
            Truncation::NotExceeds512
        } else {
            Truncation::Exceeds512
        }
    }

    pub fn set_truncation(&mut self, truncation: Truncation)
        ensures
            final(self).flags == spec_set_truncation(old(self).flags, truncation),
    {
        match truncation {
            Truncation::NotExceeds512 => {
                self.flags = self.flags & 0xFDFF;
            },
            Truncation::Exceeds512 => {
                self.flags = self.flags | 0x0200;
            },
        }
    }

    pub fn get_recursion(&self) -> (r: RecursionDesired)
        ensures
            r == spec_get_recursion(self.flags),
    {
        if self.flags & 0x0100 == 0 {
            RecursionDesired::No
        } else {
            RecursionDesired::Yes
        }
    }

    pub fn set_recursion(&mut self, recursion: RecursionDesired)
        ensures
            final(self).flags == spec_set_recursion(old(self).flags, recursion),
    {
        match recursion {
            RecursionDesired::No => {
                self.flags = self.flags & 0xFEFF;
            },
            RecursionDesired::Yes => {
                self.flags = self.flags | 0x0100;
            },
        }
    }

    pub fn get_recursion_available(&self) -> (r: RecursionAvailable)
        ensures
            r == spec_get_recursion_available(self.flags),
    {
        if self.flags & 0x0080 == 0 {
            RecursionAvailable::No
        } else {
            RecursionAvailable::Yes
        }
    }

    pub fn set_recursion_available(&mut self, recursion_available: RecursionAvailable)
        ensures
            final(self).flags == spec_set_recursion_available(
                old(self).flags,
                recursion_available,
            ),
    {
        match recursion_available {
            RecursionAvailable::No => {
                self.flags = self.flags & 0xFF7F;
            },
            RecursionAvailable::Yes => {
                self.flags = self.flags | 0x0080;
            },
        }
    }

    /// Reads the 4-bit response-code field; a value outside the closed set
    /// is a decode error, never a panic.
    pub fn get_response_code(&self) -> (r: Result<ResponseCode, DecodeError>)
        ensures
            (r matches Ok(c) ==> spec_get_response_code(self.flags) == Some(c)),
            (r is Err ==> spec_get_response_code(self.flags) is None),
            (r is Err ==> r == Err::<ResponseCode, DecodeError>(DecodeError::UnknownEnumValue)),
    {
        let v: u16 = self.flags & 0xF;
        match response_code_from_u16(v) {
            Some(c) => Ok(c),
            None => Err(DecodeError::UnknownEnumValue),
        }
    }

    pub fn set_response_code(&mut self, response_code: ResponseCode)
        ensures
            final(self).flags == spec_set_response_code(old(self).flags, response_code),
    {
        let v: u16 = response_code_value(response_code);
        self.flags = (self.flags & 0xFFF0) | v;
    }
}

/// Writing back the message-type a word holds leaves the word unchanged.
pub proof fn lemma_message_type_set_get(w: u16)
    ensures
        spec_set_message_type(w, spec_get_message_type(w)) == w,
{
    assert(w & 0x8000 == 0 ==> w & 0x7FFF == w) by (bit_vector);
    assert(w & 0x8000 != 0 ==> w | 0x8000 == w) by (bit_vector);
}

/// Setting the message type alters no bit outside its field.
pub proof fn lemma_message_type_set_frame(w: u16, t: MessageType)
    ensures
        spec_set_message_type(w, t) & 0x7FFF == w & 0x7FFF,
{
    assert((w & 0x7FFF) & 0x7FFF == w & 0x7FFF) by (bit_vector);
    assert((w | 0x8000) & 0x7FFF == w & 0x7FFF) by (bit_vector);
}

/// Writing back the opcode a word holds leaves the word unchanged.
/// Words whose opcode field is outside the closed opcode set have no
/// opcode to read back and are left out.
pub proof fn lemma_query_type_set_get(w: u16, q: QueryType)
    requires
        spec_get_query_type(w) == Some(q),
    ensures
        spec_set_query_type(w, q) == w,
{
    let v = (w >> 11) & 0xF;
    assert(spec_opcode_value(q) == v);
    assert((w & 0x87FF) | (((w >> 11) & 0xF) << 11) == w) by (bit_vector);
}

/// Setting the opcode alters no bit outside its field.
pub proof fn lemma_query_type_set_frame(w: u16, q: QueryType)
    ensures
        spec_set_query_type(w, q) & 0x87FF == w & 0x87FF,
{
    let v = spec_opcode_value(q);
    assert(v < 16);
    assert(v < 16 ==> ((w & 0x87FF) | (v << 11)) & 0x87FF == w & 0x87FF) by (bit_vector);
}

/// Writing back the authority bit a word holds leaves the word unchanged.
pub proof fn lemma_authoritative_set_get(w: u16)
    ensures
        spec_set_authoritative(w, spec_get_authoritative(w)) == w,
{
    assert(w & 0x0400 == 0 ==> w & 0xFBFF == w) by (bit_vector);
    assert(w & 0x0400 != 0 ==> w | 0x0400 == w) by (bit_vector);
}

/// Setting the authority bit alters no bit outside its field.
pub proof fn lemma_authoritative_set_frame(w: u16, a: AuthoritativeAnswer)
    ensures
        spec_set_authoritative(w, a) & 0xFBFF == w & 0xFBFF,
{
    assert((w & 0xFBFF) & 0xFBFF == w & 0xFBFF) by (bit_vector);
    assert((w | 0x0400) & 0xFBFF == w & 0xFBFF) by (bit_vector);
}

/// Writing back the truncation bit a word holds leaves the word unchanged.
pub proof fn lemma_truncation_set_get(w: u16)
    ensures
        spec_set_truncation(w, spec_get_truncation(w)) == w,
{
    assert(w & 0x0200 == 0 ==> w & 0xFDFF == w) by (bit_vector);
    assert(w & 0x0200 != 0 ==> w | 0x0200 == w) by (bit_vector);
}

/// Setting the truncation bit alters no bit outside its field.
pub proof fn lemma_truncation_set_frame(w: u16, t: Truncation)
    ensures
        spec_set_truncation(w, t) & 0xFDFF == w & 0xFDFF,
{
    assert((w & 0xFDFF) & 0xFDFF == w & 0xFDFF) by (bit_vector);
    assert((w | 0x0200) & 0xFDFF == w & 0xFDFF) by (bit_vector);
}

/// Writing back the recursion-desired bit a word holds leaves the word
/// unchanged.
pub proof fn lemma_recursion_set_get(w: u16)
    ensures
        spec_set_recursion(w, spec_get_recursion(w)) == w,
{
    assert(w & 0x0100 == 0 ==> w & 0xFEFF == w) by (bit_vector);
    assert(w & 0x0100 != 0 ==> w | 0x0100 == w) by (bit_vector);
}

/// Setting the recursion-desired bit alters no bit outside its field.
pub proof fn lemma_recursion_set_frame(w: u16, r: RecursionDesired)
    ensures
        spec_set_recursion(w, r) & 0xFEFF == w & 0xFEFF,
{
    assert((w & 0xFEFF) & 0xFEFF == w & 0xFEFF) by (bit_vector);
    assert((w | 0x0100) & 0xFEFF == w & 0xFEFF) by (bit_vector);
}

/// Writing back the recursion-available bit a word holds leaves the word
/// unchanged.
pub proof fn lemma_recursion_available_set_get(w: u16)
    ensures
        spec_set_recursion_available(w, spec_get_recursion_available(w)) == w,
{
    assert(w & 0x0080 == 0 ==> w & 0xFF7F == w) by (bit_vector);
    assert(w & 0x0080 != 0 ==> w | 0x0080 == w) by (bit_vector);
}

/// Setting the recursion-available bit alters no bit outside its field.
pub proof fn lemma_recursion_available_set_frame(w: u16, r: RecursionAvailable)
    ensures
        spec_set_recursion_available(w, r) & 0xFF7F == w & 0xFF7F,
{
    assert((w & 0xFF7F) & 0xFF7F == w & 0xFF7F) by (bit_vector);
    assert((w | 0x0080) & 0xFF7F == w & 0xFF7F) by (bit_vector);
}

/// Writing back the response code a word holds leaves the word unchanged.
/// Words whose response-code field is outside the closed set have no code
/// to read back and are left out.
pub proof fn lemma_response_code_set_get(w: u16, c: ResponseCode)
    requires
        spec_get_response_code(w) == Some(c),
    ensures
        spec_set_response_code(w, c) == w,
{
    let v = w & 0xF;
    assert(spec_response_code_value(c) == v);
    assert((w & 0xFFF0) | (w & 0xF) == w) by (bit_vector);
}

/// Setting the response code alters no bit outside its field.
pub proof fn lemma_response_code_set_frame(w: u16, c: ResponseCode)
    ensures
        spec_set_response_code(w, c) & 0xFFF0 == w & 0xFFF0,
{
    let v = spec_response_code_value(c);
    assert(v < 16);
    assert(v < 16 ==> ((w & 0xFFF0) | v) & 0xFFF0 == w & 0xFFF0) by (bit_vector);
}

} // verus!
