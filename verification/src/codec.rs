//! The DNS wire codec: queries to bytes, reply bytes to answer records.
//!
//! Encoding and decoding are done by the `trust_dns` crate. What this module
//! knows of either is only that the result is determined by the input; the
//! results are therefore named by [`wire_query`] and [`wire_answers`], and
//! the contracts of the library speak of those names.

use crate::error::Error;
use crate::record::{AnswerRecord, RecordType};
use std::str::FromStr;
use trust_dns::op::Message;
use trust_dns::rr::{Name, RData};
use trust_dns_proto::error::ProtoError;
use vstd::prelude::*;

verus! {

/// The error type of the DNS codec.
#[verifier::external_type_specification]
#[verifier::external_body]
pub struct ExProtoError(ProtoError);

/// One question to the resolver: built fresh for every sub-query.
#[derive(Debug)]
pub struct Query {
    name: String,
    record_type: RecordType,
    recursion_desired: bool,
}

/// What a [`Query`] holds.
pub struct QueryView {
    /// The queried name, as the caller wrote it.
    pub name: Seq<char>,
    /// The record type asked for.
    pub record_type: RecordType,
    /// Whether the resolver is asked to recurse.
    pub recursion_desired: bool,
}

impl View for Query {
    type V = QueryView;

    closed spec fn view(&self) -> QueryView {
        QueryView {
            name: self.name@,
            record_type: self.record_type,
            recursion_desired: self.recursion_desired,
        }
    }
}

impl Query {
    /// Recursion is desired in every query: the remote resolver does the
    /// recursion, not this library.
    #[verifier::type_invariant]
    spec fn inv(self) -> bool {
        self.recursion_desired
    }

    /// The question for `name` and `record_type`.
    pub fn new(name: &str, record_type: RecordType) -> (query: Query)
        ensures
            query@ == (QueryView { name: name@, record_type, recursion_desired: true }),
    {
        Query { name: name.to_owned(), record_type, recursion_desired: true }
    }

    /// The queried name.
    pub fn name(&self) -> (name: &str)
        ensures
            name@ == self@.name,
    {
        self.name.as_str()
    }

    /// The record type asked for.
    pub fn record_type(&self) -> (record_type: RecordType)
        ensures
            record_type == self@.record_type,
    {
        self.record_type
    }

    /// Whether the resolver is asked to recurse: always.
    pub fn recursion_desired(&self) -> (desired: bool)
        ensures
            desired,
            desired == self@.recursion_desired,
    {
        proof {
            use_type_invariant(self);
        }
        self.recursion_desired
    }
}

/// The DNS message that the codec produces for a query with one question of
/// name `name` and the type with code `type_code`, or `None` where the codec
/// produces none: it rejects a `name` that is no DNS name.
pub uninterp spec fn wire_query(name: Seq<char>, type_code: u16, recursion_desired: bool) -> Option<
    Seq<u8>,
>;

/// The answer records that the codec reads from the DNS message `message`, in
/// the order of its answer section, or `None` where the codec rejects
/// `message` as truncated or malformed.
pub uninterp spec fn wire_answers(message: Seq<u8>) -> Option<Seq<AnswerRecord>>;

/// Whether the codec takes `name` for a DNS name: whether it has a query
/// for the addresses of `name`, of either family.
pub open spec fn is_dns_name(name: Seq<char>) -> bool {
    wire_query(name, RecordType::AAAA.code(), true) is Some && wire_query(
        name,
        RecordType::A.code(),
        true,
    ) is Some
}

/// Calls `Name::from_str`, `Query::query`, `Message::new`,
/// `Message::set_recursion_desired`, `Message::add_query` and
/// `Message::to_vec` of `trust_dns` to serialise a message that holds the one
/// question `query`. Assumed: the outcome depends on the three fields of
/// `query` alone, so it is the one that [`wire_query`] names.
#[verifier::external_body]
fn serialize_query(query: &Query) -> (res: Result<Vec<u8>, ProtoError>)
    ensures
        res matches Ok(bytes) ==> wire_query(
            query@.name,
            query@.record_type.code(),
            query@.recursion_desired,
        ) == Some(bytes@),
        res is Err ==> wire_query(query@.name, query@.record_type.code(), query@.recursion_desired)
            is None,
{
    let name = Name::from_str(&query.name)?;
    let record_type = match query.record_type {
        RecordType::A => trust_dns::rr::RecordType::A,
        RecordType::AAAA => trust_dns::rr::RecordType::AAAA,
    };
    let mut message = Message::new();
    message.set_recursion_desired(query.recursion_desired);
    message.add_query(trust_dns::op::Query::query(name, record_type));
    message.to_vec()
}

/// Calls `Message::from_vec` of `trust_dns` and hands out the records of
/// `Message::answers`, each reduced to an [`AnswerRecord`] by its
/// `Record::rdata`. Assumed: the outcome depends on `bytes` alone, so it is
/// the one that [`wire_answers`] names.
#[verifier::external_body]
fn parse_answers(bytes: &[u8]) -> (res: Result<Vec<AnswerRecord>, ProtoError>)
    ensures
        res matches Ok(answers) ==> wire_answers(bytes@) == Some(answers@),
        res is Err ==> wire_answers(bytes@) is None,
{
    let message = Message::from_vec(bytes)?;
    let reduce = |record: &trust_dns::rr::Record| match *record.rdata() {
        RData::A(ip) => AnswerRecord::A(ip.octets()),
        RData::AAAA(ip) => AnswerRecord::AAAA(ip.octets()),
        _ => AnswerRecord::Other,
    };
    Ok(message.answers().iter().map(reduce).collect())
}

/// Encodes `query` as a DNS message.
///
/// Fails with [`Error::Encode`] exactly where the codec rejects the name.
pub fn encode_query(query: &Query) -> (res: Result<Vec<u8>, Error>)
    ensures
        match wire_query(query@.name, query@.record_type.code(), true) {
            Some(bytes) => res matches Ok(message) && message@ == bytes,
            None => res == Err::<Vec<u8>, Error>(Error::Encode),
        },
{
    proof {
        use_type_invariant(query);
    }
    match serialize_query(query) {
        Ok(message) => Ok(message),
        Err(_) => Err(Error::Encode),
    }
}

/// Whether the codec takes `name` for a DNS name. It is asked as a
/// resolution asks it: for the two queries that a resolution of `name`
/// sends.
pub fn is_valid_dns_name(name: &str) -> (valid: bool)
    ensures
        valid == is_dns_name(name@),
{
    encode_query(&Query::new(name, RecordType::AAAA)).is_ok() && encode_query(
        &Query::new(name, RecordType::A),
    ).is_ok()
}

/// Decodes the DNS message `bytes` into its answer records.
///
/// Fails with [`Error::Decode`] exactly where the codec rejects the message.
pub fn decode_response(bytes: &[u8]) -> (res: Result<Vec<AnswerRecord>, Error>)
    ensures
        match wire_answers(bytes@) {
            Some(records) => res matches Ok(answers) && answers@ == records,
            None => res == Err::<Vec<AnswerRecord>, Error>(Error::Decode),
        },
{
    match parse_answers(bytes) {
        Ok(answers) => Ok(answers),
        Err(_) => Err(Error::Decode),
    }
}

} // verus!
