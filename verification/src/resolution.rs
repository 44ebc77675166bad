//! One resolution, step by step.
//!
//! A resolution asks for the `AAAA` records of a name and then for its `A`
//! records. Between the two it waits for an exchange that it cannot perform
//! itself. So it is a sequence of [`Step`]s: each is either the request for
//! an exchange, to be answered with a [`Reply`], or the end.

use crate::client::{Client, ClientView};
use crate::codec::{
    decode_response, encode_query, is_dns_name, wire_answers, wire_query, Query,
};
use crate::error::Error;
use crate::record::{
    addresses_of, extract_addresses, lemma_addresses_are_of_family,
    lemma_no_addresses_iff_no_records, AnswerRecord, IpAddr, RecordType,
};
use crate::transport::{
    build_request, into_message, lemma_modes_carry_the_same_query, payload, reply_message,
    request_for, HttpRequest, HttpRequestView, Reply, ReplyView,
};
use vstd::prelude::*;

verus! {

/// A resolution that waits for the reply to one request.
#[derive(Debug)]
pub struct Pending {
    client: Client,
    name: String,
    family: RecordType,
    found: Vec<IpAddr>,
    request: HttpRequest,
}

/// What a [`Pending`] holds.
pub struct PendingView {
    /// The client that the resolution was begun with.
    pub client: ClientView,
    /// The name that is resolved.
    pub name: Seq<char>,
    /// The record type that the outstanding request asks for.
    pub family: RecordType,
    /// The addresses that the earlier sub-query gave.
    pub found: Seq<IpAddr>,
    /// The outstanding request.
    pub request: HttpRequestView,
}

impl PendingView {
    /// What holds of every resolution that waits: the outstanding request
    /// carries the query for the name and the family in turn, nothing is
    /// found before the first reply, and what is found before the second is
    /// IPv6 addresses only.
    pub open spec fn wf(self) -> bool {
        &&& self.client.wf()
        &&& wire_query(self.name, self.family.code(), true) matches Some(query) && self.request
            == request_for(self.client.mode, self.client.endpoint, query)
        &&& self.family == RecordType::AAAA ==> self.found.len() == 0
        &&& forall|i: int| 0 <= i < self.found.len() ==> #[trigger] self.found[i] is V6
    }
}

impl View for Pending {
    type V = PendingView;

    closed spec fn view(&self) -> PendingView {
        PendingView {
            client: self.client@,
            name: self.name@,
            family: self.family,
            found: self.found@,
            request: self.request@,
        }
    }
}

/// One step of a resolution.
#[derive(Debug)]
pub enum Step {
    /// An exchange is due: its request is to be sent, and the reply handed
    /// to [`Pending::resume`].
    Exchange(Pending),
    /// The resolution is over, with all the addresses or with one error.
    Done(Result<Vec<IpAddr>, Error>),
}

/// What a [`Step`] holds.
pub enum StepView {
    Exchange(PendingView),
    Done(Result<Seq<IpAddr>, Error>),
}

impl View for Step {
    type V = StepView;

    open spec fn view(&self) -> StepView {
        match *self {
            Step::Exchange(pending) => StepView::Exchange(pending@),
            Step::Done(Ok(addresses)) => StepView::Done(Ok(addresses@)),
            Step::Done(Err(error)) => StepView::Done(Err(error)),
        }
    }
}

/// The step that opens the sub-query for `family`, after `found` was found:
/// the exchange that carries the query, or the end where the codec does not
/// take `name` for a DNS name.
pub open spec fn sub_query(
    client: ClientView,
    name: Seq<char>,
    family: RecordType,
    found: Seq<IpAddr>,
) -> StepView {
    match wire_query(name, family.code(), true) {
        None => StepView::Done(Err(Error::Encode)),
        Some(query) => StepView::Exchange(
            PendingView {
                client,
                name,
                family,
                found,
                request: request_for(client.mode, client.endpoint, query),
            },
        ),
    }
}

/// The first step of the resolution of `name`: the `AAAA` sub-query, with
/// nothing found yet.
pub open spec fn begin(client: ClientView, name: Seq<char>) -> StepView {
    sub_query(client, name, RecordType::AAAA, Seq::empty())
}

/// The step that follows `pending` on `reply`.
///
/// A failed exchange, a status that is no success and a reply that is no DNS
/// message each end the resolution with their error, and what was found is
/// dropped. Else the addresses of the family asked for are added to those
/// found, in the order of the reply. After the `AAAA` sub-query the `A`
/// sub-query follows; after the `A` sub-query the resolution is over.
pub open spec fn advance(pending: PendingView, reply: ReplyView) -> StepView {
    match reply_message(reply) {
        Err(error) => StepView::Done(Err(error)),
        Ok(message) => match wire_answers(message) {
            None => StepView::Done(Err(Error::Decode)),
            Some(answers) => {
                let found = pending.found + addresses_of(answers, pending.family);
                match pending.family {
                    RecordType::AAAA => sub_query(
                        pending.client,
                        pending.name,
                        RecordType::A,
                        found,
                    ),
                    RecordType::A => StepView::Done(Ok(found)),
                }
            },
        },
    }
}

/// Opens the sub-query for `family`.
fn open_sub_query(client: Client, name: String, family: RecordType, found: Vec<IpAddr>) -> (step:
    Step)
    requires
        family == RecordType::AAAA ==> found@.len() == 0,
        forall|i: int| 0 <= i < found@.len() ==> #[trigger] found@[i] is V6,
    ensures
        step@ == sub_query(client@, name@, family, found@),
{
    proof {
        use_type_invariant(&client);
    }
    let query = Query::new(name.as_str(), family);
    match encode_query(&query) {
        Ok(message) => {
            let request = build_request(client.mode(), client.endpoint(), message);
            Step::Exchange(Pending { client, name, family, found, request })
        },
        Err(error) => Step::Done(Err(error)),
    }
}

/// Begins the resolution of `name` with `client`.
pub(crate) fn start(client: Client, name: &str) -> (step: Step)
    ensures
        step@ == begin(client@, name@),
{
    open_sub_query(client, name.to_owned(), RecordType::AAAA, Vec::new())
}

impl Pending {
    /// The invariant of the type: every resolution that waits is in order.
    #[verifier::type_invariant]
    pub open spec fn inv(self) -> bool {
        self@.wf()
    }

    /// The request that is to be sent.
    pub fn request(&self) -> (request: &HttpRequest)
        ensures
            request@ == self@.request,
    {
        &self.request
    }

    /// The client that the resolution was begun with.
    pub fn client(&self) -> (client: &Client)
        ensures
            client@ == self@.client,
    {
        &self.client
    }

    /// The record type that the outstanding request asks for.
    pub fn family(&self) -> (family: RecordType)
        ensures
            family == self@.family,
    {
        self.family
    }

    /// Goes on with the reply to the outstanding request.
    pub fn resume(self, reply: Reply) -> (step: Step)
        ensures
            step@ == advance(self@, reply@),
    {
        let message = match into_message(reply) {
            Ok(message) => message,
            Err(error) => {
                return Step::Done(Err(error));
            },
        };
        let answers = match decode_response(message.as_slice()) {
            Ok(answers) => answers,
            Err(error) => {
                return Step::Done(Err(error));
            },
        };
        proof {
            use_type_invariant(&self);
            lemma_addresses_are_of_family(answers@, self.family);
        }
        let mut found = self.found;
        let mut more = extract_addresses(&answers, self.family);
        found.append(&mut more);
        match self.family {
            RecordType::AAAA => open_sub_query(self.client, self.name, RecordType::A, found),
            RecordType::A => Step::Done(Ok(found)),
        }
    }
}

/// What one sub-query comes to: the addresses of its family in the reply,
/// or the first error on its way.
pub open spec fn sub_query_outcome(name: Seq<char>, family: RecordType, reply: ReplyView) -> Result<
    Seq<IpAddr>,
    Error,
> {
    if wire_query(name, family.code(), true) is None {
        Err(Error::Encode)
    } else {
        match reply_message(reply) {
            Err(error) => Err(error),
            Ok(message) => match wire_answers(message) {
                None => Err(Error::Decode),
                Some(answers) => Ok(addresses_of(answers, family)),
            },
        }
    }
}

/// What the resolution of `name` comes to when `first` is the reply to the
/// `AAAA` query and `second` the reply to the `A` query: the addresses of the
/// first followed by those of the second, or the first error.
pub open spec fn outcome(name: Seq<char>, first: ReplyView, second: ReplyView) -> Result<
    Seq<IpAddr>,
    Error,
> {
    match sub_query_outcome(name, RecordType::AAAA, first) {
        Err(error) => Err(error),
        Ok(ipv6) => match sub_query_outcome(name, RecordType::A, second) {
            Err(error) => Err(error),
            Ok(ipv4) => Ok(ipv6 + ipv4),
        },
    }
}

/// The answer records that a reply delivers, if it delivers a DNS message.
pub open spec fn answers_in(reply: ReplyView) -> Option<Seq<AnswerRecord>> {
    match reply_message(reply) {
        Ok(message) => wire_answers(message),
        Err(_) => None,
    }
}

/// A resolution is over after two exchanges at most, and it ends in
/// [`outcome`]: whichever step is the last one, it holds the addresses of the
/// `AAAA` reply followed by those of the `A` reply, or the first error. There
/// is no partial result.
pub proof fn lemma_resolution_ends_in_outcome(
    client: ClientView,
    name: Seq<char>,
    first: ReplyView,
    second: ReplyView,
)
    ensures
        match begin(client, name) {
            StepView::Done(result) => result == outcome(name, first, second),
            StepView::Exchange(pending) => match advance(pending, first) {
                StepView::Done(result) => result == outcome(name, first, second),
                StepView::Exchange(next) => advance(next, second) == StepView::Done(
                    outcome(name, first, second),
                ),
            },
        },
{
    if let StepView::Exchange(pending) = begin(client, name) {
        if let StepView::Exchange(next) = advance(pending, first) {
            assert(pending.found + next.found =~= next.found);
        }
    }
}

/// Every step of a resolution leaves it in order: the first step of a client
/// that is in order does, and so does each step that follows a reply. The
/// `AAAA` sub-query is never followed by anything but the `A` sub-query.
pub proof fn lemma_steps_keep_resolution_in_order(
    client: ClientView,
    name: Seq<char>,
    pending: PendingView,
    reply: ReplyView,
)
    ensures
        client.wf() ==> (begin(client, name) matches StepView::Exchange(first) ==> first.wf()
            && first.family == RecordType::AAAA),
        pending.wf() ==> (advance(pending, reply) matches StepView::Exchange(next) ==> next.wf()
            && pending.family == RecordType::AAAA && next.family == RecordType::A),
{
    if pending.wf() {
        if let StepView::Exchange(next) = advance(pending, reply) {
            let answers = answers_in(reply).unwrap();
            lemma_addresses_are_of_family(answers, RecordType::AAAA);
            assert(next.found =~= addresses_of(answers, RecordType::AAAA));
            assert forall|i: int| 0 <= i < next.found.len() implies #[trigger] next.found[i]
                is V6 by {
                assert(addresses_of(answers, RecordType::AAAA)[i].family() == RecordType::AAAA);
            }
        }
    }
}

/// The two requests of a resolution carry the `AAAA` query and the `A` query
/// for the name, in this order, and they do so in either transport mode: the
/// mode changes the request, not the query in it.
pub proof fn lemma_requests_carry_the_queries(client: ClientView, name: Seq<char>, first: ReplyView)
    ensures
        begin(client, name) matches StepView::Exchange(pending) ==> {
            &&& payload(pending.request) == wire_query(name, RecordType::AAAA.code(), true)
            &&& advance(pending, first) matches StepView::Exchange(next) ==> payload(next.request)
                == wire_query(name, RecordType::A.code(), true)
        },
{
    if let StepView::Exchange(pending) = begin(client, name) {
        let query = wire_query(name, RecordType::AAAA.code(), true).unwrap();
        lemma_modes_carry_the_same_query(client.endpoint, query);
        if let StepView::Exchange(next) = advance(pending, first) {
            let query = wire_query(name, RecordType::A.code(), true).unwrap();
            lemma_modes_carry_the_same_query(client.endpoint, query);
        }
    }
}

/// A name without a record of either family resolves to the empty list, and
/// that is no error.
pub proof fn lemma_no_records_no_addresses(
    name: Seq<char>,
    first: ReplyView,
    second: ReplyView,
    ipv6_answers: Seq<AnswerRecord>,
    ipv4_answers: Seq<AnswerRecord>,
)
    requires
        is_dns_name(name),
        answers_in(first) == Some(ipv6_answers),
        answers_in(second) == Some(ipv4_answers),
        forall|i: int|
            0 <= i < ipv6_answers.len() ==> (#[trigger] ipv6_answers[i]).address_for(
                RecordType::AAAA,
            ) is None,
        forall|i: int|
            0 <= i < ipv4_answers.len() ==> (#[trigger] ipv4_answers[i]).address_for(
                RecordType::A,
            ) is None,
    ensures
        outcome(name, first, second) == Ok::<Seq<IpAddr>, Error>(Seq::empty()),
{
    lemma_no_addresses_iff_no_records(ipv6_answers, RecordType::AAAA);
    lemma_no_addresses_iff_no_records(ipv4_answers, RecordType::A);
    assert(addresses_of(ipv6_answers, RecordType::AAAA) + addresses_of(ipv4_answers, RecordType::A)
        =~= Seq::empty());
}

/// A name with `A` records only resolves to its IPv4 addresses: to all of
/// them, in the order of the reply, and to at least one.
pub proof fn lemma_only_ipv4_records(
    name: Seq<char>,
    first: ReplyView,
    second: ReplyView,
    ipv6_answers: Seq<AnswerRecord>,
    ipv4_answers: Seq<AnswerRecord>,
)
    requires
        is_dns_name(name),
        answers_in(first) == Some(ipv6_answers),
        answers_in(second) == Some(ipv4_answers),
        forall|i: int|
            0 <= i < ipv6_answers.len() ==> (#[trigger] ipv6_answers[i]).address_for(
                RecordType::AAAA,
            ) is None,
        exists|i: int|
            0 <= i < ipv4_answers.len() && (#[trigger] ipv4_answers[i]).address_for(RecordType::A)
                is Some,
    ensures
        outcome(name, first, second) matches Ok(addresses) && {
            &&& addresses == addresses_of(ipv4_answers, RecordType::A)
            &&& addresses.len() > 0
            &&& forall|i: int| 0 <= i < addresses.len() ==> #[trigger] addresses[i] is V4
        },
{
    lemma_no_addresses_iff_no_records(ipv6_answers, RecordType::AAAA);
    lemma_no_addresses_iff_no_records(ipv4_answers, RecordType::A);
    lemma_addresses_are_of_family(ipv4_answers, RecordType::A);
    let ipv4 = addresses_of(ipv4_answers, RecordType::A);
    assert(addresses_of(ipv6_answers, RecordType::AAAA) + ipv4 =~= ipv4);
    assert forall|i: int| 0 <= i < ipv4.len() implies #[trigger] ipv4[i] is V4 by {
        assert(ipv4[i].family() == RecordType::A);
    }
}

/// A name with records of both families resolves to the IPv6 addresses of
/// the `AAAA` reply followed by the IPv4 addresses of the `A` reply, each in
/// the order of its reply. No IPv6 address follows an IPv4 address, however
/// the records of the two families are mixed in either reply.
pub proof fn lemma_ipv6_before_ipv4(
    name: Seq<char>,
    first: ReplyView,
    second: ReplyView,
    ipv6_answers: Seq<AnswerRecord>,
    ipv4_answers: Seq<AnswerRecord>,
)
    requires
        is_dns_name(name),
        answers_in(first) == Some(ipv6_answers),
        answers_in(second) == Some(ipv4_answers),
    ensures
        outcome(name, first, second) matches Ok(addresses) && {
            &&& addresses == addresses_of(ipv6_answers, RecordType::AAAA) + addresses_of(
                ipv4_answers,
                RecordType::A,
            )
            &&& forall|i: int, j: int|
                0 <= i < j < addresses.len() && #[trigger] addresses[i] is V4
                    ==> #[trigger] addresses[j] is V4
        },
{
    let ipv6 = addresses_of(ipv6_answers, RecordType::AAAA);
    let ipv4 = addresses_of(ipv4_answers, RecordType::A);
    lemma_addresses_are_of_family(ipv6_answers, RecordType::AAAA);
    lemma_addresses_are_of_family(ipv4_answers, RecordType::A);
    let addresses = ipv6 + ipv4;
    assert forall|i: int, j: int|
        0 <= i < j < addresses.len() && #[trigger] addresses[i] is V4
        implies #[trigger] addresses[j] is V4 by {
        if i < ipv6.len() {
            assert(ipv6[i].family() == RecordType::AAAA);
        } else {
            assert(ipv4[j - ipv6.len()].family() == RecordType::A);
        }
    }
}

/// An exchange that fails, or whose reply has a status that is no success,
/// ends the resolution with that error of the transport, whichever sub-query
/// it belongs to and whatever was found before.
pub proof fn lemma_failed_exchange_ends_resolution(pending: PendingView, reply: ReplyView)
    requires
        reply_message(reply) is Err,
    ensures
        advance(pending, reply) == StepView::Done(Err(reply_message(reply)->Err_0)),
        reply_message(reply)->Err_0 is Transport,
{
}

/// A failure of the transport on either sub-query makes the whole
/// resolution fail with that failure: never a success, partial or empty.
pub proof fn lemma_transport_failure_fails_resolution(
    name: Seq<char>,
    first: ReplyView,
    second: ReplyView,
)
    requires
        is_dns_name(name),
    ensures
        reply_message(first) matches Err(error) ==> outcome(name, first, second) == Err::<
            Seq<IpAddr>,
            Error,
        >(error) && error is Transport,
        answers_in(first) is Some ==> (reply_message(second) matches Err(error) ==> outcome(
            name,
            first,
            second,
        ) == Err::<Seq<IpAddr>, Error>(error) && error is Transport),
{
}

} // verus!
