//! Answer records, addresses, and the extraction of one family's addresses
//! from an answer section.

use vstd::prelude::*;

verus! {

/// The record types a sub-query can ask for: the two address families.
#[derive(Clone, Copy, Debug, PartialEq, Eq, Structural)]
pub enum RecordType {
    /// IPv4 address record.
    A,
    /// IPv6 address record.
    AAAA,
}

impl RecordType {
    /// The type code that stands for this record type in a DNS message.
    pub open spec fn code(self) -> u16 {
        match self {
            RecordType::A => 1,
            RecordType::AAAA => 28,
        }
    }
}

/// An IP address, held as its octets in network order.
#[derive(Clone, Copy, Debug, PartialEq, Eq)]
pub enum IpAddr {
    V4([u8; 4]),
    V6([u8; 16]),
}

impl IpAddr {
    /// The record type that carries addresses of this family.
    pub open spec fn family(self) -> RecordType {
        match self {
            IpAddr::V4(_) => RecordType::A,
            IpAddr::V6(_) => RecordType::AAAA,
        }
    }
}

/// One decoded resource record of an answer section, reduced to what address
/// extraction reads: the record type and, for address records, the raw data.
#[derive(Clone, Copy, Debug, PartialEq, Eq)]
pub enum AnswerRecord {
    /// An `A` record with its four address octets.
    A([u8; 4]),
    /// An `AAAA` record with its sixteen address octets.
    AAAA([u8; 16]),
    /// Any other record: one of another type (`CNAME`, `TXT`, ...), or one
    /// without data.
    Other,
}

impl AnswerRecord {
    /// The address this record contributes to a sub-query for `family`:
    /// its data if it is an address record of that family, nothing otherwise.
    pub open spec fn address_for(self, family: RecordType) -> Option<IpAddr> {
        match (self, family) {
            (AnswerRecord::A(octets), RecordType::A) => Some(IpAddr::V4(octets)),
            (AnswerRecord::AAAA(octets), RecordType::AAAA) => Some(IpAddr::V6(octets)),
            _ => None,
        }
    }

    /// Executable form of [`AnswerRecord::address_for`].
    pub fn matching_address(&self, family: RecordType) -> (address: Option<IpAddr>)
        ensures
            address == self.address_for(family),
    {
        match (*self, family) {
            (AnswerRecord::A(octets), RecordType::A) => Some(IpAddr::V4(octets)),
            (AnswerRecord::AAAA(octets), RecordType::AAAA) => Some(IpAddr::V6(octets)),
            _ => None,
        }
    }
}

/// The addresses of family `family` among `answers`, in the order of
/// `answers`: nothing is sorted and nothing removed but the records that are
/// not address records of that family.
pub open spec fn addresses_of(answers: Seq<AnswerRecord>, family: RecordType) -> Seq<IpAddr> {
    answers.filter_map(|r: AnswerRecord| r.address_for(family))
}

/// Extracts the addresses of one sub-query from its decoded answer records.
pub fn extract_addresses(answers: &Vec<AnswerRecord>, family: RecordType) -> (found: Vec<IpAddr>)
    ensures
        found@ == addresses_of(answers@, family),
{
    let mut found: Vec<IpAddr> = Vec::new();
    let mut i: usize = 0;
    while i < answers.len()
        invariant
            i <= answers.len(),
            found@ == addresses_of(answers@.take(i as int), family),
        decreases answers.len() - i,
    {
        proof {
            answers@.lemma_filter_map_take_succ(|r: AnswerRecord| r.address_for(family), i as int);
        }
        if let Some(address) = answers[i].matching_address(family) {
            found.push(address);
        }
        i += 1;
    }
    assert(answers@.take(i as int) == answers@);
    found
}

/// Extraction goes record by record: the addresses of two runs of records,
/// one after the other, are those of the first run followed by those of the
/// second. So the order of the records is the order of the addresses.
pub proof fn lemma_addresses_of_concat(
    first: Seq<AnswerRecord>,
    second: Seq<AnswerRecord>,
    family: RecordType,
)
    ensures
        addresses_of(first + second, family) == addresses_of(first, family) + addresses_of(
            second,
            family,
        ),
    decreases second.len(),
{
    if second.len() == 0 {
        assert(first + second == first);
    } else {
        lemma_addresses_of_concat(first, second.drop_last(), family);
        assert((first + second).drop_last() == first + second.drop_last());
    }
}

/// A single record gives its address if it is an address record of the
/// family asked for, and nothing otherwise. With
/// [`lemma_addresses_of_concat`] this says that no address is dropped or
/// merged with an equal one.
pub proof fn lemma_addresses_of_one(record: AnswerRecord, family: RecordType)
    ensures
        addresses_of(seq![record], family) == match record.address_for(family) {
            Some(address) => seq![address],
            None => Seq::empty(),
        },
{
    Seq::lemma_filter_map_singleton(record, |r: AnswerRecord| r.address_for(family));
}

/// Every address extracted for a family is of that family.
pub proof fn lemma_addresses_are_of_family(answers: Seq<AnswerRecord>, family: RecordType)
    ensures
        forall|i: int|
            0 <= i < addresses_of(answers, family).len() ==> (#[trigger] addresses_of(
                answers,
                family,
            )[i]).family() == family,
    decreases answers.len(),
{
    if answers.len() > 0 {
        lemma_addresses_are_of_family(answers.drop_last(), family);
    }
}

/// Extraction gives no address exactly where no record is an address record
/// of the family asked for.
pub proof fn lemma_no_addresses_iff_no_records(answers: Seq<AnswerRecord>, family: RecordType)
    ensures
        addresses_of(answers, family).len() == 0 <==> forall|i: int|
            0 <= i < answers.len() ==> (#[trigger] answers[i]).address_for(family) is None,
    decreases answers.len(),
{
    if answers.len() > 0 {
        let rest = answers.drop_last();
        lemma_no_addresses_iff_no_records(rest, family);
        if addresses_of(answers, family).len() == 0 {
            assert forall|i: int| 0 <= i < answers.len() implies (#[trigger] answers[i])
                .address_for(family) is None by {
                if i < rest.len() {
                    assert(rest[i] == answers[i]);
                }
            }
        } else if answers.last().address_for(family) is None {
            let i = choose|i: int|
                0 <= i < rest.len() && !((#[trigger] rest[i]).address_for(family) is None);
            assert(rest[i] == answers[i]);
        }
    }
}

} // verus!
