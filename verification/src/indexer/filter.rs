//! Log filters: what a provider is asked for, and how the filter of one
//! window is put together from a topic, a contract and a block range.

use vstd::prelude::*;
use crate::indexer::error::ConfigError;

verus! {

/// A 20-byte contract address.
pub type Address = [u8; 20];

/// A 32-byte hash: a topic or a transaction hash.
pub type Hash32 = [u8; 32];

/// What one slot of a filter asks of a log.
#[derive(Clone, Debug, PartialEq, Eq)]
pub enum Constraint<T> {
    /// Nothing: every value passes.
    Any,
    /// The value is this one.
    One(T),
    /// The value is one of these.
    AnyOf(Vec<T>),
}

/// A `Constraint` as a mathematical value.
pub enum ConstraintView<T> {
    Any,
    One(T),
    AnyOf(Seq<T>),
}

impl<T: View> View for Constraint<T> {
    type V = ConstraintView<T::V>;

    open spec fn view(&self) -> ConstraintView<T::V> {
        match *self {
            Constraint::Any => ConstraintView::Any,
            Constraint::One(value) => ConstraintView::One(value@),
            Constraint::AnyOf(values) => ConstraintView::AnyOf(
                Seq::new(values@.len(), |i: int| values@[i]@),
            ),
        }
    }
}

impl<T: View + Copy> Constraint<T> {
    /// A second constraint that asks the same.
    pub fn duplicate(&self) -> (copy: Constraint<T>)
        ensures
            copy@ == self@,
    {
        match self {
            Constraint::Any => Constraint::Any,
            Constraint::One(value) => Constraint::One(*value),
            Constraint::AnyOf(values) => {
                let mut copied: Vec<T> = Vec::new();
                let mut i: usize = 0;
                while i < values.len()
                    invariant
                        i <= values.len(),
                        copied@ == values@.take(i as int),
                    decreases values.len() - i,
                {
                    copied.push(values[i]);
                    i += 1;
                    assert(values@.take(i as int) == values@.take(i - 1).push(values@[i - 1]));
                }
                assert(values@.take(values.len() as int) == values@);
                Constraint::AnyOf(copied)
            },
        }
    }
}

/// A filter over logs: an address constraint, four topic slots and an
/// inclusive block range.
#[derive(Clone, Debug, PartialEq, Eq)]
pub struct LogFilter {
    pub address: Constraint<Address>,
    pub topic0: Constraint<Hash32>,
    pub topic1: Constraint<Hash32>,
    pub topic2: Constraint<Hash32>,
    pub topic3: Constraint<Hash32>,
    pub from_block: Option<u64>,
    pub to_block: Option<u64>,
}

/// A `LogFilter` as a mathematical value.
pub struct LogFilterView {
    pub address: ConstraintView<Seq<u8>>,
    pub topic0: ConstraintView<Seq<u8>>,
    pub topic1: ConstraintView<Seq<u8>>,
    pub topic2: ConstraintView<Seq<u8>>,
    pub topic3: ConstraintView<Seq<u8>>,
    pub from_block: Option<u64>,
    pub to_block: Option<u64>,
}

impl LogFilterView {
    /// This filter with its block range replaced by `from` to `to`, both
    /// included.
    pub open spec fn over(self, from: u64, to: u64) -> LogFilterView {
        LogFilterView { from_block: Some(from), to_block: Some(to), ..self }
    }
}

impl View for LogFilter {
    type V = LogFilterView;

    open spec fn view(&self) -> LogFilterView {
        LogFilterView {
            address: self.address@,
            topic0: self.topic0@,
            topic1: self.topic1@,
            topic2: self.topic2@,
            topic3: self.topic3@,
            from_block: self.from_block,
            to_block: self.to_block,
        }
    }
}

impl LogFilter {
    /// The filter that lets every log pass.
    pub fn new() -> (filter: LogFilter)
        ensures
            filter@ == (LogFilterView {
                address: ConstraintView::Any,
                topic0: ConstraintView::Any,
                topic1: ConstraintView::Any,
                topic2: ConstraintView::Any,
                topic3: ConstraintView::Any,
                from_block: None,
                to_block: None,
            }),
    {
        LogFilter {
            address: Constraint::Any,
            topic0: Constraint::Any,
            topic1: Constraint::Any,
            topic2: Constraint::Any,
            topic3: Constraint::Any,
            from_block: None,
            to_block: None,
        }
    }
}

impl LogFilter {
    /// This filter with its block range replaced by `from` to `to`, both
    /// included. Every other constraint stays.
    pub fn for_blocks(&self, from: u64, to: u64) -> (filter: LogFilter)
        ensures
            filter@ == self@.over(from, to),
    {
        LogFilter {
            address: self.address.duplicate(),
            topic0: self.topic0.duplicate(),
            topic1: self.topic1.duplicate(),
            topic2: self.topic2.duplicate(),
            topic3: self.topic3.duplicate(),
            from_block: Some(from),
            to_block: Some(to),
        }
    }
}

/// Where the logs of a subscription come from.
#[derive(Clone, Debug, PartialEq, Eq)]
pub enum AddressOrFilter {
    /// One contract, by the hex form of its address.
    Address(String),
    /// A partial filter whose constraints all stay in force.
    Filter(LogFilter),
}

impl AddressOrFilter {
    /// A second value that names the same source.
    pub fn duplicate(&self) -> (copy: AddressOrFilter)
        ensures
            copy@ == self@,
    {
        match self {
            AddressOrFilter::Address(text) => AddressOrFilter::Address(text.clone()),
            AddressOrFilter::Filter(template) => AddressOrFilter::Filter(
                LogFilter {
                    address: template.address.duplicate(),
                    topic0: template.topic0.duplicate(),
                    topic1: template.topic1.duplicate(),
                    topic2: template.topic2.duplicate(),
                    topic3: template.topic3.duplicate(),
                    from_block: template.from_block,
                    to_block: template.to_block,
                },
            ),
        }
    }
}

/// An `AddressOrFilter` as a mathematical value.
pub enum AddressOrFilterView {
    Address(Seq<char>),
    Filter(LogFilterView),
}

impl View for AddressOrFilter {
    type V = AddressOrFilterView;

    open spec fn view(&self) -> AddressOrFilterView {
        match *self {
            AddressOrFilter::Address(text) => AddressOrFilterView::Address(text@),
            AddressOrFilter::Filter(template) => AddressOrFilterView::Filter(template@),
        }
    }
}

/// The 20 bytes that `text` denotes as an address, as the provider library
/// reads hex strings; `None` where it refuses the text.
pub uninterp spec fn text_address(text: Seq<char>) -> Option<Seq<u8>>;

/// The 32 bytes that `text` denotes as a hash, as the provider library reads
/// hex strings; `None` where it refuses the text.
pub uninterp spec fn text_hash(text: Seq<char>) -> Option<Seq<u8>>;

/// Parses an address with the `FromStr` impl of `ethers::types::Address`.
/// Trusted: the outcome depends on the text alone, and a refusal of the
/// library comes back as `None`.
#[verifier::external_body]
fn parse_address(text: &str) -> (parsed: Option<Address>)
    ensures
        bytes_of(parsed) == text_address(text@),
{
    match text.parse::<ethers::types::Address>() {
        Ok(address) => Some(address.0),
        Err(_) => None,
    }
}

/// Parses a hash with the `FromStr` impl of `ethers::types::H256`.
/// Trusted: the outcome depends on the text alone, and a refusal of the
/// library comes back as `None`.
#[verifier::external_body]
fn parse_hash(text: &str) -> (parsed: Option<Hash32>)
    ensures
        bytes_of(parsed) == text_hash(text@),
{
    match text.parse::<ethers::types::H256>() {
        Ok(hash) => Some(hash.0),
        Err(_) => None,
    }
}

/// A source of logs whose address, if it has one, has been read.
#[derive(Clone, Debug, PartialEq, Eq)]
pub enum FilterSource {
    /// One contract. `None` stands for an address that could not be read.
    Address(Option<Address>),
    /// A partial filter.
    Template(LogFilter),
}

/// A `FilterSource` as a mathematical value.
pub enum FilterSourceView {
    Address(Option<Seq<u8>>),
    Template(LogFilterView),
}

/// The bytes of an array that may be missing.
pub open spec fn bytes_of<const N: usize>(array: Option<[u8; N]>) -> Option<Seq<u8>> {
    match array {
        Some(a) => Some(a@),
        None => None,
    }
}

impl View for FilterSource {
    type V = FilterSourceView;

    open spec fn view(&self) -> FilterSourceView {
        match *self {
            FilterSource::Address(address) => FilterSourceView::Address(bytes_of(address)),
            FilterSource::Template(template) => FilterSourceView::Template(template@),
        }
    }
}

/// The filter for the blocks `from` to `to` of one subscription, given the
/// bytes of its topic and the source of its logs.
///
/// For a single contract the filter asks for that address and for `topic0`,
/// and leaves the other topics open. For a template every constraint of the
/// template stays, and `topic0` and the block range are laid over it. An
/// address that could not be read is reported before a topic that could not.
pub open spec fn composed(
    topic: Option<Seq<u8>>,
    source: FilterSourceView,
    from: u64,
    to: u64,
) -> Result<LogFilterView, ConfigError> {
    match source {
        FilterSourceView::Address(None) => Err(ConfigError::InvalidAddress),
        FilterSourceView::Address(Some(address)) => match topic {
            None => Err(ConfigError::InvalidTopic),
            Some(topic0) => Ok(
                LogFilterView {
                    address: ConstraintView::One(address),
                    topic0: ConstraintView::One(topic0),
                    topic1: ConstraintView::Any,
                    topic2: ConstraintView::Any,
                    topic3: ConstraintView::Any,
                    from_block: Some(from),
                    to_block: Some(to),
                },
            ),
        },
        FilterSourceView::Template(template) => match topic {
            None => Err(ConfigError::InvalidTopic),
            Some(topic0) => Ok(
                LogFilterView {
                    topic0: ConstraintView::One(topic0),
                    from_block: Some(from),
                    to_block: Some(to),
                    ..template
                },
            ),
        },
    }
}

/// Whether a result is the given one, filters being compared by their views.
pub open spec fn is_filter(
    filter: Result<LogFilter, ConfigError>,
    expected: Result<LogFilterView, ConfigError>,
) -> bool {
    match filter {
        Ok(f) => expected == Ok::<LogFilterView, ConfigError>(f@),
        Err(e) => expected == Err::<LogFilterView, ConfigError>(e),
    }
}

/// Puts a filter together from the bytes of a topic and a source of logs.
pub fn compose_filter(topic: Option<Hash32>, source: FilterSource, from: u64, to: u64) -> (filter:
    Result<LogFilter, ConfigError>)
    ensures
        is_filter(filter, composed(bytes_of(topic), source@, from, to)),
{
    match source {
        FilterSource::Address(None) => Err(ConfigError::InvalidAddress),
        FilterSource::Address(Some(address)) => match topic {
            None => Err(ConfigError::InvalidTopic),
            Some(topic0) => Ok(
                LogFilter {
                    address: Constraint::One(address),
                    topic0: Constraint::One(topic0),
                    topic1: Constraint::Any,
                    topic2: Constraint::Any,
                    topic3: Constraint::Any,
                    from_block: Some(from),
                    to_block: Some(to),
                },
            ),
        },
        FilterSource::Template(template) => match topic {
            None => Err(ConfigError::InvalidTopic),
            Some(topic0) => Ok(
                LogFilter {
                    address: template.address,
                    topic0: Constraint::One(topic0),
                    topic1: template.topic1,
                    topic2: template.topic2,
                    topic3: template.topic3,
                    from_block: Some(from),
                    to_block: Some(to),
                },
            ),
        },
    }
}

/// The filter that `build_filter` owes for the given texts: `composed`,
/// applied to the bytes that the texts denote.
pub open spec fn built(
    topic_id: Seq<char>,
    source: AddressOrFilterView,
    from: u64,
    to: u64,
) -> Result<LogFilterView, ConfigError> {
    composed(
        text_hash(topic_id),
        match source {
            AddressOrFilterView::Address(text) => FilterSourceView::Address(text_address(text)),
            AddressOrFilterView::Filter(template) => FilterSourceView::Template(template),
        },
        from,
        to,
    )
}

/// Builds the filter for the blocks `current_block` to `next_block`, both
/// included, of the event `topic_id` on the given contract or template.
///
/// Fails with `InvalidAddress` where the address text is refused, else with
/// `InvalidTopic` where the topic text is refused.
pub fn build_filter(
    topic_id: &str,
    address_or_filter: &AddressOrFilter,
    current_block: u64,
    next_block: u64,
) -> (filter: Result<LogFilter, ConfigError>)
    ensures
        is_filter(filter, built(topic_id@, address_or_filter@, current_block, next_block)),
{
    let topic = parse_hash(topic_id);
    match address_or_filter {
        AddressOrFilter::Address(text) => {
            let address = parse_address(text.as_str());
            compose_filter(topic, FilterSource::Address(address), current_block, next_block)
        },
        AddressOrFilter::Filter(template) => {
            let copy = LogFilter {
                address: template.address.duplicate(),
                topic0: template.topic0.duplicate(),
                topic1: template.topic1.duplicate(),
                topic2: template.topic2.duplicate(),
                topic3: template.topic3.duplicate(),
                from_block: template.from_block,
                to_block: template.to_block,
            };
            compose_filter(topic, FilterSource::Template(copy), current_block, next_block)
        },
    }
}

} // verus!
