//! Identifiers of clients, accounts, orders and instruments, and the scalar time and UUID types.

use vstd::prelude::*;

verus! {

/// Identifier of an execution client.
#[derive(Debug, Eq)]
pub struct ClientId(pub String);

impl View for ClientId {
    type V = Seq<char>;

    open spec fn view(&self) -> Seq<char> {
        self.0@
    }
}

impl ClientId {
    /// The identifier with the given text.
    pub fn new(value: &str) -> (id: Self)
        ensures
            id@ == value@,
    {
        ClientId(value.to_owned())
    }

    /// The text of the identifier.
    pub fn as_str(&self) -> (text: &str)
        ensures
            text@ == self@,
    {
        self.0.as_str()
    }
}

impl Clone for ClientId {
    fn clone(&self) -> (copy: Self)
        ensures
            copy == *self,
    {
        ClientId(self.0.clone())
    }
}

impl PartialEq for ClientId {
    fn eq(&self, other: &Self) -> (r: bool) {
        self.0 == other.0
    }
}

impl vstd::std_specs::cmp::PartialEqSpecImpl for ClientId {
    open spec fn obeys_eq_spec() -> bool {
        true
    }

    open spec fn eq_spec(&self, other: &Self) -> bool {
        self@ == other@
    }
}

/// Identifier of a venue account.
#[derive(Debug, Eq)]
pub struct AccountId(pub String);

impl View for AccountId {
    type V = Seq<char>;

    open spec fn view(&self) -> Seq<char> {
        self.0@
    }
}

impl AccountId {
    /// The identifier with the given text.
    pub fn new(value: &str) -> (id: Self)
        ensures
            id@ == value@,
    {
        AccountId(value.to_owned())
    }

    /// The text of the identifier.
    pub fn as_str(&self) -> (text: &str)
        ensures
            text@ == self@,
    {
        self.0.as_str()
    }
}

impl Clone for AccountId {
    fn clone(&self) -> (copy: Self)
        ensures
            copy == *self,
    {
        AccountId(self.0.clone())
    }
}

impl PartialEq for AccountId {
    fn eq(&self, other: &Self) -> (r: bool) {
        self.0 == other.0
    }
}

impl vstd::std_specs::cmp::PartialEqSpecImpl for AccountId {
    open spec fn obeys_eq_spec() -> bool {
        true
    }

    open spec fn eq_spec(&self, other: &Self) -> bool {
        self@ == other@
    }
}

/// Identifier that the client gives an order.
#[derive(Debug, Eq)]
pub struct ClientOrderId(pub String);

impl View for ClientOrderId {
    type V = Seq<char>;

    open spec fn view(&self) -> Seq<char> {
        self.0@
    }
}

impl ClientOrderId {
    /// The identifier with the given text.
    pub fn new(value: &str) -> (id: Self)
        ensures
            id@ == value@,
    {
        ClientOrderId(value.to_owned())
    }

    /// The text of the identifier.
    pub fn as_str(&self) -> (text: &str)
        ensures
            text@ == self@,
    {
        self.0.as_str()
    }
}

impl Clone for ClientOrderId {
    fn clone(&self) -> (copy: Self)
        ensures
            copy == *self,
    {
        ClientOrderId(self.0.clone())
    }
}

impl PartialEq for ClientOrderId {
    fn eq(&self, other: &Self) -> (r: bool) {
        self.0 == other.0
    }
}

impl vstd::std_specs::cmp::PartialEqSpecImpl for ClientOrderId {
    open spec fn obeys_eq_spec() -> bool {
        true
    }

    open spec fn eq_spec(&self, other: &Self) -> bool {
        self@ == other@
    }
}

/// Identifier that the venue gives an order.
#[derive(Debug, Eq)]
pub struct VenueOrderId(pub String);

impl View for VenueOrderId {
    type V = Seq<char>;

    open spec fn view(&self) -> Seq<char> {
        self.0@
    }
}

impl VenueOrderId {
    /// The identifier with the given text.
    pub fn new(value: &str) -> (id: Self)
        ensures
            id@ == value@,
    {
        VenueOrderId(value.to_owned())
    }

    /// The text of the identifier.
    pub fn as_str(&self) -> (text: &str)
        ensures
            text@ == self@,
    {
        self.0.as_str()
    }
}

impl Clone for VenueOrderId {
    fn clone(&self) -> (copy: Self)
        ensures
            copy == *self,
    {
        VenueOrderId(self.0.clone())
    }
}

impl PartialEq for VenueOrderId {
    fn eq(&self, other: &Self) -> (r: bool) {
        self.0 == other.0
    }
}

impl vstd::std_specs::cmp::PartialEqSpecImpl for VenueOrderId {
    open spec fn obeys_eq_spec() -> bool {
        true
    }

    open spec fn eq_spec(&self, other: &Self) -> bool {
        self@ == other@
    }
}

/// Identifier that the venue gives a trade.
#[derive(Debug, Eq)]
pub struct TradeId(pub String);

impl View for TradeId {
    type V = Seq<char>;

    open spec fn view(&self) -> Seq<char> {
        self.0@
    }
}

impl TradeId {
    /// The identifier with the given text.
    pub fn new(value: &str) -> (id: Self)
        ensures
            id@ == value@,
    {
        TradeId(value.to_owned())
    }

    /// The text of the identifier.
    pub fn as_str(&self) -> (text: &str)
        ensures
            text@ == self@,
    {
        self.0.as_str()
    }
}

impl Clone for TradeId {
    fn clone(&self) -> (copy: Self)
        ensures
            copy == *self,
    {
        TradeId(self.0.clone())
    }
}

impl PartialEq for TradeId {
    fn eq(&self, other: &Self) -> (r: bool) {
        self.0 == other.0
    }
}

impl vstd::std_specs::cmp::PartialEqSpecImpl for TradeId {
    open spec fn obeys_eq_spec() -> bool {
        true
    }

    open spec fn eq_spec(&self, other: &Self) -> bool {
        self@ == other@
    }
}

/// Identifier of the strategy that owns an order.
#[derive(Debug, Eq)]
pub struct StrategyId(pub String);

impl View for StrategyId {
    type V = Seq<char>;

    open spec fn view(&self) -> Seq<char> {
        self.0@
    }
}

impl StrategyId {
    /// The identifier with the given text.
    pub fn new(value: &str) -> (id: Self)
        ensures
            id@ == value@,
    {
        StrategyId(value.to_owned())
    }

    /// The text of the identifier.
    pub fn as_str(&self) -> (text: &str)
        ensures
            text@ == self@,
    {
        self.0.as_str()
    }
}

impl Clone for StrategyId {
    fn clone(&self) -> (copy: Self)
        ensures
            copy == *self,
    {
        StrategyId(self.0.clone())
    }
}

impl PartialEq for StrategyId {
    fn eq(&self, other: &Self) -> (r: bool) {
        self.0 == other.0
    }
}

impl vstd::std_specs::cmp::PartialEqSpecImpl for StrategyId {
    open spec fn obeys_eq_spec() -> bool {
        true
    }

    open spec fn eq_spec(&self, other: &Self) -> bool {
        self@ == other@
    }
}

/// Identifier of the trader that a node runs for.
#[derive(Debug, Eq)]
pub struct TraderId(pub String);

impl View for TraderId {
    type V = Seq<char>;

    open spec fn view(&self) -> Seq<char> {
        self.0@
    }
}

impl TraderId {
    /// The identifier with the given text.
    pub fn new(value: &str) -> (id: Self)
        ensures
            id@ == value@,
    {
        TraderId(value.to_owned())
    }

    /// The text of the identifier.
    pub fn as_str(&self) -> (text: &str)
        ensures
            text@ == self@,
    {
        self.0.as_str()
    }
}

impl Clone for TraderId {
    fn clone(&self) -> (copy: Self)
        ensures
            copy == *self,
    {
        TraderId(self.0.clone())
    }
}

impl PartialEq for TraderId {
    fn eq(&self, other: &Self) -> (r: bool) {
        self.0 == other.0
    }
}

impl vstd::std_specs::cmp::PartialEqSpecImpl for TraderId {
    open spec fn obeys_eq_spec() -> bool {
        true
    }

    open spec fn eq_spec(&self, other: &Self) -> bool {
        self@ == other@
    }
}

/// Identifier of an instrument: its symbol at one venue.
#[derive(Debug, Eq)]
pub struct InstrumentId {
    /// Symbol that the venue uses.
    pub symbol: String,
    /// Venue that lists the symbol.
    pub venue: String,
}

impl View for InstrumentId {
    type V = (Seq<char>, Seq<char>);

    open spec fn view(&self) -> (Seq<char>, Seq<char>) {
        (self.symbol@, self.venue@)
    }
}

impl InstrumentId {
    /// The instrument `symbol` at `venue`.
    pub fn new(symbol: &str, venue: &str) -> (id: Self)
        ensures
            id@ == (symbol@, venue@),
    {
        InstrumentId { symbol: symbol.to_owned(), venue: venue.to_owned() }
    }
}

impl Clone for InstrumentId {
    fn clone(&self) -> (copy: Self)
        ensures
            copy == *self,
    {
        InstrumentId { symbol: self.symbol.clone(), venue: self.venue.clone() }
    }
}

impl PartialEq for InstrumentId {
    fn eq(&self, other: &Self) -> (r: bool) {
        self.symbol == other.symbol && self.venue == other.venue
    }
}

impl vstd::std_specs::cmp::PartialEqSpecImpl for InstrumentId {
    open spec fn obeys_eq_spec() -> bool {
        true
    }

    open spec fn eq_spec(&self, other: &Self) -> bool {
        self@ == other@
    }
}

/// A version 4 UUID, or the nil UUID that stands for an identifier not yet assigned.
#[derive(Clone, Copy, Debug, PartialEq, Eq, Structural, Hash)]
pub struct UUID4 {
    /// The 128 bits, most significant first.
    pub bits: u128,
}

/// The four version bits of a UUID.
pub const UUID_VERSION_MASK: u128 = 0xf000_0000_0000_0000_0000;

/// The version bits of a version 4 UUID.
pub const UUID_VERSION_FOUR: u128 = 0x4000_0000_0000_0000_0000;

/// The two variant bits of a UUID.
pub const UUID_VARIANT_MASK: u128 = 0xc000_0000_0000_0000;

/// The variant bits of an RFC 4122 UUID.
pub const UUID_VARIANT_RFC: u128 = 0x8000_0000_0000_0000;

impl UUID4 {
    /// Whether the version and variant bits are those of a version 4 UUID.
    pub open spec fn is_version_four(self) -> bool {
        &&& self.bits & UUID_VERSION_MASK == UUID_VERSION_FOUR
        &&& self.bits & UUID_VARIANT_MASK == UUID_VARIANT_RFC
    }

    /// The version 4 UUID with the given random bits: the version and the variant are set, every
    /// other bit is kept.
    pub fn from_random_bits(random: u128) -> (id: Self)
        ensures
            id.is_version_four(),
            id.bits & !(UUID_VERSION_MASK | UUID_VARIANT_MASK) == random & !(UUID_VERSION_MASK
                | UUID_VARIANT_MASK),
    {
        let kept: u128 = random & !(UUID_VERSION_MASK | UUID_VARIANT_MASK);
        let bits: u128 = kept | UUID_VERSION_FOUR | UUID_VARIANT_RFC;
        assert(bits & UUID_VERSION_MASK == UUID_VERSION_FOUR && bits & UUID_VARIANT_MASK
            == UUID_VARIANT_RFC && bits & !(UUID_VERSION_MASK | UUID_VARIANT_MASK) == kept)
            by (bit_vector)
            requires
                kept == random & !(UUID_VERSION_MASK | UUID_VARIANT_MASK),
                bits == kept | UUID_VERSION_FOUR | UUID_VARIANT_RFC,
        ;
        UUID4 { bits }
    }

    /// Whether no identifier has been assigned.
    pub fn is_nil(&self) -> (r: bool)
        ensures
            r == (self.bits == 0),
    {
        self.bits == 0
    }
}

impl Default for UUID4 {
    /// The nil UUID.
    fn default() -> (id: Self)
        ensures
            id.bits == 0,
    {
        UUID4 { bits: 0 }
    }
}

/// A version 4 UUID is never nil, whatever the random bits.
pub proof fn law_version_four_is_not_nil(id: UUID4)
    requires
        id.is_version_four(),
    ensures
        id.bits != 0,
{
    let bits = id.bits;
    assert(bits & UUID_VERSION_MASK == UUID_VERSION_FOUR ==> bits != 0) by (bit_vector);
}

/// Nanoseconds since the Unix epoch.
#[derive(Clone, Copy, Debug, PartialEq, Eq, Structural, Hash)]
pub struct UnixNanos(pub u64);

/// Nanoseconds in one millisecond.
pub const NANOS_PER_MILLI: u64 = 1_000_000;

/// Nanoseconds in one minute.
pub const NANOS_PER_MINUTE: u64 = 60_000_000_000;

impl UnixNanos {
    /// The instant `millis` milliseconds after the epoch.
    pub fn from_millis(millis: u64) -> (t: Self)
        requires
            millis * NANOS_PER_MILLI <= u64::MAX,
        ensures
            t.0 == millis * NANOS_PER_MILLI,
    {
        UnixNanos(millis * NANOS_PER_MILLI)
    }
}

} // verus!
