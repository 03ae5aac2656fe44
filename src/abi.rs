//! Values of the contract ABI, their word layout, and the calls into ethabi
//! that encode and decode them.
use vstd::prelude::*;

verus! {

#[verifier::external_type_specification]
#[verifier::external_body]
pub struct ExToken(ethabi::Token);

#[verifier::external_type_specification]
#[verifier::external_body]
pub struct ExEvent(ethabi::Event);

#[verifier::external_type_specification]
#[verifier::external_body]
pub struct ExContract(ethabi::Contract);

/// One ABI value as this library reads and writes it. Integers and hashes are
/// held as their 32 big-endian bytes; every kind that the bridge never reads
/// is carried through untouched in `Other`.
pub enum AbiValue {
    Address([u8; 20]),
    Uint([u8; 32]),
    FixedBytes(Vec<u8>),
    Bytes(Vec<u8>),
    Other(ethabi::Token),
}

pub open spec fn zeros(n: nat) -> Seq<u8> {
    Seq::new(n, |i: int| 0u8)
}

/// Number of zero bytes that bring `n` bytes up to a whole number of words.
pub open spec fn pad_len(n: nat) -> nat {
    if n % 32 == 0 {
        0
    } else {
        (32 - n % 32) as nat
    }
}

pub open spec fn right_padded(b: Seq<u8>) -> Seq<u8> {
    b + zeros(pad_len(b.len()))
}

/// The `k` low-order bytes of `n`, most significant first.
pub open spec fn be_bytes(n: nat, k: nat) -> Seq<u8>
    decreases k,
{
    if k == 0 {
        Seq::empty()
    } else {
        be_bytes(n / 256, (k - 1) as nat).push((n % 256) as u8)
    }
}

/// A length or an offset as one 32-byte word.
pub open spec fn uint_word(n: nat) -> Seq<u8> {
    be_bytes(n, 32)
}

/// An address left-padded with zeros to one word.
pub open spec fn address_word(a: Seq<u8>) -> Seq<u8> {
    zeros(12) + a
}

/// The values that the encoder lays out: every kind but `Other`, and fixed
/// bytes of one to thirty-two bytes.
pub open spec fn is_encodable(v: AbiValue) -> bool {
    match v {
        AbiValue::FixedBytes(b) => 0 < b@.len() <= 32,
        AbiValue::Other(_) => false,
        _ => true,
    }
}

/// The head word of `v`; a dynamic value's head is the offset of its tail.
pub open spec fn head_word(v: AbiValue, offset: nat) -> Seq<u8> {
    match v {
        AbiValue::Address(a) => address_word(a@),
        AbiValue::Uint(w) => w@,
        AbiValue::FixedBytes(b) => right_padded(b@),
        AbiValue::Bytes(_) => uint_word(offset),
        AbiValue::Other(_) => Seq::empty(),
    }
}

/// The tail of `v`: its length word and its padded contents for `Bytes`,
/// nothing for a static value.
pub open spec fn tail_of(v: AbiValue) -> Seq<u8> {
    match v {
        AbiValue::Bytes(b) => uint_word(b@.len()) + right_padded(b@),
        _ => Seq::empty(),
    }
}

pub open spec fn tails(vs: Seq<AbiValue>) -> Seq<u8>
    decreases vs.len(),
{
    if vs.len() == 0 {
        Seq::empty()
    } else {
        tails(vs.drop_last()) + tail_of(vs.last())
    }
}

/// The head words of `vs`, where the tails start `base` bytes in.
pub open spec fn heads(vs: Seq<AbiValue>, base: nat) -> Seq<u8>
    decreases vs.len(),
{
    if vs.len() == 0 {
        Seq::empty()
    } else {
        heads(vs.drop_last(), base) + head_word(vs.last(), base + tails(vs.drop_last()).len())
    }
}

/// Standard ABI encoding of an argument list: one head word per value, then
/// the tails of the dynamic values in order.
pub open spec fn abi_encoding(vs: Seq<AbiValue>) -> Seq<u8> {
    heads(vs, 32 * vs.len()) + tails(vs)
}

pub proof fn lemma_be_bytes_len(n: nat, k: nat)
    ensures
        be_bytes(n, k).len() == k,
    decreases k,
{
    if k > 0 {
        lemma_be_bytes_len(n / 256, (k - 1) as nat);
    }
}

/// Appending a value appends its head word to the heads and its tail to the tails.
pub proof fn lemma_push_value(vs: Seq<AbiValue>, v: AbiValue, base: nat)
    ensures
        tails(vs.push(v)) == tails(vs) + tail_of(v),
        heads(vs.push(v), base) == heads(vs, base) + head_word(v, base + tails(vs).len()),
{
    assert(vs.push(v).drop_last() =~= vs);
}

impl AbiValue {
    /// Relies on `ethabi::Token`'s variants, and on `U256::from(&[u8; 32])`
    /// reading the word big-endian.
    #[verifier::external_body]
    fn to_token(&self) -> ethabi::Token {
        match self {
            AbiValue::Address(a) => ethabi::Token::Address(ethabi::Address::from(*a)),
            AbiValue::Uint(w) => ethabi::Token::Uint(ethabi::Uint::from(w)),
            AbiValue::FixedBytes(b) => ethabi::Token::FixedBytes(b.clone()),
            AbiValue::Bytes(b) => ethabi::Token::Bytes(b.clone()),
            AbiValue::Other(t) => t.clone(),
        }
    }

    /// Relies on `ethabi::Token`'s variants, and on `<[u8; 32]>::from(U256)`
    /// writing the word big-endian.
    #[verifier::external_body]
    fn from_token(t: ethabi::Token) -> AbiValue {
        match t {
            ethabi::Token::Address(a) => AbiValue::Address(a.0),
            ethabi::Token::Uint(u) => AbiValue::Uint(u.into()),
            ethabi::Token::FixedBytes(b) => AbiValue::FixedBytes(b),
            ethabi::Token::Bytes(b) => AbiValue::Bytes(b),
            other => AbiValue::Other(other),
        }
    }
}

/// Relies on `ethabi::encode`: head words in order (an address left-padded, a
/// uint as its big-endian word, fixed bytes right-padded, the byte offset of
/// the tail for `Bytes`), then for each `Bytes` its length word and its
/// contents right-padded. Offsets and lengths are written as `u32`, hence the
/// bound on the size.
#[verifier::external_body]
pub(crate) fn abi_encode(values: &Vec<AbiValue>) -> (r: Vec<u8>)
    requires
        forall|i: int| 0 <= i < values@.len() ==> is_encodable(#[trigger] values@[i]),
        32 * values@.len() + tails(values@).len() < 0x1_0000_0000,
    ensures
        r@ == abi_encoding(values@),
{
    let tokens: Vec<ethabi::Token> = values.iter().map(AbiValue::to_token).collect();
    ethabi::encode(&tokens)
}

/// What `ethabi::Event::parse_log` makes of a log's topics and data under
/// an event's schema: the parameter values, or `None` where they do not fit.
pub uninterp spec fn parsed_log(event: ethabi::Event, topics: Seq<[u8; 32]>, data: Seq<u8>) -> Option<
    Seq<AbiValue>,
>;

/// The topic hash that `ethabi::Event::signature` gives an event.
pub uninterp spec fn event_topic(event: ethabi::Event) -> [u8; 32];

/// Whether `ethabi::Contract::function` finds a function of that name.
pub uninterp spec fn declares_function(contract: ethabi::Contract, name: Seq<char>) -> bool;

/// The event that `ethabi::Contract::event` finds under that name.
pub uninterp spec fn event_named(contract: ethabi::Contract, name: Seq<char>) -> Option<ethabi::Event>;

/// Relies on `ethabi::Event::parse_log`: the values of the event's
/// parameters in their declared order, or `None` where the topics or the data
/// do not fit the event. The outcome depends on the event and the log alone.
#[verifier::external_body]
pub(crate) fn parse_event_log(event: &ethabi::Event, topics: &Vec<[u8; 32]>, data: &Vec<u8>) -> (r:
    Option<Vec<AbiValue>>)
    ensures
        match r {
            Some(v) => parsed_log(*event, topics@, data@) == Some(v@),
            None => parsed_log(*event, topics@, data@) is None,
        },
{
    let topics: Vec<ethabi::Hash> = topics.iter().map(|t| ethabi::Hash::from(*t)).collect();
    let raw = ethabi::RawLog { topics, data: data.clone() };
    event.parse_log(raw).ok().map(
        |log| log.params.into_iter().map(|p| AbiValue::from_token(p.value)).collect(),
    )
}

/// Relies on `ethabi::Event::signature`: the event's topic hash, computed
/// from its name and parameter types.
#[verifier::external_body]
pub(crate) fn event_signature(event: &ethabi::Event) -> (r: [u8; 32])
    ensures
        r == event_topic(*event),
{
    event.signature().0
}

/// Relies on `ethabi::Contract::event`: the event of that name, where the
/// descriptor declares one.
#[verifier::external_body]
pub(crate) fn find_event<'a>(contract: &'a ethabi::Contract, name: &str) -> (r: Option<&'a ethabi::Event>)
    ensures
        match r {
            Some(e) => event_named(*contract, name@) == Some(*e),
            None => event_named(*contract, name@) is None,
        },
{
    contract.event(name).ok()
}

/// Relies on `ethabi::Contract::function`: whether the descriptor declares a
/// function of that name.
#[verifier::external_body]
pub(crate) fn has_function(contract: &ethabi::Contract, name: &str) -> (r: bool)
    ensures
        r == declares_function(*contract, name@),
{
    contract.function(name).is_ok()
}

} // verus!
