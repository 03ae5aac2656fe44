//! The bridge contract's calls, events and filters, bound to one descriptor.
use vstd::prelude::*;

use crate::abi::{
    abi_encode, abi_encoding, address_word, declares_function, event_named, event_signature,
    event_topic, find_event, has_function, parsed_log,
    lemma_be_bytes_len, lemma_push_value, parse_event_log, right_padded, tails, uint_word, zeros,
    AbiValue,
};
use crate::types::{
    withdraw_bytes, ConfigError, DecodeError, Definition, EthereumDeposit, FieldKind,
    KovanCollectSignatures, KovanDeposit, KovanWithdraw, LogEntry, LogFilter,
};

verus! {

/// Payload of a `deposit` call: the recipient left-padded to a word, the
/// value's big-endian word, and the origin-chain hash.
pub open spec fn deposit_call_bytes(d: EthereumDeposit) -> Seq<u8> {
    address_word(d.recipient@) + d.value@ + d.hash@
}

/// The recovery byte `v` as a 256-bit integer: its only nonzero byte is the last.
pub open spec fn v_word(v: u8) -> Seq<u8> {
    zeros(31).push(v)
}

/// Payload of a `collectSignatures` call with the 65-byte signature `sig`:
/// the words `v`, `r`, `s`, the offset of the withdraw's bytes, then their
/// length and the 84 bytes padded to a whole word.
pub open spec fn collect_signatures_call_bytes(sig: Seq<u8>, w: KovanWithdraw) -> Seq<u8> {
    v_word(sig[64]) + sig.subrange(0, 32) + sig.subrange(32, 64) + uint_word(128) + uint_word(84)
        + withdraw_bytes(w) + zeros(12)
}

/// `f` selects the logs of `address` whose first topic is `topic`, whatever
/// the other three topics are.
pub open spec fn selects_event(f: LogFilter, address: [u8; 20], topic: [u8; 32]) -> bool {
    &&& f.addresses@ == seq![address]
    &&& f.topic0 matches Some(t) && t@ == seq![topic]
    &&& f.topic1 is None
    &&& f.topic2 is None
    &&& f.topic3 is None
}

/// A `Deposit` event's values, read positionally as (address, uint).
pub open spec fn deposit_decoding(vs: Seq<AbiValue>) -> Result<KovanDeposit, DecodeError> {
    if vs.len() != 2 {
        Err(DecodeError::ArityMismatch)
    } else {
        match vs[0] {
            AbiValue::Address(a) => match vs[1] {
                AbiValue::Uint(v) => Ok(KovanDeposit { recipient: a, value: v }),
                _ => Err(DecodeError::TypeMismatch(FieldKind::Uint)),
            },
            _ => Err(DecodeError::TypeMismatch(FieldKind::Address)),
        }
    }
}

/// A `Withdraw` event's values, read as (address, uint), then the hash of
/// the transaction that emitted it, which must be there.
pub open spec fn withdraw_decoding(vs: Seq<AbiValue>, tx: Option<[u8; 32]>) -> Result<
    KovanWithdraw,
    DecodeError,
> {
    match deposit_decoding(vs) {
        Err(e) => Err(e),
        Ok(d) => match tx {
            None => Err(DecodeError::MissingTransactionContext),
            Some(h) => Ok(KovanWithdraw { recipient: d.recipient, value: d.value, hash: h }),
        },
    }
}

/// `r` is what a `CollectedSignatures` event's values read as (address, bytes32) give.
pub open spec fn collected_signatures_decoded(
    vs: Seq<AbiValue>,
    r: Result<KovanCollectSignatures, DecodeError>,
) -> bool {
    if vs.len() != 2 {
        r == Err::<KovanCollectSignatures, DecodeError>(DecodeError::ArityMismatch)
    } else {
        match vs[0] {
            AbiValue::Address(a) => match vs[1] {
                AbiValue::FixedBytes(b) if b@.len() == 32 => r matches Ok(c) && c.authority == a
                    && c.message_hash@ == b@,
                _ => r == Err::<KovanCollectSignatures, DecodeError>(
                    DecodeError::TypeMismatch(FieldKind::Bytes32),
                ),
            },
            _ => r == Err::<KovanCollectSignatures, DecodeError>(
                DecodeError::TypeMismatch(FieldKind::Address),
            ),
        }
    }
}

/// Reads a `Deposit` event's decoded values.
pub fn deposit_from_values(values: &Vec<AbiValue>) -> (r: Result<KovanDeposit, DecodeError>)
    ensures
        r == deposit_decoding(values@),
{
    if values.len() != 2 {
        return Err(DecodeError::ArityMismatch);
    }
    let recipient = match &values[0] {
        AbiValue::Address(a) => *a,
        _ => {
            return Err(DecodeError::TypeMismatch(FieldKind::Address));
        },
    };
    let value = match &values[1] {
        AbiValue::Uint(v) => *v,
        _ => {
            return Err(DecodeError::TypeMismatch(FieldKind::Uint));
        },
    };
    Ok(KovanDeposit { recipient, value })
}

/// Reads a `Withdraw` event's decoded values and its transaction hash.
pub fn withdraw_from_values(values: &Vec<AbiValue>, transaction_hash: Option<[u8; 32]>) -> (r:
    Result<KovanWithdraw, DecodeError>)
    ensures
        r == withdraw_decoding(values@, transaction_hash),
{
    let d = match deposit_from_values(values) {
        Ok(d) => d,
        Err(e) => {
            return Err(e);
        },
    };
    match transaction_hash {
        Some(hash) => Ok(KovanWithdraw { recipient: d.recipient, value: d.value, hash }),
        None => Err(DecodeError::MissingTransactionContext),
    }
}

/// Reads a `CollectedSignatures` event's decoded values.
pub fn collected_signatures_from_values(values: &Vec<AbiValue>) -> (r: Result<
    KovanCollectSignatures,
    DecodeError,
>)
    ensures
        collected_signatures_decoded(values@, r),
{
    if values.len() != 2 {
        return Err(DecodeError::ArityMismatch);
    }
    let authority = match &values[0] {
        AbiValue::Address(a) => *a,
        _ => {
            return Err(DecodeError::TypeMismatch(FieldKind::Address));
        },
    };
    let bytes = match &values[1] {
        AbiValue::FixedBytes(b) => b,
        _ => {
            return Err(DecodeError::TypeMismatch(FieldKind::Bytes32));
        },
    };
    if bytes.len() != 32 {
        return Err(DecodeError::TypeMismatch(FieldKind::Bytes32));
    }
    let mut message_hash = [0u8; 32];
    let mut i: usize = 0;
    while i < 32
        invariant
            i <= 32,
            bytes@.len() == 32,
            forall|j: int| 0 <= j < i ==> message_hash@[j] == bytes@[j],
        decreases 32 - i,
    {
        message_hash[i] = bytes[i];
        i = i + 1;
    }
    assert(message_hash@ =~= bytes@);
    Ok(KovanCollectSignatures { authority, message_hash })
}

/// A filter on `address` whose first topic must be `topic`.
fn event_filter(address: [u8; 20], topic: [u8; 32]) -> (r: LogFilter)
    ensures
        selects_event(r, address, topic),
{
    let mut addresses: Vec<[u8; 20]> = Vec::new();
    addresses.push(address);
    let mut topics: Vec<[u8; 32]> = Vec::new();
    topics.push(topic);
    assert(addresses@ =~= seq![address]);
    assert(topics@ =~= seq![topic]);
    LogFilter {
        addresses,
        topic0: Some(topics),
        topic1: None,
        topic2: None,
        topic3: None,
    }
}

/// The `start..end` bytes of `src`.
fn copy_range(src: &[u8], start: usize, end: usize) -> (r: Vec<u8>)
    requires
        start <= end <= src@.len(),
    ensures
        r@ == src@.subrange(start as int, end as int),
{
    let mut out: Vec<u8> = Vec::new();
    let mut i: usize = start;
    while i < end
        invariant
            start <= i <= end <= src@.len(),
            out@ == src@.subrange(start as int, i as int),
        decreases end - i,
    {
        out.push(src[i]);
        i = i + 1;
        assert(out@ =~= src@.subrange(start as int, i as int));
    }
    out
}

/// The first definition, in the order `KovanBridge::new` looks for them,
/// that `contract` lacks.
pub open spec fn missing_definition(contract: ethabi::Contract) -> Option<Definition> {
    if !declares_function(contract, "deposit"@) {
        Some(Definition::DepositFunction)
    } else if !declares_function(contract, "collectSignatures"@) {
        Some(Definition::CollectSignaturesFunction)
    } else if event_named(contract, "Deposit"@) is None {
        Some(Definition::DepositEvent)
    } else if event_named(contract, "Withdraw"@) is None {
        Some(Definition::WithdrawEvent)
    } else if event_named(contract, "CollectedSignatures"@) is None {
        Some(Definition::CollectedSignaturesEvent)
    } else {
        None
    }
}

/// The bridge contract as the relay sees it: the events it reads, resolved
/// once from the contract descriptor.
pub struct KovanBridge<'a> {
    pub deposit_event: &'a ethabi::Event,
    pub withdraw_event: &'a ethabi::Event,
    pub collected_signatures_event: &'a ethabi::Event,
}

impl<'a> KovanBridge<'a> {
    /// `self` holds the events that `contract` declares under their names.
    pub open spec fn bound_to(&self, contract: ethabi::Contract) -> bool {
        &&& event_named(contract, "Deposit"@) == Some(*self.deposit_event)
        &&& event_named(contract, "Withdraw"@) == Some(*self.withdraw_event)
        &&& event_named(contract, "CollectedSignatures"@) == Some(*self.collected_signatures_event)
    }

    /// Binds the bridge to `contract`, which must declare the `deposit` and
    /// `collectSignatures` functions and the `Deposit`, `Withdraw` and
    /// `CollectedSignatures` events. Done once, before any call is encoded
    /// or any log decoded.
    pub fn new(contract: &'a ethabi::Contract) -> (r: Result<KovanBridge<'a>, ConfigError>)
        ensures
            match missing_definition(*contract) {
                Some(d) => r == Err::<KovanBridge<'a>, ConfigError>(
                    ConfigError::MissingDefinition(d),
                ),
                None => r matches Ok(b) && b.bound_to(*contract),
            },
    {
        if !has_function(contract, "deposit") {
            return Err(ConfigError::MissingDefinition(Definition::DepositFunction));
        }
        if !has_function(contract, "collectSignatures") {
            return Err(ConfigError::MissingDefinition(Definition::CollectSignaturesFunction));
        }
        let deposit_event = match find_event(contract, "Deposit") {
            Some(e) => e,
            None => {
                return Err(ConfigError::MissingDefinition(Definition::DepositEvent));
            },
        };
        let withdraw_event = match find_event(contract, "Withdraw") {
            Some(e) => e,
            None => {
                return Err(ConfigError::MissingDefinition(Definition::WithdrawEvent));
            },
        };
        let collected_signatures_event = match find_event(contract, "CollectedSignatures") {
            Some(e) => e,
            None => {
                return Err(ConfigError::MissingDefinition(Definition::CollectedSignaturesEvent));
            },
        };
        Ok(KovanBridge { deposit_event, withdraw_event, collected_signatures_event })
    }

    /// Arguments of the `deposit` call that relays `deposit`: three words.
    pub fn deposit_payload(&self, deposit: EthereumDeposit) -> (r: Vec<u8>)
        ensures
            r@ == deposit_call_bytes(deposit),
    {
        let hash = copy_range(deposit.hash.as_slice(), 0, 32);
        let mut values: Vec<AbiValue> = Vec::new();
        values.push(AbiValue::Address(deposit.recipient));
        values.push(AbiValue::Uint(deposit.value));
        values.push(AbiValue::FixedBytes(hash));
        proof {
            let s0 = Seq::<AbiValue>::empty();
            let s1 = s0.push(values@[0]);
            let s2 = s1.push(values@[1]);
            assert(values@ =~= s2.push(values@[2]));
            lemma_push_value(s0, values@[0], 96);
            lemma_push_value(s1, values@[1], 96);
            lemma_push_value(s2, values@[2], 96);
            assert(tails(s0) =~= Seq::<u8>::empty());
            assert(right_padded(deposit.hash@) =~= deposit.hash@);
            assert(abi_encoding(values@) =~= deposit_call_bytes(deposit));
        }
        abi_encode(&values)
    }

    /// Arguments of the `collectSignatures` call that submits `signature`
    /// (r, s, v) for `withdraw`: `v` widened to a word, `r`, `s`, and the
    /// withdraw's canonical bytes. The signature is not checked against the
    /// withdraw here; the contract does that.
    pub fn collect_signatures_payload(&self, signature: [u8; 65], withdraw: KovanWithdraw) -> (r:
        Vec<u8>)
        ensures
            r@ == collect_signatures_call_bytes(signature@, withdraw),
    {
        let sig = signature.as_slice();
        let r = copy_range(sig, 0, 32);
        let s = copy_range(sig, 32, 64);
        let mut v = [0u8; 32];
        v[31] = signature[64];
        let w = withdraw.bytes();
        let mut values: Vec<AbiValue> = Vec::new();
        values.push(AbiValue::Uint(v));
        values.push(AbiValue::FixedBytes(r));
        values.push(AbiValue::FixedBytes(s));
        values.push(AbiValue::Bytes(w));
        proof {
            let s0 = Seq::<AbiValue>::empty();
            let s1 = s0.push(values@[0]);
            let s2 = s1.push(values@[1]);
            let s3 = s2.push(values@[2]);
            assert(values@ =~= s3.push(values@[3]));
            lemma_push_value(s0, values@[0], 128);
            lemma_push_value(s1, values@[1], 128);
            lemma_push_value(s2, values@[2], 128);
            lemma_push_value(s3, values@[3], 128);
            assert(tails(s0) =~= Seq::<u8>::empty());
            assert(tails(s3) =~= Seq::<u8>::empty());
            lemma_be_bytes_len(84, 32);
            assert(v@ =~= v_word(signature@[64]));
            assert(right_padded(r@) =~= r@);
            assert(right_padded(s@) =~= s@);
            assert(abi_encoding(values@) =~= collect_signatures_call_bytes(signature@, withdraw));
        }
        abi_encode(&values)
    }

    /// The filter for `Deposit` events of the bridge deployed at `address`.
    pub fn deposits_filter(&self, address: [u8; 20]) -> (r: LogFilter)
        ensures
            selects_event(r, address, event_topic(*self.deposit_event)),
    {
        event_filter(address, event_signature(self.deposit_event))
    }

    /// The filter for `Withdraw` events of the bridge deployed at `address`.
    pub fn withdraws_filter(&self, address: [u8; 20]) -> (r: LogFilter)
        ensures
            selects_event(r, address, event_topic(*self.withdraw_event)),
    {
        event_filter(address, event_signature(self.withdraw_event))
    }

    /// The filter for `CollectedSignatures` events of the bridge deployed at `address`.
    pub fn collect_signatures_filter(&self, address: [u8; 20]) -> (r: LogFilter)
        ensures
            selects_event(r, address, event_topic(*self.collected_signatures_event)),
    {
        event_filter(address, event_signature(self.collected_signatures_event))
    }

    /// Reads a `Deposit` log: `InvalidLog` where it does not decode against
    /// the event, else what its decoded values give.
    pub fn deposit_from_log(&self, log: LogEntry) -> (r: Result<KovanDeposit, DecodeError>)
        ensures
            r == match parsed_log(*self.deposit_event, log.topics@, log.data@) {
                None => Err(DecodeError::InvalidLog),
                Some(vs) => deposit_decoding(vs),
            },
    {
        match parse_event_log(self.deposit_event, &log.topics, &log.data) {
            None => Err(DecodeError::InvalidLog),
            Some(values) => deposit_from_values(&values),
        }
    }

    /// Reads a `Withdraw` log: `InvalidLog` where it does not decode against
    /// the event, else its values as a deposit's are read, and last the log
    /// must name the transaction that emitted it.
    pub fn withdraw_from_log(&self, log: LogEntry) -> (r: Result<KovanWithdraw, DecodeError>)
        ensures
            r == match parsed_log(*self.withdraw_event, log.topics@, log.data@) {
                None => Err(DecodeError::InvalidLog),
                Some(vs) => withdraw_decoding(vs, log.transaction_hash),
            },
    {
        match parse_event_log(self.withdraw_event, &log.topics, &log.data) {
            None => Err(DecodeError::InvalidLog),
            Some(values) => withdraw_from_values(&values, log.transaction_hash),
        }
    }

    /// Reads a `CollectedSignatures` log, whose event is taken to be
    /// `(address authority, bytes32 messageHash)`.
    pub fn collect_signatures_from_log(&self, log: LogEntry) -> (r: Result<
        KovanCollectSignatures,
        DecodeError,
    >)
        ensures
            match parsed_log(*self.collected_signatures_event, log.topics@, log.data@) {
                None => r == Err::<KovanCollectSignatures, DecodeError>(DecodeError::InvalidLog),
                Some(vs) => collected_signatures_decoded(vs, r),
            },
    {
        match parse_event_log(self.collected_signatures_event, &log.topics, &log.data) {
            None => Err(DecodeError::InvalidLog),
            Some(values) => collected_signatures_from_values(&values),
        }
    }
}

/// Round trip of a deposit: the first two words of its `deposit` payload are
/// the ABI encoding of the (address, uint) pair that a `Deposit` event
/// carries, and reading that pair back gives the deposit's recipient and value.
pub proof fn law_deposit_round_trip(d: EthereumDeposit)
    ensures
        deposit_call_bytes(d).subrange(0, 64) == abi_encoding(
            seq![AbiValue::Address(d.recipient), AbiValue::Uint(d.value)],
        ),
        deposit_decoding(seq![AbiValue::Address(d.recipient), AbiValue::Uint(d.value)])
            == Ok::<KovanDeposit, DecodeError>(KovanDeposit { recipient: d.recipient, value: d.value }),
{
    let s0 = Seq::<AbiValue>::empty();
    let s1 = s0.push(AbiValue::Address(d.recipient));
    let s2 = s1.push(AbiValue::Uint(d.value));
    assert(s2 =~= seq![AbiValue::Address(d.recipient), AbiValue::Uint(d.value)]);
    lemma_push_value(s0, AbiValue::Address(d.recipient), 64);
    lemma_push_value(s1, AbiValue::Uint(d.value), 64);
    assert(tails(s0) =~= Seq::<u8>::empty());
    assert(deposit_call_bytes(d).subrange(0, 64) =~= abi_encoding(s2));
}

/// A `deposit` payload is three words: the recipient left-padded with
/// zeros, the value's big-endian word, and the origin-chain hash as it is.
pub proof fn law_deposit_words(d: EthereumDeposit)
    ensures
        deposit_call_bytes(d).len() == 96,
        deposit_call_bytes(d).subrange(0, 32) == zeros(12) + d.recipient@,
        deposit_call_bytes(d).subrange(32, 64) == d.value@,
        deposit_call_bytes(d).subrange(64, 96) == d.hash@,
{
    let p = deposit_call_bytes(d);
    assert(p.subrange(0, 32) =~= zeros(12) + d.recipient@);
    assert(p.subrange(32, 64) =~= d.value@);
    assert(p.subrange(64, 96) =~= d.hash@);
}

/// A `Deposit` or `Withdraw` event that decodes to any number of values
/// other than two is an arity mismatch.
pub proof fn law_arity_mismatch(vs: Seq<AbiValue>, tx: [u8; 32])
    requires
        vs.len() != 2,
    ensures
        deposit_decoding(vs) == Err::<KovanDeposit, DecodeError>(DecodeError::ArityMismatch),
        withdraw_decoding(vs, Some(tx)) == Err::<KovanWithdraw, DecodeError>(
            DecodeError::ArityMismatch,
        ),
{
}

/// A `Withdraw` event whose values read as a recipient and a value, but
/// whose log names no transaction, is a missing-context failure.
pub proof fn law_withdraw_missing_context(vs: Seq<AbiValue>)
    requires
        deposit_decoding(vs) is Ok,
    ensures
        withdraw_decoding(vs, None) == Err::<KovanWithdraw, DecodeError>(
            DecodeError::MissingTransactionContext,
        ),
{
}

/// The signature splits into fixed words of the `collectSignatures`
/// payload: `v` first, as a word whose last byte is `sig[64]` and whose
/// other bytes are zero, then `r = sig[0..32]` and `s = sig[32..64]`.
pub proof fn law_signature_split(sig: Seq<u8>, w: KovanWithdraw)
    requires
        sig.len() == 65,
    ensures
        collect_signatures_call_bytes(sig, w).len() == 96 + 32 + 32 + 96,
        forall|i: int| 0 <= i < 31 ==> collect_signatures_call_bytes(sig, w)[i] == 0,
        collect_signatures_call_bytes(sig, w)[31] == sig[64],
        collect_signatures_call_bytes(sig, w).subrange(32, 64) == sig.subrange(0, 32),
        collect_signatures_call_bytes(sig, w).subrange(64, 96) == sig.subrange(32, 64),
{
    let p = collect_signatures_call_bytes(sig, w);
    lemma_be_bytes_len(128, 32);
    lemma_be_bytes_len(84, 32);
    assert(p.subrange(32, 64) =~= sig.subrange(0, 32));
    assert(p.subrange(64, 96) =~= sig.subrange(32, 64));
}

} // verus!
