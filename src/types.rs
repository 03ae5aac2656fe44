//! The records that cross the bridge, the raw log entries they are read from,
//! and the filters that select those logs.
use vstd::prelude::*;

verus! {

/// A deposit seen on the origin chain, to be relayed by a `deposit` call.
/// `value` is a 256-bit unsigned integer as 32 big-endian bytes.
#[derive(Clone, Copy, Debug, PartialEq, Eq)]
pub struct EthereumDeposit {
    pub recipient: [u8; 20],
    pub value: [u8; 32],
    pub hash: [u8; 32],
}

/// A `Deposit` event read from the bridge contract.
#[derive(Clone, Copy, Debug, PartialEq, Eq)]
pub struct KovanDeposit {
    pub recipient: [u8; 20],
    pub value: [u8; 32],
}

/// A `Withdraw` event read from the bridge contract, with the hash of the
/// transaction that emitted it.
#[derive(Clone, Copy, Debug, PartialEq, Eq)]
pub struct KovanWithdraw {
    pub recipient: [u8; 20],
    pub value: [u8; 32],
    pub hash: [u8; 32],
}

/// A `CollectedSignatures` event: the authority chosen to relay a withdraw,
/// and the hash of the message whose signatures are complete.
#[derive(Clone, Copy, Debug, PartialEq, Eq)]
pub struct KovanCollectSignatures {
    pub authority: [u8; 20],
    pub message_hash: [u8; 32],
}

/// A raw log entry as the chain reports it.
#[derive(Clone, Debug)]
pub struct LogEntry {
    pub topics: Vec<[u8; 32]>,
    pub data: Vec<u8>,
    pub transaction_hash: Option<[u8; 32]>,
}

/// A log query: the contract addresses to match, and for each of the four
/// topic slots either the accepted values or `None` for any value.
#[derive(Clone, Debug)]
pub struct LogFilter {
    pub addresses: Vec<[u8; 20]>,
    pub topic0: Option<Vec<[u8; 32]>>,
    pub topic1: Option<Vec<[u8; 32]>>,
    pub topic2: Option<Vec<[u8; 32]>>,
    pub topic3: Option<Vec<[u8; 32]>>,
}

/// A definition that the bridge needs from the contract descriptor.
#[derive(Clone, Copy, Debug, PartialEq, Eq, Structural)]
pub enum Definition {
    DepositFunction,
    CollectSignaturesFunction,
    DepositEvent,
    WithdrawEvent,
    CollectedSignaturesEvent,
}

/// The descriptor does not declare a definition the bridge needs.
#[derive(Clone, Copy, Debug, PartialEq, Eq, Structural)]
pub enum ConfigError {
    MissingDefinition(Definition),
}

/// The kind a decoded field was expected to have.
#[derive(Clone, Copy, Debug, PartialEq, Eq, Structural)]
pub enum FieldKind {
    Address,
    Uint,
    Bytes32,
}

/// Why a log entry could not be read as a record.
#[derive(Clone, Copy, Debug, PartialEq, Eq, Structural)]
pub enum DecodeError {
    /// The topics or data do not decode against the event's schema.
    InvalidLog,
    /// The event decoded to another number of values than expected.
    ArityMismatch,
    /// A value was not of the kind its position requires.
    TypeMismatch(FieldKind),
    /// The log does not name the transaction that emitted it.
    MissingTransactionContext,
}

/// Canonical bytes of a withdraw: recipient, value, then transaction hash.
pub open spec fn withdraw_bytes(w: KovanWithdraw) -> Seq<u8> {
    w.recipient@ + w.value@ + w.hash@
}

/// Appends `src` to `out`.
pub fn push_all(out: &mut Vec<u8>, src: &[u8])
    ensures
        final(out)@ == old(out)@ + src@,
{
    let mut i: usize = 0;
    while i < src.len()
        invariant
            i <= src@.len(),
            out@ == old(out)@ + src@.subrange(0, i as int),
        decreases src@.len() - i,
    {
        out.push(src[i]);
        i = i + 1;
        assert(src@.subrange(0, i as int) =~= src@.subrange(0, i - 1 as int).push(src@[i - 1]));
    }
    assert(src@.subrange(0, src@.len() as int) =~= src@);
}

impl KovanWithdraw {
    /// The canonical 84-byte form that authorities sign.
    pub fn bytes(&self) -> (r: Vec<u8>)
        ensures
            r@ == withdraw_bytes(*self),
    {
        let mut out: Vec<u8> = Vec::new();
        push_all(&mut out, self.recipient.as_slice());
        push_all(&mut out, self.value.as_slice());
        push_all(&mut out, self.hash.as_slice());
        assert(out@ =~= withdraw_bytes(*self));
        out
    }
}

} // verus!
