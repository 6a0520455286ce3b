//! The canonical event schema and the on-chain events accumulator.
//!
//! Every emitted event is hashed and folded into a running hash chain,
//! `root = SHA-256(prev_root || SHA-256(encoded_event))`, starting from the
//! all-zero root, so the root commits to the ordered event history.
use vstd::prelude::*;
use crate::hashing::{sha256, sha256_digest};

verus! {

/// Version of the canonical event schema.
pub const EVENT_SCHEMA_VERSION: u32 = 1;

/// The canonical event every contract emits.
#[derive(Clone, Debug)]
pub struct EventSchema {
    /// Name of the emitting contract (e.g. `POLICY`).
    pub contract: String,
    /// The state transition that occurred (e.g. `CREATE`).
    pub action: String,
    /// Ledger sequence at emission time.
    pub block_number: u32,
    /// Hash of the emitting transaction (all-zero: the host does not expose
    /// it).
    pub tx_hash: [u8; 32],
    /// Canonical encoding of the event-specific data.
    pub payload: Vec<u8>,
    /// Schema version.
    pub version: u32,
}

/// The all-zero 32-byte value the accumulator starts from.
pub open spec fn zero_root() -> Seq<u8> {
    Seq::new(32, |i: int| 0u8)
}

/// The accumulator after folding in events with the given encodings, in
/// order.
pub open spec fn events_chain(encoded_events: Seq<Seq<u8>>) -> Seq<u8>
    decreases encoded_events.len(),
{
    if encoded_events.len() == 0 {
        zero_root()
    } else {
        sha256_digest(
            events_chain(encoded_events.drop_last()) + sha256_digest(encoded_events.last()),
        )
    }
}

/// Hash an event's canonical encoding for the accumulator.
pub fn hash_event(encoded_event: &[u8]) -> (h: [u8; 32])
    ensures
        h@ == sha256_digest(encoded_event@),
{
    sha256(encoded_event)
}

/// The events accumulator of one contract.
#[derive(Clone, Debug)]
pub struct EventLog {
    pub root: [u8; 32],
}

/// `prev || next` for two digests.
fn concat32(prev: &[u8; 32], next: &[u8; 32]) -> (r: Vec<u8>)
    ensures
        r@ == prev@ + next@,
{
    let mut out: Vec<u8> = Vec::new();
    let mut k: usize = 0;
    while k < 32
        invariant
            k <= 32,
            out@ == prev@.take(k as int),
        decreases 32 - k,
    {
        out.push(prev[k]);
        k = k + 1;
        assert(out@ =~= prev@.take(k as int));
    }
    k = 0;
    while k < 32
        invariant
            k <= 32,
            out@ == prev@ + next@.take(k as int),
        decreases 32 - k,
    {
        out.push(next[k]);
        k = k + 1;
        assert(out@ =~= prev@ + next@.take(k as int));
    }
    assert(next@.take(32) =~= next@);
    out
}

impl EventLog {
    /// An accumulator with no events folded in.
    pub fn new() -> (l: Self)
        ensures
            l.root@ == zero_root(),
    {
        let l = EventLog { root: [0u8; 32] };
        assert(l.root@ =~= zero_root());
        l
    }

    /// Fold an event, given by its canonical encoding, into the accumulator.
    pub fn record_event(&mut self, encoded_event: &[u8])
        ensures
            final(self).root@ == sha256_digest(old(self).root@ + sha256_digest(encoded_event@)),
    {
        let event_hash = hash_event(encoded_event);
        let input = concat32(&self.root, &event_hash);
        self.root = sha256(input.as_slice());
    }

    /// Build the canonical event for `contract`/`action` with `payload` at
    /// `block_number`, and fold its canonical encoding `encoded_event` into
    /// the accumulator.
    pub fn emit_event(
        &mut self,
        contract: String,
        action: String,
        payload: Vec<u8>,
        block_number: u32,
        encoded_event: &[u8],
    ) -> (schema: EventSchema)
        ensures
            schema.contract == contract,
            schema.action == action,
            schema.block_number == block_number,
            schema.tx_hash@ == zero_root(),
            schema.payload == payload,
            schema.version == EVENT_SCHEMA_VERSION,
            final(self).root@ == sha256_digest(old(self).root@ + sha256_digest(encoded_event@)),
    {
        let schema = EventSchema {
            contract,
            action,
            block_number,
            tx_hash: [0u8; 32],
            payload,
            version: EVENT_SCHEMA_VERSION,
        };
        assert(schema.tx_hash@ =~= zero_root());
        self.record_event(encoded_event);
        schema
    }

    /// The current commitment over all folded events (all-zero if none).
    pub fn get_events_root(&self) -> (r: [u8; 32])
        ensures
            r == self.root,
    {
        self.root
    }
}

/// The accumulator commits to the ordered history: an accumulator that
/// holds the chain of some events holds, after recording one more, the
/// chain of the history extended by it.
pub proof fn law_events_root_is_hash_chain(
    before: EventLog,
    after: EventLog,
    history: Seq<Seq<u8>>,
    encoded_event: Seq<u8>,
)
    requires
        before.root@ == events_chain(history),
        after.root@ == sha256_digest(before.root@ + sha256_digest(encoded_event)),
    ensures
        after.root@ == events_chain(history.push(encoded_event)),
{
    assert(history.push(encoded_event).drop_last() =~= history);
}

} // verus!
