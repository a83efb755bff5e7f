//! The cache sink: an idempotent, block-number-keyed store of block records,
//! with fork rollback. This is the state the driver loop mutates; an outside
//! key/value store mirrors it at the process edge.

use vstd::prelude::*;
use std::collections::HashMap;
use crate::event::EosSimpleBlock;
use crate::event::EosSimpleBlockView;
use crate::event::NewBlock;
use crate::event::UndoSignal;
use crate::textnum::dec_seq;
use crate::textnum::u64_to_dec;

verus! {

broadcast use vstd::std_specs::hash::group_hash_axioms;

/// Time-to-live, in seconds, of one block record in the cache.
pub const BLOCK_RECORD_TTL_SECONDS: u64 = 15;

/// A sink-side failure; the driver loop surfaces it without retrying.
#[derive(Debug, Clone, PartialEq, Eq)]
pub enum SinkError {
    WriteFailed,
}

/// What a rollback leaves behind: exactly the entries at or below
/// `last_valid`.
pub open spec fn rollback_model(
    m: Map<u64, EosSimpleBlockView>,
    last_valid: u64,
) -> Map<u64, EosSimpleBlockView> {
    Map::new(|k: u64| m.dom().contains(k) && k <= last_valid, |k: u64| m[k])
}

/// The record that a new-block event deposits in the sink.
pub open spec fn record_model(
    block_number: u64,
    block_id: Seq<char>,
    timestamp_seconds: i64,
    timestamp_nanos: i32,
) -> EosSimpleBlockView {
    EosSimpleBlockView {
        head_block_id: block_id,
        head_block_number: block_number,
        head_block_time: timestamp_text(timestamp_seconds, timestamp_nanos),
    }
}

/// The text that the producer's timestamp renders to; a pure function of the
/// two fields.
pub uninterp spec fn timestamp_text(seconds: i64, nanos: i32) -> Seq<char>;

/// Relies on `prost_types::Timestamp`'s `Display` implementation: the
/// rendering is computed from the `seconds` and `nanos` fields alone, with no
/// other input, and it never panics.
#[verifier::external_body]
fn render_timestamp(seconds: i64, nanos: i32) -> (r: String)
    ensures
        r@ == timestamp_text(seconds, nanos),
{
    prost_types::Timestamp { seconds, nanos }.to_string()
}

/// Build the cache record for one delivered block.
pub fn build_block_record(block: &NewBlock) -> (rec: EosSimpleBlock)
    ensures
        rec@ == record_model(
            block.block_number,
            block.block_id@,
            block.timestamp_seconds,
            block.timestamp_nanos,
        ),
{
    EosSimpleBlock {
        head_block_id: block.block_id.clone(),
        head_block_number: block.block_number,
        head_block_time: render_timestamp(block.timestamp_seconds, block.timestamp_nanos),
    }
}

/// The cache key under which a block's record is stored.
pub fn block_key(block_number: u64) -> (k: String)
    ensures
        k@ == "eos:simple:"@ + dec_seq(block_number as nat),
{
    let prefix = String::from_str("eos:simple:");
    prefix.concat(u64_to_dec(block_number).as_str())
}

/// The in-memory image of the cache sink, keyed by block number.
pub struct CacheSink {
    entries: HashMap<u64, EosSimpleBlock>,
    max_block: u64,
}

impl View for CacheSink {
    type V = Map<u64, EosSimpleBlockView>;

    closed spec fn view(&self) -> Map<u64, EosSimpleBlockView> {
        Map::new(
            |k: u64| self.entries@.dom().contains(k),
            |k: u64| self.entries@[k]@,
        )
    }
}

impl CacheSink {
    /// Every stored key is at most `max_block`.
    pub closed spec fn wf(&self) -> bool {
        forall|k: u64| self.entries@.dom().contains(k) ==> k <= self.max_block
    }

    /// An empty sink.
    pub fn new() -> (s: CacheSink)
        ensures
            s.wf(),
            s@ == Map::<u64, EosSimpleBlockView>::empty(),
    {
        let s = CacheSink { entries: HashMap::new(), max_block: 0 };
        proof {
            assert(s@ =~= Map::<u64, EosSimpleBlockView>::empty());
        }
        s
    }

    /// Idempotent upsert of one block record, keyed by its block number.
    pub fn apply_record(&mut self, rec: EosSimpleBlock)
        requires
            old(self).wf(),
        ensures
            final(self).wf(),
            final(self)@ == old(self)@.insert(rec.head_block_number, rec@),
    {
        let n = rec.head_block_number;
        let ghost v = rec@;
        self.entries.insert(n, rec);
        if n > self.max_block {
            self.max_block = n;
        }
        proof {
            assert(self@ =~= old(self)@.insert(n, v));
        }
    }

    /// Discard every record attributed to a block number greater than
    /// `last_valid`.
    pub fn rollback_to(&mut self, last_valid: u64)
        requires
            old(self).wf(),
        ensures
            final(self).wf(),
            final(self)@ == rollback_model(old(self)@, last_valid),
    {
        let ghost m0 = self.entries@;
        if last_valid < self.max_block {
            let max = self.max_block;
            let span = max - last_valid;
            let mut c: u64 = 0;
            while c < span
                invariant
                    c <= span,
                    span == max - last_valid,
                    last_valid < max,
                    self.max_block == max,
                    self.entries@ == m0.remove_keys(
                        Set::new(|j: u64| last_valid < j <= last_valid + c),
                    ),
                decreases span - c,
            {
                let key = last_valid + 1 + c;
                self.entries.remove(&key);
                proof {
                    assert(self.entries@ =~= m0.remove_keys(
                        Set::new(|j: u64| last_valid < j <= last_valid + (c + 1)),
                    ));
                }
                c = c + 1;
            }
            self.max_block = last_valid;
        }
        proof {
            assert(self@ =~= rollback_model(old(self)@, last_valid));
        }
    }

    /// How many records the sink currently holds.
    pub fn len(&self) -> (n: usize)
        ensures
            n == self@.dom().len(),
    {
        proof {
            assert(self.entries@.dom() =~= self@.dom());
        }
        self.entries.len()
    }

    /// Fetch the record stored for a block number, if any.
    pub fn get(&self, block_number: u64) -> (r: Option<&EosSimpleBlock>)
        ensures
            match r {
                Some(rec) => self@.dom().contains(block_number) && rec@ == self@[block_number],
                None => !self@.dom().contains(block_number),
            },
    {
        self.entries.get(&block_number)
    }
}

/// Apply one delivered block to the sink: build its record and upsert it.
/// Safe to invoke more than once for the same block.
pub fn process_block_scoped_data(sink: &mut CacheSink, data: &NewBlock) -> (r: Result<
    (),
    SinkError,
>)
    requires
        old(sink).wf(),
    ensures
        r is Ok,
        final(sink).wf(),
        final(sink)@ == old(sink)@.insert(
            data.block_number,
            record_model(
                data.block_number,
                data.block_id@,
                data.timestamp_seconds,
                data.timestamp_nanos,
            ),
        ),
{
    let rec = build_block_record(data);
    sink.apply_record(rec);
    Ok(())
}

/// Roll back every sink effect attributed to a block number greater than the
/// undo signal's last valid block.
pub fn process_block_undo_signal(sink: &mut CacheSink, undo_signal: &UndoSignal) -> (r: Result<
    (),
    SinkError,
>)
    requires
        old(sink).wf(),
    ensures
        r is Ok,
        final(sink).wf(),
        final(sink)@ == rollback_model(old(sink)@, undo_signal.last_valid_block_number),
{
    sink.rollback_to(undo_signal.last_valid_block_number);
    Ok(())
}

} // verus!
