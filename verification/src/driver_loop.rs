//! The driver loop: consumes the driver's event sequence strictly in order,
//! applies each event to the sink, and persists that event's cursor before
//! asking for the next one.

use vstd::prelude::*;
use crate::checkpoint::CheckpointError;
use crate::checkpoint::CheckpointStore;
use crate::checkpoint::persist_cursor;
use crate::event::BlockEvent;
use crate::event::BlockEventView;
use crate::event::EosSimpleBlockView;
use crate::event::NewBlockView;
use crate::event::UndoSignalView;
use crate::sink::CacheSink;
use crate::sink::SinkError;
use crate::sink::process_block_scoped_data;
use crate::sink::process_block_undo_signal;
use crate::sink::record_model;
use crate::sink::rollback_model;

verus! {

/// Why the driver loop stopped applying events.
#[derive(Debug, Clone, PartialEq, Eq)]
pub enum DriverLoopError {
    Sink(SinkError),
    Checkpoint(CheckpointError),
}

/// One event's effect on the sink image.
pub open spec fn apply_event_model(
    m: Map<u64, EosSimpleBlockView>,
    ev: BlockEventView,
) -> Map<u64, EosSimpleBlockView> {
    match ev {
        BlockEventView::New(b) => m.insert(
            b.block_number,
            record_model(b.block_number, b.block_id, b.timestamp_seconds, b.timestamp_nanos),
        ),
        BlockEventView::Undo(u) => rollback_model(m, u.last_valid_block_number),
    }
}

/// Sink image and checkpoint after the loop has consumed `evs`, in order.
pub open spec fn run_model(
    m: Map<u64, EosSimpleBlockView>,
    c: Option<Seq<char>>,
    evs: Seq<BlockEventView>,
) -> (Map<u64, EosSimpleBlockView>, Option<Seq<char>>)
    decreases evs.len(),
{
    if evs.len() == 0 {
        (m, c)
    } else {
        let prev = run_model(m, c, evs.drop_last());
        (apply_event_model(prev.0, evs.last()), Some(evs.last().cursor()))
    }
}

/// The views of a delivered batch of events.
pub open spec fn views_of(evs: Seq<BlockEvent>) -> Seq<BlockEventView> {
    Seq::new(evs.len(), |i: int| evs[i]@)
}

/// Apply one event and checkpoint its cursor. The cursor write comes after
/// the successful apply and before the next event is requested.
pub fn handle_event(
    sink: &mut CacheSink,
    store: &mut CheckpointStore,
    event: &BlockEvent,
) -> (r: Result<(), DriverLoopError>)
    requires
        old(sink).wf(),
    ensures
        r is Ok,
        final(sink).wf(),
        final(sink)@ == apply_event_model(old(sink)@, event@),
        final(store)@ == Some(event@.cursor()),
{
    match event {
        BlockEvent::New(b) => {
            match process_block_scoped_data(sink, b) {
                Ok(()) => {},
                Err(e) => {
                    return Err(DriverLoopError::Sink(e));
                },
            }
            match persist_cursor(store, b.cursor.clone()) {
                Ok(()) => {},
                Err(e) => {
                    return Err(DriverLoopError::Checkpoint(e));
                },
            }
        },
        BlockEvent::Undo(u) => {
            match process_block_undo_signal(sink, u) {
                Ok(()) => {},
                Err(e) => {
                    return Err(DriverLoopError::Sink(e));
                },
            }
            match persist_cursor(store, u.last_valid_cursor.clone()) {
                Ok(()) => {},
                Err(e) => {
                    return Err(DriverLoopError::Checkpoint(e));
                },
            }
        },
    }
    Ok(())
}

/// Consume a delivered batch of events one at a time, strictly in order.
pub fn run_driver_loop(
    sink: &mut CacheSink,
    store: &mut CheckpointStore,
    events: &Vec<BlockEvent>,
) -> (r: Result<(), DriverLoopError>)
    requires
        old(sink).wf(),
    ensures
        r is Ok,
        final(sink).wf(),
        (final(sink)@, final(store)@) == run_model(old(sink)@, old(store)@, views_of(events@)),
{
    let ghost m0 = sink@;
    let ghost c0 = store@;
    let ghost evs = views_of(events@);
    let mut i: usize = 0;
    while i < events.len()
        invariant
            i <= events.len(),
            sink.wf(),
            evs == views_of(events@),
            evs.len() == events@.len(),
            (sink@, store@) == run_model(m0, c0, evs.take(i as int)),
        decreases events.len() - i,
    {
        let event = &events[i];
        match handle_event(sink, store, event) {
            Ok(()) => {},
            Err(e) => {
                return Err(e);
            },
        }
        proof {
            assert(evs.take(i + 1).drop_last() =~= evs.take(i as int));
            assert(evs.take(i + 1).last() == event@);
        }
        i = i + 1;
    }
    proof {
        assert(evs.take(events@.len() as int) =~= evs);
    }
    Ok(())
}

/// The block number an event speaks about.
pub open spec fn event_block_number(ev: BlockEventView) -> u64 {
    match ev {
        BlockEventView::New(b) => b.block_number,
        BlockEventView::Undo(u) => u.last_valid_block_number,
    }
}

/// Every event of the sequence is a new-block event.
pub open spec fn all_new_blocks(evs: Seq<BlockEventView>) -> bool {
    forall|i: int| 0 <= i < evs.len() ==> (#[trigger] evs[i]) is New
}

/// Block numbers strictly increase along the sequence.
pub open spec fn strictly_increasing(evs: Seq<BlockEventView>) -> bool {
    forall|i: int, j: int|
        0 <= i < j < evs.len() ==> event_block_number(#[trigger] evs[i]) < event_block_number(
            #[trigger] evs[j],
        )
}

/// The record a new-block event deposits.
pub open spec fn event_record(ev: BlockEventView) -> EosSimpleBlockView
    recommends
        ev is New,
{
    match ev {
        BlockEventView::New(b) => record_model(
            b.block_number,
            b.block_id,
            b.timestamp_seconds,
            b.timestamp_nanos,
        ),
        BlockEventView::Undo(u) => EosSimpleBlockView {
            head_block_id: u.last_valid_cursor,
            head_block_number: u.last_valid_block_number,
            head_block_time: u.last_valid_cursor,
        },
    }
}

/// Law: for a sequence of new-block events with strictly increasing block
/// numbers, the loop applies them in exactly that order: after every prefix
/// the checkpoint holds the cursor of the prefix's last event, and the final
/// sink image holds every event's record under its block number.
pub proof fn lemma_new_blocks_applied_in_order(
    m: Map<u64, EosSimpleBlockView>,
    c: Option<Seq<char>>,
    evs: Seq<BlockEventView>,
)
    requires
        all_new_blocks(evs),
        strictly_increasing(evs),
    ensures
        forall|i: int|
            0 <= i < evs.len() ==> run_model(m, c, evs.take(i + 1)).1 == Some(
                (#[trigger] evs[i]).cursor(),
            ),
        forall|i: int|
            0 <= i < evs.len() ==> {
                let end = run_model(m, c, evs).0;
                end.dom().contains(event_block_number(#[trigger] evs[i])) && end[
                    event_block_number(evs[i])] == event_record(evs[i])
            },
    decreases evs.len(),
{
    assert forall|i: int| 0 <= i < evs.len() implies run_model(m, c, evs.take(i + 1)).1 == Some(
        (#[trigger] evs[i]).cursor(),
    ) by {
        assert(evs.take(i + 1).len() == i + 1);
        assert(evs.take(i + 1).last() == evs[i]);
    }
    if evs.len() > 0 {
        let prefix = evs.drop_last();
        assert(all_new_blocks(prefix)) by {
            assert(forall|i: int| 0 <= i < prefix.len() ==> prefix[i] == evs[i]);
        }
        assert(strictly_increasing(prefix)) by {
            assert(forall|i: int| 0 <= i < prefix.len() ==> prefix[i] == evs[i]);
        }
        lemma_new_blocks_applied_in_order(m, c, prefix);
        let last = evs.last();
        let end = run_model(m, c, evs).0;
        let mid = run_model(m, c, prefix).0;
        assert(end == apply_event_model(mid, last));
        assert forall|i: int|
            0 <= i < evs.len() implies {
            end.dom().contains(event_block_number(#[trigger] evs[i])) && end[event_block_number(
                evs[i],
            )] == event_record(evs[i])
        } by {
            if i < evs.len() - 1 {
                assert(prefix[i] == evs[i]);
                assert(event_block_number(evs[i]) < event_block_number(last));
            }
        }
    }
}

/// Law: an undo for block `N` followed by the delivery of block `N + 1` has
/// the rollback take effect before the new block is applied, and in between
/// the checkpoint holds exactly the undo's cursor.
pub proof fn lemma_undo_then_next_block(
    m: Map<u64, EosSimpleBlockView>,
    c: Option<Seq<char>>,
    u: UndoSignalView,
    b: NewBlockView,
)
    requires
        b.block_number == u.last_valid_block_number + 1,
    ensures
        run_model(m, c, seq![BlockEventView::Undo(u)]).1 == Some(u.last_valid_cursor),
        run_model(m, c, seq![BlockEventView::Undo(u)]).0 == rollback_model(
            m,
            u.last_valid_block_number,
        ),
        run_model(m, c, seq![BlockEventView::Undo(u), BlockEventView::New(b)]).0 == rollback_model(
            m,
            u.last_valid_block_number,
        ).insert(
            b.block_number,
            record_model(b.block_number, b.block_id, b.timestamp_seconds, b.timestamp_nanos),
        ),
{
    reveal_with_fuel(run_model, 3);
    let one = seq![BlockEventView::Undo(u)];
    let two = seq![BlockEventView::Undo(u), BlockEventView::New(b)];
    assert(one.drop_last() =~= Seq::<BlockEventView>::empty());
    assert(two.drop_last() =~= one);
    assert(run_model(m, c, two).0 == apply_event_model(run_model(m, c, one).0, two.last()));
}

/// Law: applying the same new-block event twice in a row leaves the sink
/// image identical to applying it once.
pub proof fn lemma_apply_twice_idempotent(m: Map<u64, EosSimpleBlockView>, b: NewBlockView)
    ensures
        apply_event_model(apply_event_model(m, BlockEventView::New(b)), BlockEventView::New(b))
            == apply_event_model(m, BlockEventView::New(b)),
        run_model(m, None, seq![BlockEventView::New(b), BlockEventView::New(b)]).0 == run_model(
            m,
            None,
            seq![BlockEventView::New(b)],
        ).0,
{
    reveal_with_fuel(run_model, 3);
    assert(apply_event_model(
        apply_event_model(m, BlockEventView::New(b)),
        BlockEventView::New(b),
    ) =~= apply_event_model(m, BlockEventView::New(b)));
    let one = seq![BlockEventView::New(b)];
    let two = seq![BlockEventView::New(b), BlockEventView::New(b)];
    assert(one.drop_last() =~= Seq::<BlockEventView>::empty());
    assert(two.drop_last() =~= one);
    assert(run_model(m, None, two).0 == apply_event_model(run_model(m, None, one).0, two.last()));
}

} // verus!
