//! The typed event model: what the stream driver emits and what the sink
//! stores.

use vstd::prelude::*;

verus! {

/// A cache record for one applied block, exactly what the sink persists
/// under the block's key.
#[derive(Debug, Clone, PartialEq, Eq)]
pub struct EosSimpleBlock {
    pub head_block_id: String,
    pub head_block_number: u64,
    pub head_block_time: String,
}

/// Mathematical image of an [`EosSimpleBlock`].
pub struct EosSimpleBlockView {
    pub head_block_id: Seq<char>,
    pub head_block_number: u64,
    pub head_block_time: Seq<char>,
}

impl View for EosSimpleBlock {
    type V = EosSimpleBlockView;

    open spec fn view(&self) -> EosSimpleBlockView {
        EosSimpleBlockView {
            head_block_id: self.head_block_id@,
            head_block_number: self.head_block_number,
            head_block_time: self.head_block_time@,
        }
    }
}

/// A newly delivered block together with the cursor that resumes the stream
/// exactly after it.
#[derive(Debug, Clone, PartialEq, Eq)]
pub struct NewBlock {
    pub block_number: u64,
    pub block_id: String,
    pub timestamp_seconds: i64,
    pub timestamp_nanos: i32,
    pub payload: Vec<u8>,
    pub cursor: String,
}

/// Mathematical image of a [`NewBlock`].
pub struct NewBlockView {
    pub block_number: u64,
    pub block_id: Seq<char>,
    pub timestamp_seconds: i64,
    pub timestamp_nanos: i32,
    pub payload: Seq<u8>,
    pub cursor: Seq<char>,
}

impl View for NewBlock {
    type V = NewBlockView;

    open spec fn view(&self) -> NewBlockView {
        NewBlockView {
            block_number: self.block_number,
            block_id: self.block_id@,
            timestamp_seconds: self.timestamp_seconds,
            timestamp_nanos: self.timestamp_nanos,
            payload: self.payload@,
            cursor: self.cursor@,
        }
    }
}

/// A chain reorganization: every effect attributed to a block number greater
/// than `last_valid_block_number` must be rolled back, and the stream resumes
/// from `last_valid_cursor`.
#[derive(Debug, Clone, PartialEq, Eq)]
pub struct UndoSignal {
    pub last_valid_cursor: String,
    pub last_valid_block_number: u64,
}

/// Mathematical image of an [`UndoSignal`].
pub struct UndoSignalView {
    pub last_valid_cursor: Seq<char>,
    pub last_valid_block_number: u64,
}

impl View for UndoSignal {
    type V = UndoSignalView;

    open spec fn view(&self) -> UndoSignalView {
        UndoSignalView {
            last_valid_cursor: self.last_valid_cursor@,
            last_valid_block_number: self.last_valid_block_number,
        }
    }
}

/// One element of the unified event sequence the stream driver exposes:
/// either apply a new block or roll back past a fork.
#[derive(Debug, Clone, PartialEq, Eq)]
pub enum BlockEvent {
    New(NewBlock),
    Undo(UndoSignal),
}

/// Mathematical image of a [`BlockEvent`].
pub enum BlockEventView {
    New(NewBlockView),
    Undo(UndoSignalView),
}

impl View for BlockEvent {
    type V = BlockEventView;

    open spec fn view(&self) -> BlockEventView {
        match self {
            BlockEvent::New(b) => BlockEventView::New(b@),
            BlockEvent::Undo(u) => BlockEventView::Undo(u@),
        }
    }
}

impl BlockEventView {
    /// The cursor that is safe to persist once this event has been applied.
    pub open spec fn cursor(self) -> Seq<char> {
        match self {
            BlockEventView::New(b) => b.cursor,
            BlockEventView::Undo(u) => u.last_valid_cursor,
        }
    }
}

} // verus!
