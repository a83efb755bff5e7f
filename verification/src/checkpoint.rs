//! The checkpoint discipline: the last cursor known to correspond to fully
//! applied state. An outside key/value store persists it at the process edge;
//! this is the value the driver loop owns and writes.

use vstd::prelude::*;

verus! {

/// Storage key under which the cursor is persisted.
pub fn cursor_storage_key() -> (k: &'static str)
    ensures
        k@ == "lootbox:eos:cursor"@,
{
    "lootbox:eos:cursor"
}

/// Retention window of the persisted cursor, in seconds (seven days).
pub const CURSOR_TTL_SECONDS: u64 = 7 * 24 * 60 * 60;

/// A checkpoint-store failure. A cursor write that fails is fatal: going on
/// without the checkpoint would open a duplicate-application window on
/// restart.
#[derive(Debug, Clone, PartialEq, Eq)]
pub enum CheckpointError {
    StoreUnavailable,
}

/// The last acknowledged cursor, or nothing before the first apply.
pub struct CheckpointStore {
    cursor: Option<String>,
}

impl View for CheckpointStore {
    type V = Option<Seq<char>>;

    closed spec fn view(&self) -> Option<Seq<char>> {
        match self.cursor {
            Some(ref c) => Some(c@),
            None => None,
        }
    }
}

impl CheckpointStore {
    /// A store holding the cursor read back at startup, if any.
    pub fn new(initial: Option<String>) -> (s: CheckpointStore)
        ensures
            s@ == match initial {
                Some(c) => Some(c@),
                None => None::<Seq<char>>,
            },
    {
        CheckpointStore { cursor: initial }
    }
}

/// Record `cursor` as the new checkpoint. Succeeds exactly when the store
/// accepts the write; this in-memory image always does.
pub fn persist_cursor(store: &mut CheckpointStore, cursor: String) -> (r: Result<
    (),
    CheckpointError,
>)
    ensures
        r is Ok,
        final(store)@ == Some(cursor@),
{
    *store = CheckpointStore { cursor: Some(cursor) };
    Ok(())
}

/// Read the checkpoint back, as done once at startup to resume.
pub fn load_persisted_cursor(store: &CheckpointStore) -> (r: Result<
    Option<String>,
    CheckpointError,
>)
    ensures
        match r {
            Ok(Some(c)) => store@ == Some(c@),
            Ok(None) => store@ is None,
            Err(_) => false,
        },
{
    match &store.cursor {
        Some(c) => Ok(Some(c.clone())),
        None => Ok(None),
    }
}

} // verus!
