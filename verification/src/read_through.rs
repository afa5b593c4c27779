//! The read-through cache protocol of user reads: look in the cache
//! first when it is in use, query the store on a miss, keep what the
//! store answered, and answer.

use vstd::prelude::*;

verus! {

/// Where a read stands.
#[derive(Debug, Clone, Copy, PartialEq, Eq)]
pub enum ReadStage {
    Start,
    AwaitingCache,
    AwaitingQuery,
    AwaitingStore,
    Finished,
}

/// What came back from the last action (`Begin` to start).
#[derive(Debug, Clone, Copy, PartialEq, Eq)]
pub enum ReadEvent {
    Begin,
    CacheHit,
    CacheMiss,
    QueryOk,
    QueryErr,
    Stored,
}

/// What to do next.
#[derive(Debug, Clone, Copy, PartialEq, Eq)]
pub enum ReadAction {
    LookUpCache,
    RunQuery,
    StoreResult,
    ReturnCached,
    ReturnQueried,
    ReturnError,
}

/// The protocol: from a stage and what came back, the next stage and
/// action. A failed or unreadable cache counts as a miss; a failed store
/// still answers with what the query gave. Events that cannot come at a
/// stage end the read with no action.
pub open spec fn read_through(stage: ReadStage, cache_in_use: bool, event: ReadEvent) -> (ReadStage, Option<ReadAction>) {
    match (stage, event) {
        (ReadStage::Start, ReadEvent::Begin) => if cache_in_use {
            (ReadStage::AwaitingCache, Some(ReadAction::LookUpCache))
        } else {
            (ReadStage::AwaitingQuery, Some(ReadAction::RunQuery))
        },
        (ReadStage::AwaitingCache, ReadEvent::CacheHit) => (ReadStage::Finished, Some(ReadAction::ReturnCached)),
        (ReadStage::AwaitingCache, ReadEvent::CacheMiss) => (ReadStage::AwaitingQuery, Some(ReadAction::RunQuery)),
        (ReadStage::AwaitingQuery, ReadEvent::QueryErr) => (ReadStage::Finished, Some(ReadAction::ReturnError)),
        (ReadStage::AwaitingQuery, ReadEvent::QueryOk) => if cache_in_use {
            (ReadStage::AwaitingStore, Some(ReadAction::StoreResult))
        } else {
            (ReadStage::Finished, Some(ReadAction::ReturnQueried))
        },
        (ReadStage::AwaitingStore, ReadEvent::Stored) => (ReadStage::Finished, Some(ReadAction::ReturnQueried)),
        _ => (ReadStage::Finished, None),
    }
}

/// How far a read has come; every step moves it forward.
pub open spec fn stage_rank(stage: ReadStage) -> nat {
    match stage {
        ReadStage::Start => 0,
        ReadStage::AwaitingCache => 1,
        ReadStage::AwaitingQuery => 2,
        ReadStage::AwaitingStore => 3,
        ReadStage::Finished => 4,
    }
}

/// One step of the protocol.
pub fn read_through_step(stage: ReadStage, cache_in_use: bool, event: ReadEvent) -> (r: (ReadStage, Option<ReadAction>))
    ensures
        r == read_through(stage, cache_in_use, event),
{
    match (stage, event) {
        (ReadStage::Start, ReadEvent::Begin) => if cache_in_use {
            (ReadStage::AwaitingCache, Some(ReadAction::LookUpCache))
        } else {
            (ReadStage::AwaitingQuery, Some(ReadAction::RunQuery))
        },
        (ReadStage::AwaitingCache, ReadEvent::CacheHit) => (ReadStage::Finished, Some(ReadAction::ReturnCached)),
        (ReadStage::AwaitingCache, ReadEvent::CacheMiss) => (ReadStage::AwaitingQuery, Some(ReadAction::RunQuery)),
        (ReadStage::AwaitingQuery, ReadEvent::QueryErr) => (ReadStage::Finished, Some(ReadAction::ReturnError)),
        (ReadStage::AwaitingQuery, ReadEvent::QueryOk) => if cache_in_use {
            (ReadStage::AwaitingStore, Some(ReadAction::StoreResult))
        } else {
            (ReadStage::Finished, Some(ReadAction::ReturnQueried))
        },
        (ReadStage::AwaitingStore, ReadEvent::Stored) => (ReadStage::Finished, Some(ReadAction::ReturnQueried)),
        _ => (ReadStage::Finished, None),
    }
}

/// Every step of a read that is not finished moves it forward, so a read
/// takes at most four steps; the cache is touched only when it is in
/// use; a cached answer comes only from a hit, and a stored one only
/// after a successful query.
pub proof fn law_read_through(stage: ReadStage, cache_in_use: bool, event: ReadEvent)
    requires
        stage != ReadStage::Finished,
    ensures
        stage_rank(read_through(stage, cache_in_use, event).0) > stage_rank(stage),
        !cache_in_use && stage != ReadStage::AwaitingCache && stage != ReadStage::AwaitingStore ==> {
            let a = read_through(stage, cache_in_use, event).1;
            a != Some(ReadAction::LookUpCache) && a != Some(ReadAction::StoreResult)
        },
        read_through(stage, cache_in_use, event).1 == Some(ReadAction::ReturnCached) ==> event == ReadEvent::CacheHit,
        read_through(stage, cache_in_use, event).1 == Some(ReadAction::StoreResult) ==> event == ReadEvent::QueryOk && cache_in_use,
        read_through(stage, cache_in_use, event).1 == Some(ReadAction::ReturnError) ==> event == ReadEvent::QueryErr,
{
}

} // verus!
