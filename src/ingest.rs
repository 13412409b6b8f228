//! One ingestion run: fetch embeddings for a request, then write them to the
//! store on a worker of its own. The work that waits on the network, the
//! database or a thread is done by the caller; the decisions are made here.

use crate::config::{EmbedRequest, EmbedResponse};
use crate::store::{ensure_table, insert_rows, row_count, StoreError};
use crate::text::{parse_i32, parsed_i32};
use vstd::prelude::*;

verus! {

/// Why a fetch of embeddings gave no usable response.
pub enum FetchError {
    /// The service could not be reached.
    Unreachable,
    /// The service answered with a status other than success.
    Status(u16),
    /// The body was not a response of the expected shape.
    Malformed,
}

/// Where a run stopped early.
#[derive(PartialEq, Eq, Structural, Clone, Copy)]
pub enum Phase {
    Fetching,
    Persisting,
}

/// The stages of one run.
#[derive(PartialEq, Eq, Structural, Clone, Copy)]
pub enum Stage {
    Built,
    Fetching,
    Fetched,
    Persisting,
    Done,
    Failed(Phase),
}

/// What happened since the run entered its current stage.
#[derive(PartialEq, Eq, Structural, Clone, Copy)]
pub enum Event {
    /// The fetch was issued.
    Begin,
    /// The fetch came back, with a response or with the empty sentinel.
    FetchReturned,
    /// The fetch could not be carried out at all.
    FetchAborted,
    /// The worker that writes to the store was started.
    PersistStarted,
    /// The worker could not start, or could not reach the store.
    UnitFailed,
    /// The worker finished, whatever it logged on the way.
    UnitFinished,
}

/// The transition table of a run. An event that does not belong to the
/// current stage leaves it as it is; `Done` and `Failed` are final.
pub open spec fn next_stage(stage: Stage, event: Event) -> Stage {
    match (stage, event) {
        (Stage::Built, Event::Begin) => Stage::Fetching,
        (Stage::Fetching, Event::FetchReturned) => Stage::Fetched,
        (Stage::Fetching, Event::FetchAborted) => Stage::Failed(Phase::Fetching),
        (Stage::Fetched, Event::PersistStarted) => Stage::Persisting,
        (Stage::Persisting, Event::UnitFinished) => Stage::Done,
        (Stage::Persisting, Event::UnitFailed) => Stage::Failed(Phase::Persisting),
        _ => stage,
    }
}

/// Moves a run on by one event.
pub fn step(stage: Stage, event: Event) -> (r: Stage)
    ensures
        r == next_stage(stage, event),
{
    match (stage, event) {
        (Stage::Built, Event::Begin) => Stage::Fetching,
        (Stage::Fetching, Event::FetchReturned) => Stage::Fetched,
        (Stage::Fetching, Event::FetchAborted) => Stage::Failed(Phase::Fetching),
        (Stage::Fetched, Event::PersistStarted) => Stage::Persisting,
        (Stage::Persisting, Event::UnitFinished) => Stage::Done,
        (Stage::Persisting, Event::UnitFailed) => Stage::Failed(Phase::Persisting),
        _ => stage,
    }
}

/// A failed run was failed while fetching or while persisting, and a run that
/// is done or failed stays so whatever comes next.
pub proof fn lemma_final_stages(stage: Stage, event: Event)
    ensures
        (next_stage(stage, event) matches Stage::Failed(_) && !(stage matches Stage::Failed(_)))
            ==> (stage == Stage::Fetching || stage == Stage::Persisting),
        (stage == Stage::Done || stage matches Stage::Failed(_)) ==> next_stage(stage, event)
            == stage,
{
}

/// The width of the vector column named by `s`; text that is not an `i32`
/// gives 0.
pub open spec fn dimension_of(s: Seq<char>) -> int {
    match parsed_i32(s) {
        Some(v) => v,
        None => 0,
    }
}

/// Reads the vector width the caller asked for. Text that is not a number
/// gives 0 and the run goes on; the store then reports the bad width.
pub fn parse_dimension(s: &str) -> (r: i32)
    ensures
        r as int == dimension_of(s@),
{
    match parse_i32(s) {
        Some(v) => v,
        None => 0,
    }
}

/// Reduces the outcome of a fetch to the response the store is given: a
/// parsed response unaltered, and for any failure the empty sentinel, which
/// the store treats as nothing to write.
pub fn settle_fetch(outcome: Result<EmbedResponse, FetchError>) -> (r: EmbedResponse)
    ensures
        match outcome {
            Ok(resp) => r == resp,
            Err(_) => r.is_empty_sentinel(),
        },
{
    match outcome {
        Ok(resp) => resp,
        Err(_) => EmbedResponse::EmptyEmbedResponse(),
    }
}

/// The empty sentinel that a failed fetch becomes gives the store nothing to
/// write, whatever the request held.
pub proof fn lemma_sentinel_writes_nothing(request: &EmbedRequest, r: &EmbedResponse)
    requires
        r.is_empty_sentinel(),
    ensures
        row_count(request.input@.len() as int, r.embeddings@.len() as int) == 0,
{
}

/// What the worker reports after writing to the store.
pub struct PersistReport {
    /// The outcome of creating the table.
    pub table: Result<(), StoreError>,
    /// One outcome per row written, in input order.
    pub rows: Vec<Result<(), StoreError>>,
}

/// Creates the table when it is absent, then writes one row per input that has
/// a vector. A failure to create the table does not stop the rows, and a
/// failed row does not stop the next.
pub fn persist_embedding_data(client: &mut postgres::Client, table: &String, dimension: i32, embed_request: &EmbedRequest, embeddings: &Vec<
    Vec<String>,
>) -> (r: PersistReport)
    ensures
        r.rows@.len() == row_count(embed_request.input@.len() as int, embeddings@.len() as int),
        r.table matches Err(e) ==> e is CreateTable,
        forall|i: int|
            0 <= i < r.rows@.len() ==> match #[trigger] r.rows@[i] {
                Ok(_) => true,
                Err(e) => e matches StoreError::InsertRow(k, _) && k == i,
            },
{
    let created = ensure_table(client, table.as_str(), dimension);
    let rows = insert_rows(client, table.as_str(), embed_request, embeddings);
    PersistReport { table: created, rows }
}

} // verus!
