//! A sentence-indexed nearest-neighbour store.
//!
//! Embedding vectors are fixed-dimension points of single-precision values.
//! The library holds each lane as the IEEE-754 bit pattern of its value, and
//! each distance as the bit pattern of a non-negative value: for such values
//! the unsigned order of the patterns is the numeric order, with NaN above
//! every number. Everything that needs the numbers themselves (the metric, the
//! graph index, the wire formats) lives outside the library and hands the
//! patterns in.
mod batch;
mod error;
mod gate;
mod index;
mod messages;
mod pipeline;
mod provider;
mod query;
mod ranking;
mod requests;
mod snapshot;
mod vector;

pub use batch::{a_next, BatchStep, RequestTask};
pub use error::{ProviderFailure, ServiceError};
pub use gate::{
    clears_gate, decide_insertion, insertion_for, insertion_text, lemma_insertion_gate,
    writes_back, Insertion, Source, INSERT_THRESHOLD,
};
pub use index::{all_dim, pair_entries, SentenceIndex};
pub use messages::{EmbedLabelRequest, EmbedRequest, Request, Usage};
pub use pipeline::{
    collect_labels, distances_of, expects, first_distance, k_for, lemma_cache_idempotence,
    lemma_wipe_misses,
    lookup_source, make_response, options_view, payloads_of, present_labels, response_matches,
    responds, strings_view, Action, Event, MyResponse, SentenceTask, Stage,
};
pub use provider::{
    embedding_from_response, embedding_request_body, escaped, escaped_char, hex_digit,
    json_quoted, request_body,
};
pub use query::{field_named, has_param, param_present, should_insert_requested};
pub use ranking::{
    by_distance, hits_view, is_ascending, lemma_by_distance_ascending,
    lemma_by_distance_permutes, lemma_nearest_ascending, lemma_nearest_first, nearest, place,
    rank_neighbors, Neighbor, K_LABELLED, K_UNLABELLED,
};
pub use requests::{
    init_index, nearest_line, points_from_rows, points_match, restore_index, rows_fit,
    update_index,
};
pub use snapshot::{
    frame_snapshot, framed, lemma_snapshot_round_trip, snapshot_header, unframe_snapshot,
    unframed,
};
pub use vector::{Point, StoredVector, DIM};
