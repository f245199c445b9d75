//! Scheduling core for publishing posts to a social network at their due time.
//!
//! The library holds the decisions of the service: how the configured time
//! zone offset is resolved, how wall-clock strings become instants, which
//! stored posts are due, and the per-post state machine that the polling
//! loop runs (wait, resolve the author, publish, record the new status).
//! Network, database and timer work is done by the caller, which feeds the
//! outcomes back into the state machine.
mod auth;
mod build_info;
mod config;
mod offset;
mod post;
mod requests;
mod scheduler;
mod store;

pub use offset::{get_local_time, get_timezone_offset, parse_i32, OffsetError, UtcOffset};
pub use post::{default_status, same_text, Post, Status};
pub use store::{
    due_set, has_id, has_pending_id, ids_unique, in_window, is_due, remove_from, replace_in, set_status_in, window_set,
    with_status, PostStore, Record,
};
pub use scheduler::{
    accepted_by, delay_before, drain_due, drained, drained_record, lemma_drain_keeps_ids,
    lemma_drain_settles_due_posts, lemma_future_posts_untouched, lemma_missing_record_is_benign,
    lemma_publish_waits_for_schedule, lemma_published_posts_stay, lemma_second_drain_skips_published,
    resolved_for, submitted_ids, transition, Action, Attempt, Event, Outcome, Replies, Stage, POLL_INTERVAL_MS,
};
pub use requests::{
    hex_value, id_byte, instant_of_text, is_id_text, naive_millis, parse_post_id, prepare_post, query_window,
    requested_status, schedule_instant, update_reply, window_of, RequestError, UpdateReply,
};
pub use auth::{
    auth_code_from_query, auth_code_of, author_urn, authorization_url, bearer, first_from, occurs_at,
    profile_id_from_reply, AuthorError,
};
pub use build_info::{version_meta, Channel, LlvmVersion, Version, VersionMeta};
pub use config::Config;
