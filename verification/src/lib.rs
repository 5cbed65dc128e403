//! Core of a music-downloading tool: input resolution and fan-out, a job
//! store with a per-job state machine, a pipeline-executor step function,
//! a bounded worker pool, and a read-only monitor over job snapshots.
mod arg;
mod error;
mod monitor;
mod pipeline;
mod pool;
mod resolver;
mod settings;
mod state;
mod store;

pub use arg::Args;
pub use settings::{get_config_settings_path, DownloaderConfig, Settings};
pub use resolver::{
    classify_input, colon_free_from, filter_some, first_colon_from, has_scheme_prefix, kind_of,
    kind_of_segment, scheme_id, scheme_kind, scheme_uri_valid, search_resolution, url_parts,
    Pager, ParsedInput, Resolution, SearchCandidate, UriKind,
};
pub use monitor::{
    aggregate_progress, bucket_of, bucket_of_state, count_bucket, estimate_remaining,
    spec_completed_milli, spec_progress_milli, spec_remaining_milli, sum_completed,
    sum_remaining, summarize, Bucket, EventLog, RunSummary,
};
pub use pool::{
    count_in_flight, lemma_count_update, lemma_enqueue_keeps_in_flight,
    lemma_update_keeps_bound, WorkerPool,
};
pub use pipeline::{
    advance, lemma_idempotent_skip, lemma_step_writes_allowed, pipeline_step, step_post, step_pre,
    NextAction, PipelineEvent,
};

pub use error::{EnqueueError, ErrorKind, ResolveError, UpdateError};
pub use store::{
    lemma_presence_stable_under_update, view_of, Job, JobStore, JobView, TrackRef,
};
pub use state::{
    clone_state, is_in_flight, is_terminal, lemma_downloading_monotone, lemma_terminal_write_once,
    lemma_update_from_in_flight, state_valid, transition_ok, update_allowed, JobState,
};

use vstd::prelude::*;

verus! {

/// The character for one decimal digit.
pub open spec fn digit_char(d: int) -> char {
    if d == 0 {
        '0'
    } else if d == 1 {
        '1'
    } else if d == 2 {
        '2'
    } else if d == 3 {
        '3'
    } else if d == 4 {
        '4'
    } else if d == 5 {
        '5'
    } else if d == 6 {
        '6'
    } else if d == 7 {
        '7'
    } else if d == 8 {
        '8'
    } else {
        '9'
    }
}

/// Decimal digits of a non-negative number, most significant first.
pub open spec fn dec_digits(n: int) -> Seq<char>
    decreases n,
{
    if n < 10 {
        seq![digit_char(n)]
    } else {
        dec_digits(n / 10).push(digit_char(n % 10))
    }
}

/// A decimal rendering padded with a leading zero to at least two
/// characters.
pub open spec fn padded2(n: int) -> Seq<char> {
    if n < 10 {
        seq!['0'] + dec_digits(n)
    } else {
        dec_digits(n)
    }
}

fn digit_str(d: u32) -> (s: &'static str)
    requires
        d < 10,
    ensures
        s@ =~= seq![digit_char(d as int)],
{
    proof {
        reveal_strlit("0");
        reveal_strlit("1");
        reveal_strlit("2");
        reveal_strlit("3");
        reveal_strlit("4");
        reveal_strlit("5");
        reveal_strlit("6");
        reveal_strlit("7");
        reveal_strlit("8");
        reveal_strlit("9");
    }
    match d {
        0 => "0",
        1 => "1",
        2 => "2",
        3 => "3",
        4 => "4",
        5 => "5",
        6 => "6",
        7 => "7",
        8 => "8",
        _ => "9",
    }
}

fn dec_string(n: u32) -> (s: String)
    ensures
        s@ =~= dec_digits(n as int),
    decreases n,
{
    let ds = digit_str(n % 10);
    if n < 10 {
        ds.to_owned()
    } else {
        let mut s = dec_string(n / 10);
        s.append(ds);
        proof {
            assert(s@ =~= dec_digits(n as int));
        }
        s
    }
}

fn pad2(n: u32) -> (s: String)
    ensures
        s@ =~= padded2(n as int),
{
    if n < 10 {
        proof {
            reveal_strlit("0");
        }
        let mut s = String::from_str("0");
        s.append(digit_str(n));
        s
    } else {
        dec_string(n)
    }
}

/// Formats a second count for the terminal clock display: the first
/// field is `secs / 360`, the second the full minute count `secs / 60`,
/// the third `secs % 60`, each zero-padded to at least two digits.
pub fn secs_to_hrs_min_sec(secs: i32) -> (r: String)
    requires
        0 <= secs,
    ensures
        r@ =~= padded2(secs as int / 360) + seq![':'] + padded2(secs as int / 60) + seq![':']
            + padded2(secs as int % 60),
{
    proof {
        reveal_strlit(":");
    }
    let s = secs as u32;
    let mut out = pad2(s / 360);
    out.append(":");
    let mid = pad2(s / 60);
    out.append(mid.as_str());
    out.append(":");
    let last = pad2(s % 60);
    out.append(last.as_str());
    out
}

} // verus!
