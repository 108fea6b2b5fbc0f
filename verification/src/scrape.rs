//! The scrape pipeline. A scrape walks the configured repository list in
//! order; for each repository the external tool is invoked (by the caller,
//! which owns all process and timer plumbing), its outcome is classified —
//! success, a transient lock conflict to retry after a fixed delay, or a
//! terminal failure — and a successful payload is parsed, normalized and
//! rendered, its text appended to the single growing response body. Any
//! failure aborts the whole response: the rejecting action carries no body,
//! so no partial metrics ever leak. The walk is a state machine: the caller
//! feeds each query's outcome in and performs the returned action.

use vstd::prelude::*;

use crate::config::Config;
use crate::parse::parse;
use crate::parse::doc_complete;
use crate::parse::json_ok;
use crate::parse::spec_last_modified;
use crate::parse::spec_stats;
use crate::parse::ParseError;
use crate::render::render_spec;
use crate::render::render_status;
use crate::timestamp::epoch_of;
use crate::timestamp::has_dot;
use crate::timestamp::normalize;
use crate::timestamp::stamp_head;
use crate::timestamp::stamp_parts;
use crate::timestamp::valid_stamp;
use crate::timestamp::TimestampError;

verus! {

/// Seconds waited before re-querying a locked repository.
pub const RETRY_DELAY_SECS: u64 = 5;

/// Why a scrape was aborted.
#[derive(Debug, PartialEq, Eq)]
pub enum ScrapeError {
    /// The external tool could not be spawned.
    Spawn,
    /// The external tool exited non-zero for a reason other than a lock
    /// conflict; holds its standard-error text.
    Command(String),
    /// A repository path with no extractable base name.
    InvalidRepoPath,
    /// The status document was rejected.
    Parse(ParseError),
    /// The last-modified string was rejected.
    Timestamp(TimestampError),
}

/// `s` with every trailing `/` removed.
pub open spec fn trim_slashes(s: Seq<char>) -> Seq<char>
    decreases s.len(),
{
    if s.len() == 0 {
        s
    } else if s.last() == '/' {
        trim_slashes(s.drop_last())
    } else {
        s
    }
}

/// The suffix of `s` after its last `/`.
pub open spec fn after_last_slash(s: Seq<char>) -> Seq<char>
    decreases s.len(),
{
    if s.len() == 0 {
        s
    } else if s.last() == '/' {
        Seq::empty()
    } else {
        after_last_slash(s.drop_last()).push(s.last())
    }
}

/// A repository path is usable when something is left of it once trailing
/// separators go: the empty path and the filesystem root have no base name.
pub open spec fn valid_repo_path(path: Seq<char>) -> bool {
    trim_slashes(path).len() > 0
}

/// The repository's Prometheus label: the base name of its path.
pub open spec fn label_of(path: Seq<char>) -> Seq<char> {
    after_last_slash(trim_slashes(path))
}

/// Derives the label of a repository path: its final path segment, with
/// trailing separators ignored; exactly the pathological paths — empty or
/// all separators — are rejected.
pub fn repo_label(path: &str) -> (r: Result<String, ScrapeError>)
    ensures
        r is Ok <==> valid_repo_path(path@),
        r matches Ok(l) ==> l@ == label_of(path@),
        r matches Err(e) ==> e == ScrapeError::InvalidRepoPath,
{
    let n: usize = path.unicode_len();
    let mut end: usize = n;
    proof {
        assert(path@.subrange(0, n as int) =~= path@);
    }
    while end > 0 && path.get_char(end - 1) == '/'
        invariant
            end <= n,
            n == path@.len(),
            trim_slashes(path@) == trim_slashes(path@.subrange(0, end as int)),
        decreases end,
    {
        proof {
            assert(path@.subrange(0, end as int).drop_last() =~= path@.subrange(
                0,
                end as int - 1,
            ));
        }
        end -= 1;
    }
    proof {
        assert(trim_slashes(path@) =~= path@.subrange(0, end as int));
    }
    if end == 0 {
        return Err(ScrapeError::InvalidRepoPath);
    }
    let mut start: usize = end;
    proof {
        assert(path@.subrange(start as int, end as int) =~= Seq::<char>::empty());
        assert(after_last_slash(path@.subrange(0, end as int)) =~= after_last_slash(
            path@.subrange(0, start as int),
        ) + path@.subrange(start as int, end as int));
    }
    while start > 0 && path.get_char(start - 1) != '/'
        invariant
            start <= end <= n,
            n == path@.len(),
            after_last_slash(path@.subrange(0, end as int)) == after_last_slash(
                path@.subrange(0, start as int),
            ) + path@.subrange(start as int, end as int),
        decreases start,
    {
        proof {
            let t = path@.subrange(0, start as int);
            assert(t.drop_last() =~= path@.subrange(0, start as int - 1));
            assert(
                after_last_slash(path@.subrange(0, start as int - 1)).push(path@[start as int - 1])
                    + path@.subrange(start as int, end as int) =~= after_last_slash(
                    path@.subrange(0, start as int - 1),
                ) + path@.subrange(start as int - 1, end as int));
        }
        start -= 1;
    }
    proof {
        assert(after_last_slash(path@.subrange(0, start as int)) =~= Seq::<char>::empty());
        assert(label_of(path@) =~= path@.subrange(start as int, end as int));
    }
    Ok(path.substring_char(start, end).to_owned())
}

/// The literal stderr prefix by which the external tool reports that
/// another process holds the repository lock.
pub open spec fn lock_marker() -> Seq<char> {
    "Failed to create/acquire the lock"@
}

/// Whether standard error reports a transient lock conflict.
pub open spec fn is_lock_conflict(stderr: Seq<char>) -> bool {
    stderr.len() >= lock_marker().len() && stderr.subrange(0, lock_marker().len() as int)
        == lock_marker()
}

fn stderr_is_lock_conflict(stderr: &str) -> (b: bool)
    ensures
        b == is_lock_conflict(stderr@),
{
    let marker: &str = "Failed to create/acquire the lock";
    let mlen: usize = marker.unicode_len();
    let slen: usize = stderr.unicode_len();
    if slen < mlen {
        return false;
    }
    let mut i: usize = 0;
    while i < mlen
        invariant
            i <= mlen,
            mlen == lock_marker().len(),
            stderr@.len() >= mlen,
            marker@ == lock_marker(),
            forall|j: int| 0 <= j < i ==> stderr@[j] == lock_marker()[j],
        decreases mlen - i,
    {
        if stderr.get_char(i) != marker.get_char(i) {
            proof {
                if is_lock_conflict(stderr@) {
                    assert(stderr@.subrange(0, lock_marker().len() as int)[i as int]
                        == lock_marker()[i as int]);
                    assert(false);
                }
            }
            return false;
        }
        i += 1;
    }
    proof {
        assert(stderr@.subrange(0, lock_marker().len() as int) =~= lock_marker());
    }
    true
}

/// What one invocation of the external tool came to.
#[derive(Debug, Clone, Copy, PartialEq, Eq, Structural)]
pub enum QueryVerdict {
    /// Exit success: standard output is the status payload.
    Payload,
    /// A lock conflict: transient, query the same repository again after
    /// the fixed delay.
    Locked,
    /// Any other non-zero exit: terminal for the scrape.
    Failed,
}

/// Classifies one invocation of the external tool, from its exit status and
/// its standard-error text.
pub fn classify_query_output(success: bool, stderr: &str) -> (v: QueryVerdict)
    ensures
        success ==> v == QueryVerdict::Payload,
        !success && is_lock_conflict(stderr@) ==> v == QueryVerdict::Locked,
        !success && !is_lock_conflict(stderr@) ==> v == QueryVerdict::Failed,
{
    if success {
        QueryVerdict::Payload
    } else if stderr_is_lock_conflict(stderr) {
        QueryVerdict::Locked
    } else {
        QueryVerdict::Failed
    }
}

/// The error on which one repository's pipeline fails, decided by the path
/// and payload alone, in the order the pipeline checks them; `None` when
/// nothing but the environment-dependent local timezone lookup can still
/// fail.
pub open spec fn pipeline_error(path: Seq<char>, payload: Seq<u8>) -> Option<ScrapeError> {
    if !valid_repo_path(path) {
        Some(ScrapeError::InvalidRepoPath)
    } else if !json_ok(payload) {
        Some(ScrapeError::Parse(ParseError::Json))
    } else if !doc_complete(payload) {
        Some(ScrapeError::Parse(ParseError::Field))
    } else if !has_dot(spec_last_modified(payload)->Some_0) {
        Some(ScrapeError::Timestamp(TimestampError::MissingDot))
    } else if !valid_stamp(stamp_head(spec_last_modified(payload)->Some_0)) {
        Some(ScrapeError::Timestamp(TimestampError::BadFormat))
    } else {
        None
    }
}

/// The exposition text a successful pipeline run yields, at UTC offset
/// `off`: the payload's counters and normalized timestamp rendered under
/// the path's label.
pub open spec fn pipeline_text(path: Seq<char>, payload: Seq<u8>, off: int) -> Seq<char> {
    render_spec(
        label_of(path),
        spec_stats(payload),
        epoch_of(stamp_parts(stamp_head(spec_last_modified(payload)->Some_0)), off),
    )
}

/// The verified tail of one repository's pipeline, applied to the payload
/// the external tool produced: derive the label, parse the document,
/// normalize the timestamp, render the metrics text. It fails on exactly
/// the `pipeline_error` of its inputs; when that is `None` it can fail only
/// on an ambiguous local time, and a success is the payload's own values
/// rendered, at whatever valid UTC offset the local timezone gave.
pub fn repo_metrics(path: &str, payload: &[u8]) -> (r: Result<String, ScrapeError>)
    ensures
        pipeline_error(path@, payload@) matches Some(e) ==> r == Err::<String, ScrapeError>(e),
        r matches Err(e) ==> pipeline_error(path@, payload@) == Some(e) || (pipeline_error(
            path@,
            payload@,
        ) is None && e == ScrapeError::Timestamp(TimestampError::Ambiguous)),
        r matches Ok(t) ==> pipeline_error(path@, payload@) is None && exists|off: int|
            -86400 < off < 86400 && t@ == pipeline_text(path@, payload@, off),
{
    let label = match repo_label(path) {
        Ok(l) => l,
        Err(e) => {
            return Err(e);
        },
    };
    let doc = match parse(payload) {
        Ok(d) => d,
        Err(e) => {
            return Err(ScrapeError::Parse(e));
        },
    };
    let epoch = match normalize(doc.repository.last_modified.as_str()) {
        Ok(e) => e,
        Err(e) => {
            return Err(ScrapeError::Timestamp(e));
        },
    };
    let text = render_status(label.as_str(), &doc.cache.stats, epoch);
    proof {
        let lm = doc.repository.last_modified@;
        assert(lm == spec_last_modified(payload@)->Some_0);
        let off = choose|off: int|
            -86400 < off < 86400 && epoch as int == epoch_of(stamp_parts(stamp_head(lm)), off);
        assert(text@ == pipeline_text(path@, payload@, off));
    }
    Ok(text)
}

/// Where a scrape stands: how many repositories are done and the exposition
/// text accumulated from them.
pub struct ScrapeState {
    pub next: usize,
    pub body: String,
}

/// What the caller must do next.
#[derive(Debug)]
pub enum ScrapeAction {
    /// Invoke the external tool on this repository path.
    RunQuery { path: String },
    /// Wait `delay_secs` seconds, then invoke the external tool on this
    /// same repository path again.
    RetryAfterDelay { path: String, delay_secs: u64 },
    /// The scrape succeeded: respond with this whole body.
    Respond { body: String },
    /// The scrape failed: reject the request with no metrics body at all,
    /// logging the error.
    Reject { error: ScrapeError },
}

/// What one requested invocation of the external tool came to, as the
/// caller reports it back.
#[derive(Debug)]
pub enum QueryEvent {
    /// The tool ran; `success` is its exit status, `stdout` its standard
    /// output, `stderr` its standard error as text.
    Completed { success: bool, stdout: Vec<u8>, stderr: String },
    /// The tool could not be spawned at all.
    SpawnFailed,
}

/// Begins a scrape: an empty repository list succeeds at once with an empty
/// body; a first repository whose path has no base name rejects the scrape
/// before any external invocation; otherwise the first repository is
/// queried.
pub fn scrape_start(config: &Config) -> (r: (ScrapeState, ScrapeAction))
    ensures
        r.0.next == 0 && r.0.body@ =~= Seq::<char>::empty(),
        config.repositories@.len() == 0 ==> (r.1 matches ScrapeAction::Respond { body } && body@
            =~= Seq::<char>::empty()),
        config.repositories@.len() > 0 && valid_repo_path(config.repositories@[0]@) ==> (r.1
            matches ScrapeAction::RunQuery { path } && path@ == config.repositories@[0]@),
        config.repositories@.len() > 0 && !valid_repo_path(config.repositories@[0]@) ==> (r.1
            matches ScrapeAction::Reject { error } && error == ScrapeError::InvalidRepoPath),
{
    let state = ScrapeState { next: 0, body: String::new() };
    if config.repositories.len() == 0 {
        (state, ScrapeAction::Respond { body: String::new() })
    } else {
        let path = config.repositories[0].clone();
        match repo_label(path.as_str()) {
            Ok(_) => (state, ScrapeAction::RunQuery { path }),
            Err(_) => (state, ScrapeAction::Reject { error: ScrapeError::InvalidRepoPath }),
        }
    }
}

/// Advances a scrape by one reported query outcome. A spawn failure or a
/// terminal command failure rejects the whole scrape, the state — in
/// particular the body built so far — untouched; a lock conflict asks for
/// the same repository again after the fixed delay, likewise leaving the
/// state alone; a successful payload fails on exactly its `pipeline_error`
/// (or on an ambiguous local time), and otherwise has its own values
/// appended to the body before the walk moves on: to a query of the next
/// repository if its path has a base name, to a rejection before any query
/// if it has none, and to a response carrying the whole body after the
/// last repository.
pub fn scrape_on_event(config: &Config, state: ScrapeState, event: QueryEvent) -> (r: (
    ScrapeState,
    ScrapeAction,
))
    requires
        state.next < config.repositories@.len(),
    ensures
        event matches QueryEvent::SpawnFailed ==> {
            &&& r.0.next == state.next
            &&& r.0.body@ == state.body@
            &&& (r.1 matches ScrapeAction::Reject { error } && error == ScrapeError::Spawn)
        },
        event matches QueryEvent::Completed { success: false, stderr, .. } ==> {
            &&& is_lock_conflict(stderr@) ==> {
                &&& r.0.next == state.next
                &&& r.0.body@ == state.body@
                &&& (r.1 matches ScrapeAction::RetryAfterDelay { path, delay_secs } && path@
                    == config.repositories@[state.next as int]@ && delay_secs == RETRY_DELAY_SECS)
            }
            &&& !is_lock_conflict(stderr@) ==> {
                &&& r.0.next == state.next
                &&& r.0.body@ == state.body@
                &&& (r.1 matches ScrapeAction::Reject { error } && error
                    matches ScrapeError::Command(s) && s@ == stderr@)
            }
        },
        event matches QueryEvent::Completed { success: true, stdout, .. } ==> {
            let path = config.repositories@[state.next as int];
            &&& (pipeline_error(path@, stdout@) matches Some(e) ==> {
                &&& r.0.next == state.next
                &&& r.0.body@ == state.body@
                &&& (r.1 matches ScrapeAction::Reject { error } && error == e)
            })
            &&& (pipeline_error(path@, stdout@) is None ==> {
                ||| {
                    &&& r.0.next == state.next
                    &&& r.0.body@ == state.body@
                    &&& (r.1 matches ScrapeAction::Reject { error } && error
                        == ScrapeError::Timestamp(TimestampError::Ambiguous))
                }
                ||| {
                    &&& r.0.next == state.next + 1
                    &&& exists|off: int|
                        -86400 < off < 86400 && r.0.body@ == state.body@ + pipeline_text(
                            path@,
                            stdout@,
                            off,
                        )
                    &&& (r.0.next == config.repositories@.len() ==> (r.1
                        matches ScrapeAction::Respond { body } && body@ == r.0.body@))
                    &&& (r.0.next < config.repositories@.len() && valid_repo_path(
                        config.repositories@[r.0.next as int]@,
                    ) ==> (r.1 matches ScrapeAction::RunQuery { path: p } && p@
                        == config.repositories@[r.0.next as int]@))
                    &&& (r.0.next < config.repositories@.len() && !valid_repo_path(
                        config.repositories@[r.0.next as int]@,
                    ) ==> (r.1 matches ScrapeAction::Reject { error } && error
                        == ScrapeError::InvalidRepoPath))
                }
            })
        },
{
    match event {
        QueryEvent::SpawnFailed => (state, ScrapeAction::Reject { error: ScrapeError::Spawn }),
        QueryEvent::Completed { success, stdout, stderr } => {
            if !success {
                if stderr_is_lock_conflict(stderr.as_str()) {
                    let path = config.repositories[state.next].clone();
                    (
                        state,
                        ScrapeAction::RetryAfterDelay { path, delay_secs: RETRY_DELAY_SECS },
                    )
                } else {
                    (state, ScrapeAction::Reject { error: ScrapeError::Command(stderr) })
                }
            } else {
                let total: usize = config.repositories.len();
                let path = &config.repositories[state.next];
                match repo_metrics(path.as_str(), stdout.as_slice()) {
                    Err(e) => (state, ScrapeAction::Reject { error: e }),
                    Ok(text) => {
                        let ghost old_body = state.body@;
                        let ghost payload = stdout@;
                        let ghost path_view = config.repositories@[state.next as int]@;
                        let cur: usize = state.next;
                        let mut body = state.body;
                        body.append(text.as_str());
                        proof {
                            let off = choose|off: int|
                                -86400 < off < 86400 && text@ == pipeline_text(
                                    path_view,
                                    payload,
                                    off,
                                );
                            assert(body@ == old_body + pipeline_text(path_view, payload, off));
                        }
                        let next: usize = cur + 1;
                        let new_state = ScrapeState { next, body };
                        if next < total {
                            let p2 = config.repositories[next].clone();
                            match repo_label(p2.as_str()) {
                                Ok(_) => (new_state, ScrapeAction::RunQuery { path: p2 }),
                                Err(_) => (
                                    new_state,
                                    ScrapeAction::Reject { error: ScrapeError::InvalidRepoPath },
                                ),
                            }
                        } else {
                            let resp = new_state.body.clone();
                            (new_state, ScrapeAction::Respond { body: resp })
                        }
                    },
                }
            }
        },
    }
}

} // verus!

