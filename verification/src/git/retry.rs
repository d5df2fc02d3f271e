//! Which git failures are worth retrying, which mean the remote moved, and
//! how a retried operation is paced.

use vstd::prelude::*;
use crate::text::{chars_of, contains, occurs_at, contains_chars, contains_str, push_all, push_decimal, decimal, to_lowercase, lowercase};

verus! {

/// The messages of an error and of each of its causes, outermost first.
pub struct ErrorChain {
    pub causes: Vec<String>,
}

/// Joins parts with single spaces between them.
pub open spec fn join_spaced(parts: Seq<Seq<char>>) -> Seq<char>
    decreases parts.len(),
{
    if parts.len() == 0 {
        Seq::<char>::empty()
    } else if parts.len() == 1 {
        parts[0]
    } else {
        join_spaced(parts.drop_last()) + seq![' '] + parts.last()
    }
}

/// The lowercase text that the classification searches: every cause,
/// lowercased, joined with spaces.
pub open spec fn chain_text(causes: Seq<String>) -> Seq<char> {
    join_spaced(causes.map_values(|c: String| lowercase(c@)))
}

/// Failures that never get better by trying again.
pub open spec fn mentions_terminal(chain: Seq<char>) -> bool {
    ||| contains(chain, "non-fast-forward"@)
    ||| contains(chain, "branch protection"@)
    ||| contains(chain, "rejected by remote"@)
    ||| contains(chain, "authentication failed"@)
    ||| contains(chain, "permission denied"@)
    ||| contains(chain, "repository not found"@)
}

/// Phrases naming a failure mode that may pass.
pub open spec fn mentions_transient(chain: Seq<char>) -> bool {
    ||| contains(chain, "connection refused"@)
    ||| contains(chain, "connection reset"@)
    ||| contains(chain, "connection closed"@)
    ||| contains(chain, "connection timed out"@)
    ||| contains(chain, "failed to connect"@)
    ||| contains(chain, "could not resolve host"@)
    ||| contains(chain, "could not resolve proxy"@)
    ||| contains(chain, "temporarily unavailable"@)
    ||| contains(chain, "network is unreachable"@)
    ||| contains(chain, "network is down"@)
    ||| contains(chain, "network error"@)
    ||| contains(chain, "timed out"@)
    ||| contains(chain, "broken pipe"@)
    ||| contains(chain, "rst_stream"@)
    ||| contains(chain, "remote end hung up"@)
    ||| contains(chain, "early eof"@)
    ||| contains(chain, "ssl handshake"@)
    ||| contains(chain, "ssl connect error"@)
    ||| contains(chain, "ssl_read"@)
    ||| contains(chain, "ssl_write"@)
    ||| contains(chain, "sslv3"@)
    ||| contains(chain, "tls handshake"@)
    ||| contains(chain, "gnutls_handshake"@)
    ||| contains(chain, "certificate verify failed"@)
    ||| contains(chain, "bad gateway"@)
    ||| contains(chain, "service unavailable"@)
    ||| contains(chain, "gateway timeout"@)
    ||| contains(chain, "internal server error"@)
    ||| contains(chain, "secondary rate limit"@)
    ||| contains(chain, "rate limit exceeded"@)
    ||| contains(chain, "fatal error in commit_refs"@)
    ||| contains(chain, "object is no commit object"@)
    ||| contains(chain, "no commit object"@)
    ||| contains(chain, "class=invalid"@)
    ||| contains(chain, "object not found"@)
    ||| contains(chain, "odb"@)
}

/// `code` appears right after one of the prefixes with which git or curl
/// report an HTTP status.
pub open spec fn reports_status(chain: Seq<char>, code: Seq<char>) -> bool {
    ||| contains(chain, "error: "@ + code)
    ||| contains(chain, "http "@ + code)
    ||| contains(chain, "http/1.1 "@ + code)
    ||| contains(chain, "http/2 "@ + code)
    ||| contains(chain, "status "@ + code)
    ||| contains(chain, "status code "@ + code)
    ||| contains(chain, "code "@ + code)
}

/// A retryable status (502, 503, 504) is reported.
pub open spec fn reports_transient_status(chain: Seq<char>) -> bool {
    reports_status(chain, "502"@) || reports_status(chain, "503"@) || reports_status(chain, "504"@)
}

/// Whether an error text is worth retrying: never when a terminal phrase
/// occurs; otherwise when a transient phrase or a retryable status does.
pub open spec fn transient_text(chain: Seq<char>) -> bool {
    !mentions_terminal(chain) && (mentions_transient(chain) || reports_transient_status(chain))
}

fn prefixed_occurs(chain: &[char], prefix: &str, code: &str) -> (res: bool)
    ensures
        res == contains(chain@, prefix@ + code@),
{
    let mut needle = prefix.to_owned();
    push_all(&mut needle, code);
    let n = chars_of(needle.as_str());
    contains_chars(chain, n.as_slice())
}

fn reports_status_chars(chain: &[char], code: &str) -> (res: bool)
    ensures
        res == reports_status(chain@, code@),
{
    prefixed_occurs(chain, "error: ", code) || prefixed_occurs(chain, "http ", code)
        || prefixed_occurs(chain, "http/1.1 ", code) || prefixed_occurs(chain, "http/2 ", code)
        || prefixed_occurs(chain, "status ", code) || prefixed_occurs(chain, "status code ", code)
        || prefixed_occurs(chain, "code ", code)
}

/// Whether `chain` reports HTTP status `code` the way git or curl print
/// one (`error: 503`, `HTTP 503`, `status code 503`, ...), so that a bare
/// number inside a tag or URL does not count.
pub fn mentions_http_status(chain: &str, code: &str) -> (res: bool)
    ensures
        res == reports_status(chain@, code@),
{
    let c = chars_of(chain);
    reports_status_chars(c.as_slice(), code)
}

fn mentions_terminal_chars(c: &[char]) -> (res: bool)
    ensures
        res == mentions_terminal(c@),
{
    contains_str(c, "non-fast-forward") || contains_str(c, "branch protection") || contains_str(
        c,
        "rejected by remote",
    ) || contains_str(c, "authentication failed") || contains_str(c, "permission denied")
        || contains_str(c, "repository not found")
}

fn mentions_transient_chars(c: &[char]) -> (res: bool)
    ensures
        res == mentions_transient(c@),
{
    contains_str(c, "connection refused") || contains_str(c, "connection reset") || contains_str(
        c,
        "connection closed",
    ) || contains_str(c, "connection timed out") || contains_str(c, "failed to connect")
        || contains_str(c, "could not resolve host") || contains_str(c, "could not resolve proxy")
        || contains_str(c, "temporarily unavailable") || contains_str(c, "network is unreachable")
        || contains_str(c, "network is down") || contains_str(c, "network error") || contains_str(
        c,
        "timed out",
    ) || contains_str(c, "broken pipe") || contains_str(c, "rst_stream") || contains_str(
        c,
        "remote end hung up",
    ) || contains_str(c, "early eof") || contains_str(c, "ssl handshake") || contains_str(
        c,
        "ssl connect error",
    ) || contains_str(c, "ssl_read") || contains_str(c, "ssl_write") || contains_str(c, "sslv3")
        || contains_str(c, "tls handshake") || contains_str(c, "gnutls_handshake") || contains_str(
        c,
        "certificate verify failed",
    ) || contains_str(c, "bad gateway") || contains_str(c, "service unavailable")
        || contains_str(c, "gateway timeout") || contains_str(c, "internal server error")
        || contains_str(c, "secondary rate limit") || contains_str(c, "rate limit exceeded")
        || contains_str(c, "fatal error in commit_refs") || contains_str(
        c,
        "object is no commit object",
    ) || contains_str(c, "no commit object") || contains_str(c, "class=invalid") || contains_str(
        c,
        "object not found",
    ) || contains_str(c, "odb")
}

/// The lowercased causes of `err`, joined with spaces.
fn lowercase_chain(err: &ErrorChain) -> (res: Vec<char>)
    ensures
        res@ == chain_text(err.causes@),
{
    let mut out = String::new();
    let mut i: usize = 0;
    let ghost parts = err.causes@.map_values(|c: String| lowercase(c@));
    while i < err.causes.len()
        invariant
            i <= err.causes@.len(),
            parts == err.causes@.map_values(|c: String| lowercase(c@)),
            out@ == join_spaced(parts.take(i as int)),
        decreases err.causes@.len() - i,
    {
        let lower = to_lowercase(err.causes[i].as_str());
        proof {
            assert(parts.take(i + 1).drop_last() =~= parts.take(i as int));
        }
        if i > 0 {
            push_all(&mut out, " ");
            assert(" "@ =~= seq![' ']) by {
                reveal_strlit(" ");
            }
        }
        push_all(&mut out, lower.as_str());
        i = i + 1;
        assert(out@ =~= join_spaced(parts.take(i as int)));
    }
    assert(parts.take(err.causes@.len() as int) =~= parts);
    chars_of(out.as_str())
}

/// Whether retrying the failed git operation may help: never when a
/// terminal phrase occurs anywhere in the chain; otherwise when a transient
/// phrase or a reported 502/503/504 does.
pub fn is_transient_git_error(err: &ErrorChain) -> (res: bool)
    ensures
        res == transient_text(chain_text(err.causes@)),
{
    let chain = lowercase_chain(err);
    let c = chain.as_slice();
    if mentions_terminal_chars(c) {
        return false;
    }
    if mentions_transient_chars(c) {
        return true;
    }
    reports_status_chars(c, "502") || reports_status_chars(c, "503") || reports_status_chars(
        c,
        "504",
    )
}


proof fn lemma_occurs_in_prefix(a: Seq<char>, b: Seq<char>, n: Seq<char>, k: int)
    requires
        occurs_at(a, n, k),
    ensures
        occurs_at(a + b, n, k),
{
    assert((a + b).subrange(k, k + n.len()) =~= a.subrange(k, k + n.len()));
}

proof fn lemma_occurs_in_suffix(a: Seq<char>, b: Seq<char>, n: Seq<char>, k: int)
    requires
        occurs_at(b, n, k),
    ensures
        occurs_at(a + b, n, k + a.len()),
{
    assert((a + b).subrange(k + a.len(), k + a.len() + n.len()) =~= b.subrange(k, k + n.len()));
}

proof fn lemma_part_in_join(parts: Seq<Seq<char>>, i: int, n: Seq<char>)
    requires
        0 <= i < parts.len(),
        contains(parts[i], n),
    ensures
        contains(join_spaced(parts), n),
    decreases parts.len(),
{
    let k = choose|k: int| occurs_at(parts[i], n, k);
    if parts.len() == 1 {
        assert(occurs_at(join_spaced(parts), n, k));
    } else if i == parts.len() - 1 {
        let front = join_spaced(parts.drop_last()) + seq![' '];
        lemma_occurs_in_suffix(front, parts.last(), n, k);
        assert(join_spaced(parts) == front + parts.last());
    } else {
        assert(parts.drop_last()[i] == parts[i]);
        lemma_part_in_join(parts.drop_last(), i, n);
        let j = choose|j: int| occurs_at(join_spaced(parts.drop_last()), n, j);
        lemma_occurs_in_prefix(join_spaced(parts.drop_last()), seq![' '] + parts.last(), n, j);
        assert(join_spaced(parts) =~= join_spaced(parts.drop_last()) + (seq![' '] + parts.last()));
    }
}

/// Whatever one cause says, lowercased, the text that the classification
/// searches says too.
pub proof fn cause_text_is_searched(causes: Seq<String>, i: int, n: Seq<char>)
    requires
        0 <= i < causes.len(),
        contains(lowercase(causes[i]@), n),
    ensures
        contains(chain_text(causes), n),
{
    let parts = causes.map_values(|c: String| lowercase(c@));
    assert(parts[i] == lowercase(causes[i]@));
    lemma_part_in_join(parts, i, n);
}

/// A failure is never retried when one of the terminal phrases occurs
/// (non-fast-forward, branch protection, rejected by remote,
/// authentication failed, permission denied, repository not found),
/// whatever else the error says.
pub proof fn terminal_phrases_are_never_transient(chain: Seq<char>, phrase: Seq<char>)
    requires
        phrase == "non-fast-forward"@ || phrase == "branch protection"@ || phrase
            == "rejected by remote"@ || phrase == "authentication failed"@ || phrase
            == "permission denied"@ || phrase == "repository not found"@,
        contains(chain, phrase),
    ensures
        !transient_text(chain),
{
}

/// When no terminal phrase occurs, a 502, 503 or 504 reported the way git
/// or curl report a status (after `error: `, `http `, `http/1.1 `,
/// `http/2 `, `status `, `status code ` or `code `) makes a failure worth
/// retrying.
pub proof fn reported_gateway_statuses_are_transient(
    chain: Seq<char>,
    prefix: Seq<char>,
    code: Seq<char>,
)
    requires
        prefix == "error: "@ || prefix == "http "@ || prefix == "http/1.1 "@ || prefix
            == "http/2 "@ || prefix == "status "@ || prefix == "status code "@ || prefix
            == "code "@,
        code == "502"@ || code == "503"@ || code == "504"@,
        contains(chain, prefix + code),
        !contains(chain, "non-fast-forward"@),
        !contains(chain, "branch protection"@),
        !contains(chain, "rejected by remote"@),
        !contains(chain, "authentication failed"@),
        !contains(chain, "permission denied"@),
        !contains(chain, "repository not found"@),
    ensures
        transient_text(chain),
{
}

/// When no terminal phrase occurs, a phrase naming a passing failure
/// (connection refused or reset, timed out, could not resolve host, early
/// EOF, TLS or SSL handshake trouble, 5xx gateway wording, rate limits, ...)
/// makes a failure worth retrying.
pub proof fn transient_phrases_are_transient(chain: Seq<char>, phrase: Seq<char>)
    requires
        phrase == "connection refused"@ || phrase == "connection reset"@ || phrase
            == "connection closed"@ || phrase == "connection timed out"@ || phrase
            == "failed to connect"@ || phrase == "could not resolve host"@ || phrase
            == "could not resolve proxy"@ || phrase == "temporarily unavailable"@ || phrase
            == "network is unreachable"@ || phrase == "network is down"@ || phrase
            == "network error"@ || phrase == "timed out"@ || phrase == "broken pipe"@ || phrase
            == "rst_stream"@ || phrase == "remote end hung up"@ || phrase == "early eof"@ || phrase
            == "ssl handshake"@ || phrase == "ssl connect error"@ || phrase == "ssl_read"@ || phrase
            == "ssl_write"@ || phrase == "sslv3"@ || phrase == "tls handshake"@ || phrase
            == "gnutls_handshake"@ || phrase == "certificate verify failed"@ || phrase
            == "bad gateway"@ || phrase == "service unavailable"@ || phrase
            == "gateway timeout"@ || phrase == "internal server error"@ || phrase
            == "secondary rate limit"@ || phrase == "rate limit exceeded"@ || phrase
            == "fatal error in commit_refs"@ || phrase == "object is no commit object"@ || phrase
            == "no commit object"@ || phrase == "class=invalid"@ || phrase == "object not found"@
            || phrase == "odb"@,
        contains(chain, phrase),
        !contains(chain, "non-fast-forward"@),
        !contains(chain, "branch protection"@),
        !contains(chain, "rejected by remote"@),
        !contains(chain, "authentication failed"@),
        !contains(chain, "permission denied"@),
        !contains(chain, "repository not found"@),
    ensures
        transient_text(chain),
{
}

/// A failed git operation one of whose causes reports a 502, 503 or 504
/// (after one of git's or curl's status prefixes) is retried, unless a
/// terminal phrase occurs somewhere in the error.
pub proof fn error_reporting_gateway_status_is_transient(
    causes: Seq<String>,
    i: int,
    prefix: Seq<char>,
    code: Seq<char>,
)
    requires
        0 <= i < causes.len(),
        prefix == "error: "@ || prefix == "http "@ || prefix == "http/1.1 "@ || prefix
            == "http/2 "@ || prefix == "status "@ || prefix == "status code "@ || prefix
            == "code "@,
        code == "502"@ || code == "503"@ || code == "504"@,
        contains(lowercase(causes[i]@), prefix + code),
        !contains(chain_text(causes), "non-fast-forward"@),
        !contains(chain_text(causes), "branch protection"@),
        !contains(chain_text(causes), "rejected by remote"@),
        !contains(chain_text(causes), "authentication failed"@),
        !contains(chain_text(causes), "permission denied"@),
        !contains(chain_text(causes), "repository not found"@),
    ensures
        transient_text(chain_text(causes)),
{
    cause_text_is_searched(causes, i, prefix + code);
    reported_gateway_statuses_are_transient(chain_text(causes), prefix, code);
}

/// One cause shows that the push was rejected because the remote moved:
/// it is the rejected-push code itself, or, lowercased, it names a rebase
/// conflict, a repository rule, a non-fast-forward update, a needed fetch,
/// a stale lease, a tag already on the remote elsewhere, or an unexpected
/// branch tip.
pub open spec fn shows_rejection(cause: Seq<char>, rejected_code: Seq<char>) -> bool {
    let m = lowercase(cause);
    ||| cause == rejected_code
    ||| contains(m, "rebase conflict"@)
    ||| contains(m, "push declined due to repository rule"@)
    ||| contains(m, "non-fast-forward"@)
    ||| contains(m, "non-fastforward"@)
    ||| contains(m, "not fast forward"@)
    ||| contains(m, "fetch first"@)
    ||| contains(m, "stale info"@)
    ||| contains(m, "already exist on remote pointing to a different commit"@)
    ||| contains(m, "expected branch to point to"@)
}

fn shows_rejection_exec(cause: &String, rejected_code: &str) -> (res: bool)
    ensures
        res == shows_rejection(cause@, rejected_code@),
{
    let raw = chars_of(cause.as_str());
    if crate::text::same_chars(raw.as_slice(), rejected_code) {
        return true;
    }
    let lower = to_lowercase(cause.as_str());
    let m = chars_of(lower.as_str());
    let c = m.as_slice();
    contains_str(c, "rebase conflict") || contains_str(c, "push declined due to repository rule")
        || contains_str(c, "non-fast-forward") || contains_str(c, "non-fastforward")
        || contains_str(c, "not fast forward") || contains_str(c, "fetch first") || contains_str(
        c,
        "stale info",
    ) || contains_str(c, "already exist on remote pointing to a different commit")
        || contains_str(c, "expected branch to point to")
}

/// Whether the push failed because the remote moved under us (which the
/// release flow answers by regenerating the release commit against the new
/// tip). `rejected_code` is the text of the rejected-push error code; the
/// generic push-failure codes are deliberately not matched.
pub fn is_push_rejected_error(err: &ErrorChain, rejected_code: &str) -> (res: bool)
    ensures
        res == exists|i: int|
            0 <= i < err.causes@.len() && #[trigger] shows_rejection(
                err.causes@[i]@,
                rejected_code@,
            ),
{
    let mut i: usize = 0;
    while i < err.causes.len()
        invariant
            i <= err.causes@.len(),
            forall|j: int|
                0 <= j < i ==> !#[trigger] shows_rejection(err.causes@[j]@, rejected_code@),
        decreases err.causes@.len() - i,
    {
        if shows_rejection_exec(&err.causes[i], rejected_code) {
            return true;
        }
        i = i + 1;
    }
    false
}

/// A push whose error has a cause that, lowercased, names one of the
/// rejection phrases (rebase conflict, push declined due to repository
/// rule, non-fast-forward, non-fastforward, not fast forward, fetch first,
/// stale info, already exist on remote pointing to a different commit,
/// expected branch to point to) was rejected because the remote moved.
pub proof fn rejection_phrases_mean_push_rejected(
    causes: Seq<String>,
    rejected_code: Seq<char>,
    i: int,
    phrase: Seq<char>,
)
    requires
        0 <= i < causes.len(),
        phrase == "rebase conflict"@ || phrase == "push declined due to repository rule"@ || phrase
            == "non-fast-forward"@ || phrase == "non-fastforward"@ || phrase
            == "not fast forward"@ || phrase == "fetch first"@ || phrase == "stale info"@ || phrase
            == "already exist on remote pointing to a different commit"@ || phrase
            == "expected branch to point to"@,
        contains(lowercase(causes[i]@), phrase),
    ensures
        exists|j: int| 0 <= j < causes.len() && #[trigger] shows_rejection(causes[j]@, rejected_code),
{
    assert(shows_rejection(causes[i]@, rejected_code));
}

/// A cause that is exactly the rejected-push code marks a rejection.
pub proof fn rejected_code_means_push_rejected(causes: Seq<String>, rejected_code: Seq<char>, i: int)
    requires
        0 <= i < causes.len(),
        causes[i]@ == rejected_code,
    ensures
        exists|j: int| 0 <= j < causes.len() && #[trigger] shows_rejection(causes[j]@, rejected_code),
{
    assert(shows_rejection(causes[i]@, rejected_code));
}

/// Nothing else marks a rejection: an error none of whose causes is the
/// rejected-push code or names a rejection phrase was not rejected (the
/// generic push-failure codes in particular are not matched).
pub proof fn only_rejections_mean_push_rejected(causes: Seq<String>, rejected_code: Seq<char>)
    requires
        forall|j: int|
            0 <= j < causes.len() ==> {
                let m = #[trigger] lowercase(causes[j]@);
                &&& causes[j]@ != rejected_code
                &&& !contains(m, "rebase conflict"@)
                &&& !contains(m, "push declined due to repository rule"@)
                &&& !contains(m, "non-fast-forward"@)
                &&& !contains(m, "non-fastforward"@)
                &&& !contains(m, "not fast forward"@)
                &&& !contains(m, "fetch first"@)
                &&& !contains(m, "stale info"@)
                &&& !contains(m, "already exist on remote pointing to a different commit"@)
                &&& !contains(m, "expected branch to point to"@)
            },
    ensures
        !exists|j: int| 0 <= j < causes.len() && #[trigger] shows_rejection(causes[j]@, rejected_code),
{
    assert forall|j: int| 0 <= j < causes.len() implies !#[trigger] shows_rejection(
        causes[j]@,
        rejected_code,
    ) by {
        let m = lowercase(causes[j]@);
    }
}

/// How many times an operation is tried before its error is returned.
pub const MAX_ATTEMPTS: u32 = 4;

/// Where a retried operation stands: which attempt comes next and how long
/// to wait should it fail transiently.
#[derive(Debug, Clone, Copy)]
pub struct RetryState {
    pub attempt: u32,
    pub delay_secs: u64,
}

/// What happened on one attempt.
pub enum AttemptOutcome {
    Succeeded,
    Failed(ErrorChain),
}

/// What the caller does after an attempt.
pub enum RetryAction {
    /// Return success; `retried` is set when it took more than one attempt
    /// (the success is then reported).
    Finish { retried: bool },
    /// Return the attempt's error.
    GiveUp,
    /// Report the transient failure, sleep this long, then try again.
    Wait { secs: u64 },
}

/// The wait after the `n`-th attempt: 1 s, doubling each time.
pub open spec fn backoff(n: nat) -> nat
    decreases n,
{
    if n <= 1 {
        1
    } else {
        2 * backoff((n - 1) as nat)
    }
}

/// A state that a run starting from [`retry_start`] can be in.
pub open spec fn reachable(s: RetryState) -> bool {
    1 <= s.attempt <= MAX_ATTEMPTS && s.delay_secs == backoff(s.attempt as nat)
}

/// The decision after an attempt: a success finishes; a failure that is not
/// transient, or that of the last attempt, gives up; any other failure
/// waits the current delay, and the next attempt waits twice as long.
pub open spec fn retry_next(s: RetryState, succeeded: bool, transient: bool) -> (
    RetryState,
    RetryAction,
) {
    if succeeded {
        (s, RetryAction::Finish { retried: s.attempt > 1 })
    } else if !transient || s.attempt >= MAX_ATTEMPTS {
        (s, RetryAction::GiveUp)
    } else {
        (
            RetryState {
                attempt: (s.attempt + 1) as u32,
                delay_secs: if s.delay_secs * 2 > u64::MAX {
                    u64::MAX
                } else {
                    (s.delay_secs * 2) as u64
                },
            },
            RetryAction::Wait { secs: s.delay_secs },
        )
    }
}

/// The state before the first attempt.
pub fn retry_start() -> (res: RetryState)
    ensures
        res == (RetryState { attempt: 1, delay_secs: 1 }),
        reachable(res),
{
    RetryState { attempt: 1, delay_secs: 1 }
}

/// Decides what follows an attempt (see [`retry_next`]); a failure counts
/// as transient as [`is_transient_git_error`] says.
pub fn retry_step(state: RetryState, outcome: &AttemptOutcome) -> (res: (RetryState, RetryAction))
    requires
        1 <= state.attempt <= MAX_ATTEMPTS,
    ensures
        res == retry_next(
            state,
            outcome is Succeeded,
            match outcome {
                AttemptOutcome::Failed(err) => transient_text(chain_text(err.causes@)),
                AttemptOutcome::Succeeded => false,
            },
        ),
{
    match outcome {
        AttemptOutcome::Succeeded => {
            let retried = state.attempt > 1;
            (state, RetryAction::Finish { retried })
        },
        AttemptOutcome::Failed(err) => {
            let transient = is_transient_git_error(err);
            if !transient || state.attempt >= MAX_ATTEMPTS {
                (state, RetryAction::GiveUp)
            } else {
                let wait = state.delay_secs;
                let next = RetryState {
                    attempt: state.attempt + 1,
                    delay_secs: if state.delay_secs > u64::MAX / 2 {
                        u64::MAX
                    } else {
                        state.delay_secs * 2
                    },
                };
                (next, RetryAction::Wait { secs: wait })
            }
        },
    }
}

/// A failure that is not transient is never retried: whatever the attempt,
/// the step gives up and the state stays as it was.
pub proof fn permanent_failures_give_up_at_once(s: RetryState)
    ensures
        retry_next(s, false, false).1 is GiveUp,
        retry_next(s, false, false).0 == s,
{
}

/// A success always finishes, reporting whether it took more than one
/// attempt.
pub proof fn successes_finish(s: RetryState, transient: bool)
    ensures
        retry_next(s, true, transient).1 == (RetryAction::Finish { retried: s.attempt > 1 }),
{
}

/// A wait is only ever chosen for a failure that is transient and not on
/// the last attempt; and such a failure always waits, for the current
/// delay, before the next attempt.
pub proof fn waits_only_on_transient_failures(s: RetryState, succeeded: bool, transient: bool)
    ensures
        retry_next(s, succeeded, transient).1 is Wait <==> (!succeeded && transient && s.attempt
            < MAX_ATTEMPTS),
        retry_next(s, succeeded, transient).1 is Wait ==> retry_next(s, succeeded, transient).1
            == (RetryAction::Wait { secs: s.delay_secs }),
        retry_next(s, succeeded, transient).1 is Wait ==> retry_next(s, succeeded, transient).0.attempt
            == s.attempt + 1,
{
}

/// From the start, an operation that keeps failing transiently waits 1,
/// 2 and 4 seconds and gives up on its fourth attempt.
pub proof fn transient_failures_back_off_one_two_four()
    ensures
        ({
            let s1 = RetryState { attempt: 1, delay_secs: 1 };
            let (s2, a1) = retry_next(s1, false, true);
            let (s3, a2) = retry_next(s2, false, true);
            let (s4, a3) = retry_next(s3, false, true);
            let (s5, a4) = retry_next(s4, false, true);
            &&& a1 == RetryAction::Wait { secs: 1 }
            &&& a2 == RetryAction::Wait { secs: 2 }
            &&& a3 == RetryAction::Wait { secs: 4 }
            &&& a4 is GiveUp
            &&& s4.attempt == 4
        }),
{
}

/// How many attempts a run makes, given for each attempt whether it
/// succeeds and whether its failure is transient.
pub open spec fn attempts_made(s: RetryState, outcomes: Seq<(bool, bool)>) -> nat
    decreases outcomes.len(),
{
    if outcomes.len() == 0 {
        0
    } else {
        let (next, action) = retry_next(s, outcomes[0].0, outcomes[0].1);
        match action {
            RetryAction::Wait { .. } => 1 + attempts_made(next, outcomes.drop_first()),
            _ => 1,
        }
    }
}

/// Every wait is one step of the doubling back-off and leads to the next
/// attempt, which is still within the limit.
pub proof fn retry_waits_double(s: RetryState, succeeded: bool, transient: bool)
    requires
        reachable(s),
    ensures
        retry_next(s, succeeded, transient).1 matches RetryAction::Wait { secs } ==> {
            &&& secs == backoff(s.attempt as nat)
            &&& retry_next(s, succeeded, transient).0.attempt == s.attempt + 1
            &&& reachable(retry_next(s, succeeded, transient).0)
        },
{
    if !succeeded && transient && s.attempt < MAX_ATTEMPTS {
        assert(backoff((s.attempt + 1) as nat) == 2 * backoff(s.attempt as nat));
        assert(backoff(1) == 1 && backoff(2) == 2 && backoff(3) == 4) by {
            reveal_with_fuel(backoff, 4);
        }
        assert(s.delay_secs <= 4);
    }
}

proof fn lemma_attempts_bounded(s: RetryState, outcomes: Seq<(bool, bool)>)
    requires
        reachable(s),
    ensures
        attempts_made(s, outcomes) <= MAX_ATTEMPTS + 1 - s.attempt,
    decreases outcomes.len(),
{
    if outcomes.len() > 0 {
        let (next, action) = retry_next(s, outcomes[0].0, outcomes[0].1);
        retry_waits_double(s, outcomes[0].0, outcomes[0].1);
        if action is Wait {
            lemma_attempts_bounded(next, outcomes.drop_first());
        }
    }
}

/// An operation is attempted at most [`MAX_ATTEMPTS`] times, whatever its
/// attempts return: the last attempt always finishes or gives up.
pub proof fn retry_attempts_at_most_max(outcomes: Seq<(bool, bool)>)
    ensures
        attempts_made(RetryState { attempt: 1, delay_secs: 1 }, outcomes) <= MAX_ATTEMPTS,
{
    lemma_attempts_bounded(RetryState { attempt: 1, delay_secs: 1 }, outcomes);
}

/// How long a run waits in all, given for each attempt whether it succeeds
/// and whether its failure is transient.
pub open spec fn total_wait(s: RetryState, outcomes: Seq<(bool, bool)>) -> nat
    decreases outcomes.len(),
{
    if outcomes.len() == 0 {
        0
    } else {
        let (next, action) = retry_next(s, outcomes[0].0, outcomes[0].1);
        match action {
            RetryAction::Wait { secs } => secs as nat + total_wait(next, outcomes.drop_first()),
            _ => 0,
        }
    }
}

proof fn lemma_total_wait(s: RetryState, outcomes: Seq<(bool, bool)>)
    requires
        reachable(s),
    ensures
        total_wait(s, outcomes) + backoff(s.attempt as nat) <= 8,
    decreases outcomes.len(),
{
    assert(backoff(1) == 1 && backoff(2) == 2 && backoff(3) == 4 && backoff(4) == 8) by {
        reveal_with_fuel(backoff, 5);
    }
    if outcomes.len() > 0 {
        let (next, action) = retry_next(s, outcomes[0].0, outcomes[0].1);
        retry_waits_double(s, outcomes[0].0, outcomes[0].1);
        if action is Wait {
            lemma_total_wait(next, outcomes.drop_first());
        }
    }
}

/// A run never waits more than 1 + 2 + 4 = 7 seconds in all.
pub proof fn retry_total_wait_at_most_seven(outcomes: Seq<(bool, bool)>)
    ensures
        total_wait(RetryState { attempt: 1, delay_secs: 1 }, outcomes) <= 7,
{
    lemma_total_wait(RetryState { attempt: 1, delay_secs: 1 }, outcomes);
}

/// The line reporting that a retried operation finally succeeded.
pub open spec fn success_note_text(label: Seq<char>, attempt: u32) -> Seq<char> {
    "  ✓ "@ + label + " succeeded on attempt "@ + decimal(attempt as nat) + "/"@ + decimal(
        MAX_ATTEMPTS as nat,
    )
}

/// The line reporting that a retried operation finally succeeded.
pub fn success_note(label: &str, attempt: u32) -> (res: String)
    ensures
        res@ == success_note_text(label@, attempt),
{
    let mut out = "  ✓ ".to_owned();
    push_all(&mut out, label);
    push_all(&mut out, " succeeded on attempt ");
    push_decimal(&mut out, attempt as u64);
    push_all(&mut out, "/");
    push_decimal(&mut out, MAX_ATTEMPTS as u64);
    out
}

/// The line reporting a transient failure and the coming wait.
pub open spec fn retry_warning_text(
    label: Seq<char>,
    attempt: u32,
    error: Seq<char>,
    secs: u64,
) -> Seq<char> {
    "  ⚠ "@ + label + " attempt "@ + decimal(attempt as nat) + "/"@ + decimal(MAX_ATTEMPTS as nat)
        + " failed (transient): "@ + error + "; retrying in "@ + decimal(secs as nat) + "s"@
}

/// The line reporting a transient failure and the coming wait.
pub fn retry_warning(label: &str, attempt: u32, error: &str, secs: u64) -> (res: String)
    ensures
        res@ == retry_warning_text(label@, attempt, error@, secs),
{
    let mut out = "  ⚠ ".to_owned();
    push_all(&mut out, label);
    push_all(&mut out, " attempt ");
    push_decimal(&mut out, attempt as u64);
    push_all(&mut out, "/");
    push_decimal(&mut out, MAX_ATTEMPTS as u64);
    push_all(&mut out, " failed (transient): ");
    push_all(&mut out, error);
    push_all(&mut out, "; retrying in ");
    push_decimal(&mut out, secs);
    push_all(&mut out, "s");
    out
}

} // verus!
