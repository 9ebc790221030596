//! The authorization policy that gates use of the stored keys.
//!
//! Every agent request passes through `confirm_request` before it is served.
//! Only signing carries trust consequence, so only signing is ever gated; a
//! successful explicit approval opens a window during which further signing
//! requests approve silently. The daemon holds the last-approved timestamp
//! behind a lock and evaluates one whole decision per request inside the
//! critical section, handing in the clock reading and, when one was asked
//! for, the consent provider's answer.

use vstd::prelude::*;

use crate::config::Prompt;

verus! {

/// The closed set of request shapes the policy distinguishes, in place of
/// matching on the wire protocol's own message tags.
#[derive(Clone, Copy, Debug, PartialEq, Eq, Structural)]
pub enum MessageKind {
    /// Sign a challenge with a stored key: the only gated request.
    Sign,
    /// Register a new identity.
    AddIdentity,
    /// List the registered identities.
    List,
    /// Remove one identity or all of them.
    Remove,
    /// Anything else the protocol carries.
    Other,
}

/// One whole policy decision: whether the request goes through, the
/// last-approved timestamp to keep, and whether the consent provider was
/// consulted at all.
#[derive(Clone, Copy, Debug, PartialEq, Eq, Structural)]
pub struct PolicyOutcome {
    /// The request may be served.
    pub approved: bool,
    /// The last-approved timestamp after this decision, in seconds.
    pub new_last: i64,
    /// A consent dialog was (or would be) raised for this request.
    pub prompted: bool,
}

/// A signing request at `now` must be confirmed anew: the policy names a
/// window, the request is a signing request, and the window that opened at
/// the last approval has passed.
pub open spec fn needs_consent(prompt: Prompt, msg: MessageKind, now: i64, last: i64) -> bool {
    &&& prompt matches Prompt::EveryNSeconds(window)
    &&& msg is Sign
    &&& now - last >= window
}

/// Whether the request goes through, given what the consent provider would
/// answer if it were asked.
pub open spec fn request_approved(
    prompt: Prompt,
    msg: MessageKind,
    now: i64,
    last: i64,
    consent: bool,
) -> bool {
    !needs_consent(prompt, msg, now, last) || consent
}

/// The last-approved timestamp after the decision: it moves to `now` exactly
/// when the user was asked and said yes.
pub open spec fn next_last(
    prompt: Prompt,
    msg: MessageKind,
    now: i64,
    last: i64,
    consent: bool,
) -> i64 {
    if needs_consent(prompt, msg, now, last) && consent {
        now
    } else {
        last
    }
}

/// Decides one agent request.
///
/// `now` and `last` are clock readings in seconds; `consent` is the consent
/// provider's answer, read only when the decision called for a prompt. The
/// caller runs this inside the one critical section around the shared
/// timestamp, so the read-compare-write below is atomic with respect to
/// concurrent requests.
pub fn confirm_request(
    prompt: &Prompt,
    msg: &MessageKind,
    now: i64,
    last: i64,
    consent: bool,
) -> (r: PolicyOutcome)
    requires
        0 <= last,
        0 <= now,
    ensures
        r.prompted == needs_consent(*prompt, *msg, now, last),
        r.approved == request_approved(*prompt, *msg, now, last, consent),
        r.new_last == next_last(*prompt, *msg, now, last, consent),
{
    match prompt {
        Prompt::NoPrompt => PolicyOutcome { approved: true, new_last: last, prompted: false },
        Prompt::EveryNSeconds(window) => {
            match msg {
                MessageKind::Sign => {
                    if now - last < *window {
                        PolicyOutcome { approved: true, new_last: last, prompted: false }
                    } else if consent {
                        PolicyOutcome { approved: true, new_last: now, prompted: true }
                    } else {
                        PolicyOutcome { approved: false, new_last: last, prompted: true }
                    }
                },
                _ => PolicyOutcome { approved: true, new_last: last, prompted: false },
            }
        },
    }
}

/// The last-approved timestamp a serving session starts from: the epoch,
/// standing for "no approval was ever given". The timestamp moves only on an
/// explicit approval, so under a window policy the first signing request of
/// a session prompts (for any clock reading at or past the window's length).
pub fn initial_last_approved() -> (r: i64)
    ensures
        r == 0,
{
    0
}

/// Relies on chrono's `Utc::now` for the wall clock. Nothing is assumed of
/// the reading: the clock may move anywhere between two calls.
#[verifier::external_body]
fn now_unix_raw() -> i64 {
    chrono::Utc::now().timestamp()
}

/// The clock reading the policy runs on, clamped at the epoch so that the
/// window arithmetic in `confirm_request` cannot overflow.
pub fn current_time() -> (r: i64)
    ensures
        0 <= r,
{
    let t = now_unix_raw();
    if t >= 0 {
        t
    } else {
        0
    }
}

/// Decides a new-identity registration: the daemon trusts the bootstrap
/// loader and any local client that can reach the socket to add keys; only
/// use of a key is gated.
pub fn confirm_new_identity() -> (r: bool)
    ensures
        r,
{
    true
}

/// Inside an open window, signing requests approve silently and leave the
/// window where it was; once the window has passed, the next signing request
/// prompts again. Stated here for a window opened by an approval at `t0` and
/// two later readings inside the window followed by one at or past its end.
pub proof fn lemma_policy_window(window: i64, t0: i64, t1: i64, t2: i64, t3: i64, consent: bool)
    requires
        0 < window,
        0 <= t0,
        t0 <= t1,
        t1 - t0 < window,
        t0 <= t2,
        t2 - t0 < window,
        t3 - t0 >= window,
    ensures
        !needs_consent(Prompt::EveryNSeconds(window), MessageKind::Sign, t1, t0),
        request_approved(Prompt::EveryNSeconds(window), MessageKind::Sign, t1, t0, consent),
        next_last(Prompt::EveryNSeconds(window), MessageKind::Sign, t1, t0, consent) == t0,
        !needs_consent(Prompt::EveryNSeconds(window), MessageKind::Sign, t2, t0),
        request_approved(Prompt::EveryNSeconds(window), MessageKind::Sign, t2, t0, consent),
        next_last(Prompt::EveryNSeconds(window), MessageKind::Sign, t2, t0, consent) == t0,
        needs_consent(Prompt::EveryNSeconds(window), MessageKind::Sign, t3, t0),
{
}

/// A request that is not a signing request never consults the consent
/// provider and always goes through, whatever the policy, the clock or the
/// provider's would-be answer say.
pub proof fn lemma_non_sign_auto_approves(
    prompt: Prompt,
    msg: MessageKind,
    now: i64,
    last: i64,
    consent: bool,
)
    requires
        !(msg is Sign),
    ensures
        !needs_consent(prompt, msg, now, last),
        request_approved(prompt, msg, now, last, consent),
        next_last(prompt, msg, now, last, consent) == last,
{
}

} // verus!
