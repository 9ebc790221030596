//! The authorization policy: windowing, selectivity, identity
//! registration.

use sshield::config::Prompt;
use sshield::policy::{
    confirm_new_identity, confirm_request, current_time, initial_last_approved, MessageKind,
};

#[test]
fn window_admits_requests_inside_sixty_seconds() {
    let policy = Prompt::EveryNSeconds(60);
    // Approval happened at t = 1000; two sign requests inside the window
    // approve silently whatever the provider would have answered.
    let first = confirm_request(&policy, &MessageKind::Sign, 1030, 1000, false);
    assert!(first.approved);
    assert!(!first.prompted);
    assert_eq!(first.new_last, 1000);
    let second = confirm_request(&policy, &MessageKind::Sign, 1059, 1000, false);
    assert!(second.approved);
    assert!(!second.prompted);
    assert_eq!(second.new_last, 1000);
}

#[test]
fn window_reprompts_after_it_passes() {
    let policy = Prompt::EveryNSeconds(60);
    // 61 seconds after the last approval the provider is consulted again.
    let denied = confirm_request(&policy, &MessageKind::Sign, 1061, 1000, false);
    assert!(denied.prompted);
    assert!(!denied.approved);
    assert_eq!(denied.new_last, 1000);
    let granted = confirm_request(&policy, &MessageKind::Sign, 1061, 1000, true);
    assert!(granted.prompted);
    assert!(granted.approved);
    assert_eq!(granted.new_last, 1061);
}

#[test]
fn request_at_window_boundary_prompts() {
    let policy = Prompt::EveryNSeconds(60);
    let at_edge = confirm_request(&policy, &MessageKind::Sign, 1060, 1000, true);
    assert!(at_edge.prompted);
}

#[test]
fn non_sign_requests_never_prompt() {
    let policy = Prompt::EveryNSeconds(1);
    for msg in [
        MessageKind::AddIdentity,
        MessageKind::List,
        MessageKind::Remove,
        MessageKind::Other,
    ] {
        let r = confirm_request(&policy, &msg, 1_000_000, 0, false);
        assert!(r.approved);
        assert!(!r.prompted);
        assert_eq!(r.new_last, 0);
    }
}

#[test]
fn no_prompt_mode_approves_everything_silently() {
    let r = confirm_request(&Prompt::NoPrompt, &MessageKind::Sign, 5_000, 0, false);
    assert!(r.approved);
    assert!(!r.prompted);
}

#[test]
fn first_sign_request_of_a_session_prompts() {
    // No approval was ever given, so a session's first signing request
    // under a window policy consults the provider.
    let policy = Prompt::EveryNSeconds(60);
    let r = confirm_request(&policy, &MessageKind::Sign, 1_700_000_000, initial_last_approved(), false);
    assert!(r.prompted);
    assert!(!r.approved);
}

#[test]
fn new_identity_registration_auto_approves() {
    assert!(confirm_new_identity());
}

#[test]
fn clock_reading_is_never_before_the_epoch() {
    assert!(current_time() >= 0);
}
