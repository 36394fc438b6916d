//! Client and relayer logic for locating, by private set intersection, the relayer that
//! holds an email address's commitment, admitting claims on unclaimed chain entries, and
//! keeping a push-notified mailbox connection alive.

mod claim;
mod psi;
mod imap;

pub use claim::{
    admission_message, check_unclaim_valid, commit_string, hex_digits, hex_of,
    serve_reveal_request, Claim, ClaimError, RevealRequest, UnclaimType, UnclaimedEntry,
    ADMISSION_DELAY,
};
pub use psi::{
    blind_step_args, find_returns_first_match, BlindStep, CheckRequest, FindAction, FindScan,
    Point,
};
pub use imap::{
    extract_auth_code, reconnect_is_bounded, xoauth2_response, Reconnect, ReconnectAction,
    WatcherEvent, WatcherState, watcher_step, MAX_RETRIES, RETRY_DELAY_MS,
};
