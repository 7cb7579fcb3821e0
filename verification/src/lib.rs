//! Verified core of the wrist-hello authentication daemon: the challenge that a
//! watch must sign, the short-lived authentication session, the cache of earlier
//! authentications, the classification of the watch's responses and the
//! decisions of the request processor.

pub mod advertisement;
pub mod auth_caches;
pub mod auth_processor;
pub mod auth_session;
pub mod bytes;
pub mod cancel_signal;
pub mod challenge_draw;
pub mod channels;
pub mod clock;
pub mod config;
pub mod current_challenge;
pub mod identity;
pub mod notify_ready_guard;
pub mod pending_notifications;
pub mod response_char;
pub mod socket_server;
pub mod text;
pub mod uuids;
pub mod verification_handler;
