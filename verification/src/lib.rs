//! The subscription lifecycle and cross-post engine of a bot that relays
//! newly published videos of subscribed YouTube channels into Reddit
//! communities.
//!
//! The library decides; the program around it performs. A subscription is
//! requested from the hub ([`hub`]), confirmed in a handshake
//! ([`handshake`]) and renewed before its lease ends ([`scheduler`]). A
//! notification is authenticated against its raw body ([`signature`]),
//! screened ([`feed`]) and dispatched to every community of every linked
//! account ([`dispatch`]), with tokens refreshed when they are due
//! ([`oauth`]) and the pin of a community rotated after a post
//! ([`moderation`]).
//!
//! Every function is verified against a contract over the mathematical
//! value of its arguments. What is taken on trust are the few calls into
//! other crates, each in a function of its own whose documentation says what
//! is believed of it: the clock ([`clock`]), UUIDs ([`ids`]) and the
//! lower-casing of text ([`text`]).

pub mod backfill;
pub mod cli;
pub mod clock;
pub mod dispatch;
pub mod dispatch_laws;
pub mod error;
pub mod feed;
pub mod forms;
pub mod handshake;
pub mod hmac;
pub mod hub;
pub mod ids;
pub mod moderation;
pub mod oauth;
pub mod reddit;
pub mod scheduler;
pub mod sha1;
pub mod signature;
pub mod text;
