//! Check-in kiosk library: the display font and scrolling, request signing and
//! its verification on the manager server, device management decisions, and
//! the small text formats exchanged between the kiosk and its servers.
use vstd::prelude::*;

pub mod text;
pub mod hexfmt;
pub mod crypto;
pub mod glyph;
pub mod display;
pub mod auth;
pub mod manager;
pub mod order;
pub mod server;
pub mod relative_time;
pub mod checkin;
pub mod admin;
pub mod legacy;
pub mod reader;
pub mod kiosk;

verus! {

} // verus!
