//! Looking up Beat Saber custom maps on BeatSaver and presenting them in a
//! chat message with a difficulty selector.
//!
//! The library holds every decision and every text of the bot, and none of
//! its input and output:
//!
//! - [`code`] reads a map code out of what the user typed;
//! - [`api`] says where a request goes and what an answer means;
//! - [`map`] is the data model of a map, [`embed`] that of what is shown;
//! - [`mapembed`] presents one map: the selector menu and the document of
//!   the selected view;
//! - [`session`] is the state machine of one interactive message;
//! - [`autocomplete`] makes the suggestions shown while the user types, with
//!   [`truncate`] to keep their labels short;
//! - [`status`] describes the running build, [`error`] the failures;
//! - [`text`] writes numbers.

pub mod api;
pub mod autocomplete;
pub mod code;
pub mod embed;
pub mod error;
pub mod map;
pub mod mapembed;
pub mod session;
pub mod status;
pub mod text;
pub mod truncate;
