//! The rules of one interactive session: which selection events a session
//! answers, for how long, and with what.
//!
//! The session decides; whoever runs it waits for events, hands them in, and
//! sends out what comes back.

use vstd::prelude::*;
use vstd::string::*;
use crate::embed::{embeds_view, rows_view, ActionRow, Embed};
use crate::error::MapError;
use crate::mapembed::{components, decode_token, document, MapEmbed};
use crate::text::same_text;

verus! {

/// How long a session waits for a selection after its last render, in
/// seconds: fifteen minutes.
pub const SESSION_WINDOW: u64 = 900;

/// The name under which the selector menu's events arrive.
pub open spec fn selector_id() -> Seq<char> {
    "diffsel"@
}

/// A selection made in some menu of some message.
#[derive(Clone, Debug, PartialEq, Eq)]
pub struct SelectionEvent {
    /// Who made the selection.
    pub author_id: u64,
    pub channel_id: u64,
    /// The message that the menu hangs under.
    pub message_id: u64,
    /// The name of the menu.
    pub custom_id: String,
    /// The tokens of the chosen entries.
    pub values: Vec<String>,
    /// When the selection arrived, in seconds since the Unix epoch.
    pub at: u64,
}

/// What the runner of a session does after an event.
#[derive(Clone, Debug, PartialEq, Eq)]
pub enum SessionAction {
    /// Replace the message's documents and rows with these.
    Update { embeds: Vec<Embed>, components: Vec<ActionRow> },
    /// The event belongs to another message, menu or user: keep waiting.
    Ignore,
    /// The session is over: stop waiting and leave the message as it is.
    Close,
    /// The event cannot be answered: the session is left as it was.
    Fail(MapError),
}

/// One session: a presented map, the message it was sent as, the user who
/// asked for it, and the time of the last render.
#[derive(Clone, Debug, PartialEq, Eq)]
pub struct Session {
    pub embed: MapEmbed,
    /// The user whose selections count.
    pub author_id: u64,
    pub channel_id: u64,
    pub message_id: u64,
    /// When the message was last rendered, in seconds since the Unix epoch.
    pub last_render: u64,
    /// Whether the session still answers events.
    pub open: bool,
}

impl Session {
    /// Whether the window for selections has closed at time `at`: fifteen
    /// minutes or more have passed since the last render.
    pub open spec fn expired_at(&self, at: u64) -> bool {
        at as int >= self.last_render as int + SESSION_WINDOW as int
    }

    /// Whether an event is addressed to this session: same user, channel and
    /// message, and the selector menu.
    pub open spec fn addressed(&self, event: &SelectionEvent) -> bool {
        &&& event.author_id == self.author_id
        &&& event.channel_id == self.channel_id
        &&& event.message_id == self.message_id
        &&& event.custom_id@ == selector_id()
    }

    /// The view that an event selects: that of its first token.
    pub open spec fn selected_by(&self, event: &SelectionEvent) -> Option<int> {
        if event.values@.len() == 0 {
            None
        } else {
            decode_token(self.embed@.diffs(), event.values@[0]@)
        }
    }

    /// The session of a map that was rendered at time `now` as message
    /// `message_id`, on the request of `author_id`.
    pub fn start(
        embed: MapEmbed,
        author_id: u64,
        channel_id: u64,
        message_id: u64,
        now: u64,
    ) -> (session: Session)
        ensures
            session == (Session {
                embed,
                author_id,
                channel_id,
                message_id,
                last_render: now,
                open: true,
            }),
    {
        Session { embed, author_id, channel_id, message_id, last_render: now, open: true }
    }

    /// Whether the window for selections has closed at time `now`.
    pub fn is_expired(&self, now: u64) -> (expired: bool)
        ensures
            expired == self.expired_at(now),
    {
        now >= self.last_render && now - self.last_render >= SESSION_WINDOW
    }

    /// How many seconds the runner may still wait for an event at time `now`:
    /// none once the session is closed or its window has passed.
    pub fn remaining(&self, now: u64) -> (seconds: u64)
        ensures
            seconds as int == if !self.open || self.expired_at(now) {
                0
            } else if now <= self.last_render {
                SESSION_WINDOW as int
            } else {
                SESSION_WINDOW as int - (now as int - self.last_render as int)
            },
    {
        if !self.open || self.is_expired(now) {
            0
        } else if now <= self.last_render {
            SESSION_WINDOW
        } else {
            SESSION_WINDOW - (now - self.last_render)
        }
    }

    /// Answers one selection event.
    ///
    /// A closed session, or one whose window has passed when the event
    /// arrives, closes and edits nothing. An event for another user, channel,
    /// message or menu is ignored. An event without a token, or with a token
    /// that no entry of the menu carries, fails and changes nothing. Any other
    /// event selects the view that its token stands for, and the message is
    /// to be replaced by that view's document and rows.
    pub fn handle(&mut self, event: &SelectionEvent) -> (action: SessionAction)
        ensures
            final(self).embed@.map == old(self).embed@.map,
            final(self).author_id == old(self).author_id,
            final(self).channel_id == old(self).channel_id,
            final(self).message_id == old(self).message_id,
            final(self).last_render == old(self).last_render,
            !old(self).open || old(self).expired_at(event.at) ==> {
                &&& action == SessionAction::Close
                &&& !final(self).open
                &&& final(self).embed == old(self).embed
            },
            old(self).open && !old(self).expired_at(event.at) && !old(self).addressed(event) ==> {
                &&& action == SessionAction::Ignore
                &&& *final(self) == *old(self)
            },
            old(self).open && !old(self).expired_at(event.at) && old(self).addressed(event)
                ==> match old(self).selected_by(event) {
                Some(k) => {
                    &&& final(self).open
                    &&& final(self).embed@.selected == k
                    &&& match action {
                        SessionAction::Update { embeds, components: rows } => {
                            &&& embeds_view(embeds@) == seq![document(old(self).embed@.map, k)]
                            &&& rows_view(rows@) == components(old(self).embed@.map, k)
                        },
                        _ => false,
                    }
                },
                None => {
                    &&& action == SessionAction::Fail(MapError::ContractViolation)
                    &&& *final(self) == *old(self)
                },
            },
    {
        if !self.open || self.is_expired(event.at) {
            self.open = false;
            return SessionAction::Close;
        }
        if event.author_id != self.author_id || event.channel_id != self.channel_id
            || event.message_id != self.message_id || !same_text(
            event.custom_id.as_str(),
            "diffsel",
        ) {
            return SessionAction::Ignore;
        }
        if event.values.len() == 0 {
            return SessionAction::Fail(MapError::ContractViolation);
        }
        match self.embed.set_index(event.values[0].as_str()) {
            Ok(()) => {
                let embeds: Vec<Embed> = self.embed.build_embeds();
                let components: Vec<ActionRow> = self.embed.build_embed_components();
                SessionAction::Update { embeds, components }
            },
            Err(_) => SessionAction::Fail(MapError::ContractViolation),
        }
    }

    /// Records that the message was rendered anew at time `at`: the window
    /// for selections starts again from there. A time before the last render
    /// changes nothing.
    pub fn rendered(&mut self, at: u64)
        ensures
            final(self).last_render == if at >= old(self).last_render {
                at
            } else {
                old(self).last_render
            },
            final(self).embed == old(self).embed,
            final(self).author_id == old(self).author_id,
            final(self).channel_id == old(self).channel_id,
            final(self).message_id == old(self).message_id,
            final(self).open == old(self).open,
    {
        if at >= self.last_render {
            self.last_render = at;
        }
    }

    /// Ends the session: from now on every event is answered with
    /// [`SessionAction::Close`].
    pub fn close(&mut self)
        ensures
            *final(self) == (Session { open: false, ..*old(self) }),
    {
        self.open = false;
    }
}

} // verus!
