//! The display documents that the presentation model produces: embeds, and
//! the rows of components under a message.

use vstd::prelude::*;
use vstd::string::*;
use crate::map::opt_text;

verus! {

/// An accent colour, by its red, green and blue parts.
#[derive(Clone, Copy, Debug, PartialEq, Eq, Structural)]
pub struct Colour {
    pub r: u8,
    pub g: u8,
    pub b: u8,
}

impl Colour {
    /// The colour with the given parts.
    pub fn from_rgb(r: u8, g: u8, b: u8) -> (colour: Colour)
        ensures
            colour == (Colour { r, g, b }),
    {
        Colour { r, g, b }
    }
}

/// A titled entry in the body of an embed.
#[derive(Clone, Debug, PartialEq, Eq)]
pub struct EmbedField {
    pub name: String,
    pub value: String,
    pub inline: bool,
}

/// What contracts say of an [`EmbedField`].
pub struct EmbedFieldView {
    pub name: Seq<char>,
    pub value: Seq<char>,
    pub inline: bool,
}

impl View for EmbedField {
    type V = EmbedFieldView;

    open spec fn view(&self) -> EmbedFieldView {
        EmbedFieldView { name: self.name@, value: self.value@, inline: self.inline }
    }
}

impl EmbedField {
    /// The field with the given name and value.
    pub fn new(name: &str, value: String, inline: bool) -> (field: EmbedField)
        ensures
            field@ == (EmbedFieldView { name: name@, value: value@, inline }),
    {
        EmbedField { name: String::from_str(name), value, inline }
    }
}

/// One display document.
#[derive(Clone, Debug, PartialEq, Eq)]
pub struct Embed {
    pub title: String,
    /// Where the title links to.
    pub url: Option<String>,
    pub description: Option<String>,
    /// Address of the small picture.
    pub thumbnail: Option<String>,
    pub footer: Option<String>,
    /// In seconds since the Unix epoch.
    pub timestamp: Option<i64>,
    pub fields: Vec<EmbedField>,
    pub colour: Option<Colour>,
}

/// What contracts say of an [`Embed`].
pub struct EmbedView {
    pub title: Seq<char>,
    pub url: Option<Seq<char>>,
    pub description: Option<Seq<char>>,
    pub thumbnail: Option<Seq<char>>,
    pub footer: Option<Seq<char>>,
    pub timestamp: Option<int>,
    pub fields: Seq<EmbedFieldView>,
    pub colour: Option<Colour>,
}

/// The views of a run of fields.
pub open spec fn fields_view(fields: Seq<EmbedField>) -> Seq<EmbedFieldView> {
    Seq::new(fields.len(), |i: int| fields[i]@)
}

impl View for Embed {
    type V = EmbedView;

    open spec fn view(&self) -> EmbedView {
        EmbedView {
            title: self.title@,
            url: opt_text(self.url),
            description: opt_text(self.description),
            thumbnail: opt_text(self.thumbnail),
            footer: opt_text(self.footer),
            timestamp: match self.timestamp {
                Some(t) => Some(t as int),
                None => None,
            },
            fields: fields_view(self.fields@),
            colour: self.colour,
        }
    }
}

/// The views of a run of embeds.
pub open spec fn embeds_view(embeds: Seq<Embed>) -> Seq<EmbedView> {
    Seq::new(embeds.len(), |i: int| embeds[i]@)
}

/// One entry of a selection menu.
#[derive(Clone, Debug, PartialEq, Eq)]
pub struct SelectOption {
    /// What the user reads.
    pub label: String,
    /// What comes back when the user picks the entry.
    pub value: String,
    /// Whether the menu shows the entry as the current choice.
    pub default: bool,
}

/// What contracts say of a [`SelectOption`].
pub struct SelectOptionView {
    pub label: Seq<char>,
    pub value: Seq<char>,
    pub default: bool,
}

impl View for SelectOption {
    type V = SelectOptionView;

    open spec fn view(&self) -> SelectOptionView {
        SelectOptionView { label: self.label@, value: self.value@, default: self.default }
    }
}

/// The views of a run of menu entries.
pub open spec fn options_view(options: Seq<SelectOption>) -> Seq<SelectOptionView> {
    Seq::new(options.len(), |i: int| options[i]@)
}

/// A selection menu.
#[derive(Clone, Debug, PartialEq, Eq)]
pub struct SelectMenu {
    /// The name under which the menu's events arrive.
    pub custom_id: String,
    /// What the closed menu shows while nothing is chosen.
    pub placeholder: String,
    pub options: Vec<SelectOption>,
}

/// What contracts say of a [`SelectMenu`].
pub struct SelectMenuView {
    pub custom_id: Seq<char>,
    pub placeholder: Seq<char>,
    pub options: Seq<SelectOptionView>,
}

impl View for SelectMenu {
    type V = SelectMenuView;

    open spec fn view(&self) -> SelectMenuView {
        SelectMenuView {
            custom_id: self.custom_id@,
            placeholder: self.placeholder@,
            options: options_view(self.options@),
        }
    }
}

/// A button that opens a link.
#[derive(Clone, Debug, PartialEq, Eq)]
pub struct LinkButton {
    pub url: String,
    pub label: String,
    pub emoji: char,
}

/// What contracts say of a [`LinkButton`].
pub struct LinkButtonView {
    pub url: Seq<char>,
    pub label: Seq<char>,
    pub emoji: char,
}

impl View for LinkButton {
    type V = LinkButtonView;

    open spec fn view(&self) -> LinkButtonView {
        LinkButtonView { url: self.url@, label: self.label@, emoji: self.emoji }
    }
}

/// One row of components under a message.
#[derive(Clone, Debug, PartialEq, Eq)]
pub enum ActionRow {
    SelectMenu(SelectMenu),
    Buttons(Vec<LinkButton>),
}

/// What contracts say of an [`ActionRow`].
pub enum ActionRowView {
    SelectMenu(SelectMenuView),
    Buttons(Seq<LinkButtonView>),
}

impl View for ActionRow {
    type V = ActionRowView;

    open spec fn view(&self) -> ActionRowView {
        match self {
            ActionRow::SelectMenu(menu) => ActionRowView::SelectMenu(menu@),
            ActionRow::Buttons(buttons) => ActionRowView::Buttons(
                Seq::new(buttons@.len(), |i: int| buttons@[i]@),
            ),
        }
    }
}

/// The views of a run of rows.
pub open spec fn rows_view(rows: Seq<ActionRow>) -> Seq<ActionRowView> {
    Seq::new(rows.len(), |i: int| rows[i]@)
}

} // verus!
