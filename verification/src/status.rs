//! What the bot says of itself.

use vstd::prelude::*;
use vstd::string::*;
use crate::embed::{fields_view, Embed, EmbedField, EmbedFieldView, EmbedView};

verus! {

/// The activity line of a build: `v` and the version.
pub open spec fn activity_line(version: Seq<char>) -> Seq<char> {
    "v"@ + version
}

/// The document that reports the running build.
pub open spec fn status_document(version: Seq<char>) -> EmbedView {
    EmbedView {
        title: "Mafuyu v"@ + version,
        url: None,
        description: Some("A general purpose Discord application."@),
        thumbnail: None,
        footer: Some("Made by @mercurial_world on Discord"@),
        timestamp: None,
        fields: seq![
            EmbedFieldView {
                name: "Source"@,
                value: "https://github.com/mercurialworld/mafuyu"@,
                inline: false,
            },
        ],
        colour: None,
    }
}

/// The activity line shown under the bot's name.
pub fn activity_text(version: &str) -> (text: String)
    ensures
        text@ == activity_line(version@),
{
    let mut text: String = String::from_str("v");
    text.append(version);
    text
}

/// The document that reports the running build and where its source lives.
pub fn status_embed(version: &str) -> (embed: Embed)
    ensures
        embed@ == status_document(version@),
{
    let mut title: String = String::from_str("Mafuyu v");
    title.append(version);
    let mut fields: Vec<EmbedField> = Vec::new();
    fields.push(
        EmbedField::new(
            "Source",
            String::from_str("https://github.com/mercurialworld/mafuyu"),
            false,
        ),
    );
    assert(fields_view(fields@) =~= status_document(version@).fields);
    Embed {
        title,
        url: None,
        description: Some(String::from_str("A general purpose Discord application.")),
        thumbnail: None,
        footer: Some(String::from_str("Made by @mercurial_world on Discord")),
        timestamp: None,
        fields,
        colour: None,
    }
}

} // verus!
