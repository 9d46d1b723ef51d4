use vstd::prelude::*;

verus! {

/// Who a notification is attributed to, and where that party lives.
#[derive(Debug)]
pub struct EmbedAuthor {
    pub name: String,
    pub url: String,
}

/// One attachment of a notification. `timestamp` is in seconds since the
/// Unix epoch (UTC).
#[derive(Debug)]
pub struct Embed {
    pub title: String,
    pub description: String,
    pub url: String,
    pub timestamp: i64,
    pub author: EmbedAuthor,
}

/// A notification for the messaging endpoint.
#[derive(Debug)]
pub struct Message {
    pub embeds: Vec<Embed>,
}

} // verus!
