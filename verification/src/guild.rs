//! Guilds and their channels.

use vstd::prelude::*;

verus! {

/// A channel of a guild.
#[derive(Clone, Debug, Eq, Hash, PartialEq)]
pub struct Channel {
    pub id: String,
    pub name: String,
}

/// A guild (a server) with its channels.
#[derive(Clone, Debug, Eq, Hash, PartialEq)]
pub struct Guild {
    pub id: String,
    pub name: String,
    pub channels: Vec<Channel>,
}

} // verus!
