//! Immutable configuration consumed once to construct a player.

use vstd::prelude::*;

verus! {

/// Settings chosen before a player is created: the id under which the player
/// is registered, whether playback starts as soon as the source is ready, and
/// an optional initial media URI.
#[derive(Clone, Debug)]
pub struct PlayerBuilder {
    /// Unique key used for registration and lookup of the player.
    pub id: String,
    /// Start the player in the playing state once the source is set.
    pub auto_start: bool,
    /// Media URI handed to the pipeline during construction, if already known.
    pub uri: Option<String>,
}

impl PlayerBuilder {
    /// A fresh configuration: `auto_start` is off and no URI is set.
    pub fn new(id: String) -> (r: Self)
        ensures
            r.id@ == id@,
            !r.auto_start,
            r.uri is None,
    {
        PlayerBuilder { id, auto_start: false, uri: None }
    }

    /// Choose whether the player starts in the playing state.
    pub fn set_auto_start(self, auto_start: bool) -> (r: Self)
        ensures
            r == (PlayerBuilder { auto_start, ..self }),
    {
        PlayerBuilder { auto_start, ..self }
    }

    /// Record the media URI the player is constructed with.
    pub fn set_uri(self, uri: String) -> (r: Self)
        ensures
            r == (PlayerBuilder { uri: Some(uri), ..self }),
    {
        PlayerBuilder { uri: Some(uri), ..self }
    }
}

} // verus!
