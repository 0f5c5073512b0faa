//! Builder for configuring a MediaService.
use vstd::prelude::*;

use crate::text::strings_view;

verus! {

/// Builder for configuring and creating a MediaService instance.
///
/// Allows customization of ignored player patterns for filtering out
/// specific media players from being tracked.
pub struct MediaServiceBuilder {
    ignored_players: Vec<String>,
}

impl MediaServiceBuilder {
    /// The ignored player patterns, in the order given.
    pub closed spec fn patterns(&self) -> Seq<Seq<char>> {
        strings_view(self.ignored_players@)
    }

    /// Creates a new MediaServiceBuilder with default values (no ignored players).
    pub fn new() -> (res: Self)
        ensures
            res.patterns() == Seq::<Seq<char>>::empty(),
    {
        let res = MediaServiceBuilder { ignored_players: Vec::new() };
        assert(res.patterns() =~= Seq::<Seq<char>>::empty());
        res
    }

    /// Sets the patterns for media players to ignore, replacing those set before.
    pub fn ignored_players(self, patterns: Vec<String>) -> (res: Self)
        ensures
            res.patterns() == strings_view(patterns@),
    {
        MediaServiceBuilder { ignored_players: patterns }
    }

    /// Adds a single pattern for a media player to ignore.
    pub fn ignore_player(self, pattern: String) -> (res: Self)
        ensures
            res.patterns() == self.patterns().push(pattern@),
    {
        let mut ignored = self.ignored_players;
        let ghost before = ignored@;
        ignored.push(pattern);
        let res = MediaServiceBuilder { ignored_players: ignored };
        assert(res.patterns() =~= strings_view(before).push(pattern@));
        res
    }

    /// The configured patterns, handed to the service when it is built.
    pub fn into_ignored_players(self) -> (res: Vec<String>)
        ensures
            strings_view(res@) == self.patterns(),
    {
        self.ignored_players
    }
}

impl Default for MediaServiceBuilder {
    fn default() -> (res: Self)
        ensures
            res.patterns() == Seq::<Seq<char>>::empty(),
    {
        Self::new()
    }
}

} // verus!
