//! The state of the running match, and the text form in which the server reports it.

use vstd::prelude::*;
use crate::error::{RconError, RconErrorView};
use crate::parsing::utils::{take_duration, take_u64, taken_duration, taken_u64};
use crate::text::{from_chars, has_tag, run_until, skip_until, take_tag, to_chars};

verus! {

/// A snapshot of the match.
#[derive(Debug, PartialEq, Eq)]
pub struct GameState {
    /// Players on the Allied side.
    pub allied_players: u64,
    /// Players on the Axis side.
    pub axis_players: u64,
    /// Points of the Allied side.
    pub allied_score: u64,
    /// Points of the Axis side.
    pub axis_score: u64,
    /// Time left in the match, in seconds.
    pub remaining_time: u64,
    /// The map being played.
    pub map: String,
    /// The map that follows.
    pub next_map: String,
}

/// Mathematical model of a [`GameState`].
pub struct GameStateView {
    pub allied_players: u64,
    pub axis_players: u64,
    pub allied_score: u64,
    pub axis_score: u64,
    pub remaining_time: u64,
    pub map: Seq<char>,
    pub next_map: Seq<char>,
}

impl View for GameState {
    type V = GameStateView;

    open spec fn view(&self) -> GameStateView {
        GameStateView {
            allied_players: self.allied_players,
            axis_players: self.axis_players,
            allied_score: self.allied_score,
            axis_score: self.axis_score,
            remaining_time: self.remaining_time,
            map: self.map@,
            next_map: self.next_map@,
        }
    }
}

impl DeepView for GameState {
    type V = GameStateView;

    open spec fn deep_view(&self) -> GameStateView {
        self@
    }
}

impl Clone for GameState {
    fn clone(&self) -> (copy: Self)
        ensures
            copy@ == self@,
    {
        GameState {
            allied_players: self.allied_players,
            axis_players: self.axis_players,
            allied_score: self.allied_score,
            axis_score: self.axis_score,
            remaining_time: self.remaining_time,
            map: self.map.clone(),
            next_map: self.next_map.clone(),
        }
    }
}

/// Name of the grammar, as reported in parse errors.
pub open spec fn gamestate_grammar() -> Seq<char> {
    "game state"@
}

/// The number that follows `tag` at position `at` of `s`, and the position after it.
pub open spec fn tagged_u64(s: Seq<char>, at: int, tag: Seq<char>) -> Option<(u64, int)> {
    if !has_tag(s, at, tag) {
        None
    } else {
        match taken_u64(s.skip(at + tag.len())) {
            None => None,
            Some((value, n)) => Some((value, at + tag.len() + n)),
        }
    }
}

/// The game state written at the head of `s`:
///
/// ```text
/// Players: Allied: <n> - Axis: <n>
/// Score: Allied: <n> - Axis: <n>
/// Remaining Time: <h>:<m>:<s>
/// Map: <text up to the end of the line>
/// Next Map: <one or more characters up to the end of the line or of the text>
/// ```
pub open spec fn gamestate_of(s: Seq<char>) -> Option<GameStateView> {
    match tagged_u64(s, 0, "Players: Allied: "@) {
        None => None,
        Some((allied_players, p1)) => match tagged_u64(s, p1, " - Axis: "@) {
            None => None,
            Some((axis_players, p2)) => match tagged_u64(s, p2, "\nScore: Allied: "@) {
                None => None,
                Some((allied_score, p3)) => match tagged_u64(s, p3, " - Axis: "@) {
                    None => None,
                    Some((axis_score, p4)) => gamestate_tail(
                        s,
                        p4,
                        allied_players,
                        axis_players,
                        allied_score,
                        axis_score,
                    ),
                },
            },
        },
    }
}

/// The rest of a game state, from the remaining time on, read at position `at`.
pub open spec fn gamestate_tail(
    s: Seq<char>,
    at: int,
    allied_players: u64,
    axis_players: u64,
    allied_score: u64,
    axis_score: u64,
) -> Option<GameStateView> {
    let time_tag = "\nRemaining Time: "@;
    let map_tag = "\nMap: "@;
    let next_tag = "\nNext Map: "@;
    if !has_tag(s, at, time_tag) {
        None
    } else {
        match taken_duration(s.skip(at + time_tag.len())) {
            None => None,
            Some((remaining_time, n)) => {
                let p5 = at + time_tag.len() + n;
                if !has_tag(s, p5, map_tag) {
                    None
                } else {
                    let map_from = p5 + map_tag.len();
                    let map_to = map_from + run_until(s.skip(map_from), '\n');
                    if map_to >= s.len() || !has_tag(s, map_to, next_tag) {
                        None
                    } else {
                        let next_from = map_to + next_tag.len();
                        let next_to = next_from + run_until(s.skip(next_from), '\n');
                        if next_to == next_from {
                            None
                        } else {
                            Some(
                                GameStateView {
                                    allied_players,
                                    axis_players,
                                    allied_score,
                                    axis_score,
                                    remaining_time,
                                    map: s.subrange(map_from, map_to),
                                    next_map: s.subrange(next_from, next_to),
                                },
                            )
                        }
                    }
                }
            },
        }
    }
}

/// Reads `tag` and the number after it, starting at `from`.
fn take_tagged_u64(chars: &[char], from: usize, tag: &str) -> (r: Option<(u64, usize)>)
    requires
        from <= chars@.len(),
    ensures
        match r {
            Some((value, next)) => tagged_u64(chars@, from as int, tag@) == Some(
                (value, next as int),
            ) && next <= chars@.len(),
            None => tagged_u64(chars@, from as int, tag@) is None,
        },
{
    let after = match take_tag(chars, from, tag) {
        Some(after) => after,
        None => {
            return None;
        },
    };
    take_u64(chars, after)
}

/// Reads a game state from the head of `chars`.
fn take_gamestate(chars: &[char]) -> (r: Option<GameState>)
    ensures
        match r {
            Some(state) => gamestate_of(chars@) == Some(state@),
            None => gamestate_of(chars@) is None,
        },
{
    let (allied_players, p1) = match take_tagged_u64(chars, 0, "Players: Allied: ") {
        Some(found) => found,
        None => {
            return None;
        },
    };
    let (axis_players, p2) = match take_tagged_u64(chars, p1, " - Axis: ") {
        Some(found) => found,
        None => {
            return None;
        },
    };
    let (allied_score, p3) = match take_tagged_u64(chars, p2, "\nScore: Allied: ") {
        Some(found) => found,
        None => {
            return None;
        },
    };
    let (axis_score, p4) = match take_tagged_u64(chars, p3, " - Axis: ") {
        Some(found) => found,
        None => {
            return None;
        },
    };
    let time_from = match take_tag(chars, p4, "\nRemaining Time: ") {
        Some(after) => after,
        None => {
            return None;
        },
    };
    let (remaining_time, p5) = match take_duration(chars, time_from) {
        Some(found) => found,
        None => {
            return None;
        },
    };
    let map_from = match take_tag(chars, p5, "\nMap: ") {
        Some(after) => after,
        None => {
            return None;
        },
    };
    let map_to = skip_until(chars, map_from, '\n');
    if map_to >= chars.len() {
        return None;
    }
    let next_from = match take_tag(chars, map_to, "\nNext Map: ") {
        Some(after) => after,
        None => {
            return None;
        },
    };
    let next_to = skip_until(chars, next_from, '\n');
    if next_to == next_from {
        return None;
    }
    Some(
        GameState {
            allied_players,
            axis_players,
            allied_score,
            axis_score,
            remaining_time,
            map: from_chars(chars, map_from, map_to),
            next_map: from_chars(chars, next_from, next_to),
        },
    )
}

impl GameState {
    /// Parses the server's text report of the match.
    ///
    /// Succeeds exactly on the texts that start with a game state; what
    /// follows the name of the next map is ignored.
    pub fn parse(input: &str) -> (r: Result<Self, RconError>)
        ensures
            match r {
                Ok(state) => gamestate_of(input@) == Some(state@),
                Err(e) => gamestate_of(input@) is None && e@ == RconErrorView::ParsingError(
                    gamestate_grammar(),
                ),
            },
    {
        let chars = to_chars(input);
        match take_gamestate(chars.as_slice()) {
            Some(state) => Ok(state),
            None => Err(RconError::ParsingError("game state")),
        }
    }
}

} // verus!
