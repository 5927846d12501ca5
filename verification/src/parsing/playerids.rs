//! The list of players as the server's older interface reports it.

use vstd::prelude::*;
use vstd::slice::slice_subrange;
use crate::error::RconError;
use crate::parsing::player::{Player, PlayerId, PlayerIdView, PlayerView};
use crate::text::{from_chars, last_tag, rfind_tag, run_until, skip_until, to_chars};

verus! {

/// The player written as `<anything>\t<name> : <id>\t` at the head of `s`,
/// and the position of the second tab.  The id starts behind the last ` : `.
pub open spec fn taken_player(s: Seq<char>) -> Option<(PlayerView, int)> {
    let first: int = run_until(s, '\t') as int;
    if first >= s.len() {
        None
    } else {
        let second: int = first + 1 + run_until(s.skip(first + 1), '\t');
        if second >= s.len() {
            None
        } else {
            let encoded = s.subrange(first + 1, second);
            match last_tag(encoded, " : "@) {
                None => None,
                Some(at) => Some(
                    (
                        PlayerView {
                            name: encoded.take(at),
                            id: PlayerIdView::parse(encoded.skip(at + " : "@.len())),
                        },
                        second,
                    ),
                ),
            }
        }
    }
}

/// The players written in `s`, one after the other, up to the first place
/// where none can be read.
pub open spec fn playerids_of(s: Seq<char>) -> Seq<PlayerView>
    decreases s.len(),
{
    match taken_player(s) {
        Some((player, next)) => if 0 < next <= s.len() {
            seq![player] + playerids_of(s.skip(next))
        } else {
            seq![]
        },
        None => seq![],
    }
}

/// Reads one player.
fn take_player(input: &[char]) -> (r: Option<(Player, usize)>)
    ensures
        match r {
            Some((player, next)) => taken_player(input@) == Some((player@, next as int)) && 0
                < next < input@.len(),
            None => taken_player(input@) is None,
        },
{
    assert(input@.skip(0) =~= input@);
    let first = skip_until(input, 0, '\t');
    if first >= input.len() {
        return None;
    }
    let second = skip_until(input, first + 1, '\t');
    if second >= input.len() {
        return None;
    }
    let encoded = slice_subrange(input, first + 1, second);
    let at = match rfind_tag(encoded, " : ") {
        Some(at) => at,
        None => {
            return None;
        },
    };
    proof {
        reveal_strlit(" : ");
    }
    let total = encoded.len();
    let name = from_chars(encoded, 0, at);
    let id_text = from_chars(encoded, at + 3, total);
    let id = PlayerId::parse(id_text.as_str());
    Some((Player { name, id }, second))
}

/// Reads the list of players.  The result is always `Ok`.
pub fn parse_playerids(input: &str) -> (r: Result<Vec<Player>, RconError>)
    ensures
        match r {
            Ok(players) => players.deep_view() == playerids_of(input@),
            Err(_) => false,
        },
{
    let chars = to_chars(input);
    let mut players: Vec<Player> = Vec::new();
    let mut at: usize = 0;
    let ghost mut done: Seq<PlayerView> = Seq::empty();
    assert(chars@.skip(0) =~= chars@);
    loop
        invariant
            at <= chars@.len(),
            chars@ == input@,
            done == players.deep_view(),
            playerids_of(input@) == done + playerids_of(chars@.skip(at as int)),
        decreases chars@.len() - at,
    {
        let rest = slice_subrange(chars.as_slice(), at, chars.len());
        match take_player(rest) {
            Some((player, next)) => {
                assert(rest@.skip(next as int) =~= chars@.skip(at + next));
                players.push(player);
                proof {
                    done = done.push(player@);
                }
                at = at + next;
            },
            None => {
                return Ok(players);
            },
        }
    }
}

} // verus!
