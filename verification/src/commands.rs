//! The typed commands of a session: the request that each of them sends,
//! and what it makes of the response.

use vstd::prelude::*;
use crate::error::{RconError, RconErrorView};
use crate::json::{json_parse, ArrayBuilder, Json, JsonView, ObjectBuilder};
use crate::messages::{protocol_version, RconRequest, RconRequestView, RconResponse, RconResponseView};
use crate::parsing::gamestate::GameState;
use crate::parsing::playerinfo::{PlayerData, PlayerDataView};
use crate::parsing::showlog::{logline_of, parse_logline, LogLine, LogLineView};

verus! {

/// Reason reported for a command that the server's interface does not offer yet.
pub open spec fn not_implemented_reason() -> Seq<char> {
    "The command is not implemented."@
}

/// A request without token, as the typed commands make it.
pub open spec fn request_of(name: Seq<char>, content_body: Seq<char>) -> RconRequestView {
    RconRequestView { auth_token: Seq::empty(), version: protocol_version(), name, content_body }
}

/// The body of a request for server information: which information, and about what.
pub open spec fn information_body(name: Seq<char>, value: Seq<char>) -> JsonView {
    JsonView::Object(seq![("Name"@, JsonView::Text(name)), ("Value"@, JsonView::Text(value))])
}

/// The body of a request for the admin log of the last minute, unfiltered.
pub open spec fn admin_log_body() -> JsonView {
    JsonView::Object(
        seq![
            ("Filters"@, JsonView::Array(Seq::empty())),
            ("LogBackTrackTime"@, JsonView::Text("60"@)),
        ],
    )
}

/// The body of a request that shows `message` to the player `id`.
pub open spec fn message_body(id: Seq<char>, message: Seq<char>) -> JsonView {
    JsonView::Object(
        seq![("Message"@, JsonView::Text(message)), ("PlayerId"@, JsonView::Text(id))],
    )
}

/// The body of a request that acts on the player `id` for `reason`.
pub open spec fn reason_body(id: Seq<char>, reason: Seq<char>) -> JsonView {
    JsonView::Object(seq![("PlayerId"@, JsonView::Text(id)), ("Reason"@, JsonView::Text(reason))])
}

/// The snapshots that the items of an array hold, if each of them holds one.
pub open spec fn players_of(items: Seq<JsonView>) -> Option<Seq<PlayerDataView>> {
    if forall|i: int| 0 <= i < items.len() ==> PlayerDataView::of_tree(#[trigger] items[i]) is Some {
        Some(Seq::new(items.len(), |i: int| PlayerDataView::of_tree(items[i]).unwrap()))
    } else {
        None
    }
}

/// What the response to a request for all players holds: the snapshots in
/// the array `players` of the JSON object in its body.
pub open spec fn fetched_players(response: RconResponseView) -> Result<
    Seq<PlayerDataView>,
    RconErrorView,
> {
    if !response.is_ok() {
        Err(RconErrorView::Failure)
    } else {
        match json_parse(response.content_body) {
            None => Err(RconErrorView::InvalidJson),
            Some(tree) => match tree.member("players"@) {
                None => Err(RconErrorView::InvalidJson),
                Some(list) => match list.as_items() {
                    None => Err(RconErrorView::InvalidJson),
                    Some(items) => match players_of(items) {
                        None => Err(RconErrorView::InvalidJson),
                        Some(players) => Ok(players),
                    },
                },
            },
        }
    }
}

/// What the response to a request for one player holds: the snapshot that
/// is the JSON object in its body.
pub open spec fn fetched_player(response: RconResponseView) -> Result<
    PlayerDataView,
    RconErrorView,
> {
    if !response.is_ok() {
        Err(RconErrorView::Failure)
    } else {
        match json_parse(response.content_body) {
            None => Err(RconErrorView::InvalidJson),
            Some(tree) => match PlayerDataView::of_tree(tree) {
                None => Err(RconErrorView::InvalidJson),
                Some(player) => Ok(player),
            },
        }
    }
}

/// The line that an entry of the admin log holds: the line written in its
/// string member `message`, if there is one and it can be read.
pub open spec fn entry_line(entry: JsonView) -> Option<LogLineView> {
    match entry.text_of("message"@) {
        Some(message) => logline_of(message),
        None => None,
    }
}

/// The lines that the entries of the admin log hold, in order; entries
/// without a line that can be read are passed over.
pub open spec fn entry_lines(entries: Seq<JsonView>) -> Seq<LogLineView>
    decreases entries.len(),
{
    if entries.len() == 0 {
        seq![]
    } else {
        match entry_line(entries.last()) {
            Some(line) => entry_lines(entries.drop_last()).push(line),
            None => entry_lines(entries.drop_last()),
        }
    }
}

/// What the response to a request for the admin log holds: the lines of
/// the array `entries` of the JSON object in its body.
pub open spec fn fetched_showlog(response: RconResponseView) -> Result<
    Seq<LogLineView>,
    RconErrorView,
> {
    if !response.is_ok() {
        Err(RconErrorView::Failure)
    } else {
        match json_parse(response.content_body) {
            None => Err(RconErrorView::InvalidJson),
            Some(tree) => match tree.member("entries"@) {
                None => Err(RconErrorView::InvalidJson),
                Some(list) => match list.as_items() {
                    None => Err(RconErrorView::InvalidJson),
                    Some(entries) => Ok(entry_lines(entries)),
                },
            },
        }
    }
}

/// Reads the lines that the entries of the admin log hold.
pub fn lines_from(entries: &Vec<Json>) -> (lines: Vec<LogLine>)
    ensures
        lines.deep_view() == entry_lines(entries.deep_view()),
{
    let ghost trees = entries.deep_view();
    let mut lines: Vec<LogLine> = Vec::new();
    let mut i: usize = 0;
    while i < entries.len()
        invariant
            i <= entries@.len(),
            trees == entries.deep_view(),
            lines.deep_view() == entry_lines(trees.take(i as int)),
        decreases entries@.len() - i,
    {
        proof {
            assert(trees.take(i + 1).drop_last() =~= trees.take(i as int));
        }
        match entries[i].text_of("message") {
            Some(message) => match parse_logline(message.as_str()) {
                Some(line) => {
                    lines.push(line);
                },
                None => {},
            },
            None => {},
        }
        i += 1;
    }
    assert(trees.take(trees.len() as int) =~= trees);
    lines
}

/// Reads the snapshots that the items of an array hold.
pub fn players_from(items: &Vec<Json>) -> (players: Option<Vec<PlayerData>>)
    ensures
        match players {
            Some(list) => players_of(items.deep_view()) == Some(list.deep_view()),
            None => players_of(items.deep_view()) is None,
        },
{
    let ghost trees = items.deep_view();
    let mut players: Vec<PlayerData> = Vec::new();
    let mut i: usize = 0;
    while i < items.len()
        invariant
            i <= items@.len(),
            trees == items.deep_view(),
            players@.len() == i,
            forall|j: int|
                0 <= j < i ==> PlayerDataView::of_tree(#[trigger] trees[j]) == Some(players@[j]@),
        decreases items@.len() - i,
    {
        match PlayerData::from_json(&items[i]) {
            Some(player) => {
                players.push(player);
            },
            None => {
                assert(PlayerDataView::of_tree(trees[i as int]) is None);
                return None;
            },
        }
        i += 1;
    }
    Some(players)
}

/// The request for the data of all players on the server.
pub fn fetch_players_request() -> (request: RconRequest)
    ensures
        request@ == request_of(
            "ServerInformation"@,
            information_body("players"@, Seq::empty()).text(),
        ),
{
    let mut body = ObjectBuilder::new();
    body.member("Name", Json::text("players"));
    body.member("Value", Json::Text(String::new()));
    assert(body@ =~= information_body("players"@, Seq::empty())->Object_0);
    RconRequest::with_body("ServerInformation", &body.finish())
}

/// Reads the data of all players from the response.
pub fn fetch_players(response: &RconResponse) -> (r: Result<Vec<PlayerData>, RconError>)
    ensures
        match r {
            Ok(players) => fetched_players(response@) == Ok::<
                Seq<PlayerDataView>,
                RconErrorView,
            >(players.deep_view()),
            Err(e) => fetched_players(response@) == Err::<Seq<PlayerDataView>, RconErrorView>(
                e@,
            ),
        },
{
    if response.status_code != 200 {
        return Err(RconError::Failure);
    }
    let tree = match Json::parse(response.content_body.as_str()) {
        Some(tree) => tree,
        None => {
            return Err(RconError::InvalidJson);
        },
    };
    let list = match tree.get("players") {
        Some(list) => list,
        None => {
            return Err(RconError::InvalidJson);
        },
    };
    let items = match list.as_array() {
        Some(items) => items,
        None => {
            return Err(RconError::InvalidJson);
        },
    };
    match players_from(items) {
        Some(players) => Ok(players),
        None => Err(RconError::InvalidJson),
    }
}

/// The request for the data of the player `id`.
pub fn fetch_player_request(id: &str) -> (request: RconRequest)
    ensures
        request@ == request_of("ServerInformation"@, information_body("player"@, id@).text()),
{
    let mut body = ObjectBuilder::new();
    body.member("Name", Json::text("player"));
    body.member("Value", Json::text(id));
    assert(body@ =~= information_body("player"@, id@)->Object_0);
    RconRequest::with_body("ServerInformation", &body.finish())
}

/// Reads the data of one player from the response.
pub fn fetch_player(response: &RconResponse) -> (r: Result<PlayerData, RconError>)
    ensures
        match r {
            Ok(player) => fetched_player(response@) == Ok::<PlayerDataView, RconErrorView>(
                player@,
            ),
            Err(e) => fetched_player(response@) == Err::<PlayerDataView, RconErrorView>(e@),
        },
{
    if response.status_code != 200 {
        return Err(RconError::Failure);
    }
    let tree = match Json::parse(response.content_body.as_str()) {
        Some(tree) => tree,
        None => {
            return Err(RconError::InvalidJson);
        },
    };
    match PlayerData::from_json(&tree) {
        Some(player) => Ok(player),
        None => Err(RconError::InvalidJson),
    }
}

/// The request for the admin log of the last minute.
pub fn fetch_showlog_request() -> (request: RconRequest)
    ensures
        request@ == request_of("AdminLog"@, admin_log_body().text()),
{
    let mut body = ObjectBuilder::new();
    body.member("Filters", ArrayBuilder::new().finish());
    body.member("LogBackTrackTime", Json::text("60"));
    assert(body@ =~= admin_log_body()->Object_0);
    RconRequest::with_body("AdminLog", &body.finish())
}

/// Reads the lines of the admin log from the response.
pub fn fetch_showlog(response: &RconResponse) -> (r: Result<Vec<LogLine>, RconError>)
    ensures
        match r {
            Ok(lines) => fetched_showlog(response@) == Ok::<Seq<LogLineView>, RconErrorView>(
                lines.deep_view(),
            ),
            Err(e) => fetched_showlog(response@) == Err::<Seq<LogLineView>, RconErrorView>(e@),
        },
{
    if response.status_code != 200 {
        return Err(RconError::Failure);
    }
    let tree = match Json::parse(response.content_body.as_str()) {
        Some(tree) => tree,
        None => {
            return Err(RconError::InvalidJson);
        },
    };
    let list = match tree.get("entries") {
        Some(list) => list,
        None => {
            return Err(RconError::InvalidJson);
        },
    };
    match list.as_array() {
        Some(entries) => Ok(lines_from(entries)),
        None => Err(RconError::InvalidJson),
    }
}

/// The state of the match cannot be asked for yet: always an error.
pub fn fetch_gamestate(response: &RconResponse) -> (r: Result<GameState, RconError>)
    ensures
        match r {
            Ok(_) => false,
            Err(e) => e@ == RconErrorView::InvalidData(not_implemented_reason()),
        },
{
    Err(RconError::InvalidData("The command is not implemented."))
}

/// The request that shows `message` to everybody on the server.
pub fn broadcast_message_request(message: &str) -> (request: RconRequest)
    ensures
        request@ == request_of("ServerBroadcast"@, message@),
{
    RconRequest::new("ServerBroadcast", message)
}

/// The request that shows `message` to the player `id`.
pub fn individual_message_request(id: &str, message: &str) -> (request: RconRequest)
    ensures
        request@ == request_of("MessagePlayer"@, message_body(id@, message@).text()),
{
    let mut body = ObjectBuilder::new();
    body.member("Message", Json::text(message));
    body.member("PlayerId", Json::text(id));
    assert(body@ =~= message_body(id@, message@)->Object_0);
    RconRequest::with_body("MessagePlayer", &body.finish())
}

/// The request that punishes the player `id` by killing them.
pub fn punish_player_request(id: &str, reason: &str) -> (request: RconRequest)
    ensures
        request@ == request_of("PunishPlayer"@, reason_body(id@, reason@).text()),
{
    let mut body = ObjectBuilder::new();
    body.member("PlayerId", Json::text(id));
    body.member("Reason", Json::text(reason));
    assert(body@ =~= reason_body(id@, reason@)->Object_0);
    RconRequest::with_body("PunishPlayer", &body.finish())
}

/// The request that kicks the player `id` from the server.
pub fn kick_player_request(id: &str, reason: &str) -> (request: RconRequest)
    ensures
        request@ == request_of("Kick"@, reason_body(id@, reason@).text()),
{
    let mut body = ObjectBuilder::new();
    body.member("PlayerId", Json::text(id));
    body.member("Reason", Json::text(reason));
    assert(body@ =~= reason_body(id@, reason@)->Object_0);
    RconRequest::with_body("Kick", &body.finish())
}

/// Confirms a command that returns no data: the server must have reported success.
pub fn confirm(response: &RconResponse) -> (r: Result<(), RconError>)
    ensures
        response@.is_ok() ==> r is Ok,
        !response@.is_ok() ==> r == Err::<(), RconError>(RconError::Failure),
{
    response.assert_ok(RconError::Failure)
}

/// Banning for a time cannot be asked for yet: always an error.
pub fn temp_ban(id: String, message: String) -> (r: Result<(), RconError>)
    ensures
        match r {
            Ok(_) => false,
            Err(e) => e@ == RconErrorView::InvalidData(not_implemented_reason()),
        },
{
    Err(RconError::InvalidData("The command is not implemented."))
}

/// Lifting a ban cannot be asked for yet: always an error.
pub fn remove_temp_ban(id: String) -> (r: Result<(), RconError>)
    ensures
        match r {
            Ok(_) => false,
            Err(e) => e@ == RconErrorView::InvalidData(not_implemented_reason()),
        },
{
    Err(RconError::InvalidData("The command is not implemented."))
}

} // verus!
