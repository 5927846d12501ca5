//! Lines of the server's admin log.

use vstd::prelude::*;
use vstd::slice::slice_subrange;
use crate::error::RconError;
use crate::parsing::player::{Player, PlayerId, PlayerIdView, PlayerView};
use crate::parsing::utils::{parse_u64, parsed_u64, take_u64, taken_u64};
use crate::text::{
    from_chars,
    has_tag,
    last_tag,
    rfind_tag,
    run_until,
    skip_until,
    take_tag,
    to_chars,
    utf8_len,
};

verus! {

/// What a log line reports.
#[derive(Debug, PartialEq, Eq, Hash)]
pub enum LogKind {
    Connect { player: Player, has_connected: bool },
    TeamSwitch { player: Player, old_team: String, new_team: String },
    Kill {
        killer: Player,
        killer_faction: String,
        victim: Player,
        victim_faction: String,
        is_teamkill: bool,
        weapon: String,
    },
    MatchStart { map: String },
    MatchEnded { map: String, allied_score: u64, axis_score: u64 },
    Chat { sender: Player, team: String, reach: String, content: String },
}

/// Mathematical model of a [`LogKind`].
pub enum LogKindView {
    Connect { player: PlayerView, has_connected: bool },
    TeamSwitch { player: PlayerView, old_team: Seq<char>, new_team: Seq<char> },
    Kill {
        killer: PlayerView,
        killer_faction: Seq<char>,
        victim: PlayerView,
        victim_faction: Seq<char>,
        is_teamkill: bool,
        weapon: Seq<char>,
    },
    MatchStart { map: Seq<char> },
    MatchEnded { map: Seq<char>, allied_score: u64, axis_score: u64 },
    Chat { sender: PlayerView, team: Seq<char>, reach: Seq<char>, content: Seq<char> },
}

impl View for LogKind {
    type V = LogKindView;

    open spec fn view(&self) -> LogKindView {
        match self {
            LogKind::Connect { player, has_connected } => LogKindView::Connect {
                player: player@,
                has_connected: *has_connected,
            },
            LogKind::TeamSwitch { player, old_team, new_team } => LogKindView::TeamSwitch {
                player: player@,
                old_team: old_team@,
                new_team: new_team@,
            },
            LogKind::Kill {
                killer,
                killer_faction,
                victim,
                victim_faction,
                is_teamkill,
                weapon,
            } => LogKindView::Kill {
                killer: killer@,
                killer_faction: killer_faction@,
                victim: victim@,
                victim_faction: victim_faction@,
                is_teamkill: *is_teamkill,
                weapon: weapon@,
            },
            LogKind::MatchStart { map } => LogKindView::MatchStart { map: map@ },
            LogKind::MatchEnded { map, allied_score, axis_score } => LogKindView::MatchEnded {
                map: map@,
                allied_score: *allied_score,
                axis_score: *axis_score,
            },
            LogKind::Chat { sender, team, reach, content } => LogKindView::Chat {
                sender: sender@,
                team: team@,
                reach: reach@,
                content: content@,
            },
        }
    }
}

impl Clone for LogKind {
    fn clone(&self) -> (copy: Self)
        ensures
            copy@ == self@,
    {
        match self {
            LogKind::Connect { player, has_connected } => LogKind::Connect {
                player: player.clone(),
                has_connected: *has_connected,
            },
            LogKind::TeamSwitch { player, old_team, new_team } => LogKind::TeamSwitch {
                player: player.clone(),
                old_team: old_team.clone(),
                new_team: new_team.clone(),
            },
            LogKind::Kill {
                killer,
                killer_faction,
                victim,
                victim_faction,
                is_teamkill,
                weapon,
            } => LogKind::Kill {
                killer: killer.clone(),
                killer_faction: killer_faction.clone(),
                victim: victim.clone(),
                victim_faction: victim_faction.clone(),
                is_teamkill: *is_teamkill,
                weapon: weapon.clone(),
            },
            LogKind::MatchStart { map } => LogKind::MatchStart { map: map.clone() },
            LogKind::MatchEnded { map, allied_score, axis_score } => LogKind::MatchEnded {
                map: map.clone(),
                allied_score: *allied_score,
                axis_score: *axis_score,
            },
            LogKind::Chat { sender, team, reach, content } => LogKind::Chat {
                sender: sender.clone(),
                team: team.clone(),
                reach: reach.clone(),
                content: content.clone(),
            },
        }
    }
}

impl LogKind {
    /// Whether both values report the same thing.
    pub fn same(&self, other: &LogKind) -> (b: bool)
        ensures
            b == (self@ == other@),
    {
        match (self, other) {
            (
                LogKind::Connect { player: p1, has_connected: c1 },
                LogKind::Connect { player: p2, has_connected: c2 },
            ) => p1.same(p2) && *c1 == *c2,
            (
                LogKind::TeamSwitch { player: p1, old_team: o1, new_team: n1 },
                LogKind::TeamSwitch { player: p2, old_team: o2, new_team: n2 },
            ) => p1.same(p2) && *o1 == *o2 && *n1 == *n2,
            (
                LogKind::Kill {
                    killer: k1,
                    killer_faction: kf1,
                    victim: v1,
                    victim_faction: vf1,
                    is_teamkill: t1,
                    weapon: w1,
                },
                LogKind::Kill {
                    killer: k2,
                    killer_faction: kf2,
                    victim: v2,
                    victim_faction: vf2,
                    is_teamkill: t2,
                    weapon: w2,
                },
            ) => k1.same(k2) && *kf1 == *kf2 && v1.same(v2) && *vf1 == *vf2 && *t1 == *t2 && *w1
                == *w2,
            (LogKind::MatchStart { map: m1 }, LogKind::MatchStart { map: m2 }) => *m1 == *m2,
            (
                LogKind::MatchEnded { map: m1, allied_score: a1, axis_score: x1 },
                LogKind::MatchEnded { map: m2, allied_score: a2, axis_score: x2 },
            ) => *m1 == *m2 && *a1 == *a2 && *x1 == *x2,
            (
                LogKind::Chat { sender: s1, team: t1, reach: r1, content: c1 },
                LogKind::Chat { sender: s2, team: t2, reach: r2, content: c2 },
            ) => s1.same(s2) && *t1 == *t2 && *r1 == *r2 && *c1 == *c2,
            _ => false,
        }
    }
}

/// One line of the admin log.
#[derive(Debug, PartialEq, Eq, Hash)]
pub struct LogLine {
    /// When the line was written, in seconds since the epoch.
    pub timestamp: u64,
    pub kind: LogKind,
}

/// Mathematical model of a [`LogLine`].
pub struct LogLineView {
    pub timestamp: u64,
    pub kind: LogKindView,
}

impl View for LogLine {
    type V = LogLineView;

    open spec fn view(&self) -> LogLineView {
        LogLineView { timestamp: self.timestamp, kind: self.kind@ }
    }
}

impl DeepView for LogLine {
    type V = LogLineView;

    open spec fn deep_view(&self) -> LogLineView {
        self@
    }
}

impl Clone for LogLine {
    fn clone(&self) -> (copy: Self)
        ensures
            copy@ == self@,
    {
        LogLine { timestamp: self.timestamp, kind: self.kind.clone() }
    }
}

impl LogLine {
    /// Whether both lines are the same.
    pub fn same(&self, other: &LogLine) -> (b: bool)
        ensures
            b == (self@ == other@),
    {
        self.timestamp == other.timestamp && self.kind.same(&other.kind)
    }
}

/// The pattern that finds the map and the scores in the report of a finished match.
pub open spec fn match_ended_pattern() -> Seq<char> {
    "`([^*]*)`.*\\((\\d+)\\s*-\\s*(\\d+)\\)"@
}

/// What the `regex` crate captures where it first finds `pattern` in
/// `text`: the whole match and then each group, with `None` for a group that
/// took no part.  `None` where the pattern is not found or is not a pattern.
pub uninterp spec fn regex_captures(pattern: Seq<char>, text: Seq<char>) -> Option<
    Seq<Option<Seq<char>>>,
>;

/// `Regex::new` compiles the pattern and `Regex::captures` searches the
/// text for its first match; the groups come out in order, the whole match first.
#[verifier::external_body]
fn captures(pattern: &str, text: &str) -> (groups: Option<Vec<Option<String>>>)
    ensures
        match groups {
            Some(found) => regex_captures(pattern@, text@) == Some(found.deep_view()),
            None => regex_captures(pattern@, text@) is None,
        },
{
    let found = regex::Regex::new(pattern).ok()?.captures(text)?;
    Some(found.iter().map(|group| group.map(|m| m.as_str().to_string())).collect())
}

/// Whether `c` is a blank, a tab, a carriage return or a line feed.
pub open spec fn is_space(c: char) -> bool {
    c == ' ' || c == '\t' || c == '\r' || c == '\n'
}

/// The number of spaces at the head of `s`.
pub open spec fn space_run(s: Seq<char>) -> nat
    decreases s.len(),
{
    if s.len() > 0 && is_space(s[0]) {
        1 + space_run(s.drop_first())
    } else {
        0
    }
}

/// The position of the end of the line that starts at `from`, if the line ends.
pub open spec fn line_end(s: Seq<char>, from: int) -> Option<int> {
    let end: int = from + run_until(s.skip(from), '\n');
    if 0 <= from <= s.len() && end < s.len() {
        Some(end)
    } else {
        None
    }
}

/// The timestamp in the prelude `[<anything> (<seconds>)] ` at the head of
/// `s`, and the length of the prelude.
pub open spec fn taken_prelude(s: Seq<char>) -> Option<(u64, int)> {
    if !(s.len() > 0 && s[0] == '[') {
        None
    } else {
        let open: int = 1 + run_until(s.skip(1), '(') as int;
        if open >= s.len() {
            None
        } else {
            match taken_u64(s.skip(open + 1)) {
                None => None,
                Some((timestamp, n)) => {
                    let close: int = open + 1 + n;
                    if close < s.len() && s[close] == ')' && has_tag(s, close + 1, "] "@) {
                        Some((timestamp, close + 3))
                    } else {
                        None
                    }
                },
            }
        }
    }
}

/// The faction and the id in `(<faction>/<id>)` at the head of `s`, and the
/// length read.  The id has at least 17 bytes.
pub open spec fn taken_faction_and_id(s: Seq<char>) -> Option<((Seq<char>, PlayerIdView), int)> {
    if !(s.len() > 0 && s[0] == '(') {
        None
    } else {
        let slash: int = 1 + run_until(s.skip(1), '/') as int;
        if slash == 1 || slash >= s.len() {
            None
        } else {
            let close: int = slash + 1 + run_until(s.skip(slash + 1), ')');
            let id = s.subrange(slash + 1, close);
            if close >= s.len() || vstd::utf8::encode_utf8(id).len() < 17 {
                None
            } else {
                Some(((s.subrange(1, slash), PlayerIdView::parse(id)), close + 1))
            }
        }
    }
}

/// The first length of a name, from `from` on and below 20, behind which a
/// faction and an id stand in `s`.
pub open spec fn name_length(s: Seq<char>, from: int) -> Option<int>
    decreases 20 - from,
{
    if from >= 20 || from < 0 || from > s.len() {
        None
    } else if taken_faction_and_id(s.skip(from)) is Some {
        Some(from)
    } else {
        name_length(s, from + 1)
    }
}

/// The faction and the player in `<name>(<faction>/<id>)` at the head of
/// `s`, and the length read.  The text has at least 27 characters, and the
/// name is the shortest of fewer than 20 characters behind which a faction
/// and an id stand.
pub open spec fn taken_faction_and_player(s: Seq<char>) -> Option<((Seq<char>, PlayerView), int)> {
    if s.len() < 27 {
        None
    } else {
        match name_length(s, 0) {
            None => None,
            Some(end) => {
                let ((faction, id), n) = taken_faction_and_id(s.skip(end)).unwrap();
                Some(((faction, PlayerView { name: s.take(end), id }), end + n))
            },
        }
    }
}

/// The connection reported by `CONNECTED <name> (<id>)` or `DISCONNECTED
/// <name> (<id>)` at the head of `s`, and the position of the end of the
/// line.  The name ends at the last blank of the line.
pub open spec fn taken_connect(s: Seq<char>) -> Option<(LogKindView, int)> {
    let start: int = if has_tag(s, 0, "CONNECTED"@) {
        "CONNECTED"@.len() as int
    } else {
        "DISCONNECTED"@.len() as int
    };
    if !has_tag(s, 0, "CONNECTED"@) && !has_tag(s, 0, "DISCONNECTED"@) {
        None
    } else {
        match line_end(s, start) {
            None => None,
            Some(end) => {
                let body = s.subrange(start, end);
                match last_tag(body, " "@) {
                    None => None,
                    Some(blank) => if blank == 0 || body[0] != ' ' || body.len() - blank < 3 {
                        None
                    } else {
                        Some(
                            (
                                LogKindView::Connect {
                                    player: PlayerView {
                                        name: body.subrange(1, blank),
                                        id: PlayerIdView::parse(
                                            body.subrange(blank + 2, body.len() - 1),
                                        ),
                                    },
                                    has_connected: has_tag(s, 0, "CONNECTED"@),
                                },
                                end,
                            ),
                        )
                    },
                }
            },
        }
    }
}

/// The kill reported in `body`, the text of a line behind `KILL: ` or `TEAM
/// KILL: `: `<killer>(<faction>/<id>) -> <victim>(<faction>/<id>) with
/// <weapon>`.  The weapon starts behind the last ` with `.
pub open spec fn kill_of(body: Seq<char>, is_teamkill: bool) -> Option<LogKindView> {
    match last_tag(body, " with "@) {
        None => None,
        Some(with) => {
            let left = body.take(with);
            let weapon = body.skip(with + " with "@.len());
            match taken_faction_and_player(left) {
                None => None,
                Some(((killer_faction, killer), n)) => if !has_tag(left, n, " -> "@) {
                    None
                } else {
                    match taken_faction_and_player(left.skip(n + " -> "@.len())) {
                        None => None,
                        Some(((victim_faction, victim), _)) => Some(
                            LogKindView::Kill {
                                killer,
                                killer_faction,
                                victim,
                                victim_faction,
                                is_teamkill,
                                weapon,
                            },
                        ),
                    }
                },
            }
        },
    }
}

/// The kill reported at the head of `s`, and the position of the end of the line.
pub open spec fn taken_kill(s: Seq<char>) -> Option<(LogKindView, int)> {
    let start: int = if has_tag(s, 0, "KILL: "@) {
        "KILL: "@.len() as int
    } else {
        "TEAM KILL: "@.len() as int
    };
    if !has_tag(s, 0, "KILL: "@) && !has_tag(s, 0, "TEAM KILL: "@) {
        None
    } else {
        match line_end(s, start) {
            None => None,
            Some(end) => match kill_of(s.subrange(start, end), !has_tag(s, 0, "KILL: "@)) {
                None => None,
                Some(kind) => Some((kind, end)),
            },
        }
    }
}

/// The chat message reported by `CHAT[<reach>][<name>(<team>/<id>)]:
/// <content>` at the head of `s`, and the position of the end of the line.
pub open spec fn taken_chat(s: Seq<char>) -> Option<(LogKindView, int)> {
    let chat = "CHAT"@.len() as int;
    if !has_tag(s, 0, "CHAT"@) || !has_tag(s, chat, "["@) {
        None
    } else {
        let close: int = chat + 1 + run_until(s.skip(chat + 1), ']');
        if close == chat + 1 || close >= s.len() || !has_tag(s, close + 1, "["@) {
            None
        } else {
            match taken_faction_and_player(s.skip(close + 2)) {
                None => None,
                Some(((team, sender), n)) => {
                    let colon = close + 2 + n;
                    if !has_tag(s, colon, "]: "@) {
                        None
                    } else {
                        match line_end(s, colon + "]: "@.len()) {
                            None => None,
                            Some(end) => Some(
                                (
                                    LogKindView::Chat {
                                        sender,
                                        team,
                                        reach: s.subrange(chat + 1, close),
                                        content: s.subrange(colon + "]: "@.len(), end),
                                    },
                                    end,
                                ),
                            ),
                        }
                    }
                },
            }
        }
    }
}

/// The end of a match reported in `text`: the map between backticks and the
/// two scores in brackets, as the pattern finds them.
pub open spec fn match_ended_of(text: Seq<char>) -> Option<LogKindView> {
    match regex_captures(match_ended_pattern(), text) {
        None => None,
        Some(groups) => if groups.len() != 4 {
            None
        } else {
            match (groups[1], groups[2], groups[3]) {
                (Some(map), Some(allied), Some(axis)) => match (
                    parsed_u64(allied),
                    parsed_u64(axis),
                ) {
                    (Ok(allied_score), Ok(axis_score)) => Some(
                        LogKindView::MatchEnded { map, allied_score, axis_score },
                    ),
                    _ => None,
                },
                _ => None,
            }
        },
    }
}

/// The start or end of a match reported by `MATCH START <map>` or `MATCH
/// ENDED ...` at the head of `s`, and the position of the end of the line.
pub open spec fn taken_match(s: Seq<char>) -> Option<(LogKindView, int)> {
    let start = "MATCH START"@.len() as int;
    if !has_tag(s, 0, "MATCH START"@) && !has_tag(s, 0, "MATCH ENDED"@) {
        None
    } else {
        match line_end(s, start) {
            None => None,
            Some(end) => if has_tag(s, 0, "MATCH START"@) {
                let info = s.subrange(start, end);
                Some((LogKindView::MatchStart { map: info.skip(space_run(info) as int) }, end))
            } else {
                match match_ended_of(s.skip(start)) {
                    None => None,
                    Some(kind) => Some((kind, end)),
                }
            },
        }
    }
}

/// What the line at the head of `s` reports, and the position of the end of the line.
pub open spec fn taken_kind(s: Seq<char>) -> Option<(LogKindView, int)> {
    if taken_connect(s) is Some {
        taken_connect(s)
    } else if taken_kill(s) is Some {
        taken_kill(s)
    } else if taken_chat(s) is Some {
        taken_chat(s)
    } else {
        taken_match(s)
    }
}

/// The position behind the line at the head of `s.skip(from)`, if the line ends.
pub open spec fn line_skipped(s: Seq<char>, from: int) -> Option<(Option<LogLineView>, int)> {
    match line_end(s, from) {
        None => None,
        Some(end) => Some((None, end + 1)),
    }
}

/// One step through a log: the line at the head of `s`, if it can be read,
/// and the position behind it.  A line that cannot be read is passed over.
/// There is no step where the line at the head of `s` does not end.
pub open spec fn taken_logline(s: Seq<char>) -> Option<(Option<LogLineView>, int)> {
    match taken_prelude(s) {
        None => line_skipped(s, 0),
        Some((timestamp, start)) => match taken_kind(s.skip(start)) {
            None => line_skipped(s, start),
            Some((kind, n)) => if has_tag(s, start + n, "\n"@) {
                Some((Some(LogLineView { timestamp, kind }), start + n + 1))
            } else {
                None
            },
        },
    }
}

/// The line that a message of the admin log holds, if it can be read.
pub open spec fn logline_of(message: Seq<char>) -> Option<LogLineView> {
    match taken_logline(message) {
        Some((Some(line), _)) => Some(line),
        _ => None,
    }
}

/// The lines of a log that can be read, in order, up to the first line that does not end.
pub open spec fn loglines_of(s: Seq<char>) -> Seq<LogLineView>
    decreases s.len(),
{
    match taken_logline(s) {
        Some((line, next)) => if 0 < next <= s.len() {
            let rest = loglines_of(s.skip(next));
            match line {
                Some(l) => seq![l] + rest,
                None => rest,
            }
        } else {
            seq![]
        },
        None => seq![],
    }
}

/// The position of the end of the line that starts at `from`.
fn find_line_end(input: &[char], from: usize) -> (r: Option<usize>)
    requires
        from <= input@.len(),
    ensures
        match r {
            Some(end) => line_end(input@, from as int) == Some(end as int) && from <= end
                < input@.len() && end < usize::MAX,
            None => line_end(input@, from as int) is None,
        },
{
    let end = skip_until(input, from, '\n');
    if end < input.len() {
        Some(end)
    } else {
        None
    }
}

/// The number of spaces at the head of `input`.
fn skip_spaces(input: &[char]) -> (n: usize)
    ensures
        n == space_run(input@),
        n <= input@.len(),
{
    let mut i: usize = 0;
    assert(input@.skip(0) =~= input@);
    while i < input.len() && (input[i] == ' ' || input[i] == '\t' || input[i] == '\r' || input[i]
        == '\n')
        invariant
            i <= input@.len(),
            space_run(input@) == i + space_run(input@.skip(i as int)),
        decreases input@.len() - i,
    {
        assert(input@.skip(i as int).drop_first() =~= input@.skip(i + 1));
        i += 1;
    }
    i
}

/// Reads the prelude of a log line.
fn take_prelude(input: &[char]) -> (r: Option<(u64, usize)>)
    ensures
        match r {
            Some((timestamp, next)) => taken_prelude(input@) == Some((timestamp, next as int))
                && next <= input@.len(),
            None => taken_prelude(input@) is None,
        },
{
    if !(input.len() > 0 && input[0] == '[') {
        return None;
    }
    let open = skip_until(input, 1, '(');
    if open >= input.len() {
        return None;
    }
    let (timestamp, close) = match take_u64(input, open + 1) {
        Some(found) => found,
        None => {
            return None;
        },
    };
    if !(close < input.len() && input[close] == ')') {
        return None;
    }
    match take_tag(input, close + 1, "] ") {
        Some(next) => {
            proof {
                reveal_strlit("] ");
            }
            Some((timestamp, next))
        },
        None => None,
    }
}

/// Reads `(<faction>/<id>)`.
fn take_faction_and_id(input: &[char]) -> (r: Option<((String, PlayerId), usize)>)
    ensures
        match r {
            Some(((faction, id), next)) => taken_faction_and_id(input@) == Some(
                ((faction@, id@), next as int),
            ) && next <= input@.len(),
            None => taken_faction_and_id(input@) is None,
        },
{
    if !(input.len() > 0 && input[0] == '(') {
        return None;
    }
    let slash = skip_until(input, 1, '/');
    if slash == 1 || slash >= input.len() {
        return None;
    }
    let close = skip_until(input, slash + 1, ')');
    if close >= input.len() {
        return None;
    }
    if utf8_len(input, slash + 1, close) < 17 {
        return None;
    }
    let id_text = from_chars(input, slash + 1, close);
    let id = PlayerId::parse(id_text.as_str());
    Some(((from_chars(input, 1, slash), id), close + 1))
}

/// Reads `<name>(<faction>/<id>)`.
fn take_faction_and_player(input: &[char]) -> (r: Option<((String, Player), usize)>)
    ensures
        match r {
            Some(((faction, player), next)) => taken_faction_and_player(input@) == Some(
                ((faction@, player@), next as int),
            ) && next <= input@.len(),
            None => taken_faction_and_player(input@) is None,
        },
{
    if input.len() < 27 {
        return None;
    }
    let mut end: usize = 0;
    while end < 20
        invariant
            end <= 20,
            input@.len() >= 27,
            name_length(input@, 0) == name_length(input@, end as int),
        decreases 20 - end,
    {
        let rest = slice_subrange(input, end, input.len());
        match take_faction_and_id(rest) {
            Some(((faction, id), n)) => {
                let name = from_chars(input, 0, end);
                return Some(((faction, Player::new(name, id)), end + n));
            },
            None => {},
        }
        end += 1;
    }
    None
}

/// Reads a connect or disconnect line.
fn take_connect(input: &[char]) -> (r: Option<(LogKind, usize)>)
    ensures
        match r {
            Some((kind, end)) => taken_connect(input@) == Some((kind@, end as int)) && end
                < input@.len(),
            None => taken_connect(input@) is None,
        },
{
    let (start, has_connected) = match take_tag(input, 0, "CONNECTED") {
        Some(next) => (next, true),
        None => match take_tag(input, 0, "DISCONNECTED") {
            Some(next) => (next, false),
            None => {
                return None;
            },
        },
    };
    let end = match find_line_end(input, start) {
        Some(end) => end,
        None => {
            return None;
        },
    };
    let body = slice_subrange(input, start, end);
    let blank = match rfind_tag(body, " ") {
        Some(blank) => blank,
        None => {
            return None;
        },
    };
    if blank == 0 || body[0] != ' ' || body.len() - blank < 3 {
        return None;
    }
    let name = from_chars(body, 1, blank);
    let id_text = from_chars(body, blank + 2, body.len() - 1);
    let id = PlayerId::parse(id_text.as_str());
    Some((LogKind::Connect { player: Player::new(name, id), has_connected }, end))
}

/// Reads the part of a kill line behind its tag.
fn kill_from(body: &[char], is_teamkill: bool) -> (r: Option<LogKind>)
    ensures
        match r {
            Some(kind) => kill_of(body@, is_teamkill) == Some(kind@),
            None => kill_of(body@, is_teamkill) is None,
        },
{
    let with = match rfind_tag(body, " with ") {
        Some(with) => with,
        None => {
            return None;
        },
    };
    proof {
        reveal_strlit(" with ");
        reveal_strlit(" -> ");
    }
    let total = body.len();
    let left = slice_subrange(body, 0, with);
    let weapon = from_chars(body, with + 6, total);
    let ((killer_faction, killer), n) = match take_faction_and_player(left) {
        Some(found) => found,
        None => {
            return None;
        },
    };
    let victim_from = match take_tag(left, n, " -> ") {
        Some(next) => next,
        None => {
            return None;
        },
    };
    let rest = slice_subrange(left, victim_from, left.len());
    let ((victim_faction, victim), _) = match take_faction_and_player(rest) {
        Some(found) => found,
        None => {
            return None;
        },
    };
    Some(LogKind::Kill { killer, killer_faction, victim, victim_faction, is_teamkill, weapon })
}

/// Reads a kill or team kill line.
fn take_kill(input: &[char]) -> (r: Option<(LogKind, usize)>)
    ensures
        match r {
            Some((kind, end)) => taken_kill(input@) == Some((kind@, end as int)) && end
                < input@.len(),
            None => taken_kill(input@) is None,
        },
{
    let (start, is_teamkill) = match take_tag(input, 0, "KILL: ") {
        Some(next) => (next, false),
        None => match take_tag(input, 0, "TEAM KILL: ") {
            Some(next) => (next, true),
            None => {
                return None;
            },
        },
    };
    let end = match find_line_end(input, start) {
        Some(end) => end,
        None => {
            return None;
        },
    };
    let body = slice_subrange(input, start, end);
    match kill_from(body, is_teamkill) {
        Some(kind) => Some((kind, end)),
        None => None,
    }
}

/// Reads a chat line.
fn take_chat(input: &[char]) -> (r: Option<(LogKind, usize)>)
    ensures
        match r {
            Some((kind, end)) => taken_chat(input@) == Some((kind@, end as int)) && end
                < input@.len(),
            None => taken_chat(input@) is None,
        },
{
    proof {
        reveal_strlit("CHAT");
        reveal_strlit("[");
        reveal_strlit("]: ");
    }
    let chat = match take_tag(input, 0, "CHAT") {
        Some(next) => next,
        None => {
            return None;
        },
    };
    let reach_from = match take_tag(input, chat, "[") {
        Some(next) => next,
        None => {
            return None;
        },
    };
    let close = skip_until(input, reach_from, ']');
    if close == reach_from || close >= input.len() {
        return None;
    }
    let sender_from = match take_tag(input, close + 1, "[") {
        Some(next) => next,
        None => {
            return None;
        },
    };
    let rest = slice_subrange(input, sender_from, input.len());
    let ((team, sender), n) = match take_faction_and_player(rest) {
        Some(found) => found,
        None => {
            return None;
        },
    };
    let content_from = match take_tag(input, sender_from + n, "]: ") {
        Some(next) => next,
        None => {
            return None;
        },
    };
    let end = match find_line_end(input, content_from) {
        Some(end) => end,
        None => {
            return None;
        },
    };
    Some(
        (
            LogKind::Chat {
                sender,
                team,
                reach: from_chars(input, reach_from, close),
                content: from_chars(input, content_from, end),
            },
            end,
        ),
    )
}

/// Reads the map and the scores of a finished match from `text`.
fn take_match_ended(text: &str) -> (r: Option<LogKind>)
    ensures
        match r {
            Some(kind) => match_ended_of(text@) == Some(kind@),
            None => match_ended_of(text@) is None,
        },
{
    let groups = match captures("`([^*]*)`.*\\((\\d+)\\s*-\\s*(\\d+)\\)", text) {
        Some(groups) => groups,
        None => {
            return None;
        },
    };
    if groups.len() != 4 {
        return None;
    }
    match (&groups[1], &groups[2], &groups[3]) {
        (Some(map), Some(allied), Some(axis)) => {
            match (parse_u64(allied.as_str()), parse_u64(axis.as_str())) {
                (Ok(allied_score), Ok(axis_score)) => Some(
                    LogKind::MatchEnded { map: map.clone(), allied_score, axis_score },
                ),
                _ => None,
            }
        },
        _ => None,
    }
}

/// Reads a line that reports the start or the end of a match.
pub fn take_match(input: &[char]) -> (r: Option<(LogKind, usize)>)
    ensures
        match r {
            Some((kind, end)) => taken_match(input@) == Some((kind@, end as int)) && end
                < input@.len(),
            None => taken_match(input@) is None,
        },
{
    proof {
        reveal_strlit("MATCH START");
        reveal_strlit("MATCH ENDED");
    }
    let (start, started) = match take_tag(input, 0, "MATCH START") {
        Some(next) => (next, true),
        None => match take_tag(input, 0, "MATCH ENDED") {
            Some(next) => (next, false),
            None => {
                return None;
            },
        },
    };
    let end = match find_line_end(input, start) {
        Some(end) => end,
        None => {
            return None;
        },
    };
    if started {
        let info = slice_subrange(input, start, end);
        let blanks = skip_spaces(info);
        let map = from_chars(info, blanks, info.len());
        Some((LogKind::MatchStart { map }, end))
    } else {
        let text = from_chars(input, start, input.len());
        match take_match_ended(text.as_str()) {
            Some(kind) => Some((kind, end)),
            None => None,
        }
    }
}

/// Reads what a line reports.
fn take_kind(input: &[char]) -> (r: Option<(LogKind, usize)>)
    ensures
        match r {
            Some((kind, end)) => taken_kind(input@) == Some((kind@, end as int)) && end
                < input@.len(),
            None => taken_kind(input@) is None,
        },
{
    match take_connect(input) {
        Some(found) => {
            return Some(found);
        },
        None => {},
    }
    match take_kill(input) {
        Some(found) => {
            return Some(found);
        },
        None => {},
    }
    match take_chat(input) {
        Some(found) => {
            return Some(found);
        },
        None => {},
    }
    take_match(input)
}

/// Passes over the line that starts at `from`.
fn skip_line(input: &[char], from: usize) -> (r: Option<(Option<LogLine>, usize)>)
    requires
        from <= input@.len(),
    ensures
        match r {
            Some((line, next)) => line is None && line_skipped(input@, from as int) == Some(
                (None::<LogLineView>, next as int),
            ) && from < next <= input@.len(),
            None => line_skipped(input@, from as int) is None,
        },
{
    match find_line_end(input, from) {
        Some(end) => Some((None, end + 1)),
        None => None,
    }
}

/// Makes one step through a log.
fn take_logline(input: &[char]) -> (r: Option<(Option<LogLine>, usize)>)
    ensures
        match r {
            Some((line, next)) => 0 < next <= input@.len() && taken_logline(input@) == Some(
                (
                    match line {
                        Some(l) => Some(l@),
                        None => None,
                    },
                    next as int,
                ),
            ),
            None => taken_logline(input@) is None,
        },
{
    let (timestamp, start) = match take_prelude(input) {
        Some(found) => found,
        None => {
            return skip_line(input, 0);
        },
    };
    let rest = slice_subrange(input, start, input.len());
    let (kind, n) = match take_kind(rest) {
        Some(found) => found,
        None => {
            return skip_line(input, start);
        },
    };
    proof {
        reveal_strlit("\n");
    }
    match take_tag(input, start + n, "\n") {
        Some(next) => Some((Some(LogLine { timestamp, kind }), next)),
        None => None,
    }
}

/// Reads the line that a message of the admin log holds.  A message that
/// cannot be read gives nothing.
pub fn parse_logline(message: &str) -> (line: Option<LogLine>)
    ensures
        match line {
            Some(l) => logline_of(message@) == Some(l@),
            None => logline_of(message@) is None,
        },
{
    let chars = to_chars(message);
    match take_logline(chars.as_slice()) {
        Some((Some(line), _)) => Some(line),
        _ => None,
    }
}

/// Reads the lines of a log.  Lines that cannot be read are passed over,
/// and reading stops at the first line that does not end.  The result is
/// always `Ok`.
pub fn parse_loglines(input: &str) -> (r: Result<Vec<LogLine>, RconError>)
    ensures
        match r {
            Ok(lines) => lines.deep_view() == loglines_of(input@),
            Err(_) => false,
        },
{
    let chars = to_chars(input);
    let mut lines: Vec<LogLine> = Vec::new();
    let mut at: usize = 0;
    let ghost mut done: Seq<LogLineView> = Seq::empty();
    assert(chars@.skip(0) =~= chars@);
    loop
        invariant
            at <= chars@.len(),
            chars@ == input@,
            done == lines.deep_view(),
            loglines_of(input@) == done + loglines_of(chars@.skip(at as int)),
        decreases chars@.len() - at,
    {
        let rest = slice_subrange(chars.as_slice(), at, chars.len());
        match take_logline(rest) {
            Some((line, next)) => {
                let ghost tail = loglines_of(rest@.skip(next as int));
                assert(rest@.skip(next as int) =~= chars@.skip(at + next));
                match line {
                    Some(l) => {
                        lines.push(l);
                        proof {
                            assert(done + (seq![l@] + tail) =~= done.push(l@) + tail);
                            done = done.push(l@);
                        }
                    },
                    None => {
                        assert(loglines_of(rest@) == tail);
                    },
                }
                at = at + next;
            },
            None => {
                assert(done + Seq::<LogLineView>::empty() =~= done);
                return Ok(lines);
            },
        }
    }
}

} // verus!
