//! Reading the messages that clients send.

use vstd::prelude::*;
use crate::exporting::messages::{
    ClientWsMessage,
    ClientWsMessageView,
    ClientWsRequest,
    ClientWsRequestView,
    CommandRequestKind,
    CommandRequestKindView,
};
use crate::exporting::wire::{is_empty_array, text_pair, text_pair_of, variant, variant_of};
use crate::json::{json_parse, Json, JsonView};
use crate::text::str_eq;

verus! {

impl CommandRequestKindView {
    /// The raw command that an object holds: the string `name` and, if
    /// there is one, the string `content_body`, which is empty otherwise.
    pub open spec fn raw_of(content: JsonView) -> Option<CommandRequestKindView> {
        match content.text_of("name"@) {
            None => None,
            Some(name) => match content.member("content_body"@) {
                None => if content is Object {
                    Some(CommandRequestKindView::Raw { name, content_body: Seq::empty() })
                } else {
                    None
                },
                Some(body) => match body.as_text() {
                    Some(content_body) => Some(CommandRequestKindView::Raw { name, content_body }),
                    None => None,
                },
            },
        }
    }

    /// The command that a JSON value holds.
    pub open spec fn of_tree(tree: JsonView) -> Option<CommandRequestKindView> {
        match variant_of(tree) {
            None => None,
            Some((tag, content)) => if tag == "Raw"@ {
                CommandRequestKindView::raw_of(content)
            } else if tag == "GetPlayers"@ {
                if content is Null {
                    Some(CommandRequestKindView::GetPlayers)
                } else {
                    None
                }
            } else if tag == "GetGameState"@ {
                if content is Null {
                    Some(CommandRequestKindView::GetGameState)
                } else {
                    None
                }
            } else if tag == "GetPlayer"@ {
                match content.as_text() {
                    Some(id) => Some(CommandRequestKindView::GetPlayer(id)),
                    None => None,
                }
            } else if tag == "Broadcast"@ {
                match content.as_text() {
                    Some(message) => Some(CommandRequestKindView::Broadcast(message)),
                    None => None,
                }
            } else if tag == "MessagePlayer"@ {
                match text_pair(content) {
                    Some((id, message)) => Some(CommandRequestKindView::MessagePlayer(id, message)),
                    None => None,
                }
            } else if tag == "PunishPlayer"@ {
                match text_pair(content) {
                    Some((id, reason)) => Some(CommandRequestKindView::PunishPlayer(id, reason)),
                    None => None,
                }
            } else if tag == "KickPlayer"@ {
                match text_pair(content) {
                    Some((id, reason)) => Some(CommandRequestKindView::KickPlayer(id, reason)),
                    None => None,
                }
            } else if tag == "TemporaryBan"@ {
                if is_empty_array(content) {
                    Some(CommandRequestKindView::TemporaryBan())
                } else {
                    None
                }
            } else if tag == "RemoveTemporaryBan"@ {
                if is_empty_array(content) {
                    Some(CommandRequestKindView::RemoveTemporaryBan())
                } else {
                    None
                }
            } else {
                None
            },
        }
    }
}

impl ClientWsRequestView {
    /// The request that a JSON value holds.
    pub open spec fn of_tree(tree: JsonView) -> Option<ClientWsRequestView> {
        match variant_of(tree) {
            Some((tag, content)) => if tag == "Execute"@ {
                match CommandRequestKindView::of_tree(content) {
                    Some(kind) => Some(ClientWsRequestView::Execute(kind)),
                    None => None,
                }
            } else {
                None
            },
            None => None,
        }
    }
}

impl ClientWsMessageView {
    /// The id that the member `id` of a request holds: none where the
    /// member is missing or `null`.  `None` where it is anything but a string.
    pub open spec fn id_of(content: JsonView) -> Option<Option<Seq<char>>> {
        match content.member("id"@) {
            None => Some(None),
            Some(JsonView::Null) => Some(None),
            Some(JsonView::Text(id)) => Some(Some(id)),
            Some(_) => None,
        }
    }

    /// The message that a JSON value holds.
    pub open spec fn of_tree(tree: JsonView) -> Option<ClientWsMessageView> {
        match variant_of(tree) {
            Some((tag, content)) => if tag == "Request"@ {
                match (ClientWsMessageView::id_of(content), content.member("value"@)) {
                    (Some(id), Some(value)) => match ClientWsRequestView::of_tree(value) {
                        Some(value) => Some(ClientWsMessageView::Request { id, value }),
                        None => None,
                    },
                    _ => None,
                }
            } else {
                None
            },
            None => None,
        }
    }

    /// The message that the text of a frame holds.
    pub open spec fn of_text(text: Seq<char>) -> Option<ClientWsMessageView> {
        match json_parse(text) {
            Some(tree) => ClientWsMessageView::of_tree(tree),
            None => None,
        }
    }
}

/// Reads a raw command from the content of its variant.
fn raw_from(content: &Json) -> (r: Option<CommandRequestKind>)
    ensures
        match r {
            Some(kind) => CommandRequestKindView::raw_of(content@) == Some(kind@),
            None => CommandRequestKindView::raw_of(content@) is None,
        },
{
    let name = match content.text_of("name") {
        Some(name) => name,
        None => {
            return None;
        },
    };
    match content.get("content_body") {
        None => Some(CommandRequestKind::Raw { name, content_body: String::new() }),
        Some(body) => match body.as_str() {
            Some(content_body) => Some(
                CommandRequestKind::Raw { name, content_body: content_body.clone() },
            ),
            None => None,
        },
    }
}

impl CommandRequestKind {
    /// Reads a command from a JSON value.
    pub fn from_json(tree: &Json) -> (r: Option<Self>)
        ensures
            match r {
                Some(kind) => CommandRequestKindView::of_tree(tree@) == Some(kind@),
                None => CommandRequestKindView::of_tree(tree@) is None,
            },
    {
        let (tag, content) = match variant(tree) {
            Some(found) => found,
            None => {
                return None;
            },
        };
        let tag = tag.as_str();
        if str_eq(tag, "Raw") {
            match content {
                Some(content) => raw_from(content),
                None => None,
            }
        } else if str_eq(tag, "GetPlayers") {
            match content {
                None => Some(CommandRequestKind::GetPlayers),
                Some(Json::Null) => Some(CommandRequestKind::GetPlayers),
                Some(_) => None,
            }
        } else if str_eq(tag, "GetGameState") {
            match content {
                None => Some(CommandRequestKind::GetGameState),
                Some(Json::Null) => Some(CommandRequestKind::GetGameState),
                Some(_) => None,
            }
        } else if str_eq(tag, "GetPlayer") {
            match content {
                Some(Json::Text(id)) => Some(CommandRequestKind::GetPlayer(id.clone())),
                _ => None,
            }
        } else if str_eq(tag, "Broadcast") {
            match content {
                Some(Json::Text(message)) => Some(CommandRequestKind::Broadcast(message.clone())),
                _ => None,
            }
        } else if str_eq(tag, "MessagePlayer") {
            match content {
                Some(content) => match text_pair_of(content) {
                    Some((id, message)) => Some(CommandRequestKind::MessagePlayer(id, message)),
                    None => None,
                },
                None => None,
            }
        } else if str_eq(tag, "PunishPlayer") {
            match content {
                Some(content) => match text_pair_of(content) {
                    Some((id, reason)) => Some(CommandRequestKind::PunishPlayer(id, reason)),
                    None => None,
                },
                None => None,
            }
        } else if str_eq(tag, "KickPlayer") {
            match content {
                Some(content) => match text_pair_of(content) {
                    Some((id, reason)) => Some(CommandRequestKind::KickPlayer(id, reason)),
                    None => None,
                },
                None => None,
            }
        } else if str_eq(tag, "TemporaryBan") {
            match content {
                Some(Json::Array(items)) => if items.len() == 0 {
                    Some(CommandRequestKind::TemporaryBan())
                } else {
                    None
                },
                _ => None,
            }
        } else if str_eq(tag, "RemoveTemporaryBan") {
            match content {
                Some(Json::Array(items)) => if items.len() == 0 {
                    Some(CommandRequestKind::RemoveTemporaryBan())
                } else {
                    None
                },
                _ => None,
            }
        } else {
            None
        }
    }
}

impl ClientWsRequest {
    /// Reads a request from a JSON value.
    pub fn from_json(tree: &Json) -> (r: Option<Self>)
        ensures
            match r {
                Some(request) => ClientWsRequestView::of_tree(tree@) == Some(request@),
                None => ClientWsRequestView::of_tree(tree@) is None,
            },
    {
        let (tag, content) = match variant(tree) {
            Some(found) => found,
            None => {
                return None;
            },
        };
        if !str_eq(tag.as_str(), "Execute") {
            return None;
        }
        let kind = match content {
            Some(content) => CommandRequestKind::from_json(content),
            None => {
                let null = Json::Null;
                CommandRequestKind::from_json(&null)
            },
        };
        match kind {
            Some(kind) => Some(ClientWsRequest::Execute(kind)),
            None => None,
        }
    }
}

impl ClientWsMessage {
    /// Reads a message from a JSON value.
    pub fn from_json(tree: &Json) -> (r: Option<Self>)
        ensures
            match r {
                Some(message) => ClientWsMessageView::of_tree(tree@) == Some(message@),
                None => ClientWsMessageView::of_tree(tree@) is None,
            },
    {
        let (tag, content) = match variant(tree) {
            Some(found) => found,
            None => {
                return None;
            },
        };
        if !str_eq(tag.as_str(), "Request") {
            return None;
        }
        let content = match content {
            Some(content) => content,
            None => {
                return None;
            },
        };
        let id = match content.get("id") {
            None => None,
            Some(Json::Null) => None,
            Some(Json::Text(id)) => Some(id.clone()),
            Some(_) => {
                return None;
            },
        };
        let value = match content.get("value") {
            Some(value) => value,
            None => {
                return None;
            },
        };
        match ClientWsRequest::from_json(value) {
            Some(value) => Some(ClientWsMessage::Request { id, value }),
            None => None,
        }
    }

    /// Reads a message from the text of a frame.
    pub fn parse(text: &str) -> (r: Option<Self>)
        ensures
            match r {
                Some(message) => ClientWsMessageView::of_text(text@) == Some(message@),
                None => ClientWsMessageView::of_text(text@) is None,
            },
    {
        match Json::parse(text) {
            Some(tree) => ClientWsMessage::from_json(&tree),
            None => None,
        }
    }
}

} // verus!
