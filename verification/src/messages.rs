//! The requests sent to the game server and the responses it gives.

use vstd::prelude::*;
use vstd::string::StrSliceExecFns;
use crate::error::{RconError, RconErrorView};
use crate::json::{json_parse, Json, JsonView, ObjectBuilder};
use crate::parsing::utils::signed_digits;
use crate::text::{owned, str_eq};

verus! {

/// The protocol version written into every request.
pub open spec fn protocol_version() -> Seq<char> {
    "2"@
}

/// Reason reported for a response that is not JSON or lacks a field.
pub open spec fn bad_response_reason() -> Seq<char> {
    "The response is not a JSON object with the expected fields."@
}

/// A request sent to the server.
#[derive(Debug, PartialEq, Eq)]
pub struct RconRequest {
    /// The token that the server handed out at login; empty before.
    pub auth_token: String,
    /// The protocol version.
    pub version: String,
    /// The name of the command.
    pub name: String,
    /// The argument of the command: a plain text or the text of a JSON value.
    pub content_body: String,
}

/// Mathematical model of a [`RconRequest`].
pub struct RconRequestView {
    pub auth_token: Seq<char>,
    pub version: Seq<char>,
    pub name: Seq<char>,
    pub content_body: Seq<char>,
}

impl View for RconRequest {
    type V = RconRequestView;

    open spec fn view(&self) -> RconRequestView {
        RconRequestView {
            auth_token: self.auth_token@,
            version: self.version@,
            name: self.name@,
            content_body: self.content_body@,
        }
    }
}

impl Clone for RconRequest {
    fn clone(&self) -> (copy: Self)
        ensures
            copy@ == self@,
    {
        RconRequest {
            auth_token: self.auth_token.clone(),
            version: self.version.clone(),
            name: self.name.clone(),
            content_body: self.content_body.clone(),
        }
    }
}

impl RconRequestView {
    /// The request as a JSON object: a flat object of four strings.
    pub open spec fn tree(self) -> JsonView {
        JsonView::Object(
            seq![
                ("authToken"@, JsonView::Text(self.auth_token)),
                ("version"@, JsonView::Text(self.version)),
                ("name"@, JsonView::Text(self.name)),
                ("contentBody"@, JsonView::Text(self.content_body)),
            ],
        )
    }

    /// The bytes of the request: its JSON text in UTF-8.
    pub open spec fn bytes(self) -> Seq<u8> {
        vstd::utf8::encode_utf8(self.tree().text())
    }
}

impl RconRequest {
    /// A request for the command `name` with a plain text as argument.
    pub fn new(name: &str, content_body: &str) -> (request: Self)
        ensures
            request@ == (RconRequestView {
                auth_token: Seq::empty(),
                version: protocol_version(),
                name: name@,
                content_body: content_body@,
            }),
    {
        Self {
            auth_token: String::new(),
            name: owned(name),
            content_body: owned(content_body),
            version: owned("2"),
        }
    }

    /// A request for the command `name` with a JSON value as argument.
    pub fn with_body(name: &str, content_body: &Json) -> (request: Self)
        ensures
            request@ == (RconRequestView {
                auth_token: Seq::empty(),
                version: protocol_version(),
                name: name@,
                content_body: content_body@.text(),
            }),
    {
        Self {
            auth_token: String::new(),
            name: owned(name),
            content_body: content_body.render(),
            version: owned("2"),
        }
    }

    /// The body as it may be written into a trace: the body of a login is
    /// the password and is never shown.
    pub fn traced_body(&self) -> (body: Option<&String>)
        ensures
            match body {
                Some(text) => self@.name != "Login"@ && text@ == self@.content_body,
                None => self@.name == "Login"@,
            },
    {
        if str_eq(self.name.as_str(), "Login") {
            None
        } else {
            Some(&self.content_body)
        }
    }

    /// The request as a JSON object.
    pub fn to_json(&self) -> (tree: Json)
        ensures
            tree@ == self@.tree(),
    {
        let mut object = ObjectBuilder::new();
        object.text("authToken", &self.auth_token);
        object.text("version", &self.version);
        object.text("name", &self.name);
        object.text("contentBody", &self.content_body);
        assert(object@ =~= self@.tree()->Object_0);
        object.finish()
    }

    /// The bytes of the request as they are framed and sent.
    pub fn serialize(&self) -> (bytes: Vec<u8>)
        ensures
            bytes@ == self@.bytes(),
    {
        let text = self.to_json().render();
        text.as_str().as_bytes_vec()
    }
}

/// A response received from the server.
#[derive(Debug, PartialEq, Eq)]
pub struct RconResponse {
    /// 200 for success; any other value is a failure.
    pub status_code: i32,
    pub status_message: String,
    pub version: i32,
    /// The name of the command that is answered.
    pub name: String,
    /// The result of the command.
    pub content_body: String,
}

/// Mathematical model of a [`RconResponse`].
pub struct RconResponseView {
    pub status_code: i32,
    pub status_message: Seq<char>,
    pub version: i32,
    pub name: Seq<char>,
    pub content_body: Seq<char>,
}

impl View for RconResponse {
    type V = RconResponseView;

    open spec fn view(&self) -> RconResponseView {
        RconResponseView {
            status_code: self.status_code,
            status_message: self.status_message@,
            version: self.version,
            name: self.name@,
            content_body: self.content_body@,
        }
    }
}

impl Clone for RconResponse {
    fn clone(&self) -> (copy: Self)
        ensures
            copy@ == self@,
    {
        RconResponse {
            status_code: self.status_code,
            status_message: self.status_message.clone(),
            version: self.version,
            name: self.name.clone(),
            content_body: self.content_body.clone(),
        }
    }
}

/// The status code that denotes success.
pub const STATUS_OK: i32 = 200;

impl RconResponseView {
    /// Whether the server reported success.
    pub open spec fn is_ok(self) -> bool {
        self.status_code == STATUS_OK
    }

    /// The response that a JSON value holds: an object in which
    /// `statusCode` and `version` are integers and `statusMessage`, `name`
    /// and `contentBody` are strings.  Other members are ignored.
    pub open spec fn of_tree(tree: JsonView) -> Option<RconResponseView> {
        match (
            tree.member("statusCode"@),
            tree.member("statusMessage"@),
            tree.member("version"@),
            tree.member("name"@),
            tree.member("contentBody"@),
        ) {
            (Some(code), Some(message), Some(version), Some(name), Some(body)) => match (
                code.as_i32(),
                message.as_text(),
                version.as_i32(),
                name.as_text(),
                body.as_text(),
            ) {
                (
                    Some(status_code),
                    Some(status_message),
                    Some(version),
                    Some(name),
                    Some(content_body),
                ) => Some(
                    RconResponseView { status_code, status_message, version, name, content_body },
                ),
                _ => None,
            },
            _ => None,
        }
    }

    /// The response that a text holds.
    pub open spec fn of_text(text: Seq<char>) -> Option<RconResponseView> {
        match json_parse(text) {
            Some(tree) => RconResponseView::of_tree(tree),
            None => None,
        }
    }

    /// The response as a JSON object.
    pub open spec fn tree(self) -> JsonView {
        JsonView::Object(
            seq![
                ("statusCode"@, JsonView::Number(signed_digits(self.status_code as int))),
                ("statusMessage"@, JsonView::Text(self.status_message)),
                ("version"@, JsonView::Number(signed_digits(self.version as int))),
                ("name"@, JsonView::Text(self.name)),
                ("contentBody"@, JsonView::Text(self.content_body)),
            ],
        )
    }
}

impl RconResponse {
    /// `Ok` where the status code is 200, otherwise the given error.
    pub fn assert_ok<T>(&self, err: T) -> (r: Result<(), T>)
        ensures
            self@.is_ok() ==> r is Ok,
            !self@.is_ok() ==> r == Err::<(), T>(err),
    {
        match self.status_code {
            200 => Ok(()),
            _ => Err(err),
        }
    }

    /// Reads a response from a JSON value.
    pub fn from_json(tree: &Json) -> (response: Option<Self>)
        ensures
            match response {
                Some(r) => RconResponseView::of_tree(tree@) == Some(r@),
                None => RconResponseView::of_tree(tree@) is None,
            },
    {
        let code = tree.get("statusCode");
        let message = tree.get("statusMessage");
        let version = tree.get("version");
        let name = tree.get("name");
        let body = tree.get("contentBody");
        match (code, message, version, name, body) {
            (Some(code), Some(message), Some(version), Some(name), Some(body)) => {
                match (
                    code.as_i32(),
                    message.as_str(),
                    version.as_i32(),
                    name.as_str(),
                    body.as_str(),
                ) {
                    (
                        Some(status_code),
                        Some(status_message),
                        Some(version),
                        Some(name),
                        Some(content_body),
                    ) => Some(
                        RconResponse {
                            status_code,
                            status_message: status_message.clone(),
                            version,
                            name: name.clone(),
                            content_body: content_body.clone(),
                        },
                    ),
                    _ => None,
                }
            },
            _ => None,
        }
    }

    /// Reads a response from its JSON text.
    ///
    /// Fails with `InvalidData` exactly when the text is not JSON or not a response.
    pub fn parse(text: &str) -> (r: Result<Self, RconError>)
        ensures
            match r {
                Ok(response) => RconResponseView::of_text(text@) == Some(response@),
                Err(e) => RconResponseView::of_text(text@) is None && e@
                    == RconErrorView::InvalidData(bad_response_reason()),
            },
    {
        let tree = match Json::parse(text) {
            Some(tree) => tree,
            None => {
                return Err(
                    RconError::InvalidData(
                        "The response is not a JSON object with the expected fields.",
                    ),
                );
            },
        };
        match RconResponse::from_json(&tree) {
            Some(response) => Ok(response),
            None => Err(
                RconError::InvalidData(
                    "The response is not a JSON object with the expected fields.",
                ),
            ),
        }
    }
}

} // verus!
