//! Access tokens and what they allow.

use vstd::prelude::*;
use crate::clock::instant_now;
use crate::config::{AuthPerms, AuthTokenView, FileConfig};
use crate::exporting::messages::{ServerWsMessage, ServerWsMessageView};
use crate::text::{owned, str_eq};

verus! {

/// What a connection is allowed to do, as granted by the token it presented.
#[derive(Debug)]
pub struct AuthHandle {
    /// When the handle was granted.
    pub granted_at: std::time::Instant,
    /// The name of the token.
    pub name: String,
    pub perms: AuthPerms,
}

/// Mathematical model of an [`AuthHandle`]: its name and permissions.
pub struct AuthHandleView {
    pub name: Seq<char>,
    pub perms: AuthPerms,
}

impl View for AuthHandle {
    type V = AuthHandleView;

    open spec fn view(&self) -> AuthHandleView {
        AuthHandleView { name: self.name@, perms: self.perms }
    }
}

/// The name of the handle that a connection has before it presented a token.
pub open spec fn default_token_name() -> Seq<char> {
    "default-token"@
}

/// The first token of `tokens` whose value is `provided`.
pub open spec fn matching_token(tokens: Seq<AuthTokenView>, provided: Seq<char>) -> Option<
    AuthTokenView,
>
    decreases tokens.len(),
{
    if tokens.len() == 0 {
        None
    } else if tokens[0].value == provided {
        Some(tokens[0])
    } else {
        matching_token(tokens.drop_first(), provided)
    }
}

/// A token matches exactly when its value is among the configured ones,
/// letter for letter.
pub proof fn lemma_matching_token(tokens: Seq<AuthTokenView>, provided: Seq<char>)
    ensures
        matching_token(tokens, provided) is Some <==> exists|i: int|
            0 <= i < tokens.len() && (#[trigger] tokens[i]).value == provided,
        matching_token(tokens, provided) is Some ==> tokens.contains(
            matching_token(tokens, provided).unwrap(),
        ) && matching_token(tokens, provided).unwrap().value == provided,
    decreases tokens.len(),
{
    if tokens.len() > 0 {
        let rest = tokens.drop_first();
        lemma_matching_token(rest, provided);
        if tokens[0].value != provided {
            if exists|i: int| 0 <= i < tokens.len() && (#[trigger] tokens[i]).value == provided {
                let i = choose|i: int|
                    0 <= i < tokens.len() && (#[trigger] tokens[i]).value == provided;
                assert(rest[i - 1].value == provided);
            }
        }
    }
}

impl AuthHandle {
    /// The handle of a connection that has not presented a token: it allows nothing.
    pub fn default_no_perms() -> (handle: Self)
        ensures
            handle@ == (AuthHandleView {
                name: default_token_name(),
                perms: AuthPerms { read_rcon_events: false, write_rcon: false },
            }),
    {
        AuthHandle {
            granted_at: instant_now(),
            name: owned("default-token"),
            perms: AuthPerms { read_rcon_events: false, write_rcon: false },
        }
    }

    /// Whether the holder is sent `message`: events of the game server only
    /// with the permission to read them, everything else always.
    pub fn may_receive(&self, message: &ServerWsMessage) -> (b: bool)
        ensures
            b == may_receive(self@.perms, message@),
    {
        match message {
            ServerWsMessage::Rcon(_) => self.perms.read_rcon_events,
            _ => true,
        }
    }

    /// Whether the holder may run commands on the game server.
    pub fn may_execute(&self) -> (b: bool)
        ensures
            b == self@.perms.write_rcon,
    {
        self.perms.write_rcon
    }
}

/// Whether a holder of `perms` is sent `message`.
pub open spec fn may_receive(perms: AuthPerms, message: ServerWsMessageView) -> bool {
    message is Rcon ==> perms.read_rcon_events
}

/// Looks up the token that a client presented.
///
/// Succeeds exactly when a configured token has that value; the handle then
/// carries the name and the permissions of the first such token.
pub fn authenticate_token(provided_token: &str, config: &FileConfig) -> (r: Result<AuthHandle, ()>)
    ensures
        match r {
            Ok(handle) => match matching_token(config.auth.tokens.deep_view(), provided_token@) {
                Some(token) => handle@ == (AuthHandleView { name: token.name, perms: token.perms }),
                None => false,
            },
            Err(_) => matching_token(config.auth.tokens.deep_view(), provided_token@) is None,
        },
{
    let tokens = &config.auth.tokens;
    let ghost all = tokens.deep_view();
    let mut i: usize = 0;
    assert(all.skip(0) =~= all);
    while i < tokens.len()
        invariant
            i <= tokens@.len(),
            all == tokens.deep_view(),
            all == config.auth.tokens.deep_view(),
            matching_token(all, provided_token@) == matching_token(
                all.skip(i as int),
                provided_token@,
            ),
        decreases tokens@.len() - i,
    {
        let token = &tokens[i];
        proof {
            assert(all.skip(i as int).drop_first() =~= all.skip(i + 1));
        }
        if str_eq(token.value.as_str(), provided_token) {
            return Ok(
                AuthHandle {
                    granted_at: instant_now(),
                    name: token.name.clone(),
                    perms: token.perms,
                },
            );
        }
        i += 1;
    }
    Err(())
}

} // verus!
