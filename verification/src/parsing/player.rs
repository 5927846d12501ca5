//! Who a player is.

use vstd::prelude::*;
use crate::parsing::utils::{format_u64, decimal_digits, parse_u64, parsed_u64};
use crate::text::owned;

verus! {

/// The identifier under which the platform knows a player.
#[derive(Debug, PartialEq, Eq, Hash)]
pub enum PlayerId {
    /// A Steam id, which is a number.
    Steam(u64),
    /// An id of the Windows store, kept as it was written.
    Windows(String),
}

/// Mathematical model of a [`PlayerId`].
pub enum PlayerIdView {
    Steam(u64),
    Windows(Seq<char>),
}

impl View for PlayerId {
    type V = PlayerIdView;

    open spec fn view(&self) -> PlayerIdView {
        match self {
            PlayerId::Steam(id) => PlayerIdView::Steam(*id),
            PlayerId::Windows(id) => PlayerIdView::Windows(id@),
        }
    }
}

impl DeepView for PlayerId {
    type V = PlayerIdView;

    open spec fn deep_view(&self) -> PlayerIdView {
        self@
    }
}

impl Clone for PlayerId {
    fn clone(&self) -> (copy: Self)
        ensures
            copy@ == self@,
    {
        match self {
            PlayerId::Steam(id) => PlayerId::Steam(*id),
            PlayerId::Windows(id) => PlayerId::Windows(id.clone()),
        }
    }
}

impl PlayerIdView {
    /// The id that `text` denotes: a Steam id where the text is a number
    /// that fits into 64 bits, a Windows id otherwise.
    pub open spec fn parse(text: Seq<char>) -> PlayerIdView {
        match parsed_u64(text) {
            Ok(id) => PlayerIdView::Steam(id),
            Err(_) => PlayerIdView::Windows(text),
        }
    }

    /// The text form of the id.
    pub open spec fn text(self) -> Seq<char> {
        match self {
            PlayerIdView::Steam(id) => decimal_digits(id as nat),
            PlayerIdView::Windows(id) => id,
        }
    }
}

impl PlayerId {
    /// Reads an id: a number is a Steam id, anything else a Windows id.
    pub fn parse(input: &str) -> (id: Self)
        ensures
            id@ == PlayerIdView::parse(input@),
    {
        match parse_u64(input) {
            Ok(steam_id) => PlayerId::Steam(steam_id),
            Err(_) => PlayerId::Windows(owned(input)),
        }
    }

    /// Whether both ids are the same.
    pub fn same(&self, other: &PlayerId) -> (b: bool)
        ensures
            b == (self@ == other@),
    {
        match (self, other) {
            (PlayerId::Steam(a), PlayerId::Steam(b)) => *a == *b,
            (PlayerId::Windows(a), PlayerId::Windows(b)) => *a == *b,
            _ => false,
        }
    }

    /// The text form of the id.
    pub fn to_text(&self) -> (text: String)
        ensures
            text@ == self@.text(),
    {
        match self {
            PlayerId::Steam(id) => format_u64(*id),
            PlayerId::Windows(id) => id.clone(),
        }
    }
}

/// A player's name and id.
#[derive(Debug, PartialEq, Eq, Hash)]
pub struct Player {
    pub name: String,
    pub id: PlayerId,
}

/// Mathematical model of a [`Player`].
pub struct PlayerView {
    pub name: Seq<char>,
    pub id: PlayerIdView,
}

impl View for Player {
    type V = PlayerView;

    open spec fn view(&self) -> PlayerView {
        PlayerView { name: self.name@, id: self.id@ }
    }
}

impl DeepView for Player {
    type V = PlayerView;

    open spec fn deep_view(&self) -> PlayerView {
        self@
    }
}

impl Clone for Player {
    fn clone(&self) -> (copy: Self)
        ensures
            copy@ == self@,
    {
        Player { name: self.name.clone(), id: self.id.clone() }
    }
}

impl Player {
    /// A player with the given name and id.
    pub fn new(name: String, id: PlayerId) -> (player: Self)
        ensures
            player.name == name,
            player.id == id,
    {
        Self { name, id }
    }

    /// Whether both values name the same player.
    pub fn same(&self, other: &Player) -> (b: bool)
        ensures
            b == (self@ == other@),
    {
        self.name == other.name && self.id.same(&other.id)
    }
}

} // verus!
