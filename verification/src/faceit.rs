//! The ranking service: the player record it returns, the requests that ask
//! for one, and how an answer is read.

use crate::text::{decimal_text, decimal_u64, format_u64, parse_u64};
use crate::tiers::valid_tier;
use vstd::prelude::*;
use vstd::string::*;

verus! {

/// Declares `serde_json::Value`, a JSON value. Nothing is known of what is
/// inside one but through [`games_fields`].
#[verifier::external_type_specification]
#[verifier::external_body]
pub struct ExJsonValue(serde_json::Value);

/// Declares `serde_json::Map`, the members of a JSON object. Nothing is
/// known of what is inside one but through [`games_fields`].
#[verifier::external_type_specification]
#[verifier::external_body]
#[verifier::reject_recursive_types(K)]
#[verifier::reject_recursive_types(V)]
pub struct ExJsonMap<K, V>(serde_json::Map<K, V>);

/// What a games object holds, as far as the library reads it: for each game
/// name that is a key of the object, and each field name that is a member of
/// that game's value (itself an object), the field's value written as compact
/// JSON text. A pair is absent where the game is no key, where the game's
/// value is not an object, or where that object has no such member.
pub uninterp spec fn games_fields(games: serde_json::Map<String, serde_json::Value>) -> Map<
    (Seq<char>, Seq<char>),
    Seq<char>,
>;

/// Calls `serde_json::Map::get` with `game`, then `serde_json::Value::get`
/// with `field` on what it found, and renders the member with the `Display`
/// of `serde_json::Value`. The contract claims that the result is the entry
/// of [`games_fields`] for the pair, and is absent exactly when that entry is.
#[verifier::external_body]
fn game_field(games: &serde_json::Map<String, serde_json::Value>, game: &str, field: &str) -> (text:
    Option<String>)
    ensures
        text is Some <==> games_fields(*games).contains_key((game@, field@)),
        text matches Some(t) ==> t@ == games_fields(*games)[(game@, field@)],
{
    Some(games.get(game)?.get(field)?.to_string())
}

/// The entry of a games object for one game and field, if it has one.
pub open spec fn field_text(
    games: serde_json::Map<String, serde_json::Value>,
    game: Seq<char>,
    field: Seq<char>,
) -> Option<Seq<char>> {
    if games_fields(games).contains_key((game, field)) {
        Some(games_fields(games)[(game, field)])
    } else {
        None
    }
}

/// The score that a field's text denotes: its decimal value, where it is an
/// unsigned decimal number of at most 64 bits. A field of any other kind (a
/// string, a fraction, a negative number, `null`) denotes no score.
pub open spec fn score_of_text(text: Option<Seq<char>>) -> Option<u64> {
    match text {
        Some(t) => decimal_u64(t),
        None => None,
    }
}

/// The skill level that a field's text denotes: its decimal value, where it
/// is an unsigned decimal number and names a tier of the catalogue. A value
/// outside the catalogue denotes no level.
pub open spec fn level_of_text(text: Option<Seq<char>>) -> Option<usize> {
    match text {
        Some(t) => match decimal_u64(t) {
            Some(v) => if valid_tier(v as int) {
                Some(v as usize)
            } else {
                None
            },
            None => None,
        },
        None => None,
    }
}

/// A player of the ranking service, as one answer of the service describes
/// them. The rank fields of the tracked game may be missing: such a player
/// has no rank to show.
pub struct Player {
    pub player_id: String,
    pub nickname: String,
    /// The per-game members of the answer.
    pub games: serde_json::Map<String, serde_json::Value>,
}

/// What the library reads of a [`Player`].
pub struct PlayerView {
    pub player_id: Seq<char>,
    pub nickname: Seq<char>,
    /// The score in the tracked game.
    pub elo: Option<u64>,
    /// The skill level in the tracked game: a tier of the catalogue.
    pub skill_level: Option<usize>,
}

impl View for Player {
    type V = PlayerView;

    open spec fn view(&self) -> PlayerView {
        PlayerView {
            player_id: self.player_id@,
            nickname: self.nickname@,
            elo: score_of_text(field_text(self.games, "cs2"@, "faceit_elo"@)),
            skill_level: level_of_text(field_text(self.games, "cs2"@, "skill_level"@)),
        }
    }
}

impl Player {
    /// A player record from the three members of the service's answer.
    pub fn new(
        player_id: String,
        nickname: String,
        games: serde_json::Map<String, serde_json::Value>,
    ) -> (player: Player)
        ensures
            player.player_id == player_id,
            player.nickname == nickname,
            player.games == games,
    {
        Player { player_id, nickname, games }
    }

    /// The player's score in the tracked game; `None` where the record has
    /// no tracked game, the game has no score, or the score is not an
    /// unsigned decimal number.
    pub fn score(&self) -> (score: Option<u64>)
        ensures
            score == self@.elo,
    {
        match game_field(&self.games, "cs2", "faceit_elo") {
            Some(text) => parse_u64(text.as_str()),
            None => None,
        }
    }

    /// The player's score in the tracked game, written in decimal digits;
    /// `None` where [`Player::score`] is.
    pub fn get_player_elo(&self) -> (elo: Option<String>)
        ensures
            elo is Some <==> self@.elo is Some,
            elo matches Some(text) ==> text@ == decimal_text(self@.elo->0 as nat),
    {
        match self.score() {
            Some(score) => Some(format_u64(score)),
            None => None,
        }
    }

    /// The player's skill level in the tracked game, which is a tier of the
    /// catalogue; `None` where the record has no tracked game, the game has
    /// no level, or the level is not a decimal number from 1 to 10.
    pub fn get_player_skill_level(&self) -> (level: Option<usize>)
        ensures
            level == self@.skill_level,
            level matches Some(tier) ==> valid_tier(tier as int),
    {
        match game_field(&self.games, "cs2", "skill_level") {
            Some(text) => match parse_u64(text.as_str()) {
                Some(value) => if 1 <= value && value <= 10 {
                    Some(value as usize)
                } else {
                    None
                },
                None => None,
            },
            None => None,
        }
    }
}

/// How a lookup of a player ended.
pub enum Resolution {
    /// The service knows the account.
    Found(Player),
    /// The service has no such account.
    NotFound,
    /// The lookup failed for a reason that has nothing to do with the
    /// account; a later attempt may succeed.
    Failed,
}

/// What the library reads of a [`Resolution`].
pub enum ResolutionView {
    Found(PlayerView),
    NotFound,
    Failed,
}

impl View for Resolution {
    type V = ResolutionView;

    open spec fn view(&self) -> ResolutionView {
        match self {
            Resolution::Found(player) => ResolutionView::Found(player@),
            Resolution::NotFound => ResolutionView::NotFound,
            Resolution::Failed => ResolutionView::Failed,
        }
    }
}

/// The three classes of answer that a lookup tells apart.
#[derive(Clone, Copy, Debug, PartialEq, Eq, Structural)]
pub enum StatusClass {
    /// 200 to 299: the body describes the player.
    Success,
    /// 400 to 499: there is no such player.
    ClientError,
    /// Anything else.
    Other,
}

/// The class of an HTTP status code.
pub open spec fn class_of(status: u16) -> StatusClass {
    if 200 <= status < 300 {
        StatusClass::Success
    } else if 400 <= status < 500 {
        StatusClass::ClientError
    } else {
        StatusClass::Other
    }
}

/// What a lookup yields for a status code and the player decoded from the
/// body, if the body was decoded.
pub open spec fn resolution_of(status: u16, decoded: Option<PlayerView>) -> ResolutionView {
    match class_of(status) {
        StatusClass::Success => match decoded {
            Some(player) => ResolutionView::Found(player),
            None => ResolutionView::Failed,
        },
        StatusClass::ClientError => ResolutionView::NotFound,
        StatusClass::Other => ResolutionView::Failed,
    }
}

/// A request to the ranking service: a GET of `url` with the header
/// `Authorization` set to `authorization`.
pub struct ApiRequest {
    pub url: String,
    pub authorization: String,
}

/// Address of a player by their stable identifier.
pub open spec fn id_url(faceit_id: Seq<char>) -> Seq<char> {
    "https://open.faceit.com/data/v4/players/"@ + faceit_id
}

/// Address of a player of the tracked game by their display name.
pub open spec fn nickname_url(username: Seq<char>) -> Seq<char> {
    "https://open.faceit.com/data/v4/players?nickname="@ + username + "&game=cs2"@
}

/// The bearer credential for a token.
pub open spec fn bearer(token: Seq<char>) -> Seq<char> {
    "Bearer "@ + token
}

/// The client side of the ranking service: it holds the access token, says
/// which request asks for a player, and reads the answer.
pub struct Faceit {
    token: String,
}

impl Faceit {
    /// The access token that requests are signed with.
    pub closed spec fn token(&self) -> Seq<char> {
        self.token@
    }

    /// A client that signs its requests with `token`.
    pub fn new(token: String) -> (client: Faceit)
        ensures
            client.token() == token@,
    {
        Faceit { token }
    }

    fn authorization(&self) -> (header: String)
        ensures
            header@ == bearer(self.token()),
    {
        String::from_str("Bearer ").concat(self.token.as_str())
    }

    /// The request that looks a player up by their stable identifier.
    pub fn get_faceit_user_by_id(&self, faceit_id: &str) -> (request: ApiRequest)
        ensures
            request.url@ == id_url(faceit_id@),
            request.authorization@ == bearer(self.token()),
    {
        let url = String::from_str("https://open.faceit.com/data/v4/players/").concat(faceit_id);
        ApiRequest { url, authorization: self.authorization() }
    }

    /// The request that looks a player of the tracked game up by the display
    /// name that a person typed.
    pub fn get_faceit_user_by_nickname(&self, username: &str) -> (request: ApiRequest)
        ensures
            request.url@ == nickname_url(username@),
            request.authorization@ == bearer(self.token()),
    {
        let url = String::from_str("https://open.faceit.com/data/v4/players?nickname=").concat(
            username,
        ).concat("&game=cs2");
        ApiRequest { url, authorization: self.authorization() }
    }

    /// The class of a status code. Only a body that came with
    /// [`StatusClass::Success`] is worth decoding.
    pub fn classify(status: u16) -> (class: StatusClass)
        ensures
            class == class_of(status),
    {
        if 200 <= status && status < 300 {
            StatusClass::Success
        } else if 400 <= status && status < 500 {
            StatusClass::ClientError
        } else {
            StatusClass::Other
        }
    }

    /// Reads the answer to a lookup: `status` is its status code and
    /// `decoded` the player that its body describes, `None` where the body
    /// was not decoded or describes no player.
    pub fn faceit_api_query(status: u16, decoded: Option<Player>) -> (resolution: Resolution)
        ensures
            resolution@ == resolution_of(
                status,
                match decoded {
                    Some(player) => Some(player@),
                    None => None,
                },
            ),
    {
        match Faceit::classify(status) {
            StatusClass::Success => match decoded {
                Some(player) => Resolution::Found(player),
                None => Resolution::Failed,
            },
            StatusClass::ClientError => Resolution::NotFound,
            StatusClass::Other => Resolution::Failed,
        }
    }
}

} // verus!
