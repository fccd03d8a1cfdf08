//! The Spotify provider client: its wire schema, the normalizer onto the
//! canonical track/playlist shape, and the request-building half of each
//! REST call.
//!
//! Each REST call splits into a verified half here — build the URL or query,
//! then read status and body into the canonical result — and an I/O half in
//! the surrounding program that performs the HTTP round-trip.

use vstd::prelude::*;

use crate::auth::Credential;
use crate::auth::TokenCacheEntry;
use crate::auth::TokenStep;
use crate::auth::cache_bearer;
use crate::auth::token_request_params;
use crate::canon::ProviderError;
use crate::json::JsonValue;
use crate::json::json_of;
use crate::json::parse_json;
use crate::text::join_strings;
use crate::text::join_with;

verus! {

/// The REST endpoints of the provider; `{}` marks where the path
/// parameter goes.
pub struct ApiEndpoints;

impl ApiEndpoints {
    pub const TOKEN: &'static str = "https://accounts.spotify.com/api/token";

    pub const GET_PLAYLIST_TRACKS: &'static str =
        "https://api.spotify.com/v1/playlists/{}/tracks";

    pub const GET_PLAYLISTS: &'static str = "https://api.spotify.com/v1/users/{}/playlists";

    pub const SEARCH: &'static str = "https://api.spotify.com/v1/search";
}

/// One artist of a track: the wire schema keeps more, the canonical model
/// only the name.
#[derive(Debug)]
pub struct Artist {
    pub name: String,
}

impl DeepView for Artist {
    type V = Seq<char>;

    open spec fn deep_view(&self) -> Seq<char> {
        self.name@
    }
}

/// A track as the playlist-tracks response carries it: its name and its
/// artists, in the provider's order (primary artist first).
#[derive(Debug)]
pub struct Track {
    pub name: String,
    pub artists: Vec<Artist>,
}

impl DeepView for Track {
    type V = (Seq<char>, Seq<Seq<char>>);

    open spec fn deep_view(&self) -> (Seq<char>, Seq<Seq<char>>) {
        (self.name@, self.artists.deep_view())
    }
}

/// One entry of the playlist-tracks response; the entry wraps the track.
#[derive(Debug)]
pub struct Item {
    pub track: Track,
}

impl DeepView for Item {
    type V = (Seq<char>, Seq<Seq<char>>);

    open spec fn deep_view(&self) -> (Seq<char>, Seq<Seq<char>>) {
        self.track.deep_view()
    }
}

/// The playlist-tracks response body: the entries the canonical model
/// consumes.
#[derive(Debug)]
pub struct Playlist {
    pub items: Vec<Item>,
}

impl DeepView for Playlist {
    type V = Seq<(Seq<char>, Seq<Seq<char>>)>;

    open spec fn deep_view(&self) -> Seq<(Seq<char>, Seq<Seq<char>>)> {
        self.items.deep_view()
    }
}

/// The artist name an artist entry yields: its `name` member, which the
/// schema requires to be a string.
pub open spec fn artist_of(j: JsonValue) -> Option<Seq<char>> {
    match j.spec_get("name"@) {
        Some(JsonValue::Str(s)) => Some(s@),
        _ => None,
    }
}

/// The artist names a track yields: its `artists` member must be an array
/// (possibly empty) whose every entry names its artist.
pub open spec fn artists_of(j: JsonValue) -> Option<Seq<Seq<char>>> {
    match j.spec_get("artists"@) {
        Some(JsonValue::Arr(a)) => if forall|i: int|
            0 <= i < a@.len() ==> artist_of(#[trigger] a@[i]) is Some {
            Some(Seq::new(a@.len(), |i: int| artist_of(a@[i]).unwrap()))
        } else {
            None
        },
        _ => None,
    }
}

/// The canonical pair a track object yields: its required `name`, and its
/// artists' names in order.
pub open spec fn track_of(j: JsonValue) -> Option<(Seq<char>, Seq<Seq<char>>)> {
    match (j.spec_get("name"@), artists_of(j)) {
        (Some(JsonValue::Str(n)), Some(a)) => Some((n@, a)),
        _ => None,
    }
}

/// The canonical pair a playlist-tracks entry yields, through its required
/// `track` member.
pub open spec fn item_of(j: JsonValue) -> Option<(Seq<char>, Seq<Seq<char>>)> {
    match j.spec_get("track"@) {
        Some(t) => track_of(t),
        _ => None,
    }
}

/// The canonical track sequence a playlist-tracks body yields: its `items`
/// member must be an array, and every entry must yield a track — one bad
/// entry fails the whole body, no partial result drops it.
pub open spec fn tracks_of(j: JsonValue) -> Option<Seq<(Seq<char>, Seq<Seq<char>>)>> {
    match j.spec_get("items"@) {
        Some(JsonValue::Arr(items)) => if forall|i: int|
            0 <= i < items@.len() ==> item_of(#[trigger] items@[i]) is Some {
            Some(Seq::new(items@.len(), |i: int| item_of(items@[i]).unwrap()))
        } else {
            None
        },
        _ => None,
    }
}

impl Artist {
    /// Reads one artist entry, failing on a missing or non-string name.
    pub fn from_json(j: &JsonValue) -> (r: Result<Artist, ProviderError>)
        ensures
            match r {
                Ok(a) => artist_of(*j) == Some(a.deep_view()),
                Err(e) => artist_of(*j) is None && e == ProviderError::MalformedResponse,
            },
    {
        match j.get("name") {
            Some(JsonValue::Str(s)) => Ok(Artist { name: s.clone() }),
            _ => Err(ProviderError::MalformedResponse),
        }
    }
}

impl Track {
    /// Reads one track object, failing on a missing name or artist name.
    pub fn from_json(j: &JsonValue) -> (r: Result<Track, ProviderError>)
        ensures
            match r {
                Ok(t) => track_of(*j) == Some(t.deep_view()),
                Err(e) => track_of(*j) is None && e == ProviderError::MalformedResponse,
            },
    {
        let name = match j.get("name") {
            Some(JsonValue::Str(s)) => s.clone(),
            _ => {
                return Err(ProviderError::MalformedResponse);
            },
        };
        let arts = match j.get("artists") {
            Some(JsonValue::Arr(a)) => a,
            _ => {
                return Err(ProviderError::MalformedResponse);
            },
        };
        let mut artists: Vec<Artist> = Vec::new();
        let mut i: usize = 0;
        while i < arts.len()
            invariant
                0 <= i <= arts@.len(),
                artists@.len() == i,
                j.spec_get("artists"@) matches Some(v) && v == JsonValue::Arr(*arts),
                forall|k: int|
                    0 <= k < i ==> artist_of(#[trigger] arts@[k]) == Some(
                        artists.deep_view()[k],
                    ),
            decreases arts@.len() - i,
        {
            match Artist::from_json(&arts[i]) {
                Ok(a) => artists.push(a),
                Err(e) => {
                    assert(artist_of(arts@[i as int]) is None);
                    assert(artists_of(*j) is None);
                    return Err(e);
                },
            }
            i = i + 1;
        }
        proof {
            assert(artists.deep_view() =~= Seq::new(
                arts@.len(),
                |k: int| artist_of(arts@[k]).unwrap(),
            ));
        }
        Ok(Track { name, artists })
    }
}

impl Item {
    /// Reads one playlist-tracks entry through its required `track` member.
    pub fn from_json(j: &JsonValue) -> (r: Result<Item, ProviderError>)
        ensures
            match r {
                Ok(it) => item_of(*j) == Some(it.deep_view()),
                Err(e) => item_of(*j) is None && e == ProviderError::MalformedResponse,
            },
    {
        match j.get("track") {
            Some(t) => match Track::from_json(t) {
                Ok(track) => Ok(Item { track }),
                Err(e) => Err(e),
            },
            None => Err(ProviderError::MalformedResponse),
        }
    }
}

impl Playlist {
    /// Reads a whole playlist-tracks body, fail-closed over its entries.
    pub fn from_json(j: &JsonValue) -> (r: Result<Playlist, ProviderError>)
        ensures
            match r {
                Ok(p) => tracks_of(*j) == Some(p.deep_view()),
                Err(e) => tracks_of(*j) is None && e == ProviderError::MalformedResponse,
            },
    {
        let entries = match j.get("items") {
            Some(JsonValue::Arr(a)) => a,
            _ => {
                return Err(ProviderError::MalformedResponse);
            },
        };
        let mut items: Vec<Item> = Vec::new();
        let mut i: usize = 0;
        while i < entries.len()
            invariant
                0 <= i <= entries@.len(),
                items@.len() == i,
                j.spec_get("items"@) matches Some(v) && v == JsonValue::Arr(*entries),
                forall|k: int|
                    0 <= k < i ==> item_of(#[trigger] entries@[k]) == Some(items.deep_view()[k]),
            decreases entries@.len() - i,
        {
            match Item::from_json(&entries[i]) {
                Ok(it) => items.push(it),
                Err(e) => {
                    assert(item_of(entries@[i as int]) is None);
                    assert(tracks_of(*j) is None);
                    return Err(e);
                },
            }
            i = i + 1;
        }
        proof {
            assert(items.deep_view() =~= Seq::new(
                entries@.len(),
                |k: int| item_of(entries@[k]).unwrap(),
            ));
        }
        Ok(Playlist { items })
    }
}

/// The owner block of a playlist entry, as far as the schema keeps it.
#[derive(Debug)]
pub struct Owner {
    pub display_name: String,
    pub id: String,
}

impl DeepView for Owner {
    type V = (Seq<char>, Seq<char>);

    open spec fn deep_view(&self) -> (Seq<char>, Seq<char>) {
        (self.display_name@, self.id@)
    }
}

/// The provider's public link to an entity.
#[derive(Debug)]
pub struct ExternalUrls {
    pub spotify: String,
}

impl DeepView for ExternalUrls {
    type V = Seq<char>;

    open spec fn deep_view(&self) -> Seq<char> {
        self.spotify@
    }
}

/// One playlist of the playlist-listing response: the canonical id/name
/// pair, plus the optional decoration the wire schema carries.
#[derive(Debug)]
pub struct PlaylistItem {
    pub id: String,
    pub name: String,
    pub owner: Option<Owner>,
    pub external_urls: Option<ExternalUrls>,
}

impl DeepView for PlaylistItem {
    type V = (Seq<char>, Seq<char>);

    open spec fn deep_view(&self) -> (Seq<char>, Seq<char>) {
        (self.id@, self.name@)
    }
}

/// The playlist-listing response body.
#[derive(Debug)]
pub struct Playlists {
    pub items: Vec<PlaylistItem>,
}

impl DeepView for Playlists {
    type V = Seq<(Seq<char>, Seq<char>)>;

    open spec fn deep_view(&self) -> Seq<(Seq<char>, Seq<char>)> {
        self.items.deep_view()
    }
}

/// The owner a playlist entry decorates itself with, when both of its
/// consumed members are present as strings; optional, so its absence or a
/// wrong shape is tolerated, never a parse failure.
pub open spec fn owner_of(j: JsonValue) -> Option<(Seq<char>, Seq<char>)> {
    match j.spec_get("owner"@) {
        Some(o) => match (o.spec_get("display_name"@), o.spec_get("id"@)) {
            (Some(JsonValue::Str(d)), Some(JsonValue::Str(i))) => Some((d@, i@)),
            _ => None,
        },
        _ => None,
    }
}

/// The public link a playlist entry decorates itself with; optional in the
/// same tolerant way as `owner_of`.
pub open spec fn external_urls_of(j: JsonValue) -> Option<Seq<char>> {
    match j.spec_get("external_urls"@) {
        Some(u) => match u.spec_get("spotify"@) {
            Some(JsonValue::Str(s)) => Some(s@),
            _ => None,
        },
        _ => None,
    }
}

/// The canonical id/name pair a playlist entry yields; both are required.
pub open spec fn playlist_item_of(j: JsonValue) -> Option<(Seq<char>, Seq<char>)> {
    match (j.spec_get("id"@), j.spec_get("name"@)) {
        (Some(JsonValue::Str(id)), Some(JsonValue::Str(name))) => Some((id@, name@)),
        _ => None,
    }
}

/// The canonical playlist sequence a playlist-listing body yields,
/// fail-closed over its entries like `tracks_of`.
pub open spec fn playlists_of(j: JsonValue) -> Option<Seq<(Seq<char>, Seq<char>)>> {
    match j.spec_get("items"@) {
        Some(JsonValue::Arr(items)) => if forall|i: int|
            0 <= i < items@.len() ==> playlist_item_of(#[trigger] items@[i]) is Some {
            Some(Seq::new(items@.len(), |i: int| playlist_item_of(items@[i]).unwrap()))
        } else {
            None
        },
        _ => None,
    }
}

impl Owner {
    /// Reads the optional owner block; a missing or misshapen one is
    /// `None`, never a failure.
    pub fn from_json(j: &JsonValue) -> (r: Option<Owner>)
        ensures
            r.deep_view() == owner_of(*j),
    {
        match j.get("owner") {
            Some(o) => {
                let display_name = match o.get("display_name") {
                    Some(JsonValue::Str(s)) => s.clone(),
                    _ => {
                        return None;
                    },
                };
                match o.get("id") {
                    Some(JsonValue::Str(s)) => Some(
                        Owner { display_name, id: s.clone() },
                    ),
                    _ => None,
                }
            },
            None => None,
        }
    }
}

impl ExternalUrls {
    /// Reads the optional public-link block, tolerantly like `Owner`.
    pub fn from_json(j: &JsonValue) -> (r: Option<ExternalUrls>)
        ensures
            r.deep_view() == external_urls_of(*j),
    {
        match j.get("external_urls") {
            Some(u) => match u.get("spotify") {
                Some(JsonValue::Str(s)) => Some(ExternalUrls { spotify: s.clone() }),
                _ => None,
            },
            None => None,
        }
    }
}

impl PlaylistItem {
    /// Reads one playlist entry: id and name are required, the decoration
    /// is kept when present and well shaped.
    pub fn from_json(j: &JsonValue) -> (r: Result<PlaylistItem, ProviderError>)
        ensures
            match r {
                Ok(p) => {
                    &&& playlist_item_of(*j) == Some(p.deep_view())
                    &&& p.owner.deep_view() == owner_of(*j)
                    &&& p.external_urls.deep_view() == external_urls_of(*j)
                },
                Err(e) => playlist_item_of(*j) is None && e == ProviderError::MalformedResponse,
            },
    {
        let id = match j.get("id") {
            Some(JsonValue::Str(s)) => s.clone(),
            _ => {
                return Err(ProviderError::MalformedResponse);
            },
        };
        let name = match j.get("name") {
            Some(JsonValue::Str(s)) => s.clone(),
            _ => {
                return Err(ProviderError::MalformedResponse);
            },
        };
        let owner = Owner::from_json(j);
        let external_urls = ExternalUrls::from_json(j);
        Ok(PlaylistItem { id, name, owner, external_urls })
    }
}

impl Playlists {
    /// Reads a whole playlist-listing body, fail-closed over its entries.
    pub fn from_json(j: &JsonValue) -> (r: Result<Playlists, ProviderError>)
        ensures
            match r {
                Ok(p) => playlists_of(*j) == Some(p.deep_view()),
                Err(e) => playlists_of(*j) is None && e == ProviderError::MalformedResponse,
            },
    {
        let entries = match j.get("items") {
            Some(JsonValue::Arr(a)) => a,
            _ => {
                return Err(ProviderError::MalformedResponse);
            },
        };
        let mut items: Vec<PlaylistItem> = Vec::new();
        let mut i: usize = 0;
        while i < entries.len()
            invariant
                0 <= i <= entries@.len(),
                items@.len() == i,
                j.spec_get("items"@) matches Some(v) && v == JsonValue::Arr(*entries),
                forall|k: int|
                    0 <= k < i ==> playlist_item_of(#[trigger] entries@[k]) == Some(
                        items.deep_view()[k],
                    ),
            decreases entries@.len() - i,
        {
            match PlaylistItem::from_json(&entries[i]) {
                Ok(p) => items.push(p),
                Err(e) => {
                    assert(playlist_item_of(entries@[i as int]) is None);
                    assert(playlists_of(*j) is None);
                    return Err(e);
                },
            }
            i = i + 1;
        }
        proof {
            assert(items.deep_view() =~= Seq::new(
                entries@.len(),
                |k: int| playlist_item_of(entries@[k]).unwrap(),
            ));
        }
        Ok(Playlists { items })
    }
}

/// One entry of the search response's track list; only the name is
/// consumed (the response nests full album/track records).
#[derive(Debug)]
pub struct Album {
    pub name: String,
}

impl DeepView for Album {
    type V = Seq<char>;

    open spec fn deep_view(&self) -> Seq<char> {
        self.name@
    }
}

/// The paged track list inside the search response.
#[derive(Debug)]
pub struct Albums {
    pub items: Vec<Album>,
}

impl DeepView for Albums {
    type V = Seq<Seq<char>>;

    open spec fn deep_view(&self) -> Seq<Seq<char>> {
        self.items.deep_view()
    }
}

/// The search response body: its `tracks` page.
#[derive(Debug)]
pub struct Search {
    pub tracks: Albums,
}

impl DeepView for Search {
    type V = Seq<Seq<char>>;

    open spec fn deep_view(&self) -> Seq<Seq<char>> {
        self.tracks.deep_view()
    }
}

/// The name one search hit yields; required, as in the other schemas.
pub open spec fn hit_of(j: JsonValue) -> Option<Seq<char>> {
    match j.spec_get("name"@) {
        Some(JsonValue::Str(s)) => Some(s@),
        _ => None,
    }
}

/// The hit names a search body yields: `tracks.items` must be an array of
/// named entries.
pub open spec fn search_names_of(j: JsonValue) -> Option<Seq<Seq<char>>> {
    match j.spec_get("tracks"@) {
        Some(t) => match t.spec_get("items"@) {
            Some(JsonValue::Arr(items)) => if forall|i: int|
                0 <= i < items@.len() ==> hit_of(#[trigger] items@[i]) is Some {
                Some(Seq::new(items@.len(), |i: int| hit_of(items@[i]).unwrap()))
            } else {
                None
            },
            _ => None,
        },
        _ => None,
    }
}

impl Search {
    /// Reads a whole search body, fail-closed over its hits.
    pub fn from_json(j: &JsonValue) -> (r: Result<Search, ProviderError>)
        ensures
            match r {
                Ok(s) => search_names_of(*j) == Some(s.deep_view()),
                Err(e) => search_names_of(*j) is None && e == ProviderError::MalformedResponse,
            },
    {
        let tracks = match j.get("tracks") {
            Some(t) => t,
            None => {
                return Err(ProviderError::MalformedResponse);
            },
        };
        let entries = match tracks.get("items") {
            Some(JsonValue::Arr(a)) => a,
            _ => {
                return Err(ProviderError::MalformedResponse);
            },
        };
        let mut items: Vec<Album> = Vec::new();
        let mut i: usize = 0;
        while i < entries.len()
            invariant
                0 <= i <= entries@.len(),
                items@.len() == i,
                j.spec_get("tracks"@) matches Some(t) && t.spec_get("items"@) matches Some(v)
                    && v == JsonValue::Arr(*entries),
                forall|k: int|
                    0 <= k < i ==> hit_of(#[trigger] entries@[k]) == Some(items.deep_view()[k]),
            decreases entries@.len() - i,
        {
            match entries[i].get("name") {
                Some(JsonValue::Str(s)) => items.push(Album { name: s.clone() }),
                _ => {
                    assert(hit_of(entries@[i as int]) is None);
                    assert(search_names_of(*j) is None);
                    return Err(ProviderError::MalformedResponse);
                },
            }
            i = i + 1;
        }
        proof {
            assert(items.deep_view() =~= Seq::new(
                entries@.len(),
                |k: int| hit_of(entries@[k]).unwrap(),
            ));
        }
        Ok(Search { tracks: Albums { items } })
    }
}

/// What a playlist-tracks HTTP reply means: 401 and 403 are a rejected
/// token, 404 a missing resource, and everything else must be a status
/// 200 whose body yields the canonical tracks — anything short of that is
/// a malformed response.
pub open spec fn tracks_reply_of(status: u16, body: Seq<char>) -> Result<
    Seq<(Seq<char>, Seq<Seq<char>>)>,
    ProviderError,
> {
    if status == 401 || status == 403 {
        Err(ProviderError::Unauthorized)
    } else if status == 404 {
        Err(ProviderError::NotFound)
    } else if status != 200 {
        Err(ProviderError::MalformedResponse)
    } else {
        match json_of(body) {
            Some(j) => match tracks_of(j) {
                Some(ts) => Ok(ts),
                None => Err(ProviderError::MalformedResponse),
            },
            None => Err(ProviderError::MalformedResponse),
        }
    }
}

/// What a playlist-listing HTTP reply means, with the same taxonomy.
pub open spec fn playlists_reply_of(status: u16, body: Seq<char>) -> Result<
    Seq<(Seq<char>, Seq<char>)>,
    ProviderError,
> {
    if status == 401 || status == 403 {
        Err(ProviderError::Unauthorized)
    } else if status == 404 {
        Err(ProviderError::NotFound)
    } else if status != 200 {
        Err(ProviderError::MalformedResponse)
    } else {
        match json_of(body) {
            Some(j) => match playlists_of(j) {
                Some(ps) => Ok(ps),
                None => Err(ProviderError::MalformedResponse),
            },
            None => Err(ProviderError::MalformedResponse),
        }
    }
}

/// What a search HTTP reply means: whether at least one hit came back — a
/// presence check only, no comparison against the query.
pub open spec fn search_reply_of(status: u16, body: Seq<char>) -> Result<bool, ProviderError> {
    if status == 401 || status == 403 {
        Err(ProviderError::Unauthorized)
    } else if status == 404 {
        Err(ProviderError::NotFound)
    } else if status != 200 {
        Err(ProviderError::MalformedResponse)
    } else {
        match json_of(body) {
            Some(j) => match search_names_of(j) {
                Some(names) => Ok(names.len() > 0),
                None => Err(ProviderError::MalformedResponse),
            },
            None => Err(ProviderError::MalformedResponse),
        }
    }
}

/// One track rendered on one line: the artists joined with `|`, a `:`,
/// then the track name.
pub open spec fn line_of(t: (Seq<char>, Seq<Seq<char>>)) -> Seq<char> {
    join_with(t.1, "|"@) + ":"@ + t.0
}

/// The Spotify client: its token-cache entry and the credential the
/// token endpoint is called with. All content calls are stateless beyond
/// the cache, so one value may serve any number of callers behind a lock.
#[derive(Debug)]
pub struct SpotifyWebInterface {
    pub auth: TokenCacheEntry,
    pub credential: Credential,
}

impl SpotifyWebInterface {
    /// A client that has fetched nothing yet.
    pub fn new(credential: Credential) -> (r: Self)
        ensures
            r.auth.model() is None,
            r.credential == credential,
    {
        SpotifyWebInterface { auth: TokenCacheEntry::new(), credential }
    }

    /// The `get_token` decision, taken while the caller holds the cache's
    /// lock: a live cached token is served as-is with no acquisition call;
    /// otherwise the caller must perform exactly one client-credentials
    /// exchange with these form parameters and hand the reply to
    /// `TokenCacheEntry::apply_refresh_response` before releasing the lock.
    pub fn get_token_step(&self, now: u64) -> (r: TokenStep)
        ensures
            match r {
                TokenStep::Cached(b) => self.auth.has_live(now) && b@ == cache_bearer(
                    self.auth.model(),
                ),
                TokenStep::Refresh(params) => {
                    &&& !self.auth.has_live(now)
                    &&& params@.len() == 3
                    &&& params@[0].0@ == "grant_type"@ && params@[0].1@ == "client_credentials"@
                    &&& params@[1].0@ == "client_id"@ && params@[1].1@
                        == self.credential.client_id@
                    &&& params@[2].0@ == "client_secret"@ && params@[2].1@
                        == self.credential.client_secret@
                },
            },
    {
        match self.auth.get_cached(now) {
            Some(bearer) => TokenStep::Cached(bearer),
            None => TokenStep::Refresh(token_request_params(&self.credential)),
        }
    }

    /// The playlist-tracks endpoint URL for one playlist.
    pub fn playlist_tracks_url(playlist_id: &str) -> (r: String)
        ensures
            r@ == "https://api.spotify.com/v1/playlists/"@ + playlist_id@ + "/tracks"@,
    {
        let mut url = String::from_str("https://api.spotify.com/v1/playlists/");
        url.append(playlist_id);
        url.append("/tracks");
        url
    }

    /// The playlist-listing endpoint URL for one user.
    pub fn playlists_url(user_id: &str) -> (r: String)
        ensures
            r@ == "https://api.spotify.com/v1/users/"@ + user_id@ + "/playlists"@,
    {
        let mut url = String::from_str("https://api.spotify.com/v1/users/");
        url.append(user_id);
        url.append("/playlists");
        url
    }

    /// The search query: title and artists joined as free text, and the
    /// result type pinned to tracks.
    pub fn search_params(song: &str, artists: &Vec<String>) -> (r: Vec<(String, String)>)
        ensures
            r@.len() == 2,
            r@[0].0@ == "q"@,
            r@[0].1@ == song@ + " "@ + join_with(artists.deep_view(), ", "@),
            r@[1].0@ == "type"@,
            r@[1].1@ == "track"@,
    {
        let joined = join_strings(artists, ", ");
        let mut q = String::from_str(song);
        q.append(" ");
        q.append(joined.as_str());
        vec![
            (String::from_str("q"), q),
            (String::from_str("type"), String::from_str("track")),
        ]
    }

    /// Turns a parsed playlist-tracks body into the canonical pairs, one
    /// per entry, order kept.
    pub fn normalize_tracks(p: &Playlist) -> (r: Vec<(String, Vec<String>)>)
        ensures
            r.deep_view() == p.deep_view(),
    {
        let mut out: Vec<(String, Vec<String>)> = Vec::new();
        let mut i: usize = 0;
        while i < p.items.len()
            invariant
                0 <= i <= p.items@.len(),
                out@.len() == i,
                forall|k: int| 0 <= k < i ==> out.deep_view()[k] == #[trigger] p.deep_view()[k],
            decreases p.items@.len() - i,
        {
            let track = &p.items[i].track;
            let mut names: Vec<String> = Vec::new();
            let mut k: usize = 0;
            while k < track.artists.len()
                invariant
                    0 <= k <= track.artists@.len(),
                    names@.len() == k,
                    forall|m: int|
                        0 <= m < k ==> names.deep_view()[m] == #[trigger] track.artists.deep_view()[m],
                decreases track.artists@.len() - k,
            {
                names.push(track.artists[k].name.clone());
                k = k + 1;
            }
            proof {
                assert(names.deep_view() =~= track.artists.deep_view());
            }
            out.push((track.name.clone(), names));
            i = i + 1;
        }
        proof {
            assert(out.deep_view() =~= p.deep_view());
        }
        out
    }

    /// Turns a parsed playlist-listing body into the canonical id/name
    /// pairs, order kept.
    pub fn normalize_playlists(p: &Playlists) -> (r: Vec<(String, String)>)
        ensures
            r.deep_view() == p.deep_view(),
    {
        let mut out: Vec<(String, String)> = Vec::new();
        let mut i: usize = 0;
        while i < p.items.len()
            invariant
                0 <= i <= p.items@.len(),
                out@.len() == i,
                forall|k: int| 0 <= k < i ==> out.deep_view()[k] == #[trigger] p.deep_view()[k],
            decreases p.items@.len() - i,
        {
            let item = &p.items[i];
            out.push((item.id.clone(), item.name.clone()));
            i = i + 1;
        }
        proof {
            assert(out.deep_view() =~= p.deep_view());
        }
        out
    }

    /// Renders each track of a parsed playlist-tracks body on one line,
    /// exactly as `line_of` states it.
    pub fn playlist_track_lines(p: &Playlist) -> (r: Vec<String>)
        ensures
            r.deep_view().len() == p.deep_view().len(),
            forall|i: int|
                0 <= i < p.deep_view().len() ==> #[trigger] r.deep_view()[i] == line_of(
                    p.deep_view()[i],
                ),
    {
        let mut out: Vec<String> = Vec::new();
        let mut i: usize = 0;
        while i < p.items.len()
            invariant
                0 <= i <= p.items@.len(),
                out@.len() == i,
                forall|k: int|
                    0 <= k < i ==> #[trigger] out.deep_view()[k] == line_of(p.deep_view()[k]),
            decreases p.items@.len() - i,
        {
            let track = &p.items[i].track;
            let mut names: Vec<String> = Vec::new();
            let mut k: usize = 0;
            while k < track.artists.len()
                invariant
                    0 <= k <= track.artists@.len(),
                    names@.len() == k,
                    forall|m: int|
                        0 <= m < k ==> names.deep_view()[m] == #[trigger] track.artists.deep_view()[m],
                decreases track.artists@.len() - k,
            {
                names.push(track.artists[k].name.clone());
                k = k + 1;
            }
            proof {
                assert(names.deep_view() =~= track.artists.deep_view());
            }
            let mut line = join_strings(&names, "|");
            line.append(":");
            line.append(track.name.as_str());
            proof {
                assert(p.deep_view()[i as int] == (track.name@, track.artists.deep_view()));
                assert(line@ == join_with(track.artists.deep_view(), "|"@) + ":"@
                    + track.name@);
                assert(line_of(p.deep_view()[i as int]) == join_with(
                    track.artists.deep_view(),
                    "|"@,
                ) + ":"@ + track.name@);
            }
            let ghost prev = out.deep_view();
            out.push(line);
            proof {
                assert(out.deep_view() =~= prev.push(line_of(p.deep_view()[i as int])));
            }
            i = i + 1;
        }
        out
    }

    /// Reads a playlist-tracks HTTP reply, exactly as `tracks_reply_of`
    /// states it.
    pub fn read_playlist_tracks_reply(status: u16, body: &str) -> (r: Result<
        Vec<(String, Vec<String>)>,
        ProviderError,
    >)
        ensures
            match r {
                Ok(v) => tracks_reply_of(status, body@) matches Ok(m) && m == v.deep_view(),
                Err(e) => tracks_reply_of(status, body@) matches Err(m) && m == e,
            },
    {
        if status == 401 || status == 403 {
            return Err(ProviderError::Unauthorized);
        }
        if status == 404 {
            return Err(ProviderError::NotFound);
        }
        if status != 200 {
            return Err(ProviderError::MalformedResponse);
        }
        match parse_json(body) {
            None => Err(ProviderError::MalformedResponse),
            Some(j) => match Playlist::from_json(&j) {
                Ok(p) => Ok(Self::normalize_tracks(&p)),
                Err(e) => Err(e),
            },
        }
    }

    /// Reads a playlist-listing HTTP reply, exactly as `playlists_reply_of`
    /// states it.
    pub fn read_playlists_reply(status: u16, body: &str) -> (r: Result<
        Vec<(String, String)>,
        ProviderError,
    >)
        ensures
            match r {
                Ok(v) => playlists_reply_of(status, body@) matches Ok(m) && m == v.deep_view(),
                Err(e) => playlists_reply_of(status, body@) matches Err(m) && m == e,
            },
    {
        if status == 401 || status == 403 {
            return Err(ProviderError::Unauthorized);
        }
        if status == 404 {
            return Err(ProviderError::NotFound);
        }
        if status != 200 {
            return Err(ProviderError::MalformedResponse);
        }
        match parse_json(body) {
            None => Err(ProviderError::MalformedResponse),
            Some(j) => match Playlists::from_json(&j) {
                Ok(p) => Ok(Self::normalize_playlists(&p)),
                Err(e) => Err(e),
            },
        }
    }

    /// Reads a search HTTP reply into the presence bit, exactly as
    /// `search_reply_of` states it.
    pub fn read_search_reply(status: u16, body: &str) -> (r: Result<bool, ProviderError>)
        ensures
            match r {
                Ok(b) => search_reply_of(status, body@) == Ok::<bool, ProviderError>(b),
                Err(e) => search_reply_of(status, body@) matches Err(m) && m == e,
            },
    {
        if status == 401 || status == 403 {
            return Err(ProviderError::Unauthorized);
        }
        if status == 404 {
            return Err(ProviderError::NotFound);
        }
        if status != 200 {
            return Err(ProviderError::MalformedResponse);
        }
        match parse_json(body) {
            None => Err(ProviderError::MalformedResponse),
            Some(j) => match Search::from_json(&j) {
                Ok(s) => Ok(s.tracks.items.len() > 0),
                Err(e) => Err(e),
            },
        }
    }
}

/// Malformed response isolation: one playlist-tracks entry whose track
/// lacks the required name fails the whole body — no partial result ever
/// drops just that entry.
pub proof fn lemma_missing_track_name_fails(j: JsonValue, entries: Seq<JsonValue>, k: int)
    requires
        j.spec_get("items"@) matches Some(JsonValue::Arr(ev)) && ev@ == entries,
        0 <= k < entries.len(),
        entries[k].spec_get("track"@) matches Some(t) && !(t.spec_get("name"@) matches Some(
            JsonValue::Str(_),
        )),
    ensures
        tracks_of(j) is None,
{
    assert(item_of(entries[k]) is None);
}

} // verus!
