//! The YouTube provider client: its differently shaped wire schema, and
//! the normalizer onto the same canonical track/playlist shape the Spotify
//! client produces.
//!
//! This provider authenticates with an API key passed as a query
//! parameter, so there is no token cache here; the split between verified
//! half and I/O half is the same as for Spotify.

use vstd::prelude::*;

use crate::canon::ProviderError;
use crate::json::JsonValue;
use crate::json::json_of;
use crate::json::parse_json;

verus! {

/// The REST endpoints of the provider.
pub struct ApiEndpoints;

impl ApiEndpoints {
    pub const GET_PLAYLISTS: &'static str = "https://www.googleapis.com/youtube/v3/playlists";

    pub const GET_PLAYLISTS_TRACKS: &'static str =
        "https://www.googleapis.com/youtube/v3/playlistItems";

    pub const SEARCH: &'static str = "https://www.googleapis.com/youtube/v3/search";
}

/// The page summary both list responses carry.
#[derive(Debug)]
#[allow(non_snake_case)]
pub struct PageInfo {
    pub totalResults: u32,
    pub resultsPerPage: u32,
}

impl DeepView for PageInfo {
    type V = (u32, u32);

    open spec fn deep_view(&self) -> (u32, u32) {
        (self.totalResults, self.resultsPerPage)
    }
}

/// The snippet of one playlist item: the video's title, and the channel
/// that owns the video when the provider reports it.
#[derive(Debug)]
#[allow(non_snake_case)]
pub struct Snippet {
    pub title: String,
    pub videoOwnerChannelTitle: Option<String>,
}

impl DeepView for Snippet {
    type V = (Seq<char>, Option<Seq<char>>);

    open spec fn deep_view(&self) -> (Seq<char>, Option<Seq<char>>) {
        (self.title@, self.videoOwnerChannelTitle.deep_view())
    }
}

/// One entry of the playlist-items response.
#[derive(Debug)]
pub struct PlaylistItem {
    pub snippet: Snippet,
}

impl DeepView for PlaylistItem {
    type V = (Seq<char>, Seq<Seq<char>>);

    open spec fn deep_view(&self) -> (Seq<char>, Seq<Seq<char>>) {
        (
            self.snippet.title@,
            match self.snippet.videoOwnerChannelTitle {
                Some(o) => seq![o@],
                None => Seq::empty(),
            },
        )
    }
}

/// The playlist-items response body.
#[derive(Debug)]
#[allow(non_snake_case)]
pub struct PlaylistItemListResponse {
    pub items: Vec<PlaylistItem>,
    pub pageInfo: Option<PageInfo>,
}

impl DeepView for PlaylistItemListResponse {
    type V = Seq<(Seq<char>, Seq<Seq<char>>)>;

    open spec fn deep_view(&self) -> Seq<(Seq<char>, Seq<Seq<char>>)> {
        self.items.deep_view()
    }
}

/// The snippet of one playlist in the playlist-listing response.
#[derive(Debug)]
pub struct PlaylistSnippet {
    pub title: String,
}

impl DeepView for PlaylistSnippet {
    type V = Seq<char>;

    open spec fn deep_view(&self) -> Seq<char> {
        self.title@
    }
}

/// One playlist of the playlist-listing response.
#[derive(Debug)]
pub struct Playlist {
    pub id: String,
    pub snippet: PlaylistSnippet,
}

impl DeepView for Playlist {
    type V = (Seq<char>, Seq<char>);

    open spec fn deep_view(&self) -> (Seq<char>, Seq<char>) {
        (self.id@, self.snippet.title@)
    }
}

/// The playlist-listing response body.
#[derive(Debug)]
#[allow(non_snake_case)]
pub struct PlaylistListResponse {
    pub items: Vec<Playlist>,
    pub pageInfo: Option<PageInfo>,
}

impl DeepView for PlaylistListResponse {
    type V = Seq<(Seq<char>, Seq<char>)>;

    open spec fn deep_view(&self) -> Seq<(Seq<char>, Seq<char>)> {
        self.items.deep_view()
    }
}

/// The snippet an item yields: its required `title`, and the owning
/// channel's title when present as a string — absence, or any other
/// shape, is tolerated as absence, never a failure.
pub open spec fn snippet_of(j: JsonValue) -> Option<(Seq<char>, Option<Seq<char>>)> {
    match j.spec_get("title"@) {
        Some(JsonValue::Str(t)) => Some(
            (
                t@,
                match j.spec_get("videoOwnerChannelTitle"@) {
                    Some(JsonValue::Str(o)) => Some(o@),
                    _ => None,
                },
            ),
        ),
        _ => None,
    }
}

/// The canonical pair one playlist-items entry yields: the video title as
/// the track name, and the owning channel — when reported — as the one
/// artist, an absent owner normalizing to an empty artist sequence.
pub open spec fn track_of(j: JsonValue) -> Option<(Seq<char>, Seq<Seq<char>>)> {
    match j.spec_get("snippet"@) {
        Some(s) => match snippet_of(s) {
            Some(p) => Some(
                (
                    p.0,
                    match p.1 {
                        Some(o) => seq![o],
                        None => Seq::empty(),
                    },
                ),
            ),
            None => None,
        },
        _ => None,
    }
}

/// The canonical track sequence a playlist-items body yields, fail-closed
/// over its entries.
pub open spec fn tracks_of(j: JsonValue) -> Option<Seq<(Seq<char>, Seq<Seq<char>>)>> {
    match j.spec_get("items"@) {
        Some(JsonValue::Arr(items)) => if forall|i: int|
            0 <= i < items@.len() ==> track_of(#[trigger] items@[i]) is Some {
            Some(Seq::new(items@.len(), |i: int| track_of(items@[i]).unwrap()))
        } else {
            None
        },
        _ => None,
    }
}

/// The page summary a list body yields, when present with both counters
/// as integers in range; optional in the tolerant way.
pub open spec fn page_info_of(j: JsonValue) -> Option<(u32, u32)> {
    match j.spec_get("pageInfo"@) {
        Some(p) => match (p.spec_get("totalResults"@), p.spec_get("resultsPerPage"@)) {
            (Some(JsonValue::Int(t)), Some(JsonValue::Int(rp))) => if 0 <= t <= u32::MAX && 0 <= rp
                <= u32::MAX {
                Some(((t as u32), (rp as u32)))
            } else {
                None
            },
            _ => None,
        },
        _ => None,
    }
}

/// The canonical id/name pair one playlist entry yields: its required
/// `id` and its snippet's required `title`.
pub open spec fn playlist_of(j: JsonValue) -> Option<(Seq<char>, Seq<char>)> {
    match (j.spec_get("id"@), j.spec_get("snippet"@)) {
        (Some(JsonValue::Str(id)), Some(s)) => match s.spec_get("title"@) {
            Some(JsonValue::Str(t)) => Some((id@, t@)),
            _ => None,
        },
        _ => None,
    }
}

/// The canonical playlist sequence a playlist-listing body yields,
/// fail-closed over its entries.
pub open spec fn playlists_of(j: JsonValue) -> Option<Seq<(Seq<char>, Seq<char>)>> {
    match j.spec_get("items"@) {
        Some(JsonValue::Arr(items)) => if forall|i: int|
            0 <= i < items@.len() ==> playlist_of(#[trigger] items@[i]) is Some {
            Some(Seq::new(items@.len(), |i: int| playlist_of(items@[i]).unwrap()))
        } else {
            None
        },
        _ => None,
    }
}

impl PageInfo {
    /// Reads the optional page summary; a missing or misshapen one is
    /// `None`, never a failure.
    pub fn from_json(j: &JsonValue) -> (r: Option<PageInfo>)
        ensures
            r.deep_view() == page_info_of(*j),
    {
        match j.get("pageInfo") {
            Some(p) => {
                let total = match p.get("totalResults") {
                    Some(JsonValue::Int(n)) => *n,
                    _ => {
                        return None;
                    },
                };
                let per_page = match p.get("resultsPerPage") {
                    Some(JsonValue::Int(n)) => *n,
                    _ => {
                        return None;
                    },
                };
                if 0 <= total && total <= u32::MAX as i64 && 0 <= per_page && per_page
                    <= u32::MAX as i64 {
                    Some(PageInfo { totalResults: total as u32, resultsPerPage: per_page as u32 })
                } else {
                    None
                }
            },
            None => None,
        }
    }
}

impl Snippet {
    /// Reads one item snippet: the title is required, the owning channel
    /// kept when present as a string.
    pub fn from_json(j: &JsonValue) -> (r: Result<Snippet, ProviderError>)
        ensures
            match r {
                Ok(s) => snippet_of(*j) == Some(s.deep_view()),
                Err(e) => snippet_of(*j) is None && e == ProviderError::MalformedResponse,
            },
    {
        let title = match j.get("title") {
            Some(JsonValue::Str(s)) => s.clone(),
            _ => {
                return Err(ProviderError::MalformedResponse);
            },
        };
        let owner = match j.get("videoOwnerChannelTitle") {
            Some(JsonValue::Str(s)) => Some(s.clone()),
            _ => None,
        };
        Ok(Snippet { title, videoOwnerChannelTitle: owner })
    }
}

impl PlaylistItem {
    /// Reads one playlist-items entry through its required `snippet`.
    pub fn from_json(j: &JsonValue) -> (r: Result<PlaylistItem, ProviderError>)
        ensures
            match r {
                Ok(it) => track_of(*j) == Some(it.deep_view()),
                Err(e) => track_of(*j) is None && e == ProviderError::MalformedResponse,
            },
    {
        match j.get("snippet") {
            Some(s) => match Snippet::from_json(s) {
                Ok(snippet) => Ok(PlaylistItem { snippet }),
                Err(e) => Err(e),
            },
            None => Err(ProviderError::MalformedResponse),
        }
    }
}

impl PlaylistItemListResponse {
    /// Reads a whole playlist-items body, fail-closed over its entries.
    pub fn from_json(j: &JsonValue) -> (r: Result<PlaylistItemListResponse, ProviderError>)
        ensures
            match r {
                Ok(p) => {
                    &&& tracks_of(*j) == Some(p.deep_view())
                    &&& p.pageInfo.deep_view() == page_info_of(*j)
                },
                Err(e) => tracks_of(*j) is None && e == ProviderError::MalformedResponse,
            },
    {
        let entries = match j.get("items") {
            Some(JsonValue::Arr(a)) => a,
            _ => {
                return Err(ProviderError::MalformedResponse);
            },
        };
        let mut items: Vec<PlaylistItem> = Vec::new();
        let mut i: usize = 0;
        while i < entries.len()
            invariant
                0 <= i <= entries@.len(),
                items@.len() == i,
                j.spec_get("items"@) matches Some(v) && v == JsonValue::Arr(*entries),
                forall|k: int|
                    0 <= k < i ==> track_of(#[trigger] entries@[k]) == Some(items.deep_view()[k]),
            decreases entries@.len() - i,
        {
            match PlaylistItem::from_json(&entries[i]) {
                Ok(it) => items.push(it),
                Err(e) => {
                    assert(track_of(entries@[i as int]) is None);
                    assert(tracks_of(*j) is None);
                    return Err(e);
                },
            }
            i = i + 1;
        }
        proof {
            assert(items.deep_view() =~= Seq::new(
                entries@.len(),
                |k: int| track_of(entries@[k]).unwrap(),
            ));
        }
        let page_info = PageInfo::from_json(j);
        Ok(PlaylistItemListResponse { items, pageInfo: page_info })
    }
}

impl Playlist {
    /// Reads one playlist entry of the listing.
    pub fn from_json(j: &JsonValue) -> (r: Result<Playlist, ProviderError>)
        ensures
            match r {
                Ok(p) => playlist_of(*j) == Some(p.deep_view()),
                Err(e) => playlist_of(*j) is None && e == ProviderError::MalformedResponse,
            },
    {
        let id = match j.get("id") {
            Some(JsonValue::Str(s)) => s.clone(),
            _ => {
                return Err(ProviderError::MalformedResponse);
            },
        };
        let snippet = match j.get("snippet") {
            Some(s) => s,
            None => {
                return Err(ProviderError::MalformedResponse);
            },
        };
        match snippet.get("title") {
            Some(JsonValue::Str(t)) => Ok(
                Playlist { id, snippet: PlaylistSnippet { title: t.clone() } },
            ),
            _ => Err(ProviderError::MalformedResponse),
        }
    }
}

impl PlaylistListResponse {
    /// Reads a whole playlist-listing body, fail-closed over its entries.
    pub fn from_json(j: &JsonValue) -> (r: Result<PlaylistListResponse, ProviderError>)
        ensures
            match r {
                Ok(p) => {
                    &&& playlists_of(*j) == Some(p.deep_view())
                    &&& p.pageInfo.deep_view() == page_info_of(*j)
                },
                Err(e) => playlists_of(*j) is None && e == ProviderError::MalformedResponse,
            },
    {
        let entries = match j.get("items") {
            Some(JsonValue::Arr(a)) => a,
            _ => {
                return Err(ProviderError::MalformedResponse);
            },
        };
        let mut items: Vec<Playlist> = Vec::new();
        let mut i: usize = 0;
        while i < entries.len()
            invariant
                0 <= i <= entries@.len(),
                items@.len() == i,
                j.spec_get("items"@) matches Some(v) && v == JsonValue::Arr(*entries),
                forall|k: int|
                    0 <= k < i ==> playlist_of(#[trigger] entries@[k]) == Some(
                        items.deep_view()[k],
                    ),
            decreases entries@.len() - i,
        {
            match Playlist::from_json(&entries[i]) {
                Ok(p) => items.push(p),
                Err(e) => {
                    assert(playlist_of(entries@[i as int]) is None);
                    assert(playlists_of(*j) is None);
                    return Err(e);
                },
            }
            i = i + 1;
        }
        proof {
            assert(items.deep_view() =~= Seq::new(
                entries@.len(),
                |k: int| playlist_of(entries@[k]).unwrap(),
            ));
        }
        let page_info = PageInfo::from_json(j);
        Ok(PlaylistListResponse { items, pageInfo: page_info })
    }
}

/// What a playlist-items HTTP reply means, with the shared taxonomy.
pub open spec fn tracks_reply_of(status: u16, body: Seq<char>) -> Result<
    Seq<(Seq<char>, Seq<Seq<char>>)>,
    ProviderError,
> {
    if status == 401 || status == 403 {
        Err(ProviderError::Unauthorized)
    } else if status == 404 {
        Err(ProviderError::NotFound)
    } else if status != 200 {
        Err(ProviderError::MalformedResponse)
    } else {
        match json_of(body) {
            Some(j) => match tracks_of(j) {
                Some(ts) => Ok(ts),
                None => Err(ProviderError::MalformedResponse),
            },
            None => Err(ProviderError::MalformedResponse),
        }
    }
}

/// What a playlist-listing HTTP reply means, with the shared taxonomy.
pub open spec fn playlists_reply_of(status: u16, body: Seq<char>) -> Result<
    Seq<(Seq<char>, Seq<char>)>,
    ProviderError,
> {
    if status == 401 || status == 403 {
        Err(ProviderError::Unauthorized)
    } else if status == 404 {
        Err(ProviderError::NotFound)
    } else if status != 200 {
        Err(ProviderError::MalformedResponse)
    } else {
        match json_of(body) {
            Some(j) => match playlists_of(j) {
                Some(ps) => Ok(ps),
                None => Err(ProviderError::MalformedResponse),
            },
            None => Err(ProviderError::MalformedResponse),
        }
    }
}

/// The YouTube client. It keeps no state: the API key is a query
/// parameter supplied per call, not a cached token.
#[derive(Debug)]
pub struct YouTubeWebInterface;

impl YouTubeWebInterface {
    pub fn new() -> (r: Self) {
        YouTubeWebInterface
    }

    /// The query of the playlist-items call: the API key, the playlist,
    /// and the snippet part the normalizer consumes.
    pub fn playlist_tracks_params(api_key: &str, playlist_id: &str) -> (r: Vec<(String, String)>)
        ensures
            r@.len() == 3,
            r@[0].0@ == "key"@ && r@[0].1@ == api_key@,
            r@[1].0@ == "playlistId"@ && r@[1].1@ == playlist_id@,
            r@[2].0@ == "part"@ && r@[2].1@ == "snippet"@,
    {
        vec![
            (String::from_str("key"), api_key.to_owned()),
            (String::from_str("playlistId"), playlist_id.to_owned()),
            (String::from_str("part"), String::from_str("snippet")),
        ]
    }

    /// The query of the playlist-listing call for one channel.
    pub fn playlists_params(api_key: &str, user_id: &str) -> (r: Vec<(String, String)>)
        ensures
            r@.len() == 3,
            r@[0].0@ == "key"@ && r@[0].1@ == api_key@,
            r@[1].0@ == "channelId"@ && r@[1].1@ == user_id@,
            r@[2].0@ == "part"@ && r@[2].1@ == "snippet"@,
    {
        vec![
            (String::from_str("key"), api_key.to_owned()),
            (String::from_str("channelId"), user_id.to_owned()),
            (String::from_str("part"), String::from_str("snippet")),
        ]
    }

    /// Turns a parsed playlist-items body into the canonical pairs.
    pub fn normalize_tracks(p: &PlaylistItemListResponse) -> (r: Vec<(String, Vec<String>)>)
        ensures
            r.deep_view() == p.deep_view(),
    {
        let mut out: Vec<(String, Vec<String>)> = Vec::new();
        let mut i: usize = 0;
        while i < p.items.len()
            invariant
                0 <= i <= p.items@.len(),
                out@.len() == i,
                forall|k: int| 0 <= k < i ==> out.deep_view()[k] == #[trigger] p.deep_view()[k],
            decreases p.items@.len() - i,
        {
            let snippet = &p.items[i].snippet;
            let artists: Vec<String> = match &snippet.videoOwnerChannelTitle {
                Some(owner) => vec![owner.clone()],
                None => Vec::new(),
            };
            out.push((snippet.title.clone(), artists));
            i = i + 1;
        }
        proof {
            assert(out.deep_view() =~= p.deep_view());
        }
        out
    }

    /// Turns a parsed playlist-listing body into the canonical pairs.
    pub fn normalize_playlists(p: &PlaylistListResponse) -> (r: Vec<(String, String)>)
        ensures
            r.deep_view() == p.deep_view(),
    {
        let mut out: Vec<(String, String)> = Vec::new();
        let mut i: usize = 0;
        while i < p.items.len()
            invariant
                0 <= i <= p.items@.len(),
                out@.len() == i,
                forall|k: int| 0 <= k < i ==> out.deep_view()[k] == #[trigger] p.deep_view()[k],
            decreases p.items@.len() - i,
        {
            let item = &p.items[i];
            out.push((item.id.clone(), item.snippet.title.clone()));
            i = i + 1;
        }
        proof {
            assert(out.deep_view() =~= p.deep_view());
        }
        out
    }

    /// Reads a playlist-items HTTP reply, exactly as `tracks_reply_of`
    /// states it.
    pub fn read_playlist_tracks_reply(status: u16, body: &str) -> (r: Result<
        Vec<(String, Vec<String>)>,
        ProviderError,
    >)
        ensures
            match r {
                Ok(v) => tracks_reply_of(status, body@) matches Ok(m) && m == v.deep_view(),
                Err(e) => tracks_reply_of(status, body@) matches Err(m) && m == e,
            },
    {
        if status == 401 || status == 403 {
            return Err(ProviderError::Unauthorized);
        }
        if status == 404 {
            return Err(ProviderError::NotFound);
        }
        if status != 200 {
            return Err(ProviderError::MalformedResponse);
        }
        match parse_json(body) {
            None => Err(ProviderError::MalformedResponse),
            Some(j) => match PlaylistItemListResponse::from_json(&j) {
                Ok(p) => Ok(Self::normalize_tracks(&p)),
                Err(e) => Err(e),
            },
        }
    }

    /// Reads a playlist-listing HTTP reply, exactly as
    /// `playlists_reply_of` states it.
    pub fn read_playlists_reply(status: u16, body: &str) -> (r: Result<
        Vec<(String, String)>,
        ProviderError,
    >)
        ensures
            match r {
                Ok(v) => playlists_reply_of(status, body@) matches Ok(m) && m == v.deep_view(),
                Err(e) => playlists_reply_of(status, body@) matches Err(m) && m == e,
            },
    {
        if status == 401 || status == 403 {
            return Err(ProviderError::Unauthorized);
        }
        if status == 404 {
            return Err(ProviderError::NotFound);
        }
        if status != 200 {
            return Err(ProviderError::MalformedResponse);
        }
        match parse_json(body) {
            None => Err(ProviderError::MalformedResponse),
            Some(j) => match PlaylistListResponse::from_json(&j) {
                Ok(p) => Ok(Self::normalize_playlists(&p)),
                Err(e) => Err(e),
            },
        }
    }

    /// This provider implements no search; the probe reports a hit
    /// unconditionally, and a caller must not read the answer as a match.
    pub fn find_track(_song: &str, _artists: &Vec<String>) -> (r: Result<bool, ProviderError>)
        ensures
            r == Ok::<bool, ProviderError>(true),
    {
        Ok(true)
    }
}

/// Malformed response isolation for this provider: one playlist-items
/// entry whose snippet lacks the required title fails the whole body.
pub proof fn lemma_missing_title_fails(j: JsonValue, entries: Seq<JsonValue>, k: int)
    requires
        j.spec_get("items"@) matches Some(JsonValue::Arr(ev)) && ev@ == entries,
        0 <= k < entries.len(),
        entries[k].spec_get("snippet"@) matches Some(s) && !(s.spec_get("title"@) matches Some(
            JsonValue::Str(_),
        )),
    ensures
        tracks_of(j) is None,
{
    assert(track_of(entries[k]) is None);
}

} // verus!
