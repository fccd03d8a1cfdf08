use muswitch::auth::Credential;
use muswitch::auth::TokenStep;
use muswitch::canon::ProviderError;
use muswitch::json::JsonValue;
use muswitch::spotify::Artist;
use muswitch::spotify::Item;
use muswitch::spotify::Playlist;
use muswitch::spotify::Playlists;
use muswitch::spotify::Search;
use muswitch::spotify::SpotifyWebInterface;
use muswitch::spotify::Track;

fn json_str(value: &str) -> JsonValue {
    JsonValue::Str(String::from(value))
}

fn json_obj(fields: Vec<(&str, JsonValue)>) -> JsonValue {
    JsonValue::Obj(
        fields
            .into_iter()
            .map(|(name, value)| (String::from(name), value))
            .collect(),
    )
}

// A playlist-tracks body with three entries: two tracks with two artists
// each, one with none.
const TRACKS_BODY: &str = "{\"items\":[\
{\"track\":{\"name\":\"Ramaya\",\"artists\":[{\"name\":\"Afric Simone\"},{\"name\":\"Backing Band\"}]}},\
{\"track\":{\"name\":\"Hafanana\",\"artists\":[{\"name\":\"Afric Simone\"},{\"name\":\"Studio Choir\"}]}},\
{\"track\":{\"name\":\"Instrumental\",\"artists\":[]}}\
]}";

#[test]
fn normalization_keeps_every_item_and_artist_order() {
    let got = SpotifyWebInterface::read_playlist_tracks_reply(200, TRACKS_BODY).unwrap();
    assert_eq!(got.len(), 3);
    assert_eq!(
        got[0],
        (
            String::from("Ramaya"),
            vec![String::from("Afric Simone"), String::from("Backing Band")]
        )
    );
    assert_eq!(
        got[1],
        (
            String::from("Hafanana"),
            vec![String::from("Afric Simone"), String::from("Studio Choir")]
        )
    );
    assert_eq!(got[2], (String::from("Instrumental"), Vec::<String>::new()));
}

#[test]
fn missing_track_name_fails_the_whole_reply() {
    // Fail-closed: one bad entry gives MalformedResponse for the call, not
    // a partial result that drops the entry.
    let body = "{\"items\":[\
{\"track\":{\"name\":\"Ramaya\",\"artists\":[]}},\
{\"track\":{\"artists\":[{\"name\":\"Afric Simone\"}]}}\
]}";
    let got = SpotifyWebInterface::read_playlist_tracks_reply(200, body);
    assert_eq!(got, Err(ProviderError::MalformedResponse));
}

#[test]
fn missing_artist_name_fails_the_whole_reply() {
    let body = "{\"items\":[{\"track\":{\"name\":\"Ramaya\",\"artists\":[{}]}}]}";
    let got = SpotifyWebInterface::read_playlist_tracks_reply(200, body);
    assert_eq!(got, Err(ProviderError::MalformedResponse));
}

#[test]
fn playlists_normalize_to_id_name_pairs() {
    let body = "{\"items\":[{\"id\":\"abc123\",\"name\":\"Road Trip\",\"owner\":{\"display_name\":\"Ale\",\"id\":\"user-1\"}}]}";
    let got = SpotifyWebInterface::read_playlists_reply(200, body).unwrap();
    assert_eq!(got, vec![(String::from("abc123"), String::from("Road Trip"))]);
}

#[test]
fn unauthorized_statuses_map_to_unauthorized() {
    assert_eq!(
        SpotifyWebInterface::read_playlist_tracks_reply(401, "{}"),
        Err(ProviderError::Unauthorized)
    );
    assert_eq!(
        SpotifyWebInterface::read_playlists_reply(403, "{}"),
        Err(ProviderError::Unauthorized)
    );
}

#[test]
fn missing_resource_maps_to_not_found() {
    assert_eq!(
        SpotifyWebInterface::read_playlist_tracks_reply(404, "{}"),
        Err(ProviderError::NotFound)
    );
}

#[test]
fn other_error_statuses_and_bad_bodies_are_malformed() {
    assert_eq!(
        SpotifyWebInterface::read_playlist_tracks_reply(500, "{}"),
        Err(ProviderError::MalformedResponse)
    );
    assert_eq!(
        SpotifyWebInterface::read_playlist_tracks_reply(200, "no json here"),
        Err(ProviderError::MalformedResponse)
    );
    assert_eq!(
        SpotifyWebInterface::read_playlist_tracks_reply(200, "{\"unrelated\":1}"),
        Err(ProviderError::MalformedResponse)
    );
}

#[test]
fn search_reports_presence_not_matches() {
    let hit = "{\"tracks\":{\"items\":[{\"name\":\"Ramaya\"}]}}";
    let miss = "{\"tracks\":{\"items\":[]}}";
    assert_eq!(SpotifyWebInterface::read_search_reply(200, hit), Ok(true));
    assert_eq!(SpotifyWebInterface::read_search_reply(200, miss), Ok(false));
    assert_eq!(
        SpotifyWebInterface::read_search_reply(200, "{}"),
        Err(ProviderError::MalformedResponse)
    );
}

#[test]
fn search_params_join_title_and_artists_as_free_text() {
    let artists = vec![String::from("Afric Simone"), String::from("Boney M.")];
    let params = SpotifyWebInterface::search_params("Ramaya", &artists);
    assert_eq!(params.len(), 2);
    assert_eq!(params[0], (String::from("q"), String::from("Ramaya Afric Simone, Boney M.")));
    assert_eq!(params[1], (String::from("type"), String::from("track")));
}

#[test]
fn search_params_with_few_artists_keep_the_free_text_shape() {
    // No artists: the query is the title, a space, and an empty join.
    let params = SpotifyWebInterface::search_params("Solo", &Vec::new());
    assert_eq!(params[0], (String::from("q"), String::from("Solo ")));
    // One artist: no separator appears.
    let params = SpotifyWebInterface::search_params("Solo", &vec![String::from("A")]);
    assert_eq!(params[0], (String::from("q"), String::from("Solo A")));
}

#[test]
fn unauthorized_reply_forces_a_refresh_on_the_next_call() {
    // A content call comes back 401: the reply maps to Unauthorized, the
    // I/O half invalidates the cache, and the next get_token must take
    // the Refresh arm even though the token's lifetime had not elapsed.
    let mut client = SpotifyWebInterface::new(Credential {
        client_id: String::from("id"),
        client_secret: String::from("sec"),
    });
    let body = "{\"access_token\":\"rejected-later\",\"expires_in\":3600}";
    client.auth.apply_refresh_response(100, 200, body).unwrap();
    assert_eq!(
        SpotifyWebInterface::read_playlist_tracks_reply(401, "{}"),
        Err(ProviderError::Unauthorized)
    );
    client.auth.invalidate();
    match client.get_token_step(101) {
        TokenStep::Refresh(_) => {}
        TokenStep::Cached(bearer) => panic!("stale token {bearer} served after rejection"),
    }
}

#[test]
fn endpoint_urls_embed_the_path_parameter() {
    assert_eq!(
        SpotifyWebInterface::playlist_tracks_url("pl-9"),
        "https://api.spotify.com/v1/playlists/pl-9/tracks"
    );
    assert_eq!(
        SpotifyWebInterface::playlists_url("user-1"),
        "https://api.spotify.com/v1/users/user-1/playlists"
    );
}

#[test]
fn track_lines_render_artists_pipe_joined_then_name() {
    let playlist = Playlist {
        items: vec![
            Item {
                track: Track {
                    name: String::from("Ramaya"),
                    artists: vec![
                        Artist { name: String::from("Afric Simone") },
                        Artist { name: String::from("Backing Band") },
                    ],
                },
            },
            Item {
                track: Track { name: String::from("Instrumental"), artists: Vec::new() },
            },
        ],
    };
    let lines = SpotifyWebInterface::playlist_track_lines(&playlist);
    assert_eq!(
        lines,
        vec![
            String::from("Afric Simone|Backing Band:Ramaya"),
            String::from(":Instrumental"),
        ]
    );
}

#[test]
fn playlist_entry_decoration_is_optional() {
    let with = json_obj(vec![(
        "items",
        JsonValue::Arr(vec![json_obj(vec![
            ("id", json_str("a")),
            ("name", json_str("n")),
            (
                "owner",
                json_obj(vec![("display_name", json_str("Ale")), ("id", json_str("u"))]),
            ),
            (
                "external_urls",
                json_obj(vec![("spotify", json_str("https://open.spotify.com/playlist/a"))]),
            ),
        ])]),
    )]);
    let parsed = Playlists::from_json(&with).unwrap();
    let owner = parsed.items[0].owner.as_ref().unwrap();
    assert_eq!(owner.display_name, "Ale");
    assert_eq!(owner.id, "u");
    assert_eq!(
        parsed.items[0].external_urls.as_ref().unwrap().spotify,
        "https://open.spotify.com/playlist/a"
    );

    let without = json_obj(vec![(
        "items",
        JsonValue::Arr(vec![json_obj(vec![("id", json_str("a")), ("name", json_str("n"))])]),
    )]);
    let parsed = Playlists::from_json(&without).unwrap();
    assert!(parsed.items[0].owner.is_none());
    assert!(parsed.items[0].external_urls.is_none());
}

#[test]
fn search_body_parses_into_hit_names() {
    let j = json_obj(vec![(
        "tracks",
        json_obj(vec![(
            "items",
            JsonValue::Arr(vec![
                json_obj(vec![("name", json_str("A"))]),
                json_obj(vec![("name", json_str("B"))]),
            ]),
        )]),
    )]);
    let s = Search::from_json(&j).unwrap();
    assert_eq!(s.tracks.items.len(), 2);
    assert_eq!(s.tracks.items[0].name, "A");
    assert_eq!(s.tracks.items[1].name, "B");
}

#[test]
fn token_step_refreshes_once_then_serves_from_cache() {
    let mut client = SpotifyWebInterface::new(Credential {
        client_id: String::from("id-123"),
        client_secret: String::from("hush-456"),
    });
    let params = match client.get_token_step(50) {
        TokenStep::Refresh(params) => params,
        TokenStep::Cached(bearer) => panic!("empty cache served {bearer}"),
    };
    assert_eq!(params[0], (String::from("grant_type"), String::from("client_credentials")));
    assert_eq!(params[1], (String::from("client_id"), String::from("id-123")));
    assert_eq!(params[2], (String::from("client_secret"), String::from("hush-456")));

    let body = "{\"access_token\":\"bearer-1\",\"expires_in\":60}";
    client.auth.apply_refresh_response(50, 200, body).unwrap();
    match client.get_token_step(109) {
        TokenStep::Cached(bearer) => assert_eq!(bearer, "bearer-1"),
        TokenStep::Refresh(_) => panic!("live token not served"),
    }
    match client.get_token_step(110) {
        TokenStep::Refresh(_) => {}
        TokenStep::Cached(bearer) => panic!("stale token {bearer} served"),
    }
}

#[test]
fn json_values_built_by_hand_normalize_the_same_way() {
    // The same document, built without the parser, goes through the same
    // normalizer: {"items":[{"track":{"name":"X","artists":[]}}]}
    let track = JsonValue::Obj(vec![
        (String::from("name"), JsonValue::Str(String::from("X"))),
        (String::from("artists"), JsonValue::Arr(Vec::new())),
    ]);
    let item = JsonValue::Obj(vec![(String::from("track"), track)]);
    let body = JsonValue::Obj(vec![(String::from("items"), JsonValue::Arr(vec![item]))]);
    let playlist = Playlist::from_json(&body).unwrap();
    let got = SpotifyWebInterface::normalize_tracks(&playlist);
    assert_eq!(got, vec![(String::from("X"), Vec::<String>::new())]);
}

#[test]
fn new_client_starts_with_an_empty_cache() {
    let client = SpotifyWebInterface::new(Credential {
        client_id: String::from("id"),
        client_secret: String::from("sec"),
    });
    assert!(client.auth.get_cached(0).is_none());
    assert_eq!(client.credential.client_id, "id");
}
