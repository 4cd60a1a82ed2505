//! Music server adapters: the song entries they list, their configuration,
//! the URLs they stream from, and the pool that routes a song to the server
//! it came from.

use vstd::prelude::*;
use base64::Engine;
use lofty::file::{FileType, TaggedFileExt};
use lofty::probe::Probe;
use vstd::utf8::{decode_utf8, encode_utf8, valid_utf8};
use crate::text::{lowercase, push_char, str_eq, to_lowercase, trim_end_char, trim_end_matches};

verus! {

/// A song as listed by a server.
#[derive(Debug)]
pub struct MusicEntry {
    /// Path on the server (file-transfer, local) or song id (Subsonic).
    pub absolute_path: String,
    pub name: String,
    pub artist: String,
    /// Duration in milliseconds.
    pub duration: u64,
    /// Album name (populated by servers that support grouping).
    pub album: String,
    /// Which server this entry came from (set by the server pool).
    pub server_id: String,
}

impl Clone for MusicEntry {
    fn clone(&self) -> (r: Self)
        ensures
            r == *self,
    {
        MusicEntry {
            absolute_path: self.absolute_path.clone(),
            name: self.name.clone(),
            artist: self.artist.clone(),
            duration: self.duration,
            album: self.album.clone(),
            server_id: self.server_id.clone(),
        }
    }
}


pub open spec fn opt_string_model(o: Option<String>) -> Option<Seq<char>> {
    match o {
        Some(s) => Some(s@),
        None => None,
    }
}

// ───────────────────────── URL encoding ─────────────────────────

/// Bytes kept as they are in a URL component (RFC 3986 unreserved).
pub open spec fn is_unreserved(b: u8) -> bool {
    ||| (0x41 <= b && b <= 0x5A)
    ||| (0x61 <= b && b <= 0x7A)
    ||| (0x30 <= b && b <= 0x39)
    ||| b == 0x2D
    ||| b == 0x5F
    ||| b == 0x2E
    ||| b == 0x7E
}

/// Upper-case hexadecimal digit of a value below 16.
pub open spec fn hex_digit(n: u8) -> char {
    if n < 10 {
        (0x30 + n) as char
    } else {
        (0x41 + n - 10) as char
    }
}

/// A byte as it appears in a URL component: itself when unreserved,
/// `%XX` (upper-case hex) otherwise.
pub open spec fn encode_byte(b: u8) -> Seq<char> {
    if is_unreserved(b) {
        seq![b as char]
    } else {
        seq!['%', hex_digit(b / 16), hex_digit(b % 16)]
    }
}

/// A byte as it appears in an encoded path: `/` separators are kept, every
/// other byte is encoded as in a component.
pub open spec fn encode_path_byte(b: u8) -> Seq<char> {
    if b == 0x2F {
        seq!['/']
    } else {
        encode_byte(b)
    }
}

/// Percent-encoding of a byte string, byte by byte.
pub open spec fn encode_bytes(bs: Seq<u8>, path: bool) -> Seq<char>
    decreases bs.len(),
{
    if bs.len() == 0 {
        seq![]
    } else {
        encode_bytes(bs.drop_last(), path) + if path {
            encode_path_byte(bs.last())
        } else {
            encode_byte(bs.last())
        }
    }
}

fn hex_char(n: u8) -> (c: char)
    requires
        n < 16,
    ensures
        c == hex_digit(n),
{
    if n < 10 {
        (0x30 + n) as char
    } else {
        (0x41 + n - 10) as char
    }
}

fn encode_utf8_bytes(s: &str, path: bool) -> (r: String)
    ensures
        r@ == encode_bytes(encode_utf8(s@), path),
{
    let bytes = s.as_bytes_vec();
    let mut out = String::new();
    let mut k: usize = 0;
    while k < bytes.len()
        invariant
            k <= bytes.len(),
            bytes@ == encode_utf8(s@),
            out@ == encode_bytes(bytes@.take(k as int), path),
        decreases bytes.len() - k,
    {
        let b = bytes[k];
        let ghost before = out@;
        if path && b == 0x2F {
            push_char(&mut out, '/');
        } else if (0x41 <= b && b <= 0x5A) || (0x61 <= b && b <= 0x7A) || (0x30 <= b && b <= 0x39)
            || b == 0x2D || b == 0x5F || b == 0x2E || b == 0x7E {
            push_char(&mut out, b as char);
        } else {
            push_char(&mut out, '%');
            push_char(&mut out, hex_char(b / 16));
            push_char(&mut out, hex_char(b % 16));
        }
        proof {
            assert(bytes@.take(k + 1).drop_last() =~= bytes@.take(k as int));
            assert(bytes@.take(k + 1).last() == b);
            let e = if path {
                encode_path_byte(b)
            } else {
                encode_byte(b)
            };
            assert(out@ =~= before + e);
        }
        k = k + 1;
    }
    proof {
        assert(bytes@.take(k as int) =~= bytes@);
    }
    out
}

/// Percent-encode a URL component, keeping unreserved characters.
pub fn encode_url_component(s: &str) -> (r: String)
    ensures
        r@ == encode_bytes(encode_utf8(s@), false),
{
    encode_utf8_bytes(s, false)
}

/// Percent-encode a path: each `/`-separated segment is encoded as a
/// component and the separators are kept.
pub fn encode_url_path(path: &str) -> (r: String)
    ensures
        r@ == encode_bytes(encode_utf8(path@), true),
{
    encode_utf8_bytes(path, true)
}

// ───────────────────────── configuration ─────────────────────────

/// The song list a file-transfer server answers with.
#[derive(Debug)]
pub struct MusicListResponse {
    pub children: Vec<MusicEntry>,
}

/// Configuration of one server, as stored on disk.
#[derive(Debug)]
pub struct ServerConfig {
    /// Unique identifier (also used as display label).
    pub name: String,
    pub server_url: String,
    /// Server type identifier (e.g. "file-transfer", "navidrome").
    pub server_type: String,
    pub username: String,
    pub password: String,
    /// Whether this server is temporarily disabled (not polled for music
    /// lists or search, but its songs still play).
    pub disabled: bool,
}

impl Clone for ServerConfig {
    fn clone(&self) -> (r: Self)
        ensures
            r == *self,
    {
        ServerConfig {
            name: self.name.clone(),
            server_url: self.server_url.clone(),
            server_type: self.server_type.clone(),
            username: self.username.clone(),
            password: self.password.clone(),
            disabled: self.disabled,
        }
    }
}

impl Default for ServerConfig {
    fn default() -> (r: Self)
        ensures
            r.name@ == Seq::<char>::empty(),
            r.server_url@ == Seq::<char>::empty(),
            r.server_type@ == "file-transfer"@,
            r.username@ == Seq::<char>::empty(),
            r.password@ == Seq::<char>::empty(),
            !r.disabled,
    {
        ServerConfig {
            name: String::new(),
            server_url: String::new(),
            server_type: String::from_str("file-transfer"),
            username: String::new(),
            password: String::new(),
            disabled: false,
        }
    }
}

/// What optional capabilities a server supports.
#[derive(Debug, Clone, Copy, PartialEq, Eq, Structural)]
pub struct ServerFeatures {
    pub search: bool,
    pub cover_art: bool,
}

impl Default for ServerFeatures {
    fn default() -> (r: Self)
        ensures
            !r.search && !r.cover_art,
    {
        ServerFeatures { search: false, cover_art: false }
    }
}

// ───────────────────────── adapters ─────────────────────────

/// What a music server backend offers: its name and base URL, its optional
/// features, and the URLs of a song's audio and cover. (Listing, search,
/// downloads and lyrics go over the network and are the program's part.)
pub trait MusicServer {
    /// Human-readable server type name.
    fn name(&self) -> &str;

    /// Base URL (or root folder) of the server.
    fn base_url(&self) -> &str;

    /// The optional features the server supports.
    fn features(&self) -> ServerFeatures;

    /// A playable / streamable URL for the song.
    fn stream_url(&self, music: &MusicEntry) -> String;

    /// The URL of the song's cover art, where the server has one.
    fn cover_url(&self, music: &MusicEntry) -> Option<String>;
}

/// Adapter for the 文件闪传 (fast file transfer) app server:
/// `GET {base}/musicsV2` lists songs, `GET {base}/file?path=...` streams one.
#[derive(Debug)]
pub struct FileTransferServer {
    base_url: String,
}

impl FileTransferServer {
    pub closed spec fn spec_base_url(&self) -> Seq<char> {
        self.base_url@
    }

    pub fn new(base_url: &str) -> (r: Self)
        ensures
            r.spec_base_url() == base_url@,
    {
        FileTransferServer { base_url: String::from_str(base_url) }
    }

    /// The URL of the song list.
    pub fn list_url(&self) -> (r: String)
        ensures
            r@ == self.spec_base_url() + "/musicsV2"@,
    {
        let mut u = self.base_url.clone();
        u.append("/musicsV2");
        u
    }

}

impl MusicServer for FileTransferServer {
    fn name(&self) -> (r: &str)
        ensures
            r@ == "文件闪传"@,
    {
        "文件闪传"
    }

    fn base_url(&self) -> (r: &str)
        ensures
            r@ == self.spec_base_url(),
    {
        self.base_url.as_str()
    }

    /// No search and no cover art.
    fn features(&self) -> (r: ServerFeatures)
        ensures
            !r.search && !r.cover_art,
    {
        ServerFeatures::default()
    }

    /// `{base}/file?path={encoded path}`.
    fn stream_url(&self, music: &MusicEntry) -> (r: String)
        ensures
            r@ == self.spec_base_url() + "/file?path="@ + encode_bytes(
                encode_utf8(music.absolute_path@),
                true,
            ),
    {
        let enc = encode_url_path(music.absolute_path.as_str());
        let mut u = self.base_url.clone();
        u.append("/file?path=");
        u.append(enc.as_str());
        u
    }

    /// The app serves no cover URL (covers are read from the audio's tags).
    fn cover_url(&self, music: &MusicEntry) -> (r: Option<String>)
        ensures
            r is None,
    {
        None
    }
}


/// Navidrome / Subsonic API adapter (Navidrome, Airsonic, Gonic, ...).
///
/// Endpoints: `getAlbumList2` (albums), `getAlbum` (songs of an album),
/// `stream` (audio by song id), `search3`, `getCoverArt`, `getLyrics`.
#[derive(Debug)]
pub struct SubsonicServer {
    base_url: String,
    username: String,
    password: String,
}

/// The query string that authenticates every Subsonic request.
pub open spec fn subsonic_auth(user: Seq<char>, pass: Seq<char>) -> Seq<char> {
    "u="@ + user + "&p="@ + pass + "&v=1.16.0&c=tune&f=json"@
}

impl SubsonicServer {
    pub closed spec fn spec_base_url(&self) -> Seq<char> {
        self.base_url@
    }

    pub closed spec fn spec_auth(&self) -> Seq<char> {
        subsonic_auth(self.username@, self.password@)
    }

    pub closed spec fn spec_username(&self) -> Seq<char> {
        self.username@
    }

    pub closed spec fn spec_password(&self) -> Seq<char> {
        self.password@
    }

    /// An adapter for `base_url` (trailing `/` removed) with the given
    /// credentials.
    pub fn new(base_url: &str, username: &str, password: &str) -> (r: Self)
        ensures
            r.spec_base_url() == trim_end_char(base_url@, '/'),
            r.spec_auth() == subsonic_auth(username@, password@),
    {
        SubsonicServer {
            base_url: String::from_str(trim_end_matches(base_url, '/')),
            username: String::from_str(username),
            password: String::from_str(password),
        }
    }

    /// `u={user}&p={password}&v=1.16.0&c=tune&f=json`.
    pub fn auth_params(&self) -> (r: String)
        ensures
            r@ == self.spec_auth(),
    {
        let mut a = String::from_str("u=");
        a.append(self.username.as_str());
        a.append("&p=");
        a.append(self.password.as_str());
        a.append("&v=1.16.0&c=tune&f=json");
        a
    }

    /// `{base}{path}{arg}&{auth}`.
    fn endpoint(&self, path: &str, arg: &str) -> (r: String)
        ensures
            r@ == self.spec_base_url() + path@ + arg@ + "&"@ + self.spec_auth(),
    {
        let mut u = self.base_url.clone();
        u.append(path);
        u.append(arg);
        u.append("&");
        let auth = self.auth_params();
        u.append(auth.as_str());
        u
    }

    /// The album list, alphabetical, up to 500 albums.
    pub fn album_list_url(&self) -> (r: String)
        ensures
            r@ == self.spec_base_url() + "/rest/getAlbumList2?type=alphabeticalByName&size=500"@
                + "&"@ + self.spec_auth(),
    {
        let r = self.endpoint("/rest/getAlbumList2?type=alphabeticalByName&size=500", "");
        proof {
            reveal_strlit("");
            assert(self.spec_base_url() + "/rest/getAlbumList2?type=alphabeticalByName&size=500"@
                + ""@ =~= self.spec_base_url()
                + "/rest/getAlbumList2?type=alphabeticalByName&size=500"@);
        }
        r
    }

    /// The songs of one album.
    pub fn album_url(&self, album_id: &str) -> (r: String)
        ensures
            r@ == self.spec_base_url() + "/rest/getAlbum?id="@ + album_id@ + "&"@
                + self.spec_auth(),
    {
        self.endpoint("/rest/getAlbum?id=", album_id)
    }

    /// Where song searches go.
    pub fn search_endpoint(&self) -> (r: String)
        ensures
            r@ == self.spec_base_url() + "/rest/search3"@,
    {
        let mut u = self.base_url.clone();
        u.append("/rest/search3");
        u
    }

    /// The query pairs of a song search, in order: the query, up to 50 songs
    /// and no artists or albums, then the credentials and API parameters.
    pub fn search_params(&self, query: &str) -> (r: Vec<(String, String)>)
        ensures
            r@.len() == 9,
            r@[0].0@ == "query"@ && r@[0].1@ == query@,
            r@[1].0@ == "songCount"@ && r@[1].1@ == "50"@,
            r@[2].0@ == "artistCount"@ && r@[2].1@ == "0"@,
            r@[3].0@ == "albumCount"@ && r@[3].1@ == "0"@,
            r@[4].0@ == "u"@ && r@[4].1@ == self.spec_username(),
            r@[5].0@ == "p"@ && r@[5].1@ == self.spec_password(),
            r@[6].0@ == "v"@ && r@[6].1@ == "1.16.0"@,
            r@[7].0@ == "c"@ && r@[7].1@ == "tune"@,
            r@[8].0@ == "f"@ && r@[8].1@ == "json"@,
    {
        let mut v: Vec<(String, String)> = Vec::new();
        v.push((String::from_str("query"), String::from_str(query)));
        v.push((String::from_str("songCount"), String::from_str("50")));
        v.push((String::from_str("artistCount"), String::from_str("0")));
        v.push((String::from_str("albumCount"), String::from_str("0")));
        v.push((String::from_str("u"), self.username.clone()));
        v.push((String::from_str("p"), self.password.clone()));
        v.push((String::from_str("v"), String::from_str("1.16.0")));
        v.push((String::from_str("c"), String::from_str("tune")));
        v.push((String::from_str("f"), String::from_str("json")));
        v
    }

    /// The server's lyrics of a song, looked up by encoded artist and title.
    pub fn lyrics_url(&self, music: &MusicEntry) -> (r: String)
        ensures
            r@ == self.spec_base_url() + "/rest/getLyrics?artist="@ + encode_bytes(
                encode_utf8(music.artist@),
                false,
            ) + "&title="@ + encode_bytes(encode_utf8(music.name@), false) + "&"@
                + self.spec_auth(),
    {
        let artist = encode_url_component(music.artist.as_str());
        let title = encode_url_component(music.name.as_str());
        let mut arg = artist;
        arg.append("&title=");
        arg.append(title.as_str());
        self.endpoint("/rest/getLyrics?artist=", arg.as_str())
    }
}

impl MusicServer for SubsonicServer {
    fn name(&self) -> (r: &str)
        ensures
            r@ == "Navidrome (Subsonic)"@,
    {
        "Navidrome (Subsonic)"
    }

    fn base_url(&self) -> (r: &str)
        ensures
            r@ == self.spec_base_url(),
    {
        self.base_url.as_str()
    }

    fn features(&self) -> (r: ServerFeatures)
        ensures
            r.search && r.cover_art,
    {
        ServerFeatures { search: true, cover_art: true }
    }

    /// `absolute_path` holds the Subsonic song id.
    fn stream_url(&self, music: &MusicEntry) -> (r: String)
        ensures
            r@ == self.spec_base_url() + "/rest/stream?id="@ + music.absolute_path@ + "&"@
                + self.spec_auth(),
    {
        self.endpoint("/rest/stream?id=", music.absolute_path.as_str())
    }

    fn cover_url(&self, music: &MusicEntry) -> (r: Option<String>)
        ensures
            opt_string_model(r) == Some(
                self.spec_base_url() + "/rest/getCoverArt?id="@ + music.absolute_path@ + "&"@
                    + self.spec_auth(),
            ),
    {
        Some(self.endpoint("/rest/getCoverArt?id=", music.absolute_path.as_str()))
    }
}

/// A song of an album: the song's own artist, or the album's when it has
/// none; the duration turns from seconds into milliseconds (64-bit wrapping).
pub fn album_song_entry(
    id: String,
    title: String,
    duration_secs: u64,
    artist: Option<String>,
    album_name: &str,
    album_artist: &str,
) -> (r: MusicEntry)
    ensures
        r.absolute_path == id,
        r.name == title,
        r.artist@ == (match artist {
            Some(a) => a@,
            None => album_artist@,
        }),
        r.album@ == album_name@,
        r.duration == vstd::wrapping::u64_specs::wrapping_mul(duration_secs, 1000),
        r.server_id@ == Seq::<char>::empty(),
{
    MusicEntry {
        absolute_path: id,
        name: title,
        artist: match artist {
            Some(a) => a,
            None => String::from_str(album_artist),
        },
        album: String::from_str(album_name),
        duration: duration_secs.wrapping_mul(1000),
        server_id: String::new(),
    }
}

/// A song found by search: missing artist or album become empty; the
/// duration turns from seconds into milliseconds (64-bit wrapping).
pub fn search_song_entry(
    id: String,
    title: String,
    duration_secs: u64,
    artist: Option<String>,
    album: Option<String>,
) -> (r: MusicEntry)
    ensures
        r.absolute_path == id,
        r.name == title,
        r.artist@ == (match artist {
            Some(a) => a@,
            None => Seq::<char>::empty(),
        }),
        r.album@ == (match album {
            Some(a) => a@,
            None => Seq::<char>::empty(),
        }),
        r.duration == vstd::wrapping::u64_specs::wrapping_mul(duration_secs, 1000),
        r.server_id@ == Seq::<char>::empty(),
{
    MusicEntry {
        absolute_path: id,
        name: title,
        artist: match artist {
            Some(a) => a,
            None => String::new(),
        },
        album: match album {
            Some(a) => a,
            None => String::new(),
        },
        duration: duration_secs.wrapping_mul(1000),
        server_id: String::new(),
    }
}

/// Adapter that plays music files from a local directory.
#[derive(Debug)]
pub struct LocalServer {
    /// Root directory, without trailing separators.
    root: String,
}

/// Audio file extensions the local adapter lists.
pub open spec fn audio_extensions() -> Seq<Seq<char>> {
    seq![
        "mp3"@,
        "flac"@,
        "ogg"@,
        "wav"@,
        "m4a"@,
        "wma"@,
        "aac"@,
        "opus"@,
        "aiff"@,
        "wv"@,
        "ape"@,
    ]
}

impl LocalServer {
    pub closed spec fn spec_root(&self) -> Seq<char> {
        self.root@
    }

    /// A local adapter for `root` with trailing `/` and then trailing `\`
    /// removed.
    pub fn new(root: &str) -> (r: Self)
        ensures
            r.spec_root() == trim_end_char(trim_end_char(root@, '/'), '\\'),
    {
        LocalServer { root: String::from_str(trim_end_matches(trim_end_matches(root, '/'), '\\')) }
    }

    /// Whether a file extension (any case) is one of the audio formats.
    pub fn is_audio_extension(ext: &str) -> (r: bool)
        ensures
            r == audio_extensions().contains(lowercase(ext@)),
    {
        let e = to_lowercase(ext);
        let exts = ["mp3", "flac", "ogg", "wav", "m4a", "wma", "aac", "opus", "aiff", "wv", "ape"];
        let mut k: usize = 0;
        while k < 11
            invariant
                e@ == lowercase(ext@),
                k <= 11,
                forall|j: int| 0 <= j < k ==> exts@[j]@ == audio_extensions()[j],
                forall|j: int| 0 <= j < k ==> audio_extensions()[j] != e@,
                exts@.len() == 11,
                exts@ == seq!["mp3", "flac", "ogg", "wav", "m4a", "wma", "aac", "opus", "aiff", "wv", "ape"],
            decreases 11 - k,
        {
            assert(exts@[k as int]@ == audio_extensions()[k as int]);
            if str_eq(e.as_str(), exts[k]) {
                proof {
                    assert(audio_extensions()[k as int] == e@);
                }
                return true;
            }
            k = k + 1;
        }
        proof {
            assert(!audio_extensions().contains(e@)) by {
                if audio_extensions().contains(e@) {
                    let j = choose|j: int| 0 <= j < audio_extensions().len() && audio_extensions()[j] == e@;
                    assert(j < 11);
                }
            }
        }
        false
    }
}

impl MusicServer for LocalServer {
    fn name(&self) -> (r: &str)
        ensures
            r@ == "本地文件夹"@,
    {
        "本地文件夹"
    }

    fn base_url(&self) -> (r: &str)
        ensures
            r@ == self.spec_root(),
    {
        self.root.as_str()
    }

    fn features(&self) -> (r: ServerFeatures)
        ensures
            !r.search && !r.cover_art,
    {
        ServerFeatures { search: false, cover_art: false }
    }

    /// A local song is played from its path.
    fn stream_url(&self, music: &MusicEntry) -> (r: String)
        ensures
            r@ == music.absolute_path@,
    {
        music.absolute_path.clone()
    }

    /// Local folders have no cover URL.
    fn cover_url(&self, music: &MusicEntry) -> (r: Option<String>)
        ensures
            r is None,
    {
        None
    }
}


// ───────────────────────── factory and pool ─────────────────────────

/// A server adapter of one of the built-in kinds.
#[derive(Debug)]
pub enum Server {
    FileTransfer(FileTransferServer),
    Subsonic(SubsonicServer),
    Local(LocalServer),
}

/// The adapter kind a configured type selects: `navidrome` and `subsonic`
/// select Subsonic, `local` the local folder, anything else file transfer.
pub enum ServerKind {
    FileTransfer,
    Subsonic,
    Local,
}

pub open spec fn kind_of_type(t: Seq<char>) -> ServerKind {
    if t == "navidrome"@ || t == "subsonic"@ {
        ServerKind::Subsonic
    } else if t == "local"@ {
        ServerKind::Local
    } else {
        ServerKind::FileTransfer
    }
}

/// The adapter built for a configuration.
pub open spec fn configured(s: Server, config: ServerConfig) -> bool {
    match kind_of_type(config.server_type@) {
        ServerKind::FileTransfer => s matches Server::FileTransfer(f) && f.spec_base_url()
            == config.server_url@,
        ServerKind::Subsonic => s matches Server::Subsonic(n) && n.spec_base_url()
            == trim_end_char(config.server_url@, '/') && n.spec_auth() == subsonic_auth(
            config.username@,
            config.password@,
        ),
        ServerKind::Local => s matches Server::Local(l) && l.spec_root() == trim_end_char(
            trim_end_char(config.server_url@, '/'),
            '\\',
        ),
    }
}

/// The stream URL of a song on an adapter.
pub open spec fn spec_stream_url(s: Server, music: MusicEntry) -> Seq<char> {
    match s {
        Server::FileTransfer(f) => f.spec_base_url() + "/file?path="@ + encode_bytes(
            encode_utf8(music.absolute_path@),
            true,
        ),
        Server::Subsonic(n) => n.spec_base_url() + "/rest/stream?id="@ + music.absolute_path@
            + "&"@ + n.spec_auth(),
        Server::Local(_) => music.absolute_path@,
    }
}

pub open spec fn spec_base_url(s: Server) -> Seq<char> {
    match s {
        Server::FileTransfer(f) => f.spec_base_url(),
        Server::Subsonic(n) => n.spec_base_url(),
        Server::Local(l) => l.spec_root(),
    }
}

pub open spec fn spec_cover_url(s: Server, music: MusicEntry) -> Option<Seq<char>> {
    match s {
        Server::Subsonic(n) => Some(
            n.spec_base_url() + "/rest/getCoverArt?id="@ + music.absolute_path@ + "&"@
                + n.spec_auth(),
        ),
        _ => None,
    }
}

/// Create a single server adapter from a configuration.
pub fn create_server(config: &ServerConfig) -> (r: Server)
    ensures
        configured(r, *config),
{
    let t = config.server_type.as_str();
    if str_eq(t, "navidrome") || str_eq(t, "subsonic") {
        Server::Subsonic(
            SubsonicServer::new(
                config.server_url.as_str(),
                config.username.as_str(),
                config.password.as_str(),
            ),
        )
    } else if str_eq(t, "local") {
        Server::Local(LocalServer::new(config.server_url.as_str()))
    } else {
        Server::FileTransfer(FileTransferServer::new(config.server_url.as_str()))
    }
}

impl MusicServer for Server {
    fn name(&self) -> (r: &str)
        ensures
            r@ == (match *self {
                Server::FileTransfer(_) => "文件闪传"@,
                Server::Subsonic(_) => "Navidrome (Subsonic)"@,
                Server::Local(_) => "本地文件夹"@,
            }),
    {
        match self {
            Server::FileTransfer(f) => f.name(),
            Server::Subsonic(n) => n.name(),
            Server::Local(l) => l.name(),
        }
    }

    fn base_url(&self) -> (r: &str)
        ensures
            r@ == spec_base_url(*self),
    {
        match self {
            Server::FileTransfer(f) => f.base_url(),
            Server::Subsonic(n) => n.base_url(),
            Server::Local(l) => l.base_url(),
        }
    }

    fn features(&self) -> (r: ServerFeatures)
        ensures
            r == (match *self {
                Server::Subsonic(_) => ServerFeatures { search: true, cover_art: true },
                _ => ServerFeatures { search: false, cover_art: false },
            }),
    {
        match self {
            Server::FileTransfer(_) => ServerFeatures::default(),
            Server::Subsonic(n) => n.features(),
            Server::Local(l) => l.features(),
        }
    }

    fn stream_url(&self, music: &MusicEntry) -> (r: String)
        ensures
            r@ == spec_stream_url(*self, *music),
    {
        match self {
            Server::FileTransfer(f) => f.stream_url(music),
            Server::Subsonic(n) => n.stream_url(music),
            Server::Local(l) => l.stream_url(music),
        }
    }

    fn cover_url(&self, music: &MusicEntry) -> (r: Option<String>)
        ensures
            opt_string_model(r) == spec_cover_url(*self, *music),
    {
        match self {
            Server::Subsonic(n) => n.cover_url(music),
            _ => None,
        }
    }
}

/// One server of a pool: its id, whether it is disabled, the adapter.
#[derive(Debug)]
pub struct PoolEntry {
    pub id: String,
    pub disabled: bool,
    pub server: Server,
}

/// A server that aggregates several adapters and routes each song to the
/// adapter whose id matches the song's `server_id`.
#[derive(Debug)]
pub struct ServerPool {
    pub servers: Vec<PoolEntry>,
}

/// What the program talks to: one adapter, or a pool of them.
#[derive(Debug)]
pub enum Backend {
    Single(Server),
    Pool(ServerPool),
}

/// The pool id of a configuration: its name, or its type when unnamed.
pub open spec fn pool_id(c: ServerConfig) -> Seq<char> {
    if c.name@.len() == 0 {
        c.server_type@
    } else {
        c.name@
    }
}

/// Index of the first pool entry with the given id, or -1.
pub open spec fn find_index(servers: Seq<PoolEntry>, id: Seq<char>) -> int
    decreases servers.len(),
{
    if servers.len() == 0 {
        -1
    } else if servers[0].id@ == id {
        0
    } else {
        let r = find_index(servers.drop_first(), id);
        if r < 0 {
            -1
        } else {
            r + 1
        }
    }
}

proof fn lemma_find_index(servers: Seq<PoolEntry>, id: Seq<char>, k: int)
    requires
        0 <= k <= servers.len(),
        k < servers.len() ==> servers[k].id@ == id,
        forall|j: int| 0 <= j < k ==> servers[j].id@ != id,
    ensures
        find_index(servers, id) == (if k < servers.len() {
            k
        } else {
            -1
        }),
    decreases k,
{
    if k > 0 {
        let t = servers.drop_first();
        assert forall|j: int| 0 <= j < k - 1 implies t[j].id@ != id by {
            assert(t[j] == servers[j + 1]);
        }
        if k < servers.len() {
            assert(t[k - 1] == servers[k]);
        }
        lemma_find_index(t, id, k - 1);
    }
}

/// Index of the first enabled pool entry, or -1.
pub open spec fn first_enabled(servers: Seq<PoolEntry>) -> int
    decreases servers.len(),
{
    if servers.len() == 0 {
        -1
    } else if !servers[0].disabled {
        0
    } else {
        let r = first_enabled(servers.drop_first());
        if r < 0 {
            -1
        } else {
            r + 1
        }
    }
}

proof fn lemma_first_enabled(servers: Seq<PoolEntry>, k: int)
    requires
        0 <= k <= servers.len(),
        k < servers.len() ==> !servers[k].disabled,
        forall|j: int| 0 <= j < k ==> servers[j].disabled,
    ensures
        first_enabled(servers) == (if k < servers.len() {
            k
        } else {
            -1
        }),
    decreases k,
{
    if k > 0 {
        let t = servers.drop_first();
        assert forall|j: int| 0 <= j < k - 1 implies t[j].disabled by {
            assert(t[j] == servers[j + 1]);
        }
        if k < servers.len() {
            assert(t[k - 1] == servers[k]);
        }
        lemma_first_enabled(t, k - 1);
    }
}

/// The stream URL the pool gives a song: from the adapter with the song's
/// server id; else from the first enabled adapter; else from the first
/// adapter; empty for an empty pool.
pub open spec fn pool_stream_url(servers: Seq<PoolEntry>, music: MusicEntry) -> Seq<char> {
    let i = find_index(servers, music.server_id@);
    if i >= 0 {
        spec_stream_url(servers[i].server, music)
    } else if first_enabled(servers) >= 0 {
        spec_stream_url(servers[first_enabled(servers)].server, music)
    } else if servers.len() > 0 {
        spec_stream_url(servers[0].server, music)
    } else {
        seq![]
    }
}

/// The backend built from a list of server configurations: one adapter per
/// configuration, in order, with its id and enabled flag; a file-transfer
/// adapter with an empty URL for an empty list.
pub open spec fn pool_built(configs: Seq<ServerConfig>, r: Backend) -> bool {
    &&& configs.len() == 0 ==> (r matches Backend::Single(Server::FileTransfer(f))
        && f.spec_base_url() == Seq::<char>::empty())
    &&& configs.len() > 0 ==> (r matches Backend::Pool(p) && p.servers@.len() == configs.len()
        && forall|i: int|
        #![trigger p.servers@[i]]
        0 <= i < configs.len() ==> p.servers@[i].id@ == pool_id(configs[i])
            && p.servers@[i].disabled == configs[i].disabled && configured(
            p.servers@[i].server,
            configs[i],
        ))
}

/// Create a multi-server pool from a list of configs; a single
/// file-transfer adapter with an empty URL when the list is empty.
pub fn create_server_pool(configs: &Vec<ServerConfig>) -> (r: Backend)
    ensures
        pool_built(configs@, r),
{
    if configs.len() == 0 {
        let f = FileTransferServer::new("");
        proof {
            reveal_strlit("");
        }
        let r = Backend::Single(Server::FileTransfer(f));
        proof {
            assert(configs@.len() == 0);
            assert(r matches Backend::Single(Server::FileTransfer(g)) && g.spec_base_url() == Seq::<char>::empty());
        }
        return r;
    }
    let mut servers: Vec<PoolEntry> = Vec::new();
    let mut k: usize = 0;
    while k < configs.len()
        invariant
            k <= configs.len(),
            servers@.len() == k,
            forall|i: int|
                #![trigger servers@[i]]
                0 <= i < k ==> servers@[i].id@ == pool_id(configs@[i]) && servers@[i].disabled
                    == configs@[i].disabled && configured(servers@[i].server, configs@[i]),
        decreases configs.len() - k,
    {
        let cfg = &configs[k];
        let id = if cfg.name.as_str().unicode_len() == 0 {
            cfg.server_type.clone()
        } else {
            cfg.name.clone()
        };
        let server = create_server(cfg);
        servers.push(PoolEntry { id, disabled: cfg.disabled, server });
        k = k + 1;
    }
    Backend::Pool(ServerPool { servers })
}

impl ServerPool {
    /// The adapter whose id is `server_id` (the first one, if several).
    pub fn find(&self, server_id: &str) -> (r: Option<&Server>)
        ensures
            match r {
                Some(s) => find_index(self.servers@, server_id@) >= 0 && *s == self.servers@[find_index(
                    self.servers@,
                    server_id@,
                )].server,
                None => find_index(self.servers@, server_id@) < 0,
            },
    {
        let mut k: usize = 0;
        while k < self.servers.len()
            invariant
                k <= self.servers.len(),
                forall|j: int| 0 <= j < k ==> self.servers@[j].id@ != server_id@,
            decreases self.servers.len() - k,
        {
            if str_eq(self.servers[k].id.as_str(), server_id) {
                proof {
                    lemma_find_index(self.servers@, server_id@, k as int);
                }
                return Some(&self.servers[k].server);
            }
            k = k + 1;
        }
        proof {
            lemma_find_index(self.servers@, server_id@, k as int);
        }
        None
    }

}

impl MusicServer for ServerPool {
    fn name(&self) -> (r: &str)
        ensures
            r@ == "ServerPool"@,
    {
        "ServerPool"
    }

    /// The base URL of the first adapter, or empty.
    fn base_url(&self) -> (r: &str)
        ensures
            r@ == (if self.servers@.len() > 0 {
                spec_base_url(self.servers@[0].server)
            } else {
                seq![]
            }),
    {
        if self.servers.len() > 0 {
            self.servers[0].server.base_url()
        } else {
            proof {
                reveal_strlit("");
            }
            ""
        }
    }

    /// The pool offers no optional feature of its own.
    fn features(&self) -> (r: ServerFeatures)
        ensures
            !r.search && !r.cover_art,
    {
        ServerFeatures::default()
    }

    fn stream_url(&self, music: &MusicEntry) -> (r: String)
        ensures
            r@ == pool_stream_url(self.servers@, *music),
    {
        match self.find(music.server_id.as_str()) {
            Some(s) => s.stream_url(music),
            None => {
                let mut k: usize = 0;
                while k < self.servers.len()
                    invariant
                        k <= self.servers.len(),
                        find_index(self.servers@, music.server_id@) < 0,
                        forall|j: int| 0 <= j < k ==> self.servers@[j].disabled,
                    decreases self.servers.len() - k,
                {
                    if !self.servers[k].disabled {
                        proof {
                            lemma_first_enabled(self.servers@, k as int);
                        }
                        return self.servers[k].server.stream_url(music);
                    }
                    k = k + 1;
                }
                proof {
                    lemma_first_enabled(self.servers@, k as int);
                }
                if self.servers.len() > 0 {
                    self.servers[0].server.stream_url(music)
                } else {
                    String::new()
                }
            },
        }
    }

    /// Cover art from the song's own adapter; none when no adapter matches.
    fn cover_url(&self, music: &MusicEntry) -> (r: Option<String>)
        ensures
            opt_string_model(r) == (if find_index(self.servers@, music.server_id@) >= 0 {
                spec_cover_url(
                    self.servers@[find_index(self.servers@, music.server_id@)].server,
                    *music,
                )
            } else {
                None
            }),
    {
        match self.find(music.server_id.as_str()) {
            Some(s) => s.cover_url(music),
            None => None,
        }
    }
}

/// Entries listed by the pool server `id`: every entry is tagged with it.
pub fn tag_entries(entries: Vec<MusicEntry>, id: &str) -> (r: Vec<MusicEntry>)
    ensures
        r@.len() == entries@.len(),
        forall|i: int|
            #![trigger r@[i]]
            0 <= i < r@.len() ==> r@[i].server_id@ == id@ && r@[i].absolute_path
                == entries@[i].absolute_path && r@[i].name == entries@[i].name && r@[i].artist
                == entries@[i].artist && r@[i].album == entries@[i].album && r@[i].duration
                == entries@[i].duration,
{
    let mut out: Vec<MusicEntry> = Vec::new();
    let mut entries = entries;
    let ghost orig = entries@;
    while entries.len() > 0
        invariant
            out@.len() + entries@.len() == orig.len(),
            entries@ == orig.skip(out@.len() as int),
            forall|i: int|
                #![trigger out@[i]]
                0 <= i < out@.len() ==> out@[i].server_id@ == id@ && out@[i].absolute_path
                    == orig[i].absolute_path && out@[i].name == orig[i].name && out@[i].artist
                    == orig[i].artist && out@[i].album == orig[i].album && out@[i].duration
                    == orig[i].duration,
        decreases entries.len(),
    {
        let mut e = entries.remove(0);
        proof {
            assert(orig.skip(out@.len() as int)[0] == e);
            assert(entries@ =~= orig.skip(out@.len() as int + 1));
        }
        e.server_id = String::from_str(id);
        out.push(e);
    }
    out
}

/// A song entry as plain values: path, name, artist, duration, album,
/// server id.
pub type EntryView = (Seq<char>, Seq<char>, Seq<char>, u64, Seq<char>, Seq<char>);

pub open spec fn entry_view(e: MusicEntry) -> EntryView {
    (e.absolute_path@, e.name@, e.artist@, e.duration, e.album@, e.server_id@)
}

/// Entries as listed by the pool server `id`: each tagged with the id.
pub open spec fn tagged_view(s: Seq<MusicEntry>, id: Seq<char>) -> Seq<EntryView> {
    s.map_values(|e: MusicEntry| (e.absolute_path@, e.name@, e.artist@, e.duration, e.album@, id))
}

/// The pool's song list from what its first `n` servers answered: in the
/// servers' order, the list of every enabled server that answered, tagged
/// with its id; a disabled server, and one that failed (`None`, also for a
/// server without an answer), adds nothing.
pub open spec fn merged_view(servers: Seq<PoolEntry>, results: Seq<Option<Vec<MusicEntry>>>, n: int) -> Seq<
    EntryView,
>
    decreases n,
{
    if n <= 0 {
        seq![]
    } else {
        merged_view(servers, results, n - 1) + if !servers[n - 1].disabled && n - 1 < results.len()
            && results[n - 1] is Some {
            tagged_view(results[n - 1]->0@, servers[n - 1].id@)
        } else {
            seq![]
        }
    }
}

impl ServerPool {
    /// Merges the lists the pool's servers answered with (`results[i]`
    /// for server `i`; `None` where it failed or was not asked): see
    /// `merged_view`.
    pub fn merge_lists(&self, results: Vec<Option<Vec<MusicEntry>>>) -> (r: Vec<MusicEntry>)
        ensures
            r@.map_values(|e: MusicEntry| entry_view(e)) == merged_view(
                self.servers@,
                results@,
                self.servers@.len() as int,
            ),
    {
        let mut out: Vec<MusicEntry> = Vec::new();
        let mut results = results;
        let ghost orig = results@;
        let mut k: usize = 0;
        while k < self.servers.len()
            invariant
                k <= self.servers.len(),
                results@.len() == if orig.len() >= k { orig.len() - k } else { 0 },
                forall|j: int| 0 <= j < results@.len() ==> results@[j] == orig[j + k],
                out@.map_values(|e: MusicEntry| entry_view(e)) == merged_view(self.servers@, orig, k as int),
            decreases self.servers.len() - k,
        {
            let answer = if results.len() > 0 {
                results.remove(0)
            } else {
                None
            };
            let ghost before = out@;
            if !self.servers[k].disabled {
                match answer {
                    Some(entries) => {
                        let ghost ev = entries@;
                        let tagged = tag_entries(entries, self.servers[k].id.as_str());
                        let mut t = tagged;
                        let ghost tv = t@;
                        let n_t = t.len();
                        let mut m: usize = 0;
                        let ghost base = out@;
                        while t.len() > 0
                            invariant
                                m + t@.len() == tv.len(),
                                tv.len() == n_t,
                                t@ == tv.skip(m as int),
                                out@ == base + tv.take(m as int),
                            decreases t.len(),
                        {
                            let e = t.remove(0);
                            proof {
                                assert(tv.skip(m as int)[0] == e);
                                assert(t@ =~= tv.skip(m + 1));
                                assert(base + tv.take(m + 1) =~= (base + tv.take(m as int)).push(e));
                            }
                            out.push(e);
                            m = m + 1;
                        }
                        proof {
                            assert(tv.take(m as int) =~= tv);
                            assert(tv.map_values(|e: MusicEntry| entry_view(e)) =~= tagged_view(ev, self.servers@[k as int].id@));
                            assert(out@.map_values(|e: MusicEntry| entry_view(e)) =~= base.map_values(|e: MusicEntry| entry_view(e)) + tv.map_values(|e: MusicEntry| entry_view(e)));
                        }
                    },
                    None => {},
                }
            }
            proof {
                assert(answer == (if k < orig.len() { orig[k as int] } else { None }));
                assert(out@.map_values(|e: MusicEntry| entry_view(e)) =~= merged_view(self.servers@, orig, k + 1));
            }
            k = k + 1;
        }
        out
    }
}

/// The URL a backend streams a song from.
pub open spec fn backend_stream_url(b: Backend, music: MusicEntry) -> Seq<char> {
    match b {
        Backend::Single(s) => spec_stream_url(s, music),
        Backend::Pool(p) => pool_stream_url(p.servers@, music),
    }
}

impl MusicServer for Backend {
    fn name(&self) -> (r: &str)
        ensures
            r@ == (match *self {
                Backend::Single(Server::FileTransfer(_)) => "文件闪传"@,
                Backend::Single(Server::Subsonic(_)) => "Navidrome (Subsonic)"@,
                Backend::Single(Server::Local(_)) => "本地文件夹"@,
                Backend::Pool(_) => "ServerPool"@,
            }),
    {
        match self {
            Backend::Single(s) => s.name(),
            Backend::Pool(p) => p.name(),
        }
    }

    fn base_url(&self) -> (r: &str)
        ensures
            r@ == (match *self {
                Backend::Single(s) => spec_base_url(s),
                Backend::Pool(p) => if p.servers@.len() > 0 {
                    spec_base_url(p.servers@[0].server)
                } else {
                    seq![]
                },
            }),
    {
        match self {
            Backend::Single(s) => s.base_url(),
            Backend::Pool(p) => p.base_url(),
        }
    }

    fn features(&self) -> (r: ServerFeatures)
        ensures
            r == (match *self {
                Backend::Single(Server::Subsonic(_)) => ServerFeatures { search: true, cover_art: true },
                _ => ServerFeatures { search: false, cover_art: false },
            }),
    {
        match self {
            Backend::Single(s) => s.features(),
            Backend::Pool(p) => p.features(),
        }
    }

    fn stream_url(&self, music: &MusicEntry) -> (r: String)
        ensures
            r@ == backend_stream_url(*self, *music),
    {
        match self {
            Backend::Single(s) => s.stream_url(music),
            Backend::Pool(p) => p.stream_url(music),
        }
    }

    fn cover_url(&self, music: &MusicEntry) -> (r: Option<String>)
        ensures
            opt_string_model(r) == (match *self {
                Backend::Single(s) => spec_cover_url(s, *music),
                Backend::Pool(p) => if find_index(p.servers@, music.server_id@) >= 0 {
                    spec_cover_url(p.servers@[find_index(p.servers@, music.server_id@)].server, *music)
                } else {
                    None
                },
            }),
    {
        match self {
            Backend::Single(s) => s.cover_url(music),
            Backend::Pool(p) => p.cover_url(music),
        }
    }
}


// ───────────────────────── stored passwords ─────────────────────────

/// Standard base64 (with padding) of a byte string, as the `base64` crate
/// encodes it.
pub uninterp spec fn base64_encoding(data: Seq<u8>) -> Seq<char>;

/// Standard base64 decoding of the bytes of a text, as the `base64` crate
/// decodes it; `None` when the text is not valid base64.
pub uninterp spec fn base64_decoding(text: Seq<u8>) -> Option<Seq<u8>>;

/// Lossy UTF-8 decoding (`String::from_utf8_lossy`): invalid sequences become
/// U+FFFD.
pub uninterp spec fn lossy_utf8(bytes: Seq<u8>) -> Seq<char>;

/// Size of the base64 text of `n` bytes with padding.
pub open spec fn base64_len(n: nat) -> nat {
    (n / 3) * 4 + if n % 3 > 0 {
        4nat
    } else {
        0nat
    }
}

/// `base64::engine::general_purpose::STANDARD.encode`. It panics when the
/// output size overflows `usize`, which `requires` leaves out. Claimed: the
/// result is the named encoding of the input, and decoding its bytes gives
/// the input back.
#[verifier::external_body]
fn base64_encode(data: &[u8]) -> (r: String)
    requires
        base64_len(data@.len()) <= usize::MAX,
    ensures
        r@ == base64_encoding(data@),
        base64_decoding(encode_utf8(r@)) == Some(data@),
{
    base64::engine::general_purpose::STANDARD.encode(data)
}

pub open spec fn opt_bytes_model(o: Option<Vec<u8>>) -> Option<Seq<u8>> {
    match o {
        Some(v) => Some(v@),
        None => None,
    }
}

/// `base64::engine::general_purpose::STANDARD.decode` of the bytes of a
/// text; the decoding error becomes `None`. Claimed: the result is the named
/// decoding.
#[verifier::external_body]
fn base64_decode(text: &str) -> (r: Option<Vec<u8>>)
    ensures
        opt_bytes_model(r) == base64_decoding(encode_utf8(text@)),
{
    base64::engine::general_purpose::STANDARD.decode(text).ok()
}

/// `String::from_utf8_lossy(..).into_owned()`. Claimed: the result is the
/// named lossy decoding, which for valid UTF-8 is the text the bytes encode
/// (as the standard library documents).
#[verifier::external_body]
fn utf8_lossy(bytes: &[u8]) -> (r: String)
    ensures
        r@ == lossy_utf8(bytes@),
        valid_utf8(bytes@) ==> r@ == decode_utf8(bytes@),
{
    String::from_utf8_lossy(bytes).into_owned()
}

/// How a password is stored: the base64 text of its UTF-8 bytes.
pub fn encode_password(pwd: &str) -> (r: String)
    requires
        base64_len(encode_utf8(pwd@).len()) <= usize::MAX,
    ensures
        r@ == base64_encoding(encode_utf8(pwd@)),
        base64_decoding(encode_utf8(r@)) == Some(encode_utf8(pwd@)),
{
    let bytes = pwd.as_bytes_vec();
    base64_encode(bytes.as_slice())
}

/// The password a stored text stands for: the (lossily decoded) bytes of its
/// base64 decoding, or the text itself when it is not base64 (plain text
/// stored by older versions).
pub open spec fn password_of(stored: Seq<char>) -> Seq<char> {
    match base64_decoding(encode_utf8(stored)) {
        Some(b) => if valid_utf8(b) {
            decode_utf8(b)
        } else {
            lossy_utf8(b)
        },
        None => stored,
    }
}

pub fn decode_password(stored: &str) -> (r: String)
    ensures
        r@ == password_of(stored@),
{
    match base64_decode(stored) {
        Some(bytes) => utf8_lossy(bytes.as_slice()),
        None => String::from_str(stored),
    }
}

/// A stored password reads back as the password that was stored: whatever
/// `encode_password` returns for `pwd`, `decode_password` turns into `pwd`.
pub proof fn lemma_password_round_trip(pwd: Seq<char>, stored: Seq<char>)
    requires
        stored == base64_encoding(encode_utf8(pwd)),
        base64_decoding(encode_utf8(stored)) == Some(encode_utf8(pwd)),
    ensures
        password_of(stored) == pwd,
{
    vstd::utf8::encode_utf8_valid_utf8(pwd);
    vstd::utf8::encode_utf8_decode_utf8(pwd);
}


/// Passwords stored in plain text by older versions are kept: a stored text
/// that is not base64 reads back as itself.
pub proof fn lemma_plain_password_kept(stored: Seq<char>)
    requires
        base64_decoding(encode_utf8(stored)) is None,
    ensures
        password_of(stored) == stored,
{
}

// ───────────────────────── cover art ─────────────────────────

/// The audio formats a cover can be read from, told apart by extension.
#[derive(Debug, Clone, Copy, PartialEq, Eq, Structural)]
pub enum AudioFormat {
    Mpeg,
    Flac,
    Vorbis,
    Wav,
    Mp4,
    Aiff,
    WavPack,
    Ape,
}

/// The text after the last `.` (the whole text when it has none).
pub open spec fn after_last_dot(s: Seq<char>) -> Seq<char>
    decreases s.len(),
{
    if s.len() == 0 {
        s
    } else if s.last() == '.' {
        Seq::<char>::empty()
    } else {
        after_last_dot(s.drop_last()).push(s.last())
    }
}

/// The format a lower-cased extension names.
pub open spec fn format_of_extension(ext: Seq<char>) -> Option<AudioFormat> {
    if ext == "mp3"@ {
        Some(AudioFormat::Mpeg)
    } else if ext == "flac"@ {
        Some(AudioFormat::Flac)
    } else if ext == "ogg"@ || ext == "opus"@ {
        Some(AudioFormat::Vorbis)
    } else if ext == "wav"@ {
        Some(AudioFormat::Wav)
    } else if ext == "m4a"@ || ext == "m4b"@ || ext == "mp4"@ {
        Some(AudioFormat::Mp4)
    } else if ext == "aiff"@ || ext == "aif"@ {
        Some(AudioFormat::Aiff)
    } else if ext == "wv"@ {
        Some(AudioFormat::WavPack)
    } else if ext == "ape"@ {
        Some(AudioFormat::Ape)
    } else {
        None
    }
}

/// The audio format of a file by its extension, in any case.
pub fn file_type_from_ext(path: &str) -> (r: Option<AudioFormat>)
    ensures
        r == format_of_extension(lowercase(after_last_dot(path@))),
{
    let v = crate::text::chars_of(path);
    let mut k = v.len();
    proof {
        assert(v@.subrange(0, k as int) =~= path@);
    }
    while k > 0 && v[k - 1] != '.'
        invariant
            k <= v.len(),
            v@ == path@,
            after_last_dot(path@) == after_last_dot(v@.subrange(0, k as int)) + v@.subrange(
                k as int,
                v@.len() as int,
            ),
        decreases k,
    {
        proof {
            let t = v@.subrange(0, k as int);
            assert(t.drop_last() =~= v@.subrange(0, k - 1));
            assert(t.last() == v@[k - 1]);
            assert(after_last_dot(t) == after_last_dot(t.drop_last()).push(v@[k - 1]));
            assert(after_last_dot(t.drop_last()).push(v@[k - 1]) + v@.subrange(k as int, v@.len() as int)
                =~= after_last_dot(v@.subrange(0, k - 1)) + v@.subrange(k - 1, v@.len() as int));
        }
        k = k - 1;
    }
    proof {
        if k > 0 {
            assert(v@.subrange(0, k as int).last() == '.');
        }
        assert(after_last_dot(v@.subrange(0, k as int)) =~= Seq::<char>::empty());
        assert(Seq::<char>::empty() + v@.subrange(k as int, v@.len() as int) =~= v@.subrange(
            k as int,
            v@.len() as int,
        ));
    }
    let ext_raw = string_from_chars(&v, k);
    let ext = to_lowercase(ext_raw.as_str());
    let e = ext.as_str();
    if str_eq(e, "mp3") {
        Some(AudioFormat::Mpeg)
    } else if str_eq(e, "flac") {
        Some(AudioFormat::Flac)
    } else if str_eq(e, "ogg") || str_eq(e, "opus") {
        Some(AudioFormat::Vorbis)
    } else if str_eq(e, "wav") {
        Some(AudioFormat::Wav)
    } else if str_eq(e, "m4a") || str_eq(e, "m4b") || str_eq(e, "mp4") {
        Some(AudioFormat::Mp4)
    } else if str_eq(e, "aiff") || str_eq(e, "aif") {
        Some(AudioFormat::Aiff)
    } else if str_eq(e, "wv") {
        Some(AudioFormat::WavPack)
    } else if str_eq(e, "ape") {
        Some(AudioFormat::Ape)
    } else {
        None
    }
}

fn string_from_chars(v: &Vec<char>, from: usize) -> (r: String)
    requires
        from <= v.len(),
    ensures
        r@ == v@.subrange(from as int, v@.len() as int),
{
    crate::text::string_from(v, from, v.len())
}

/// The picture lofty finds first in the primary tag (else the first tag)
/// of an audio file, read from its bytes with the given format hint.
pub uninterp spec fn embedded_picture(data: Seq<u8>, format: Option<AudioFormat>) -> Option<Seq<u8>>;

pub open spec fn opt_vec_model(o: Option<Vec<u8>>) -> Option<Seq<u8>> {
    match o {
        Some(v) => Some(v@),
        None => None,
    }
}

/// Reads the first picture of an audio file of a known format with lofty
/// (`Probe::with_file_type`, `Probe::read`, `primary_tag` or `first_tag`,
/// `Tag::pictures`, `Picture::data`). The contract only names the result:
/// what lofty finds in the bytes is not stated here. lofty documents invalid
/// data as an error (`None` here) and a panic only for an unregistered custom
/// file type; only built-in types are passed.
#[verifier::external_body]
fn read_typed_picture(data: &[u8], format: AudioFormat) -> (r: Option<Vec<u8>>)
    ensures
        opt_vec_model(r) == embedded_picture(data@, Some(format)),
{
    let file_type = match format {
        AudioFormat::Mpeg => FileType::Mpeg,
        AudioFormat::Flac => FileType::Flac,
        AudioFormat::Vorbis => FileType::Vorbis,
        AudioFormat::Wav => FileType::Wav,
        AudioFormat::Mp4 => FileType::Mp4,
        AudioFormat::Aiff => FileType::Aiff,
        AudioFormat::WavPack => FileType::WavPack,
        AudioFormat::Ape => FileType::Ape,
    };
    let file = Probe::with_file_type(std::io::Cursor::new(data), file_type).read().ok()?;
    let tag = file.primary_tag().or_else(|| file.first_tag())?;
    tag.pictures().first().map(|p| p.data().to_vec())
}

/// Reads the first picture of an audio file with lofty without a format hint
/// (`Probe::new`, then as `read_typed_picture`). The contract only names the
/// result. Without a file type set, lofty's `Probe::read` reports an error
/// (`None` here) rather than guess; it panics only for an unregistered custom
/// file type, which is never set here.
#[verifier::external_body]
fn read_guessed_picture(data: &[u8]) -> (r: Option<Vec<u8>>)
    ensures
        opt_vec_model(r) == embedded_picture(data@, None),
{
    let file = Probe::new(std::io::Cursor::new(data)).read().ok()?;
    let tag = file.primary_tag().or_else(|| file.first_tag())?;
    tag.pictures().first().map(|p| p.data().to_vec())
}

fn read_embedded_picture(data: &[u8], format: Option<AudioFormat>) -> (r: Option<Vec<u8>>)
    ensures
        opt_vec_model(r) == embedded_picture(data@, format),
{
    match format {
        Some(f) => read_typed_picture(data, f),
        None => read_guessed_picture(data),
    }
}

/// The cover picture embedded in a downloaded audio file, using its path's
/// extension as a format hint; none for an empty download, a file without
/// a picture, or an empty picture.
pub fn cover_from_audio(data: &[u8], path: &str) -> (r: Option<Vec<u8>>)
    ensures
        opt_vec_model(r) == (if data@.len() == 0 {
            None
        } else {
            match embedded_picture(data@, format_of_extension(lowercase(after_last_dot(path@)))) {
                Some(p) => if p.len() > 0 {
                    Some(p)
                } else {
                    None
                },
                None => None,
            }
        }),
{
    if data.len() == 0 {
        return None;
    }
    let format = file_type_from_ext(path);
    usable_picture(read_embedded_picture(data, format))
}

/// A picture read from the tags, kept only when it has bytes.
pub fn usable_picture(picture: Option<Vec<u8>>) -> (r: Option<Vec<u8>>)
    ensures
        opt_vec_model(r) == match opt_vec_model(picture) {
            Some(p) => if p.len() > 0 {
                Some(p)
            } else {
                None
            },
            None => None,
        },
{
    match picture {
        Some(p) => if p.len() > 0 {
            Some(p)
        } else {
            None
        },
        None => None,
    }
}

} // verus!
