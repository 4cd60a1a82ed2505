//! Configuration kept in memory: servers, playlists, language and the last
//! played song, with the debounced-write bookkeeping that decides when the
//! configuration file has to be written.
//!
//! Reading and writing the file, and its JSON form, belong to the program;
//! this module decides what the configuration holds and when it is written.

use vstd::prelude::*;
use crate::server::{MusicEntry, ServerConfig};
use crate::text::{str_eq, trim, trim_end_char, trim_matches, trim_start_char, trim_str};
use crate::ui::{playlists_model, Playlist};

verus! {

/// Last playback position (for the "remember playback position" feature).
#[derive(Debug)]
pub struct LastPlayed {
    pub server_id: String,
    pub absolute_path: String,
    /// Position in milliseconds to resume from.
    pub position_ms: u64,
}

impl Clone for LastPlayed {
    fn clone(&self) -> (r: Self)
        ensures
            r == *self,
    {
        LastPlayed {
            server_id: self.server_id.clone(),
            absolute_path: self.absolute_path.clone(),
            position_ms: self.position_ms,
        }
    }
}

impl Default for LastPlayed {
    fn default() -> (r: Self)
        ensures
            r.server_id@ == Seq::<char>::empty(),
            r.absolute_path@ == Seq::<char>::empty(),
            r.position_ms == 0,
    {
        LastPlayed { server_id: String::new(), absolute_path: String::new(), position_ms: 0 }
    }
}

/// A playlist as stored in the configuration file.
#[derive(Debug)]
pub struct PlaylistJson {
    pub name: String,
    pub songs: Vec<MusicEntry>,
}

/// The configuration held in memory, and whether a deferred write of it is
/// already scheduled.
#[derive(Debug)]
pub struct ConfigStore {
    pub language: String,
    pub servers: Vec<ServerConfig>,
    pub playlists: Vec<PlaylistJson>,
    pub last_played: Option<LastPlayed>,
    pub save_pending: bool,
}

/// Copies of the songs of a playlist.
fn clone_songs(songs: &Vec<MusicEntry>) -> (r: Vec<MusicEntry>)
    ensures
        r@ == songs@,
{
    let mut out: Vec<MusicEntry> = Vec::new();
    let mut k: usize = 0;
    while k < songs.len()
        invariant
            k <= songs.len(),
            out@ == songs@.take(k as int),
        decreases songs.len() - k,
    {
        out.push(songs[k].clone());
        proof {
            assert(out@ =~= songs@.take(k + 1));
        }
        k = k + 1;
    }
    proof {
        assert(songs@.take(k as int) =~= songs@);
    }
    out
}

fn clone_servers(servers: &Vec<ServerConfig>) -> (r: Vec<ServerConfig>)
    ensures
        r@ == servers@,
{
    let mut out: Vec<ServerConfig> = Vec::new();
    let mut k: usize = 0;
    while k < servers.len()
        invariant
            k <= servers.len(),
            out@ == servers@.take(k as int),
        decreases servers.len() - k,
    {
        out.push(servers[k].clone());
        proof {
            assert(out@ =~= servers@.take(k + 1));
        }
        k = k + 1;
    }
    proof {
        assert(servers@.take(k as int) =~= servers@);
    }
    out
}

/// The (name, songs) of each playlist.
pub open spec fn stored_playlists(p: Seq<PlaylistJson>) -> Seq<(Seq<char>, Seq<MusicEntry>)> {
    p.map_values(|x: PlaylistJson| (x.name@, x.songs@))
}


/// The language a legacy language file selects: its content trimmed and
/// stripped of quotes is `en` or `English` for English; anything else, or no
/// file, selects Chinese.
pub open spec fn legacy_language_spec(content: Option<Seq<char>>) -> Seq<char> {
    match content {
        Some(c) => {
            let s = trim_end_char(trim_start_char(trim(c), '"'), '"');
            if s == "en"@ || s == "English"@ {
                "en"@
            } else {
                "zh"@
            }
        },
        None => "zh"@,
    }
}

/// The language code of a legacy language file (`None` when there is none).
pub fn legacy_language(content: Option<&str>) -> (r: &'static str)
    ensures
        r@ == legacy_language_spec(
            match content {
                Some(c) => Some(c@),
                None => None,
            },
        ),
{
    match content {
        Some(c) => {
            let s = trim_matches(trim_str(c), '"');
            if str_eq(s, "en") || str_eq(s, "English") {
                "en"
            } else {
                "zh"
            }
        },
        None => "zh",
    }
}

impl ConfigStore {
    /// The configuration of a first start: Chinese, one default server, no
    /// playlists, nothing played.
    pub fn default_config() -> (r: Self)
        ensures
            r.language@ == "zh"@,
            r.servers@.len() == 1,
            r.servers@[0].name@ == Seq::<char>::empty(),
            r.servers@[0].server_type@ == "file-transfer"@,
            r.servers@[0].server_url@ == Seq::<char>::empty(),
            r.servers@[0].username@ == Seq::<char>::empty(),
            r.servers@[0].password@ == Seq::<char>::empty(),
            !r.servers@[0].disabled,
            r.playlists@.len() == 0,
            r.last_played is None,
            !r.save_pending,
    {
        let mut servers: Vec<ServerConfig> = Vec::new();
        servers.push(ServerConfig::default());
        ConfigStore {
            language: String::from_str("zh"),
            servers,
            playlists: Vec::new(),
            last_played: None,
            save_pending: false,
        }
    }

    /// A configuration migrated from the old server-list file, with the
    /// language and playlists read from the legacy files.
    pub fn from_server_list(
        servers: Vec<ServerConfig>,
        playlists: Vec<PlaylistJson>,
        language: &str,
    ) -> (r: Self)
        ensures
            r.language@ == language@,
            r.servers@ == servers@,
            r.playlists@ == playlists@,
            r.last_played is None,
            !r.save_pending,
    {
        ConfigStore {
            language: String::from_str(language),
            servers,
            playlists,
            last_played: None,
            save_pending: false,
        }
    }

    /// A configuration migrated from the oldest single-server file: one
    /// enabled server named after its type, Chinese, no playlists.
    pub fn from_single_server(
        server_url: String,
        server_type: String,
        username: String,
        password: String,
    ) -> (r: Self)
        ensures
            r.language@ == "zh"@,
            r.servers@.len() == 1,
            r.servers@[0].name@ == server_type@,
            r.servers@[0].server_url == server_url,
            r.servers@[0].server_type == server_type,
            r.servers@[0].username == username,
            r.servers@[0].password == password,
            !r.servers@[0].disabled,
            r.playlists@.len() == 0,
            r.last_played is None,
            !r.save_pending,
    {
        let mut servers: Vec<ServerConfig> = Vec::new();
        servers.push(
            ServerConfig {
                name: server_type.clone(),
                server_url,
                server_type,
                username,
                password,
                disabled: false,
            },
        );
        ConfigStore {
            language: String::from_str("zh"),
            servers,
            playlists: Vec::new(),
            last_played: None,
            save_pending: false,
        }
    }

    /// Marks the configuration as changed; `true` when a deferred write has to
    /// be scheduled (none was pending).
    pub fn schedule_save(&mut self) -> (r: bool)
        ensures
            save_scheduled(*old(self), *final(self), r),
    {
        if self.save_pending {
            false
        } else {
            self.save_pending = true;
            true
        }
    }

    /// The deferred write is carried out now: nothing is pending any more.
    pub fn deferred_write_done(&mut self)
        ensures
            !final(self).save_pending,
            final(self).language == old(self).language,
            final(self).servers == old(self).servers,
            final(self).playlists == old(self).playlists,
            final(self).last_played == old(self).last_played,
    {
        self.save_pending = false;
    }

    /// Force the pending write now (on quit); `true` when the file has to be
    /// written.
    pub fn flush_config(&mut self) -> (r: bool)
        ensures
            r == old(self).save_pending,
            !final(self).save_pending,
            final(self).language == old(self).language,
            final(self).servers == old(self).servers,
            final(self).playlists == old(self).playlists,
            final(self).last_played == old(self).last_played,
    {
        if !self.save_pending {
            return false;
        }
        self.save_pending = false;
        true
    }

    pub fn load_servers(&self) -> (r: Vec<ServerConfig>)
        ensures
            r@ == self.servers@,
    {
        clone_servers(&self.servers)
    }

    /// Replaces the servers; `true` when a deferred write has to be scheduled.
    pub fn save_servers(&mut self, servers: &Vec<ServerConfig>) -> (r: bool)
        ensures
            final(self).servers@ == servers@,
            r == !old(self).save_pending,
            final(self).save_pending,
            final(self).language == old(self).language,
            final(self).playlists == old(self).playlists,
            final(self).last_played == old(self).last_played,
    {
        self.servers = clone_servers(servers);
        self.schedule_save()
    }

    pub fn load_playlists(&self) -> (r: Vec<Playlist>)
        ensures
            playlists_model(r@) == stored_playlists(self.playlists@),
    {
        let mut out: Vec<Playlist> = Vec::new();
        let mut k: usize = 0;
        while k < self.playlists.len()
            invariant
                k <= self.playlists.len(),
                out.len() == k,
                playlists_model(out@) == stored_playlists(self.playlists@).take(k as int),
            decreases self.playlists.len() - k,
        {
            let p = &self.playlists[k];
            let ghost before = out@;
            out.push(Playlist { name: p.name.clone(), songs: clone_songs(&p.songs) });
            proof {
                assert(out@ == before.push(out@[k as int]));
                assert(playlists_model(out@)[k as int] == stored_playlists(self.playlists@)[k as int]);
                assert forall|i: int| 0 <= i < k implies playlists_model(out@)[i] == playlists_model(before)[i] by {
                    assert(out@[i] == before[i]);
                }
                assert(playlists_model(out@) =~= stored_playlists(self.playlists@).take(k + 1));
            }
            k = k + 1;
        }
        proof {
            assert(stored_playlists(self.playlists@).take(k as int) =~= stored_playlists(
                self.playlists@,
            ));
        }
        out
    }

    /// Replaces the playlists; `true` when a deferred write has to be scheduled.
    pub fn save_playlists(&mut self, playlists: &Vec<Playlist>) -> (r: bool)
        ensures
            stored_playlists(final(self).playlists@) == playlists_model(playlists@),
            r == !old(self).save_pending,
            final(self).save_pending,
            final(self).language == old(self).language,
            final(self).servers == old(self).servers,
            final(self).last_played == old(self).last_played,
    {
        let mut out: Vec<PlaylistJson> = Vec::new();
        let mut k: usize = 0;
        while k < playlists.len()
            invariant
                k <= playlists.len(),
                out.len() == k,
                stored_playlists(out@) == playlists_model(playlists@).take(k as int),
            decreases playlists.len() - k,
        {
            let p = &playlists[k];
            let ghost before = out@;
            out.push(PlaylistJson { name: p.name.clone(), songs: clone_songs(&p.songs) });
            proof {
                assert(out@ == before.push(out@[k as int]));
                assert(stored_playlists(out@)[k as int] == playlists_model(playlists@)[k as int]);
                assert forall|i: int| 0 <= i < k implies stored_playlists(out@)[i] == stored_playlists(before)[i] by {
                    assert(out@[i] == before[i]);
                }
                assert(stored_playlists(out@) =~= playlists_model(playlists@).take(k + 1));
            }
            k = k + 1;
        }
        proof {
            assert(playlists_model(playlists@).take(k as int) =~= playlists_model(playlists@));
        }
        self.playlists = out;
        self.schedule_save()
    }

    pub fn load_language(&self) -> (r: String)
        ensures
            r@ == self.language@,
    {
        self.language.clone()
    }

    /// Replaces the language; `true` when a deferred write has to be scheduled.
    pub fn save_language(&mut self, lang: &str) -> (r: bool)
        ensures
            final(self).language@ == lang@,
            r == !old(self).save_pending,
            final(self).save_pending,
            final(self).servers == old(self).servers,
            final(self).playlists == old(self).playlists,
            final(self).last_played == old(self).last_played,
    {
        self.language = String::from_str(lang);
        self.schedule_save()
    }

    pub fn load_last_played(&self) -> (r: Option<LastPlayed>)
        ensures
            r == self.last_played,
    {
        match &self.last_played {
            Some(l) => Some(l.clone()),
            None => None,
        }
    }

    /// Remembers the last played song; `true` when a deferred write has to be
    /// scheduled.
    pub fn save_last_played(&mut self, last: &LastPlayed) -> (r: bool)
        ensures
            final(self).last_played == Some(*last),
            r == !old(self).save_pending,
            final(self).save_pending,
            final(self).language == old(self).language,
            final(self).servers == old(self).servers,
            final(self).playlists == old(self).playlists,
    {
        self.last_played = Some(last.clone());
        self.schedule_save()
    }

    /// Forgets the last played song; `true` when a deferred write has to be
    /// scheduled.
    pub fn clear_last_played(&mut self) -> (r: bool)
        ensures
            final(self).last_played is None,
            r == !old(self).save_pending,
            final(self).save_pending,
            final(self).language == old(self).language,
            final(self).servers == old(self).servers,
            final(self).playlists == old(self).playlists,
    {
        self.last_played = None;
        self.schedule_save()
    }
}


/// A change was recorded: a deferred write is pending afterwards, and it is
/// scheduled now (`r`) only when none was pending; the contents stay.
pub open spec fn save_scheduled(o: ConfigStore, n: ConfigStore, r: bool) -> bool {
    &&& r == !o.save_pending
    &&& n.save_pending
    &&& n.language == o.language
    &&& n.servers == o.servers
    &&& n.playlists == o.playlists
    &&& n.last_played == o.last_played
}

/// Writes are debounced: a second change while a write is pending schedules
/// no second write.
pub proof fn lemma_debounced_writes(c0: ConfigStore, c1: ConfigStore, c2: ConfigStore, r1: bool, r2: bool)
    requires
        save_scheduled(c0, c1, r1),
        save_scheduled(c1, c2, r2),
    ensures
        !r2,
        c2.save_pending,
{
}

/// What the playlists read back is what was saved.
pub proof fn lemma_playlists_round_trip(saved: Seq<Playlist>, stored: Seq<PlaylistJson>, loaded: Seq<Playlist>)
    requires
        stored_playlists(stored) == playlists_model(saved),
        playlists_model(loaded) == stored_playlists(stored),
    ensures
        playlists_model(loaded) == playlists_model(saved),
{
}

} // verus!
