//! What each interface event does to the model, and which outside work it
//! leaves to the program: starting a song, driving the audio output,
//! seeking, the volume, saving the configuration and fetching the song list.

use vstd::prelude::*;
use crate::i18n::{fill_placeholders, message, message1, message_text, message_with, plain_message, Language};
use crate::input::popped;
use crate::player::{mode_label_key, next_mode, toggled, PlayMode, PlayerState, Playback, SinkAction};
use crate::playback::{
    advance_sequential, advance_shuffle, auto_next_post, handle_auto_next, pos_of_path, position_of_path,
    sequential_next, shuffle_post, source_valid, start_playback, start_source, stopped, AutoNext,
};
use crate::server::{create_server_pool, pool_built, MusicEntry, ServerConfig};
use crate::text::push_char;
use crate::ui::{
    next_sort, sort_label_key, clamped_selection, opt_view, browse_has_selection, selected_song,
    added_song, decimal, decimal_string, default_playlist_name, display_of, filter_applied, navigated_down,
    navigated_up, new_playlist_name, playlists_model, scrolled_down, scrolled_up, selected_entry,
    selection_after_filter, view_has_selection, App, AppEvent, PlayingSource, SortMode, ViewMode,
};

verus! {

/// Outside work that an event leaves for the program.
#[derive(Debug)]
pub struct Effects {
    /// A song to start (see `begin_playback`).
    pub play: Option<MusicEntry>,
    /// What the audio output does: pause, play on, or nothing.
    pub output: SinkAction,
    /// The audio output stops.
    pub stop_output: bool,
    /// Seek by this many seconds (0: no seek).
    pub seek_secs: i64,
    /// Volume up (1), down (-1) or unchanged (0).
    pub volume_step: i64,
    pub save_playlists: bool,
    pub save_servers: bool,
    pub save_language: bool,
    /// Fetch the song list again.
    pub refresh: bool,
    /// A background task may have started; the event loop should yield.
    pub background: bool,
    /// Fetch the cover art of the playing song.
    pub fetch_cover: bool,
}

pub open spec fn no_effects() -> Effects {
    Effects {
        play: None,
        output: SinkAction::Nothing,
        stop_output: false,
        seek_secs: 0,
        volume_step: 0,
        save_playlists: false,
        save_servers: false,
        save_language: false,
        refresh: false,
        background: false,
        fetch_cover: false,
    }
}

fn none() -> (r: Effects)
    ensures
        r == no_effects(),
{
    Effects {
        play: None,
        output: SinkAction::Nothing,
        stop_output: false,
        seek_secs: 0,
        volume_step: 0,
        save_playlists: false,
        save_servers: false,
        save_language: false,
        refresh: false,
        background: false,
        fetch_cover: false,
    }
}

// ───────────────────────── playback events ─────────────────────────

pub open spec fn toggle_post(o: App, n: App, fx: Effects) -> bool {
    let st = toggled(o.player.state);
    &&& fx == (Effects {
        output: match o.player.state {
            PlayerState::Playing => SinkAction::Pause,
            PlayerState::Paused => SinkAction::Play,
            PlayerState::Stopped => SinkAction::Nothing,
        },
        ..no_effects()
    })
    &&& n == (App {
        player: Playback { state: st, ..o.player },
        status_message: n.status_message,
        error_message: None,
        ..o
    })
    &&& n.status_message@ == match st {
        PlayerState::Playing => plain_message(o.language, "status.resumed"@),
        PlayerState::Paused => plain_message(o.language, "status.paused"@),
        PlayerState::Stopped => o.status_message@,
    }
}

pub open spec fn stop_post(o: App, n: App, fx: Effects) -> bool {
    &&& fx == (Effects { stop_output: true, ..no_effects() })
    &&& n == (App { player: stopped(o.player), playing_source: None, status_message: n.status_message, ..o })
    &&& n.status_message@ == plain_message(o.language, "status.stopped"@)
}

pub open spec fn cycle_mode_post(o: App, n: App, fx: Effects) -> bool {
    let m = next_mode(o.player.play_mode);
    &&& fx == no_effects()
    &&& n == (App {
        player: Playback { play_mode: m, shuffle_state: None, ..o.player },
        status_message: n.status_message,
        ..o
    })
    &&& n.status_message@ == message_with(o.language, "status.play_mode"@, message_text(o.language, mode_label_key(m)))
}

impl App {
    fn on_toggle_playback(&mut self) -> (fx: Effects)
        ensures
            toggle_post(*old(self), *final(self), fx),
    {
        let output = self.player.toggle_playback();
        match self.player.state() {
            PlayerState::Playing => {
                self.status_message = message(self.language, "status.resumed");
            },
            PlayerState::Paused => {
                self.status_message = message(self.language, "status.paused");
            },
            PlayerState::Stopped => {},
        }
        self.error_message = None;
        Effects { output, ..none() }
    }

    fn on_stop(&mut self) -> (fx: Effects)
        ensures
            stop_post(*old(self), *final(self), fx),
    {
        self.player.stop();
        self.playing_source = None;
        self.status_message = message(self.language, "status.stopped");
        Effects { stop_output: true, ..none() }
    }

    fn on_cycle_play_mode(&mut self) -> (fx: Effects)
        ensures
            cycle_mode_post(*old(self), *final(self), fx),
    {
        self.player.cycle_play_mode();
        let label = self.player.play_mode.label(self.language);
        self.status_message = message1(self.language, "status.play_mode", label.as_str());
        none()
    }
}

// ───────────────────────── going to the playing song ─────────────────────────

/// `di` is where the song `idx` of the filtered list is shown: its first
/// display line, or `idx` itself when no line shows it.
pub open spec fn display_line_of(d: Seq<crate::ui::ItemModel>, idx: int, di: int) -> bool {
    if exists|j: int| 0 <= j < d.len() && d[j] == crate::ui::ItemModel::Song(idx) {
        0 <= di < d.len() && d[di] == crate::ui::ItemModel::Song(idx) && forall|j: int|
            0 <= j < di ==> d[j] != crate::ui::ItemModel::Song(idx)
    } else {
        di == idx
    }
}

pub open spec fn goto_post(o: App, n: App, fx: Effects) -> bool {
    &&& fx == no_effects()
    &&& match o.playing_source {
        Some(PlayingSource::Browse(idx)) => if idx < o.filtered_music@.len() {
            &&& n == (App {
                view_mode: ViewMode::Browse,
                selected: n.selected,
                status_message: n.status_message,
                ..o
            })
            &&& n.selected is Some
            &&& display_line_of(o.display(), idx as int, n.selected->0 as int)
            &&& n.status_message@ == message_with(
                o.language,
                "status.jumped_to"@,
                o.filtered_music@[idx as int].name@,
            )
        } else {
            n == (App { view_mode: ViewMode::Browse, ..o })
        },
        Some(PlayingSource::PlaylistContent(pl, si)) => if pl < o.playlists@.len() && si
            < o.playlists@[pl as int].songs@.len() {
            &&& n == (App {
                view_mode: ViewMode::PlaylistContent(pl),
                pl_content_selected: Some(si),
                status_message: n.status_message,
                ..o
            })
            &&& n.status_message@ == crate::i18n::fill_placeholders(
                message_text(o.language, "status.jumped_to_playlist"@),
                seq![o.playlists@[pl as int].name@, o.playlists@[pl as int].songs@[si as int].name@],
            )
        } else {
            n == (App { view_mode: ViewMode::PlaylistContent(pl), ..o })
        },
        None => n == (App { status_message: n.status_message, ..o }) && n.status_message@
            == plain_message(o.language, "app.no_playing"@),
    }
}

impl App {
    fn on_go_to_playing(&mut self) -> (fx: Effects)
        ensures
            goto_post(*old(self), *final(self), fx),
    {
        match self.playing_source {
            Some(PlayingSource::Browse(idx)) => {
                self.view_mode = ViewMode::Browse;
                if idx < self.filtered_music.len() {
                    let di = match self.find_display_index_for_song(idx) {
                        Some(d) => d,
                        None => idx,
                    };
                    self.selected = Some(di);
                    self.status_message = message1(
                        self.language,
                        "status.jumped_to",
                        self.filtered_music[idx].name.as_str(),
                    );
                }
            },
            Some(PlayingSource::PlaylistContent(pl_idx, song_idx)) => {
                self.view_mode = ViewMode::PlaylistContent(pl_idx);
                if pl_idx < self.playlists.len() && song_idx < self.playlists[pl_idx].songs.len() {
                    self.pl_content_selected = Some(song_idx);
                    let mut args: Vec<String> = Vec::new();
                    args.push(self.playlists[pl_idx].name.clone());
                    args.push(self.playlists[pl_idx].songs[song_idx].name.clone());
                    proof {
                        assert(crate::i18n::strings_model(args@) =~= seq![
                            self.playlists@[pl_idx as int].name@,
                            self.playlists@[pl_idx as int].songs@[song_idx as int].name@,
                        ]);
                    }
                    self.status_message = crate::i18n::tf(self.language, "status.jumped_to_playlist", &args);
                }
            },
            None => {
                self.status_message = message(self.language, "app.no_playing");
            },
        }
        none()
    }
}

// ───────────────────────── search ─────────────────────────

/// Number of songs the current view lists.
pub open spec fn view_count(a: App) -> int {
    match a.view_mode {
        ViewMode::PlaylistContent(pl) => crate::ui::content_songs(a.playlists@, pl as int, a.search_query@).len() as int,
        _ => a.filtered_music@.len() as int,
    }
}

pub open spec fn confirm_search_post(o: App, n: App, fx: Effects) -> bool {
    &&& fx == no_effects()
    &&& filter_applied(App { search_mode: false, ..o }, App { status_message: o.status_message, ..n })
    &&& n.status_message@ == message_with(o.language, "status.search_done"@, decimal(view_count(n) as nat))
}

/// The query changes to `q` and the filter is applied again.
pub open spec fn query_post(o: App, n: App, q: Seq<char>, mode: bool, fx: Effects) -> bool {
    &&& fx == no_effects()
    &&& n.search_query@ == q
    &&& filter_applied(App { search_mode: mode, search_query: n.search_query, ..o }, n)
}

impl App {
    fn on_confirm_search(&mut self) -> (fx: Effects)
        ensures
            confirm_search_post(*old(self), *final(self), fx),
    {
        self.search_mode = false;
        self.apply_filter();
        let count = match self.view_mode {
            ViewMode::PlaylistContent(pl_idx) => self.current_playlist_songs(pl_idx).len(),
            _ => self.filtered_music.len(),
        };
        let text = decimal_string(count as u64);
        self.status_message = message1(self.language, "status.search_done", text.as_str());
        none()
    }

    fn on_cancel_search(&mut self) -> (fx: Effects)
        ensures
            query_post(*old(self), *final(self), Seq::<char>::empty(), false, fx),
    {
        self.search_mode = false;
        self.search_query = String::new();
        self.apply_filter();
        none()
    }

    fn on_delete_search_char(&mut self) -> (fx: Effects)
        ensures
            query_post(*old(self), *final(self), popped(old(self).search_query@), old(self).search_mode, fx),
    {
        let v = crate::text::chars_of(self.search_query.as_str());
        if v.len() > 0 {
            self.search_query = crate::text::string_from(&v, 0, v.len() - 1);
            proof {
                assert(v@.subrange(0, v.len() - 1) =~= old(self).search_query@.drop_last());
            }
        }
        self.apply_filter();
        none()
    }

    fn on_push_search_char(&mut self, c: char) -> (fx: Effects)
        ensures
            query_post(*old(self), *final(self), old(self).search_query@.push(c), old(self).search_mode, fx),
    {
        push_char(&mut self.search_query, c);
        self.apply_filter();
        none()
    }
}

// ───────────────────────── playlists ─────────────────────────

pub open spec fn confirm_create_post(o: App, n: App, fx: Effects) -> bool {
    let name = new_playlist_name(o.language, o.new_playlist_name@, (o.playlists@.len() + 1) as nat);
    &&& fx == (Effects { save_playlists: true, ..no_effects() })
    &&& playlists_model(n.playlists@) == playlists_model(o.playlists@).push((name, Seq::<MusicEntry>::empty()))
    &&& n.new_playlist_name@ == Seq::<char>::empty()
    &&& n == (App {
        playlists: n.playlists,
        creating_playlist: false,
        new_playlist_name: n.new_playlist_name,
        status_message: n.status_message,
        ..o
    })
    &&& n.status_message@ == message_with(o.language, "playlist.created"@, name)
}

/// The playlists a song is added to: a first one is made when there is none.
pub open spec fn playlists_for_adding(o: App) -> Seq<(Seq<char>, Seq<MusicEntry>)> {
    if o.playlists@.len() == 0 {
        seq![(new_playlist_name(o.language, default_playlist_name(o.language, 1), 1), Seq::<MusicEntry>::empty())]
    } else {
        playlists_model(o.playlists@)
    }
}

pub open spec fn add_to_playlist_post(o: App, n: App, fx: Effects) -> bool {
    if view_has_selection(o) {
        let pm = playlists_for_adding(o);
        let idx = if o.pick_index < pm.len() - 1 {
            o.pick_index as int
        } else {
            pm.len() - 1
        };
        &&& fx == (Effects { save_playlists: true, ..no_effects() })
        &&& playlists_model(n.playlists@) == added_song(pm, idx, selected_entry(o))
        &&& n == (App { playlists: n.playlists, status_message: n.status_message, ..o })
        &&& n.status_message@ == message_with(o.language, "playlist.added"@, pm[idx].0)
    } else {
        fx == no_effects() && n == o
    }
}

pub open spec fn delete_item_post(o: App, n: App, fx: Effects) -> bool {
    match o.view_mode {
        ViewMode::PlaylistList => {
            let idx = crate::ui::opt_usize(o.pl_selected);
            if idx < o.playlists@.len() {
                &&& fx == (Effects { save_playlists: true, ..no_effects() })
                &&& n.playlists@ == o.playlists@.remove(idx)
                &&& n == (App { playlists: n.playlists, status_message: n.status_message, ..o })
                &&& n.status_message@ == plain_message(o.language, "playlist.deleted"@)
            } else {
                fx == no_effects() && n == o
            }
        },
        ViewMode::PlaylistContent(pl) => {
            let idx = crate::ui::opt_usize(o.pl_content_selected);
            if pl < o.playlists@.len() && idx < o.playlists@[pl as int].songs@.len() {
                &&& fx == (Effects { save_playlists: true, ..no_effects() })
                &&& playlists_model(n.playlists@) == playlists_model(o.playlists@).update(
                    pl as int,
                    (o.playlists@[pl as int].name@, o.playlists@[pl as int].songs@.remove(idx)),
                )
                &&& n == (App { playlists: n.playlists, status_message: n.status_message, ..o })
                &&& n.status_message@ == plain_message(o.language, "playlist.removed"@)
            } else {
                fx == no_effects() && n == o
            }
        },
        ViewMode::Browse => fx == no_effects() && n == o,
    }
}

impl App {
    fn on_confirm_create_playlist(&mut self) -> (fx: Effects)
        requires
            old(self).playlists@.len() < usize::MAX,
        ensures
            confirm_create_post(*old(self), *final(self), fx),
    {
        let name = self.new_playlist_name.clone();
        self.create_playlist(name);
        self.creating_playlist = false;
        self.new_playlist_name = String::new();
        let last = self.playlists.len() - 1;
        proof {
            assert(playlists_model(self.playlists@)[last as int] == (
                self.playlists@[last as int].name@,
                self.playlists@[last as int].songs@,
            ));
        }
        self.status_message = message1(self.language, "playlist.created", self.playlists[last].name.as_str());
        Effects { save_playlists: true, ..none() }
    }

    /// Makes a first playlist, with the default name, when there is none.
    fn ensure_playlist(&mut self)
        requires
            old(self).playlists@.len() < usize::MAX,
        ensures
            playlists_model(final(self).playlists@) == playlists_for_adding(*old(self)),
            final(self).playlists@.len() > 0,
            *final(self) == (App { playlists: final(self).playlists, ..*old(self) }),
    {
        if self.playlists.len() == 0 {
            let mut args: Vec<String> = Vec::new();
            args.push(decimal_string(1));
            proof {
                assert(crate::i18n::strings_model(args@) =~= seq![decimal(1)]);
            }
            let name = crate::i18n::tf(self.language, "playlist.default_name", &args);
            self.create_playlist(name);
            proof {
                assert(playlists_model(self.playlists@) =~= playlists_for_adding(*old(self)));
            }
        }
    }

    fn on_add_to_playlist(&mut self) -> (fx: Effects)
        requires
            old(self).playlists@.len() < usize::MAX,
        ensures
            add_to_playlist_post(*old(self), *final(self), fx),
    {
        let music = match self.selected_in_current_view() {
            Some((m, _)) => m,
            None => {
                return none();
            },
        };
        self.ensure_playlist();
        let ghost pm = playlists_model(self.playlists@);
        let last = self.playlists.len() - 1;
        let idx = if self.pick_index < last {
            self.pick_index
        } else {
            last
        };
        let name = self.playlists[idx].name.clone();
        proof {
            assert(pm[idx as int] == (self.playlists@[idx as int].name@, self.playlists@[idx as int].songs@));
        }
        self.add_to_playlist(idx, music);
        self.status_message = message1(self.language, "playlist.added", name.as_str());
        Effects { save_playlists: true, ..none() }
    }

    fn on_delete_item(&mut self) -> (fx: Effects)
        ensures
            delete_item_post(*old(self), *final(self), fx),
    {
        match self.view_mode {
            ViewMode::PlaylistList => {
                let idx = match self.pl_selected {
                    Some(i) => i,
                    None => 0,
                };
                if self.delete_playlist(idx) {
                    self.status_message = message(self.language, "playlist.deleted");
                    Effects { save_playlists: true, ..none() }
                } else {
                    none()
                }
            },
            ViewMode::PlaylistContent(_) => {
                let idx = match self.pl_content_selected {
                    Some(i) => i,
                    None => 0,
                };
                if self.remove_song_from_current_playlist(idx) {
                    self.status_message = message(self.language, "playlist.removed");
                    Effects { save_playlists: true, ..none() }
                } else {
                    none()
                }
            },
            ViewMode::Browse => none(),
        }
    }
}

// ───────────────────────── servers ─────────────────────────

/// No server has a URL (or there is no server).
pub open spec fn no_server(c: Seq<ServerConfig>) -> bool {
    forall|i: int| 0 <= i < c.len() ==> (#[trigger] c[i]).server_url@.len() == 0
}

fn has_server_url(c: &Vec<ServerConfig>) -> (r: bool)
    ensures
        r == !no_server(c@),
{
    let mut k: usize = 0;
    while k < c.len()
        invariant
            k <= c.len(),
            forall|i: int| 0 <= i < k ==> (#[trigger] c@[i]).server_url@.len() == 0,
        decreases c.len() - k,
    {
        if c[k].server_url.as_str().unicode_len() > 0 {
            return true;
        }
        k = k + 1;
    }
    false
}

fn clone_configs(c: &Vec<ServerConfig>) -> (r: Vec<ServerConfig>)
    ensures
        r@ == c@,
{
    let mut out: Vec<ServerConfig> = Vec::new();
    let mut k: usize = 0;
    while k < c.len()
        invariant
            k <= c.len(),
            out@ == c@.take(k as int),
        decreases c.len() - k,
    {
        out.push(c[k].clone());
        proof {
            assert(out@ =~= c@.take(k + 1));
        }
        k = k + 1;
    }
    proof {
        assert(c@.take(k as int) =~= c@);
    }
    out
}

pub open spec fn refresh_post(o: App, n: App, fx: Effects) -> bool {
    &&& n == (App { status_message: n.status_message, ..o })
    &&& if no_server(o.server_configs@) {
        fx == no_effects() && n.status_message@ == plain_message(o.language, "app.no_server"@)
    } else {
        fx == (Effects { refresh: true, background: true, ..no_effects() }) && n.status_message@
            == plain_message(o.language, "status.refreshing"@)
    }
}

pub open spec fn configure_post(o: App, n: App, fx: Effects) -> bool {
    &&& fx == no_effects()
    &&& n.config_servers@ == o.server_configs@
    &&& n.config_inputs@.len() == 0
    &&& n == (App {
        config_mode: true,
        config_phase: 0,
        config_focus: 0,
        config_edit_idx: 0,
        config_inputs: n.config_inputs,
        config_servers: n.config_servers,
        ..o
    })
}

pub open spec fn confirm_config_post(o: App, n: App, fx: Effects) -> bool {
    let cfgs = o.config_servers@;
    &&& n.server_configs@ == cfgs
    &&& n.config_servers@.len() == 0
    &&& n.config_inputs@.len() == 0
    &&& pool_built(cfgs, n.server)
    &&& n == (App {
        config_mode: false,
        config_phase: 0,
        config_inputs: n.config_inputs,
        config_servers: n.config_servers,
        server_configs: n.server_configs,
        server: n.server,
        status_message: n.status_message,
        ..o
    })
    &&& n.status_message@ == message_with(o.language, "status.servers_saved"@, decimal(cfgs.len()))
    &&& fx == (if no_server(cfgs) {
        Effects { save_servers: true, ..no_effects() }
    } else {
        Effects { save_servers: true, refresh: true, background: true, ..no_effects() }
    })
}

/// Events that move the selection or edit the search.
pub open spec fn is_navigation(e: AppEvent) -> bool {
    ||| e matches AppEvent::MoveUp
    ||| e matches AppEvent::MoveDown
    ||| e matches AppEvent::ScrollUp
    ||| e matches AppEvent::ScrollDown
    ||| e matches AppEvent::GoToPlaying
    ||| e matches AppEvent::EnterSearch
    ||| e matches AppEvent::ConfirmSearch
    ||| e matches AppEvent::CancelSearch
    ||| e matches AppEvent::DeleteSearchChar
    ||| e matches AppEvent::PushSearchChar(_)
}

/// Events that create playlists or change their songs.
pub open spec fn is_playlist_edit(e: AppEvent) -> bool {
    ||| e matches AppEvent::CreatePlaylist
    ||| e matches AppEvent::ConfirmCreatePlaylist
    ||| e matches AppEvent::AddToPlaylist
    ||| e matches AppEvent::DeleteItem
}

impl App {
    /// At start-up: without a server URL the configuration screen opens with
    /// a prompt; otherwise the song list is to be fetched (returns `true`).
    pub fn on_startup(&mut self) -> (fetch: bool)
        ensures
            fetch == !no_server(old(self).server_configs@),
            if fetch {
                *final(self) == *old(self)
            } else {
                &&& *final(self) == (App {
                    config_mode: true,
                    status_message: final(self).status_message,
                    ..*old(self)
                })
                &&& final(self).status_message@ == plain_message(old(self).language, "app.config_prompt"@)
            },
    {
        if has_server_url(&self.server_configs) {
            true
        } else {
            self.config_mode = true;
            self.status_message = message(self.language, "app.config_prompt");
            false
        }
    }

    fn on_refresh(&mut self) -> (fx: Effects)
        ensures
            refresh_post(*old(self), *final(self), fx),
    {
        if !has_server_url(&self.server_configs) {
            self.status_message = message(self.language, "app.no_server");
            none()
        } else {
            self.status_message = message(self.language, "status.refreshing");
            Effects { refresh: true, background: true, ..none() }
        }
    }

    fn on_configure_server(&mut self) -> (fx: Effects)
        ensures
            configure_post(*old(self), *final(self), fx),
    {
        self.config_mode = true;
        self.config_phase = 0;
        self.config_focus = 0;
        self.config_edit_idx = 0;
        self.config_inputs = Vec::new();
        self.config_servers = clone_configs(&self.server_configs);
        none()
    }

    fn on_confirm_config(&mut self) -> (fx: Effects)
        ensures
            confirm_config_post(*old(self), *final(self), fx),
    {
        self.config_mode = false;
        self.config_phase = 0;
        self.config_inputs = Vec::new();
        let mut cfgs: Vec<ServerConfig> = Vec::new();
        std::mem::swap(&mut cfgs, &mut self.config_servers);
        self.server = create_server_pool(&cfgs);
        let count = decimal_string(cfgs.len() as u64);
        self.status_message = message1(self.language, "status.servers_saved", count.as_str());
        let refresh = has_server_url(&cfgs);
        self.server_configs = cfgs;
        if refresh {
            Effects { save_servers: true, refresh: true, background: true, ..none() }
        } else {
            Effects { save_servers: true, ..none() }
        }
    }
}

// ───────────────────────── queue ─────────────────────────

pub open spec fn enqueue_post(o: App, n: App, front: bool, fx: Effects) -> bool {
    &&& fx == no_effects()
    &&& if view_has_selection(o) {
        let m = selected_entry(o);
        let q = if front {
            seq![m] + o.player.queue@
        } else {
            o.player.queue@.push(m)
        };
        &&& n.player.queue@ == q
        &&& n == (App {
            player: Playback { queue: n.player.queue, ..o.player },
            status_message: n.status_message,
            ..o
        })
        &&& n.status_message@ == message_with(
            o.language,
            if front {
                "queue.added_front"@
            } else {
                "queue.added_back"@
            },
            decimal(q.len()),
        )
    } else {
        n == o
    }
}

/// Where a song picked from the queue plays from: its index in the list
/// the playing song came from, if that list holds it; else the source stays.
pub open spec fn picked_source(a: App, path: Seq<char>) -> Option<PlayingSource> {
    match a.playing_source {
        Some(PlayingSource::Browse(_)) => if pos_of_path(a.filtered_music@, path) >= 0 {
            Some(PlayingSource::Browse(pos_of_path(a.filtered_music@, path) as usize))
        } else {
            a.playing_source
        },
        Some(PlayingSource::PlaylistContent(pl, _)) => if pl < a.playlists@.len() && pos_of_path(
            a.playlists@[pl as int].songs@,
            path,
        ) >= 0 {
            Some(
                PlayingSource::PlaylistContent(
                    pl,
                    pos_of_path(a.playlists@[pl as int].songs@, path) as usize,
                ),
            )
        } else {
            a.playing_source
        },
        None => None,
    }
}

pub open spec fn queue_play_post(o: App, n: App, fx: Effects) -> bool {
    let q = o.player.queue@;
    let sel = o.queue_selected as int;
    if sel < q.len() {
        &&& fx == (Effects { play: Some(q[sel]), background: true, ..no_effects() })
        &&& n.player.queue@ == q.remove(sel)
        &&& n == (App {
            player: Playback { queue: n.player.queue, ..o.player },
            playing_source: picked_source(o, q[sel].absolute_path@),
            ..o
        })
    } else {
        fx == no_effects() && n == o
    }
}

impl App {
    fn on_enqueue(&mut self, front: bool) -> (fx: Effects)
        ensures
            enqueue_post(*old(self), *final(self), front, fx),
    {
        let music = match self.selected_in_current_view() {
            Some((m, _)) => m,
            None => {
                return none();
            },
        };
        if front {
            self.player.queue.push_front(music);
        } else {
            self.player.queue.push_back(music);
        }
        let count = decimal_string(self.player.queue.len() as u64);
        self.status_message = message1(
            self.language,
            if front {
                "queue.added_front"
            } else {
                "queue.added_back"
            },
            count.as_str(),
        );
        none()
    }

    fn on_queue_play_selected(&mut self) -> (fx: Effects)
        ensures
            queue_play_post(*old(self), *final(self), fx),
    {
        let music = match self.player.queue.remove(self.queue_selected) {
            Some(m) => m,
            None => {
                return none();
            },
        };
        match self.playing_source {
            Some(PlayingSource::Browse(_)) => {
                match position_of_path(&self.filtered_music, &music.absolute_path) {
                    Some(idx) => {
                        self.playing_source = Some(PlayingSource::Browse(idx));
                    },
                    None => {},
                }
            },
            Some(PlayingSource::PlaylistContent(pl_idx, _)) => {
                if pl_idx < self.playlists.len() {
                    match position_of_path(&self.playlists[pl_idx].songs, &music.absolute_path) {
                        Some(si) => {
                            self.playing_source = Some(PlayingSource::PlaylistContent(pl_idx, si));
                        },
                        None => {},
                    }
                }
            },
            None => {},
        }
        Effects { play: Some(music), background: true, ..none() }
    }
}

// ───────────────────────── sort, artist filter, language ─────────────────────────

pub open spec fn cycle_sort_post(o: App, n: App, fx: Effects) -> bool {
    let m = next_sort(o.sort_mode);
    let f = crate::ui::sorted_songs(m, o.filtered_music@);
    let d = display_of(m, f);
    &&& fx == no_effects()
    &&& n.filtered_music@ == f
    &&& n.display() == d
    &&& n.selected == clamped_selection(d, o.selected)
    &&& n == (App {
        sort_mode: m,
        filtered_music: n.filtered_music,
        display_items: n.display_items,
        selected: n.selected,
        status_message: n.status_message,
        ..o
    })
    &&& n.status_message@ == message_with(
        o.language,
        "status.sort_changed"@,
        fill_placeholders(message_text(o.language, sort_label_key(m)), seq![]),
    )
}

pub open spec fn filter_artist_post(o: App, n: App, fx: Effects) -> bool {
    &&& fx == no_effects()
    &&& if browse_has_selection(o) {
        let a = o.filtered_music@[selected_song(o.display(), o.selected)->0].artist@;
        let nf = if opt_view(o.artist_filter) == Some(a) {
            None
        } else {
            Some(a)
        };
        &&& opt_view(n.artist_filter) == nf
        &&& filter_applied(App { artist_filter: n.artist_filter, ..o }, App { status_message: o.status_message, ..n })
        &&& n.status_message@ == match nf {
            Some(x) => message_with(o.language, "status.filter_artist"@, x),
            None => plain_message(o.language, "status.filter_cleared"@),
        }
    } else {
        n == o
    }
}

pub open spec fn clear_artist_post(o: App, n: App, fx: Effects) -> bool {
    &&& fx == no_effects()
    &&& if o.artist_filter is Some {
        &&& filter_applied(App { artist_filter: None, ..o }, App { status_message: o.status_message, ..n })
        &&& n.status_message@ == plain_message(o.language, "status.filter_cleared"@)
    } else {
        n == o
    }
}

pub open spec fn toggle_language_post(o: App, n: App, fx: Effects) -> bool {
    let l = match o.language {
        Language::Zh => Language::En,
        Language::En => Language::Zh,
    };
    &&& fx == (Effects { save_language: true, ..no_effects() })
    &&& n == (App { language: l, status_message: n.status_message, ..o })
    &&& n.status_message@ == plain_message(l, "status.lang_switched"@)
}

impl App {
    fn on_cycle_sort(&mut self) -> (fx: Effects)
        ensures
            cycle_sort_post(*old(self), *final(self), fx),
    {
        self.sort_mode = self.sort_mode.next();
        self.apply_sort();
        self.rebuild_display();
        let label = self.sort_mode.label(self.language);
        self.status_message = message1(self.language, "status.sort_changed", label.as_str());
        none()
    }

    fn on_filter_by_artist(&mut self) -> (fx: Effects)
        ensures
            filter_artist_post(*old(self), *final(self), fx),
    {
        let artist = match self.selected_music() {
            Some(m) => m.artist.clone(),
            None => {
                return none();
            },
        };
        let same = match &self.artist_filter {
            Some(f) => *f == artist,
            None => false,
        };
        if same {
            self.artist_filter = None;
        } else {
            self.artist_filter = Some(artist);
        }
        self.apply_filter();
        self.status_message = match &self.artist_filter {
            Some(a) => message1(self.language, "status.filter_artist", a.as_str()),
            None => message(self.language, "status.filter_cleared"),
        };
        none()
    }

    fn on_clear_artist_filter(&mut self) -> (fx: Effects)
        ensures
            clear_artist_post(*old(self), *final(self), fx),
    {
        if self.artist_filter.is_some() {
            self.artist_filter = None;
            self.apply_filter();
            self.status_message = message(self.language, "status.filter_cleared");
        }
        none()
    }

    fn on_toggle_language(&mut self) -> (fx: Effects)
        ensures
            toggle_language_post(*old(self), *final(self), fx),
    {
        self.language = self.language.toggle();
        self.status_message = message(self.language, "status.lang_switched");
        Effects { save_language: true, ..none() }
    }
}

// ───────────────────────── skipping a track ─────────────────────────

pub open spec fn next_track_post(o: App, n: App, fx: Effects) -> bool {
    let mid = App { player: stopped(o.player), ..o };
    let play = |m: MusicEntry| Effects { play: Some(m), stop_output: true, background: true, ..no_effects() };
    let end = Effects { stop_output: true, background: true, ..no_effects() };
    if o.player.queue@.len() > 0 {
        fx == play(o.player.queue@[0]) && auto_next_post(mid, n, AutoNext::Play(o.player.queue@[0]))
    } else if o.player.play_mode == PlayMode::Shuffle {
        exists|mid2: App, m: Option<MusicEntry>|
            #[trigger] shuffle_post(mid, mid2, m) && match m {
                Some(x) => n == mid2 && fx == play(x),
                None => fx == end && n == (App { playing_source: None, status_message: n.status_message, ..mid2 })
                    && n.status_message@ == plain_message(o.language, "status.shuffle_end"@),
            }
    } else {
        match sequential_next(mid) {
            Some((m, src)) => fx == play(m) && n == (App { playing_source: Some(src), ..mid }),
            None => fx == end && n == (App { playing_source: None, status_message: n.status_message, ..mid })
                && n.status_message@ == plain_message(o.language, "status.playlist_end"@),
        }
    }
}

impl App {
    #[verifier::rlimit(60)]
    fn on_next_track(&mut self) -> (fx: Effects)
        requires
            source_valid(*old(self)),
        ensures
            next_track_post(*old(self), *final(self), fx),
    {
        self.player.stop();
        if !self.player.queue.is_empty() {
            let r = handle_auto_next(self);
            return match r {
                AutoNext::Play(m) => Effects { play: Some(m), stop_output: true, background: true, ..none() },
                _ => Effects { stop_output: true, background: true, ..none() },
            };
        }
        match self.player.play_mode {
            PlayMode::Shuffle => {
                let ghost mid = *self;
                let m = advance_shuffle(self);
                let ghost mid2 = *self;
                match m {
                    Some(x) => {
                        proof {
                            assert(shuffle_post(mid, mid2, Some(x)));
                        }
                        Effects { play: Some(x), stop_output: true, background: true, ..none() }
                    },
                    None => {
                        self.playing_source = None;
                        self.status_message = message(self.language, "status.shuffle_end");
                        proof {
                            assert(shuffle_post(mid, mid2, None::<MusicEntry>));
                        }
                        Effects { stop_output: true, background: true, ..none() }
                    },
                }
            },
            _ => {
                match advance_sequential(self) {
                    Some(m) => Effects { play: Some(m), stop_output: true, background: true, ..none() },
                    None => {
                        self.playing_source = None;
                        self.status_message = message(self.language, "status.playlist_end");
                        Effects { stop_output: true, background: true, ..none() }
                    },
                }
            },
        }
    }
}

// ───────────────────────── dispatch ─────────────────────────

pub open spec fn play_selected_post(o: App, n: App, fx: Effects) -> bool {
    if view_has_selection(o) {
        &&& fx == (Effects { play: Some(selected_entry(o)), background: true, ..no_effects() })
        &&& n == (App { playing_source: start_source(o, selected_entry(o)), ..o })
    } else {
        fx == (Effects { background: true, ..no_effects() }) && n == o
    }
}

/// What each event does to the model and which outside work it leaves.
pub open spec fn action_post(o: App, n: App, e: AppEvent, fx: Effects) -> bool {
    match e {
        AppEvent::PlaySelected => play_selected_post(o, n, fx),
        AppEvent::TogglePlayback => toggle_post(o, n, fx),
        AppEvent::Stop => stop_post(o, n, fx),
        AppEvent::SeekForward => n == o && fx == (Effects { seek_secs: 5, ..no_effects() }),
        AppEvent::SeekBackward => n == o && fx == (Effects { seek_secs: -5i64, ..no_effects() }),
        AppEvent::CyclePlayMode => cycle_mode_post(o, n, fx),
        AppEvent::VolumeUp => n == o && fx == (Effects { volume_step: 1, ..no_effects() }),
        AppEvent::VolumeDown => n == o && fx == (Effects { volume_step: -1i64, ..no_effects() }),
        AppEvent::MoveUp => n == navigated_up(o) && fx == no_effects(),
        AppEvent::MoveDown => n == navigated_down(o) && fx == no_effects(),
        AppEvent::ScrollUp => n == scrolled_up(o) && fx == no_effects(),
        AppEvent::ScrollDown => n == scrolled_down(o) && fx == no_effects(),
        AppEvent::GoToPlaying => goto_post(o, n, fx),
        AppEvent::EnterSearch => n == (App { search_mode: true, ..o }) && fx == no_effects(),
        AppEvent::ConfirmSearch => confirm_search_post(o, n, fx),
        AppEvent::CancelSearch => query_post(o, n, Seq::<char>::empty(), false, fx),
        AppEvent::DeleteSearchChar => query_post(o, n, popped(o.search_query@), o.search_mode, fx),
        AppEvent::PushSearchChar(c) => query_post(o, n, o.search_query@.push(c), o.search_mode, fx),
        AppEvent::CreatePlaylist => n == (App {
            creating_playlist: true,
            new_playlist_name: n.new_playlist_name,
            ..o
        }) && n.new_playlist_name@ == Seq::<char>::empty() && fx == no_effects(),
        AppEvent::ConfirmCreatePlaylist => confirm_create_post(o, n, fx),
        AppEvent::AddToPlaylist => add_to_playlist_post(o, n, fx),
        AppEvent::DeleteItem => delete_item_post(o, n, fx),
        AppEvent::Quit | AppEvent::Nothing => n == o && fx == no_effects(),
        AppEvent::ShowHelp => n == (App { show_help: true, ..o }) && fx == no_effects(),
        AppEvent::Refresh => refresh_post(o, n, fx),
        AppEvent::ConfigureServer => configure_post(o, n, fx),
        AppEvent::ConfirmConfig => confirm_config_post(o, n, fx),
        AppEvent::PlayNext => enqueue_post(o, n, true, fx),
        AppEvent::AddToQueue => enqueue_post(o, n, false, fx),
        AppEvent::ToggleQueue => fx == no_effects() && n == (App {
            showing_queue: !o.showing_queue,
            queue_selected: if !o.showing_queue {
                0
            } else {
                o.queue_selected
            },
            ..o
        }),
        AppEvent::QueuePlaySelected => queue_play_post(o, n, fx),
        AppEvent::CycleSort => cycle_sort_post(o, n, fx),
        AppEvent::FilterByArtist => filter_artist_post(o, n, fx),
        AppEvent::ClearArtistFilter => clear_artist_post(o, n, fx),
        AppEvent::ToggleLanguage => toggle_language_post(o, n, fx),
        AppEvent::NextTrack => next_track_post(o, n, fx),
        AppEvent::ToggleCover => n == (App { show_cover: !o.show_cover, ..o }) && fx == (Effects {
            fetch_cover: !o.show_cover,
            ..no_effects()
        }),
    }
}

impl App {
    /// Playback events.
    #[verifier::rlimit(40)]
    fn playback_action(&mut self, action: AppEvent) -> (fx: Effects)
        requires
            action matches AppEvent::PlaySelected
                || action matches AppEvent::TogglePlayback
                || action matches AppEvent::Stop
                || action matches AppEvent::SeekForward
                || action matches AppEvent::SeekBackward
                || action matches AppEvent::CyclePlayMode
                || action matches AppEvent::VolumeUp
                || action matches AppEvent::VolumeDown
                || action matches AppEvent::NextTrack,
            action matches AppEvent::NextTrack ==> source_valid(*old(self)),
        ensures
            action_post(*old(self), *final(self), action, fx),
    {
        match action {
            AppEvent::PlaySelected => {
                match start_playback(self) {
                    Some(m) => Effects { play: Some(m), background: true, ..none() },
                    None => Effects { background: true, ..none() },
                }
            },
            AppEvent::TogglePlayback => self.on_toggle_playback(),
            AppEvent::Stop => self.on_stop(),
            AppEvent::SeekForward => Effects { seek_secs: 5, ..none() },
            AppEvent::SeekBackward => Effects { seek_secs: -5, ..none() },
            AppEvent::CyclePlayMode => self.on_cycle_play_mode(),
            AppEvent::VolumeUp => Effects { volume_step: 1, ..none() },
            AppEvent::VolumeDown => Effects { volume_step: -1, ..none() },
            AppEvent::NextTrack => self.on_next_track(),
            _ => none(),
        }
    }

    /// Navigation and search events.
    #[verifier::rlimit(40)]
    fn navigation_action(&mut self, action: AppEvent) -> (fx: Effects)
        requires
            action matches AppEvent::MoveUp
                || action matches AppEvent::MoveDown
                || action matches AppEvent::ScrollUp
                || action matches AppEvent::ScrollDown
                || action matches AppEvent::GoToPlaying
                || action matches AppEvent::EnterSearch
                || action matches AppEvent::ConfirmSearch
                || action matches AppEvent::CancelSearch
                || action matches AppEvent::DeleteSearchChar
                || action matches AppEvent::PushSearchChar(_),
            old(self).selections_bounded(),
        ensures
            action_post(*old(self), *final(self), action, fx),
    {
        match action {
            AppEvent::MoveUp => {
                self.navigate_up();
                none()
            },
            AppEvent::MoveDown => {
                self.navigate_down();
                none()
            },
            AppEvent::ScrollUp => {
                self.scroll_up();
                none()
            },
            AppEvent::ScrollDown => {
                self.scroll_down();
                none()
            },
            AppEvent::GoToPlaying => self.on_go_to_playing(),
            AppEvent::EnterSearch => {
                self.search_mode = true;
                none()
            },
            AppEvent::ConfirmSearch => self.on_confirm_search(),
            AppEvent::CancelSearch => self.on_cancel_search(),
            AppEvent::DeleteSearchChar => self.on_delete_search_char(),
            AppEvent::PushSearchChar(c) => self.on_push_search_char(c),
            _ => none(),
        }
    }

    /// Playlist events.
    #[verifier::rlimit(40)]
    fn playlist_action(&mut self, action: AppEvent) -> (fx: Effects)
        requires
            action matches AppEvent::CreatePlaylist
                || action matches AppEvent::ConfirmCreatePlaylist
                || action matches AppEvent::AddToPlaylist
                || action matches AppEvent::DeleteItem,
            old(self).playlists@.len() < usize::MAX,
        ensures
            action_post(*old(self), *final(self), action, fx),
    {
        match action {
            AppEvent::CreatePlaylist => {
                self.creating_playlist = true;
                self.new_playlist_name = String::new();
                none()
            },
            AppEvent::ConfirmCreatePlaylist => self.on_confirm_create_playlist(),
            AppEvent::AddToPlaylist => self.on_add_to_playlist(),
            AppEvent::DeleteItem => self.on_delete_item(),
            _ => none(),
        }
    }

    /// Configuration, sort, filter, language and overlay events.
    #[verifier::rlimit(40)]
    fn system_action(&mut self, action: AppEvent) -> (fx: Effects)
        requires
            action matches AppEvent::Quit
                || action matches AppEvent::Nothing
                || action matches AppEvent::ShowHelp
                || action matches AppEvent::Refresh
                || action matches AppEvent::ConfigureServer
                || action matches AppEvent::ConfirmConfig
                || action matches AppEvent::CycleSort
                || action matches AppEvent::FilterByArtist
                || action matches AppEvent::ClearArtistFilter
                || action matches AppEvent::ToggleLanguage
                || action matches AppEvent::ToggleCover,
        ensures
            action_post(*old(self), *final(self), action, fx),
    {
        match action {
            AppEvent::Quit | AppEvent::Nothing => none(),
            AppEvent::ShowHelp => {
                self.show_help = true;
                none()
            },
            AppEvent::Refresh => self.on_refresh(),
            AppEvent::ConfigureServer => self.on_configure_server(),
            AppEvent::ConfirmConfig => self.on_confirm_config(),
            AppEvent::CycleSort => self.on_cycle_sort(),
            AppEvent::FilterByArtist => self.on_filter_by_artist(),
            AppEvent::ClearArtistFilter => self.on_clear_artist_filter(),
            AppEvent::ToggleLanguage => self.on_toggle_language(),
            AppEvent::ToggleCover => {
                self.show_cover = !self.show_cover;
                Effects { fetch_cover: self.show_cover, ..none() }
            },

            _ => none(),
        }
    }

    /// Play-queue events.
    #[verifier::rlimit(40)]
    fn queue_action(&mut self, action: AppEvent) -> (fx: Effects)
        requires
            action matches AppEvent::PlayNext
                || action matches AppEvent::AddToQueue
                || action matches AppEvent::ToggleQueue
                || action matches AppEvent::QueuePlaySelected,
        ensures
            action_post(*old(self), *final(self), action, fx),
    {
        match action {
            AppEvent::PlayNext => self.on_enqueue(true),
            AppEvent::AddToQueue => self.on_enqueue(false),
            AppEvent::ToggleQueue => {
                self.showing_queue = !self.showing_queue;
                if self.showing_queue {
                    self.queue_selected = 0;
                }
                none()
            },
            AppEvent::QueuePlaySelected => self.on_queue_play_selected(),
            _ => none(),
        }
    }

    /// Carries out an event on the model (see `action_post`) and returns the
    /// outside work it leaves.
    pub fn handle_app_action(&mut self, action: AppEvent) -> (fx: Effects)
        requires
            is_navigation(action) ==> old(self).selections_bounded(),
            is_playlist_edit(action) ==> old(self).playlists@.len() < usize::MAX,
            action == AppEvent::NextTrack ==> source_valid(*old(self)),
        ensures
            action_post(*old(self), *final(self), action, fx),
    {
        match action {
            AppEvent::PlaySelected | AppEvent::TogglePlayback | AppEvent::Stop | AppEvent::SeekForward | AppEvent::SeekBackward | AppEvent::CyclePlayMode | AppEvent::VolumeUp | AppEvent::VolumeDown | AppEvent::NextTrack => self.playback_action(action),
            AppEvent::MoveUp | AppEvent::MoveDown | AppEvent::ScrollUp | AppEvent::ScrollDown | AppEvent::GoToPlaying | AppEvent::EnterSearch | AppEvent::ConfirmSearch | AppEvent::CancelSearch | AppEvent::DeleteSearchChar | AppEvent::PushSearchChar(_) => self.navigation_action(action),
            AppEvent::CreatePlaylist | AppEvent::ConfirmCreatePlaylist | AppEvent::AddToPlaylist | AppEvent::DeleteItem => self.playlist_action(action),
            AppEvent::Quit | AppEvent::Nothing | AppEvent::ShowHelp | AppEvent::Refresh | AppEvent::ConfigureServer | AppEvent::ConfirmConfig | AppEvent::CycleSort | AppEvent::FilterByArtist | AppEvent::ClearArtistFilter | AppEvent::ToggleLanguage | AppEvent::ToggleCover => self.system_action(action),
            AppEvent::PlayNext | AppEvent::AddToQueue | AppEvent::ToggleQueue | AppEvent::QueuePlaySelected => self.queue_action(action),
        }
    }
}


// ───────────────────────── laws of events ─────────────────────────

/// Pausing and resuming: toggling playback twice returns the player to the
/// state it started in.
pub proof fn lemma_toggle_twice_restores(o: App, m: App, n: App, f1: Effects, f2: Effects)
    requires
        action_post(o, m, AppEvent::TogglePlayback, f1),
        action_post(m, n, AppEvent::TogglePlayback, f2),
    ensures
        n.player == o.player,
{
    crate::player::lemma_toggle_twice(o.player.state);
}

/// Moving through the lists never touches playback.
pub proof fn lemma_navigation_keeps_playback(o: App, n: App, e: AppEvent, fx: Effects)
    requires
        action_post(o, n, e, fx),
        e == AppEvent::MoveUp || e == AppEvent::MoveDown || e == AppEvent::ScrollUp || e
            == AppEvent::ScrollDown,
    ensures
        n.player == o.player,
        n.playing_source == o.playing_source,
        fx == no_effects(),
{
}

/// Changing the sort order keeps the same songs (each as often as before)
/// and orders them by the new order.
pub proof fn lemma_cycle_sort_keeps_songs(o: App, n: App, fx: Effects)
    requires
        action_post(o, n, AppEvent::CycleSort, fx),
    ensures
        n.filtered_music@.to_multiset() == o.filtered_music@.to_multiset(),
        crate::ui::sorted_by(n.sort_mode, n.filtered_music@) || n.sort_mode == SortMode::Default,
{
    let m = next_sort(o.sort_mode);
    if m != SortMode::Default {
        crate::ui::lemma_sort_entries(m, o.filtered_music@);
    }
}

/// Going to the playing song of the browse list shows the browse view with
/// the song selected, whenever the display lists it.
pub proof fn lemma_go_to_playing_selects_it(o: App, n: App, fx: Effects, idx: usize, line: int)
    requires
        action_post(o, n, AppEvent::GoToPlaying, fx),
        o.playing_source == Some(PlayingSource::Browse(idx)),
        idx < o.filtered_music@.len(),
        0 <= line < o.display().len(),
        o.display()[line] == crate::ui::ItemModel::Song(idx as int),
    ensures
        n.view_mode == ViewMode::Browse,
        selected_song(n.display(), n.selected) == Some(idx as int),
        n.player == o.player,
        n.playing_source == o.playing_source,
{
}

/// Stopping forgets what was playing: a later auto-next has nothing to walk.
pub proof fn lemma_stop_forgets_source(o: App, n: App, fx: Effects)
    requires
        action_post(o, n, AppEvent::Stop, fx),
    ensures
        n.playing_source is None,
        n.player.state == PlayerState::Stopped,
        fx.stop_output,
{
}

} // verus!
