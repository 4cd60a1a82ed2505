//! Key handling: what a key press does to the interface state in each mode
//! (playlist naming, server configuration, queue overlay, playlist picker,
//! the other overlays and normal browsing), and which event it raises.

use vstd::prelude::*;
use crate::i18n::{fill_placeholders, message_text, strings_model, tf};
use crate::player::{swapped, Playback};
use crate::server::ServerConfig;
use crate::text::{chars_of, push_char, string_from, trim, trim_str};
use crate::ui::{browse_has_selection, opt_usize, view_has_selection, App, AppEvent, ViewMode};

verus! {

/// A key of the keyboard, as far as the interface tells keys apart.
#[derive(Debug, Clone, Copy, PartialEq, Eq, Structural)]
pub enum KeyCode {
    Up,
    Down,
    Left,
    Right,
    PageUp,
    PageDown,
    Enter,
    Esc,
    Backspace,
    Tab,
    Char(char),
    /// Any other key.
    Other,
}

/// Whether a key went down, repeats or went up.
#[derive(Debug, Clone, Copy, PartialEq, Eq, Structural)]
pub enum KeyKind {
    Press,
    Repeat,
    Release,
}

#[derive(Debug, Clone, Copy, PartialEq, Eq, Structural)]
pub struct KeyPress {
    pub code: KeyCode,
    pub kind: KeyKind,
}

/// The text without its last character (`String::pop`).
pub open spec fn popped(s: Seq<char>) -> Seq<char> {
    if s.len() > 0 {
        s.drop_last()
    } else {
        s
    }
}

fn pop_char(s: &mut String)
    ensures
        final(s)@ == popped(old(s)@),
{
    let v = chars_of(s.as_str());
    if v.len() > 0 {
        *s = string_from(&v, 0, v.len() - 1);
        proof {
            assert(v@.subrange(0, v.len() - 1) =~= old(s)@.drop_last());
        }
    }
}

pub open spec fn is_default_config(c: ServerConfig) -> bool {
    &&& c.name@ == Seq::<char>::empty()
    &&& c.server_url@ == Seq::<char>::empty()
    &&& c.server_type@ == "file-transfer"@
    &&& c.username@ == Seq::<char>::empty()
    &&& c.password@ == Seq::<char>::empty()
    &&& !c.disabled
}

/// The edit fields of a server configuration: name, type, URL, user, password.
pub open spec fn config_fields(c: ServerConfig) -> Seq<Seq<char>> {
    seq![c.name@, c.server_type@, c.server_url@, c.username@, c.password@]
}

pub open spec fn texts(v: Seq<String>) -> Seq<Seq<char>> {
    v.map_values(|s: String| s@)
}

/// The server types the type field cycles through.
pub open spec fn server_types() -> Seq<Seq<char>> {
    seq!["file-transfer"@, "navidrome"@, "local"@]
}

/// Index of a server type in the cycle (0 for an unknown type).
pub open spec fn type_index(t: Seq<char>) -> int {
    if t == "file-transfer"@ {
        0
    } else if t == "navidrome"@ {
        1
    } else if t == "local"@ {
        2
    } else {
        0
    }
}

/// Counters that a key may step, with room to do so.
pub open spec fn counters_bounded(a: App) -> bool {
    &&& a.config_focus + a.config_inputs@.len() < usize::MAX
    &&& a.queue_selected < usize::MAX
    &&& a.pick_index < usize::MAX
}

// ───────────────────────── naming a new playlist ─────────────────────────

pub open spec fn create_key_post(o: App, n: App, key: KeyCode, r: Option<AppEvent>) -> bool {
    match key {
        KeyCode::Enter => n == o && r == Some(AppEvent::ConfirmCreatePlaylist),
        KeyCode::Esc => n == (App { creating_playlist: false, new_playlist_name: n.new_playlist_name, ..o })
            && n.new_playlist_name@ == Seq::<char>::empty() && r == Some(AppEvent::Nothing),
        KeyCode::Backspace => n == (App { new_playlist_name: n.new_playlist_name, ..o })
            && n.new_playlist_name@ == popped(o.new_playlist_name@) && r == Some(AppEvent::Nothing),
        KeyCode::Char(c) => n == (App { new_playlist_name: n.new_playlist_name, ..o })
            && n.new_playlist_name@ == o.new_playlist_name@.push(c) && r == Some(AppEvent::Nothing),
        _ => n == o && r is None,
    }
}

impl App {
    fn handle_create_playlist_key(&mut self, key: KeyCode) -> (r: Option<AppEvent>)
        ensures
            create_key_post(*old(self), *final(self), key, r),
    {
        match key {
            KeyCode::Enter => Some(AppEvent::ConfirmCreatePlaylist),
            KeyCode::Esc => {
                self.creating_playlist = false;
                self.new_playlist_name = String::new();
                Some(AppEvent::Nothing)
            },
            KeyCode::Backspace => {
                pop_char(&mut self.new_playlist_name);
                Some(AppEvent::Nothing)
            },
            KeyCode::Char(c) => {
                push_char(&mut self.new_playlist_name, c);
                Some(AppEvent::Nothing)
            },
            _ => None,
        }
    }
}

// ───────────────────────── server list ─────────────────────────

/// The edit form opened on server `idx` of the list `servers`.
pub open spec fn opened_form(o: App, n: App, servers: Seq<ServerConfig>, idx: int) -> bool {
    &&& n.config_servers@ == servers
    &&& n.config_edit_idx == idx
    &&& texts(n.config_inputs@) == config_fields(servers[idx])
    &&& n.config_focus == 0
    &&& n.config_phase == 1
    &&& n == (App {
        config_servers: n.config_servers,
        config_edit_idx: n.config_edit_idx,
        config_inputs: n.config_inputs,
        config_focus: 0,
        config_phase: 1,
        ..o
    })
}

pub open spec fn config_list_post(o: App, n: App, key: KeyCode, r: Option<AppEvent>) -> bool {
    let len = o.config_servers@.len();
    let focus = o.config_focus as int;
    match key {
        KeyCode::Up => r is None && n == (if len > 0 && focus > 0 {
            App { config_focus: (focus - 1) as usize, ..o }
        } else {
            o
        }),
        KeyCode::Down => r is None && n == (if len > 0 && focus + 1 < len {
            App { config_focus: (focus + 1) as usize, ..o }
        } else {
            o
        }),
        KeyCode::Enter => r is None && if len == 0 {
            &&& n.config_servers@.len() == 1
            &&& is_default_config(n.config_servers@[0])
            &&& opened_form(o, n, n.config_servers@, 0)
        } else {
            opened_form(o, n, o.config_servers@, if focus < len - 1 { focus } else { len - 1 })
        },
        KeyCode::Char('a') => r is None && n.config_servers@.len() == len + 1
            && n.config_servers@.take(len as int) == o.config_servers@
            && is_default_config(n.config_servers@[len as int])
            && opened_form(o, n, n.config_servers@, len as int),
        KeyCode::Char('d') => r is None && if focus < len {
            let rest = o.config_servers@.remove(focus);
            &&& n.config_servers@ == rest
            &&& n == (App {
                config_servers: n.config_servers,
                config_focus: if focus >= rest.len() && rest.len() > 0 {
                    (rest.len() - 1) as usize
                } else {
                    o.config_focus
                },
                ..o
            })
        } else {
            n == o
        },
        KeyCode::Char(' ') => r is None && if focus < len {
            let c = o.config_servers@[focus];
            &&& n.config_servers@ == o.config_servers@.update(
                focus,
                ServerConfig { disabled: !c.disabled, ..c },
            )
            &&& n == (App { config_servers: n.config_servers, ..o })
        } else {
            n == o
        },
        KeyCode::Esc => n == o && r == Some(AppEvent::ConfirmConfig),
        _ => n == o && r is None,
    }
}

fn config_inputs_of(c: &ServerConfig) -> (r: Vec<String>)
    ensures
        texts(r@) == config_fields(*c),
{
    let r = vec![
        c.name.clone(),
        c.server_type.clone(),
        c.server_url.clone(),
        c.username.clone(),
        c.password.clone(),
    ];
    proof {
        assert(texts(r@) =~= config_fields(*c));
    }
    r
}

impl App {
    fn config_open_focused(&mut self)
        ensures
            config_list_post(*old(self), *final(self), KeyCode::Enter, None),
    {
        if self.config_servers.len() == 0 {
            self.config_servers.push(ServerConfig::default());
        }
        let last = self.config_servers.len() - 1;
        self.config_edit_idx = if self.config_focus < last {
            self.config_focus
        } else {
            last
        };
        self.config_inputs = config_inputs_of(&self.config_servers[self.config_edit_idx]);
        self.config_focus = 0;
        self.config_phase = 1;
    }

    fn config_add_server(&mut self)
        ensures
            config_list_post(*old(self), *final(self), KeyCode::Char('a'), None),
    {
        let idx = self.config_servers.len();
        self.config_servers.push(ServerConfig::default());
        self.config_edit_idx = idx;
        self.config_inputs = config_inputs_of(&self.config_servers[idx]);
        self.config_focus = 0;
        self.config_phase = 1;
        proof {
            assert(self.config_servers@.take(idx as int) =~= old(self).config_servers@);
        }
    }

    fn config_delete_focused(&mut self)
        ensures
            config_list_post(*old(self), *final(self), KeyCode::Char('d'), None),
    {
        if self.config_focus < self.config_servers.len() {
            self.config_servers.remove(self.config_focus);
            if self.config_focus >= self.config_servers.len() && self.config_servers.len() > 0 {
                self.config_focus = self.config_servers.len() - 1;
            }
        }
    }

    fn config_toggle_focused(&mut self)
        ensures
            config_list_post(*old(self), *final(self), KeyCode::Char(' '), None),
    {
        if self.config_focus < self.config_servers.len() {
            let mut c = self.config_servers[self.config_focus].clone();
            c.disabled = !c.disabled;
            self.config_servers.set(self.config_focus, c);
        }
    }

    fn handle_config_list_key(&mut self, key: KeyCode) -> (r: Option<AppEvent>)
        requires
            counters_bounded(*old(self)),
        ensures
            config_list_post(*old(self), *final(self), key, r),
    {
        match key {
            KeyCode::Up => {
                if self.config_servers.len() > 0 && self.config_focus > 0 {
                    self.config_focus = self.config_focus - 1;
                }
                None
            },
            KeyCode::Down => {
                if self.config_servers.len() > 0 && self.config_focus + 1 < self.config_servers.len() {
                    self.config_focus = self.config_focus + 1;
                }
                None
            },
            KeyCode::Enter => {
                self.config_open_focused();
                None
            },
            KeyCode::Char('a') => {
                self.config_add_server();
                None
            },
            KeyCode::Char('d') => {
                self.config_delete_focused();
                None
            },
            KeyCode::Char(' ') => {
                self.config_toggle_focused();
                None
            },
            KeyCode::Esc => Some(AppEvent::ConfirmConfig),
            _ => None,
        }
    }
}

// ───────────────────────── server edit form ─────────────────────────

/// The form closes and the focus returns to the edited server.
pub open spec fn form_closed(o: App, n: App) -> bool {
    &&& n.config_inputs@.len() == 0
    &&& n == (App {
        config_servers: n.config_servers,
        config_inputs: n.config_inputs,
        config_focus: o.config_edit_idx,
        config_phase: 0,
        ..o
    })
}

pub open spec fn config_edit_post(o: App, n: App, key: KeyCode, r: Option<AppEvent>) -> bool {
    let k = o.config_inputs@.len();
    let focus = o.config_focus as int;
    let f = o.config_inputs@;
    &&& r is None
    &&& match key {
        KeyCode::Enter => form_closed(o, n) && if k >= 5 && o.config_edit_idx < o.config_servers@.len() {
            let c = o.config_servers@[o.config_edit_idx as int];
            let c2 = n.config_servers@[o.config_edit_idx as int];
            &&& n.config_servers@.len() == o.config_servers@.len()
            &&& forall|j: int|
                0 <= j < n.config_servers@.len() && j != o.config_edit_idx ==> n.config_servers@[j]
                    == o.config_servers@[j]
            &&& c2.name == f[0]
            &&& c2.server_type == f[1]
            &&& c2.server_url@ == trim(f[2]@)
            &&& c2.username@ == trim(f[3]@)
            &&& c2.password == f[4]
            &&& c2.disabled == c.disabled
        } else {
            n.config_servers == o.config_servers
        },
        KeyCode::Esc => form_closed(o, n) && n.config_servers == o.config_servers,
        KeyCode::Tab | KeyCode::Down => n == (if k > 0 {
            App { config_focus: ((focus + 1) % (k as int)) as usize, ..o }
        } else {
            o
        }),
        KeyCode::Up => n == (if k > 0 {
            App { config_focus: ((focus + k - 1) % (k as int)) as usize, ..o }
        } else {
            o
        }),
        KeyCode::Left | KeyCode::Right => if focus == 1 && k >= 5 {
            let idx = type_index(f[1]@);
            let next = if key == KeyCode::Right {
                (idx + 1) % 3
            } else {
                (idx + 2) % 3
            };
            &&& texts(n.config_inputs@) == texts(f).update(1, server_types()[next])
            &&& n == (App { config_inputs: n.config_inputs, ..o })
        } else {
            n == o
        },
        KeyCode::Backspace => if focus != 1 && focus < k {
            &&& texts(n.config_inputs@) == texts(f).update(focus, popped(f[focus]@))
            &&& n == (App { config_inputs: n.config_inputs, ..o })
        } else {
            n == o
        },
        KeyCode::Char(c) => if focus != 1 && focus < k {
            &&& texts(n.config_inputs@) == texts(f).update(focus, f[focus]@.push(c))
            &&& n == (App { config_inputs: n.config_inputs, ..o })
        } else {
            n == o
        },
        _ => n == o,
    }
}

fn server_type_name(i: usize) -> (r: String)
    requires
        i < 3,
    ensures
        r@ == server_types()[i as int],
{
    if i == 0 {
        String::from_str("file-transfer")
    } else if i == 1 {
        String::from_str("navidrome")
    } else {
        String::from_str("local")
    }
}

fn server_type_index(t: &String) -> (r: usize)
    ensures
        r == type_index(t@),
        r < 3,
{
    if crate::text::str_eq(t.as_str(), "file-transfer") {
        0
    } else if crate::text::str_eq(t.as_str(), "navidrome") {
        1
    } else if crate::text::str_eq(t.as_str(), "local") {
        2
    } else {
        0
    }
}

impl App {
    fn config_apply_form(&mut self)
        ensures
            config_edit_post(*old(self), *final(self), KeyCode::Enter, None),
    {
        if self.config_inputs.len() >= 5 && self.config_edit_idx < self.config_servers.len() {
            let i = self.config_edit_idx;
            let mut c = self.config_servers[i].clone();
            c.name = self.config_inputs[0].clone();
            c.server_type = self.config_inputs[1].clone();
            c.server_url = String::from_str(trim_str(self.config_inputs[2].as_str()));
            c.username = String::from_str(trim_str(self.config_inputs[3].as_str()));
            c.password = self.config_inputs[4].clone();
            self.config_servers.set(i, c);
        }
        self.config_inputs = Vec::new();
        self.config_focus = self.config_edit_idx;
        self.config_phase = 0;
    }

    fn config_cycle_type(&mut self, key: KeyCode)
        requires
            key == KeyCode::Left || key == KeyCode::Right,
        ensures
            config_edit_post(*old(self), *final(self), key, None),
    {
        if self.config_focus == 1 && self.config_inputs.len() >= 5 {
            let idx = server_type_index(&self.config_inputs[1]);
            let next = if key == KeyCode::Right {
                (idx + 1) % 3
            } else {
                (idx + 2) % 3
            };
            let ghost f = self.config_inputs@;
            self.config_inputs.set(1, server_type_name(next));
            proof {
                assert(texts(self.config_inputs@) =~= texts(f).update(1, server_types()[next as int]));
            }
        }
    }

    fn config_edit_field(&mut self, key: KeyCode)
        requires
            key is Backspace || key is Char,
        ensures
            config_edit_post(*old(self), *final(self), key, None),
    {
        let focus = self.config_focus;
        if focus != 1 && focus < self.config_inputs.len() {
            let ghost f = self.config_inputs@;
            let mut t = self.config_inputs[focus].clone();
            match key {
                KeyCode::Char(c) => push_char(&mut t, c),
                _ => pop_char(&mut t),
            }
            self.config_inputs.set(focus, t);
            proof {
                match key {
                    KeyCode::Char(c) => {
                        assert(texts(self.config_inputs@) =~= texts(f).update(
                            focus as int,
                            f[focus as int]@.push(c),
                        ));
                    },
                    _ => {
                        assert(texts(self.config_inputs@) =~= texts(f).update(
                            focus as int,
                            popped(f[focus as int]@),
                        ));
                    },
                }
            }
        }
    }

    fn handle_config_edit_key(&mut self, key: KeyCode) -> (r: Option<AppEvent>)
        requires
            counters_bounded(*old(self)),
        ensures
            config_edit_post(*old(self), *final(self), key, r),
    {
        match key {
            KeyCode::Enter => {
                self.config_apply_form();
            },
            KeyCode::Esc => {
                self.config_inputs = Vec::new();
                self.config_focus = self.config_edit_idx;
                self.config_phase = 0;
            },
            KeyCode::Tab | KeyCode::Down => {
                if self.config_inputs.len() > 0 {
                    self.config_focus = (self.config_focus + 1) % self.config_inputs.len();
                }
            },
            KeyCode::Up => {
                if self.config_inputs.len() > 0 {
                    self.config_focus = (self.config_focus + self.config_inputs.len() - 1)
                        % self.config_inputs.len();
                }
            },
            KeyCode::Left | KeyCode::Right => {
                self.config_cycle_type(key);
            },
            KeyCode::Backspace | KeyCode::Char(_) => {
                self.config_edit_field(key);
            },
            _ => {},
        }
        None
    }
}

// ───────────────────────── queue overlay ─────────────────────────

/// The model with the queue and its selection replaced.
pub open spec fn with_queue(o: App, n: App, sel: usize) -> bool {
    n == (App {
        player: Playback { queue: n.player.queue, ..o.player },
        queue_selected: sel,
        ..o
    })
}

pub open spec fn queue_key_post(o: App, n: App, key: KeyCode, r: Option<AppEvent>) -> bool {
    let q = o.player.queue@;
    let sel = o.queue_selected as int;
    match key {
        KeyCode::Esc | KeyCode::Char('q') | KeyCode::Char('u') => r is None && n == (App {
            showing_queue: false,
            ..o
        }),
        KeyCode::Up => r is None && n == (if sel > 0 {
            App { queue_selected: (sel - 1) as usize, ..o }
        } else {
            o
        }),
        KeyCode::Down => r is None && n == (if sel + 1 < q.len() {
            App { queue_selected: (sel + 1) as usize, ..o }
        } else {
            o
        }),
        KeyCode::Char('d') => r is None && if q.len() > 0 {
            let q2 = if sel < q.len() {
                q.remove(sel)
            } else {
                q
            };
            &&& n.player.queue@ == q2
            &&& with_queue(
                o,
                n,
                if sel >= q2.len() && sel > 0 {
                    (sel - 1) as usize
                } else {
                    o.queue_selected
                },
            )
        } else {
            n == o
        },
        KeyCode::Char('+') | KeyCode::Char('=') => r is None && n.player.queue@ == (if 0 < sel < q.len() {
            swapped(q, sel, sel - 1)
        } else {
            q
        }) && with_queue(
            o,
            n,
            if sel > 0 {
                (sel - 1) as usize
            } else {
                o.queue_selected
            },
        ),
        KeyCode::Char('-') | KeyCode::Char('_') => r is None && n.player.queue@ == (if sel + 1 < q.len() {
            swapped(q, sel, sel + 1)
        } else {
            q
        }) && with_queue(
            o,
            n,
            if sel + 1 < q.len() {
                (sel + 1) as usize
            } else {
                o.queue_selected
            },
        ),
        KeyCode::Enter => if sel < q.len() {
            n == (App { showing_queue: false, ..o }) && r == Some(AppEvent::QueuePlaySelected)
        } else {
            n == o && r is None
        },
        _ => n == o && r is None,
    }
}

impl App {
    fn queue_delete_selected(&mut self)
        ensures
            queue_key_post(*old(self), *final(self), KeyCode::Char('d'), None),
    {
        if !self.player.queue.is_empty() {
            self.player.queue.remove(self.queue_selected);
            if self.queue_selected >= self.player.queue.len() && self.queue_selected > 0 {
                self.queue_selected = self.queue_selected - 1;
            }
        }
    }

    fn queue_raise_selected(&mut self)
        ensures
            queue_key_post(*old(self), *final(self), KeyCode::Char('+'), None),
            queue_key_post(*old(self), *final(self), KeyCode::Char('='), None),
    {
        self.player.queue.move_up(self.queue_selected);
        if self.queue_selected > 0 {
            self.queue_selected = self.queue_selected - 1;
        }
    }

    fn queue_lower_selected(&mut self)
        requires
            counters_bounded(*old(self)),
        ensures
            queue_key_post(*old(self), *final(self), KeyCode::Char('-'), None),
            queue_key_post(*old(self), *final(self), KeyCode::Char('_'), None),
    {
        self.player.queue.move_down(self.queue_selected);
        if self.queue_selected + 1 < self.player.queue.len() {
            self.queue_selected = self.queue_selected + 1;
        }
    }

    fn handle_queue_key(&mut self, key: KeyCode) -> (r: Option<AppEvent>)
        requires
            counters_bounded(*old(self)),
        ensures
            queue_key_post(*old(self), *final(self), key, r),
    {
        match key {
            KeyCode::Esc | KeyCode::Char('q') | KeyCode::Char('u') => {
                self.showing_queue = false;
                None
            },
            KeyCode::Up => {
                if self.queue_selected > 0 {
                    self.queue_selected = self.queue_selected - 1;
                }
                None
            },
            KeyCode::Down => {
                if self.queue_selected + 1 < self.player.queue.len() {
                    self.queue_selected = self.queue_selected + 1;
                }
                None
            },
            KeyCode::Char('d') => {
                self.queue_delete_selected();
                None
            },
            KeyCode::Char('+') | KeyCode::Char('=') => {
                self.queue_raise_selected();
                proof {
                    assert(queue_key_post(*old(self), *self, KeyCode::Char('+'), None));
                }
                None
            },
            KeyCode::Char('-') | KeyCode::Char('_') => {
                self.queue_lower_selected();
                proof {
                    assert(queue_key_post(*old(self), *self, KeyCode::Char('-'), None));
                }
                None
            },
            KeyCode::Enter => {
                if self.player.queue.get(self.queue_selected).is_some() {
                    self.showing_queue = false;
                    Some(AppEvent::QueuePlaySelected)
                } else {
                    None
                }
            },
            _ => None,
        }
    }
}

// ───────────────────────── playlist picker ─────────────────────────

pub open spec fn pick_key_post(o: App, n: App, key: KeyCode, r: Option<AppEvent>) -> bool {
    let i = o.pick_index as int;
    match key {
        KeyCode::Enter => n == (App { picking_playlist: false, ..o }) && r == Some(AppEvent::AddToPlaylist),
        KeyCode::Up => r is None && n == (if i > 0 {
            App { pick_index: (i - 1) as usize, ..o }
        } else {
            o
        }),
        KeyCode::Down => r is None && n == (if i + 1 < o.playlists@.len() {
            App { pick_index: (i + 1) as usize, ..o }
        } else {
            o
        }),
        KeyCode::Esc | KeyCode::Char('q') => n == (App { picking_playlist: false, ..o }) && r == Some(
            AppEvent::Nothing,
        ),
        _ => n == o && r is None,
    }
}

impl App {
    fn handle_pick_playlist_key(&mut self, key: KeyCode) -> (r: Option<AppEvent>)
        requires
            counters_bounded(*old(self)),
        ensures
            pick_key_post(*old(self), *final(self), key, r),
    {
        match key {
            KeyCode::Enter => {
                self.picking_playlist = false;
                Some(AppEvent::AddToPlaylist)
            },
            KeyCode::Up => {
                if self.pick_index > 0 {
                    self.pick_index = self.pick_index - 1;
                }
                None
            },
            KeyCode::Down => {
                if self.pick_index + 1 < self.playlists.len() {
                    self.pick_index = self.pick_index + 1;
                }
                None
            },
            KeyCode::Esc | KeyCode::Char('q') => {
                self.picking_playlist = false;
                Some(AppEvent::Nothing)
            },
            _ => None,
        }
    }
}

// ───────────────────────── overlays and search ─────────────────────────

pub open spec fn cover_key_post(o: App, n: App, key: KeyCode, r: Option<AppEvent>) -> bool {
    r is None && n == (if key == KeyCode::Char('C') || key == KeyCode::Esc {
        App { show_cover: false, ..o }
    } else {
        o
    })
}

pub open spec fn quit_key_post(o: App, n: App, key: KeyCode, r: Option<AppEvent>) -> bool {
    if key == KeyCode::Char('y') || key == KeyCode::Char('Y') {
        n == o && r == Some(AppEvent::Quit)
    } else if key == KeyCode::Char('n') || key == KeyCode::Char('N') || key == KeyCode::Esc {
        n == (App { confirm_quit: false, ..o }) && r is None
    } else {
        n == o && r is None
    }
}

pub open spec fn search_key_event(key: KeyCode) -> Option<AppEvent> {
    match key {
        KeyCode::Enter => Some(AppEvent::ConfirmSearch),
        KeyCode::Esc => Some(AppEvent::CancelSearch),
        KeyCode::Backspace => Some(AppEvent::DeleteSearchChar),
        KeyCode::Char(c) => Some(AppEvent::PushSearchChar(c)),
        _ => None,
    }
}

// ───────────────────────── normal mode ─────────────────────────

/// The event of a normal-mode key that changes nothing by itself.
pub open spec fn normal_key_event(o: App, key: KeyCode) -> Option<AppEvent> {
    let browse = o.view_mode == ViewMode::Browse;
    let listish = o.view_mode is Browse || o.view_mode is PlaylistContent;
    match key {
        KeyCode::Up => Some(AppEvent::MoveUp),
        KeyCode::Down => Some(AppEvent::MoveDown),
        KeyCode::PageUp => Some(AppEvent::ScrollUp),
        KeyCode::PageDown => Some(AppEvent::ScrollDown),
        KeyCode::Char('g') => Some(AppEvent::GoToPlaying),
        KeyCode::Char('/') => if listish {
            Some(AppEvent::EnterSearch)
        } else {
            None
        },
        KeyCode::Char(' ') => Some(AppEvent::TogglePlayback),
        KeyCode::Char('s') => Some(AppEvent::Stop),
        KeyCode::Right => Some(AppEvent::SeekForward),
        KeyCode::Left => Some(AppEvent::SeekBackward),
        KeyCode::Char('m') => Some(AppEvent::CyclePlayMode),
        KeyCode::Char('n') => Some(AppEvent::NextTrack),
        KeyCode::Char('+') | KeyCode::Char('=') => Some(AppEvent::VolumeUp),
        KeyCode::Char('-') | KeyCode::Char('_') => Some(AppEvent::VolumeDown),
        KeyCode::Char('f') => if browse {
            Some(AppEvent::FilterByArtist)
        } else {
            None
        },
        KeyCode::Char('F') => if browse {
            Some(AppEvent::ClearArtistFilter)
        } else {
            None
        },
        KeyCode::Char('r') => Some(AppEvent::Refresh),
        KeyCode::Char('R') => Some(AppEvent::ConfigureServer),
        KeyCode::Char('S') => Some(AppEvent::CycleSort),
        KeyCode::Char('h') | KeyCode::Char('?') => Some(AppEvent::ShowHelp),
        KeyCode::Char('L') => Some(AppEvent::ToggleLanguage),
        KeyCode::Char('C') => Some(AppEvent::ToggleCover),
        KeyCode::Char('c') => if o.view_mode == ViewMode::PlaylistList {
            Some(AppEvent::CreatePlaylist)
        } else {
            None
        },
        KeyCode::Char('d') => if o.view_mode is PlaylistList || o.view_mode is PlaylistContent {
            Some(AppEvent::DeleteItem)
        } else {
            None
        },
        KeyCode::Char('x') => if listish && view_has_selection(o) {
            Some(AppEvent::PlayNext)
        } else {
            None
        },
        KeyCode::Char('w') => if listish && view_has_selection(o) {
            Some(AppEvent::AddToQueue)
        } else {
            None
        },
        _ => None,
    }
}

pub open spec fn normal_key_post(o: App, n: App, key: KeyCode, r: Option<AppEvent>) -> bool {
    let browse = o.view_mode == ViewMode::Browse;
    if (key == KeyCode::Char('q') || key == KeyCode::Esc) && browse {
        n == (App { confirm_quit: true, ..o }) && r is None
    } else if key == KeyCode::Esc {
        r == Some(AppEvent::Nothing) && n == (App {
            view_mode: if o.view_mode is PlaylistList {
                ViewMode::Browse
            } else {
                ViewMode::PlaylistList
            },
            ..o
        })
    } else if key == KeyCode::Enter {
        if o.view_mode is PlaylistList {
            let idx = opt_usize(o.pl_selected);
            r == Some(AppEvent::Nothing) && n == (if idx < o.playlists@.len() {
                App {
                    view_mode: ViewMode::PlaylistContent(idx as usize),
                    pl_content_selected: Some(0usize),
                    ..o
                }
            } else {
                o
            })
        } else {
            n == o && r == Some(AppEvent::PlaySelected)
        }
    } else if key == KeyCode::Char('l') {
        r == Some(AppEvent::Nothing) && n == (if browse {
            App { view_mode: ViewMode::PlaylistList, pl_selected: Some(0usize), ..o }
        } else if o.view_mode is PlaylistList {
            App { view_mode: ViewMode::Browse, ..o }
        } else {
            App { view_mode: ViewMode::PlaylistList, ..o }
        })
    } else if key == KeyCode::Char('a') && browse && browse_has_selection(o) {
        if o.playlists@.len() <= 1 {
            n == (App { pick_index: 0, ..o }) && r == Some(AppEvent::AddToPlaylist)
        } else {
            n == (App { picking_playlist: true, pick_index: 0, ..o }) && r is None
        }
    } else if key == KeyCode::Char('u') {
        if o.player.queue@.len() == 0 {
            &&& n == (App { status_message: n.status_message, ..o })
            &&& n.status_message@ == fill_placeholders(message_text(o.language, "queue.empty"@), seq![])
            &&& r == Some(AppEvent::Nothing)
        } else {
            n == o && r == Some(AppEvent::ToggleQueue)
        }
    } else {
        n == o && r == normal_key_event(o, key)
    }
}

impl App {
    /// The event of a key that changes nothing by itself.
    fn normal_key_event_of(&self, key: KeyCode) -> (r: Option<AppEvent>)
        ensures
            r == normal_key_event(*self, key),
    {
        let browse = self.view_mode == ViewMode::Browse;
        let listish = match self.view_mode {
            ViewMode::Browse | ViewMode::PlaylistContent(_) => true,
            ViewMode::PlaylistList => false,
        };
        match key {
            KeyCode::Up => Some(AppEvent::MoveUp),
            KeyCode::Down => Some(AppEvent::MoveDown),
            KeyCode::PageUp => Some(AppEvent::ScrollUp),
            KeyCode::PageDown => Some(AppEvent::ScrollDown),
            KeyCode::Char('g') => Some(AppEvent::GoToPlaying),
            KeyCode::Char('/') => if listish {
                Some(AppEvent::EnterSearch)
            } else {
                None
            },
            KeyCode::Char(' ') => Some(AppEvent::TogglePlayback),
            KeyCode::Char('s') => Some(AppEvent::Stop),
            KeyCode::Right => Some(AppEvent::SeekForward),
            KeyCode::Left => Some(AppEvent::SeekBackward),
            KeyCode::Char('m') => Some(AppEvent::CyclePlayMode),
            KeyCode::Char('n') => Some(AppEvent::NextTrack),
            KeyCode::Char('+') | KeyCode::Char('=') => Some(AppEvent::VolumeUp),
            KeyCode::Char('-') | KeyCode::Char('_') => Some(AppEvent::VolumeDown),
            KeyCode::Char('f') => if browse {
                Some(AppEvent::FilterByArtist)
            } else {
                None
            },
            KeyCode::Char('F') => if browse {
                Some(AppEvent::ClearArtistFilter)
            } else {
                None
            },
            KeyCode::Char('r') => Some(AppEvent::Refresh),
            KeyCode::Char('R') => Some(AppEvent::ConfigureServer),
            KeyCode::Char('S') => Some(AppEvent::CycleSort),
            KeyCode::Char('h') | KeyCode::Char('?') => Some(AppEvent::ShowHelp),
            KeyCode::Char('L') => Some(AppEvent::ToggleLanguage),
            KeyCode::Char('C') => Some(AppEvent::ToggleCover),
            KeyCode::Char('c') => if self.view_mode == ViewMode::PlaylistList {
                Some(AppEvent::CreatePlaylist)
            } else {
                None
            },
            KeyCode::Char('d') => if browse {
                None
            } else {
                Some(AppEvent::DeleteItem)
            },
            KeyCode::Char('x') => if listish && self.selected_in_current_view().is_some() {
                Some(AppEvent::PlayNext)
            } else {
                None
            },
            KeyCode::Char('w') => if listish && self.selected_in_current_view().is_some() {
                Some(AppEvent::AddToQueue)
            } else {
                None
            },
            _ => None,
        }
    }

    fn normal_enter(&mut self) -> (r: Option<AppEvent>)
        ensures
            normal_key_post(*old(self), *final(self), KeyCode::Enter, r),
    {
        match self.view_mode {
            ViewMode::PlaylistList => {
                let idx = match self.pl_selected {
                    Some(i) => i,
                    None => 0,
                };
                if idx < self.playlists.len() {
                    self.view_mode = ViewMode::PlaylistContent(idx);
                    self.pl_content_selected = Some(0);
                }
                Some(AppEvent::Nothing)
            },
            _ => Some(AppEvent::PlaySelected),
        }
    }

    fn toggle_playlist_view(&mut self) -> (r: Option<AppEvent>)
        ensures
            normal_key_post(*old(self), *final(self), KeyCode::Char('l'), r),
    {
        match self.view_mode {
            ViewMode::Browse => {
                self.view_mode = ViewMode::PlaylistList;
                self.pl_selected = Some(0);
            },
            ViewMode::PlaylistList => {
                self.view_mode = ViewMode::Browse;
            },
            ViewMode::PlaylistContent(_) => {
                self.view_mode = ViewMode::PlaylistList;
            },
        }
        Some(AppEvent::Nothing)
    }

    fn queue_key(&mut self) -> (r: Option<AppEvent>)
        ensures
            normal_key_post(*old(self), *final(self), KeyCode::Char('u'), r),
    {
        if self.player.queue.is_empty() {
            let args: Vec<String> = Vec::new();
            proof {
                assert(strings_model(args@) =~= seq![]);
            }
            self.status_message = tf(self.language, "queue.empty", &args);
            Some(AppEvent::Nothing)
        } else {
            Some(AppEvent::ToggleQueue)
        }
    }

    fn handle_normal_key(&mut self, key: KeyCode) -> (r: Option<AppEvent>)
        ensures
            normal_key_post(*old(self), *final(self), key, r),
    {
        let browse = self.view_mode == ViewMode::Browse;
        if (key == KeyCode::Char('q') || key == KeyCode::Esc) && browse {
            self.confirm_quit = true;
            None
        } else if key == KeyCode::Esc {
            match self.view_mode {
                ViewMode::PlaylistList => {
                    self.view_mode = ViewMode::Browse;
                },
                _ => {
                    self.view_mode = ViewMode::PlaylistList;
                },
            }
            Some(AppEvent::Nothing)
        } else if key == KeyCode::Enter {
            self.normal_enter()
        } else if key == KeyCode::Char('l') {
            self.toggle_playlist_view()
        } else if key == KeyCode::Char('a') && browse && self.selected_music().is_some() {
            self.pick_index = 0;
            if self.playlists.len() <= 1 {
                Some(AppEvent::AddToPlaylist)
            } else {
                self.picking_playlist = true;
                None
            }
        } else if key == KeyCode::Char('u') {
            self.queue_key()
        } else {
            self.normal_key_event_of(key)
        }
    }
}

// ───────────────────────── dispatch ─────────────────────────

/// What a key does, by the mode the interface is in: overlays and editors
/// take keys before normal browsing does; only key presses count.
pub open spec fn key_post(o: App, n: App, key: KeyPress, r: Option<AppEvent>) -> bool {
    if key.kind != KeyKind::Press {
        n == o && r is None
    } else if o.creating_playlist {
        create_key_post(o, n, key.code, r)
    } else if o.config_mode {
        if o.config_phase == 0 {
            config_list_post(o, n, key.code, r)
        } else {
            config_edit_post(o, n, key.code, r)
        }
    } else if o.showing_queue {
        queue_key_post(o, n, key.code, r)
    } else if o.picking_playlist {
        pick_key_post(o, n, key.code, r)
    } else if o.show_cover {
        cover_key_post(o, n, key.code, r)
    } else if o.show_help {
        n == (App { show_help: false, ..o }) && r is None
    } else if o.confirm_quit {
        quit_key_post(o, n, key.code, r)
    } else if o.search_mode {
        n == o && r == search_key_event(key.code)
    } else {
        normal_key_post(o, n, key.code, r)
    }
}

impl App {
    /// Routes a key press to the handler of the current overlay or mode, and
    /// returns the event it raises, if any.
    pub fn handle_key_event(&mut self, key: KeyPress) -> (r: Option<AppEvent>)
        requires
            counters_bounded(*old(self)),
        ensures
            key_post(*old(self), *final(self), key, r),
    {
        if key.kind != KeyKind::Press {
            return None;
        }
        if self.creating_playlist {
            return self.handle_create_playlist_key(key.code);
        }
        if self.config_mode {
            if self.config_phase == 0 {
                return self.handle_config_list_key(key.code);
            } else {
                return self.handle_config_edit_key(key.code);
            }
        }
        if self.showing_queue {
            return self.handle_queue_key(key.code);
        }
        if self.picking_playlist {
            return self.handle_pick_playlist_key(key.code);
        }
        if self.show_cover {
            if key.code == KeyCode::Char('C') || key.code == KeyCode::Esc {
                self.show_cover = false;
            }
            return None;
        }
        if self.show_help {
            self.show_help = false;
            return None;
        }
        if self.confirm_quit {
            return match key.code {
                KeyCode::Char('y') | KeyCode::Char('Y') => Some(AppEvent::Quit),
                KeyCode::Char('n') | KeyCode::Char('N') | KeyCode::Esc => {
                    self.confirm_quit = false;
                    None
                },
                _ => None,
            };
        }
        if self.search_mode {
            return match key.code {
                KeyCode::Enter => Some(AppEvent::ConfirmSearch),
                KeyCode::Esc => Some(AppEvent::CancelSearch),
                KeyCode::Backspace => Some(AppEvent::DeleteSearchChar),
                KeyCode::Char(c) => Some(AppEvent::PushSearchChar(c)),
                _ => None,
            };
        }
        self.handle_normal_key(key.code)
    }
}


// ───────────────────────── laws of key handling ─────────────────────────

/// Only key presses do anything: a repeat or a release changes nothing and
/// raises no event.
pub proof fn lemma_only_presses_count(o: App, n: App, key: KeyPress, r: Option<AppEvent>)
    requires
        key_post(o, n, key, r),
        key.kind != KeyKind::Press,
    ensures
        n == o,
        r is None,
{
}

/// In the browse view, `q` and `Esc` never quit at once: they ask for
/// confirmation, and only `y` in the confirmation quits.
pub proof fn lemma_quit_needs_confirmation(o: App, n: App, code: KeyCode, r: Option<AppEvent>)
    requires
        key_post(o, n, KeyPress { code, kind: KeyKind::Press }, r),
        !o.creating_playlist && !o.config_mode && !o.showing_queue && !o.picking_playlist,
        !o.show_cover && !o.show_help && !o.search_mode,
    ensures
        r == Some(AppEvent::Quit) ==> o.confirm_quit && (code == KeyCode::Char('y') || code
            == KeyCode::Char('Y')),
        !o.confirm_quit && o.view_mode == ViewMode::Browse && (code == KeyCode::Char('q') || code
            == KeyCode::Esc) ==> n.confirm_quit && r is None,
{
}

/// While a search is typed, every key only raises a search event: the model
/// does not change.
pub proof fn lemma_search_keys_only_raise_events(o: App, n: App, code: KeyCode, r: Option<AppEvent>)
    requires
        key_post(o, n, KeyPress { code, kind: KeyKind::Press }, r),
        !o.creating_playlist && !o.config_mode && !o.showing_queue && !o.picking_playlist,
        !o.show_cover && !o.show_help && !o.confirm_quit && o.search_mode,
    ensures
        n == o,
        r == search_key_event(code),
{
}


/// Whether the counters have room to be stepped (see `counters_bounded`).
pub fn counters_ok(app: &App) -> (r: bool)
    ensures
        r == counters_bounded(*app),
{
    app.config_focus < usize::MAX - app.config_inputs.len() && app.queue_selected < usize::MAX
        && app.pick_index < usize::MAX
}

} // verus!
