//! Chinese / English messages: the language setting, the message tables and
//! the `{}` placeholder formatting of translated messages.

use vstd::prelude::*;
use crate::text::{chars_of, str_eq, string_from};

verus! {

/// Interface language.
#[derive(Debug, Clone, Copy, PartialEq, Eq, Structural)]
pub enum Language {
    Zh,
    En,
}

/// The language a configuration string selects: English for `en` or
/// `English`, Chinese for anything else.
pub open spec fn language_of(s: Seq<char>) -> Language {
    if s == "en"@ || s == "English"@ {
        Language::En
    } else {
        Language::Zh
    }
}

impl Language {
    pub fn from_str(s: &str) -> (r: Language)
        ensures
            r == language_of(s@),
    {
        if str_eq(s, "en") || str_eq(s, "English") {
            Language::En
        } else {
            Language::Zh
        }
    }

    pub fn as_str(self) -> (r: &'static str)
        ensures
            r@ == (match self {
                Language::Zh => "zh"@,
                Language::En => "en"@,
            }),
    {
        match self {
            Language::Zh => "zh",
            Language::En => "en",
        }
    }

    pub fn toggle(self) -> (r: Language)
        ensures
            r != self,
    {
        match self {
            Language::Zh => Language::En,
            Language::En => Language::Zh,
        }
    }
}

/// The configuration string of a language reads back as that language.
pub proof fn lemma_language_round_trip(l: Language)
    ensures
        language_of(
            match l {
                Language::Zh => "zh"@,
                Language::En => "en"@,
            },
        ) == l,
{
    reveal_strlit("zh");
    reveal_strlit("en");
    reveal_strlit("English");
    if l == Language::Zh {
        assert("zh"@[0] != "en"@[0]);
        assert("zh"@.len() != "English"@.len());
    }
}

/// The text of a message key in a language.
pub open spec fn message_text(lang: Language, key: Seq<char>) -> Seq<char> {
    match lang {
        Language::Zh => zh_text(key),
        Language::En => en_text(key),
    }
}

/// Looks up a message key in the given language; an untranslated key is
/// returned as it is.
pub fn tr<'a>(lang: Language, key: &'a str) -> (r: &'a str)
    ensures
        r@ == message_text(lang, key@),
{
    match lang {
        Language::Zh => zh(key),
        Language::En => en(key),
    }
}

// ───────────────────────── placeholders ─────────────────────────

pub open spec fn placeholder_at(s: Seq<char>, j: int) -> bool {
    0 <= j && j + 1 < s.len() && s[j] == '{' && s[j + 1] == '}'
}

/// Position of the first `{}` in `s`, or -1.
pub open spec fn find_placeholder(s: Seq<char>) -> int
    decreases s.len(),
{
    if s.len() < 2 {
        -1
    } else if s[0] == '{' && s[1] == '}' {
        0
    } else {
        let r = find_placeholder(s.drop_first());
        if r < 0 {
            -1
        } else {
            r + 1
        }
    }
}

proof fn lemma_find_placeholder_at(s: Seq<char>, k: int)
    requires
        0 <= k <= s.len(),
        k < s.len() ==> placeholder_at(s, k),
        forall|j: int| 0 <= j < k ==> !placeholder_at(s, j),
    ensures
        find_placeholder(s) == (if k < s.len() {
            k
        } else {
            -1
        }),
    decreases s.len(),
{
    if s.len() >= 2 && k > 0 {
        let t = s.drop_first();
        assert forall|j: int| 0 <= j < k - 1 implies !placeholder_at(t, j) by {
            assert(t[j] == s[j + 1]);
            if j + 1 < t.len() {
                assert(t[j + 1] == s[j + 2]);
            }
            assert(!placeholder_at(s, j + 1));
        }
        if k < s.len() {
            assert(t[k - 1] == s[k]);
            assert(t[k] == s[k + 1]);
        }
        assert(!placeholder_at(s, 0));
        lemma_find_placeholder_at(t, k - 1);
    } else if s.len() < 2 && k < s.len() {
        assert(!placeholder_at(s, k));
    } else if s.len() >= 2 && k == 0 {
    }
}

/// `str::replacen("{}", rep, 1)`: the first `{}` replaced by `rep`.
pub open spec fn replace_first_placeholder(s: Seq<char>, rep: Seq<char>) -> Seq<char> {
    let i = find_placeholder(s);
    if i < 0 {
        s
    } else {
        s.take(i) + rep + s.skip(i + 2)
    }
}

/// A message with its `{}` placeholders filled in turn by the arguments, each
/// replacing the first `{}` of the text built so far.
pub open spec fn fill_placeholders(s: Seq<char>, args: Seq<Seq<char>>) -> Seq<char>
    decreases args.len(),
{
    if args.len() == 0 {
        s
    } else {
        fill_placeholders(replace_first_placeholder(s, args[0]), args.drop_first())
    }
}

pub open spec fn strings_model(v: Seq<String>) -> Seq<Seq<char>> {
    v.map_values(|a: String| a@)
}

fn replace_first_in(cur: &Vec<char>, rep: &Vec<char>) -> (r: Vec<char>)
    ensures
        r@ == replace_first_placeholder(cur@, rep@),
{
    let mut k: usize = 0;
    let n = cur.len();
    while k < n && k + 1 < n
        invariant
            n == cur.len(),
            k <= n,
            forall|j: int| 0 <= j < k ==> !placeholder_at(cur@, j),
        decreases n - k,
    {
        if cur[k] == '{' && cur[k + 1] == '}' {
            proof {
                lemma_find_placeholder_at(cur@, k as int);
            }
            let mut r: Vec<char> = Vec::new();
            let mut i: usize = 0;
            while i < k
                invariant
                    k + 1 < n == cur.len(),
                    i <= k,
                    r@ == cur@.take(i as int),
                decreases k - i,
            {
                proof {
                    assert(cur@.take(i + 1) =~= r@.push(cur@[i as int]));
                }
                r.push(cur[i]);
                i = i + 1;
            }
            let mut j: usize = 0;
            while j < rep.len()
                invariant
                    k + 1 < n == cur.len(),
                    j <= rep.len(),
                    r@ == cur@.take(k as int) + rep@.take(j as int),
                decreases rep.len() - j,
            {
                proof {
                    assert(cur@.take(k as int) + rep@.take(j + 1) =~= r@.push(rep@[j as int]));
                }
                r.push(rep[j]);
                j = j + 1;
            }
            let mut m: usize = k + 2;
            while m < n
                invariant
                    k + 2 <= m <= n == cur.len(),
                    r@ == cur@.take(k as int) + rep@ + cur@.subrange(k + 2, m as int),
                decreases n - m,
            {
                proof {
                    assert(cur@.take(k as int) + rep@ + cur@.subrange(k + 2, m + 1) =~= r@.push(
                        cur@[m as int],
                    ));
                }
                r.push(cur[m]);
                m = m + 1;
            }
            proof {
                assert(rep@.take(rep@.len() as int) =~= rep@);
                assert(cur@.subrange(k + 2, n as int) =~= cur@.skip(k + 2));
            }
            return r;
        }
        k = k + 1;
    }
    proof {
        assert forall|j: int| 0 <= j < n implies !placeholder_at(cur@, j) by {
            if j >= k {
                assert(!(j + 1 < n));
            }
        }
        lemma_find_placeholder_at(cur@, n as int);
    }
    let mut r: Vec<char> = Vec::new();
    let mut i: usize = 0;
    while i < n
        invariant
            n == cur.len(),
            i <= n,
            r@ == cur@.take(i as int),
        decreases n - i,
    {
        proof {
            assert(cur@.take(i + 1) =~= r@.push(cur@[i as int]));
        }
        r.push(cur[i]);
        i = i + 1;
    }
    proof {
        assert(cur@.take(n as int) =~= cur@);
    }
    r
}

/// Fills the `{}` placeholders of a template with the arguments in order.
pub fn format_message(template: &str, args: &Vec<String>) -> (r: String)
    ensures
        r@ == fill_placeholders(template@, strings_model(args@)),
{
    let mut cur = chars_of(template);
    let ghost all = strings_model(args@);
    let mut k: usize = 0;
    assert(all.skip(0) =~= all);
    while k < args.len()
        invariant
            k <= args.len(),
            all == strings_model(args@),
            fill_placeholders(template@, all) == fill_placeholders(cur@, all.skip(k as int)),
        decreases args.len() - k,
    {
        let rep = chars_of(args[k].as_str());
        proof {
            assert(all.skip(k as int)[0] == rep@);
            assert(all.skip(k as int).drop_first() =~= all.skip(k + 1));
        }
        cur = replace_first_in(&cur, &rep);
        k = k + 1;
    }
    proof {
        assert(all.skip(k as int) =~= seq![]);
    }
    let n = cur.len();
    proof {
        assert(cur@.subrange(0, n as int) =~= cur@);
    }
    string_from(&cur, 0, n)
}

/// A translated message with its placeholders filled (`tf!`).
pub fn tf(lang: Language, key: &str, args: &Vec<String>) -> (r: String)
    ensures
        r@ == fill_placeholders(message_text(lang, key@), strings_model(args@)),
{
    format_message(tr(lang, key), args)
}

/// A translated message without arguments (`tf!(key)`): the text as the
/// table has it.
pub open spec fn plain_message(lang: Language, key: Seq<char>) -> Seq<char> {
    message_text(lang, key)
}

/// A translated message with one argument (`tf!(key, arg)`).
pub open spec fn message_with(lang: Language, key: Seq<char>, arg: Seq<char>) -> Seq<char> {
    fill_placeholders(message_text(lang, key), seq![arg])
}

/// `tf!(key)`.
pub fn message(lang: Language, key: &str) -> (r: String)
    ensures
        r@ == plain_message(lang, key@),
{
    String::from_str(tr(lang, key))
}

/// `tf!(key, arg)`.
pub fn message1(lang: Language, key: &str, arg: &str) -> (r: String)
    ensures
        r@ == message_with(lang, key@, arg@),
{
    let mut args: Vec<String> = Vec::new();
    args.push(String::from_str(arg));
    proof {
        assert(strings_model(args@) =~= seq![arg@]);
    }
    tf(lang, key, &args)
}

// ───────────────────────── message tables ─────────────────────────

/// The Chinese text of a message key; an unknown key stands for itself.
pub open spec fn zh_text(key: Seq<char>) -> Seq<char> {
    if key == "app.title"@ {
        "♪ 音源播放器"@
    } else if key == "app.ready"@ {
        "准备就绪 - 按 q 退出"@
    } else if key == "app.help_prompt"@ {
        "按 h/? 查看帮助 | ↑/↓ 选择 | Enter 播放"@
    } else if key == "app.quit"@ {
        "已退出音源播放器"@
    } else if key == "app.config_prompt"@ {
        "请先添加服务器 (按 Enter 编辑, Tab 切换字段, 保存后按 Esc)"@
    } else if key == "app.config_edit_hint"@ {
        "名称"@
    } else if key == "app.no_server"@ {
        "请先按 R 配置服务器地址"@
    } else if key == "app.unknown_artist"@ {
        "未知艺术家"@
    } else if key == "app.no_playing"@ {
        "当前没有正在播放的歌曲"@
    } else if key == "app.unknown_source"@ {
        "播放来源未知"@
    } else if key == "view.browse"@ {
        "音乐列表"@
    } else if key == "view.playlist_list"@ {
        "歌单管理"@
    } else if key == "view.playlist_content"@ {
        "歌单内容"@
    } else if key == "view.search"@ {
        "搜索"@
    } else if key == "view.search_results"@ {
        "搜索: {} ({} 结果)"@
    } else if key == "view.music_list"@ {
        "音乐列表 ({})"@
    } else if key == "status.playing"@ {
        "▶ 正在播放: {}"@
    } else if key == "status.paused"@ {
        "已暂停"@
    } else if key == "status.stopped"@ {
        "已停止"@
    } else if key == "status.resumed"@ {
        "继续播放"@
    } else if key == "status.seek_forward"@ {
        "快进 → {}"@
    } else if key == "status.seek_backward"@ {
        "快退 ← {}"@
    } else if key == "status.volume"@ {
        "音量: {}%"@
    } else if key == "status.play_mode"@ {
        "播放模式: {}"@
    } else if key == "status.search_done"@ {
        "搜索完成: {} 个结果"@
    } else if key == "status.refreshing"@ {
        "正在刷新音乐列表..."@
    } else if key == "status.load_failed"@ {
        "加载失败"@
    } else if key == "status.loading"@ {
        "📂 正在加载: {}"@
    } else if key == "status.downloading"@ {
        "⏳ 正在下载: {}"@
    } else if key == "status.cache_reading"@ {
        "📖 从缓存读取: {}"@
    } else if key == "status.cache_read_fail"@ {
        "缓存读取失败: {}"@
    } else if key == "status.stream_fail"@ {
        "流式播放失败: {}"@
    } else if key == "status.decode_fail"@ {
        "解码失败 (可能是不支持的格式): {}"@
    } else if key == "status.download_fail"@ {
        "加载失败: {}"@
    } else if key == "status.single_repeat"@ {
        "单曲循环"@
    } else if key == "status.playlist_end"@ {
        "播放完毕"@
    } else if key == "status.shuffle_end"@ {
        "随机播放已播完"@
    } else if key == "status.servers_saved"@ {
        "已保存 {} 个服务器配置"@
    } else if key == "status.music_loaded"@ {
        "共 {} 首音乐，已加载 {} 首"@
    } else if key == "status.lang_switched"@ {
        "已切换为中文"@
    } else if key == "status.fetch_list_fail"@ {
        "获取音乐列表失败: {}"@
    } else if key == "status.seek_unavailable"@ {
        "文件还在下载中，请稍后再试"@
    } else if key == "status.jumped_to"@ {
        "已跳转到: {}"@
    } else if key == "status.jumped_to_playlist"@ {
        "已跳转到: {} — {}"@
    } else if key == "status.resuming"@ {
        "↻ 继续播放: {}"@
    } else if key == "status.sort_changed"@ {
        "排序: {}"@
    } else if key == "playmode.sequential"@ {
        "顺序播放"@
    } else if key == "playmode.single_repeat"@ {
        "单曲循环"@
    } else if key == "playmode.shuffle"@ {
        "随机播放"@
    } else if key == "playmode.short_sequential"@ {
        "顺序"@
    } else if key == "playmode.short_single"@ {
        "单曲"@
    } else if key == "playmode.short_shuffle"@ {
        "随机"@
    } else if key == "playlist.empty"@ {
        "还没有歌单 — 按 c 创建新歌单"@
    } else if key == "playlist.content_empty"@ {
        "歌单为空 — 在音乐列表中按 a 添加歌曲"@
    } else if key == "playlist.not_found"@ {
        "歌单不存在"@
    } else if key == "playlist.error"@ {
        "错误"@
    } else if key == "playlist.created"@ {
        "已创建歌单: {}"@
    } else if key == "playlist.default_name"@ {
        "歌单 {}"@
    } else if key == "playlist.added"@ {
        "已添加到歌单「{}」"@
    } else if key == "playlist.deleted"@ {
        "已删除歌单"@
    } else if key == "playlist.removed"@ {
        "已从歌单移除"@
    } else if key == "playlist.add_title"@ {
        "添加到歌单"@
    } else if key == "playlist.create_title"@ {
        "创建歌单"@
    } else if key == "playlist.create_hint"@ {
        "输入歌单名称:"@
    } else if key == "playlist.pick_hint"@ {
        "选择歌单 (Enter 确认)"@
    } else if key == "playlist.song_count"@ {
        "{} ({} 首)"@
    } else if key == "queue.empty"@ {
        "队列为空 — 在列表中按 x 插播或 w 添加到队列"@
    } else if key == "queue.title"@ {
        "播放队列"@
    } else if key == "queue.current_label"@ {
        "当前播放: {}"@
    } else if key == "queue.count_single"@ {
        "1 首待播"@
    } else if key == "queue.count_multi"@ {
        "{} 首待播"@
    } else if key == "queue.added_front"@ {
        "已插播到队列首位 (队列共 {} 首)"@
    } else if key == "queue.added_back"@ {
        "已添加到队列末尾 (队列共 {} 首)"@
    } else if key == "queue.hint"@ {
        "↑/↓ 选择 | Enter 立即播放 | d 移除 | +/- 移动 | Esc 关闭"@
    } else if key == "queue.empty_hint"@ {
        "队列为空 — 在列表中按 x 插播或 w 添加到队列"@
    } else if key == "config.title_list"@ {
        "服务器管理 (Enter编辑 a添加 d删除 Space停用 Esc保存)"@
    } else if key == "config.title_edit"@ {
        "编辑服务器 (Tab切换 Enter保存 Esc取消)"@
    } else if key == "config.label_name"@ {
        "名称"@
    } else if key == "config.label_type"@ {
        "类型"@
    } else if key == "config.label_url"@ {
        "URL"@
    } else if key == "config.label_user"@ {
        "用户名"@
    } else if key == "config.label_password"@ {
        "密码"@
    } else if key == "config.enabled"@ {
        "已启用"@
    } else if key == "config.disabled"@ {
        "已停用"@
    } else if key == "config.empty"@ {
        "暂无服务器，按 a 添加"@
    } else if key == "playback.idle"@ {
        "空闲"@
    } else if key == "playback.volume"@ {
        "音量: {}%"@
    } else if key == "search.title"@ {
        "搜索"@
    } else if key == "search.prompt"@ {
        "输入搜索关键词:"@
    } else if key == "help.title"@ {
        "帮助"@
    } else if key == "help.nav_header"@ {
        "─ 导航 ─"@
    } else if key == "help.nav_up_down"@ {
        "↑/↓ 选择"@
    } else if key == "help.nav_page"@ {
        "PgUp / PgDn 翻页"@
    } else if key == "help.goto_playing"@ {
        "g 跳转到正在播放"@
    } else if key == "help.sort"@ {
        "S 切换排序方式"@
    } else if key == "help.search"@ {
        "/ 搜索"@
    } else if key == "help.playback_header"@ {
        "─ 播放控制 ─"@
    } else if key == "help.play"@ {
        "Enter 播放选中"@
    } else if key == "help.toggle"@ {
        "Space 暂停/继续"@
    } else if key == "help.stop"@ {
        "s 停止"@
    } else if key == "help.seek"@ {
        "←/→ 快退/快进 5秒"@
    } else if key == "help.play_mode"@ {
        "m 切换播放模式"@
    } else if key == "help.volume"@ {
        "+/- 音量增减"@
    } else if key == "help.queue_header"@ {
        "─ 播放队列 ─"@
    } else if key == "help.queue_play_next"@ {
        "x 插播到队列首位"@
    } else if key == "help.queue_add"@ {
        "w 添加到队列末尾"@
    } else if key == "help.queue_view"@ {
        "u 查看/管理播放队列"@
    } else if key == "help.playlist_header"@ {
        "─ 歌单操作 ─"@
    } else if key == "help.playlist_add"@ {
        "a 加入歌单"@
    } else if key == "help.playlist_manage"@ {
        "l 歌单管理 / 返回"@
    } else if key == "help.playlist_create"@ {
        "c 创建歌单"@
    } else if key == "help.playlist_delete"@ {
        "d 删除歌单 / 移出"@
    } else if key == "help.system_header"@ {
        "─ 系统 ─"@
    } else if key == "help.refresh"@ {
        "r 刷新音乐列表"@
    } else if key == "help.config"@ {
        "R 配置服务器地址"@
    } else if key == "help.language"@ {
        "L 切换语言"@
    } else if key == "help.help"@ {
        "h / ? 本帮助"@
    } else if key == "help.quit"@ {
        "q / Esc 退出 / 返回"@
    } else if key == "sort.default"@ {
        "默认排序"@
    } else if key == "sort.name"@ {
        "按歌名"@
    } else if key == "sort.artist"@ {
        "按艺术家"@
    } else if key == "sort.duration"@ {
        "按时长"@
    } else if key == "config.edit_hint_name"@ {
        "名称"@
    } else if key == "config.edit_hint_url"@ {
        "URL"@
    } else if key == "config.edit_hint_user"@ {
        "用户名"@
    } else if key == "config.edit_hint_password"@ {
        "密码"@
    } else if key == "misc.quick_filter"@ {
        "按服务器"@
    } else if key == "misc.servers_count"@ {
        "{} 个服务器"@
    } else if key == "header.title"@ {
        " ♪ 音源播放器 [{}]{}  {}  |  {} 首  {} 歌单"@
    } else {
        key
    }
}

/// The English text of a message key; an unknown key stands for itself.
pub open spec fn en_text(key: Seq<char>) -> Seq<char> {
    if key == "app.title"@ {
        "♪ Tune Player"@
    } else if key == "app.ready"@ {
        "Ready — press q to quit"@
    } else if key == "app.help_prompt"@ {
        "Press h/? for help | ↑/↓ select | Enter play"@
    } else if key == "app.quit"@ {
        "Goodbye!"@
    } else if key == "app.config_prompt"@ {
        "Add a server (Enter edit, Tab switch field, Esc save & exit)"@
    } else if key == "app.config_edit_hint"@ {
        "Name"@
    } else if key == "app.no_server"@ {
        "Press R to configure server URL"@
    } else if key == "app.unknown_artist"@ {
        "Unknown Artist"@
    } else if key == "app.no_playing"@ {
        "No track is currently playing"@
    } else if key == "app.unknown_source"@ {
        "Unknown source"@
    } else if key == "view.browse"@ {
        "Music List"@
    } else if key == "view.playlist_list"@ {
        "Playlists"@
    } else if key == "view.playlist_content"@ {
        "Playlist"@
    } else if key == "view.search"@ {
        "Search"@
    } else if key == "view.search_results"@ {
        "Search: {} ({} results)"@
    } else if key == "view.music_list"@ {
        "Music List ({})"@
    } else if key == "status.playing"@ {
        "▶ Now playing: {}"@
    } else if key == "status.paused"@ {
        "Paused"@
    } else if key == "status.stopped"@ {
        "Stopped"@
    } else if key == "status.resumed"@ {
        "Resumed"@
    } else if key == "status.seek_forward"@ {
        "Seek → {}"@
    } else if key == "status.seek_backward"@ {
        "Seek ← {}"@
    } else if key == "status.volume"@ {
        "Volume: {}%"@
    } else if key == "status.play_mode"@ {
        "Mode: {}"@
    } else if key == "status.search_done"@ {
        "Search finished: {} results"@
    } else if key == "status.refreshing"@ {
        "Refreshing music list..."@
    } else if key == "status.load_failed"@ {
        "Load failed"@
    } else if key == "status.loading"@ {
        "📂 Loading: {}"@
    } else if key == "status.downloading"@ {
        "⏳ Downloading: {}"@
    } else if key == "status.cache_reading"@ {
        "📖 Reading from cache: {}"@
    } else if key == "status.cache_read_fail"@ {
        "Cache read error: {}"@
    } else if key == "status.stream_fail"@ {
        "Streaming failed: {}"@
    } else if key == "status.decode_fail"@ {
        "Decode failed (unsupported format?): {}"@
    } else if key == "status.download_fail"@ {
        "Load failed: {}"@
    } else if key == "status.single_repeat"@ {
        "Single-repeat"@
    } else if key == "status.playlist_end"@ {
        "End of playlist"@
    } else if key == "status.shuffle_end"@ {
        "Shuffle finished"@
    } else if key == "status.servers_saved"@ {
        "Saved {} server(s)"@
    } else if key == "status.music_loaded"@ {
        "{} songs loaded"@
    } else if key == "status.lang_switched"@ {
        "Switched to English"@
    } else if key == "status.fetch_list_fail"@ {
        "Failed to fetch music list: {}"@
    } else if key == "status.seek_unavailable"@ {
        "Download in progress, please wait before seeking"@
    } else if key == "status.jumped_to"@ {
        "Jumped to: {}"@
    } else if key == "status.jumped_to_playlist"@ {
        "Jumped to: {} — {}"@
    } else if key == "status.resuming"@ {
        "↻ Resuming: {}"@
    } else if key == "status.sort_changed"@ {
        "Sort: {}"@
    } else if key == "playmode.sequential"@ {
        "Sequential"@
    } else if key == "playmode.single_repeat"@ {
        "Single Repeat"@
    } else if key == "playmode.shuffle"@ {
        "Shuffle"@
    } else if key == "playmode.short_sequential"@ {
        "Seq"@
    } else if key == "playmode.short_single"@ {
        "Repeat"@
    } else if key == "playmode.short_shuffle"@ {
        "Shuffle"@
    } else if key == "playlist.empty"@ {
        "No playlists — press c to create one"@
    } else if key == "playlist.content_empty"@ {
        "Playlist is empty — press a in music list to add songs"@
    } else if key == "playlist.not_found"@ {
        "Playlist not found"@
    } else if key == "playlist.error"@ {
        "Error"@
    } else if key == "playlist.created"@ {
        "Created playlist: {}"@
    } else if key == "playlist.default_name"@ {
        "Playlist {}"@
    } else if key == "playlist.added"@ {
        "Added to playlist \"{}\""@
    } else if key == "playlist.deleted"@ {
        "Playlist deleted"@
    } else if key == "playlist.removed"@ {
        "Removed from playlist"@
    } else if key == "playlist.add_title"@ {
        "Add to Playlist"@
    } else if key == "playlist.create_title"@ {
        "Create Playlist"@
    } else if key == "playlist.create_hint"@ {
        "Enter playlist name:"@
    } else if key == "playlist.pick_hint"@ {
        "Choose a playlist (Enter to confirm)"@
    } else if key == "playlist.song_count"@ {
        "{} ({} songs)"@
    } else if key == "queue.empty"@ {
        "Queue is empty — press x to play next or w to add to queue"@
    } else if key == "queue.title"@ {
        "Play Queue"@
    } else if key == "queue.current_label"@ {
        "Now playing: {}"@
    } else if key == "queue.count_single"@ {
        "1 song queued"@
    } else if key == "queue.count_multi"@ {
        "{} songs queued"@
    } else if key == "queue.added_front"@ {
        "Queued as next ({} total)"@
    } else if key == "queue.added_back"@ {
        "Added to end of queue ({} total)"@
    } else if key == "queue.hint"@ {
        "↑/↓ select | Enter play | d remove | +/- move | Esc close"@
    } else if key == "queue.empty_hint"@ {
        "Queue is empty — press x to play next or w to queue"@
    } else if key == "config.title_list"@ {
        "Server Manager (Enter edit a add d delete Space toggle Esc save)"@
    } else if key == "config.title_edit"@ {
        "Edit Server (Tab switch Enter save Esc cancel)"@
    } else if key == "config.label_name"@ {
        "Name"@
    } else if key == "config.label_type"@ {
        "Type"@
    } else if key == "config.label_url"@ {
        "URL"@
    } else if key == "config.label_user"@ {
        "Username"@
    } else if key == "config.label_password"@ {
        "Password"@
    } else if key == "config.enabled"@ {
        "Enabled"@
    } else if key == "config.disabled"@ {
        "Disabled"@
    } else if key == "config.empty"@ {
        "No servers, press a to add"@
    } else if key == "playback.idle"@ {
        "Idle"@
    } else if key == "playback.volume"@ {
        "Vol: {}%"@
    } else if key == "search.title"@ {
        "Search"@
    } else if key == "search.prompt"@ {
        "Type to search:"@
    } else if key == "help.title"@ {
        "Help"@
    } else if key == "help.nav_header"@ {
        "─ Navigation ─"@
    } else if key == "help.nav_up_down"@ {
        "↑/↓ Select"@
    } else if key == "help.nav_page"@ {
        "PgUp / PgDn Scroll page"@
    } else if key == "help.goto_playing"@ {
        "g Jump to now playing"@
    } else if key == "help.sort"@ {
        "S Cycle sort mode"@
    } else if key == "help.search"@ {
        "/ Search"@
    } else if key == "help.playback_header"@ {
        "─ Playback ─"@
    } else if key == "help.play"@ {
        "Enter Play selected"@
    } else if key == "help.toggle"@ {
        "Space Pause / Resume"@
    } else if key == "help.stop"@ {
        "s Stop"@
    } else if key == "help.seek"@ {
        "←/→ Seek 5s"@
    } else if key == "help.play_mode"@ {
        "m Cycle play mode"@
    } else if key == "help.volume"@ {
        "+/- Volume"@
    } else if key == "help.queue_header"@ {
        "─ Play Queue ─"@
    } else if key == "help.queue_play_next"@ {
        "x Queue as next"@
    } else if key == "help.queue_add"@ {
        "w Add to queue end"@
    } else if key == "help.queue_view"@ {
        "u View / manage queue"@
    } else if key == "help.playlist_header"@ {
        "─ Playlists ─"@
    } else if key == "help.playlist_add"@ {
        "a Add to playlist"@
    } else if key == "help.playlist_manage"@ {
        "l Playlist mgmt / back"@
    } else if key == "help.playlist_create"@ {
        "c Create playlist"@
    } else if key == "help.playlist_delete"@ {
        "d Delete / remove"@
    } else if key == "help.system_header"@ {
        "─ System ─"@
    } else if key == "help.refresh"@ {
        "r Refresh music list"@
    } else if key == "help.config"@ {
        "R Configure servers"@
    } else if key == "help.language"@ {
        "L Switch language"@
    } else if key == "help.help"@ {
        "h / ? Help"@
    } else if key == "help.quit"@ {
        "q / Esc Quit / back"@
    } else if key == "sort.default"@ {
        "Default"@
    } else if key == "sort.name"@ {
        "By name"@
    } else if key == "sort.artist"@ {
        "By artist"@
    } else if key == "sort.duration"@ {
        "By duration"@
    } else if key == "config.edit_hint_name"@ {
        "Name"@
    } else if key == "config.edit_hint_url"@ {
        "URL"@
    } else if key == "config.edit_hint_user"@ {
        "Username"@
    } else if key == "config.edit_hint_password"@ {
        "Password"@
    } else if key == "misc.quick_filter"@ {
        "by server"@
    } else if key == "misc.servers_count"@ {
        "{} servers"@
    } else if key == "header.title"@ {
        " ♪ Tune Player [{}]{}  {}  |  {} songs  {} playlists"@
    } else {
        key
    }
}

/// Chinese strings.
fn zh<'a>(key: &'a str) -> (r: &'a str)
    ensures
        r@ == zh_text(key@),
{
    if str_eq(key, "app.title") {
        "♪ 音源播放器"
    } else if str_eq(key, "app.ready") {
        "准备就绪 - 按 q 退出"
    } else if str_eq(key, "app.help_prompt") {
        "按 h/? 查看帮助 | ↑/↓ 选择 | Enter 播放"
    } else if str_eq(key, "app.quit") {
        "已退出音源播放器"
    } else if str_eq(key, "app.config_prompt") {
        "请先添加服务器 (按 Enter 编辑, Tab 切换字段, 保存后按 Esc)"
    } else if str_eq(key, "app.config_edit_hint") {
        "名称"
    } else if str_eq(key, "app.no_server") {
        "请先按 R 配置服务器地址"
    } else if str_eq(key, "app.unknown_artist") {
        "未知艺术家"
    } else if str_eq(key, "app.no_playing") {
        "当前没有正在播放的歌曲"
    } else if str_eq(key, "app.unknown_source") {
        "播放来源未知"
    } else if str_eq(key, "view.browse") {
        "音乐列表"
    } else if str_eq(key, "view.playlist_list") {
        "歌单管理"
    } else if str_eq(key, "view.playlist_content") {
        "歌单内容"
    } else if str_eq(key, "view.search") {
        "搜索"
    } else if str_eq(key, "view.search_results") {
        "搜索: {} ({} 结果)"
    } else if str_eq(key, "view.music_list") {
        "音乐列表 ({})"
    } else if str_eq(key, "status.playing") {
        "▶ 正在播放: {}"
    } else if str_eq(key, "status.paused") {
        "已暂停"
    } else if str_eq(key, "status.stopped") {
        "已停止"
    } else if str_eq(key, "status.resumed") {
        "继续播放"
    } else if str_eq(key, "status.seek_forward") {
        "快进 → {}"
    } else if str_eq(key, "status.seek_backward") {
        "快退 ← {}"
    } else if str_eq(key, "status.volume") {
        "音量: {}%"
    } else if str_eq(key, "status.play_mode") {
        "播放模式: {}"
    } else if str_eq(key, "status.search_done") {
        "搜索完成: {} 个结果"
    } else if str_eq(key, "status.refreshing") {
        "正在刷新音乐列表..."
    } else if str_eq(key, "status.load_failed") {
        "加载失败"
    } else if str_eq(key, "status.loading") {
        "📂 正在加载: {}"
    } else if str_eq(key, "status.downloading") {
        "⏳ 正在下载: {}"
    } else if str_eq(key, "status.cache_reading") {
        "📖 从缓存读取: {}"
    } else if str_eq(key, "status.cache_read_fail") {
        "缓存读取失败: {}"
    } else if str_eq(key, "status.stream_fail") {
        "流式播放失败: {}"
    } else if str_eq(key, "status.decode_fail") {
        "解码失败 (可能是不支持的格式): {}"
    } else if str_eq(key, "status.download_fail") {
        "加载失败: {}"
    } else if str_eq(key, "status.single_repeat") {
        "单曲循环"
    } else if str_eq(key, "status.playlist_end") {
        "播放完毕"
    } else if str_eq(key, "status.shuffle_end") {
        "随机播放已播完"
    } else if str_eq(key, "status.servers_saved") {
        "已保存 {} 个服务器配置"
    } else if str_eq(key, "status.music_loaded") {
        "共 {} 首音乐，已加载 {} 首"
    } else if str_eq(key, "status.lang_switched") {
        "已切换为中文"
    } else if str_eq(key, "status.fetch_list_fail") {
        "获取音乐列表失败: {}"
    } else if str_eq(key, "status.seek_unavailable") {
        "文件还在下载中，请稍后再试"
    } else if str_eq(key, "status.jumped_to") {
        "已跳转到: {}"
    } else if str_eq(key, "status.jumped_to_playlist") {
        "已跳转到: {} — {}"
    } else if str_eq(key, "status.resuming") {
        "↻ 继续播放: {}"
    } else if str_eq(key, "status.sort_changed") {
        "排序: {}"
    } else if str_eq(key, "playmode.sequential") {
        "顺序播放"
    } else if str_eq(key, "playmode.single_repeat") {
        "单曲循环"
    } else if str_eq(key, "playmode.shuffle") {
        "随机播放"
    } else if str_eq(key, "playmode.short_sequential") {
        "顺序"
    } else if str_eq(key, "playmode.short_single") {
        "单曲"
    } else if str_eq(key, "playmode.short_shuffle") {
        "随机"
    } else if str_eq(key, "playlist.empty") {
        "还没有歌单 — 按 c 创建新歌单"
    } else if str_eq(key, "playlist.content_empty") {
        "歌单为空 — 在音乐列表中按 a 添加歌曲"
    } else if str_eq(key, "playlist.not_found") {
        "歌单不存在"
    } else if str_eq(key, "playlist.error") {
        "错误"
    } else if str_eq(key, "playlist.created") {
        "已创建歌单: {}"
    } else if str_eq(key, "playlist.default_name") {
        "歌单 {}"
    } else if str_eq(key, "playlist.added") {
        "已添加到歌单「{}」"
    } else if str_eq(key, "playlist.deleted") {
        "已删除歌单"
    } else if str_eq(key, "playlist.removed") {
        "已从歌单移除"
    } else if str_eq(key, "playlist.add_title") {
        "添加到歌单"
    } else if str_eq(key, "playlist.create_title") {
        "创建歌单"
    } else if str_eq(key, "playlist.create_hint") {
        "输入歌单名称:"
    } else if str_eq(key, "playlist.pick_hint") {
        "选择歌单 (Enter 确认)"
    } else if str_eq(key, "playlist.song_count") {
        "{} ({} 首)"
    } else if str_eq(key, "queue.empty") {
        "队列为空 — 在列表中按 x 插播或 w 添加到队列"
    } else if str_eq(key, "queue.title") {
        "播放队列"
    } else if str_eq(key, "queue.current_label") {
        "当前播放: {}"
    } else if str_eq(key, "queue.count_single") {
        "1 首待播"
    } else if str_eq(key, "queue.count_multi") {
        "{} 首待播"
    } else if str_eq(key, "queue.added_front") {
        "已插播到队列首位 (队列共 {} 首)"
    } else if str_eq(key, "queue.added_back") {
        "已添加到队列末尾 (队列共 {} 首)"
    } else if str_eq(key, "queue.hint") {
        "↑/↓ 选择 | Enter 立即播放 | d 移除 | +/- 移动 | Esc 关闭"
    } else if str_eq(key, "queue.empty_hint") {
        "队列为空 — 在列表中按 x 插播或 w 添加到队列"
    } else if str_eq(key, "config.title_list") {
        "服务器管理 (Enter编辑 a添加 d删除 Space停用 Esc保存)"
    } else if str_eq(key, "config.title_edit") {
        "编辑服务器 (Tab切换 Enter保存 Esc取消)"
    } else if str_eq(key, "config.label_name") {
        "名称"
    } else if str_eq(key, "config.label_type") {
        "类型"
    } else if str_eq(key, "config.label_url") {
        "URL"
    } else if str_eq(key, "config.label_user") {
        "用户名"
    } else if str_eq(key, "config.label_password") {
        "密码"
    } else if str_eq(key, "config.enabled") {
        "已启用"
    } else if str_eq(key, "config.disabled") {
        "已停用"
    } else if str_eq(key, "config.empty") {
        "暂无服务器，按 a 添加"
    } else if str_eq(key, "playback.idle") {
        "空闲"
    } else if str_eq(key, "playback.volume") {
        "音量: {}%"
    } else if str_eq(key, "search.title") {
        "搜索"
    } else if str_eq(key, "search.prompt") {
        "输入搜索关键词:"
    } else if str_eq(key, "help.title") {
        "帮助"
    } else if str_eq(key, "help.nav_header") {
        "─ 导航 ─"
    } else if str_eq(key, "help.nav_up_down") {
        "↑/↓ 选择"
    } else if str_eq(key, "help.nav_page") {
        "PgUp / PgDn 翻页"
    } else if str_eq(key, "help.goto_playing") {
        "g 跳转到正在播放"
    } else if str_eq(key, "help.sort") {
        "S 切换排序方式"
    } else if str_eq(key, "help.search") {
        "/ 搜索"
    } else if str_eq(key, "help.playback_header") {
        "─ 播放控制 ─"
    } else if str_eq(key, "help.play") {
        "Enter 播放选中"
    } else if str_eq(key, "help.toggle") {
        "Space 暂停/继续"
    } else if str_eq(key, "help.stop") {
        "s 停止"
    } else if str_eq(key, "help.seek") {
        "←/→ 快退/快进 5秒"
    } else if str_eq(key, "help.play_mode") {
        "m 切换播放模式"
    } else if str_eq(key, "help.volume") {
        "+/- 音量增减"
    } else if str_eq(key, "help.queue_header") {
        "─ 播放队列 ─"
    } else if str_eq(key, "help.queue_play_next") {
        "x 插播到队列首位"
    } else if str_eq(key, "help.queue_add") {
        "w 添加到队列末尾"
    } else if str_eq(key, "help.queue_view") {
        "u 查看/管理播放队列"
    } else if str_eq(key, "help.playlist_header") {
        "─ 歌单操作 ─"
    } else if str_eq(key, "help.playlist_add") {
        "a 加入歌单"
    } else if str_eq(key, "help.playlist_manage") {
        "l 歌单管理 / 返回"
    } else if str_eq(key, "help.playlist_create") {
        "c 创建歌单"
    } else if str_eq(key, "help.playlist_delete") {
        "d 删除歌单 / 移出"
    } else if str_eq(key, "help.system_header") {
        "─ 系统 ─"
    } else if str_eq(key, "help.refresh") {
        "r 刷新音乐列表"
    } else if str_eq(key, "help.config") {
        "R 配置服务器地址"
    } else if str_eq(key, "help.language") {
        "L 切换语言"
    } else if str_eq(key, "help.help") {
        "h / ? 本帮助"
    } else if str_eq(key, "help.quit") {
        "q / Esc 退出 / 返回"
    } else if str_eq(key, "sort.default") {
        "默认排序"
    } else if str_eq(key, "sort.name") {
        "按歌名"
    } else if str_eq(key, "sort.artist") {
        "按艺术家"
    } else if str_eq(key, "sort.duration") {
        "按时长"
    } else if str_eq(key, "config.edit_hint_name") {
        "名称"
    } else if str_eq(key, "config.edit_hint_url") {
        "URL"
    } else if str_eq(key, "config.edit_hint_user") {
        "用户名"
    } else if str_eq(key, "config.edit_hint_password") {
        "密码"
    } else if str_eq(key, "misc.quick_filter") {
        "按服务器"
    } else if str_eq(key, "misc.servers_count") {
        "{} 个服务器"
    } else if str_eq(key, "header.title") {
        " ♪ 音源播放器 [{}]{}  {}  |  {} 首  {} 歌单"
    } else {
        key
    }
}

/// English strings.
fn en<'a>(key: &'a str) -> (r: &'a str)
    ensures
        r@ == en_text(key@),
{
    if str_eq(key, "app.title") {
        "♪ Tune Player"
    } else if str_eq(key, "app.ready") {
        "Ready — press q to quit"
    } else if str_eq(key, "app.help_prompt") {
        "Press h/? for help | ↑/↓ select | Enter play"
    } else if str_eq(key, "app.quit") {
        "Goodbye!"
    } else if str_eq(key, "app.config_prompt") {
        "Add a server (Enter edit, Tab switch field, Esc save & exit)"
    } else if str_eq(key, "app.config_edit_hint") {
        "Name"
    } else if str_eq(key, "app.no_server") {
        "Press R to configure server URL"
    } else if str_eq(key, "app.unknown_artist") {
        "Unknown Artist"
    } else if str_eq(key, "app.no_playing") {
        "No track is currently playing"
    } else if str_eq(key, "app.unknown_source") {
        "Unknown source"
    } else if str_eq(key, "view.browse") {
        "Music List"
    } else if str_eq(key, "view.playlist_list") {
        "Playlists"
    } else if str_eq(key, "view.playlist_content") {
        "Playlist"
    } else if str_eq(key, "view.search") {
        "Search"
    } else if str_eq(key, "view.search_results") {
        "Search: {} ({} results)"
    } else if str_eq(key, "view.music_list") {
        "Music List ({})"
    } else if str_eq(key, "status.playing") {
        "▶ Now playing: {}"
    } else if str_eq(key, "status.paused") {
        "Paused"
    } else if str_eq(key, "status.stopped") {
        "Stopped"
    } else if str_eq(key, "status.resumed") {
        "Resumed"
    } else if str_eq(key, "status.seek_forward") {
        "Seek → {}"
    } else if str_eq(key, "status.seek_backward") {
        "Seek ← {}"
    } else if str_eq(key, "status.volume") {
        "Volume: {}%"
    } else if str_eq(key, "status.play_mode") {
        "Mode: {}"
    } else if str_eq(key, "status.search_done") {
        "Search finished: {} results"
    } else if str_eq(key, "status.refreshing") {
        "Refreshing music list..."
    } else if str_eq(key, "status.load_failed") {
        "Load failed"
    } else if str_eq(key, "status.loading") {
        "📂 Loading: {}"
    } else if str_eq(key, "status.downloading") {
        "⏳ Downloading: {}"
    } else if str_eq(key, "status.cache_reading") {
        "📖 Reading from cache: {}"
    } else if str_eq(key, "status.cache_read_fail") {
        "Cache read error: {}"
    } else if str_eq(key, "status.stream_fail") {
        "Streaming failed: {}"
    } else if str_eq(key, "status.decode_fail") {
        "Decode failed (unsupported format?): {}"
    } else if str_eq(key, "status.download_fail") {
        "Load failed: {}"
    } else if str_eq(key, "status.single_repeat") {
        "Single-repeat"
    } else if str_eq(key, "status.playlist_end") {
        "End of playlist"
    } else if str_eq(key, "status.shuffle_end") {
        "Shuffle finished"
    } else if str_eq(key, "status.servers_saved") {
        "Saved {} server(s)"
    } else if str_eq(key, "status.music_loaded") {
        "{} songs loaded"
    } else if str_eq(key, "status.lang_switched") {
        "Switched to English"
    } else if str_eq(key, "status.fetch_list_fail") {
        "Failed to fetch music list: {}"
    } else if str_eq(key, "status.seek_unavailable") {
        "Download in progress, please wait before seeking"
    } else if str_eq(key, "status.jumped_to") {
        "Jumped to: {}"
    } else if str_eq(key, "status.jumped_to_playlist") {
        "Jumped to: {} — {}"
    } else if str_eq(key, "status.resuming") {
        "↻ Resuming: {}"
    } else if str_eq(key, "status.sort_changed") {
        "Sort: {}"
    } else if str_eq(key, "playmode.sequential") {
        "Sequential"
    } else if str_eq(key, "playmode.single_repeat") {
        "Single Repeat"
    } else if str_eq(key, "playmode.shuffle") {
        "Shuffle"
    } else if str_eq(key, "playmode.short_sequential") {
        "Seq"
    } else if str_eq(key, "playmode.short_single") {
        "Repeat"
    } else if str_eq(key, "playmode.short_shuffle") {
        "Shuffle"
    } else if str_eq(key, "playlist.empty") {
        "No playlists — press c to create one"
    } else if str_eq(key, "playlist.content_empty") {
        "Playlist is empty — press a in music list to add songs"
    } else if str_eq(key, "playlist.not_found") {
        "Playlist not found"
    } else if str_eq(key, "playlist.error") {
        "Error"
    } else if str_eq(key, "playlist.created") {
        "Created playlist: {}"
    } else if str_eq(key, "playlist.default_name") {
        "Playlist {}"
    } else if str_eq(key, "playlist.added") {
        "Added to playlist \"{}\""
    } else if str_eq(key, "playlist.deleted") {
        "Playlist deleted"
    } else if str_eq(key, "playlist.removed") {
        "Removed from playlist"
    } else if str_eq(key, "playlist.add_title") {
        "Add to Playlist"
    } else if str_eq(key, "playlist.create_title") {
        "Create Playlist"
    } else if str_eq(key, "playlist.create_hint") {
        "Enter playlist name:"
    } else if str_eq(key, "playlist.pick_hint") {
        "Choose a playlist (Enter to confirm)"
    } else if str_eq(key, "playlist.song_count") {
        "{} ({} songs)"
    } else if str_eq(key, "queue.empty") {
        "Queue is empty — press x to play next or w to add to queue"
    } else if str_eq(key, "queue.title") {
        "Play Queue"
    } else if str_eq(key, "queue.current_label") {
        "Now playing: {}"
    } else if str_eq(key, "queue.count_single") {
        "1 song queued"
    } else if str_eq(key, "queue.count_multi") {
        "{} songs queued"
    } else if str_eq(key, "queue.added_front") {
        "Queued as next ({} total)"
    } else if str_eq(key, "queue.added_back") {
        "Added to end of queue ({} total)"
    } else if str_eq(key, "queue.hint") {
        "↑/↓ select | Enter play | d remove | +/- move | Esc close"
    } else if str_eq(key, "queue.empty_hint") {
        "Queue is empty — press x to play next or w to queue"
    } else if str_eq(key, "config.title_list") {
        "Server Manager (Enter edit a add d delete Space toggle Esc save)"
    } else if str_eq(key, "config.title_edit") {
        "Edit Server (Tab switch Enter save Esc cancel)"
    } else if str_eq(key, "config.label_name") {
        "Name"
    } else if str_eq(key, "config.label_type") {
        "Type"
    } else if str_eq(key, "config.label_url") {
        "URL"
    } else if str_eq(key, "config.label_user") {
        "Username"
    } else if str_eq(key, "config.label_password") {
        "Password"
    } else if str_eq(key, "config.enabled") {
        "Enabled"
    } else if str_eq(key, "config.disabled") {
        "Disabled"
    } else if str_eq(key, "config.empty") {
        "No servers, press a to add"
    } else if str_eq(key, "playback.idle") {
        "Idle"
    } else if str_eq(key, "playback.volume") {
        "Vol: {}%"
    } else if str_eq(key, "search.title") {
        "Search"
    } else if str_eq(key, "search.prompt") {
        "Type to search:"
    } else if str_eq(key, "help.title") {
        "Help"
    } else if str_eq(key, "help.nav_header") {
        "─ Navigation ─"
    } else if str_eq(key, "help.nav_up_down") {
        "↑/↓ Select"
    } else if str_eq(key, "help.nav_page") {
        "PgUp / PgDn Scroll page"
    } else if str_eq(key, "help.goto_playing") {
        "g Jump to now playing"
    } else if str_eq(key, "help.sort") {
        "S Cycle sort mode"
    } else if str_eq(key, "help.search") {
        "/ Search"
    } else if str_eq(key, "help.playback_header") {
        "─ Playback ─"
    } else if str_eq(key, "help.play") {
        "Enter Play selected"
    } else if str_eq(key, "help.toggle") {
        "Space Pause / Resume"
    } else if str_eq(key, "help.stop") {
        "s Stop"
    } else if str_eq(key, "help.seek") {
        "←/→ Seek 5s"
    } else if str_eq(key, "help.play_mode") {
        "m Cycle play mode"
    } else if str_eq(key, "help.volume") {
        "+/- Volume"
    } else if str_eq(key, "help.queue_header") {
        "─ Play Queue ─"
    } else if str_eq(key, "help.queue_play_next") {
        "x Queue as next"
    } else if str_eq(key, "help.queue_add") {
        "w Add to queue end"
    } else if str_eq(key, "help.queue_view") {
        "u View / manage queue"
    } else if str_eq(key, "help.playlist_header") {
        "─ Playlists ─"
    } else if str_eq(key, "help.playlist_add") {
        "a Add to playlist"
    } else if str_eq(key, "help.playlist_manage") {
        "l Playlist mgmt / back"
    } else if str_eq(key, "help.playlist_create") {
        "c Create playlist"
    } else if str_eq(key, "help.playlist_delete") {
        "d Delete / remove"
    } else if str_eq(key, "help.system_header") {
        "─ System ─"
    } else if str_eq(key, "help.refresh") {
        "r Refresh music list"
    } else if str_eq(key, "help.config") {
        "R Configure servers"
    } else if str_eq(key, "help.language") {
        "L Switch language"
    } else if str_eq(key, "help.help") {
        "h / ? Help"
    } else if str_eq(key, "help.quit") {
        "q / Esc Quit / back"
    } else if str_eq(key, "sort.default") {
        "Default"
    } else if str_eq(key, "sort.name") {
        "By name"
    } else if str_eq(key, "sort.artist") {
        "By artist"
    } else if str_eq(key, "sort.duration") {
        "By duration"
    } else if str_eq(key, "config.edit_hint_name") {
        "Name"
    } else if str_eq(key, "config.edit_hint_url") {
        "URL"
    } else if str_eq(key, "config.edit_hint_user") {
        "Username"
    } else if str_eq(key, "config.edit_hint_password") {
        "Password"
    } else if str_eq(key, "misc.quick_filter") {
        "by server"
    } else if str_eq(key, "misc.servers_count") {
        "{} servers"
    } else if str_eq(key, "header.title") {
        " ♪ Tune Player [{}]{}  {}  |  {} songs  {} playlists"
    } else {
        key
    }
}

} // verus!
