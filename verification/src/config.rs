//! Configuration model: plain values only.
//!
//! Reading, writing and parsing the configuration file are the caller's
//! business; this crate owns the defaults, the path arithmetic, and the
//! text of a freshly generated configuration.

use vstd::prelude::*;
use vstd::string::StringExecFns;

use crate::paths::path_join;
use crate::paths::path_join_seq;
use crate::text::starts_with_seq;
use crate::text::str_starts_with;
use crate::text::trim;
use crate::text::trim_seq;

verus! {

/// Theme overrides carried in the main configuration.
#[derive(Debug, Clone)]
pub struct ThemeConfig {
    pub background: String,
    pub foreground: String,
    pub cursor: String,
    pub selection: String,
    pub statusbar_bg: String,
    pub statusbar_fg: String,
    pub border_color: String,
}

impl Default for ThemeConfig {
    fn default() -> (r: Self)
        ensures
            r.background@ == "black"@,
            r.foreground@ == "white"@,
            r.cursor@ == "cyan"@,
            r.selection@ == "green"@,
            r.statusbar_bg@ == "black"@,
            r.statusbar_fg@ == "white"@,
            r.border_color@ == "cyan"@,
    {
        ThemeConfig {
            background: String::from_str("black"),
            foreground: String::from_str("white"),
            cursor: String::from_str("cyan"),
            selection: String::from_str("green"),
            statusbar_bg: String::from_str("black"),
            statusbar_fg: String::from_str("white"),
            border_color: String::from_str("cyan"),
        }
    }
}

/// Appearance and behaviour of the file browser.
#[derive(Debug, Clone)]
pub struct UiConfig {
    pub border_style: String,
    pub icons: bool,
    pub show_hidden: bool,
}

impl Default for UiConfig {
    fn default() -> (r: Self)
        ensures
            r.border_style@ == "rounded"@,
            r.icons == false,
            r.show_hidden == false,
    {
        UiConfig { border_style: String::from_str("rounded"), icons: false, show_hidden: false }
    }
}

/// Editor behaviour.
#[derive(Debug, Clone)]
pub struct EditorConfig {
    pub typewriter_mode: bool,
    pub enable_spellcheck: bool,
    pub spellcheck_languages: Vec<String>,
    pub show_backlinks: bool,
    pub syntax_highlighting: bool,
    pub auto_save: bool,
    /// Seconds of keyboard quiet before an auto-save may fire.
    pub auto_save_interval: u64,
    pub line_numbers: bool,
    pub rel_line_numbers: bool,
    pub tab_width: u8,
    pub mouse_support: bool,
}

impl Default for EditorConfig {
    fn default() -> (r: Self)
        ensures
            r.typewriter_mode == false,
            r.enable_spellcheck == false,
            r.spellcheck_languages@.len() == 1 && r.spellcheck_languages@[0]@ == "en"@,
            r.show_backlinks == true,
            r.syntax_highlighting == true,
            r.auto_save == true,
            r.auto_save_interval == 30,
            r.line_numbers == true,
            r.rel_line_numbers == false,
            r.tab_width == 4,
            r.mouse_support == true,
    {
        let mut langs: Vec<String> = Vec::new();
        langs.push(String::from_str("en"));
        EditorConfig {
            typewriter_mode: false,
            enable_spellcheck: false,
            spellcheck_languages: langs,
            show_backlinks: true,
            syntax_highlighting: true,
            auto_save: true,
            auto_save_interval: 30,
            line_numbers: true,
            rel_line_numbers: false,
            tab_width: 4,
            mouse_support: true,
        }
    }
}

/// Key bindings in their written form ("ctrl-q", "enter", ...).
#[derive(Debug, Clone)]
pub struct KeysConfig {
    pub quit: String,
    pub zen_mode: String,
    pub search: String,
    pub command_palette: String,
    pub daily_note: String,
    pub task_board: String,
    pub escape: String,
    pub enter: String,
    pub backspace: String,
    pub move_up: String,
    pub move_down: String,
    pub move_left: String,
    pub move_up_alt: String,
    pub move_down_alt: String,
    pub move_left_alt: String,
    pub delete: String,
    pub list_create_note: String,
    pub list_create_dir: String,
    pub list_tag_explorer: String,
    pub list_rename: String,
    pub list_edit_config: String,
    pub list_delete: String,
    pub list_parent: String,
    pub list_parent_alt: String,
    pub editor_back: String,
    pub editor_pdf: String,
    pub editor_backlinks: String,
    pub editor_wiki_link: String,
    pub editor_insert: String,
    pub editor_append: String,
    pub editor_split_focus: String,
}

impl Default for KeysConfig {
    fn default() -> (r: Self)
        ensures
            r.quit@ == "q"@,
            r.zen_mode@ == "f11"@,
            r.search@ == "/"@,
            r.command_palette@ == "ctrl-p"@,
            r.daily_note@ == "alt-d"@,
            r.task_board@ == "alt-t"@,
            r.escape@ == "esc"@,
            r.enter@ == "enter"@,
            r.backspace@ == "backspace"@,
            r.move_up@ == "k"@,
            r.move_down@ == "j"@,
            r.move_left@ == "h"@,
            r.move_up_alt@ == "up"@,
            r.move_down_alt@ == "down"@,
            r.move_left_alt@ == "left"@,
            r.delete@ == "delete"@,
            r.list_create_note@ == "n"@,
            r.list_create_dir@ == "shift-n"@,
            r.list_tag_explorer@ == "shift-t"@,
            r.list_rename@ == "r"@,
            r.list_edit_config@ == "c"@,
            r.list_delete@ == "d"@,
            r.list_parent@ == "backspace"@,
            r.list_parent_alt@ == "left"@,
            r.editor_back@ == "q"@,
            r.editor_pdf@ == "ctrl-e"@,
            r.editor_backlinks@ == "ctrl-b"@,
            r.editor_wiki_link@ == "ctrl-]"@,
            r.editor_insert@ == "i"@,
            r.editor_append@ == "a"@,
            r.editor_split_focus@ == "tab"@,
    {
        KeysConfig {
            quit: String::from_str("q"),
            zen_mode: String::from_str("f11"),
            search: String::from_str("/"),
            command_palette: String::from_str("ctrl-p"),
            daily_note: String::from_str("alt-d"),
            task_board: String::from_str("alt-t"),
            escape: String::from_str("esc"),
            enter: String::from_str("enter"),
            backspace: String::from_str("backspace"),
            move_up: String::from_str("k"),
            move_down: String::from_str("j"),
            move_left: String::from_str("h"),
            move_up_alt: String::from_str("up"),
            move_down_alt: String::from_str("down"),
            move_left_alt: String::from_str("left"),
            delete: String::from_str("delete"),
            list_create_note: String::from_str("n"),
            list_create_dir: String::from_str("shift-n"),
            list_tag_explorer: String::from_str("shift-t"),
            list_rename: String::from_str("r"),
            list_edit_config: String::from_str("c"),
            list_delete: String::from_str("d"),
            list_parent: String::from_str("backspace"),
            list_parent_alt: String::from_str("left"),
            editor_back: String::from_str("q"),
            editor_pdf: String::from_str("ctrl-e"),
            editor_backlinks: String::from_str("ctrl-b"),
            editor_wiki_link: String::from_str("ctrl-]"),
            editor_insert: String::from_str("i"),
            editor_append: String::from_str("a"),
            editor_split_focus: String::from_str("tab"),
        }
    }
}

/// The whole configuration.
#[derive(Debug, Clone)]
pub struct Config {
    /// Directory where the documents live; `~` means the home directory.
    pub notes_directory: String,
    /// Folder for daily notes, relative to the notes directory.
    pub daily_notes_folder: String,
    pub theme: ThemeConfig,
    pub editor: EditorConfig,
    pub ui: UiConfig,
    pub keys: KeysConfig,
}

impl Default for Config {
    fn default() -> (r: Self)
        ensures
            r.notes_directory@ == "~/Documents/Notes"@,
            r.daily_notes_folder@ == "journal"@,
            r.editor.auto_save == true,
            r.editor.auto_save_interval == 30,
    {
        Config {
            notes_directory: String::from_str("~/Documents/Notes"),
            daily_notes_folder: String::from_str("journal"),
            theme: ThemeConfig::default(),
            editor: EditorConfig::default(),
            ui: UiConfig::default(),
            keys: KeysConfig::default(),
        }
    }
}

/// What a `~`-prefixed path expands to under a given home directory.
pub open spec fn expand_path_seq(path: Seq<char>, home: Seq<char>) -> Seq<char> {
    let t = trim_seq(path);
    if t == "~"@ {
        home + t.skip(1)
    } else if starts_with_seq(t, "~/"@) {
        home + t.skip(1)
    } else {
        t
    }
}

/// Resolve a leading `~` in a configured path against the caller's home
/// directory; the caller reads the environment, not this crate.
pub fn expand_path(path: &str, home: &str) -> (r: String)
    ensures
        r@ == expand_path_seq(path@, home@),
{
    let t = trim(path);
    proof {
        reveal_strlit("~");
        reveal_strlit("~/");
    }
    let t_len = vstd::string::StrSliceExecFns::unicode_len(t.as_str());
    let tilde = t_len == 1 && vstd::string::StrSliceExecFns::get_char(t.as_str(), 0) == '~';
    proof {
        if tilde {
            assert(t@ =~= "~"@);
        } else if t@ == "~"@ {
            assert(t@.len() == 1 && t@[0] == '~');
            assert(false);
        }
    }
    if tilde || str_starts_with(t.as_str(), "~/") {
        let rest = vstd::string::StrSliceExecFns::substring_char(t.as_str(), 1, t_len);
        let mut out = String::from_str(home);
        out.append(rest);
        proof {
            if tilde {
                assert(t@.skip(1) =~= Seq::<char>::empty());
            }
            assert(out@ =~= home@ + t@.skip(1));
        }
        out
    } else {
        t
    }
}

/// The configuration file's path under a given configuration directory.
pub fn config_file_path(config_dir: &str) -> (r: String)
    ensures
        r@ == path_join_seq(config_dir@, "config.toml"@),
{
    path_join(config_dir, "config.toml")
}

/// The two file names whose save triggers a configuration reload.
pub fn is_config_file_name(path: &str) -> (r: bool)
    ensures
        r == (crate::text::ends_with_seq(path@, "config.toml"@) || crate::text::ends_with_seq(
            path@,
            "theme.toml"@,
        )),
{
    crate::text::str_ends_with(path, "config.toml") || crate::text::str_ends_with(
        path,
        "theme.toml",
    )
}

/// The written form of a flag.
pub open spec fn bool_text(b: bool) -> Seq<char> {
    if b {
        "true"@
    } else {
        "false"@
    }
}

/// The text of a generated configuration file for `c`.
pub open spec fn config_text(c: Config) -> Seq<char> {
    "# Oxid Configuration\n# Logic settings for the note manager\n\n# Directory where your markdown notes are stored\nnotes_directory = \""@
        + c.notes_directory@
        + "\"\n\n# Folder for daily notes (relative to notes_directory)\ndaily_notes_folder = \""@
        + c.daily_notes_folder@
        + "\"\n\n[theme]\n# Hex (#RRGGBB) or named colors. Override theme.toml for main editor/status bar/borders.\nbackground = \""@
        + c.theme.background@
        + "\"\nforeground = \""@
        + c.theme.foreground@
        + "\"\ncursor = \""@
        + c.theme.cursor@
        + "\"\nselection = \""@
        + c.theme.selection@
        + "\"\nstatusbar_bg = \""@
        + c.theme.statusbar_bg@
        + "\"\nstatusbar_fg = \""@
        + c.theme.statusbar_fg@
        + "\"\nborder_color = \""@
        + c.theme.border_color@
        + "\"\n\n[editor]\ntypewriter_mode = false\nenable_spellcheck = false\nspellcheck_languages = [\"en\"]\nshow_backlinks = true\nsyntax_highlighting = true\nauto_save = true\nauto_save_interval = 30\nline_numbers = true\nrel_line_numbers = false\ntab_width = 4\nmouse_support = true\n\n[ui]\n# Border style: \"rounded\", \"double\", \"thick\", \"plain\"\nborder_style = \""@
        + c.ui.border_style@
        + "\"\nicons = "@
        + bool_text(c.ui.icons)
        + "\nshow_hidden = "@
        + bool_text(c.ui.show_hidden)
        + "\n\n[keys]\n# Global\nquit = \""@
        + c.keys.quit@
        + "\"\nzen_mode = \""@
        + c.keys.zen_mode@
        + "\"\nsearch = \""@
        + c.keys.search@
        + "\"\ncommand_palette = \""@
        + c.keys.command_palette@
        + "\"\ndaily_note = \""@
        + c.keys.daily_note@
        + "\"\ntask_board = \""@
        + c.keys.task_board@
        + "\"\n# Generic\nescape = \""@
        + c.keys.escape@
        + "\"\nenter = \""@
        + c.keys.enter@
        + "\"\nbackspace = \""@
        + c.keys.backspace@
        + "\"\nmove_up = \""@
        + c.keys.move_up@
        + "\"\nmove_down = \""@
        + c.keys.move_down@
        + "\"\nmove_left = \""@
        + c.keys.move_left@
        + "\"\nmove_up_alt = \""@
        + c.keys.move_up_alt@
        + "\"\nmove_down_alt = \""@
        + c.keys.move_down_alt@
        + "\"\nmove_left_alt = \""@
        + c.keys.move_left_alt@
        + "\"\ndelete = \""@
        + c.keys.delete@
        + "\"\n# List (file explorer)\nlist_create_note = \""@
        + c.keys.list_create_note@
        + "\"\nlist_create_dir = \""@
        + c.keys.list_create_dir@
        + "\"\nlist_tag_explorer = \""@
        + c.keys.list_tag_explorer@
        + "\"\nlist_rename = \""@
        + c.keys.list_rename@
        + "\"\nlist_edit_config = \""@
        + c.keys.list_edit_config@
        + "\"\nlist_delete = \""@
        + c.keys.list_delete@
        + "\"\nlist_parent = \""@
        + c.keys.list_parent@
        + "\"\nlist_parent_alt = \""@
        + c.keys.list_parent_alt@
        + "\"\n# Editor\neditor_back = \""@
        + c.keys.editor_back@
        + "\"\neditor_pdf = \""@
        + c.keys.editor_pdf@
        + "\"\neditor_backlinks = \""@
        + c.keys.editor_backlinks@
        + "\"\neditor_wiki_link = \""@
        + c.keys.editor_wiki_link@
        + "\"\neditor_insert = \""@
        + c.keys.editor_insert@
        + "\"\neditor_append = \""@
        + c.keys.editor_append@
        + "\"\neditor_split_focus = \""@
        + c.keys.editor_split_focus@
        + "\"\n"@
}

/// Write a configuration out as the configuration file's text.
pub fn generate_default_config(c: &Config) -> (r: String)
    ensures
        r@ == config_text(*c),
{
    let mut out = String::new();
    out.append("# Oxid Configuration\n# Logic settings for the note manager\n\n# Directory where your markdown notes are stored\nnotes_directory = \"");
    out.append(c.notes_directory.as_str());
    out.append("\"\n\n# Folder for daily notes (relative to notes_directory)\ndaily_notes_folder = \"");
    out.append(c.daily_notes_folder.as_str());
    out.append("\"\n\n[theme]\n# Hex (#RRGGBB) or named colors. Override theme.toml for main editor/status bar/borders.\nbackground = \"");
    out.append(c.theme.background.as_str());
    out.append("\"\nforeground = \"");
    out.append(c.theme.foreground.as_str());
    out.append("\"\ncursor = \"");
    out.append(c.theme.cursor.as_str());
    out.append("\"\nselection = \"");
    out.append(c.theme.selection.as_str());
    out.append("\"\nstatusbar_bg = \"");
    out.append(c.theme.statusbar_bg.as_str());
    out.append("\"\nstatusbar_fg = \"");
    out.append(c.theme.statusbar_fg.as_str());
    out.append("\"\nborder_color = \"");
    out.append(c.theme.border_color.as_str());
    out.append("\"\n\n[editor]\ntypewriter_mode = false\nenable_spellcheck = false\nspellcheck_languages = [\"en\"]\nshow_backlinks = true\nsyntax_highlighting = true\nauto_save = true\nauto_save_interval = 30\nline_numbers = true\nrel_line_numbers = false\ntab_width = 4\nmouse_support = true\n\n[ui]\n# Border style: \"rounded\", \"double\", \"thick\", \"plain\"\nborder_style = \"");
    out.append(c.ui.border_style.as_str());
    out.append("\"\nicons = ");
    out.append(if c.ui.icons { "true" } else { "false" });
    out.append("\nshow_hidden = ");
    out.append(if c.ui.show_hidden { "true" } else { "false" });
    out.append("\n\n[keys]\n# Global\nquit = \"");
    out.append(c.keys.quit.as_str());
    out.append("\"\nzen_mode = \"");
    out.append(c.keys.zen_mode.as_str());
    out.append("\"\nsearch = \"");
    out.append(c.keys.search.as_str());
    out.append("\"\ncommand_palette = \"");
    out.append(c.keys.command_palette.as_str());
    out.append("\"\ndaily_note = \"");
    out.append(c.keys.daily_note.as_str());
    out.append("\"\ntask_board = \"");
    out.append(c.keys.task_board.as_str());
    out.append("\"\n# Generic\nescape = \"");
    out.append(c.keys.escape.as_str());
    out.append("\"\nenter = \"");
    out.append(c.keys.enter.as_str());
    out.append("\"\nbackspace = \"");
    out.append(c.keys.backspace.as_str());
    out.append("\"\nmove_up = \"");
    out.append(c.keys.move_up.as_str());
    out.append("\"\nmove_down = \"");
    out.append(c.keys.move_down.as_str());
    out.append("\"\nmove_left = \"");
    out.append(c.keys.move_left.as_str());
    out.append("\"\nmove_up_alt = \"");
    out.append(c.keys.move_up_alt.as_str());
    out.append("\"\nmove_down_alt = \"");
    out.append(c.keys.move_down_alt.as_str());
    out.append("\"\nmove_left_alt = \"");
    out.append(c.keys.move_left_alt.as_str());
    out.append("\"\ndelete = \"");
    out.append(c.keys.delete.as_str());
    out.append("\"\n# List (file explorer)\nlist_create_note = \"");
    out.append(c.keys.list_create_note.as_str());
    out.append("\"\nlist_create_dir = \"");
    out.append(c.keys.list_create_dir.as_str());
    out.append("\"\nlist_tag_explorer = \"");
    out.append(c.keys.list_tag_explorer.as_str());
    out.append("\"\nlist_rename = \"");
    out.append(c.keys.list_rename.as_str());
    out.append("\"\nlist_edit_config = \"");
    out.append(c.keys.list_edit_config.as_str());
    out.append("\"\nlist_delete = \"");
    out.append(c.keys.list_delete.as_str());
    out.append("\"\nlist_parent = \"");
    out.append(c.keys.list_parent.as_str());
    out.append("\"\nlist_parent_alt = \"");
    out.append(c.keys.list_parent_alt.as_str());
    out.append("\"\n# Editor\neditor_back = \"");
    out.append(c.keys.editor_back.as_str());
    out.append("\"\neditor_pdf = \"");
    out.append(c.keys.editor_pdf.as_str());
    out.append("\"\neditor_backlinks = \"");
    out.append(c.keys.editor_backlinks.as_str());
    out.append("\"\neditor_wiki_link = \"");
    out.append(c.keys.editor_wiki_link.as_str());
    out.append("\"\neditor_insert = \"");
    out.append(c.keys.editor_insert.as_str());
    out.append("\"\neditor_append = \"");
    out.append(c.keys.editor_append.as_str());
    out.append("\"\neditor_split_focus = \"");
    out.append(c.keys.editor_split_focus.as_str());
    out.append("\"\n");
    proof {
        reveal_strlit("true");
        reveal_strlit("false");
        assert(out@ =~= config_text(*c));
    }
    out
}

} // verus!
