//! Key bindings as plain values: parsing the written form ("ctrl-q",
//! "enter"), matching pressed keys against bindings, and the display
//! form shown in the footer.

use vstd::prelude::*;
use vstd::string::StrSliceExecFns;
use vstd::string::StringExecFns;

use crate::config::KeysConfig;
use crate::paths::after_last;
use crate::paths::before_last;
use crate::text::ascii_lower;
use crate::text::ascii_lower_seq;
use crate::text::ascii_upper;
use crate::text::ascii_upper_seq;
use crate::text::before_first;
use crate::text::trim;
use crate::text::trim_seq;
use crate::text::up_to_first;

verus! {

/// A logical key, independent of any terminal library.
#[derive(Debug, Clone, Copy, PartialEq, Eq, Structural)]
pub enum KeyCode {
    Enter,
    Esc,
    Backspace,
    Tab,
    Delete,
    Up,
    Down,
    Left,
    Right,
    Home,
    End,
    PageUp,
    PageDown,
    F(u8),
    Char(char),
}

/// One key press: a code with its modifiers.
#[derive(Debug, Clone, Copy, PartialEq, Eq, Structural)]
pub struct KeyInput {
    pub code: KeyCode,
    pub ctrl: bool,
    pub alt: bool,
    pub shift: bool,
}

/// Whether the pressed key equals any of the given bindings.
pub fn key_matches(event: KeyInput, keys: &Vec<KeyInput>) -> (r: bool)
    ensures
        r == keys@.contains(event),
{
    let n = keys.len();
    let mut i: usize = 0;
    while i < n
        invariant
            i <= n,
            n == keys@.len(),
            forall|j: int| 0 <= j < i ==> keys@[j] != event,
        decreases n - i,
    {
        if keys[i] == event {
            proof {
                assert(keys@.contains(event));
            }
            return true;
        }
        i = i + 1;
    }
    proof {
        if keys@.contains(event) {
            let j = choose|j: int| 0 <= j < keys@.len() && keys@[j] == event;
            assert(false);
        }
    }
    false
}

/// ASCII-lowercase a string; key names are plain ASCII.
pub fn to_ascii_lower(s: &str) -> (r: String)
    ensures
        r@ == ascii_lower_seq(s@),
{
    let s_len = s.unicode_len();
    let mut out = String::new();
    let mut i: usize = 0;
    while i < s_len
        invariant
            i <= s_len,
            s_len == s@.len(),
            out@ =~= ascii_lower_seq(s@.take(i as int)),
        decreases s_len - i,
    {
        let c = s.get_char(i);
        let lc = if 'A' <= c && c <= 'Z' {
            (((c as u32) + 32) as u8) as char
        } else {
            c
        };
        proof {
            if 'A' <= c && c <= 'Z' {
                assert((((c as u32) + 32) as u8) as char == (((c as u32) + 32) as char));
            }
        }
        crate::text::push_char(&mut out, lc);
        proof {
            assert(ascii_lower_seq(s@.take(i + 1)) =~= ascii_lower_seq(s@.take(i as int)).push(
                ascii_lower(s@[i as int]),
            ));
        }
        i = i + 1;
    }
    proof {
        assert(s@.take(s_len as int) =~= s@);
    }
    out
}

/// ASCII-uppercase a string.
pub fn to_ascii_upper(s: &str) -> (r: String)
    ensures
        r@ == ascii_upper_seq(s@),
{
    let s_len = s.unicode_len();
    let mut out = String::new();
    let mut i: usize = 0;
    while i < s_len
        invariant
            i <= s_len,
            s_len == s@.len(),
            out@ =~= ascii_upper_seq(s@.take(i as int)),
        decreases s_len - i,
    {
        let c = s.get_char(i);
        let uc = if 'a' <= c && c <= 'z' {
            (((c as u32) - 32) as u8) as char
        } else {
            c
        };
        proof {
            if 'a' <= c && c <= 'z' {
                assert((((c as u32) - 32) as u8) as char == (((c as u32) - 32) as char));
            }
        }
        crate::text::push_char(&mut out, uc);
        proof {
            assert(ascii_upper_seq(s@.take(i + 1)) =~= ascii_upper_seq(s@.take(i as int)).push(
                ascii_upper(s@[i as int]),
            ));
        }
        i = i + 1;
    }
    proof {
        assert(s@.take(s_len as int) =~= s@);
    }
    out
}

/// The modifier flags named by the `-`-separated segments of `s`
/// (ctrl, alt, shift; anything else is ignored).
pub open spec fn mods_of(s: Seq<char>) -> (bool, bool, bool)
    decreases s.len(),
{
    if s.len() == 0 {
        (false, false, false)
    } else {
        let seg = before_first(s, '-');
        let rest = if seg.len() < s.len() {
            mods_of(s.skip(seg.len() as int + 1))
        } else {
            (false, false, false)
        };
        (
            (seg == "ctrl"@ || rest.0),
            (seg == "alt"@ || rest.1),
            (seg == "shift"@ || rest.2),
        )
    }
}

/// The key a (lowercased, trimmed) name denotes.
pub open spec fn code_of(k: Seq<char>) -> Option<KeyCode> {
    if k == "enter"@ {
        Some(KeyCode::Enter)
    } else if k == "esc"@ || k == "escape"@ {
        Some(KeyCode::Esc)
    } else if k == "backspace"@ {
        Some(KeyCode::Backspace)
    } else if k == "tab"@ {
        Some(KeyCode::Tab)
    } else if k == "delete"@ {
        Some(KeyCode::Delete)
    } else if k == "space"@ {
        Some(KeyCode::Char(' '))
    } else if k == "up"@ {
        Some(KeyCode::Up)
    } else if k == "down"@ {
        Some(KeyCode::Down)
    } else if k == "left"@ {
        Some(KeyCode::Left)
    } else if k == "right"@ {
        Some(KeyCode::Right)
    } else if k == "f1"@ {
        Some(KeyCode::F(1))
    } else if k == "f2"@ {
        Some(KeyCode::F(2))
    } else if k == "f3"@ {
        Some(KeyCode::F(3))
    } else if k == "f4"@ {
        Some(KeyCode::F(4))
    } else if k == "f5"@ {
        Some(KeyCode::F(5))
    } else if k == "f6"@ {
        Some(KeyCode::F(6))
    } else if k == "f7"@ {
        Some(KeyCode::F(7))
    } else if k == "f8"@ {
        Some(KeyCode::F(8))
    } else if k == "f9"@ {
        Some(KeyCode::F(9))
    } else if k == "f10"@ {
        Some(KeyCode::F(10))
    } else if k == "f11"@ {
        Some(KeyCode::F(11))
    } else if k == "f12"@ {
        Some(KeyCode::F(12))
    } else if k.len() == 1 {
        Some(KeyCode::Char(k[0]))
    } else {
        None
    }
}

/// What a written key binding parses to: trim and ASCII-lowercase it,
/// read modifiers from everything before the last dash, and the key
/// from what follows it.
pub open spec fn parse_key_spec(s: Seq<char>) -> Option<KeyInput> {
    let t = ascii_lower_seq(trim_seq(s));
    if t.len() == 0 {
        None
    } else {
        let key_part = after_last(t, '-');
        let m = mods_of(before_last(t, '-'));
        match code_of(key_part) {
            Some(code) => Some(KeyInput { code, ctrl: m.0, alt: m.1, shift: m.2 }),
            None => None,
        }
    }
}

/// Read the modifier segments of `s` (executable form).
fn read_mods(s: &str) -> (r: (bool, bool, bool))
    ensures
        r == mods_of(s@),
    decreases s@.len(),
{
    let s_len = s.unicode_len();
    if s_len == 0 {
        return (false, false, false);
    }
    let seg = up_to_first(s, '-');
    let seg_len = seg.as_str().unicode_len();
    let rest = if seg_len < s_len {
        let tail = s.substring_char(seg_len + 1, s_len);
        proof {
            assert(tail@ =~= s@.skip(seg@.len() as int + 1));
        }
        read_mods(tail)
    } else {
        (false, false, false)
    };
    proof {
        reveal_strlit("ctrl");
        reveal_strlit("alt");
        reveal_strlit("shift");
    }
    let is_ctrl = str_eq_lit(seg.as_str(), "ctrl");
    let is_alt = str_eq_lit(seg.as_str(), "alt");
    let is_shift = str_eq_lit(seg.as_str(), "shift");
    (is_ctrl || rest.0, is_alt || rest.1, is_shift || rest.2)
}

/// Whether two strings hold the same characters.
pub fn str_eq_lit(a: &str, b: &str) -> (r: bool)
    ensures
        r == (a@ == b@),
{
    let a_len = a.unicode_len();
    let b_len = b.unicode_len();
    if a_len != b_len {
        return false;
    }
    let mut i: usize = 0;
    while i < a_len
        invariant
            i <= a_len,
            a_len == a@.len(),
            a_len == b@.len(),
            forall|j: int| 0 <= j < i ==> a@[j] == b@[j],
        decreases a_len - i,
    {
        if a.get_char(i) != b.get_char(i) {
            return false;
        }
        i = i + 1;
    }
    proof {
        assert(a@ =~= b@);
    }
    true
}

/// Parse a written key binding ("ctrl-q", "enter", "f1").
pub fn parse_key_event(s: &str) -> (r: Option<KeyInput>)
    ensures
        r == parse_key_spec(s@),
{
    let trimmed = trim(s);
    let t = to_ascii_lower(trimmed.as_str());
    let t_len = t.as_str().unicode_len();
    if t_len == 0 {
        return None;
    }
    let key_part = match crate::paths::rfind_char(t.as_str(), '-') {
        Some(i) => {
            proof {
                crate::paths::lemma_split_at_last_occurrence(t@, '-', i as int);
            }
            String::from_str(t.as_str().substring_char(i + 1, t_len))
        },
        None => {
            proof {
                crate::paths::lemma_no_occurrence(t@, '-');
            }
            String::from_str(t.as_str())
        },
    };
    let mods_part = crate::paths::before_last_of(t.as_str(), '-');
    let m = read_mods(mods_part.as_str());
    let code = parse_code(key_part.as_str());
    match code {
        Some(code) => Some(KeyInput { code, ctrl: m.0, alt: m.1, shift: m.2 }),
        None => None,
    }
}

/// Read the key a name denotes (executable form).
fn parse_code(k: &str) -> (r: Option<KeyCode>)
    ensures
        r == code_of(k@),
{
    if str_eq_lit(k, "enter") {
        Some(KeyCode::Enter)
    } else if str_eq_lit(k, "esc") || str_eq_lit(k, "escape") {
        Some(KeyCode::Esc)
    } else if str_eq_lit(k, "backspace") {
        Some(KeyCode::Backspace)
    } else if str_eq_lit(k, "tab") {
        Some(KeyCode::Tab)
    } else if str_eq_lit(k, "delete") {
        Some(KeyCode::Delete)
    } else if str_eq_lit(k, "space") {
        Some(KeyCode::Char(' '))
    } else if str_eq_lit(k, "up") {
        Some(KeyCode::Up)
    } else if str_eq_lit(k, "down") {
        Some(KeyCode::Down)
    } else if str_eq_lit(k, "left") {
        Some(KeyCode::Left)
    } else if str_eq_lit(k, "right") {
        Some(KeyCode::Right)
    } else if str_eq_lit(k, "f1") {
        Some(KeyCode::F(1))
    } else if str_eq_lit(k, "f2") {
        Some(KeyCode::F(2))
    } else if str_eq_lit(k, "f3") {
        Some(KeyCode::F(3))
    } else if str_eq_lit(k, "f4") {
        Some(KeyCode::F(4))
    } else if str_eq_lit(k, "f5") {
        Some(KeyCode::F(5))
    } else if str_eq_lit(k, "f6") {
        Some(KeyCode::F(6))
    } else if str_eq_lit(k, "f7") {
        Some(KeyCode::F(7))
    } else if str_eq_lit(k, "f8") {
        Some(KeyCode::F(8))
    } else if str_eq_lit(k, "f9") {
        Some(KeyCode::F(9))
    } else if str_eq_lit(k, "f10") {
        Some(KeyCode::F(10))
    } else if str_eq_lit(k, "f11") {
        Some(KeyCode::F(11))
    } else if str_eq_lit(k, "f12") {
        Some(KeyCode::F(12))
    } else {
        let k_len = k.unicode_len();
        if k_len == 1 {
            Some(KeyCode::Char(k.get_char(0)))
        } else {
            None
        }
    }
}

/// How one modifier segment renders in the footer.
pub open spec fn mod_disp(seg: Seq<char>) -> Seq<char> {
    if seg == "ctrl"@ {
        "Ctrl"@
    } else if seg == "alt"@ {
        "Alt"@
    } else if seg == "shift"@ {
        "Shift"@
    } else {
        seg
    }
}

/// The `-`-separated modifier segments rendered and joined with `+`.
pub open spec fn mods_disp(s: Seq<char>) -> Seq<char>
    decreases s.len(),
{
    if s.len() == 0 {
        Seq::empty()
    } else {
        let seg = before_first(s, '-');
        if seg.len() < s.len() {
            mod_disp(seg) + "+"@ + mods_disp(s.skip(seg.len() as int + 1))
        } else {
            mod_disp(seg)
        }
    }
}

/// How the key part renders: named keys get their proper names, arrow
/// keys their glyphs, function keys and single characters uppercase.
pub open spec fn key_disp(k: Seq<char>) -> Seq<char> {
    let kl = ascii_lower_seq(k);
    if kl == "enter"@ {
        "Enter"@
    } else if kl == "esc"@ || kl == "escape"@ {
        "Esc"@
    } else if kl == "backspace"@ {
        "Backspace"@
    } else if kl == "tab"@ {
        "Tab"@
    } else if kl == "delete"@ {
        "Delete"@
    } else if kl == "space"@ {
        "Space"@
    } else if kl == "up"@ {
        "\u{2191}"@
    } else if kl == "down"@ {
        "\u{2193}"@
    } else if kl == "left"@ {
        "\u{2190}"@
    } else if kl == "right"@ {
        "\u{2192}"@
    } else if kl == "f1"@ || kl == "f2"@ || kl == "f3"@ || kl == "f4"@ || kl == "f5"@ || kl
        == "f6"@ || kl == "f7"@ || kl == "f8"@ || kl == "f9"@ || kl == "f10"@ || kl == "f11"@
        || kl == "f12"@ {
        ascii_upper_seq(k)
    } else if k.len() == 1 {
        ascii_upper_seq(k)
    } else {
        k
    }
}

/// What `key_display_string` produces for a written binding.
pub open spec fn key_display_spec(s: Seq<char>) -> Seq<char> {
    let t = trim_seq(s);
    if t.len() == 0 {
        Seq::empty()
    } else {
        let kd = key_disp(after_last(t, '-'));
        let md = mods_disp(before_last(t, '-'));
        if md.len() == 0 {
            kd
        } else {
            md + "+"@ + kd
        }
    }
}

/// Render the modifier segments (executable form).
fn render_mods(s: &str) -> (r: String)
    ensures
        r@ == mods_disp(s@),
    decreases s@.len(),
{
    let s_len = s.unicode_len();
    if s_len == 0 {
        return String::new();
    }
    let seg = up_to_first(s, '-');
    let seg_len = seg.as_str().unicode_len();
    let head = if str_eq_lit(seg.as_str(), "ctrl") {
        String::from_str("Ctrl")
    } else if str_eq_lit(seg.as_str(), "alt") {
        String::from_str("Alt")
    } else if str_eq_lit(seg.as_str(), "shift") {
        String::from_str("Shift")
    } else {
        seg
    };
    if seg_len < s_len {
        let tail = s.substring_char(seg_len + 1, s_len);
        proof {
            assert(tail@ =~= s@.skip(before_first(s@, '-').len() as int + 1));
        }
        let rest = render_mods(tail);
        let mut out = head;
        out.append("+");
        out.append(rest.as_str());
        out
    } else {
        head
    }
}

/// The footer's rendering of a written key binding.
pub fn key_display_string(s: &str) -> (r: String)
    ensures
        r@ == key_display_spec(s@),
{
    let t = trim(s);
    let t_len = t.as_str().unicode_len();
    if t_len == 0 {
        return String::new();
    }
    let key_part = match crate::paths::rfind_char(t.as_str(), '-') {
        Some(i) => {
            proof {
                crate::paths::lemma_split_at_last_occurrence(t@, '-', i as int);
            }
            String::from_str(t.as_str().substring_char(i + 1, t_len))
        },
        None => {
            proof {
                crate::paths::lemma_no_occurrence(t@, '-');
            }
            String::from_str(t.as_str())
        },
    };
    let mods_part = crate::paths::before_last_of(t.as_str(), '-');
    let md = render_mods(mods_part.as_str());
    let kl = to_ascii_lower(key_part.as_str());
    let kd = if str_eq_lit(kl.as_str(), "enter") {
        String::from_str("Enter")
    } else if str_eq_lit(kl.as_str(), "esc") || str_eq_lit(kl.as_str(), "escape") {
        String::from_str("Esc")
    } else if str_eq_lit(kl.as_str(), "backspace") {
        String::from_str("Backspace")
    } else if str_eq_lit(kl.as_str(), "tab") {
        String::from_str("Tab")
    } else if str_eq_lit(kl.as_str(), "delete") {
        String::from_str("Delete")
    } else if str_eq_lit(kl.as_str(), "space") {
        String::from_str("Space")
    } else if str_eq_lit(kl.as_str(), "up") {
        String::from_str("\u{2191}")
    } else if str_eq_lit(kl.as_str(), "down") {
        String::from_str("\u{2193}")
    } else if str_eq_lit(kl.as_str(), "left") {
        String::from_str("\u{2190}")
    } else if str_eq_lit(kl.as_str(), "right") {
        String::from_str("\u{2192}")
    } else if str_eq_lit(kl.as_str(), "f1") || str_eq_lit(kl.as_str(), "f2") || str_eq_lit(
        kl.as_str(),
        "f3",
    ) || str_eq_lit(kl.as_str(), "f4") || str_eq_lit(kl.as_str(), "f5") || str_eq_lit(
        kl.as_str(),
        "f6",
    ) || str_eq_lit(kl.as_str(), "f7") || str_eq_lit(kl.as_str(), "f8") || str_eq_lit(
        kl.as_str(),
        "f9",
    ) || str_eq_lit(kl.as_str(), "f10") || str_eq_lit(kl.as_str(), "f11") || str_eq_lit(
        kl.as_str(),
        "f12",
    ) {
        to_ascii_upper(key_part.as_str())
    } else {
        let kp_len = key_part.as_str().unicode_len();
        if kp_len == 1 {
            to_ascii_upper(key_part.as_str())
        } else {
            key_part
        }
    };
    if md.as_str().is_empty() {
        kd
    } else {
        let mut out = md;
        out.append("+");
        out.append(kd.as_str());
        out
    }
}

/// A parsed binding, or the action's built-in default when the written
/// form does not parse.
pub open spec fn parse_or_default(s: Seq<char>, d: KeyInput) -> KeyInput {
    match parse_key_spec(s) {
        Some(k) => k,
        None => d,
    }
}

fn parse_or(s: &str, d: KeyInput) -> (r: KeyInput)
    ensures
        r == parse_or_default(s@, d),
{
    match parse_key_event(s) {
        Some(k) => k,
        None => d,
    }
}

/// Every binding parsed once, for fast comparison while routing keys.
#[derive(Debug, Clone)]
pub struct ResolvedKeys {
    pub quit: KeyInput,
    pub zen_mode: KeyInput,
    pub search: KeyInput,
    pub command_palette: KeyInput,
    pub daily_note: KeyInput,
    pub task_board: KeyInput,
    pub escape: KeyInput,
    pub enter: KeyInput,
    pub backspace: KeyInput,
    pub move_up: KeyInput,
    pub move_down: KeyInput,
    pub move_left: KeyInput,
    pub move_up_alt: KeyInput,
    pub move_down_alt: KeyInput,
    pub move_left_alt: KeyInput,
    pub delete: KeyInput,
    pub list_create_note: KeyInput,
    pub list_create_dir: KeyInput,
    pub list_tag_explorer: KeyInput,
    pub list_rename: KeyInput,
    pub list_edit_config: KeyInput,
    pub list_delete: KeyInput,
    pub list_parent: KeyInput,
    pub list_parent_alt: KeyInput,
    pub editor_back: KeyInput,
    pub editor_pdf: KeyInput,
    pub editor_backlinks: KeyInput,
    pub editor_wiki_link: KeyInput,
    pub editor_insert: KeyInput,
    pub editor_append: KeyInput,
    pub editor_split_focus: KeyInput,
}

impl ResolvedKeys {
    /// Parse the whole written configuration, falling back to the
    /// built-in default for any binding that does not parse.
    pub fn from_config(keys: &KeysConfig) -> (r: ResolvedKeys)
        ensures
            r.quit == parse_or_default(keys.quit@, (KeyInput { code: KeyCode::Char('q'), ctrl: false, alt: false, shift: false })),
            r.zen_mode == parse_or_default(keys.zen_mode@, (KeyInput { code: KeyCode::F(11), ctrl: false, alt: false, shift: false })),
            r.search == parse_or_default(keys.search@, (KeyInput { code: KeyCode::Char('/'), ctrl: false, alt: false, shift: false })),
            r.command_palette == parse_or_default(keys.command_palette@, (KeyInput { code: KeyCode::Char('p'), ctrl: true, alt: false, shift: false })),
            r.daily_note == parse_or_default(keys.daily_note@, (KeyInput { code: KeyCode::Char('d'), ctrl: false, alt: true, shift: false })),
            r.task_board == parse_or_default(keys.task_board@, (KeyInput { code: KeyCode::Char('t'), ctrl: false, alt: true, shift: false })),
            r.escape == parse_or_default(keys.escape@, (KeyInput { code: KeyCode::Esc, ctrl: false, alt: false, shift: false })),
            r.enter == parse_or_default(keys.enter@, (KeyInput { code: KeyCode::Enter, ctrl: false, alt: false, shift: false })),
            r.backspace == parse_or_default(keys.backspace@, (KeyInput { code: KeyCode::Backspace, ctrl: false, alt: false, shift: false })),
            r.move_up == parse_or_default(keys.move_up@, (KeyInput { code: KeyCode::Char('k'), ctrl: false, alt: false, shift: false })),
            r.move_down == parse_or_default(keys.move_down@, (KeyInput { code: KeyCode::Char('j'), ctrl: false, alt: false, shift: false })),
            r.move_left == parse_or_default(keys.move_left@, (KeyInput { code: KeyCode::Char('h'), ctrl: false, alt: false, shift: false })),
            r.move_up_alt == parse_or_default(keys.move_up_alt@, (KeyInput { code: KeyCode::Up, ctrl: false, alt: false, shift: false })),
            r.move_down_alt == parse_or_default(keys.move_down_alt@, (KeyInput { code: KeyCode::Down, ctrl: false, alt: false, shift: false })),
            r.move_left_alt == parse_or_default(keys.move_left_alt@, (KeyInput { code: KeyCode::Left, ctrl: false, alt: false, shift: false })),
            r.delete == parse_or_default(keys.delete@, (KeyInput { code: KeyCode::Delete, ctrl: false, alt: false, shift: false })),
            r.list_create_note == parse_or_default(keys.list_create_note@, (KeyInput { code: KeyCode::Char('n'), ctrl: false, alt: false, shift: false })),
            r.list_create_dir == parse_or_default(keys.list_create_dir@, (KeyInput { code: KeyCode::Char('n'), ctrl: false, alt: false, shift: true })),
            r.list_tag_explorer == parse_or_default(keys.list_tag_explorer@, (KeyInput { code: KeyCode::Char('t'), ctrl: false, alt: false, shift: true })),
            r.list_rename == parse_or_default(keys.list_rename@, (KeyInput { code: KeyCode::Char('r'), ctrl: false, alt: false, shift: false })),
            r.list_edit_config == parse_or_default(keys.list_edit_config@, (KeyInput { code: KeyCode::Char('c'), ctrl: false, alt: false, shift: false })),
            r.list_delete == parse_or_default(keys.list_delete@, (KeyInput { code: KeyCode::Char('d'), ctrl: false, alt: false, shift: false })),
            r.list_parent == parse_or_default(keys.list_parent@, (KeyInput { code: KeyCode::Backspace, ctrl: false, alt: false, shift: false })),
            r.list_parent_alt == parse_or_default(keys.list_parent_alt@, (KeyInput { code: KeyCode::Left, ctrl: false, alt: false, shift: false })),
            r.editor_back == parse_or_default(keys.editor_back@, (KeyInput { code: KeyCode::Char('q'), ctrl: false, alt: false, shift: false })),
            r.editor_pdf == parse_or_default(keys.editor_pdf@, (KeyInput { code: KeyCode::Char('e'), ctrl: true, alt: false, shift: false })),
            r.editor_backlinks == parse_or_default(keys.editor_backlinks@, (KeyInput { code: KeyCode::Char('b'), ctrl: true, alt: false, shift: false })),
            r.editor_wiki_link == parse_or_default(keys.editor_wiki_link@, (KeyInput { code: KeyCode::Char(']'), ctrl: true, alt: false, shift: false })),
            r.editor_insert == parse_or_default(keys.editor_insert@, (KeyInput { code: KeyCode::Char('i'), ctrl: false, alt: false, shift: false })),
            r.editor_append == parse_or_default(keys.editor_append@, (KeyInput { code: KeyCode::Char('a'), ctrl: false, alt: false, shift: false })),
            r.editor_split_focus == parse_or_default(keys.editor_split_focus@, (KeyInput { code: KeyCode::Tab, ctrl: false, alt: false, shift: false })),
    {
        ResolvedKeys {
            quit: parse_or(keys.quit.as_str(), KeyInput { code: KeyCode::Char('q'), ctrl: false, alt: false, shift: false }),
            zen_mode: parse_or(keys.zen_mode.as_str(), KeyInput { code: KeyCode::F(11), ctrl: false, alt: false, shift: false }),
            search: parse_or(keys.search.as_str(), KeyInput { code: KeyCode::Char('/'), ctrl: false, alt: false, shift: false }),
            command_palette: parse_or(keys.command_palette.as_str(), KeyInput { code: KeyCode::Char('p'), ctrl: true, alt: false, shift: false }),
            daily_note: parse_or(keys.daily_note.as_str(), KeyInput { code: KeyCode::Char('d'), ctrl: false, alt: true, shift: false }),
            task_board: parse_or(keys.task_board.as_str(), KeyInput { code: KeyCode::Char('t'), ctrl: false, alt: true, shift: false }),
            escape: parse_or(keys.escape.as_str(), KeyInput { code: KeyCode::Esc, ctrl: false, alt: false, shift: false }),
            enter: parse_or(keys.enter.as_str(), KeyInput { code: KeyCode::Enter, ctrl: false, alt: false, shift: false }),
            backspace: parse_or(keys.backspace.as_str(), KeyInput { code: KeyCode::Backspace, ctrl: false, alt: false, shift: false }),
            move_up: parse_or(keys.move_up.as_str(), KeyInput { code: KeyCode::Char('k'), ctrl: false, alt: false, shift: false }),
            move_down: parse_or(keys.move_down.as_str(), KeyInput { code: KeyCode::Char('j'), ctrl: false, alt: false, shift: false }),
            move_left: parse_or(keys.move_left.as_str(), KeyInput { code: KeyCode::Char('h'), ctrl: false, alt: false, shift: false }),
            move_up_alt: parse_or(keys.move_up_alt.as_str(), KeyInput { code: KeyCode::Up, ctrl: false, alt: false, shift: false }),
            move_down_alt: parse_or(keys.move_down_alt.as_str(), KeyInput { code: KeyCode::Down, ctrl: false, alt: false, shift: false }),
            move_left_alt: parse_or(keys.move_left_alt.as_str(), KeyInput { code: KeyCode::Left, ctrl: false, alt: false, shift: false }),
            delete: parse_or(keys.delete.as_str(), KeyInput { code: KeyCode::Delete, ctrl: false, alt: false, shift: false }),
            list_create_note: parse_or(keys.list_create_note.as_str(), KeyInput { code: KeyCode::Char('n'), ctrl: false, alt: false, shift: false }),
            list_create_dir: parse_or(keys.list_create_dir.as_str(), KeyInput { code: KeyCode::Char('n'), ctrl: false, alt: false, shift: true }),
            list_tag_explorer: parse_or(keys.list_tag_explorer.as_str(), KeyInput { code: KeyCode::Char('t'), ctrl: false, alt: false, shift: true }),
            list_rename: parse_or(keys.list_rename.as_str(), KeyInput { code: KeyCode::Char('r'), ctrl: false, alt: false, shift: false }),
            list_edit_config: parse_or(keys.list_edit_config.as_str(), KeyInput { code: KeyCode::Char('c'), ctrl: false, alt: false, shift: false }),
            list_delete: parse_or(keys.list_delete.as_str(), KeyInput { code: KeyCode::Char('d'), ctrl: false, alt: false, shift: false }),
            list_parent: parse_or(keys.list_parent.as_str(), KeyInput { code: KeyCode::Backspace, ctrl: false, alt: false, shift: false }),
            list_parent_alt: parse_or(keys.list_parent_alt.as_str(), KeyInput { code: KeyCode::Left, ctrl: false, alt: false, shift: false }),
            editor_back: parse_or(keys.editor_back.as_str(), KeyInput { code: KeyCode::Char('q'), ctrl: false, alt: false, shift: false }),
            editor_pdf: parse_or(keys.editor_pdf.as_str(), KeyInput { code: KeyCode::Char('e'), ctrl: true, alt: false, shift: false }),
            editor_backlinks: parse_or(keys.editor_backlinks.as_str(), KeyInput { code: KeyCode::Char('b'), ctrl: true, alt: false, shift: false }),
            editor_wiki_link: parse_or(keys.editor_wiki_link.as_str(), KeyInput { code: KeyCode::Char(']'), ctrl: true, alt: false, shift: false }),
            editor_insert: parse_or(keys.editor_insert.as_str(), KeyInput { code: KeyCode::Char('i'), ctrl: false, alt: false, shift: false }),
            editor_append: parse_or(keys.editor_append.as_str(), KeyInput { code: KeyCode::Char('a'), ctrl: false, alt: false, shift: false }),
            editor_split_focus: parse_or(keys.editor_split_focus.as_str(), KeyInput { code: KeyCode::Tab, ctrl: false, alt: false, shift: false }),
        }
    }
}

/// The written binding a logical action name refers to.
pub open spec fn binding_for(k: KeysConfig, name: Seq<char>) -> Option<Seq<char>> {
    if false {
        None
    } else if name == "quit"@ {
        Some(k.quit@)
    } else if name == "zen_mode"@ {
        Some(k.zen_mode@)
    } else if name == "search"@ {
        Some(k.search@)
    } else if name == "command_palette"@ {
        Some(k.command_palette@)
    } else if name == "daily_note"@ {
        Some(k.daily_note@)
    } else if name == "task_board"@ {
        Some(k.task_board@)
    } else if name == "escape"@ {
        Some(k.escape@)
    } else if name == "enter"@ {
        Some(k.enter@)
    } else if name == "backspace"@ {
        Some(k.backspace@)
    } else if name == "move_up"@ {
        Some(k.move_up@)
    } else if name == "move_down"@ {
        Some(k.move_down@)
    } else if name == "move_left"@ {
        Some(k.move_left@)
    } else if name == "delete"@ {
        Some(k.delete@)
    } else if name == "list_create_note"@ {
        Some(k.list_create_note@)
    } else if name == "list_create_dir"@ {
        Some(k.list_create_dir@)
    } else if name == "list_tag_explorer"@ {
        Some(k.list_tag_explorer@)
    } else if name == "list_rename"@ {
        Some(k.list_rename@)
    } else if name == "list_edit_config"@ {
        Some(k.list_edit_config@)
    } else if name == "list_delete"@ {
        Some(k.list_delete@)
    } else if name == "list_parent"@ {
        Some(k.list_parent@)
    } else if name == "list_parent_alt"@ {
        Some(k.list_parent_alt@)
    } else if name == "editor_back"@ {
        Some(k.editor_back@)
    } else if name == "editor_pdf"@ {
        Some(k.editor_pdf@)
    } else if name == "editor_backlinks"@ {
        Some(k.editor_backlinks@)
    } else if name == "editor_wiki_link"@ {
        Some(k.editor_wiki_link@)
    } else if name == "editor_insert"@ {
        Some(k.editor_insert@)
    } else if name == "editor_append"@ {
        Some(k.editor_append@)
    } else if name == "editor_split_focus"@ {
        Some(k.editor_split_focus@)
    } else if name == "move_up_alt"@ {
        Some(k.move_up_alt@)
    } else if name == "move_down_alt"@ {
        Some(k.move_down_alt@)
    } else if name == "move_left_alt"@ {
        Some(k.move_left_alt@)
    } else {
        None
    }
}

impl crate::state::App {
    /// The footer's rendering of the binding behind a logical action
    /// name; empty for a name this configuration does not know.
    pub fn get_key_display_string(&self, action_name: &str) -> (r: String)
        ensures
            r@ == match binding_for(self.config.keys, action_name@) {
                Some(s) => key_display_spec(s),
                None => Seq::<char>::empty(),
            },
    {
        if str_eq_lit(action_name, "quit") {
            return key_display_string(self.config.keys.quit.as_str());
        }
        if str_eq_lit(action_name, "zen_mode") {
            return key_display_string(self.config.keys.zen_mode.as_str());
        }
        if str_eq_lit(action_name, "search") {
            return key_display_string(self.config.keys.search.as_str());
        }
        if str_eq_lit(action_name, "command_palette") {
            return key_display_string(self.config.keys.command_palette.as_str());
        }
        if str_eq_lit(action_name, "daily_note") {
            return key_display_string(self.config.keys.daily_note.as_str());
        }
        if str_eq_lit(action_name, "task_board") {
            return key_display_string(self.config.keys.task_board.as_str());
        }
        if str_eq_lit(action_name, "escape") {
            return key_display_string(self.config.keys.escape.as_str());
        }
        if str_eq_lit(action_name, "enter") {
            return key_display_string(self.config.keys.enter.as_str());
        }
        if str_eq_lit(action_name, "backspace") {
            return key_display_string(self.config.keys.backspace.as_str());
        }
        if str_eq_lit(action_name, "move_up") {
            return key_display_string(self.config.keys.move_up.as_str());
        }
        if str_eq_lit(action_name, "move_down") {
            return key_display_string(self.config.keys.move_down.as_str());
        }
        if str_eq_lit(action_name, "move_left") {
            return key_display_string(self.config.keys.move_left.as_str());
        }
        if str_eq_lit(action_name, "delete") {
            return key_display_string(self.config.keys.delete.as_str());
        }
        if str_eq_lit(action_name, "list_create_note") {
            return key_display_string(self.config.keys.list_create_note.as_str());
        }
        if str_eq_lit(action_name, "list_create_dir") {
            return key_display_string(self.config.keys.list_create_dir.as_str());
        }
        if str_eq_lit(action_name, "list_tag_explorer") {
            return key_display_string(self.config.keys.list_tag_explorer.as_str());
        }
        if str_eq_lit(action_name, "list_rename") {
            return key_display_string(self.config.keys.list_rename.as_str());
        }
        if str_eq_lit(action_name, "list_edit_config") {
            return key_display_string(self.config.keys.list_edit_config.as_str());
        }
        if str_eq_lit(action_name, "list_delete") {
            return key_display_string(self.config.keys.list_delete.as_str());
        }
        if str_eq_lit(action_name, "list_parent") {
            return key_display_string(self.config.keys.list_parent.as_str());
        }
        if str_eq_lit(action_name, "list_parent_alt") {
            return key_display_string(self.config.keys.list_parent_alt.as_str());
        }
        if str_eq_lit(action_name, "editor_back") {
            return key_display_string(self.config.keys.editor_back.as_str());
        }
        if str_eq_lit(action_name, "editor_pdf") {
            return key_display_string(self.config.keys.editor_pdf.as_str());
        }
        if str_eq_lit(action_name, "editor_backlinks") {
            return key_display_string(self.config.keys.editor_backlinks.as_str());
        }
        if str_eq_lit(action_name, "editor_wiki_link") {
            return key_display_string(self.config.keys.editor_wiki_link.as_str());
        }
        if str_eq_lit(action_name, "editor_insert") {
            return key_display_string(self.config.keys.editor_insert.as_str());
        }
        if str_eq_lit(action_name, "editor_append") {
            return key_display_string(self.config.keys.editor_append.as_str());
        }
        if str_eq_lit(action_name, "editor_split_focus") {
            return key_display_string(self.config.keys.editor_split_focus.as_str());
        }
        if str_eq_lit(action_name, "move_up_alt") {
            return key_display_string(self.config.keys.move_up_alt.as_str());
        }
        if str_eq_lit(action_name, "move_down_alt") {
            return key_display_string(self.config.keys.move_down_alt.as_str());
        }
        if str_eq_lit(action_name, "move_left_alt") {
            return key_display_string(self.config.keys.move_left_alt.as_str());
        }
        String::new()
    }
}

} // verus!
