//! The application state: open buffers (tabs), the split layout, the
//! focus/mode interaction contexts, overlay inputs and selections, and
//! the auto-save timer.
//!
//! Every mutation re-establishes `App::wf`, so the active-tab and
//! split-tab indices are valid after every operation and the buffer
//! list is never empty.

use vstd::prelude::*;
use vstd::string::StringExecFns;

use crate::config::Config;
use crate::entry::NoteEntry;
use crate::paths::after_last;
use crate::paths::file_name_of;
use crate::scan::TaskEntry;
use crate::text::views_of;

verus! {

/// Layout of the editor area.
#[derive(Debug, Clone, Copy, PartialEq, Eq, Structural)]
pub enum EditorLayout {
    Single,
    SplitVertical,
}

/// The mutually exclusive interaction contexts.
#[derive(Debug, Clone, Copy, PartialEq, Eq, Structural)]
pub enum Focus {
    List,
    Editor,
    /// The recursive fuzzy finder overlay.
    Search,
    /// The command palette overlay.
    CommandPalette,
    /// The rename prompt.
    Rename,
    /// The new-directory prompt.
    CreatingDirectory,
    /// The backlinks panel.
    Backlinks,
    /// The tag explorer.
    TagExplorer,
    /// The board of unchecked tasks.
    TaskView,
}

/// Editor sub-mode while the editor has focus.
#[derive(Debug, Clone, Copy, PartialEq, Eq, Structural)]
pub enum EditorMode {
    Normal,
    Insert,
}

/// Browser sub-mode while the file list has focus.
#[derive(Debug, Clone, Copy, PartialEq, Eq, Structural)]
pub enum Mode {
    Normal,
    Search,
    Create,
}

/// Which half of the tag explorer holds the cursor.
#[derive(Debug, Clone, Copy, PartialEq, Eq, Structural)]
pub enum TagExplorerView {
    TagList,
    FileList,
}

/// Actions offered by the command palette.
#[derive(Debug, Clone, Copy, PartialEq, Eq, Structural)]
pub enum CommandAction {
    RenameFile,
    DeleteFile,
    InsertDate,
    ToggleZenMode,
    ToggleSplitView,
    GitPush,
    ExportPdf,
}

pub open spec fn action_label(a: CommandAction) -> Seq<char> {
    match a {
        CommandAction::RenameFile => "Rename File"@,
        CommandAction::DeleteFile => "Delete File"@,
        CommandAction::InsertDate => "Insert Date"@,
        CommandAction::ToggleZenMode => "Toggle Zen Mode"@,
        CommandAction::ToggleSplitView => "Toggle Split View"@,
        CommandAction::GitPush => "Git Push"@,
        CommandAction::ExportPdf => "Export to PDF"@,
    }
}

impl CommandAction {
    pub fn label(&self) -> (r: &'static str)
        ensures
            r@ == action_label(*self),
    {
        match self {
            CommandAction::RenameFile => "Rename File",
            CommandAction::DeleteFile => "Delete File",
            CommandAction::InsertDate => "Insert Date",
            CommandAction::ToggleZenMode => "Toggle Zen Mode",
            CommandAction::ToggleSplitView => "Toggle Split View",
            CommandAction::GitPush => "Git Push",
            CommandAction::ExportPdf => "Export to PDF",
        }
    }

    /// The palette's lowercase rendering of the label, used for
    /// case-insensitive filtering.
    pub fn label_lower(&self) -> (r: &'static str)
        ensures
            r@ == action_label_lower(*self),
    {
        match self {
            CommandAction::RenameFile => "rename file",
            CommandAction::DeleteFile => "delete file",
            CommandAction::InsertDate => "insert date",
            CommandAction::ToggleZenMode => "toggle zen mode",
            CommandAction::ToggleSplitView => "toggle split view",
            CommandAction::GitPush => "git push",
            CommandAction::ExportPdf => "export to pdf",
        }
    }

    /// Every action, in palette order.
    pub fn all() -> (r: Vec<CommandAction>)
        ensures
            r@ == all_actions(),
    {
        let mut v: Vec<CommandAction> = Vec::new();
        v.push(CommandAction::RenameFile);
        v.push(CommandAction::DeleteFile);
        v.push(CommandAction::InsertDate);
        v.push(CommandAction::ToggleZenMode);
        v.push(CommandAction::ToggleSplitView);
        v.push(CommandAction::GitPush);
        v.push(CommandAction::ExportPdf);
        proof {
            assert(v@ =~= all_actions());
        }
        v
    }
}

pub open spec fn action_label_lower(a: CommandAction) -> Seq<char> {
    match a {
        CommandAction::RenameFile => "rename file"@,
        CommandAction::DeleteFile => "delete file"@,
        CommandAction::InsertDate => "insert date"@,
        CommandAction::ToggleZenMode => "toggle zen mode"@,
        CommandAction::ToggleSplitView => "toggle split view"@,
        CommandAction::GitPush => "git push"@,
        CommandAction::ExportPdf => "export to pdf"@,
    }
}

pub open spec fn all_actions() -> Seq<CommandAction> {
    seq![
        CommandAction::RenameFile,
        CommandAction::DeleteFile,
        CommandAction::InsertDate,
        CommandAction::ToggleZenMode,
        CommandAction::ToggleSplitView,
        CommandAction::GitPush,
        CommandAction::ExportPdf,
    ]
}

/// One remembered editor state, for undo.
pub struct EditSnapshot {
    pub lines: Vec<String>,
    pub cursor_row: usize,
    pub cursor_col: usize,
}

impl EditSnapshot {
    /// A snapshot is well formed like a live buffer: at least one line,
    /// cursor inside the text.
    pub open spec fn wf(&self) -> bool {
        self.lines@.len() >= 1 && (self.cursor_row as int) < self.lines@.len() && (
        self.cursor_col as int) <= self.lines@[self.cursor_row as int]@.len()
    }
}

/// One open document: a tab.
pub struct EditorBuffer {
    /// The backing file; absent for a scratch buffer.
    pub path: Option<String>,
    /// The text, line by line; never empty.
    pub lines: Vec<String>,
    /// Cursor position, in lines and characters.
    pub cursor_row: usize,
    pub cursor_col: usize,
    /// Bounded undo history: the states before the last edits, oldest
    /// first, at most `HISTORY_LIMIT` of them.
    pub history: Vec<EditSnapshot>,
}

/// How many edits a buffer's undo history holds at most.
pub const HISTORY_LIMIT: usize = 50;

impl EditorBuffer {
    /// A buffer is well formed when it has at least one line, its
    /// cursor sits inside the text, and its undo history holds at most
    /// the bounded number of well-formed snapshots.
    pub open spec fn wf(&self) -> bool {
        self.lines@.len() >= 1 && (self.cursor_row as int) < self.lines@.len() && (
        self.cursor_col as int) <= self.lines@[self.cursor_row as int]@.len()
            && self.history@.len() <= HISTORY_LIMIT && (forall|i: int|
            0 <= i < self.history@.len() ==> self.history@[i].wf())
    }

    /// A fresh buffer over the given lines; no lines means one empty line.
    pub fn new(path: Option<String>, lines: Vec<String>) -> (r: EditorBuffer)
        ensures
            r.wf(),
            r.path == path,
            lines@.len() > 0 ==> r.lines@ == lines@,
            lines@.len() == 0 ==> views_of(r.lines@) =~= seq![Seq::<char>::empty()],
            r.cursor_row == 0 && r.cursor_col == 0,
            r.history@.len() == 0,
    {
        let lines = if lines.len() == 0 {
            let mut v: Vec<String> = Vec::new();
            v.push(String::new());
            proof {
                assert(views_of(v@) =~= seq![Seq::<char>::empty()]);
            }
            v
        } else {
            lines
        };
        EditorBuffer { path, lines, cursor_row: 0, cursor_col: 0, history: Vec::new() }
    }

    /// The tab title: the backing file's name, or a placeholder.
    pub fn display_name(&self) -> (r: String)
        ensures
            match self.path {
                Some(p) => r@ == after_last(p@, '/'),
                None => r@ == "untitled"@,
            },
    {
        match &self.path {
            Some(p) => file_name_of(p.as_str()),
            None => String::from_str("untitled"),
        }
    }

    /// The buffer's text as written to disk: lines joined by newlines.
    pub open spec fn content(&self) -> Seq<char> {
        crate::text::join_lines_seq(views_of(self.lines@))
    }
}

/// The whole interaction state.
pub struct App {
    pub config: Config,
    /// The workspace root, absolute, without a trailing slash.
    pub notes_dir: String,
    /// The browsed directory, as path segments below the root.
    pub current_rel: Vec<String>,
    pub all_notes: Vec<NoteEntry>,
    pub filtered_notes: Vec<NoteEntry>,
    pub selected: usize,
    pub mode: Mode,
    pub search_query: String,
    pub create_filename: String,
    pub message: Option<String>,
    pub match_indices: Vec<Vec<u32>>,
    pub focus: Focus,
    pub editor_mode: EditorMode,
    /// Open buffers; never empty.
    pub buffers: Vec<EditorBuffer>,
    pub active_tab: usize,
    /// The tab shown in the right pane of a split.
    pub split_right_tab: Option<usize>,
    pub split_focus_left: bool,
    pub editor_layout: EditorLayout,
    pub zen_mode: bool,
    pub telescope_notes: Vec<NoteEntry>,
    pub telescope_filtered: Vec<NoteEntry>,
    pub telescope_query: String,
    pub telescope_selected: usize,
    pub telescope_match_indices: Vec<Vec<u32>>,
    pub command_palette_query: String,
    pub command_palette_filtered: Vec<CommandAction>,
    pub command_palette_selected: usize,
    pub rename_input: String,
    pub directory_input: String,
    pub template_picker_active: bool,
    pub template_picker_selected: usize,
    pub g_pending: bool,
    pub backlinks: Vec<String>,
    pub backlinks_selected: usize,
    pub tag_explorer_active: bool,
    pub all_tags: Vec<String>,
    pub tag_selected: usize,
    pub tag_files: Vec<String>,
    pub tag_file_selected: usize,
    pub tag_explorer_view: TagExplorerView,
    /// Milliseconds; timestamps come from the caller's clock.
    pub last_keystroke_time: Option<u64>,
    pub editor_dirty: bool,
    pub save_indicator_until: Option<u64>,
    pub task_view_active: bool,
    pub tasks: Vec<TaskEntry>,
    pub task_selected: usize,
    /// Name to re-select after the next listing refresh.
    pub pending_select: Option<String>,
}

/// Selection `sel` is valid for a list of length `len`: inside it, or
/// pinned to zero when the list is empty.
pub open spec fn sel_ok(sel: usize, len: nat) -> bool {
    if len == 0 {
        sel == 0
    } else {
        (sel as nat) < len
    }
}

impl App {
    /// Structural invariant: the buffer list is never empty, the active
    /// and split tab indices point into it, every buffer is well formed,
    /// every selection cursor sits inside its list, and the highlight
    /// index lists line up with the filtered entries.
    pub open spec fn wf(&self) -> bool {
        &&& self.buffers@.len() >= 1
        &&& (self.active_tab as int) < self.buffers@.len()
        &&& match self.split_right_tab {
            Some(i) => (i as int) < self.buffers@.len(),
            None => true,
        }
        &&& forall|i: int| 0 <= i < self.buffers@.len() ==> self.buffers@[i].wf()
        &&& sel_ok(self.selected, self.filtered_notes@.len())
        &&& sel_ok(self.telescope_selected, self.telescope_filtered@.len())
        &&& sel_ok(self.command_palette_selected, self.command_palette_filtered@.len())
        &&& sel_ok(self.backlinks_selected, self.backlinks@.len())
        &&& sel_ok(self.tag_selected, self.all_tags@.len())
        &&& sel_ok(self.tag_file_selected, self.tag_files@.len())
        &&& sel_ok(self.task_selected, self.tasks@.len())
        &&& (self.template_picker_selected as int) < 3
        &&& self.match_indices@.len() == self.filtered_notes@.len()
        &&& self.telescope_match_indices@.len() == self.telescope_filtered@.len()
    }

    /// The index of the buffer that receives input: the active tab, or
    /// the split tab when the split's right pane holds focus.
    pub open spec fn focused_index_spec(&self) -> int {
        if self.editor_layout == EditorLayout::SplitVertical && self.split_right_tab is Some {
            if self.split_focus_left {
                self.active_tab as int
            } else {
                let i = self.split_right_tab->0 as int;
                if i < self.buffers@.len() {
                    i
                } else if self.buffers@.len() > 0 {
                    self.buffers@.len() - 1
                } else {
                    0
                }
            }
        } else {
            self.active_tab as int
        }
    }

    pub fn focused_buffer_index(&self) -> (r: usize)
        requires
            self.wf(),
        ensures
            r as int == self.focused_index_spec(),
            (r as int) < self.buffers@.len(),
    {
        if self.editor_layout == EditorLayout::SplitVertical && self.split_right_tab.is_some() {
            if self.split_focus_left {
                self.active_tab
            } else {
                let i = match self.split_right_tab {
                    Some(i) => i,
                    None => 0,
                };
                let last = self.buffers.len() - 1;
                if i < last {
                    i
                } else {
                    last
                }
            }
        } else {
            self.active_tab
        }
    }

    pub fn focused_buffer(&self) -> (r: &EditorBuffer)
        requires
            self.wf(),
        ensures
            *r == self.buffers@[self.focused_index_spec()],
    {
        let idx = self.focused_buffer_index();
        &self.buffers[idx]
    }

    /// The path being edited, if the focused buffer has one.
    pub fn editing_path(&self) -> (r: Option<String>)
        requires
            self.wf(),
        ensures
            match r {
                Some(p) => self.buffers@[self.focused_index_spec()].path is Some && p@
                    == self.buffers@[self.focused_index_spec()].path->0@,
                None => self.buffers@[self.focused_index_spec()].path is None,
            },
    {
        let buf = self.focused_buffer();
        match &buf.path {
            Some(p) => Some(String::from_str(p.as_str())),
            None => None,
        }
    }

    pub fn has_open_buffers(&self) -> (r: bool)
        ensures
            r == (self.buffers@.len() > 0),
    {
        self.buffers.len() > 0
    }

    /// The browsed directory as an absolute path.
    pub fn current_dir(&self) -> (r: String)
        ensures
            r@ == current_dir_seq(*self),
    {
        let mut out = String::from_str(self.notes_dir.as_str());
        let n = self.current_rel.len();
        let mut i: usize = 0;
        while i < n
            invariant
                i <= n,
                n == self.current_rel@.len(),
                out@ =~= dir_join(self.notes_dir@, self.current_rel@.take(i as int)),
            decreases n - i,
        {
            out.append("/");
            out.append(self.current_rel[i].as_str());
            proof {
                reveal_strlit("/");
                assert(self.current_rel@.take(i + 1).drop_last() =~= self.current_rel@.take(
                    i as int,
                ));
                assert(self.current_rel@.take(i + 1).last() == self.current_rel@[i as int]);
                assert(out@ =~= dir_join(self.notes_dir@, self.current_rel@.take(i + 1)));
            }
            i = i + 1;
        }
        proof {
            assert(self.current_rel@.take(n as int) =~= self.current_rel@);
        }
        out
    }

    pub fn can_go_up(&self) -> (r: bool)
        ensures
            r == (self.current_rel@.len() > 0),
    {
        self.current_rel.len() > 0
    }
}

/// A root directory joined with a list of path segments.
pub open spec fn dir_join(root: Seq<char>, segs: Seq<String>) -> Seq<char>
    decreases segs.len(),
{
    if segs.len() == 0 {
        root
    } else {
        dir_join(root, segs.drop_last()) + seq!['/'] + segs.last()@
    }
}

/// The browsed directory of a state, as one absolute path.
pub open spec fn current_dir_seq(s: App) -> Seq<char> {
    dir_join(s.notes_dir@, s.current_rel@)
}

} // verus!
