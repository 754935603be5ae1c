//! Session operations: opening, closing and switching tabs, the split
//! pane, saving, and the auto-save debounce.
//!
//! Every operation states exactly how it changes the state and
//! re-establishes `App::wf`: tab indices stay valid and the buffer list
//! never empties, whatever sequence of operations runs.

use vstd::prelude::*;
use vstd::string::StringExecFns;

use crate::state::App;
use crate::state::EditorBuffer;
use crate::state::EditorLayout;
use crate::state::EditorMode;
use crate::state::Focus;
use crate::text::split_lines;
use crate::text::split_lines_seq;
use crate::text::join_lines;
use crate::text::views_of;
use crate::paths::after_last;
use crate::paths::file_name_of;

verus! {

/// One file the caller must write to disk.
pub struct FileWrite {
    pub path: String,
    pub content: String,
}

pub open spec fn write_views(v: Seq<FileWrite>) -> Seq<(Seq<char>, Seq<char>)> {
    v.map_values(|w: FileWrite| (w.path@, w.content@))
}

/// The files a save pass writes: every buffer with a backing path, in
/// tab order, with its lines joined by newlines.
pub open spec fn writes_of(bufs: Seq<EditorBuffer>) -> Seq<(Seq<char>, Seq<char>)>
    decreases bufs.len(),
{
    if bufs.len() == 0 {
        Seq::empty()
    } else {
        writes_of(bufs.drop_last()) + match bufs.last().path {
            Some(p) => seq![(p@, bufs.last().content())],
            None => Seq::empty(),
        }
    }
}

/// Whether a path names one of the two configuration files.
pub open spec fn is_config_path(p: Seq<char>) -> bool {
    after_last(p, '/') == "config.toml"@ || after_last(p, '/') == "theme.toml"@
}

/// Whether any backed buffer writes a configuration file.
pub open spec fn any_config_write(bufs: Seq<EditorBuffer>) -> bool {
    exists|i: int|
        0 <= i < bufs.len() && bufs[i].path is Some && is_config_path(bufs[i].path->0@)
}

/// Whether a path names a configuration file (executable form; the
/// comparison is on the file-name component, as paths compare).
pub fn path_is_config_file(p: &str) -> (r: bool)
    ensures
        r == is_config_path(p@),
{
    let name = file_name_of(p);
    let a = String::from_str("config.toml");
    let b = String::from_str("theme.toml");
    name.eq(&a) || name.eq(&b)
}

/// First tab whose backing path is `p`, if any.
pub open spec fn buffer_index_from(bufs: Seq<EditorBuffer>, p: Seq<char>, i: int) -> Option<int>
    decreases bufs.len() - i,
{
    if i < 0 || i >= bufs.len() {
        None
    } else if bufs[i].path is Some && bufs[i].path->0@ == p {
        Some(i)
    } else {
        buffer_index_from(bufs, p, i + 1)
    }
}

pub open spec fn buffer_index_of(bufs: Seq<EditorBuffer>, p: Seq<char>) -> Option<int> {
    buffer_index_from(bufs, p, 0)
}

pub proof fn lemma_buffer_index_from(bufs: Seq<EditorBuffer>, p: Seq<char>, i: int, k: int)
    requires
        0 <= i <= k <= bufs.len(),
        forall|j: int| i <= j < k ==> !(bufs[j].path is Some && bufs[j].path->0@ == p),
    ensures
        buffer_index_from(bufs, p, i) == buffer_index_from(bufs, p, k),
    decreases k - i,
{
    if i < k {
        lemma_buffer_index_from(bufs, p, i + 1, k);
    }
}

impl App {
    /// Find the tab already backed by `p`.
    fn find_buffer(&self, p: &str) -> (r: Option<usize>)
        ensures
            match r {
                Some(i) => buffer_index_of(self.buffers@, p@) == Some(i as int) && (i as int)
                    < self.buffers@.len(),
                None => buffer_index_of(self.buffers@, p@) is None,
            },
    {
        let ps = String::from_str(p);
        let n = self.buffers.len();
        let mut i: usize = 0;
        while i < n
            invariant
                i <= n,
                n == self.buffers@.len(),
                ps@ == p@,
                forall|j: int|
                    0 <= j < i ==> !(self.buffers@[j].path is Some && self.buffers@[j].path->0@
                        == p@),
            decreases n - i,
        {
            let hit = match &self.buffers[i].path {
                Some(q) => q.eq(&ps),
                None => false,
            };
            if hit {
                proof {
                    lemma_buffer_index_from(self.buffers@, p@, 0, i as int);
                }
                return Some(i);
            }
            i = i + 1;
        }
        proof {
            lemma_buffer_index_from(self.buffers@, p@, 0, n as int);
        }
        None
    }

    /// Open `path` in the editor. When a tab is already backed by it, no
    /// new buffer appears: the tab count and the prior buffer's text are
    /// untouched, and the tab merely becomes active (with the cursor
    /// moved when a target line is given). Otherwise `content` — what
    /// the caller read from the file, empty when it was missing — opens
    /// as a fresh tab at the end of the list.
    pub fn load_file_into_editor_at_line(
        &mut self,
        path: String,
        content: &str,
        goto_line: Option<usize>,
    )
        requires
            old(self).wf(),
        ensures
            final(self).wf(),
            final(self).focus == Focus::Editor,
            final(self).editor_mode == EditorMode::Normal,
            (*final(self) == App {
                focus: Focus::Editor,
                editor_mode: EditorMode::Normal,
                active_tab: final(self).active_tab,
                buffers: final(self).buffers,
                ..*old(self)
            }),
            match buffer_index_of(old(self).buffers@, path@) {
                Some(i) => {
                    &&& final(self).active_tab as int == i
                    &&& final(self).buffers@.len() == old(self).buffers@.len()
                    &&& forall|j: int|
                        0 <= j < old(self).buffers@.len() && j != i ==> final(self).buffers@[j]
                            == old(self).buffers@[j]
                    &&& final(self).buffers@[i].path == old(self).buffers@[i].path
                    &&& final(self).buffers@[i].lines == old(self).buffers@[i].lines
                    &&& match goto_line {
                        Some(line) => final(self).buffers@[i].cursor_row as int == min_int(
                            line as int,
                            old(self).buffers@[i].lines@.len() - 1,
                        ) && final(self).buffers@[i].cursor_col == 0,
                        None => final(self).buffers@[i] == old(self).buffers@[i],
                    }
                },
                None => {
                    &&& final(self).buffers@.len() == old(self).buffers@.len() + 1
                    &&& forall|j: int|
                        0 <= j < old(self).buffers@.len() ==> final(self).buffers@[j] == old(
                            self,
                        ).buffers@[j]
                    &&& final(self).active_tab as int == old(self).buffers@.len()
                    &&& final(self).buffers@.last().path == Some(path)
                    &&& views_of(final(self).buffers@.last().lines@) == (if split_lines_seq(
                        content@,
                    ).len() == 0 {
                        seq![Seq::<char>::empty()]
                    } else {
                        split_lines_seq(content@)
                    })
                    &&& final(self).buffers@.last().cursor_col == 0
                    &&& final(self).buffers@.last().cursor_row as int == (match goto_line {
                        Some(line) => min_int(
                            line as int,
                            views_of(final(self).buffers@.last().lines@).len() - 1,
                        ),
                        None => 0int,
                    })
                },
            },
    {
        match self.find_buffer(path.as_str()) {
            Some(idx) => {
                self.active_tab = idx;
                self.focus = Focus::Editor;
                self.editor_mode = EditorMode::Normal;
                if let Some(line) = goto_line {
                    let nlines = self.buffers[idx].lines.len();
                    let row = if line < nlines - 1 {
                        line
                    } else {
                        nlines - 1
                    };
                    let b = &mut self.buffers[idx];
                    b.cursor_row = row;
                    b.cursor_col = 0;
                }
            },
            None => {
                let lines = split_lines(content);
                let mut buf = EditorBuffer::new(Some(path), lines);
                if let Some(line) = goto_line {
                    let nlines = buf.lines.len();
                    let row = if line < nlines - 1 {
                        line
                    } else {
                        nlines - 1
                    };
                    buf.cursor_row = row;
                    buf.cursor_col = 0;
                }
                let idx = self.buffers.len();
                self.buffers.push(buf);
                self.active_tab = idx;
                self.focus = Focus::Editor;
                self.editor_mode = EditorMode::Normal;
            },
        }
    }

    /// Open `path` in the editor (cursor left alone).
    pub fn load_file_into_editor(&mut self, path: String, content: &str)
        requires
            old(self).wf(),
        ensures
            final(self).wf(),
            final(self).focus == Focus::Editor,
            buffer_index_of(old(self).buffers@, path@) is Some ==> final(self).buffers@ == old(
                self,
            ).buffers@ && final(self).active_tab as int == buffer_index_of(
                old(self).buffers@,
                path@,
            )->0,
            buffer_index_of(old(self).buffers@, path@) is None ==> final(self).buffers@.len()
                == old(self).buffers@.len() + 1 && final(self).buffers@.last().path == Some(path)
                && forall|j: int|
                0 <= j < old(self).buffers@.len() ==> final(self).buffers@[j] == old(
                    self,
                ).buffers@[j],
            (*final(self) == App {
                focus: Focus::Editor,
                editor_mode: EditorMode::Normal,
                active_tab: final(self).active_tab,
                buffers: final(self).buffers,
                ..*old(self)
            }),
    {
        self.load_file_into_editor_at_line(path, content, None);
        proof {
            match buffer_index_of(old(self).buffers@, path@) {
                Some(i) => {
                    assert(self.buffers@ =~= old(self).buffers@);
                },
                None => {},
            }
        }
    }

    /// Close the focused tab. With a single buffer open this is a
    /// no-op: the state is returned unchanged, so the editor view is
    /// never left empty. Removing the split-tracked buffer (or leaving
    /// the split index out of range) collapses the layout back to a
    /// single pane.
    #[verifier::rlimit(80)]
    pub fn close_tab(&mut self)
        requires
            old(self).wf(),
        ensures
            final(self).wf(),
            old(self).buffers@.len() <= 1 ==> *final(self) == *old(self),
            old(self).buffers@.len() > 1 ==> {
                &&& final(self).buffers@ == old(self).buffers@.remove(
                    old(self).focused_index_spec(),
                )
                &&& final(self).buffers@.len() == old(self).buffers@.len() - 1
                &&& final(self).active_tab as int == (if (old(self).active_tab as int) < old(
                    self,
                ).buffers@.len() - 1 {
                    old(self).active_tab as int
                } else {
                    old(self).buffers@.len() - 2
                })
                &&& (*final(self) == App {
                    buffers: final(self).buffers,
                    active_tab: final(self).active_tab,
                    split_right_tab: final(self).split_right_tab,
                    editor_layout: final(self).editor_layout,
                    ..*old(self)
                })
                &&& match old(self).split_right_tab {
                    Some(i) => if i as int == old(self).focused_index_spec() || i as int >= old(
                        self,
                    ).buffers@.len() - 1 {
                        final(self).split_right_tab is None && final(self).editor_layout
                            == EditorLayout::Single
                    } else {
                        final(self).split_right_tab == old(self).split_right_tab && final(self).editor_layout == old(self).editor_layout
                    },
                    None => final(self).split_right_tab is None && final(self).editor_layout
                        == old(self).editor_layout,
                }
            },
    {
        if self.buffers.len() <= 1 {
            return ;
        }
        let idx = self.focused_buffer_index();
        self.buffers.remove(idx);
        let n = self.buffers.len();
        if self.active_tab >= n {
            self.active_tab = n - 1;
        }
        let clear_split = match self.split_right_tab {
            Some(i) => i == idx || i >= n,
            None => false,
        };
        if clear_split {
            self.split_right_tab = None;
            self.editor_layout = EditorLayout::Single;
        }
    }

    /// Cycle to the next tab.
    pub fn next_tab(&mut self)
        requires
            old(self).wf(),
        ensures
            final(self).wf(),
            final(self).active_tab as int == (old(self).active_tab + 1) % (
            old(self).buffers@.len() as int),
            (*final(self) == App { active_tab: final(self).active_tab, ..*old(self) }),
    {
        let n = self.buffers.len();
        self.active_tab = (self.active_tab + 1) % n;
    }

    /// Cycle to the previous tab.
    pub fn prev_tab(&mut self)
        requires
            old(self).wf(),
        ensures
            final(self).wf(),
            final(self).active_tab as int == (if old(self).active_tab > 0 {
                old(self).active_tab - 1
            } else {
                old(self).buffers@.len() - 1
            }),
            (*final(self) == App { active_tab: final(self).active_tab, ..*old(self) }),
    {
        if self.active_tab > 0 {
            self.active_tab = self.active_tab - 1;
        } else {
            self.active_tab = self.buffers.len() - 1;
        }
    }

    /// Toggle the split layout. Entering a split needs a second buffer
    /// and picks the cyclically next tab for the right pane; leaving it
    /// always clears the split tab.
    pub fn toggle_split_view(&mut self)
        requires
            old(self).wf(),
        ensures
            final(self).wf(),
            old(self).editor_layout == EditorLayout::Single && old(self).buffers@.len() >= 2 ==> {
                &&& final(self).editor_layout == EditorLayout::SplitVertical
                &&& final(self).split_right_tab == Some(
                    (((old(self).active_tab + 1) as int) % (
                    old(self).buffers@.len() as int)) as usize,
                )
                &&& final(self).split_focus_left == true
            },
            old(self).editor_layout == EditorLayout::Single && old(self).buffers@.len() < 2 ==>
                *final(self) == *old(self),
            old(self).editor_layout == EditorLayout::SplitVertical ==> final(self).editor_layout
                == EditorLayout::Single && final(self).split_right_tab is None && final(self).split_focus_left == old(self).split_focus_left,
            (*final(self) == App {
                editor_layout: final(self).editor_layout,
                split_right_tab: final(self).split_right_tab,
                split_focus_left: final(self).split_focus_left,
                ..*old(self)
            }),
    {
        match self.editor_layout {
            EditorLayout::Single => {
                if self.buffers.len() >= 2 {
                    self.split_right_tab = Some((self.active_tab + 1) % self.buffers.len());
                    self.split_focus_left = true;
                    self.editor_layout = EditorLayout::SplitVertical;
                }
            },
            EditorLayout::SplitVertical => {
                self.split_right_tab = None;
                self.editor_layout = EditorLayout::Single;
            },
        }
    }

    /// Collect everything a save pass must write, and whether a
    /// configuration file is among it; the dirty flag clears.
    pub fn save_all_buffers(&mut self) -> (r: (Vec<FileWrite>, bool))
        requires
            old(self).wf(),
        ensures
            final(self).wf(),
            write_views(r.0@) == writes_of(old(self).buffers@),
            r.1 == any_config_write(old(self).buffers@),
            (*final(self) == App { editor_dirty: false, ..*old(self) }),
    {
        let n = self.buffers.len();
        let mut out: Vec<FileWrite> = Vec::new();
        let mut reload = false;
        proof {
            assert(self.buffers@.take(0) =~= Seq::<EditorBuffer>::empty());
            assert(write_views(out@) =~= writes_of(self.buffers@.take(0)));
        }
        let mut i: usize = 0;
        while i < n
            invariant
                i <= n,
                n == self.buffers@.len(),
                self == old(self),
                write_views(out@) =~= writes_of(self.buffers@.take(i as int)),
                reload == exists|j: int|
                    0 <= j < i && self.buffers@[j].path is Some && is_config_path(
                        self.buffers@[j].path->0@,
                    ),
            decreases n - i,
        {
            let b = &self.buffers[i];
            match &b.path {
                Some(p) => {
                    let content = join_lines(&b.lines);
                    let w = FileWrite { path: String::from_str(p.as_str()), content };
                    let ghost wv = (w.path@, w.content@);
                    let ghost before = out@;
                    out.push(w);
                    if path_is_config_file(p.as_str()) {
                        reload = true;
                    }
                    proof {
                        assert(write_views(out@) =~= write_views(before) + seq![wv]);
                    }
                },
                None => {},
            }
            proof {
                assert(self.buffers@.take(i + 1).drop_last() =~= self.buffers@.take(i as int));
                assert(self.buffers@.take(i + 1).last() == self.buffers@[i as int]);
            }
            i = i + 1;
        }
        self.editor_dirty = false;
        proof {
            assert(old(self).buffers@.take(n as int) =~= old(self).buffers@);
        }
        (out, reload)
    }

    /// Record a keystroke for the auto-save debounce.
    pub fn mark_editor_dirty(&mut self, now_ms: u64)
        ensures
            (*final(self) == App {
                editor_dirty: true,
                last_keystroke_time: Some(now_ms),
                ..*old(self)
            }),
    {
        self.editor_dirty = true;
        self.last_keystroke_time = Some(now_ms);
    }

    /// Decide whether an auto-save fires at `now_ms`. On firing, the
    /// dirty flag clears and the "saved" indicator is armed for two
    /// seconds; the caller then performs the writes of
    /// `save_all_buffers`.
    pub fn check_auto_save(&mut self, now_ms: u64) -> (fired: bool)
        ensures
            fired == auto_save_due(*old(self), now_ms),
            fired ==> (*final(self) == App {
                editor_dirty: false,
                save_indicator_until: Some(sat_add_u64(now_ms, 2000)),
                ..*old(self)
            }),
            !fired ==> *final(self) == *old(self),
    {
        if !self.config.editor.auto_save || !self.editor_dirty {
            return false;
        }
        let last = match self.last_keystroke_time {
            Some(t) => t,
            None => { return false },
        };
        if now_ms < last {
            return false;
        }
        let elapsed_s = (now_ms - last) / 1000;
        if elapsed_s < self.config.editor.auto_save_interval {
            return false;
        }
        self.editor_dirty = false;
        self.save_indicator_until = Some(
            if now_ms <= u64::MAX - 2000 {
                now_ms + 2000
            } else {
                u64::MAX
            },
        );
        true
    }

    /// Clear the "saved" indicator once its time is up.
    pub fn tick_save_indicator(&mut self, now_ms: u64)
        ensures
            (*final(self) == App {
                save_indicator_until: final(self).save_indicator_until,
                ..*old(self)
            }),
            final(self).save_indicator_until == (match old(self).save_indicator_until {
                Some(until) => if now_ms >= until {
                    None
                } else {
                    Some(until)
                },
                None => None::<u64>,
            }),
    {
        match self.save_indicator_until {
            Some(until) => {
                if now_ms >= until {
                    self.save_indicator_until = None;
                }
            },
            None => {},
        }
    }
}

pub open spec fn min_int(a: int, b: int) -> int {
    if a < b {
        a
    } else {
        b
    }
}

pub open spec fn sat_add_u64(a: u64, b: u64) -> u64 {
    if a + b <= u64::MAX {
        (a + b) as u64
    } else {
        u64::MAX
    }
}

/// The auto-save debounce condition: enabled, dirty, and at least the
/// configured number of whole seconds of keyboard quiet.
pub open spec fn auto_save_due(s: App, now_ms: u64) -> bool {
    s.config.editor.auto_save && s.editor_dirty && match s.last_keystroke_time {
        Some(t) => now_ms >= t && (now_ms - t) / 1000 >= s.config.editor.auto_save_interval,
        None => false,
    }
}

/// Auto-save does not fire while the keyboard has been quiet for less
/// than the configured interval.
pub proof fn lemma_auto_save_debounced(s: App, now_ms: u64)
    requires
        s.last_keystroke_time is Some,
        now_ms >= s.last_keystroke_time->0,
        now_ms - s.last_keystroke_time->0 < s.config.editor.auto_save_interval * 1000,
    ensures
        !auto_save_due(s, now_ms),
{
    let t = s.last_keystroke_time->0;
    let interval = s.config.editor.auto_save_interval as int;
    assert((now_ms - t) / 1000 < interval) by {
        assert(now_ms - t <= interval * 1000 - 1);
        assert((interval * 1000 - 1) / 1000 == interval - 1) by (nonlinear_arith);
        assert((now_ms - t) / 1000 <= (interval * 1000 - 1) / 1000) by (nonlinear_arith)
            requires
                now_ms - t <= interval * 1000 - 1,
                now_ms - t >= 0,
        ;
    }
}

/// Once an auto-save has fired, none fires again until the next
/// keystroke marks the state dirty: firing clears the dirty flag, and
/// the debounce condition demands it.
pub proof fn lemma_auto_save_fires_once(s: App, later_ms: u64)
    requires
        !s.editor_dirty,
    ensures
        !auto_save_due(s, later_ms),
{
}

} // verus!
