//! Decision logic for flows that end in file-system work: navigation,
//! delete, rename, create, scans, the daily note, export and version
//! control. Each function validates and updates the state, and hands
//! the caller the plain file operation to perform — the caller does the
//! reading and writing and feeds results back as values.

use vstd::prelude::*;
use vstd::string::StrSliceExecFns;
use vstd::string::StringExecFns;

use crate::config::Config;
use crate::config::expand_path;
use crate::config::expand_path_seq;
use crate::entry::build_listing;
use crate::entry::entry_views;
use crate::entry::group_views;
use crate::entry::RawListingEntry;
use crate::entry::sorted_entries;
use crate::paths::after_last;
use crate::paths::before_last;
use crate::paths::ensure_md_seq;
use crate::paths::ensure_md_suffix;
use crate::paths::file_name_of;
use crate::paths::file_stem_of;
use crate::paths::is_md_name;
use crate::paths::md_ext;
use crate::paths::parent_of;
use crate::paths::path_join;
use crate::paths::path_join_seq;
use crate::paths::stem_seq;
use crate::scan::file_views;
use crate::scan::paths_containing;
use crate::scan::find_paths_containing;
use crate::scan::scan_all_tag_names;
use crate::scan::scan_task_files;
use crate::scan::ScannedFile;
use crate::scan::task_views;
use crate::scan::tasks_of_files;
use crate::session::buffer_index_of;
use crate::session::FileWrite;
use crate::session::is_config_path;
use crate::session::write_views;
use crate::session::writes_of;
use crate::session::any_config_write;
use crate::state::App;
use crate::state::current_dir_seq;
use crate::state::EditorBuffer;
use crate::state::Focus;
use crate::state::Mode;
use crate::state::TagExplorerView;
use crate::templates::Template;
use crate::templates::template_content;
use crate::text::ends_with_seq;
use crate::text::seq_contains_view;
use crate::text::sorted_strs;
use crate::text::trim;
use crate::text::trim_seq;
use crate::text::views_of;

verus! {

/// Outcome of invoking an external tool: it ran and succeeded, it ran
/// and reported failure, or it was not found at all.
#[derive(Debug, Clone, Copy, PartialEq, Eq, Structural)]
pub enum ToolOutcome {
    Success,
    Failed,
    Missing,
}

/// The buffers that survive when `p`'s backing file disappears.
pub open spec fn bufs_keep(bufs: Seq<EditorBuffer>, p: Seq<char>) -> Seq<EditorBuffer>
    decreases bufs.len(),
{
    if bufs.len() == 0 {
        Seq::empty()
    } else {
        bufs_keep(bufs.drop_last(), p) + if bufs.last().path is Some && bufs.last().path->0@
            == p {
            Seq::empty()
        } else {
            seq![bufs.last()]
        }
    }
}

/// No buffer that `bufs_keep` retains is backed by `p`.
proof fn lemma_bufs_keep_clean(bufs: Seq<EditorBuffer>, p: Seq<char>)
    ensures
        forall|j: int|
            0 <= j < bufs_keep(bufs, p).len() ==> !(#[trigger] bufs_keep(bufs, p)[j].path is Some
                && bufs_keep(bufs, p)[j].path->0@ == p),
    decreases bufs.len(),
{
    if bufs.len() > 0 {
        lemma_bufs_keep_clean(bufs.drop_last(), p);
    }
}

/// Drop every buffer backed by `p`, keeping the rest in order.
fn filter_buffers(bufs: &mut Vec<EditorBuffer>, p: &str)
    requires
        forall|k: int| 0 <= k < old(bufs)@.len() ==> old(bufs)@[k].wf(),
    ensures
        final(bufs)@ == bufs_keep(old(bufs)@, p@),
        forall|k: int| 0 <= k < final(bufs)@.len() ==> final(bufs)@[k].wf(),
{
    let ghost orig = bufs@;
    let mut kept: Vec<EditorBuffer> = Vec::new();
    let ps = String::from_str(p);
    proof {
        assert(orig.take(0) =~= Seq::<EditorBuffer>::empty());
        assert(kept@ =~= bufs_keep(orig.take(0), p@));
    }
    let total = bufs.len();
    let mut i: usize = 0;
    while i < total
        invariant
            i <= total,
            total == orig.len(),
            bufs@ =~= orig.skip(i as int),
            ps@ == p@,
            kept@ =~= bufs_keep(orig.take(i as int), p@),
            forall|k: int| 0 <= k < kept@.len() ==> kept@[k].wf(),
            forall|k: int| 0 <= k < orig.len() ==> orig[k].wf(),
        decreases total - i,
    {
        let b = bufs.remove(0);
        proof {
            assert(orig.skip(i as int)[0] == orig[i as int]);
            assert(orig.skip(i as int).remove(0) =~= orig.skip(i + 1));
            assert(orig.take(i + 1).drop_last() =~= orig.take(i as int));
            assert(orig.take(i + 1).last() == orig[i as int]);
        }
        let drop = match &b.path {
            Some(q) => q.eq(&ps),
            None => false,
        };
        if !drop {
            kept.push(b);
        }
        proof {
            assert(kept@ =~= bufs_keep(orig.take(i + 1), p@));
        }
        i = i + 1;
    }
    proof {
        assert(orig.take(total as int) =~= orig);
    }
    *bufs = kept;
}

impl App {
    /// A fresh state over a configuration: browser focus, normal mode,
    /// one scratch buffer, everything else empty. The caller lists the
    /// root directory and applies it next.
    pub fn new(config: Config, home: &str) -> (r: App)
        ensures
            r.wf(),
            r.focus == Focus::List,
            r.mode == Mode::Normal,
            r.editor_mode == crate::state::EditorMode::Normal,
            r.notes_dir@ == expand_path_seq(config.notes_directory@, home@),
            r.current_rel@.len() == 0,
            r.buffers@.len() == 1,
            r.buffers@[0].path is None,
            views_of(r.buffers@[0].lines@) == seq![Seq::<char>::empty()],
            r.active_tab == 0,
            r.split_right_tab is None,
            r.editor_layout == crate::state::EditorLayout::Single,
            r.split_focus_left,
            !r.zen_mode,
            !r.editor_dirty,
            r.last_keystroke_time is None,
            r.save_indicator_until is None,
            r.message is None,
            r.all_notes@.len() == 0,
            r.filtered_notes@.len() == 0,
            r.selected == 0,
            r.command_palette_filtered@ == crate::state::all_actions(),
            r.config == config,
    {
        let notes_dir = expand_path(config.notes_directory.as_str(), home);
        let scratch = EditorBuffer::new(None, Vec::new());
        let mut buffers: Vec<EditorBuffer> = Vec::new();
        buffers.push(scratch);
        App {
            config,
            notes_dir,
            current_rel: Vec::new(),
            all_notes: Vec::new(),
            filtered_notes: Vec::new(),
            selected: 0,
            mode: Mode::Normal,
            search_query: String::new(),
            create_filename: String::new(),
            message: None,
            match_indices: Vec::new(),
            focus: Focus::List,
            editor_mode: crate::state::EditorMode::Normal,
            buffers,
            active_tab: 0,
            split_right_tab: None,
            split_focus_left: true,
            editor_layout: crate::state::EditorLayout::Single,
            zen_mode: false,
            telescope_notes: Vec::new(),
            telescope_filtered: Vec::new(),
            telescope_query: String::new(),
            telescope_selected: 0,
            telescope_match_indices: Vec::new(),
            command_palette_query: String::new(),
            command_palette_filtered: crate::state::CommandAction::all(),
            command_palette_selected: 0,
            rename_input: String::new(),
            directory_input: String::new(),
            template_picker_active: false,
            template_picker_selected: 0,
            g_pending: false,
            backlinks: Vec::new(),
            backlinks_selected: 0,
            tag_explorer_active: false,
            all_tags: Vec::new(),
            tag_selected: 0,
            tag_files: Vec::new(),
            tag_file_selected: 0,
            tag_explorer_view: TagExplorerView::TagList,
            last_keystroke_time: None,
            editor_dirty: false,
            save_indicator_until: None,
            task_view_active: false,
            tasks: Vec::new(),
            task_selected: 0,
            pending_select: None,
        }
    }

    /// Install a (re)loaded configuration. A changed root sends the
    /// browser back to it; navigation below an unchanged root survives.
    pub fn set_config(&mut self, config: Config, home: &str)
        requires
            old(self).wf(),
        ensures
            final(self).wf(),
            final(self).notes_dir@ == expand_path_seq(config.notes_directory@, home@),
            final(self).config == config,
            final(self).notes_dir@ == old(self).notes_dir@ ==> final(self).current_rel == old(self).current_rel,
            final(self).notes_dir@ != old(self).notes_dir@ ==> final(self).current_rel@.len()
                == 0,
            (*final(self) == App {
                config: final(self).config,
                notes_dir: final(self).notes_dir,
                current_rel: final(self).current_rel,
                ..*old(self)
            }),
    {
        let notes_dir = expand_path(config.notes_directory.as_str(), home);
        if !notes_dir.eq(&self.notes_dir) {
            self.current_rel = Vec::new();
        }
        self.notes_dir = notes_dir;
        self.config = config;
    }

    /// Descend into the highlighted entry when it is a directory.
    /// Returns whether navigation happened; the caller re-lists.
    pub fn enter_selected_directory(&mut self) -> (navigated: bool)
        requires
            old(self).wf(),
        ensures
            final(self).wf(),
            navigated == ((old(self).selected as int) < old(self).filtered_notes@.len() && old(self).filtered_notes@[old(self).selected as int].is_directory),
            navigated ==> final(self).current_rel@ == old(self).current_rel@.push(
                final(self).current_rel@.last(),
            ) && final(self).current_rel@.last()@ == after_last(
                old(self).filtered_notes@[old(self).selected as int].path@,
                '/',
            ) && (*final(self) == App { current_rel: final(self).current_rel, ..*old(self) }),
            !navigated ==> *final(self) == *old(self),
    {
        if self.selected >= self.filtered_notes.len() {
            return false;
        }
        if !self.filtered_notes[self.selected].is_directory {
            return false;
        }
        let seg = file_name_of(self.filtered_notes[self.selected].path.as_str());
        self.current_rel.push(seg);
        true
    }

    /// Go up one directory. At the workspace root this is a no-op: the
    /// state is unchanged and `false` comes back, so repeated calls can
    /// never escape the root. Otherwise the left directory's name is
    /// remembered so the next listing can restore the selection to it.
    pub fn go_to_parent_dir(&mut self) -> (navigated: bool)
        requires
            old(self).wf(),
        ensures
            final(self).wf(),
            navigated == (old(self).current_rel@.len() > 0),
            !navigated ==> *final(self) == *old(self),
            navigated ==> {
                &&& final(self).current_rel@ == old(self).current_rel@.drop_last()
                &&& final(self).pending_select is Some
                &&& final(self).pending_select->0@ == old(self).current_rel@.last()@ + seq!['/']
                &&& (*final(self) == App {
                    current_rel: final(self).current_rel,
                    pending_select: final(self).pending_select,
                    ..*old(self)
                })
            },
    {
        let n = self.current_rel.len();
        if n == 0 {
            return false;
        }
        let popped = match self.current_rel.pop() {
            Some(s) => s,
            None => { return false },
        };
        let mut name = popped;
        crate::text::push_char(&mut name, '/');
        self.pending_select = Some(name);
        true
    }

    /// Install a fresh listing of the browsed directory, or record that
    /// it could not be read. A pending selection name (from leaving a
    /// directory) is restored by display name where possible.
    #[verifier::rlimit(100)]
    pub fn apply_listing(&mut self, listing: Option<Vec<RawListingEntry>>)
        requires
            old(self).wf(),
        ensures
            final(self).wf(),
            listing is None ==> (*final(self) == App {
                message: final(self).message,
                pending_select: None,
                ..*old(self)
            }) && final(self).message is Some && final(self).message->0@
                == "Cannot read directory"@,
            listing is Some ==> {
                &&& exists|d: int|
                    0 <= d <= final(self).all_notes@.len() && (forall|i: int|
                        0 <= i < d ==> final(self).all_notes@[i].is_directory) && (forall|i: int|
                        d <= i < final(self).all_notes@.len()
                            ==> !final(self).all_notes@[i].is_directory) && sorted_entries(
                        final(self).all_notes@.take(d),
                    ) && sorted_entries(final(self).all_notes@.skip(d)) && entry_views(
                        final(self).all_notes@.take(d),
                    ).to_multiset() == group_views(
                        current_dir_seq(*old(self)),
                        listing->0@,
                        old(self).config.ui.show_hidden,
                        true,
                    ).to_multiset() && entry_views(final(self).all_notes@.skip(d)).to_multiset()
                        == group_views(
                        current_dir_seq(*old(self)),
                        listing->0@,
                        old(self).config.ui.show_hidden,
                        false,
                    ).to_multiset()
                &&& old(self).search_query@.len() == 0 ==> entry_views(
                    final(self).filtered_notes@,
                ) == entry_views(final(self).all_notes@)
                &&& old(self).search_query@.len() > 0 ==> entry_views(
                    final(self).filtered_notes@,
                ).to_multiset() == entry_views(
                    crate::filter::matching_entries(
                        final(self).all_notes@,
                        old(self).search_query@,
                    ),
                ).to_multiset() && crate::filter::ranked_by_score(
                    final(self).filtered_notes@,
                    old(self).search_query@,
                )
                &&& match old(self).pending_select {
                    Some(name) => (exists|k: int|
                        0 <= k < final(self).filtered_notes@.len() && final(self).filtered_notes@[k].display@ == name@) ==> final(self).filtered_notes@[final(self).selected as int].display@ == name@,
                    None => true,
                }
                &&& final(self).pending_select is None
            },
    {
        match listing {
            None => {
                self.message = Some(String::from_str("Cannot read directory"));
                self.pending_select = None;
            },
            Some(raw) => {
                let ghost raw_snap = raw@;
                let dir = self.current_dir();
                self.all_notes = build_listing(dir.as_str(), raw, self.config.ui.show_hidden);
                let ghost d0: int = choose|d: int|
                    0 <= d <= self.all_notes@.len() && (forall|i: int|
                        0 <= i < d ==> self.all_notes@[i].is_directory) && (forall|i: int|
                        d <= i < self.all_notes@.len() ==> !self.all_notes@[i].is_directory)
                        && sorted_entries(self.all_notes@.take(d)) && sorted_entries(
                        self.all_notes@.skip(d),
                    ) && entry_views(self.all_notes@.take(d)).to_multiset() == group_views(
                        current_dir_seq(*old(self)),
                        raw_snap,
                        old(self).config.ui.show_hidden,
                        true,
                    ).to_multiset() && entry_views(self.all_notes@.skip(d)).to_multiset()
                        == group_views(
                        current_dir_seq(*old(self)),
                        raw_snap,
                        old(self).config.ui.show_hidden,
                        false,
                    ).to_multiset();
                proof {
                    assert(listing->0@ == raw_snap);
                }
                self.apply_filter();
                self.clamp_selection();
                let pending = match &self.pending_select {
                    Some(name) => Some(String::from_str(name.as_str())),
                    None => None,
                };
                self.pending_select = None;
                match pending {
                    Some(name) => {
                        let n = self.filtered_notes.len();
                        let mut found: Option<usize> = None;
                        let mut i: usize = 0;
                        loop
                            invariant
                                i <= n,
                                n == self.filtered_notes@.len(),
                                match found {
                                    Some(f) => (f as int) < self.filtered_notes@.len()
                                        && self.filtered_notes@[f as int].display@ == name@,
                                    None => forall|j: int|
                                        0 <= j < i ==> self.filtered_notes@[j].display@ != name@,
                                },
                            ensures
                                match found {
                                    Some(f) => (f as int) < self.filtered_notes@.len()
                                        && self.filtered_notes@[f as int].display@ == name@,
                                    None => forall|j: int|
                                        0 <= j < self.filtered_notes@.len()
                                            ==> self.filtered_notes@[j].display@ != name@,
                                },
                            decreases n - i,
                        {
                            if i >= n {
                                break ;
                            }
                            if self.filtered_notes[i].display.eq(&name) {
                                found = Some(i);
                                break ;
                            }
                            i = i + 1;
                        }
                        match found {
                            Some(f) => {
                                self.selected = f;
                            },
                            None => {},
                        }
                        proof {
                            if exists|k: int|
                                0 <= k < self.filtered_notes@.len()
                                    && self.filtered_notes@[k].display@ == name@ {
                                match found {
                                    Some(f) => {
                                        assert(self.filtered_notes@[
                                            self.selected as int
                                        ].display@ == name@);
                                    },
                                    None => {
                                        let k = choose|k: int|
                                            0 <= k < self.filtered_notes@.len()
                                                && #[trigger] self.filtered_notes@[k].display@
                                                == name@;
                                        assert(self.filtered_notes@[k].display@ != name@);
                                        assert(false);
                                    },
                                }
                            }
                        }
                    },
                    None => {},
                }
                proof {
                    assert(0 <= d0 <= self.all_notes@.len() && (forall|i: int|
                        0 <= i < d0 ==> self.all_notes@[i].is_directory) && (forall|i: int|
                        d0 <= i < self.all_notes@.len() ==> !self.all_notes@[i].is_directory)
                        && sorted_entries(self.all_notes@.take(d0)) && sorted_entries(
                        self.all_notes@.skip(d0),
                    ) && entry_views(self.all_notes@.take(d0)).to_multiset() == group_views(
                        current_dir_seq(*old(self)),
                        raw_snap,
                        old(self).config.ui.show_hidden,
                        true,
                    ).to_multiset() && entry_views(self.all_notes@.skip(d0)).to_multiset()
                        == group_views(
                        current_dir_seq(*old(self)),
                        raw_snap,
                        old(self).config.ui.show_hidden,
                        false,
                    ).to_multiset());
                }
            },
        }
    }

    /// Remove every buffer backed by `path` (its file is gone). Indices
    /// re-clamp exactly as on close; removing the split-tracked buffer
    /// collapses the layout to a single pane; when the last buffer
    /// goes, a scratch buffer takes its place and focus returns to the
    /// browser.
    #[verifier::rlimit(100)]
    #[verifier::spinoff_prover]
    pub fn remove_buffers_with_path(&mut self, path: &str)
        requires
            old(self).wf(),
        ensures
            final(self).wf(),
            bufs_keep(old(self).buffers@, path@).len() > 0 ==> {
                &&& final(self).buffers@ == bufs_keep(old(self).buffers@, path@)
                &&& (*final(self) == App {
                    buffers: final(self).buffers,
                    active_tab: final(self).active_tab,
                    split_right_tab: final(self).split_right_tab,
                    editor_layout: final(self).editor_layout,
                    ..*old(self)
                })
                &&& match old(self).split_right_tab {
                    Some(i) => if (old(self).buffers@[i as int].path is Some && old(self).buffers@[i as int].path->0@ == path@) || i as int >= bufs_keep(
                        old(self).buffers@,
                        path@,
                    ).len() {
                        final(self).split_right_tab is None && final(self).editor_layout
                            == crate::state::EditorLayout::Single
                    } else {
                        final(self).split_right_tab == old(self).split_right_tab && final(self).editor_layout == old(self).editor_layout
                    },
                    None => final(self).split_right_tab is None && final(self).editor_layout
                        == old(self).editor_layout,
                }
            },
            bufs_keep(old(self).buffers@, path@).len() == 0 ==> {
                &&& final(self).buffers@.len() == 1
                &&& final(self).buffers@[0].path is None
                &&& (*final(self) == App {
                    buffers: final(self).buffers,
                    active_tab: 0,
                    focus: Focus::List,
                    split_right_tab: None,
                    editor_layout: crate::state::EditorLayout::Single,
                    ..*old(self)
                })
            },
    {
        let tracked_removed = match self.split_right_tab {
            Some(i) => {
                match &self.buffers[i].path {
                    Some(q) => {
                        let ps = String::from_str(path);
                        q.eq(&ps)
                    },
                    None => false,
                }
            },
            None => false,
        };
        let ghost orig = *self;
        filter_buffers(&mut self.buffers, path);
        if self.buffers.len() == 0 {
            self.install_scratch(Ghost(orig));
        } else {
            self.reclamp_after_removal(tracked_removed, Ghost(orig), Ghost(path@));
        }
    }

    /// Refill an emptied tab list with one scratch buffer, back in the
    /// browser with a single pane.
    #[verifier::rlimit(100)]
    #[verifier::spinoff_prover]
    fn install_scratch(&mut self, Ghost(orig): Ghost<App>)
        requires
            orig.wf(),
            old(self).buffers@.len() == 0,
            (*old(self) == App { buffers: old(self).buffers, ..orig }),
        ensures
            final(self).wf(),
            final(self).buffers@.len() == 1,
            final(self).buffers@[0].path is None,
            (*final(self) == App {
                buffers: final(self).buffers,
                active_tab: 0,
                focus: Focus::List,
                split_right_tab: None,
                editor_layout: crate::state::EditorLayout::Single,
                ..orig
            }),
    {
        let scratch = EditorBuffer::new(None, Vec::new());
        self.buffers.push(scratch);
        self.active_tab = 0;
        self.focus = Focus::List;
        self.split_right_tab = None;
        self.editor_layout = crate::state::EditorLayout::Single;
    }

    /// Re-clamp the active and split indices after buffers were
    /// removed, collapsing the split when its tracked buffer is gone.
    #[verifier::rlimit(100)]
    #[verifier::spinoff_prover]
    fn reclamp_after_removal(
        &mut self,
        tracked_removed: bool,
        Ghost(orig): Ghost<App>,
        Ghost(pathv): Ghost<Seq<char>>,
    )
        requires
            orig.wf(),
            old(self).buffers@ == bufs_keep(orig.buffers@, pathv),
            old(self).buffers@.len() > 0,
            (*old(self) == App { buffers: old(self).buffers, ..orig }),
            forall|k: int| 0 <= k < old(self).buffers@.len() ==> old(self).buffers@[k].wf(),
            tracked_removed == match orig.split_right_tab {
                Some(i) => orig.buffers@[i as int].path is Some && orig.buffers@[i as int].path->0@
                    == pathv,
                None => false,
            },
        ensures
            final(self).wf(),
            final(self).buffers@ == bufs_keep(orig.buffers@, pathv),
            (*final(self) == App {
                buffers: final(self).buffers,
                active_tab: final(self).active_tab,
                split_right_tab: final(self).split_right_tab,
                editor_layout: final(self).editor_layout,
                ..orig
            }),
            match orig.split_right_tab {
                Some(i) => if (orig.buffers@[i as int].path is Some && orig.buffers@[i as int].path->0@ == pathv) || i as int >= bufs_keep(
                    orig.buffers@,
                    pathv,
                ).len() {
                    final(self).split_right_tab is None && final(self).editor_layout
                        == crate::state::EditorLayout::Single
                } else {
                    final(self).split_right_tab == orig.split_right_tab && final(self).editor_layout == orig.editor_layout
                },
                None => final(self).split_right_tab is None && final(self).editor_layout
                    == orig.editor_layout,
            },
    {
        let n = self.buffers.len();
        if self.active_tab >= n {
            self.active_tab = n - 1;
        }
        let clear_split = match self.split_right_tab {
            Some(s) => tracked_removed || s >= n,
            None => false,
        };
        if clear_split {
            self.split_right_tab = None;
            self.editor_layout = crate::state::EditorLayout::Single;
        }
    }

    /// Delete the highlighted note: refused for directories and for the
    /// configuration files (a message says why, nothing changes
    /// otherwise); for an ordinary document, its buffers close and the
    /// caller removes the file returned here, then re-lists.
    pub fn delete_selected_note(&mut self) -> (r: Option<String>)
        requires
            old(self).wf(),
        ensures
            final(self).wf(),
            (old(self).selected as int) >= old(self).filtered_notes@.len() ==> r is None && *final(self) == *old(self),
            (old(self).selected as int) < old(self).filtered_notes@.len() && old(self).filtered_notes@[old(self).selected as int].is_directory ==> r is None && (*final(self) == App { message: final(self).message, ..*old(self) }) && final(self).message is Some
                && final(self).message->0@ == "Use a file manager to delete directories"@,
            (old(self).selected as int) < old(self).filtered_notes@.len() && !old(self).filtered_notes@[old(self).selected as int].is_directory && is_config_path(
                old(self).filtered_notes@[old(self).selected as int].path@,
            ) ==> r is None && (*final(self) == App { message: final(self).message, ..*old(self) })
                && final(self).message is Some && final(self).message->0@
                == "Cannot delete config files"@,
            (old(self).selected as int) < old(self).filtered_notes@.len() && !old(self).filtered_notes@[old(self).selected as int].is_directory && !is_config_path(
                old(self).filtered_notes@[old(self).selected as int].path@,
            ) ==> {
                &&& r is Some
                &&& r->0@ == old(self).filtered_notes@[old(self).selected as int].path@
                &&& final(self).message is Some && final(self).message->0@ == "Deleted"@
                &&& forall|j: int|
                    0 <= j < final(self).buffers@.len() ==> !(final(self).buffers@[j].path is Some
                        && final(self).buffers@[j].path->0@ == r->0@)
                &&& (*final(self) == App {
                    buffers: final(self).buffers,
                    active_tab: final(self).active_tab,
                    split_right_tab: final(self).split_right_tab,
                    editor_layout: final(self).editor_layout,
                    focus: final(self).focus,
                    message: final(self).message,
                    ..*old(self)
                })
            },
    {
        if self.selected >= self.filtered_notes.len() {
            return None;
        }
        if self.filtered_notes[self.selected].is_directory {
            self.message = Some(String::from_str("Use a file manager to delete directories"));
            return None;
        }
        let path = String::from_str(self.filtered_notes[self.selected].path.as_str());
        if crate::session::path_is_config_file(path.as_str()) {
            self.message = Some(String::from_str("Cannot delete config files"));
            return None;
        }
        self.remove_buffers_with_path(path.as_str());
        proof {
            lemma_bufs_keep_clean(old(self).buffers@, path@);
        }
        self.message = Some(String::from_str("Deleted"));
        Some(path)
    }
}

/// Whether the browser has a highlighted entry.
pub open spec fn has_selected(s: App) -> bool {
    (s.selected as int) < s.filtered_notes@.len()
}

/// The highlighted browser entry.
pub open spec fn sel_entry(s: App) -> crate::entry::NoteEntry {
    s.filtered_notes@[s.selected as int]
}

/// The file name a rename would produce: the trimmed input, with the
/// markdown extension appended for documents.
pub open spec fn rename_new_name(s: App) -> Seq<char> {
    let name = trim_seq(s.rename_input@);
    if sel_entry(s).is_directory {
        name
    } else {
        ensure_md_seq(name)
    }
}

/// The directory a rename happens in: the renamed entry's parent, or
/// the browsed directory when the path has none.
pub open spec fn rename_parent(s: App) -> Seq<char> {
    if before_last(sel_entry(s).path@, '/').len() == 0 {
        current_dir_seq(s)
    } else {
        before_last(sel_entry(s).path@, '/')
    }
}

/// The full path a rename would move the entry to.
pub open spec fn rename_new_path(s: App) -> Seq<char> {
    path_join_seq(rename_parent(s), rename_new_name(s))
}

impl App {
    /// Open the rename prompt over the highlighted entry, its file name
    /// pre-filled; without a highlighted entry nothing happens.
    pub fn enter_rename(&mut self)
        requires
            old(self).wf(),
        ensures
            final(self).wf(),
            !has_selected(*old(self)) ==> *final(self) == *old(self),
            has_selected(*old(self)) ==> (*final(self) == App {
                focus: Focus::Rename,
                rename_input: final(self).rename_input,
                ..*old(self)
            }) && final(self).rename_input@ == after_last(sel_entry(*old(self)).path@, '/'),
    {
        if self.selected >= self.filtered_notes.len() {
            return ;
        }
        self.rename_input = file_name_of(self.filtered_notes[self.selected].path.as_str());
        self.focus = Focus::Rename;
    }

    pub fn exit_rename(&mut self)
        ensures
            (*final(self) == App {
                focus: Focus::List,
                rename_input: final(self).rename_input,
                ..*old(self)
            }),
            final(self).rename_input@.len() == 0,
    {
        self.focus = Focus::List;
        self.rename_input = String::new();
    }

    pub fn rename_add_char(&mut self, c: char)
        ensures
            (*final(self) == App { rename_input: final(self).rename_input, ..*old(self) }),
            final(self).rename_input@ == old(self).rename_input@.push(c),
    {
        crate::text::push_char(&mut self.rename_input, c);
    }

    pub fn rename_backspace(&mut self)
        ensures
            (*final(self) == App { rename_input: final(self).rename_input, ..*old(self) }),
            final(self).rename_input@ == (if old(self).rename_input@.len() > 0 {
                old(self).rename_input@.drop_last()
            } else {
                old(self).rename_input@
            }),
    {
        crate::text::pop_char(&mut self.rename_input);
    }

    /// The path a confirmed rename would move the highlighted entry to,
    /// for the caller's collision check; `None` without a highlighted
    /// entry or with an empty name.
    pub fn rename_target(&self) -> (r: Option<String>)
        requires
            self.wf(),
        ensures
            match r {
                Some(p) => has_selected(*self) && trim_seq(self.rename_input@).len() > 0 && p@
                    == rename_new_path(*self),
                None => !has_selected(*self) || trim_seq(self.rename_input@).len() == 0,
            },
    {
        if self.selected >= self.filtered_notes.len() {
            return None;
        }
        let name = trim(self.rename_input.as_str());
        if name.as_str().is_empty() {
            return None;
        }
        let name = if self.filtered_notes[self.selected].is_directory {
            name
        } else {
            ensure_md_suffix(name.as_str())
        };
        let parent = parent_of(self.filtered_notes[self.selected].path.as_str());
        let parent = if parent.as_str().is_empty() {
            self.current_dir()
        } else {
            parent
        };
        Some(path_join(parent.as_str(), name.as_str()))
    }

    /// Confirm a rename. An empty name or a collision with an existing
    /// file (which the caller has checked) is refused with a message and
    /// no other change. Otherwise the old and new paths come back with
    /// whether the file was open, the prompt closes, and the caller
    /// performs the move, re-lists, and reopens the buffer if needed.
    pub fn rename_selected_note(&mut self, target_exists: bool) -> (r: Option<
        (String, String, bool),
    >)
        requires
            old(self).wf(),
        ensures
            final(self).wf(),
            !has_selected(*old(self)) ==> r is None && *final(self) == *old(self),
            has_selected(*old(self)) && trim_seq(old(self).rename_input@).len() == 0 ==> r is None
                && (*final(self) == App { message: final(self).message, ..*old(self) }) && final(self).message is Some && final(self).message->0@ == "Name cannot be empty"@,
            has_selected(*old(self)) && trim_seq(old(self).rename_input@).len() > 0
                && target_exists && rename_new_path(*old(self)) != sel_entry(*old(self)).path@
                ==> r is None && (*final(self) == App { message: final(self).message, ..*old(self) })
                && final(self).message is Some && final(self).message->0@
                == "File already exists"@,
            has_selected(*old(self)) && trim_seq(old(self).rename_input@).len() > 0 && (
            !target_exists || rename_new_path(*old(self)) == sel_entry(*old(self)).path@) ==> {
                &&& r is Some
                &&& (r->0).0@ == sel_entry(*old(self)).path@
                &&& (r->0).1@ == rename_new_path(*old(self))
                &&& (r->0).2 == (buffer_index_of(
                    old(self).buffers@,
                    sel_entry(*old(self)).path@,
                ) is Some)
                &&& final(self).focus == Focus::List
                &&& final(self).message is Some && final(self).message->0@ == "Renamed"@
                &&& final(self).rename_input@.len() == 0
                &&& (*final(self) == App {
                    focus: Focus::List,
                    rename_input: final(self).rename_input,
                    message: final(self).message,
                    ..*old(self)
                })
            },
    {
        if self.selected >= self.filtered_notes.len() {
            return None;
        }
        let name = trim(self.rename_input.as_str());
        if name.as_str().is_empty() {
            self.message = Some(String::from_str("Name cannot be empty"));
            return None;
        }
        let old_path = String::from_str(self.filtered_notes[self.selected].path.as_str());
        let name = if self.filtered_notes[self.selected].is_directory {
            name
        } else {
            ensure_md_suffix(name.as_str())
        };
        let parent = parent_of(old_path.as_str());
        let parent = if parent.as_str().is_empty() {
            self.current_dir()
        } else {
            parent
        };
        let new_path = path_join(parent.as_str(), name.as_str());
        if target_exists && !new_path.eq(&old_path) {
            self.message = Some(String::from_str("File already exists"));
            return None;
        }
        let was_editing = match self.find_buffer_pub(old_path.as_str()) {
            Some(_) => true,
            None => false,
        };
        self.exit_rename();
        self.message = Some(String::from_str("Renamed"));
        Some((old_path, new_path, was_editing))
    }

    /// Whether a tab is backed by `p`, and which.
    pub fn find_buffer_pub(&self, p: &str) -> (r: Option<usize>)
        ensures
            match r {
                Some(i) => buffer_index_of(self.buffers@, p@) == Some(i as int) && (i as int)
                    < self.buffers@.len(),
                None => buffer_index_of(self.buffers@, p@) is None,
            },
    {
        let ps = String::from_str(p);
        let n = self.buffers.len();
        let mut i: usize = 0;
        while i < n
            invariant
                i <= n,
                n == self.buffers@.len(),
                ps@ == p@,
                forall|j: int|
                    0 <= j < i ==> !(self.buffers@[j].path is Some && self.buffers@[j].path->0@
                        == p@),
            decreases n - i,
        {
            let hit = match &self.buffers[i].path {
                Some(q) => q.eq(&ps),
                None => false,
            };
            if hit {
                proof {
                    crate::session::lemma_buffer_index_from(self.buffers@, p@, 0, i as int);
                }
                return Some(i);
            }
            i = i + 1;
        }
        proof {
            crate::session::lemma_buffer_index_from(self.buffers@, p@, 0, n as int);
        }
        None
    }

    // --- new-directory prompt ---
    pub fn enter_create_directory(&mut self)
        ensures
            (*final(self) == App {
                focus: Focus::CreatingDirectory,
                directory_input: final(self).directory_input,
                ..*old(self)
            }),
            final(self).directory_input@.len() == 0,
    {
        self.directory_input = String::new();
        self.focus = Focus::CreatingDirectory;
    }

    pub fn exit_create_directory(&mut self)
        ensures
            (*final(self) == App {
                focus: Focus::List,
                directory_input: final(self).directory_input,
                ..*old(self)
            }),
            final(self).directory_input@.len() == 0,
    {
        self.focus = Focus::List;
        self.directory_input = String::new();
    }

    pub fn directory_add_char(&mut self, c: char)
        ensures
            (*final(self) == App { directory_input: final(self).directory_input, ..*old(self) }),
            final(self).directory_input@ == old(self).directory_input@.push(c),
    {
        crate::text::push_char(&mut self.directory_input, c);
    }

    pub fn directory_backspace(&mut self)
        ensures
            (*final(self) == App { directory_input: final(self).directory_input, ..*old(self) }),
            final(self).directory_input@ == (if old(self).directory_input@.len() > 0 {
                old(self).directory_input@.drop_last()
            } else {
                old(self).directory_input@
            }),
    {
        crate::text::pop_char(&mut self.directory_input);
    }

    /// Confirm the new-directory prompt. An empty name or a collision
    /// (checked by the caller) is refused with a message; otherwise the
    /// prompt closes and the caller creates the returned path and
    /// re-lists.
    pub fn create_directory(&mut self, exists: bool) -> (r: Option<String>)
        requires
            old(self).wf(),
        ensures
            final(self).wf(),
            trim_seq(old(self).directory_input@).len() == 0 ==> r is None && (*final(self) == App {
                message: final(self).message,
                ..*old(self)
            }) && final(self).message is Some && final(self).message->0@
                == "Directory name cannot be empty"@,
            trim_seq(old(self).directory_input@).len() > 0 && exists ==> r is None && (*final(self)
                == App { message: final(self).message, ..*old(self) }) && final(self).message is Some
                && final(self).message->0@ == "Directory already exists"@,
            trim_seq(old(self).directory_input@).len() > 0 && !exists ==> {
                &&& r is Some
                &&& r->0@ == path_join_seq(
                    current_dir_seq(*old(self)),
                    trim_seq(old(self).directory_input@),
                )
                &&& final(self).focus == Focus::List
                &&& final(self).message is Some
                &&& final(self).message->0@ == "Created directory: "@ + trim_seq(
                    old(self).directory_input@,
                )
            },
    {
        let name = trim(self.directory_input.as_str());
        if name.as_str().is_empty() {
            self.message = Some(String::from_str("Directory name cannot be empty"));
            return None;
        }
        if exists {
            self.message = Some(String::from_str("Directory already exists"));
            return None;
        }
        let dir = self.current_dir();
        let path = path_join(dir.as_str(), name.as_str());
        self.exit_create_directory();
        let mut msg = String::from_str("Created directory: ");
        msg.append(name.as_str());
        self.message = Some(msg);
        Some(path)
    }

    // --- template picker and note creation ---
    pub fn enter_template_picker(&mut self)
        ensures
            (*final(self) == App {
                template_picker_active: true,
                template_picker_selected: 0,
                ..*old(self)
            }),
    {
        self.template_picker_active = true;
        self.template_picker_selected = 0;
    }

    pub fn exit_template_picker(&mut self)
        ensures
            (*final(self) == App { template_picker_active: false, ..*old(self) }),
    {
        self.template_picker_active = false;
    }

    pub fn template_picker_move_up(&mut self)
        ensures
            (*final(self) == App {
                template_picker_selected: final(self).template_picker_selected,
                ..*old(self)
            }),
            final(self).template_picker_selected as int == (if old(self).template_picker_selected
                > 0 {
                old(self).template_picker_selected - 1
            } else {
                0int
            }),
    {
        if self.template_picker_selected > 0 {
            self.template_picker_selected = self.template_picker_selected - 1;
        }
    }

    pub fn template_picker_move_down(&mut self)
        requires
            old(self).wf(),
        ensures
            final(self).wf(),
            (*final(self) == App {
                template_picker_selected: final(self).template_picker_selected,
                ..*old(self)
            }),
            final(self).template_picker_selected as int == (if old(self).template_picker_selected
                < 2 {
                old(self).template_picker_selected + 1
            } else {
                old(self).template_picker_selected as int
            }),
    {
        if self.template_picker_selected < 2 {
            self.template_picker_selected = self.template_picker_selected + 1;
        }
    }

    /// The template under the picker's cursor.
    pub fn get_selected_template(&self) -> (r: Template)
        requires
            self.wf(),
        ensures
            r == crate::templates::template_at(self.template_picker_selected as int),
    {
        if self.template_picker_selected == 0 {
            Template::Empty
        } else if self.template_picker_selected == 1 {
            Template::DailyNote
        } else {
            Template::Meeting
        }
    }

    /// Confirm a new note with a template. The create prompt and picker
    /// close either way. An empty name quietly does nothing more; a
    /// collision (checked by the caller) leaves a message; otherwise the
    /// caller writes the returned content at the returned path, re-lists
    /// and opens it.
    pub fn create_note_with_template(&mut self, template: Template, date: &str, exists: bool) -> (r:
        Option<(String, String)>)
        requires
            old(self).wf(),
        ensures
            final(self).wf(),
            final(self).template_picker_active == false,
            final(self).mode == Mode::Normal,
            final(self).create_filename@.len() == 0,
            trim_seq(old(self).create_filename@).len() == 0 ==> r is None,
            trim_seq(old(self).create_filename@).len() > 0 && exists ==> r is None && final(self).message is Some && final(self).message->0@ == "File already exists"@,
            trim_seq(old(self).create_filename@).len() > 0 && !exists ==> {
                &&& r is Some
                &&& (r->0).0@ == path_join_seq(
                    current_dir_seq(*old(self)),
                    ensure_md_seq(trim_seq(old(self).create_filename@)),
                )
                &&& (r->0).1@ == template_content(template, date@)
                &&& final(self).message is None
            },
    {
        let name = trim(self.create_filename.as_str());
        let r = if name.as_str().is_empty() {
            None
        } else if exists {
            self.message = Some(String::from_str("File already exists"));
            None
        } else {
            let full = ensure_md_suffix(name.as_str());
            let dir = self.current_dir();
            let path = path_join(dir.as_str(), full.as_str());
            let content = template.content(date);
            self.message = None;
            Some((path, content))
        };
        self.exit_create_mode();
        self.exit_template_picker();
        r
    }

    // --- daily note ---
    /// Where today's daily note lives: the journal folder and the file
    /// path for the given date. The caller creates the folder, writes
    /// `daily_note_header` when the file is missing, and opens it.
    pub fn daily_note_file(&self, date: &str) -> (r: (String, String))
        ensures
            r.0@ == path_join_seq(self.notes_dir@, trim_seq(self.config.daily_notes_folder@)),
            r.1@ == path_join_seq(r.0@, date@ + md_ext()),
    {
        let folder_name = trim(self.config.daily_notes_folder.as_str());
        let folder = path_join(self.notes_dir.as_str(), folder_name.as_str());
        let mut file = String::from_str(date);
        proof {
            reveal_strlit(".md");
            assert(".md"@ =~= md_ext());
        }
        file.append(".md");
        let path = path_join(folder.as_str(), file.as_str());
        (folder, path)
    }

    /// The heading a fresh daily note starts with.
    pub fn daily_note_header(date: &str) -> (r: String)
        ensures
            r@ == "# Daily Note: "@ + date@ + "\n\n"@,
    {
        let mut s = String::from_str("# Daily Note: ");
        s.append(date);
        s.append("\n\n");
        s
    }

    // --- task board ---
    /// Rebuild the unchecked-task board from the given documents.
    pub fn scan_tasks(&mut self, files: &Vec<ScannedFile>)
        requires
            old(self).wf(),
        ensures
            final(self).wf(),
            (*final(self) == App { tasks: final(self).tasks, task_selected: 0, ..*old(self) }),
            task_views(final(self).tasks@) == tasks_of_files(file_views(files@)),
    {
        self.tasks = scan_task_files(files);
        self.task_selected = 0;
    }

    pub fn enter_task_view(&mut self, files: &Vec<ScannedFile>)
        requires
            old(self).wf(),
        ensures
            final(self).wf(),
            (*final(self) == App {
                task_view_active: true,
                focus: Focus::TaskView,
                tasks: final(self).tasks,
                task_selected: 0,
                ..*old(self)
            }),
            task_views(final(self).tasks@) == tasks_of_files(file_views(files@)),
    {
        self.task_view_active = true;
        self.focus = Focus::TaskView;
        self.scan_tasks(files);
    }

    pub fn exit_task_view(&mut self)
        ensures
            (*final(self) == App { task_view_active: false, focus: Focus::List, ..*old(self) }),
    {
        self.task_view_active = false;
        self.focus = Focus::List;
    }

    pub fn task_move_up(&mut self)
        ensures
            (*final(self) == App { task_selected: final(self).task_selected, ..*old(self) }),
            final(self).task_selected as int == (if old(self).task_selected > 0 {
                old(self).task_selected - 1
            } else {
                0int
            }),
    {
        if self.task_selected > 0 {
            self.task_selected = self.task_selected - 1;
        }
    }

    pub fn task_move_down(&mut self)
        ensures
            (*final(self) == App { task_selected: final(self).task_selected, ..*old(self) }),
            final(self).task_selected as int == (if old(self).task_selected < usize::MAX && old(self).task_selected + 1 < old(self).tasks@.len() {
                old(self).task_selected + 1
            } else {
                old(self).task_selected as int
            }),
    {
        if self.task_selected < usize::MAX && self.task_selected + 1 < self.tasks.len() {
            self.task_selected = self.task_selected + 1;
        }
    }

    /// The task under the cursor: the board closes and the caller opens
    /// the returned path at the returned line.
    pub fn open_selected_task(&mut self) -> (r: Option<(String, usize)>)
        requires
            old(self).wf(),
        ensures
            final(self).wf(),
            (old(self).task_selected as int) >= old(self).tasks@.len() ==> r is None && *final(self) == *old(self),
            (old(self).task_selected as int) < old(self).tasks@.len() ==> {
                &&& r is Some
                &&& (r->0).0@ == old(self).tasks@[old(self).task_selected as int].path@
                &&& (r->0).1 == old(self).tasks@[old(self).task_selected as int].line_number
                &&& (*final(self) == App {
                    task_view_active: false,
                    focus: Focus::List,
                    ..*old(self)
                })
            },
    {
        if self.task_selected >= self.tasks.len() {
            return None;
        }
        let path = String::from_str(self.tasks[self.task_selected].path.as_str());
        let line = self.tasks[self.task_selected].line_number;
        self.exit_task_view();
        Some((path, line))
    }

    // --- tag explorer ---
    /// Rebuild the sorted set of tags over the given documents.
    pub fn scan_all_tags(&mut self, files: &Vec<ScannedFile>)
        requires
            old(self).wf(),
        ensures
            final(self).wf(),
            (*final(self) == App {
                all_tags: final(self).all_tags,
                tag_selected: 0,
                tag_files: final(self).tag_files,
                tag_file_selected: 0,
                ..*old(self)
            }),
            final(self).tag_files@.len() == 0,
            sorted_strs(final(self).all_tags@),
            crate::text::unique_strs(final(self).all_tags@),
            forall|x: Seq<char>|
                #[trigger] seq_contains_view(final(self).all_tags@, x) <==> exists|k: int|
                    0 <= k < files@.len() && ends_with_seq(files@[k].path@, md_ext())
                        && crate::scan::tags_of(files@[k].content@).contains(x),
    {
        self.all_tags = scan_all_tag_names(files);
        self.tag_selected = 0;
        self.tag_files = Vec::new();
        self.tag_file_selected = 0;
    }

    pub fn enter_tag_explorer(&mut self, files: &Vec<ScannedFile>)
        requires
            old(self).wf(),
        ensures
            final(self).wf(),
            final(self).tag_explorer_active == true,
            final(self).focus == Focus::TagExplorer,
            final(self).tag_explorer_view == TagExplorerView::TagList,
            sorted_strs(final(self).all_tags@),
            crate::text::unique_strs(final(self).all_tags@),
            forall|x: Seq<char>|
                #[trigger] seq_contains_view(final(self).all_tags@, x) <==> exists|k: int|
                    0 <= k < files@.len() && ends_with_seq(files@[k].path@, md_ext())
                        && crate::scan::tags_of(files@[k].content@).contains(x),
    {
        self.tag_explorer_active = true;
        self.tag_explorer_view = TagExplorerView::TagList;
        self.focus = Focus::TagExplorer;
        self.scan_all_tags(files);
    }

    pub fn exit_tag_explorer(&mut self)
        ensures
            (*final(self) == App {
                tag_explorer_active: false,
                focus: Focus::List,
                ..*old(self)
            }),
    {
        self.tag_explorer_active = false;
        self.focus = Focus::List;
    }

    pub fn tag_list_move_up(&mut self)
        ensures
            (*final(self) == App { tag_selected: final(self).tag_selected, ..*old(self) }),
            final(self).tag_selected as int == (if old(self).tag_selected > 0 {
                old(self).tag_selected - 1
            } else {
                0int
            }),
    {
        if self.tag_selected > 0 {
            self.tag_selected = self.tag_selected - 1;
        }
    }

    pub fn tag_list_move_down(&mut self)
        ensures
            (*final(self) == App { tag_selected: final(self).tag_selected, ..*old(self) }),
            final(self).tag_selected as int == (if old(self).tag_selected < usize::MAX && old(self).tag_selected + 1 < old(self).all_tags@.len() {
                old(self).tag_selected + 1
            } else {
                old(self).tag_selected as int
            }),
    {
        if self.tag_selected < usize::MAX && self.tag_selected + 1 < self.all_tags.len() {
            self.tag_selected = self.tag_selected + 1;
        }
    }

    pub fn tag_file_move_up(&mut self)
        ensures
            (*final(self) == App { tag_file_selected: final(self).tag_file_selected, ..*old(self) }),
            final(self).tag_file_selected as int == (if old(self).tag_file_selected > 0 {
                old(self).tag_file_selected - 1
            } else {
                0int
            }),
    {
        if self.tag_file_selected > 0 {
            self.tag_file_selected = self.tag_file_selected - 1;
        }
    }

    pub fn tag_file_move_down(&mut self)
        ensures
            (*final(self) == App { tag_file_selected: final(self).tag_file_selected, ..*old(self) }),
            final(self).tag_file_selected as int == (if old(self).tag_file_selected < usize::MAX
                && old(self).tag_file_selected + 1 < old(self).tag_files@.len() {
                old(self).tag_file_selected + 1
            } else {
                old(self).tag_file_selected as int
            }),
    {
        if self.tag_file_selected < usize::MAX && self.tag_file_selected + 1
            < self.tag_files.len() {
            self.tag_file_selected = self.tag_file_selected + 1;
        }
    }

    /// Load the sorted list of documents carrying the selected tag.
    pub fn load_files_for_selected_tag(&mut self, files: &Vec<ScannedFile>)
        requires
            old(self).wf(),
        ensures
            final(self).wf(),
            (old(self).tag_selected as int) >= old(self).all_tags@.len() ==> *final(self) == *old(self),
            (old(self).tag_selected as int) < old(self).all_tags@.len() ==> {
                &&& (*final(self) == App {
                    tag_files: final(self).tag_files,
                    tag_file_selected: 0,
                    tag_explorer_view: TagExplorerView::FileList,
                    ..*old(self)
                })
                &&& sorted_strs(final(self).tag_files@)
                &&& views_of(final(self).tag_files@).to_multiset() == paths_containing(
                    file_views(files@),
                    seq!['#'] + old(self).all_tags@[old(self).tag_selected as int]@,
                    None,
                ).to_multiset()
            },
    {
        if self.tag_selected >= self.all_tags.len() {
            return ;
        }
        let mut pattern = String::from_str("#");
        pattern.append(self.all_tags[self.tag_selected].as_str());
        proof {
            reveal_strlit("#");
            assert(pattern@ =~= seq!['#']
                + self.all_tags@[self.tag_selected as int]@);
        }
        self.tag_files = find_paths_containing(files, pattern.as_str(), None);
        self.tag_file_selected = 0;
        self.tag_explorer_view = TagExplorerView::FileList;
    }

    /// The document under the tag explorer's file cursor: the explorer
    /// closes and the caller opens the returned path.
    pub fn open_selected_tag_file(&mut self) -> (r: Option<String>)
        requires
            old(self).wf(),
        ensures
            final(self).wf(),
            (old(self).tag_file_selected as int) >= old(self).tag_files@.len() ==> r is None
                && *final(self) == *old(self),
            (old(self).tag_file_selected as int) < old(self).tag_files@.len() ==> r is Some
                && r->0@ == old(self).tag_files@[old(self).tag_file_selected as int]@ && (*final(self) == App { tag_explorer_active: false, focus: Focus::List, ..*old(self) }),
    {
        if self.tag_file_selected >= self.tag_files.len() {
            return None;
        }
        let path = String::from_str(self.tag_files[self.tag_file_selected].as_str());
        self.exit_tag_explorer();
        Some(path)
    }

    // --- backlinks ---
    /// Rebuild the backlink list: the sorted paths of every other
    /// markdown document whose body contains the focused document's
    /// `[[name]]` link token; empty for a scratch buffer.
    pub fn scan_backlinks(&mut self, files: &Vec<ScannedFile>)
        requires
            old(self).wf(),
        ensures
            final(self).wf(),
            (*final(self) == App {
                backlinks: final(self).backlinks,
                backlinks_selected: 0,
                ..*old(self)
            }),
            old(self).buffers@[old(self).focused_index_spec()].path is None ==> final(self).backlinks@.len() == 0,
            old(self).buffers@[old(self).focused_index_spec()].path is Some ==> {
                &&& sorted_strs(final(self).backlinks@)
                &&& views_of(final(self).backlinks@).to_multiset() == paths_containing(
                    file_views(files@),
                    seq!['[', '['] + stem_seq(
                        after_last(
                            old(self).buffers@[old(self).focused_index_spec()].path->0@,
                            '/',
                        ),
                    ) + seq![']', ']'],
                    Some(old(self).buffers@[old(self).focused_index_spec()].path->0@),
                ).to_multiset()
            },
    {
        self.backlinks_selected = 0;
        let current = self.editing_path();
        match current {
            None => {
                self.backlinks = Vec::new();
            },
            Some(p) => {
                let name = file_name_of(p.as_str());
                let stem = file_stem_of(name.as_str());
                let mut pattern = String::from_str("[[");
                pattern.append(stem.as_str());
                pattern.append("]]");
                proof {
                    reveal_strlit("[[");
                    reveal_strlit("]]");
                    assert(pattern@ =~= seq!['[', '['] + stem@ + seq![']', ']']);
                }
                self.backlinks = find_paths_containing(files, pattern.as_str(), Some(&p));
            },
        }
    }

    pub fn backlinks_move_up(&mut self)
        ensures
            (*final(self) == App {
                backlinks_selected: final(self).backlinks_selected,
                ..*old(self)
            }),
            final(self).backlinks_selected as int == (if old(self).backlinks_selected > 0 {
                old(self).backlinks_selected - 1
            } else {
                0int
            }),
    {
        if self.backlinks_selected > 0 {
            self.backlinks_selected = self.backlinks_selected - 1;
        }
    }

    pub fn backlinks_move_down(&mut self)
        ensures
            (*final(self) == App {
                backlinks_selected: final(self).backlinks_selected,
                ..*old(self)
            }),
            final(self).backlinks_selected as int == (if old(self).backlinks_selected < usize::MAX
                && old(self).backlinks_selected + 1 < old(self).backlinks@.len() {
                old(self).backlinks_selected + 1
            } else {
                old(self).backlinks_selected as int
            }),
    {
        if self.backlinks_selected < usize::MAX && self.backlinks_selected + 1
            < self.backlinks.len() {
            self.backlinks_selected = self.backlinks_selected + 1;
        }
    }

    /// The backlink under the cursor, for the caller to open.
    pub fn open_selected_backlink(&self) -> (r: Option<String>)
        ensures
            match r {
                Some(p) => (self.backlinks_selected as int) < self.backlinks@.len() && p@
                    == self.backlinks@[self.backlinks_selected as int]@,
                None => self.backlinks@.len() <= self.backlinks_selected as int,
            },
    {
        if self.backlinks_selected < self.backlinks.len() {
            Some(String::from_str(self.backlinks[self.backlinks_selected].as_str()))
        } else {
            None
        }
    }

    // --- wiki links ---
    /// Where a `[[link]]` resolves: first next to the document being
    /// edited, then in the browsed directory. The caller opens the first
    /// that exists, or creates the fallback empty.
    pub fn wiki_link_candidates(&self, link: &str) -> (r: (String, String))
        requires
            self.wf(),
        ensures
            r.1@ == path_join_seq(current_dir_seq(*self), ensure_md_seq(link@)),
            (match self.buffers@[self.focused_index_spec()].path {
                Some(p) => if before_last(p@, '/').len() > 0 {
                    r.0@ == path_join_seq(before_last(p@, '/'), ensure_md_seq(link@))
                } else {
                    r.0@ == r.1@
                },
                None => r.0@ == r.1@,
            }),
    {
        let name = ensure_md_suffix(link);
        let dir = self.current_dir();
        let fallback = path_join(dir.as_str(), name.as_str());
        let primary = match self.editing_path() {
            Some(p) => {
                let parent = parent_of(p.as_str());
                if parent.as_str().is_empty() {
                    String::from_str(fallback.as_str())
                } else {
                    path_join(parent.as_str(), name.as_str())
                }
            },
            None => String::from_str(fallback.as_str()),
        };
        (primary, fallback)
    }

    // --- editor helpers ---
    /// Insert the given date text at the focused buffer's cursor; the
    /// cursor ends just after it.
    pub fn insert_date_at_cursor(&mut self, date: &str)
        requires
            old(self).wf(),
        ensures
            final(self).wf(),
            (*final(self) == App { buffers: final(self).buffers, ..*old(self) }),
            final(self).buffers@.len() == old(self).buffers@.len(),
            forall|j: int|
                0 <= j < old(self).buffers@.len() && j != old(self).focused_index_spec() ==> final(self).buffers@[j] == old(self).buffers@[j],
            ({
                let i = old(self).focused_index_spec();
                let b = old(self).buffers@[i];
                let line = b.lines@[b.cursor_row as int]@;
                &&& views_of(final(self).buffers@[i].lines@) == views_of(b.lines@).update(
                    b.cursor_row as int,
                    line.take(b.cursor_col as int) + date@ + line.skip(b.cursor_col as int),
                )
                &&& final(self).buffers@[i].cursor_row == b.cursor_row
                &&& final(self).buffers@[i].cursor_col == b.cursor_col + date@.len()
                &&& final(self).buffers@[i].path == b.path
            }),
    {
        let idx = self.focused_buffer_index();
        let b = &self.buffers[idx];
        let row = b.cursor_row;
        let col = b.cursor_col;
        let line = &b.lines[row];
        let line_len = vstd::string::StrSliceExecFns::unicode_len(line.as_str());
        let mut new_line = String::from_str(
            vstd::string::StrSliceExecFns::substring_char(line.as_str(), 0, col),
        );
        new_line.append(date);
        new_line.append(vstd::string::StrSliceExecFns::substring_char(line.as_str(), col, line_len));
        let date_len = vstd::string::StrSliceExecFns::unicode_len(date);
        let nl_len = vstd::string::StrSliceExecFns::unicode_len(new_line.as_str());
        proof {
            assert(nl_len == col + date@.len() + (line_len - col));
            assert(col + date_len <= nl_len);
        }
        let bm = &mut self.buffers[idx];
        bm.lines.remove(row);
        bm.lines.insert(row, new_line);
        bm.cursor_col = col + date_len;
        proof {
            let i = old(self).focused_index_spec();
            let ob = old(self).buffers@[i];
            let line0 = ob.lines@[ob.cursor_row as int]@;
            assert(self.buffers@[i].lines@ =~= ob.lines@.update(
                ob.cursor_row as int,
                self.buffers@[i].lines@[ob.cursor_row as int],
            ));
            assert(views_of(self.buffers@[i].lines@) =~= views_of(ob.lines@).update(
                ob.cursor_row as int,
                line0.take(ob.cursor_col as int) + date@ + line0.skip(ob.cursor_col as int),
            ));
        }
    }

    /// What the preview pane shows: the focused buffer's text while
    /// editing, else the highlighted entry's cached body.
    pub fn get_preview_content(&self) -> (r: String)
        requires
            self.wf(),
        ensures
            self.focus == Focus::Editor ==> r@
                == self.buffers@[self.focused_index_spec()].content(),
            self.focus != Focus::Editor && has_selected(*self) ==> r@ == sel_entry(*self).content@,
            self.focus != Focus::Editor && !has_selected(*self) ==> r@.len() == 0,
    {
        if matches!(self.focus, Focus::Editor) {
            let b = self.focused_buffer();
            return crate::text::join_lines(&b.lines);
        }
        if self.selected < self.filtered_notes.len() {
            String::from_str(self.filtered_notes[self.selected].content.as_str())
        } else {
            String::new()
        }
    }

    /// The placeholder shown when an entry's body could not be read.
    pub fn get_preview_placeholder(&self) -> (r: Option<String>)
        requires
            self.wf(),
        ensures
            match r {
                Some(m) => self.focus != Focus::Editor && has_selected(*self) && sel_entry(
                    *self,
                ).content@.len() == 0 && sel_entry(*self).display@.len() > 0 && m@
                    == "(Preview unavailable: file unreadable)"@,
                None => self.focus == Focus::Editor || !has_selected(*self) || sel_entry(
                    *self,
                ).content@.len() > 0 || sel_entry(*self).display@.len() == 0,
            },
    {
        if matches!(self.focus, Focus::Editor) {
            return None;
        }
        if self.selected >= self.filtered_notes.len() {
            return None;
        }
        let e = &self.filtered_notes[self.selected];
        if e.content.as_str().is_empty() && !e.display.as_str().is_empty() {
            Some(String::from_str("(Preview unavailable: file unreadable)"))
        } else {
            None
        }
    }

    /// Leave the editor for the browser; everything saves first, so the
    /// caller performs the returned writes.
    pub fn focus_list(&mut self) -> (r: (Vec<FileWrite>, bool))
        requires
            old(self).wf(),
        ensures
            final(self).wf(),
            write_views(r.0@) == writes_of(old(self).buffers@),
            r.1 == any_config_write(old(self).buffers@),
            (*final(self) == App { editor_dirty: false, focus: Focus::List, ..*old(self) }),
    {
        let saves = self.save_all_buffers();
        self.focus = Focus::List;
        saves
    }

    /// Save the current editor content (same writes as a full save).
    pub fn save_editor(&mut self) -> (r: (Vec<FileWrite>, bool))
        requires
            old(self).wf(),
        ensures
            final(self).wf(),
            write_views(r.0@) == writes_of(old(self).buffers@),
            r.1 == any_config_write(old(self).buffers@),
            (*final(self) == App { editor_dirty: false, ..*old(self) }),
    {
        self.save_all_buffers()
    }

    // --- external tools ---
    /// The markdown file export runs on: the focused buffer's backing
    /// path. Anything else leaves a message instead.
    pub fn export_target(&mut self) -> (r: Option<String>)
        requires
            old(self).wf(),
        ensures
            final(self).wf(),
            ({
                let b = old(self).buffers@[old(self).focused_index_spec()];
                match b.path {
                    Some(p) => if ends_with_seq(p@, md_ext()) {
                        r is Some && r->0@ == p@ && *final(self) == *old(self)
                    } else {
                        r is None && (*final(self) == App {
                            message: final(self).message,
                            ..*old(self)
                        }) && final(self).message is Some && final(self).message->0@
                            == "No Markdown file open"@
                    },
                    None => r is None && (*final(self) == App {
                        message: final(self).message,
                        ..*old(self)
                    }) && final(self).message is Some && final(self).message->0@
                        == "No Markdown file open"@,
                }
            }),
    {
        let target = match self.editing_path() {
            Some(p) => {
                if is_md_name(p.as_str()) {
                    Some(p)
                } else {
                    None
                }
            },
            None => None,
        };
        match target {
            Some(p) => Some(p),
            None => {
                self.message = Some(String::from_str("No Markdown file open"));
                None
            },
        }
    }

    /// Record the outcome of an export run.
    pub fn note_export_result(&mut self, outcome: ToolOutcome, output_path: &str)
        ensures
            (*final(self) == App { message: final(self).message, ..*old(self) }),
            final(self).message is Some,
            outcome == ToolOutcome::Success ==> final(self).message->0@ == "Exported to "@
                + output_path@,
            outcome == ToolOutcome::Failed ==> final(self).message->0@ == "Pandoc failed"@,
            outcome == ToolOutcome::Missing ==> final(self).message->0@
                == "Pandoc not found - install pandoc"@,
    {
        self.message = Some(
            match outcome {
                ToolOutcome::Success => {
                    let mut m = String::from_str("Exported to ");
                    m.append(output_path);
                    m
                },
                ToolOutcome::Failed => String::from_str("Pandoc failed"),
                ToolOutcome::Missing => String::from_str("Pandoc not found - install pandoc"),
            },
        );
    }

    /// The path a confirmed note creation would write, for the caller's
    /// collision check; `None` while the trimmed name is empty.
    pub fn create_note_target(&self) -> (r: Option<String>)
        ensures
            trim_seq(self.create_filename@).len() == 0 ==> r is None,
            trim_seq(self.create_filename@).len() > 0 ==> r is Some && r->0@ == path_join_seq(
                current_dir_seq(*self),
                ensure_md_seq(trim_seq(self.create_filename@)),
            ),
    {
        let name = trim(self.create_filename.as_str());
        if name.as_str().is_empty() {
            return None;
        }
        let full = ensure_md_suffix(name.as_str());
        let dir = self.current_dir();
        Some(path_join(dir.as_str(), full.as_str()))
    }

    /// Record that a file-system operation the caller ran has failed;
    /// every such failure surfaces as a status message.
    pub fn note_fs_failure(&mut self)
        ensures
            (*final(self) == App { message: final(self).message, ..*old(self) }),
            final(self).message is Some && final(self).message->0@ == "File operation failed"@,
    {
        self.message = Some(String::from_str("File operation failed"));
    }

    /// Record that a version-control push ran.
    pub fn note_git_push_done(&mut self)
        ensures
            (*final(self) == App { message: final(self).message, ..*old(self) }),
            final(self).message is Some && final(self).message->0@ == "Git push done"@,
    {
        self.message = Some(String::from_str("Git push done"));
    }
}

/// Where an export lands: the source path with its markdown extension
/// replaced by `.pdf`.
pub fn pdf_output_path(p: &str) -> (r: String)
    requires
        ends_with_seq(p@, md_ext()),
    ensures
        r@ == p@.take(p@.len() - 3) + ".pdf"@,
{
    let p_len = p.unicode_len();
    let mut out = String::from_str(p.substring_char(0, p_len - 3));
    out.append(".pdf");
    out
}

} // verus!
