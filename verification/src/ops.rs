//! Interaction operations: entering and leaving overlays, moving
//! selections, editing overlay input strings, filtering, and directory
//! navigation. Every operation says exactly which fields it touches.

use vstd::prelude::*;
use vstd::string::StringExecFns;

use crate::entry::NoteEntry;
use crate::entry::entry_views;
use crate::entry::duplicate_entries;
use crate::filter::filter_notes;
use crate::filter::filter_telescope_notes;
use crate::filter::get_match_indices;
use crate::filter::get_telescope_match_indices;
use crate::filter::indices_of;
use crate::filter::sorted_unique_u32;
use crate::state::all_actions;
use crate::state::action_label_lower;
use crate::state::App;
use crate::state::CommandAction;
use crate::state::Focus;
use crate::state::Mode;
use crate::state::sel_ok;
use crate::text::contains_seq;
use crate::text::lower_of;
use crate::text::lowercase;
use crate::text::pop_char;
use crate::text::push_char;
use crate::text::str_contains;
use crate::text::trim_seq;

verus! {

/// A selection index clamped to a list that may have shrunk: the old
/// value when still inside, else the last index, else zero.
pub open spec fn clamp_sel(sel: usize, len: nat) -> int {
    if len == 0 {
        0
    } else if (sel as nat) < len {
        sel as int
    } else {
        len - 1
    }
}

/// The palette entries whose lowercase label contains `q`.
pub open spec fn acts_matching(acts: Seq<CommandAction>, q: Seq<char>) -> Seq<CommandAction>
    decreases acts.len(),
{
    if acts.len() == 0 {
        Seq::empty()
    } else {
        acts_matching(acts.drop_last(), q) + if contains_seq(action_label_lower(acts.last()), q) {
            seq![acts.last()]
        } else {
            Seq::empty()
        }
    }
}

/// Whether a highlight-index list is what the matcher yields for this
/// display string and query.
pub open spec fn highlight_ok(display: Seq<char>, q: Seq<char>, v: Seq<u32>) -> bool {
    if q.len() == 0 || display.len() == 0 {
        v == Seq::<u32>::empty()
    } else if indices_of(display, q).0 {
        sorted_unique_u32(v) && (forall|x: u32|
            #[trigger] v.contains(x) <==> indices_of(display, q).1.contains(x))
    } else {
        v == indices_of(display, q).1
    }
}

/// As `highlight_ok`, but for the fuzzy finder, whose tag-sigil queries
/// suppress highlighting.
pub open spec fn tele_highlight_ok(display: Seq<char>, q: Seq<char>, v: Seq<u32>) -> bool {
    if q.len() == 0 || (q.len() > 0 && q[0] == '#') || display.len() == 0 {
        v == Seq::<u32>::empty()
    } else {
        highlight_ok(display, q, v)
    }
}

impl App {
    /// Clamp the browser selection to the filtered list.
    pub fn clamp_selection(&mut self)
        ensures
            final(self).selected as int == clamp_sel(
                old(self).selected,
                old(self).filtered_notes@.len(),
            ),
            (*final(self) == App { selected: final(self).selected, ..*old(self) }),
    {
        let n = self.filtered_notes.len();
        if n == 0 {
            self.selected = 0;
        } else if self.selected >= n {
            self.selected = n - 1;
        }
    }

    /// Recompute the filtered browser list and its highlight positions
    /// from the current query.
    pub fn apply_filter(&mut self)
        ensures
            (*final(self) == App {
                filtered_notes: final(self).filtered_notes,
                match_indices: final(self).match_indices,
                ..*old(self)
            }),
            old(self).search_query@.len() == 0 ==> entry_views(final(self).filtered_notes@)
                == entry_views(old(self).all_notes@),
            old(self).search_query@.len() > 0 ==> {
                &&& entry_views(final(self).filtered_notes@).to_multiset() == entry_views(
                    crate::filter::matching_entries(old(self).all_notes@, old(self).search_query@),
                ).to_multiset()
                &&& crate::filter::ranked_by_score(
                    final(self).filtered_notes@,
                    old(self).search_query@,
                )
            },
            final(self).match_indices@.len() == final(self).filtered_notes@.len(),
            forall|k: int|
                0 <= k < final(self).match_indices@.len() ==> highlight_ok(
                    final(self).filtered_notes@[k].display@,
                    old(self).search_query@,
                    final(self).match_indices@[k]@,
                ),
    {
        let filtered = if self.search_query.as_str().is_empty() {
            duplicate_entries(&self.all_notes)
        } else {
            filter_notes(&self.all_notes, self.search_query.as_str())
        };
        let n = filtered.len();
        let mut indices: Vec<Vec<u32>> = Vec::new();
        let mut i: usize = 0;
        while i < n
            invariant
                i <= n,
                n == filtered@.len(),
                indices@.len() == i,
                self == old(self),
                forall|k: int|
                    0 <= k < i ==> highlight_ok(
                        filtered@[k].display@,
                        self.search_query@,
                        indices@[k]@,
                    ),
            decreases n - i,
        {
            let v = get_match_indices(filtered[i].display.as_str(), self.search_query.as_str());
            indices.push(v);
            i = i + 1;
        }
        self.filtered_notes = filtered;
        self.match_indices = indices;
    }

    /// Recompute the fuzzy finder's filtered list, highlight positions,
    /// and clamp its selection.
    pub fn apply_telescope_filter(&mut self)
        ensures
            (*final(self) == App {
                telescope_filtered: final(self).telescope_filtered,
                telescope_match_indices: final(self).telescope_match_indices,
                telescope_selected: final(self).telescope_selected,
                ..*old(self)
            }),
            trim_seq(old(self).telescope_query@).len() == 0 ==> entry_views(
                final(self).telescope_filtered@,
            ) == entry_views(old(self).telescope_notes@),
            final(self).telescope_match_indices@.len() == final(self).telescope_filtered@.len(),
            forall|k: int|
                0 <= k < final(self).telescope_match_indices@.len() ==> tele_highlight_ok(
                    final(self).telescope_filtered@[k].display@,
                    old(self).telescope_query@,
                    final(self).telescope_match_indices@[k]@,
                ),
            final(self).telescope_selected as int == clamp_sel(
                old(self).telescope_selected,
                final(self).telescope_filtered@.len(),
            ),
            sel_ok(final(self).telescope_selected, final(self).telescope_filtered@.len()),
    {
        let filtered = filter_telescope_notes(&self.telescope_notes, self.telescope_query.as_str());
        let n = filtered.len();
        let mut indices: Vec<Vec<u32>> = Vec::new();
        let mut i: usize = 0;
        while i < n
            invariant
                i <= n,
                n == filtered@.len(),
                indices@.len() == i,
                self == old(self),
                forall|k: int|
                    0 <= k < i ==> tele_highlight_ok(
                        filtered@[k].display@,
                        self.telescope_query@,
                        indices@[k]@,
                    ),
            decreases n - i,
        {
            let v = get_telescope_match_indices(
                filtered[i].display.as_str(),
                self.telescope_query.as_str(),
            );
            indices.push(v);
            i = i + 1;
        }
        self.telescope_filtered = filtered;
        self.telescope_match_indices = indices;
        let len = self.telescope_filtered.len();
        if len == 0 {
            self.telescope_selected = 0;
        } else if self.telescope_selected >= len {
            self.telescope_selected = len - 1;
        }
    }

    /// Recompute the command palette's filtered actions; the selection
    /// returns to the top.
    pub fn apply_command_palette_filter(&mut self)
        ensures
            (*final(self) == App {
                command_palette_filtered: final(self).command_palette_filtered,
                command_palette_selected: 0,
                ..*old(self)
            }),
            final(self).command_palette_filtered@ == acts_matching(
                all_actions(),
                lower_of(old(self).command_palette_query@),
            ),
    {
        let q = lowercase(self.command_palette_query.as_str());
        let acts = CommandAction::all();
        let n = acts.len();
        let mut out: Vec<CommandAction> = Vec::new();
        proof {
            assert(acts@.take(0) =~= Seq::<CommandAction>::empty());
            assert(out@ =~= acts_matching(acts@.take(0), q@));
        }
        let mut i: usize = 0;
        while i < n
            invariant
                i <= n,
                n == acts@.len(),
                q@ == lower_of(old(self).command_palette_query@),
                self == old(self),
                acts@ == all_actions(),
                out@ =~= acts_matching(acts@.take(i as int), q@),
            decreases n - i,
        {
            let a = acts[i];
            if str_contains(a.label_lower(), q.as_str()) {
                out.push(a);
            }
            proof {
                assert(acts@.take(i + 1).drop_last() =~= acts@.take(i as int));
                assert(acts@.take(i + 1).last() == acts@[i as int]);
            }
            i = i + 1;
        }
        proof {
            assert(acts@.take(n as int) =~= acts@);
        }
        self.command_palette_filtered = out;
        self.command_palette_selected = 0;
    }

    // --- browser search mode ---
    pub fn enter_search_mode(&mut self)
        ensures
            (*final(self) == App {
                mode: Mode::Search,
                search_query: final(self).search_query,
                ..*old(self)
            }),
            final(self).search_query@.len() == 0,
    {
        self.mode = Mode::Search;
        self.search_query = String::new();
    }

    pub fn exit_search_mode(&mut self)
        requires
            old(self).wf(),
        ensures
            final(self).wf(),
            final(self).mode == Mode::Normal,
            final(self).search_query@.len() == 0,
            entry_views(final(self).filtered_notes@) == entry_views(final(self).all_notes@),
            (*final(self) == App {
                mode: Mode::Normal,
                search_query: final(self).search_query,
                filtered_notes: final(self).filtered_notes,
                match_indices: final(self).match_indices,
                selected: final(self).selected,
                ..*old(self)
            }),
    {
        self.mode = Mode::Normal;
        self.search_query = String::new();
        self.apply_filter();
        self.clamp_selection();
    }

    pub fn search_add_char(&mut self, c: char)
        requires
            old(self).wf(),
        ensures
            final(self).wf(),
            final(self).search_query@ == old(self).search_query@.push(c),
            final(self).selected == 0,
            (*final(self) == App {
                search_query: final(self).search_query,
                filtered_notes: final(self).filtered_notes,
                match_indices: final(self).match_indices,
                selected: 0,
                ..*old(self)
            }),
    {
        push_char(&mut self.search_query, c);
        self.apply_filter();
        self.selected = 0;
    }

    pub fn search_backspace(&mut self)
        requires
            old(self).wf(),
        ensures
            final(self).wf(),
            final(self).search_query@ == (if old(self).search_query@.len() > 0 {
                old(self).search_query@.drop_last()
            } else {
                old(self).search_query@
            }),
            (*final(self) == App {
                search_query: final(self).search_query,
                filtered_notes: final(self).filtered_notes,
                match_indices: final(self).match_indices,
                selected: final(self).selected,
                ..*old(self)
            }),
    {
        pop_char(&mut self.search_query);
        self.apply_filter();
        self.clamp_selection();
    }

    // --- browser create mode ---
    pub fn enter_create_mode(&mut self)
        ensures
            (*final(self) == App {
                mode: Mode::Create,
                create_filename: final(self).create_filename,
                ..*old(self)
            }),
            final(self).create_filename@.len() == 0,
    {
        self.mode = Mode::Create;
        self.create_filename = String::new();
    }

    pub fn exit_create_mode(&mut self)
        ensures
            (*final(self) == App {
                mode: Mode::Normal,
                create_filename: final(self).create_filename,
                ..*old(self)
            }),
            final(self).create_filename@.len() == 0,
    {
        self.mode = Mode::Normal;
        self.create_filename = String::new();
    }

    pub fn create_add_char(&mut self, c: char)
        ensures
            (*final(self) == App { create_filename: final(self).create_filename, ..*old(self) }),
            final(self).create_filename@ == old(self).create_filename@.push(c),
    {
        push_char(&mut self.create_filename, c);
    }

    pub fn create_backspace(&mut self)
        ensures
            (*final(self) == App { create_filename: final(self).create_filename, ..*old(self) }),
            final(self).create_filename@ == (if old(self).create_filename@.len() > 0 {
                old(self).create_filename@.drop_last()
            } else {
                old(self).create_filename@
            }),
    {
        pop_char(&mut self.create_filename);
    }

    // --- selections ---
    pub fn move_selection_up(&mut self)
        ensures
            (*final(self) == App { selected: final(self).selected, ..*old(self) }),
            final(self).selected as int == (if old(self).selected > 0 {
                old(self).selected - 1
            } else {
                0int
            }),
    {
        if self.selected > 0 {
            self.selected = self.selected - 1;
        }
    }

    pub fn move_selection_down(&mut self)
        ensures
            (*final(self) == App { selected: final(self).selected, ..*old(self) }),
            final(self).selected as int == (if old(self).selected < usize::MAX && old(
                self,
            ).selected + 1 < old(self).filtered_notes@.len() {
                old(self).selected + 1
            } else {
                old(self).selected as int
            }),
    {
        if self.selected < usize::MAX && self.selected + 1 < self.filtered_notes.len() {
            self.selected = self.selected + 1;
        }
    }

    /// The path of the highlighted browser entry.
    pub fn get_selected_path(&self) -> (r: Option<String>)
        ensures
            match r {
                Some(p) => (self.selected as int) < self.filtered_notes@.len() && p@
                    == self.filtered_notes@[self.selected as int].path@,
                None => self.filtered_notes@.len() <= self.selected as int,
            },
    {
        if self.selected < self.filtered_notes.len() {
            Some(String::from_str(self.filtered_notes[self.selected].path.as_str()))
        } else {
            None
        }
    }

    // --- zen ---
    pub fn toggle_zen_mode(&mut self)
        ensures
            (*final(self) == App { zen_mode: !old(self).zen_mode, ..*old(self) }),
    {
        self.zen_mode = !self.zen_mode;
    }

    // --- fuzzy finder (telescope) ---
    /// Open the fuzzy finder over the given recursive document set,
    /// with an empty query and the selection at the top.
    pub fn enter_telescope(&mut self, docs: Vec<NoteEntry>)
        requires
            old(self).wf(),
        ensures
            final(self).wf(),
            final(self).focus == Focus::Search,
            final(self).telescope_query@.len() == 0,
            final(self).telescope_selected == 0,
            crate::entry::sorted_entries(final(self).telescope_notes@),
            entry_views(final(self).telescope_notes@).to_multiset() == entry_views(
                docs@,
            ).to_multiset(),
            entry_views(final(self).telescope_filtered@) == entry_views(
                final(self).telescope_notes@,
            ),
            forall|k: int|
                0 <= k < final(self).telescope_match_indices@.len() ==> final(self).telescope_match_indices@[k]@ == Seq::<u32>::empty(),
            (*final(self) == App {
                focus: Focus::Search,
                telescope_notes: final(self).telescope_notes,
                telescope_filtered: final(self).telescope_filtered,
                telescope_query: final(self).telescope_query,
                telescope_selected: 0,
                telescope_match_indices: final(self).telescope_match_indices,
                ..*old(self)
            }),
    {
        broadcast use vstd::seq_lib::group_to_multiset_ensures;

        let mut docs = docs;
        let ghost orig_docs = docs@;
        let mut sorted: Vec<NoteEntry> = Vec::new();
        proof {
            assert(orig_docs.take(0) =~= Seq::<NoteEntry>::empty());
            assert(entry_views(sorted@).to_multiset() =~= entry_views(
                orig_docs.take(0),
            ).to_multiset());
        }
        let total = docs.len();
        let mut i: usize = 0;
        while i < total
            invariant
                i <= total,
                total == orig_docs.len(),
                docs@ =~= orig_docs.skip(i as int),
                crate::entry::sorted_entries(sorted@),
                entry_views(sorted@).to_multiset() == entry_views(
                    orig_docs.take(i as int),
                ).to_multiset(),
            decreases total - i,
        {
            broadcast use vstd::seq_lib::group_to_multiset_ensures;

            let e = docs.remove(0);
            proof {
                assert(orig_docs.skip(i as int)[0] == orig_docs[i as int]);
                assert(orig_docs.skip(i as int).remove(0) =~= orig_docs.skip(i + 1));
            }
            crate::entry::insert_entry_sorted(&mut sorted, e);
            proof {
                assert(orig_docs.take(i + 1).drop_last() =~= orig_docs.take(i as int));
                assert(orig_docs.take(i + 1).last() == orig_docs[i as int]);
                assert(entry_views(orig_docs.take(i + 1)) =~= entry_views(
                    orig_docs.take(i as int),
                ).push(crate::entry::entry_view(orig_docs[i as int])));
            }
            i = i + 1;
        }
        proof {
            assert(orig_docs.take(total as int) =~= orig_docs);
        }
        self.focus = Focus::Search;
        self.telescope_notes = sorted;
        self.telescope_query = String::new();
        self.telescope_selected = 0;
        self.apply_telescope_filter();
        proof {
            reveal_strlit("");
            assert(trim_seq(self.telescope_query@).len() == 0);
            assert forall|k: int|
                0 <= k < self.telescope_match_indices@.len() implies self.telescope_match_indices@[k]@
                == Seq::<u32>::empty() by {
                assert(tele_highlight_ok(
                    self.telescope_filtered@[k].display@,
                    self.telescope_query@,
                    self.telescope_match_indices@[k]@,
                ));
            }
        }
    }

    /// Leave the fuzzy finder: back to the editor when a buffer is
    /// open, else the browser.
    pub fn exit_telescope(&mut self)
        ensures
            (*final(self) == App { focus: final(self).focus, ..*old(self) }),
            final(self).focus == (if old(self).buffers@.len() > 0 {
                Focus::Editor
            } else {
                Focus::List
            }),
    {
        self.focus = if self.has_open_buffers() {
            Focus::Editor
        } else {
            Focus::List
        };
    }

    pub fn telescope_add_char(&mut self, c: char)
        requires
            old(self).wf(),
        ensures
            final(self).wf(),
            final(self).telescope_query@ == old(self).telescope_query@.push(c),
            final(self).telescope_selected == 0,
            (*final(self) == App {
                telescope_query: final(self).telescope_query,
                telescope_filtered: final(self).telescope_filtered,
                telescope_match_indices: final(self).telescope_match_indices,
                telescope_selected: 0,
                ..*old(self)
            }),
    {
        push_char(&mut self.telescope_query, c);
        self.apply_telescope_filter();
        self.telescope_selected = 0;
    }

    pub fn telescope_backspace(&mut self)
        requires
            old(self).wf(),
        ensures
            final(self).wf(),
            final(self).telescope_query@ == (if old(self).telescope_query@.len() > 0 {
                old(self).telescope_query@.drop_last()
            } else {
                old(self).telescope_query@
            }),
            (*final(self) == App {
                telescope_query: final(self).telescope_query,
                telescope_filtered: final(self).telescope_filtered,
                telescope_match_indices: final(self).telescope_match_indices,
                telescope_selected: final(self).telescope_selected,
                ..*old(self)
            }),
    {
        pop_char(&mut self.telescope_query);
        self.apply_telescope_filter();
        let len = self.telescope_filtered.len();
        let sel = if self.telescope_selected > 0 {
            self.telescope_selected - 1
        } else {
            0
        };
        self.telescope_selected = if len == 0 {
            0
        } else if sel < len - 1 {
            sel
        } else {
            len - 1
        };
    }

    pub fn telescope_move_up(&mut self)
        ensures
            (*final(self) == App { telescope_selected: final(self).telescope_selected, ..*old(self) }),
            final(self).telescope_selected as int == (if old(self).telescope_selected > 0 {
                old(self).telescope_selected - 1
            } else {
                0int
            }),
    {
        if self.telescope_selected > 0 {
            self.telescope_selected = self.telescope_selected - 1;
        }
    }

    pub fn telescope_move_down(&mut self)
        ensures
            (*final(self) == App { telescope_selected: final(self).telescope_selected, ..*old(self) }),
            final(self).telescope_selected as int == (if old(self).telescope_selected
                < usize::MAX && old(self).telescope_selected + 1 < old(
                self,
            ).telescope_filtered@.len() {
                old(self).telescope_selected + 1
            } else {
                old(self).telescope_selected as int
            }),
    {
        if self.telescope_selected < usize::MAX && self.telescope_selected + 1
            < self.telescope_filtered.len() {
            self.telescope_selected = self.telescope_selected + 1;
        }
    }

    /// The path of the highlighted fuzzy-finder result.
    pub fn get_telescope_selected_path(&self) -> (r: Option<String>)
        ensures
            match r {
                Some(p) => (self.telescope_selected as int) < self.telescope_filtered@.len() && p@
                    == self.telescope_filtered@[self.telescope_selected as int].path@,
                None => self.telescope_filtered@.len() <= self.telescope_selected as int,
            },
    {
        if self.telescope_selected < self.telescope_filtered.len() {
            Some(
                String::from_str(
                    self.telescope_filtered[self.telescope_selected].path.as_str(),
                ),
            )
        } else {
            None
        }
    }

    // --- command palette ---
    pub fn enter_command_palette(&mut self)
        requires
            old(self).wf(),
        ensures
            final(self).wf(),
            final(self).focus == Focus::CommandPalette,
            final(self).command_palette_query@.len() == 0,
            final(self).command_palette_filtered@ == all_actions(),
            final(self).command_palette_selected == 0,
            (*final(self) == App {
                focus: Focus::CommandPalette,
                command_palette_query: final(self).command_palette_query,
                command_palette_filtered: final(self).command_palette_filtered,
                command_palette_selected: 0,
                ..*old(self)
            }),
    {
        self.focus = Focus::CommandPalette;
        self.command_palette_query = String::new();
        self.command_palette_filtered = CommandAction::all();
        self.command_palette_selected = 0;
    }

    /// Leave the palette: back to the editor when a buffer is open,
    /// else the browser.
    pub fn exit_command_palette(&mut self)
        ensures
            (*final(self) == App { focus: final(self).focus, ..*old(self) }),
            final(self).focus == (if old(self).buffers@.len() > 0 {
                Focus::Editor
            } else {
                Focus::List
            }),
    {
        self.focus = if self.has_open_buffers() {
            Focus::Editor
        } else {
            Focus::List
        };
    }

    pub fn command_palette_add_char(&mut self, c: char)
        requires
            old(self).wf(),
        ensures
            final(self).wf(),
            final(self).command_palette_query@ == old(self).command_palette_query@.push(c),
            (*final(self) == App {
                command_palette_query: final(self).command_palette_query,
                command_palette_filtered: final(self).command_palette_filtered,
                command_palette_selected: 0,
                ..*old(self)
            }),
            final(self).command_palette_filtered@ == acts_matching(
                all_actions(),
                lower_of(final(self).command_palette_query@),
            ),
    {
        push_char(&mut self.command_palette_query, c);
        self.apply_command_palette_filter();
    }

    pub fn command_palette_backspace(&mut self)
        requires
            old(self).wf(),
        ensures
            final(self).wf(),
            final(self).command_palette_query@ == (if old(self).command_palette_query@.len() > 0 {
                old(self).command_palette_query@.drop_last()
            } else {
                old(self).command_palette_query@
            }),
            (*final(self) == App {
                command_palette_query: final(self).command_palette_query,
                command_palette_filtered: final(self).command_palette_filtered,
                command_palette_selected: 0,
                ..*old(self)
            }),
            final(self).command_palette_filtered@ == acts_matching(
                all_actions(),
                lower_of(final(self).command_palette_query@),
            ),
    {
        pop_char(&mut self.command_palette_query);
        self.apply_command_palette_filter();
    }

    pub fn command_palette_move_up(&mut self)
        ensures
            (*final(self) == App {
                command_palette_selected: final(self).command_palette_selected,
                ..*old(self)
            }),
            final(self).command_palette_selected as int == (if old(self).command_palette_selected
                > 0 {
                old(self).command_palette_selected - 1
            } else {
                0int
            }),
    {
        if self.command_palette_selected > 0 {
            self.command_palette_selected = self.command_palette_selected - 1;
        }
    }

    pub fn command_palette_move_down(&mut self)
        ensures
            (*final(self) == App {
                command_palette_selected: final(self).command_palette_selected,
                ..*old(self)
            }),
            final(self).command_palette_selected as int == (if old(
                self,
            ).command_palette_selected < usize::MAX && old(self).command_palette_selected + 1 < old(
                self,
            ).command_palette_filtered@.len() {
                old(self).command_palette_selected + 1
            } else {
                old(self).command_palette_selected as int
            }),
    {
        if self.command_palette_selected < usize::MAX && self.command_palette_selected + 1
            < self.command_palette_filtered.len() {
            self.command_palette_selected = self.command_palette_selected + 1;
        }
    }

    /// The palette action under the cursor.
    pub fn get_command_palette_action(&self) -> (r: Option<CommandAction>)
        ensures
            match r {
                Some(a) => (self.command_palette_selected as int)
                    < self.command_palette_filtered@.len() && a
                    == self.command_palette_filtered@[self.command_palette_selected as int],
                None => self.command_palette_filtered@.len()
                    <= self.command_palette_selected as int,
            },
    {
        if self.command_palette_selected < self.command_palette_filtered.len() {
            Some(self.command_palette_filtered[self.command_palette_selected])
        } else {
            None
        }
    }
}

} // verus!
