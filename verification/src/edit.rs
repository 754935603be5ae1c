//! Text editing on the focused buffer: character insertion, line
//! breaks, backspace, cursor motion, and bounded undo. The buffer is
//! the one model of the text; every edit first records a snapshot in
//! the buffer's history, which keeps at most the last `HISTORY_LIMIT`
//! edits (the oldest falls out).

use vstd::prelude::*;
use vstd::string::StrSliceExecFns;
use vstd::string::StringExecFns;

use crate::keys::KeyCode;
use crate::keys::KeyInput;
use crate::router::EditorMotion;
use crate::state::App;
use crate::state::EditSnapshot;
use crate::state::EditorBuffer;
use crate::state::HISTORY_LIMIT;
use crate::text::views_of;

verus! {

/// Copy a line list.
fn duplicate_lines(v: &Vec<String>) -> (r: Vec<String>)
    ensures
        views_of(r@) == views_of(v@),
{
    let n = v.len();
    let mut out: Vec<String> = Vec::new();
    let mut i: usize = 0;
    while i < n
        invariant
            i <= n,
            n == v@.len(),
            views_of(out@) =~= views_of(v@).take(i as int),
        decreases n - i,
    {
        out.push(String::from_str(v[i].as_str()));
        proof {
            assert(views_of(v@).take(i + 1) =~= views_of(v@).take(i as int).push(
                v@[i as int]@,
            ));
        }
        i = i + 1;
    }
    proof {
        assert(views_of(v@).take(n as int) =~= views_of(v@));
    }
    out
}

/// The history after one edit: the pre-edit state is its newest entry,
/// and when it was already full the oldest entry fell out.
pub open spec fn history_extended(pre: EditorBuffer, post_history: Seq<EditSnapshot>) -> bool {
    &&& post_history.len() >= 1
    &&& views_of(post_history.last().lines@) == views_of(pre.lines@)
    &&& post_history.last().cursor_row == pre.cursor_row
    &&& post_history.last().cursor_col == pre.cursor_col
    &&& if pre.history@.len() < HISTORY_LIMIT {
        post_history.drop_last() == pre.history@
    } else {
        post_history.drop_last() == pre.history@.skip(1)
    }
}

/// An edit touches only the focused buffer, and not its backing path.
pub open spec fn buffer_edit_frame(pre: App, post: App) -> bool {
    &&& post.buffers@.len() == pre.buffers@.len()
    &&& forall|j: int|
        0 <= j < pre.buffers@.len() && j != pre.focused_index_spec() ==> post.buffers@[j]
            == pre.buffers@[j]
    &&& (post == App { buffers: post.buffers, ..pre })
    &&& post.buffers@[pre.focused_index_spec()].path == pre.buffers@[pre.focused_index_spec()].path
}

/// What inserting `c` at the cursor does.
pub open spec fn insert_char_rel(pre: App, post: App, c: char) -> bool {
    let b = pre.buffers@[pre.focused_index_spec()];
    let nb = post.buffers@[pre.focused_index_spec()];
    let line = b.lines@[b.cursor_row as int]@;
    &&& buffer_edit_frame(pre, post)
    &&& views_of(nb.lines@) == views_of(b.lines@).update(
        b.cursor_row as int,
        line.take(b.cursor_col as int).push(c) + line.skip(b.cursor_col as int),
    )
    &&& nb.cursor_row == b.cursor_row
    &&& nb.cursor_col == b.cursor_col + 1
    &&& history_extended(b, nb.history@)
}

/// What breaking the line at the cursor does.
pub open spec fn newline_rel(pre: App, post: App) -> bool {
    let b = pre.buffers@[pre.focused_index_spec()];
    let nb = post.buffers@[pre.focused_index_spec()];
    let line = b.lines@[b.cursor_row as int]@;
    &&& buffer_edit_frame(pre, post)
    &&& views_of(nb.lines@) == views_of(b.lines@).update(
        b.cursor_row as int,
        line.take(b.cursor_col as int),
    ).insert(b.cursor_row + 1, line.skip(b.cursor_col as int))
    &&& nb.cursor_row == b.cursor_row + 1
    &&& nb.cursor_col == 0
    &&& history_extended(b, nb.history@)
}

/// What backspace at the cursor does: it eats the character before the
/// cursor, joins with the previous line at a line start, and does
/// nothing at the very beginning of the text.
pub open spec fn backspace_rel(pre: App, post: App) -> bool {
    let b = pre.buffers@[pre.focused_index_spec()];
    let nb = post.buffers@[pre.focused_index_spec()];
    let line = b.lines@[b.cursor_row as int]@;
    if b.cursor_col > 0 {
        &&& buffer_edit_frame(pre, post)
        &&& views_of(nb.lines@) == views_of(b.lines@).update(
            b.cursor_row as int,
            line.take(b.cursor_col - 1) + line.skip(b.cursor_col as int),
        )
        &&& nb.cursor_row == b.cursor_row
        &&& nb.cursor_col == b.cursor_col - 1
        &&& history_extended(b, nb.history@)
    } else if b.cursor_row > 0 {
        &&& buffer_edit_frame(pre, post)
        &&& views_of(nb.lines@) == views_of(b.lines@).update(
            b.cursor_row - 1,
            b.lines@[b.cursor_row - 1]@ + line,
        ).remove(b.cursor_row as int)
        &&& nb.cursor_row == b.cursor_row - 1
        &&& nb.cursor_col == b.lines@[b.cursor_row - 1]@.len()
        &&& history_extended(b, nb.history@)
    } else {
        post == pre
    }
}

impl App {
    /// Record the focused buffer's current state in its undo history,
    /// dropping the oldest entry when the bound is reached.
    fn push_history(&mut self)
        requires
            old(self).wf(),
        ensures
            final(self).wf(),
            (*final(self) == App { buffers: final(self).buffers, ..*old(self) }),
            final(self).buffers@.len() == old(self).buffers@.len(),
            forall|j: int|
                0 <= j < old(self).buffers@.len() && j != old(self).focused_index_spec() ==> final(self).buffers@[j] == old(self).buffers@[j],
            ({
                let b = old(self).buffers@[old(self).focused_index_spec()];
                let nb = final(self).buffers@[old(self).focused_index_spec()];
                &&& nb.path == b.path
                &&& nb.lines == b.lines
                &&& nb.cursor_row == b.cursor_row
                &&& nb.cursor_col == b.cursor_col
                &&& history_extended(b, nb.history@)
            }),
    {
        let idx = self.focused_buffer_index();
        let snap_lines = duplicate_lines(&self.buffers[idx].lines);
        let b = &mut self.buffers[idx];
        let snap = EditSnapshot {
            lines: snap_lines,
            cursor_row: b.cursor_row,
            cursor_col: b.cursor_col,
        };
        if b.history.len() >= HISTORY_LIMIT {
            b.history.remove(0);
        }
        b.history.push(snap);
        proof {
            let pre = old(self).buffers@[old(self).focused_index_spec()];
            let nb = self.buffers@[old(self).focused_index_spec()];
            if pre.history@.len() < HISTORY_LIMIT {
                assert(nb.history@.drop_last() =~= pre.history@);
            } else {
                assert(nb.history@.drop_last() =~= pre.history@.skip(1));
            }
            assert(views_of(nb.history@.last().lines@) == views_of(pre.lines@));
            assert(nb.history@.last().lines@.len() == pre.lines@.len());
            assert(views_of(nb.history@.last().lines@)[pre.cursor_row as int] == nb.history@.last().lines@[pre.cursor_row as int]@);
            assert(views_of(pre.lines@)[pre.cursor_row as int] == pre.lines@[pre.cursor_row as int]@);
            assert(nb.history@.last().wf());
            assert forall|j: int| 0 <= j < nb.history@.len() - 1 implies nb.history@[j].wf() by {
                if pre.history@.len() < HISTORY_LIMIT {
                    assert(nb.history@[j] == nb.history@.drop_last()[j]);
                    assert(nb.history@[j] == pre.history@[j]);
                } else {
                    assert(nb.history@[j] == nb.history@.drop_last()[j]);
                    assert(nb.history@[j] == pre.history@[j + 1]);
                }
            }
        }
    }

    /// Insert one character at the cursor.
    pub fn editor_insert_char(&mut self, c: char)
        requires
            old(self).wf(),
        ensures
            final(self).wf(),
            insert_char_rel(*old(self), *final(self), c),
    {
        self.push_history();
        let idx = self.focused_buffer_index();
        let b = &self.buffers[idx];
        let row = b.cursor_row;
        let col = b.cursor_col;
        let line = &b.lines[row];
        let line_len = line.as_str().unicode_len();
        let mut new_line = String::from_str(line.as_str().substring_char(0, col));
        crate::text::push_char(&mut new_line, c);
        new_line.append(line.as_str().substring_char(col, line_len));
        let nl_len = new_line.as_str().unicode_len();
        proof {
            assert(nl_len == col + 1 + (line_len - col));
        }
        let bm = &mut self.buffers[idx];
        bm.lines.remove(row);
        bm.lines.insert(row, new_line);
        bm.cursor_col = col + 1;
        proof {
            let i = old(self).focused_index_spec();
            let ob = old(self).buffers@[i];
            let line0 = ob.lines@[ob.cursor_row as int]@;
            assert(views_of(self.buffers@[i].lines@) =~= views_of(ob.lines@).update(
                ob.cursor_row as int,
                line0.take(ob.cursor_col as int).push(c) + line0.skip(ob.cursor_col as int),
            ));
        }
    }

    /// Break the current line at the cursor.
    pub fn editor_newline(&mut self)
        requires
            old(self).wf(),
        ensures
            final(self).wf(),
            newline_rel(*old(self), *final(self)),
    {
        self.push_history();
        let idx = self.focused_buffer_index();
        let b = &self.buffers[idx];
        let row = b.cursor_row;
        let col = b.cursor_col;
        let line = &b.lines[row];
        let line_len = line.as_str().unicode_len();
        let left = String::from_str(line.as_str().substring_char(0, col));
        let right = String::from_str(line.as_str().substring_char(col, line_len));
        let nlines = b.lines.len();
        proof {
            assert(row < nlines);
        }
        let bm = &mut self.buffers[idx];
        bm.lines.remove(row);
        bm.lines.insert(row, left);
        bm.lines.insert(row + 1, right);
        bm.cursor_row = row + 1;
        bm.cursor_col = 0;
        proof {
            let i = old(self).focused_index_spec();
            let ob = old(self).buffers@[i];
            let line0 = ob.lines@[ob.cursor_row as int]@;
            assert(views_of(self.buffers@[i].lines@) =~= views_of(ob.lines@).update(
                ob.cursor_row as int,
                line0.take(ob.cursor_col as int),
            ).insert(ob.cursor_row + 1, line0.skip(ob.cursor_col as int)));
        }
    }

    /// Delete backwards at the cursor: the previous character, or the
    /// line break when the cursor sits at a line start.
    pub fn editor_backspace(&mut self)
        requires
            old(self).wf(),
        ensures
            final(self).wf(),
            backspace_rel(*old(self), *final(self)),
    {
        let idx = self.focused_buffer_index();
        let row = self.buffers[idx].cursor_row;
        let col = self.buffers[idx].cursor_col;
        if col == 0 && row == 0 {
            return ;
        }
        self.push_history();
        let b = &self.buffers[idx];
        let line = &b.lines[row];
        let line_len = line.as_str().unicode_len();
        if col > 0 {
            let mut new_line = String::from_str(line.as_str().substring_char(0, col - 1));
            new_line.append(line.as_str().substring_char(col, line_len));
            let bm = &mut self.buffers[idx];
            bm.lines.remove(row);
            bm.lines.insert(row, new_line);
            bm.cursor_col = col - 1;
            proof {
                let i = old(self).focused_index_spec();
                let ob = old(self).buffers@[i];
                let line0 = ob.lines@[ob.cursor_row as int]@;
                assert(views_of(self.buffers@[i].lines@) =~= views_of(ob.lines@).update(
                    ob.cursor_row as int,
                    line0.take(ob.cursor_col - 1) + line0.skip(ob.cursor_col as int),
                ));
            }
        } else {
            let prev = &b.lines[row - 1];
            let prev_len = prev.as_str().unicode_len();
            let mut merged = String::from_str(prev.as_str());
            merged.append(line.as_str());
            let bm = &mut self.buffers[idx];
            bm.lines.remove(row);
            bm.lines.remove(row - 1);
            bm.lines.insert(row - 1, merged);
            bm.cursor_row = row - 1;
            bm.cursor_col = prev_len;
            proof {
                let i = old(self).focused_index_spec();
                let ob = old(self).buffers@[i];
                let line0 = ob.lines@[ob.cursor_row as int]@;
                assert(views_of(self.buffers@[i].lines@) =~= views_of(ob.lines@).update(
                    ob.cursor_row - 1,
                    ob.lines@[ob.cursor_row - 1]@ + line0,
                ).remove(ob.cursor_row as int));
            }
        }
    }

    /// Undo the focused buffer's last edit, restoring the newest
    /// history entry; with an empty history nothing happens.
    pub fn editor_undo(&mut self)
        requires
            old(self).wf(),
        ensures
            final(self).wf(),
            ({
                let i = old(self).focused_index_spec();
                let b = old(self).buffers@[i];
                if b.history@.len() == 0 {
                    *final(self) == *old(self)
                } else {
                    &&& buffer_edit_frame(*old(self), *final(self))
                    &&& final(self).buffers@[i].lines == b.history@.last().lines
                    &&& final(self).buffers@[i].cursor_row == b.history@.last().cursor_row
                    &&& final(self).buffers@[i].cursor_col == b.history@.last().cursor_col
                    &&& final(self).buffers@[i].history@ == b.history@.drop_last()
                }
            }),
    {
        let idx = self.focused_buffer_index();
        if self.buffers[idx].history.len() == 0 {
            return ;
        }
        let b = &mut self.buffers[idx];
        match b.history.pop() {
            Some(snap) => {
                b.lines = snap.lines;
                b.cursor_row = snap.cursor_row;
                b.cursor_col = snap.cursor_col;
            },
            None => {},
        }
        proof {
            let i = old(self).focused_index_spec();
            let ob = old(self).buffers@[i];
            if ob.history@.len() > 0 {
                assert(self.buffers@[i].history@ =~= ob.history@.drop_last());
                assert(ob.history@.last().wf());
                assert forall|j: int|
                    0 <= j < self.buffers@[i].history@.len() implies self.buffers@[
                    i
                ].history@[j].wf() by {
                    assert(self.buffers@[i].history@[j] == ob.history@[j]);
                }
            }
        }
    }

    /// Move the editor cursor. Page motions move no cursor here:
    /// scrolling the view is the renderer's concern.
    pub fn editor_move(&mut self, motion: EditorMotion)
        requires
            old(self).wf(),
        ensures
            final(self).wf(),
            (*final(self) == App { buffers: final(self).buffers, ..*old(self) }),
            final(self).buffers@.len() == old(self).buffers@.len(),
            forall|j: int|
                0 <= j < old(self).buffers@.len() && j != old(self).focused_index_spec() ==> final(self).buffers@[j] == old(self).buffers@[j],
            ({
                let i = old(self).focused_index_spec();
                let b = old(self).buffers@[i];
                let nb = final(self).buffers@[i];
                &&& nb.path == b.path
                &&& nb.lines == b.lines
                &&& nb.history == b.history
                &&& match motion {
                    EditorMotion::Back => nb.cursor_row == b.cursor_row && nb.cursor_col as int
                        == (if b.cursor_col > 0 {
                        b.cursor_col - 1
                    } else {
                        0int
                    }),
                    EditorMotion::Forward => nb.cursor_row == b.cursor_row && nb.cursor_col as int
                        == (if (b.cursor_col as int) < b.lines@[b.cursor_row as int]@.len() {
                        b.cursor_col + 1
                    } else {
                        b.cursor_col as int
                    }),
                    EditorMotion::Up => if b.cursor_row > 0 {
                        nb.cursor_row == b.cursor_row - 1 && nb.cursor_col as int == (
                        if (b.cursor_col as int) <= b.lines@[b.cursor_row - 1]@.len() {
                            b.cursor_col as int
                        } else {
                            b.lines@[b.cursor_row - 1]@.len() as int
                        })
                    } else {
                        nb.cursor_row == b.cursor_row && nb.cursor_col == b.cursor_col
                    },
                    EditorMotion::Down => if (b.cursor_row as int) + 1 < b.lines@.len() {
                        nb.cursor_row == b.cursor_row + 1 && nb.cursor_col as int == (
                        if (b.cursor_col as int) <= b.lines@[b.cursor_row + 1]@.len() {
                            b.cursor_col as int
                        } else {
                            b.lines@[b.cursor_row + 1]@.len() as int
                        })
                    } else {
                        nb.cursor_row == b.cursor_row && nb.cursor_col == b.cursor_col
                    },
                    EditorMotion::Head => nb.cursor_row == b.cursor_row && nb.cursor_col == 0,
                    EditorMotion::End => nb.cursor_row == b.cursor_row && nb.cursor_col as int
                        == b.lines@[b.cursor_row as int]@.len(),
                    EditorMotion::PageUp => nb.cursor_row == b.cursor_row && nb.cursor_col
                        == b.cursor_col,
                    EditorMotion::PageDown => nb.cursor_row == b.cursor_row && nb.cursor_col
                        == b.cursor_col,
                }
            }),
    {
        let idx = self.focused_buffer_index();
        let b = &mut self.buffers[idx];
        match motion {
            EditorMotion::Back => {
                if b.cursor_col > 0 {
                    b.cursor_col = b.cursor_col - 1;
                }
            },
            EditorMotion::Forward => {
                let len = b.lines[b.cursor_row].as_str().unicode_len();
                if b.cursor_col < len {
                    b.cursor_col = b.cursor_col + 1;
                }
            },
            EditorMotion::Up => {
                if b.cursor_row > 0 {
                    b.cursor_row = b.cursor_row - 1;
                    let len = b.lines[b.cursor_row].as_str().unicode_len();
                    if b.cursor_col > len {
                        b.cursor_col = len;
                    }
                }
            },
            EditorMotion::Down => {
                if b.cursor_row < b.lines.len() - 1 {
                    b.cursor_row = b.cursor_row + 1;
                    let len = b.lines[b.cursor_row].as_str().unicode_len();
                    if b.cursor_col > len {
                        b.cursor_col = len;
                    }
                }
            },
            EditorMotion::Head => {
                b.cursor_col = 0;
            },
            EditorMotion::End => {
                b.cursor_col = b.lines[b.cursor_row].as_str().unicode_len();
            },
            EditorMotion::PageUp => {},
            EditorMotion::PageDown => {},
        }
    }

    /// Route one insert-mode key into the focused buffer: printable
    /// characters insert, the line break and backspace edit, anything
    /// else does nothing.
    pub fn editor_insert_key(&mut self, key: KeyInput)
        requires
            old(self).wf(),
        ensures
            final(self).wf(),
            match key.code {
                KeyCode::Char(c) => if !key.ctrl && !key.alt {
                    insert_char_rel(*old(self), *final(self), c)
                } else {
                    *final(self) == *old(self)
                },
                KeyCode::Enter => newline_rel(*old(self), *final(self)),
                KeyCode::Backspace => backspace_rel(*old(self), *final(self)),
                _ => *final(self) == *old(self),
            },
    {
        match key.code {
            KeyCode::Char(c) => {
                if !key.ctrl && !key.alt {
                    self.editor_insert_char(c);
                }
            },
            KeyCode::Enter => {
                self.editor_newline();
            },
            KeyCode::Backspace => {
                self.editor_backspace();
            },
            _ => {},
        }
    }
}

} // verus!
