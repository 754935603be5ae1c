//! Input routing: every key press reaches exactly one interaction
//! context, decided by the current focus and mode. Pure transitions
//! happen right here; anything that needs the file system, the clock or
//! the terminal comes back as a `Command` for the caller to perform
//! (usually by reading or writing files and calling back in with plain
//! values).

use vstd::prelude::*;

use crate::keys::KeyCode;
use crate::keys::KeyInput;
use crate::keys::ResolvedKeys;
use crate::state::App;
use crate::state::CommandAction;
use crate::state::EditorLayout;
use crate::state::EditorMode;
use crate::state::Focus;
use crate::state::Mode;
use crate::state::TagExplorerView;

verus! {

/// A cursor motion the editor widget must perform.
#[derive(Debug, Clone, Copy, PartialEq, Eq, Structural)]
pub enum EditorMotion {
    Back,
    Forward,
    Up,
    Down,
    Head,
    End,
    PageUp,
    PageDown,
}

/// What the caller must do after a key has been routed.
pub enum Command {
    /// Nothing beyond the state change already applied.
    Idle,
    /// Save everything and stop the interaction loop.
    Quit,
    /// Collect the recursive document set and hand it to
    /// `enter_telescope`.
    EnterTelescope,
    /// Open today's daily note: `daily_note_file` says where.
    OpenDailyNote,
    /// Collect the documents and hand them to `enter_task_view`.
    EnterTaskView,
    /// Collect the documents and hand them to `enter_tag_explorer`.
    EnterTagExplorer,
    /// Collect the documents and hand them to
    /// `load_files_for_selected_tag`.
    LoadTagFiles,
    /// Read the file and hand it to `load_file_into_editor`.
    OpenPath(String),
    /// As `OpenPath`, with a target line.
    OpenPathAtLine(String, usize),
    /// Re-list the browsed directory and call `apply_listing`.
    Refresh,
    /// Run the delete flow: `delete_selected_note`, remove the file,
    /// re-list.
    DeleteSelected,
    /// Open the configuration file in the editor.
    EditConfig,
    /// Run the rename flow: `rename_target`, existence check,
    /// `rename_selected_note`, move, re-list.
    ConfirmRename,
    /// Run the new-directory flow: existence check, `create_directory`,
    /// create, re-list.
    ConfirmCreateDirectory,
    /// Run the new-note flow with this template: existence check,
    /// `create_note_with_template`, write, re-list, open.
    ConfirmCreateNote(crate::templates::Template),
    /// Perform the writes of `focus_list` (the state already moved to
    /// the browser).
    SaveAndFocusList,
    /// Save, then close the focused tab with `close_tab`.
    CloseTab,
    /// Export the focused document; `export_target` names it.
    ExportPdf,
    /// Push the workspace with version control.
    GitPush,
    /// Insert today's date at the cursor via `insert_date_at_cursor`.
    InsertDate,
    /// Follow the wiki link under the cursor: save, resolve with
    /// `wiki_link_candidates`, open or create.
    FollowWikiLink,
    /// Move the editor cursor.
    EditorMove(EditorMotion),
    /// Undo the last edit in the editor widget.
    EditorUndo,
    /// Feed the key to the editor widget as text input, after
    /// `mark_editor_dirty`.
    EditorInsert,
}

/// The exact result of one normal-mode editor key: the next state and
/// the command the caller must run.
pub open spec fn editor_normal_spec(pre: App, key: KeyInput, keys: ResolvedKeys) -> (
    App,
    Command,
) {
    let plain_g = KeyInput { code: KeyCode::Char('g'), ctrl: false, alt: false, shift: false };
    if key == keys.escape {
        (App { editor_mode: EditorMode::Normal, g_pending: false, ..pre }, Command::Idle)
    } else if pre.g_pending {
        let p = App { g_pending: false, ..pre };
        match key.code {
            KeyCode::Char(c) => if c == 't' && !key.ctrl && !key.alt {
                (
                    App {
                        active_tab: ((((p.active_tab + 1) as int) % (
                        p.buffers@.len() as int)) as usize),
                        ..p
                    },
                    Command::Idle,
                )
            } else if c == 'T' && !key.ctrl && !key.alt {
                (
                    App {
                        active_tab: (if p.active_tab > 0 {
                            (p.active_tab - 1) as usize
                        } else {
                            (p.buffers@.len() - 1) as usize
                        }),
                        ..p
                    },
                    Command::Idle,
                )
            } else if c == 's' && !key.ctrl && !key.alt {
                (split_toggled(p), Command::Idle)
            } else if c == 'q' && !key.ctrl && !key.alt {
                (p, Command::CloseTab)
            } else if c == 'd' && !key.ctrl && !key.alt {
                (p, Command::FollowWikiLink)
            } else {
                (p, Command::Idle)
            },
            _ => (p, Command::Idle),
        }
    } else if key == plain_g {
        (App { g_pending: true, ..pre }, Command::Idle)
    } else if key == keys.editor_back {
        (pre, Command::SaveAndFocusList)
    } else {
        match key.code {
            KeyCode::Char(c) => if c == 'i' && !key.ctrl && !key.alt {
                (App { editor_mode: EditorMode::Insert, ..pre }, Command::Idle)
            } else if c == 'a' && !key.ctrl && !key.alt {
                (
                    App { editor_mode: EditorMode::Insert, ..pre },
                    Command::EditorMove(EditorMotion::Forward),
                )
            } else if c == 'u' && !key.ctrl && !key.alt {
                (pre, Command::EditorUndo)
            } else if c == 'h' && !key.ctrl && !key.alt {
                (pre, Command::EditorMove(EditorMotion::Back))
            } else if c == 'j' && !key.ctrl && !key.alt {
                (pre, Command::EditorMove(EditorMotion::Down))
            } else if c == 'k' && !key.ctrl && !key.alt {
                (pre, Command::EditorMove(EditorMotion::Up))
            } else if c == 'l' && !key.ctrl && !key.alt {
                (pre, Command::EditorMove(EditorMotion::Forward))
            } else {
                (pre, Command::Idle)
            },
            KeyCode::Left => (pre, Command::EditorMove(EditorMotion::Back)),
            KeyCode::Right => (pre, Command::EditorMove(EditorMotion::Forward)),
            KeyCode::Up => (pre, Command::EditorMove(EditorMotion::Up)),
            KeyCode::Down => (pre, Command::EditorMove(EditorMotion::Down)),
            KeyCode::Home => (pre, Command::EditorMove(EditorMotion::Head)),
            KeyCode::End => (pre, Command::EditorMove(EditorMotion::End)),
            KeyCode::PageUp => (pre, Command::EditorMove(EditorMotion::PageUp)),
            KeyCode::PageDown => (pre, Command::EditorMove(EditorMotion::PageDown)),
            _ => (pre, Command::Idle),
        }
    }
}

/// The bindings that act from any focus.
pub open spec fn is_global_key(key: KeyInput, keys: ResolvedKeys) -> bool {
    key == keys.zen_mode || key == keys.search || key == keys.command_palette || key
        == keys.daily_note || key == keys.task_board
}

/// The state after toggling the split layout.
pub open spec fn split_toggled(p: App) -> App {
    if p.editor_layout == EditorLayout::Single {
        if p.buffers@.len() >= 2 {
            App {
                editor_layout: EditorLayout::SplitVertical,
                split_right_tab: Some(
                    ((((p.active_tab + 1) as int) % (p.buffers@.len() as int)) as usize),
                ),
                split_focus_left: true,
                ..p
            }
        } else {
            p
        }
    } else {
        App { editor_layout: EditorLayout::Single, split_right_tab: None, ..p }
    }
}

impl App {
    /// Consume an armed leader key: the follow-up picks a tab or split
    /// command, and anything unrecognised is dropped.
    #[verifier::rlimit(100)]
    fn editor_leader_input(&mut self, key: KeyInput, keys: &ResolvedKeys) -> (r: Command)
        requires
            old(self).wf(),
            old(self).g_pending,
            key != keys.escape,
        ensures
            final(self).wf(),
            *final(self) == editor_normal_spec(*old(self), key, *keys).0,
            r == editor_normal_spec(*old(self), key, *keys).1,
    {
        let nbufs = self.buffers.len();
        self.g_pending = false;
        match key.code {
            KeyCode::Char(c) => {
                if c == 't' && !key.ctrl && !key.alt {
                    self.next_tab();
                    proof {
                        let m = (((old(self).active_tab + 1) as int) % (
                        old(self).buffers@.len() as int));
                        assert(old(self).buffers@.len() == nbufs as nat);
                        assert(0 <= m < old(self).buffers@.len() as int);
                        assert((m as usize) as int == m);
                        let specr = editor_normal_spec(*old(self), key, *keys);
                        assert(specr.0.active_tab == (m as usize));
                        assert(self.active_tab == (m as usize));
                        assert(specr.0 == (App {
                            active_tab: specr.0.active_tab,
                            ..(App { g_pending: false, ..*old(self) })
                        }));
                        assert(*self == (App {
                            active_tab: self.active_tab,
                            ..(App { g_pending: false, ..*old(self) })
                        }));
                        assert(*self == specr.0);
                    }
                    return Command::Idle;
                }
                if c == 'T' && !key.ctrl && !key.alt {
                    self.prev_tab();
                    return Command::Idle;
                }
                if c == 's' && !key.ctrl && !key.alt {
                    self.toggle_split_view();
                    proof {
                        if old(self).editor_layout == EditorLayout::Single && old(self).buffers@.len() >= 2 {
                            let m = (((old(self).active_tab + 1) as int) % (
                            old(self).buffers@.len() as int));
                            assert(old(self).buffers@.len() == nbufs as nat);
                            assert(0 <= m < old(self).buffers@.len() as int);
                            assert((m as usize) as int == m);
                        }
                    }
                    return Command::Idle;
                }
                if c == 'q' && !key.ctrl && !key.alt {
                    return Command::CloseTab;
                }
                if c == 'd' && !key.ctrl && !key.alt {
                    return Command::FollowWikiLink;
                }
            },
            _ => {},
        }
        Command::Idle
    }

    /// Route one key press in the editor's normal sub-mode: the leader
    /// key `g` arms a pending state that the very next key consumes —
    /// it never survives past it — and plain keys map to motions,
    /// insertion, and tab commands. The result is exactly
    /// `editor_normal_spec`.
    #[verifier::rlimit(100)]
    #[verifier::spinoff_prover]
    pub fn editor_normal_input(&mut self, key: KeyInput, keys: &ResolvedKeys) -> (r: Command)
        requires
            old(self).wf(),
        ensures
            final(self).wf(),
            !(r is Quit),
            *final(self) == editor_normal_spec(*old(self), key, *keys).0,
            r == editor_normal_spec(*old(self), key, *keys).1,
            final(self).g_pending == (!old(self).g_pending && key != keys.escape && key
                == (KeyInput { code: KeyCode::Char('g'), ctrl: false, alt: false, shift: false })),
    {
        if key == keys.escape {
            self.editor_mode = EditorMode::Normal;
            self.g_pending = false;
            return Command::Idle;
        }
        if self.g_pending {
            return self.editor_leader_input(key, keys);
        }
        if key == (KeyInput { code: KeyCode::Char('g'), ctrl: false, alt: false, shift: false }) {
            self.g_pending = true;
            return Command::Idle;
        }
        if key == keys.editor_back {
            return Command::SaveAndFocusList;
        }
        match key.code {
            KeyCode::Char(c) => {
                if c == 'i' && !key.ctrl && !key.alt {
                    self.editor_mode = EditorMode::Insert;
                    return Command::Idle;
                }
                if c == 'a' && !key.ctrl && !key.alt {
                    self.editor_mode = EditorMode::Insert;
                    return Command::EditorMove(EditorMotion::Forward);
                }
                if c == 'u' && !key.ctrl && !key.alt {
                    return Command::EditorUndo;
                }
                if c == 'h' && !key.ctrl && !key.alt {
                    return Command::EditorMove(EditorMotion::Back);
                }
                if c == 'j' && !key.ctrl && !key.alt {
                    return Command::EditorMove(EditorMotion::Down);
                }
                if c == 'k' && !key.ctrl && !key.alt {
                    return Command::EditorMove(EditorMotion::Up);
                }
                if c == 'l' && !key.ctrl && !key.alt {
                    return Command::EditorMove(EditorMotion::Forward);
                }
                Command::Idle
            },
            KeyCode::Left => Command::EditorMove(EditorMotion::Back),
            KeyCode::Right => Command::EditorMove(EditorMotion::Forward),
            KeyCode::Up => Command::EditorMove(EditorMotion::Up),
            KeyCode::Down => Command::EditorMove(EditorMotion::Down),
            KeyCode::Home => Command::EditorMove(EditorMotion::Head),
            KeyCode::End => Command::EditorMove(EditorMotion::End),
            KeyCode::PageUp => Command::EditorMove(EditorMotion::PageUp),
            KeyCode::PageDown => Command::EditorMove(EditorMotion::PageDown),
            _ => Command::Idle,
        }
    }

    /// Route one key press through the focus/mode state machine. The
    /// global bindings win first; then exactly one context — the one
    /// the current focus names — interprets the key. Quitting is only
    /// reachable from the browser in normal mode with no overlay up.
    #[verifier::rlimit(100)]
    #[verifier::spinoff_prover]
    pub fn route_key(&mut self, key: KeyInput, keys: &ResolvedKeys) -> (r: Command)
        requires
            old(self).wf(),
        ensures
            final(self).wf(),
            r is Quit ==> old(self).focus == Focus::List && old(self).mode == Mode::Normal && !old(self).template_picker_active,
            key == keys.zen_mode ==> r is Idle && (*final(self) == App {
                zen_mode: !old(self).zen_mode,
                ..*old(self)
            }),
            key != keys.zen_mode && key == keys.search ==> r is EnterTelescope && *final(self)
                == *old(self),
            key != keys.zen_mode && key != keys.search && key == keys.command_palette ==> r is Idle
                && final(self).focus == Focus::CommandPalette && final(self).command_palette_query@.len() == 0 && final(self).command_palette_filtered@
                == crate::state::all_actions() && final(self).command_palette_selected == 0,
            key != keys.zen_mode && key != keys.search && key != keys.command_palette && key
                == keys.daily_note ==> r is OpenDailyNote && *final(self) == *old(self),
            key != keys.zen_mode && key != keys.search && key != keys.command_palette && key
                != keys.daily_note && key == keys.task_board ==> r is EnterTaskView && *final(self)
                == *old(self),
            !is_global_key(key, *keys) && old(self).focus == Focus::List && !old(self).template_picker_active && old(self).mode == Mode::Normal && key == keys.quit ==> r is Quit
                && *final(self) == *old(self),
            !is_global_key(key, *keys) && old(self).focus == Focus::Rename && key == keys.escape
                ==> r is Idle && final(self).focus == Focus::List && final(self).rename_input@.len() == 0,
            !is_global_key(key, *keys) && old(self).focus == Focus::Rename && key != keys.escape
                && key == keys.enter ==> r is ConfirmRename && *final(self) == *old(self),
            !is_global_key(key, *keys) && old(self).focus == Focus::CreatingDirectory && key
                == keys.escape ==> r is Idle && final(self).focus == Focus::List && final(self).directory_input@.len() == 0,
            !is_global_key(key, *keys) && old(self).focus == Focus::CreatingDirectory && key
                != keys.escape && key == keys.enter ==> r is ConfirmCreateDirectory && *final(self)
                == *old(self),
            !is_global_key(key, *keys) && old(self).focus == Focus::Search && key == keys.escape
                ==> r is Idle && (*final(self) == App {
                focus: (if old(self).buffers@.len() > 0 {
                    Focus::Editor
                } else {
                    Focus::List
                }),
                ..*old(self)
            }),
            !is_global_key(key, *keys) && old(self).focus == Focus::CommandPalette && key
                == keys.escape ==> r is Idle && (*final(self) == App {
                focus: (if old(self).buffers@.len() > 0 {
                    Focus::Editor
                } else {
                    Focus::List
                }),
                ..*old(self)
            }),
            !is_global_key(key, *keys) && old(self).focus == Focus::TagExplorer && key
                == keys.escape ==> r is Idle && (*final(self) == App {
                tag_explorer_active: false,
                focus: Focus::List,
                ..*old(self)
            }),
            !is_global_key(key, *keys) && old(self).focus == Focus::TaskView && key == keys.escape
                ==> r is Idle && (*final(self) == App {
                task_view_active: false,
                focus: Focus::List,
                ..*old(self)
            }),
            !is_global_key(key, *keys) && old(self).focus == Focus::Backlinks && key
                == keys.escape ==> r is Idle && (*final(self) == App {
                focus: Focus::Editor,
                ..*old(self)
            }),
            !is_global_key(key, *keys) && old(self).focus == Focus::List && old(self).template_picker_active && key == keys.escape ==> r is Idle && (*final(self) == App {
                template_picker_active: false,
                ..*old(self)
            }),
            !is_global_key(key, *keys) && old(self).focus == Focus::List && old(self).template_picker_active && key != keys.escape && key == keys.enter ==> *final(self)
                == *old(self) && r == Command::ConfirmCreateNote(
                crate::templates::template_at(old(self).template_picker_selected as int),
            ),
            !is_global_key(key, *keys) && old(self).focus == Focus::List && !old(self).template_picker_active && old(self).mode == Mode::Normal && key != keys.quit && key
                != keys.move_up && key != keys.move_up_alt && key != keys.move_down && key
                != keys.move_down_alt && key != keys.list_create_note && key != keys.list_create_dir
                && key != keys.list_tag_explorer && key != keys.list_rename && key
                == keys.list_edit_config ==> r is EditConfig && *final(self) == *old(self),
            !is_global_key(key, *keys) && old(self).focus == Focus::List && !old(self).template_picker_active && old(self).mode == Mode::Normal && key != keys.quit && key
                != keys.move_up && key != keys.move_up_alt && key != keys.move_down && key
                != keys.move_down_alt && key != keys.list_create_note && key != keys.list_create_dir
                && key != keys.list_tag_explorer && key != keys.list_rename && key
                != keys.list_edit_config && (key == keys.list_delete || key == keys.delete) ==> r is DeleteSelected,
            !is_global_key(key, *keys) && old(self).focus == Focus::List && !old(self).template_picker_active && old(self).mode == Mode::Normal && key != keys.quit && key
                != keys.move_up && key != keys.move_up_alt && key != keys.move_down && key
                != keys.move_down_alt && key != keys.list_create_note && key != keys.list_create_dir
                && key != keys.list_tag_explorer && key != keys.list_rename && key
                != keys.list_edit_config && key != keys.list_delete && key != keys.delete && (key
                == keys.list_parent || key == keys.list_parent_alt || key == keys.move_left || key
                == keys.move_left_alt) && old(self).current_rel@.len() == 0 ==> r is Idle && *final(self) == *old(self),
            !is_global_key(key, *keys) && old(self).focus == Focus::Editor && key
                == keys.editor_pdf ==> r is ExportPdf && *final(self) == *old(self),
            !is_global_key(key, *keys) && old(self).focus == Focus::Editor && key
                != keys.editor_pdf && !(key == keys.editor_backlinks && old(self).config.editor.show_backlinks) && !(old(self).editor_layout
                == EditorLayout::SplitVertical && old(self).split_right_tab is Some && key
                == keys.editor_split_focus) && old(self).editor_mode == EditorMode::Insert ==> (
            if key == keys.escape {
                r is Idle && (*final(self) == App { editor_mode: EditorMode::Normal, ..*old(self) })
            } else {
                r is EditorInsert && *final(self) == *old(self)
            }),
            !is_global_key(key, *keys) && old(self).focus == Focus::Editor && key
                != keys.editor_pdf && !(key == keys.editor_backlinks && old(self).config.editor.show_backlinks) && !(old(self).editor_layout
                == EditorLayout::SplitVertical && old(self).split_right_tab is Some && key
                == keys.editor_split_focus) && old(self).editor_mode == EditorMode::Normal && !(
            key == keys.enter || key == keys.editor_wiki_link) ==> *final(self)
                == editor_normal_spec(*old(self), key, *keys).0 && r == editor_normal_spec(
                *old(self),
                key,
                *keys,
            ).1,
    {
        // Global bindings, any focus.
        if key == keys.zen_mode {
            self.toggle_zen_mode();
            return Command::Idle;
        }
        if key == keys.search {
            return Command::EnterTelescope;
        }
        if key == keys.command_palette {
            self.enter_command_palette();
            return Command::Idle;
        }
        if key == keys.daily_note {
            return Command::OpenDailyNote;
        }
        if key == keys.task_board {
            return Command::EnterTaskView;
        }
        match self.focus {
            Focus::Search => {
                if key == keys.escape {
                    self.exit_telescope();
                } else if key == keys.enter {
                    match self.get_telescope_selected_path() {
                        Some(p) => {
                            self.exit_telescope();
                            return Command::OpenPath(p);
                        },
                        None => {},
                    }
                } else if key == keys.backspace {
                    self.telescope_backspace();
                } else if key == keys.move_up || key == keys.move_up_alt {
                    self.telescope_move_up();
                } else if key == keys.move_down || key == keys.move_down_alt {
                    self.telescope_move_down();
                } else {
                    match key.code {
                        KeyCode::Char(c) => self.telescope_add_char(c),
                        _ => {},
                    }
                }
                Command::Idle
            },
            Focus::CommandPalette => {
                if key == keys.escape {
                    self.exit_command_palette();
                } else if key == keys.enter {
                    match self.get_command_palette_action() {
                        Some(action) => {
                            match action {
                                CommandAction::RenameFile => {
                                    self.exit_command_palette();
                                    self.focus = Focus::List;
                                    self.enter_rename();
                                },
                                CommandAction::DeleteFile => {
                                    self.exit_command_palette();
                                    self.focus = Focus::List;
                                    return Command::DeleteSelected;
                                },
                                CommandAction::InsertDate => {
                                    self.exit_command_palette();
                                    self.focus = Focus::Editor;
                                    return Command::InsertDate;
                                },
                                CommandAction::ToggleZenMode => {
                                    self.toggle_zen_mode();
                                    self.exit_command_palette();
                                },
                                CommandAction::ToggleSplitView => {
                                    self.toggle_split_view();
                                    self.exit_command_palette();
                                },
                                CommandAction::ExportPdf => {
                                    self.exit_command_palette();
                                    return Command::ExportPdf;
                                },
                                CommandAction::GitPush => {
                                    self.exit_command_palette();
                                    return Command::GitPush;
                                },
                            }
                        },
                        None => {},
                    }
                } else if key == keys.backspace {
                    self.command_palette_backspace();
                } else if key == keys.move_up || key == keys.move_up_alt {
                    self.command_palette_move_up();
                } else if key == keys.move_down || key == keys.move_down_alt {
                    self.command_palette_move_down();
                } else {
                    match key.code {
                        KeyCode::Char(c) => self.command_palette_add_char(c),
                        _ => {},
                    }
                }
                Command::Idle
            },
            Focus::Rename => {
                if key == keys.escape {
                    self.exit_rename();
                } else if key == keys.enter {
                    return Command::ConfirmRename;
                } else if key == keys.backspace {
                    self.rename_backspace();
                } else {
                    match key.code {
                        KeyCode::Char(c) => self.rename_add_char(c),
                        _ => {},
                    }
                }
                Command::Idle
            },
            Focus::Backlinks => {
                if key == keys.escape {
                    self.focus = Focus::Editor;
                } else if key == keys.move_up || key == keys.move_up_alt {
                    self.backlinks_move_up();
                } else if key == keys.move_down || key == keys.move_down_alt {
                    self.backlinks_move_down();
                } else if key == keys.enter {
                    match self.open_selected_backlink() {
                        Some(p) => { return Command::OpenPath(p) },
                        None => {},
                    }
                }
                Command::Idle
            },
            Focus::CreatingDirectory => {
                if key == keys.escape {
                    self.exit_create_directory();
                } else if key == keys.enter {
                    return Command::ConfirmCreateDirectory;
                } else if key == keys.backspace {
                    self.directory_backspace();
                } else {
                    match key.code {
                        KeyCode::Char(c) => self.directory_add_char(c),
                        _ => {},
                    }
                }
                Command::Idle
            },
            Focus::TaskView => {
                if key == keys.escape {
                    self.exit_task_view();
                } else if key == keys.move_up || key == keys.move_up_alt {
                    self.task_move_up();
                } else if key == keys.move_down || key == keys.move_down_alt {
                    self.task_move_down();
                } else if key == keys.enter {
                    match self.open_selected_task() {
                        Some((p, line)) => { return Command::OpenPathAtLine(p, line) },
                        None => {},
                    }
                }
                Command::Idle
            },
            Focus::TagExplorer => {
                if key == keys.escape {
                    self.exit_tag_explorer();
                } else if key == keys.move_up || key == keys.move_up_alt {
                    if self.tag_explorer_view == TagExplorerView::TagList {
                        self.tag_list_move_up();
                    } else {
                        self.tag_file_move_up();
                    }
                } else if key == keys.move_down || key == keys.move_down_alt {
                    if self.tag_explorer_view == TagExplorerView::TagList {
                        self.tag_list_move_down();
                    } else {
                        self.tag_file_move_down();
                    }
                } else if key == keys.enter {
                    if self.tag_explorer_view == TagExplorerView::TagList {
                        return Command::LoadTagFiles;
                    } else {
                        match self.open_selected_tag_file() {
                            Some(p) => { return Command::OpenPath(p) },
                            None => {},
                        }
                    }
                } else if key == keys.backspace || key == keys.move_left || key
                    == keys.move_left_alt {
                    if self.tag_explorer_view == TagExplorerView::FileList {
                        self.tag_explorer_view = TagExplorerView::TagList;
                    }
                }
                Command::Idle
            },
            Focus::List => {
                if self.template_picker_active {
                    if key == keys.escape {
                        self.exit_template_picker();
                    } else if key == keys.enter {
                        let t = self.get_selected_template();
                        return Command::ConfirmCreateNote(t);
                    } else if key == keys.move_up || key == keys.move_up_alt {
                        self.template_picker_move_up();
                    } else if key == keys.move_down || key == keys.move_down_alt {
                        self.template_picker_move_down();
                    }
                    return Command::Idle;
                }
                match self.mode {
                    Mode::Normal => {
                        if key == keys.quit {
                            return Command::Quit;
                        }
                        if key == keys.move_up || key == keys.move_up_alt {
                            self.move_selection_up();
                        } else if key == keys.move_down || key == keys.move_down_alt {
                            self.move_selection_down();
                        } else if key == keys.list_create_note {
                            self.enter_create_mode();
                        } else if key == keys.list_create_dir {
                            self.enter_create_directory();
                        } else if key == keys.list_tag_explorer {
                            return Command::EnterTagExplorer;
                        } else if key == keys.list_rename {
                            self.enter_rename();
                        } else if key == keys.list_edit_config {
                            return Command::EditConfig;
                        } else if key == keys.list_delete || key == keys.delete {
                            return Command::DeleteSelected;
                        } else if key == keys.list_parent || key == keys.list_parent_alt || key
                            == keys.move_left || key == keys.move_left_alt {
                            if self.go_to_parent_dir() {
                                return Command::Refresh;
                            }
                        } else if key == keys.enter {
                            if self.enter_selected_directory() {
                                return Command::Refresh;
                            }
                            match self.get_selected_path() {
                                Some(p) => { return Command::OpenPath(p) },
                                None => {},
                            }
                        }
                        Command::Idle
                    },
                    Mode::Search => {
                        if key == keys.escape {
                            self.exit_search_mode();
                        } else if key == keys.enter {
                            if self.enter_selected_directory() {
                                self.exit_search_mode();
                                return Command::Refresh;
                            }
                            match self.get_selected_path() {
                                Some(p) => {
                                    self.exit_search_mode();
                                    return Command::OpenPath(p);
                                },
                                None => {},
                            }
                        } else if key == keys.backspace {
                            self.search_backspace();
                        } else {
                            match key.code {
                                KeyCode::Char(c) => self.search_add_char(c),
                                _ => {},
                            }
                        }
                        Command::Idle
                    },
                    Mode::Create => {
                        if key == keys.escape {
                            self.exit_create_mode();
                        } else if key == keys.enter {
                            self.enter_template_picker();
                        } else if key == keys.backspace {
                            self.create_backspace();
                        } else {
                            match key.code {
                                KeyCode::Char(c) => self.create_add_char(c),
                                _ => {},
                            }
                        }
                        Command::Idle
                    },
                }
            },
            Focus::Editor => self.route_editor_key(key, keys),
        }
    }

    /// Route one key press while the editor holds focus: export,
    /// the backlinks panel, split-focus switching, wiki-link follow,
    /// and the two editor sub-modes.
    #[verifier::rlimit(100)]
    #[verifier::spinoff_prover]
    fn route_editor_key(&mut self, key: KeyInput, keys: &ResolvedKeys) -> (r: Command)
        requires
            old(self).wf(),
            old(self).focus == Focus::Editor,
        ensures
            final(self).wf(),
            !(r is Quit),
            key == keys.editor_pdf ==> r is ExportPdf && *final(self) == *old(self),
            key != keys.editor_pdf && !(key == keys.editor_backlinks && old(self).config.editor.show_backlinks) && !(old(self).editor_layout
                == EditorLayout::SplitVertical && old(self).split_right_tab is Some && key
                == keys.editor_split_focus) && old(self).editor_mode == EditorMode::Insert ==> (
            if key == keys.escape {
                r is Idle && (*final(self) == App { editor_mode: EditorMode::Normal, ..*old(self) })
            } else {
                r is EditorInsert && *final(self) == *old(self)
            }),
            key != keys.editor_pdf && !(key == keys.editor_backlinks && old(self).config.editor.show_backlinks) && !(old(self).editor_layout
                == EditorLayout::SplitVertical && old(self).split_right_tab is Some && key
                == keys.editor_split_focus) && old(self).editor_mode == EditorMode::Normal && !(
            key == keys.enter || key == keys.editor_wiki_link) ==> *final(self)
                == editor_normal_spec(*old(self), key, *keys).0 && r == editor_normal_spec(
                *old(self),
                key,
                *keys,
            ).1,
    {
        if key == keys.editor_pdf {
            return Command::ExportPdf;
        }
        if key == keys.editor_backlinks && self.config.editor.show_backlinks {
            self.focus = Focus::Backlinks;
            return Command::Idle;
        }
        if self.editor_layout == EditorLayout::SplitVertical
            && self.split_right_tab.is_some() && key == keys.editor_split_focus {
            self.split_focus_left = !self.split_focus_left;
            return Command::Idle;
        }
        if self.editor_mode == EditorMode::Normal && (key == keys.enter || key
            == keys.editor_wiki_link) {
            match self.get_wiki_link_under_cursor() {
                Some(_) => { return Command::FollowWikiLink },
                None => {},
            }
        }
        match self.editor_mode {
            EditorMode::Normal => self.editor_normal_input(key, keys),
            EditorMode::Insert => {
                if key == keys.escape {
                    self.editor_mode = EditorMode::Normal;
                    Command::Idle
                } else {
                    Command::EditorInsert
                }
            },
        }
    }
}

} // verus!
