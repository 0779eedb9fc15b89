//! The command palette: a search box over all commands of the application.
//!
//! Typing edits the query and recomputes the results; Down, Tab, Ctrl+j and
//! Ctrl+n move the highlight down and Up, Shift+Tab, Ctrl+k and Ctrl+p move it
//! up, both wrapping around; Enter runs the highlighted command (and records it
//! as recently used) and Esc cancels.
use vstd::prelude::*;

use crate::commands::registry::{ranked_as, Command, CommandAction, CommandRegistry, CommandView};
use crate::events::key::{pressed, pressed_char, KeyCode, KeyEvent, KeyModifiers};
use crate::history::remember;
use crate::ui::components::input::{edit, TextInput};

verus! {

/// Actions returned from command palette input handling.
#[derive(Debug, Clone, PartialEq, Eq)]
pub enum CommandPaletteAction {
    /// Run the action of a command.
    Execute(CommandAction),
    /// The palette was closed.
    Cancel,
}

/// The command palette.
pub struct CommandPalette {
    /// All commands, with the recently used ones.
    pub registry: CommandRegistry,
    /// The search box.
    pub search_input: TextInput,
    /// The commands found for the query.
    pub results: Vec<Command>,
    /// Index of the highlighted result.
    pub selected: usize,
    /// Whether the palette is visible.
    pub visible: bool,
}

/// The views of the results.
pub open spec fn result_views(p: CommandPalette) -> Seq<CommandView> {
    p.results@.map_values(|c: Command| c@)
}

/// The results are those of the registry for the current query.
pub open spec fn results_current(p: CommandPalette) -> bool {
    ranked_as(p.registry.command_views(), p.registry.recent_ids(), p.search_input.value@, result_views(p))
}

/// A move down: Down or Tab without modifier, or Ctrl+j, or Ctrl+n.
pub open spec fn palette_down(key: KeyEvent) -> bool {
    ||| pressed(key, KeyCode::Down)
    ||| pressed(key, KeyCode::Tab)
    ||| key == KeyEvent { code: KeyCode::Char('j'), modifiers: KeyModifiers::CONTROL }
    ||| key == KeyEvent { code: KeyCode::Char('n'), modifiers: KeyModifiers::CONTROL }
}

/// A move up: Up without modifier, Shift+Tab, or Ctrl+k, or Ctrl+p.
pub open spec fn palette_up(key: KeyEvent) -> bool {
    ||| pressed(key, KeyCode::Up)
    ||| key == KeyEvent { code: KeyCode::BackTab, modifiers: KeyModifiers::SHIFT }
    ||| key == KeyEvent { code: KeyCode::Char('k'), modifiers: KeyModifiers::CONTROL }
    ||| key == KeyEvent { code: KeyCode::Char('p'), modifiers: KeyModifiers::CONTROL }
}

/// The outcome of a key press on the palette `o`, giving `f` and the action `r`
/// (see the module documentation): nothing happens while hidden; keys that are
/// not commands of the palette go to the search box, and the results are
/// recomputed when the query changed.
pub open spec fn palette_handled(o: CommandPalette, key: KeyEvent, f: CommandPalette, r: Option<CommandPaletteAction>) -> bool {
    &&& (!o.visible ==> f == o && r is None)
    &&& (o.visible && pressed(key, KeyCode::Esc) ==> f == (CommandPalette {
        visible: false,
        ..o
    }) && r == Some(CommandPaletteAction::Cancel))
    &&& (o.visible && pressed(key, KeyCode::Enter) && o.results@.len() > 0 ==> {
        let cmd = o.results@[o.selected as int];
        &&& r == Some(CommandPaletteAction::Execute(cmd.action))
        &&& !f.visible
        &&& f.registry.command_views() == o.registry.command_views()
        &&& f.registry.recent_ids() == remember(
            o.registry.recent_ids(),
            cmd.id@,
            10,
        )
        &&& f.search_input == o.search_input
        &&& f.results == o.results
        &&& f.selected == o.selected
    })
    &&& (o.visible && pressed(key, KeyCode::Enter) && o.results@.len() == 0 ==> f == o && r is None)
    &&& (o.visible && palette_down(key) ==> r is None && f == (CommandPalette {
        selected: if o.results@.len() > 0 {
            ((o.selected + 1) as int % o.results@.len() as int) as usize
        } else {
            o.selected
        },
        ..o
    }))
    &&& (o.visible && palette_up(key) ==> r is None && f == (CommandPalette {
        selected: if o.results@.len() == 0 {
            o.selected
        } else if o.selected == 0 {
            (o.results@.len() - 1) as usize
        } else {
            (o.selected - 1) as usize
        },
        ..o
    }))
    &&& (o.visible && !pressed(key, KeyCode::Esc) && !pressed(key, KeyCode::Enter) && !palette_down(key)
        && !palette_up(key) ==> {
        let (v, c, changed) = edit(
            o.search_input.value@,
            o.search_input.cursor as int,
            key,
        );
        &&& r is None
        &&& f.visible
        &&& f.registry == o.registry
        &&& f.search_input.value@ == v
        &&& f.search_input.cursor == c
        &&& f.search_input.masked == o.search_input.masked
        &&& f.search_input.placeholder == o.search_input.placeholder
        &&& if changed || pressed_char(key, 'j') || pressed_char(key, 'k') {
            results_current(f) && f.selected == 0
        } else {
            f.results == o.results && f.selected == o.selected
        }
    })
}

impl CommandPalette {
    /// The search box is consistent and the highlight stands on a result, when
    /// there are results.
    pub open spec fn wf(&self) -> bool {
        &&& self.search_input.wf()
        &&& (self.results@.len() > 0 ==> self.selected < self.results@.len())
    }

    /// The results for the current query, copied out of the registry.
    fn found(registry: &CommandRegistry, query: &str) -> (r: Vec<Command>)
        ensures
            ranked_as(
                registry.command_views(),
                registry.recent_ids(),
                query@,
                r@.map_values(|c: Command| c@),
            ),
    {
        let refs = registry.search(query);
        let mut out: Vec<Command> = Vec::new();
        let mut i: usize = 0;
        while i < refs.len()
            invariant
                i <= refs@.len(),
                out@.len() == i,
                forall|k: int| 0 <= k < i ==> (#[trigger] out@[k])@ == refs@[k]@,
            decreases refs.len() - i,
        {
            out.push(refs[i].duplicate());
            i += 1;
        }
        proof {
            let idx = choose|idx: Seq<int>|
                {
                    &&& crate::commands::registry::is_ranking(
                        registry.command_views(),
                        registry.recent_ids(),
                        query@,
                        idx,
                    )
                    &&& refs@.len() == idx.len()
                    &&& forall|k: int|
                        0 <= k < idx.len() ==> (#[trigger] refs@[k])@ == registry.command_views()[idx[k]]
                };
            let vs = out@.map_values(|c: Command| c@);
            assert forall|k: int| 0 <= k < idx.len() implies #[trigger] vs[k] == registry.command_views()[idx[k]] by {
                assert(refs@[k]@ == registry.command_views()[idx[k]]);
            }
        }
        out
    }

    /// A hidden palette with an empty query, listing every command.
    pub fn new() -> (p: CommandPalette)
        ensures
            p.wf(),
            results_current(p),
            p.search_input.value@.len() == 0,
            p.selected == 0,
            !p.visible,
            p.registry.recent_ids().len() == 0,
    {
        let registry = CommandRegistry::new();
        let results = Self::found(&registry, "");
        let input = TextInput::new();
        proof {
            reveal_strlit("");
            assert(""@ =~= input.value@);
        }
        CommandPalette { registry, search_input: input, results, selected: 0, visible: false }
    }

    /// Show the palette with an empty query, the first result highlighted.
    pub fn show(&mut self)
        ensures
            final(self).wf(),
            results_current(*final(self)),
            final(self).visible,
            final(self).search_input.value@.len() == 0,
            final(self).selected == 0,
            final(self).registry == old(self).registry,
            final(self).search_input.cursor == 0,
            final(self).search_input.masked == old(self).search_input.masked,
            final(self).search_input.placeholder == old(self).search_input.placeholder,
    {
        self.visible = true;
        self.search_input.clear();
        self.results = Self::found(&self.registry, self.search_input.value());
        self.selected = 0;
    }

    /// Close (hide) the palette.
    pub fn close(&mut self)
        ensures
            *final(self) == (CommandPalette { visible: false, ..*old(self) }),
    {
        self.visible = false;
    }

    /// Whether the palette is visible.
    pub fn is_visible(&self) -> (b: bool)
        ensures
            b == self.visible,
    {
        self.visible
    }

    /// The first result shown in a list `visible` rows high: 0 while the selected
    /// result fits, else the one that puts the selected result on the last row.
    pub fn scroll_offset(&self, visible: usize) -> (o: usize)
        requires
            visible > 0 || self.selected < usize::MAX,
        ensures
            o == (if self.selected >= visible {
                self.selected - visible + 1
            } else {
                0
            }),
            visible > 0 ==> o <= self.selected < o + visible,
    {
        if self.selected >= visible {
            self.selected - visible + 1
        } else {
            0
        }
    }

    /// The search query.
    pub fn query(&self) -> (q: &str)
        ensures
            q@ == self.search_input.value@,
    {
        self.search_input.value()
    }

    /// Recompute the results for the current query, the first highlighted.
    fn update_results(&mut self)
        requires
            old(self).search_input.wf(),
        ensures
            final(self).wf(),
            results_current(*final(self)),
            final(self).selected == 0,
            final(self).registry == old(self).registry,
            final(self).search_input == old(self).search_input,
            final(self).visible == old(self).visible,
    {
        self.results = Self::found(&self.registry, self.search_input.value());
        self.selected = 0;
    }

    /// Handle a key press (see `palette_handled`).
    pub fn handle_input(&mut self, key: KeyEvent) -> (r: Option<CommandPaletteAction>)
        requires
            old(self).wf(),
        ensures
            final(self).wf(),
            palette_handled(*old(self), key, *final(self), r),
    {
        if !self.visible {
            return None;
        }
        match (key.code, key.modifiers) {
            (KeyCode::Esc, KeyModifiers::NONE) => {
                self.close();
                Some(CommandPaletteAction::Cancel)
            },
            (KeyCode::Enter, KeyModifiers::NONE) => {
                if self.results.len() > 0 {
                    let cmd = &self.results[self.selected];
                    self.registry.record_used(cmd.id.as_str());
                    let action = cmd.action;
                    self.close();
                    Some(CommandPaletteAction::Execute(action))
                } else {
                    None
                }
            },
            (KeyCode::Down, KeyModifiers::NONE)
            | (KeyCode::Tab, KeyModifiers::NONE)
            | (KeyCode::Char('j'), KeyModifiers::CONTROL)
            | (KeyCode::Char('n'), KeyModifiers::CONTROL) => {
                if self.results.len() > 0 {
                    self.selected = (self.selected + 1) % self.results.len();
                }
                None
            },
            (KeyCode::Up, KeyModifiers::NONE)
            | (KeyCode::BackTab, KeyModifiers::SHIFT)
            | (KeyCode::Char('k'), KeyModifiers::CONTROL)
            | (KeyCode::Char('p'), KeyModifiers::CONTROL) => {
                if self.results.len() > 0 {
                    self.selected = if self.selected == 0 {
                        self.results.len() - 1
                    } else {
                        self.selected - 1
                    };
                }
                None
            },
            (KeyCode::Char('j'), KeyModifiers::NONE) | (KeyCode::Char('k'), KeyModifiers::NONE) => {
                self.search_input.handle_input(key);
                self.update_results();
                None
            },
            _ => {
                if self.search_input.handle_input(key) {
                    self.update_results();
                }
                None
            },
        }
    }
}

impl Default for CommandPalette {
    fn default() -> (p: CommandPalette)
        ensures
            p.wf(),
            results_current(p),
            p.search_input.value@.len() == 0,
            p.selected == 0,
            !p.visible,
    {
        CommandPalette::new()
    }
}


/// Moving the highlight down and then up returns to the same result, wrapping
/// around at either end.
pub proof fn law_down_then_up(selected: int, len: int)
    requires
        0 <= selected < len,
    ensures
        ({
            let down = (selected + 1) % len;
            let up = if down == 0 { len - 1 } else { down - 1 };
            up == selected
        }),
{
    crate::ui::components::search_bar::law_next_then_prev(selected, len);
}

/// Moving through the results wraps around: down goes to the next result, or
/// from the last back to the first; up goes to the previous one, or from the
/// first to the last. Nothing else changes, so the selection stays on a result.
pub proof fn law_palette_moves_wrap(
    o: CommandPalette,
    key: KeyEvent,
    f: CommandPalette,
    r: Option<CommandPaletteAction>,
)
    requires
        palette_handled(o, key, f, r),
        o.visible,
        o.results@.len() > 0,
        o.selected < o.results@.len(),
    ensures
        palette_down(key) ==> r is None && f == (CommandPalette {
            selected: ((o.selected + 1) % (o.results@.len() as int)) as usize,
            ..o
        }),
        palette_up(key) ==> r is None && f == (CommandPalette {
            selected: ((o.selected + o.results@.len() - 1) % (o.results@.len() as int)) as usize,
            ..o
        }),
        palette_down(key) || palette_up(key) ==> f.selected < f.results@.len(),
{
    let n = o.results@.len() as int;
    let s = o.selected as int;
    assert((s + 1) % n < n) by (nonlinear_arith)
        requires
            n > 0,
            0 <= s < n,
    ;
    assert((s + n - 1) % n == (if s == 0 { n - 1 } else { s - 1 })) by (nonlinear_arith)
        requires
            n > 0,
            0 <= s < n,
    ;
}

} // verus!
