//! The application state and its transitions: tab cycling, list cursor
//! movement, the help popup overlay, the input sub-mode, and the tick
//! counter.

use vstd::prelude::*;
use vstd::arithmetic::div_mod::{lemma_add_mod_noop, lemma_small_mod};
use crate::list::{ListName, StatefulList};
use crate::store::DB;
use crate::store::get_map_val;
use crate::tabs::{TabMode, TabsState, default_tabs, default_tab_modes, next_index, prev_index};
use crate::util::local_time_string;

verus! {

/// Denominator of the progress counter: progress runs in thousandths of the
/// full scale, so it models a ratio in `[0.0, 1.0)`.
pub const PROGRESS_SCALE: u32 = 1000;

/// Amount one tick adds to the progress counter: one thousandth of the
/// scale.
pub const PROGRESS_STEP: u32 = 1;

/// User input mode, like a modal editor's normal and insert modes.
#[derive(Clone, Copy, Debug, PartialEq, Eq, Structural)]
pub enum InputMode {
    /// Key presses dispatch to navigation.
    Normal,
    /// Key presses are captured into the text buffer.
    Editing,
}

/// A key press, reduced to what the state machine dispatches on.
#[derive(Clone, Copy, Debug, PartialEq, Eq, Structural)]
pub enum Key {
    /// A printable character.
    Char(char),
    /// The left arrow.
    Left,
    /// The right arrow.
    Right,
    /// The up arrow.
    Up,
    /// The down arrow.
    Down,
    /// The escape key.
    Esc,
    /// The enter key.
    Enter,
    /// The backspace key.
    Backspace,
    /// Any other key.
    Other,
}

/// The application's state.
pub struct App {
    /// Title of the application.
    pub title: String,
    /// To quit or not to quit. Activated with 'q'.
    pub should_quit: bool,
    /// Tabs or navigation routes of the app.
    pub tabs: TabsState<TabMode>,
    /// '?' activates the help popup modal.
    pub show_help_popup: bool,
    /// The active list before the popup overlay opened, restored on close.
    pub cache_list_prior_popup: ListName,
    /// Tick progress, in thousandths of the full scale; always below
    /// `PROGRESS_SCALE`.
    pub progress: u32,
    /// Current local time, as last rendered by a tick.
    pub time_local: String,
    /// List of facts.
    pub list_facts: StatefulList<String>,
    /// List of principles.
    pub list_principles: StatefulList<String>,
    /// List of tab titles, used to jump between tabs.
    pub list_tabs: StatefulList<String>,
    /// List of help shortcuts.
    pub list_help: StatefulList<String>,
    /// The currently active list.
    pub selected_list: ListName,
    /// Current value of the input box.
    pub input: String,
    /// Content of the item selected last, shown in a preview panel.
    pub preview_item: String,
    /// Current input mode.
    pub input_mode: InputMode,
    /// History of recorded messages.
    pub messages: Vec<String>,
    /// Enhanced terminal graphics. More CPU usage.
    pub enhanced_graphics: bool,
}

/// Progress advanced by one tick: the step added, wrapped at the scale.
pub open spec fn tick_progress(p: int, step: int, scale: int) -> int {
    (p + step) % scale
}

/// Progress after `k` ticks with a fixed step.
pub open spec fn iter_tick_progress(p: int, step: int, scale: int, k: nat) -> int
    decreases k,
{
    if k == 0 {
        p
    } else {
        tick_progress(iter_tick_progress(p, step, scale, (k - 1) as nat), step, scale)
    }
}

/// After `k` ticks with a fixed step `s`, progress equals the start plus
/// `k * s`, wrapped at the scale, and stays in `[0, scale)` throughout.
pub proof fn lemma_progress_after_ticks(p: int, step: int, scale: int, k: nat)
    requires
        0 <= p < scale,
        0 <= step < scale,
    ensures
        iter_tick_progress(p, step, scale, k) == (p + k * step) % scale,
        0 <= iter_tick_progress(p, step, scale, k) < scale,
    decreases k,
{
    if k == 0 {
        lemma_small_mod(p as nat, scale as nat);
    } else {
        lemma_progress_after_ticks(p, step, scale, (k - 1) as nat);
        assert(p + (k - 1) * step + step == p + k * step) by (nonlinear_arith);
        lemma_add_mod_noop(p + (k - 1) * step, step, scale);
        lemma_small_mod(step as nat, scale as nat);
    }
}

impl App {
    /// The whole state is well formed: every cursor points at an existing
    /// element, the tab jump list matches the tabs one for one, and progress
    /// is below the scale.
    pub open spec fn wf(&self) -> bool {
        &&& self.tabs.wf()
        &&& self.list_facts.wf()
        &&& self.list_principles.wf()
        &&& self.list_tabs.wf()
        &&& self.list_help.wf()
        &&& self.list_tabs.items@.len() == self.tabs.titles@.len()
        &&& self.progress < PROGRESS_SCALE
    }

    /// The tab the cursor points at.
    pub open spec fn spec_current_tab(s: App) -> TabMode {
        s.tabs.titles@[s.tabs.index as int]
    }

    /// The active list reassigned to whichever list belongs to the current
    /// tab; an input tab has no associated list.
    pub open spec fn spec_assign_cur_list(s: App) -> App {
        match Self::spec_current_tab(s) {
            TabMode::Home => App { selected_list: s.list_tabs.name, ..s },
            TabMode::Facts => App { selected_list: s.list_facts.name, ..s },
            TabMode::Principles => App { selected_list: s.list_principles.name, ..s },
            TabMode::Input => s,
            TabMode::PopupHelp => App { selected_list: s.list_help.name, ..s },
        }
    }

    /// The popup closed; everything else untouched.
    pub open spec fn spec_close_popup(s: App) -> App {
        App { show_help_popup: false, ..s }
    }

    /// The preview panel filled with the item the list has selected, if any.
    pub open spec fn with_preview_from_list(s: App, l: StatefulList<String>) -> App {
        match l.selected {
            Option::Some(i) => App { preview_item: l.items@[i as int], ..s },
            Option::None => s,
        }
    }

    /// One step left through the tabs: retreat, reassign the active list,
    /// close the popup.
    pub open spec fn spec_on_left(s: App) -> App {
        let stepped = App {
            tabs: TabsState {
                index: prev_index(s.tabs.index as int, s.tabs.titles@.len() as int) as usize,
                titles: s.tabs.titles,
            },
            ..s
        };
        Self::spec_close_popup(Self::spec_assign_cur_list(stepped))
    }

    /// One step right through the tabs: advance, reassign the active list,
    /// close the popup.
    pub open spec fn spec_on_right(s: App) -> App {
        let stepped = App {
            tabs: TabsState {
                index: next_index(s.tabs.index as int, s.tabs.titles@.len() as int) as usize,
                titles: s.tabs.titles,
            },
            ..s
        };
        Self::spec_close_popup(Self::spec_assign_cur_list(stepped))
    }

    /// The cursor of the current tab's list moved one item up, with the
    /// preview refreshed on the content lists.
    pub open spec fn spec_move_up_in_tab(s: App) -> App {
        match Self::spec_current_tab(s) {
            TabMode::Home => App { list_tabs: s.list_tabs.spec_prev(), ..s },
            TabMode::Facts => {
                let s1 = App { list_facts: s.list_facts.spec_prev(), ..s };
                Self::with_preview_from_list(s1, s1.list_facts)
            },
            TabMode::Principles => {
                let s1 = App { list_principles: s.list_principles.spec_prev(), ..s };
                Self::with_preview_from_list(s1, s1.list_principles)
            },
            TabMode::Input => s,
            TabMode::PopupHelp => {
                let s1 = App { list_help: s.list_help.spec_prev(), ..s };
                Self::with_preview_from_list(s1, s1.list_help)
            },
        }
    }

    /// The cursor of the current tab's list moved one item down, with the
    /// preview refreshed on the content lists.
    pub open spec fn spec_move_down_in_tab(s: App) -> App {
        match Self::spec_current_tab(s) {
            TabMode::Home => App { list_tabs: s.list_tabs.spec_next(), ..s },
            TabMode::Facts => {
                let s1 = App { list_facts: s.list_facts.spec_next(), ..s };
                Self::with_preview_from_list(s1, s1.list_facts)
            },
            TabMode::Principles => {
                let s1 = App { list_principles: s.list_principles.spec_next(), ..s };
                Self::with_preview_from_list(s1, s1.list_principles)
            },
            TabMode::Input => s,
            TabMode::PopupHelp => {
                let s1 = App { list_help: s.list_help.spec_next(), ..s };
                Self::with_preview_from_list(s1, s1.list_help)
            },
        }
    }

    /// An up key: with the popup open it moves the help list's cursor,
    /// otherwise the current tab's list cursor, and reassigns the active
    /// list.
    pub open spec fn spec_on_up(s: App) -> App {
        if s.show_help_popup {
            App { list_help: s.list_help.spec_prev(), ..s }
        } else {
            Self::spec_assign_cur_list(Self::spec_move_up_in_tab(s))
        }
    }

    /// A down key: with the popup open it moves the help list's cursor,
    /// otherwise the current tab's list cursor, and reassigns the active
    /// list.
    pub open spec fn spec_on_down(s: App) -> App {
        if s.show_help_popup {
            App { list_help: s.list_help.spec_next(), ..s }
        } else {
            Self::spec_assign_cur_list(Self::spec_move_down_in_tab(s))
        }
    }

    /// The popup toggled: opening records the active list and redirects
    /// focus to the help list; closing restores the recorded list.
    pub open spec fn spec_toggle_popup(s: App) -> App {
        if !s.show_help_popup {
            App {
                show_help_popup: true,
                cache_list_prior_popup: s.selected_list,
                selected_list: ListName::Help,
                ..s
            }
        } else {
            App { show_help_popup: false, selected_list: s.cache_list_prior_popup, ..s }
        }
    }

    /// A character in normal mode: 'q' requests quitting, '?' toggles the
    /// popup, anything else is ignored.
    pub open spec fn spec_on_key(s: App, c: char) -> App {
        if c == 'q' {
            App { should_quit: true, ..s }
        } else if c == '?' {
            Self::spec_toggle_popup(s)
        } else {
            s
        }
    }

    /// Escape: with the help list active, unselect it, close the popup and
    /// restore the prior active list; otherwise unselect whichever list is
    /// active.
    pub open spec fn spec_escape(s: App) -> App {
        if s.selected_list == ListName::Help {
            App {
                list_help: s.list_help.spec_unselect(),
                show_help_popup: false,
                selected_list: s.cache_list_prior_popup,
                ..s
            }
        } else {
            match s.selected_list {
                ListName::Facts => App { list_facts: s.list_facts.spec_unselect(), ..s },
                ListName::Principles => App {
                    list_principles: s.list_principles.spec_unselect(),
                    ..s
                },
                ListName::Help => App { list_help: s.list_help.spec_unselect(), ..s },
                ListName::Tabs => App { list_tabs: s.list_tabs.spec_unselect(), ..s },
                ListName::NoList => s,
            }
        }
    }

    /// Enter in normal mode: jump to the tab the jump list has selected.
    pub open spec fn spec_jump_to_tab(s: App) -> App {
        match s.list_tabs.selected {
            Option::Some(i) => App { tabs: TabsState { index: i, titles: s.tabs.titles }, ..s },
            Option::None => s,
        }
    }

    /// One normal-mode key dispatched: 'e' enters editing mode, arrows and
    /// their vi bindings navigate, Escape unselects, Enter jumps, other
    /// characters go through the character handler.
    pub open spec fn spec_step_normal(s: App, key: Key) -> App {
        match key {
            Key::Char(c) => {
                if c == 'e' {
                    App { input_mode: InputMode::Editing, ..s }
                } else if c == 'h' {
                    Self::spec_on_left(s)
                } else if c == 'l' {
                    Self::spec_on_right(s)
                } else if c == 'k' {
                    Self::spec_on_up(s)
                } else if c == 'j' {
                    Self::spec_on_down(s)
                } else {
                    Self::spec_on_key(s, c)
                }
            },
            Key::Left => Self::spec_on_left(s),
            Key::Right => Self::spec_on_right(s),
            Key::Up => Self::spec_on_up(s),
            Key::Down => Self::spec_on_down(s),
            Key::Esc => Self::spec_escape(s),
            Key::Enter => Self::spec_jump_to_tab(s),
            Key::Backspace => s,
            Key::Other => s,
        }
    }

    /// Everything but the text buffer and the message log is unchanged.
    pub open spec fn editing_frame(s: App, t: App) -> bool {
        &&& t.title == s.title
        &&& t.should_quit == s.should_quit
        &&& t.tabs == s.tabs
        &&& t.show_help_popup == s.show_help_popup
        &&& t.cache_list_prior_popup == s.cache_list_prior_popup
        &&& t.progress == s.progress
        &&& t.time_local == s.time_local
        &&& t.list_facts == s.list_facts
        &&& t.list_principles == s.list_principles
        &&& t.list_tabs == s.list_tabs
        &&& t.list_help == s.list_help
        &&& t.selected_list == s.selected_list
        &&& t.preview_item == s.preview_item
        &&& t.enhanced_graphics == s.enhanced_graphics
    }

    /// One editing-mode key dispatched: Enter commits the buffer to the
    /// message log and clears it, a character is appended, Backspace deletes
    /// the last character, Escape returns to normal mode.
    pub open spec fn editing_step_ok(s: App, t: App, key: Key) -> bool {
        match key {
            Key::Enter => Self::editing_frame(s, t) && t.input_mode == s.input_mode && t.messages@
                == s.messages@.push(s.input) && t.input@ == Seq::<char>::empty(),
            Key::Char(c) => Self::editing_frame(s, t) && t.input_mode == s.input_mode && t.messages
                == s.messages && t.input@ == s.input@.push(c),
            Key::Backspace => Self::editing_frame(s, t) && t.input_mode == s.input_mode
                && t.messages == s.messages && (if s.input@.len() == 0 {
                t.input@ == s.input@
            } else {
                t.input@ == s.input@.drop_last()
            }),
            Key::Esc => t == (App { input_mode: InputMode::Normal, ..s }),
            _ => t == s,
        }
    }

    /// A fresh application over the given database: three tabs, the four
    /// lists filled and unselected, no popup, normal input mode, empty
    /// buffers and zero progress.
    pub fn new(title: String, db: &DB, enhanced_graphics: bool) -> (r: Self)
        ensures
            r.wf(),
            r.title == title,
            !r.should_quit,
            r.tabs.titles@ =~= default_tab_modes(),
            r.tabs.index == 0,
            !r.show_help_popup,
            r.cache_list_prior_popup == ListName::NoList,
            r.progress == 0,
            r.time_local@ =~= Seq::<char>::empty(),
            r.list_facts.name == ListName::Facts,
            r.list_facts.selected is None,
            r.list_facts.items@ =~= db.facts@.map_values(|e: (u32, String)| e.1),
            r.list_principles.name == ListName::Principles,
            r.list_principles.selected is None,
            r.list_principles.items@ =~= db.principles@.map_values(|e: (u32, String)| e.1),
            r.list_tabs.name == ListName::Tabs,
            r.list_tabs.selected is None,
            r.list_tabs.items@.len() == 3,
            r.list_tabs.items@[0]@ == "Home"@,
            r.list_tabs.items@[1]@ == "Facts"@,
            r.list_tabs.items@[2]@ == "Principles"@,
            r.list_help.name == ListName::Help,
            r.list_help.selected is None,
            r.list_help.items@.len() == 5,
            r.list_help.items@[0]@ == "q - Exit"@,
            r.list_help.items@[1]@ == "? - Help Popup"@,
            r.list_help.items@[2]@ == "Esc - unselect"@,
            r.list_help.items@[3]@ == "Left - Previous tab"@,
            r.list_help.items@[4]@ == "Right - Next tab"@,
            r.selected_list == ListName::NoList,
            r.input@ =~= Seq::<char>::empty(),
            r.preview_item@ =~= Seq::<char>::empty(),
            r.input_mode == InputMode::Normal,
            r.messages@ =~= Seq::<String>::empty(),
            r.enhanced_graphics == enhanced_graphics,
    {
        let tab_modes: Vec<TabMode> = default_tabs();
        let mut l_tabs: Vec<String> = Vec::new();
        l_tabs.push(tab_modes[0].label().to_owned());
        l_tabs.push(tab_modes[1].label().to_owned());
        l_tabs.push(tab_modes[2].label().to_owned());
        let mut list_shortcuts: Vec<String> = Vec::new();
        list_shortcuts.push("q - Exit".to_owned());
        list_shortcuts.push("? - Help Popup".to_owned());
        list_shortcuts.push("Esc - unselect".to_owned());
        list_shortcuts.push("Left - Previous tab".to_owned());
        list_shortcuts.push("Right - Next tab".to_owned());
        Self {
            title,
            should_quit: false,
            tabs: TabsState::new(tab_modes),
            show_help_popup: false,
            progress: 0u32,
            time_local: String::new(),
            list_facts: StatefulList::with_items(get_map_val(&db.facts), ListName::Facts),
            list_principles: StatefulList::with_items(
                get_map_val(&db.principles),
                ListName::Principles,
            ),
            list_tabs: StatefulList::with_items(l_tabs, ListName::Tabs),
            list_help: StatefulList::with_items(list_shortcuts, ListName::Help),
            input: String::new(),
            input_mode: InputMode::Normal,
            messages: Vec::new(),
            preview_item: String::new(),
            enhanced_graphics,
            selected_list: ListName::NoList,
            cache_list_prior_popup: ListName::NoList,
        }
    }

    /// One timer tick: progress advances by the fixed step and wraps at the
    /// scale; the local time string is refreshed from the clock, of which
    /// nothing is promised.
    pub fn on_tick(&mut self)
        requires
            old(self).wf(),
        ensures
            final(self).wf(),
            final(self).progress == tick_progress(
                old(self).progress as int,
                PROGRESS_STEP as int,
                PROGRESS_SCALE as int,
            ),
            final(self).title == old(self).title,
            final(self).should_quit == old(self).should_quit,
            final(self).tabs == old(self).tabs,
            final(self).show_help_popup == old(self).show_help_popup,
            final(self).cache_list_prior_popup == old(self).cache_list_prior_popup,
            final(self).list_facts == old(self).list_facts,
            final(self).list_principles == old(self).list_principles,
            final(self).list_tabs == old(self).list_tabs,
            final(self).list_help == old(self).list_help,
            final(self).selected_list == old(self).selected_list,
            final(self).input == old(self).input,
            final(self).preview_item == old(self).preview_item,
            final(self).input_mode == old(self).input_mode,
            final(self).messages == old(self).messages,
            final(self).enhanced_graphics == old(self).enhanced_graphics,
    {
        self.progress = (self.progress + PROGRESS_STEP) % PROGRESS_SCALE;
        self.time_local = local_time_string();
    }

    /// Handle a plain character in normal mode.
    pub fn on_key(&mut self, c: char)
        requires
            old(self).wf(),
        ensures
            final(self).wf(),
            *final(self) == Self::spec_on_key(*old(self), c),
    {
        if c == 'q' {
            self.should_quit = true;
        } else if c == '?' {
            self.toggle_popup();
        }
    }

    /// Toggle the help popup: opening records the currently active list and
    /// redirects focus to the help list; closing restores the recorded one.
    pub fn toggle_popup(&mut self)
        requires
            old(self).wf(),
        ensures
            final(self).wf(),
            *final(self) == Self::spec_toggle_popup(*old(self)),
    {
        if !self.show_help_popup {
            self.cache_list_prior_popup = self.selected_list;
            self.show_help_popup = true;
            self.selected_list = ListName::Help;
        } else {
            self.show_help_popup = false;
            self.selected_list = self.cache_list_prior_popup;
        }
    }

    /// A focus-stealing overlay must not survive a navigation action.
    fn close_popup_on_tab_change(&mut self)
        requires
            old(self).wf(),
        ensures
            final(self).wf(),
            *final(self) == Self::spec_close_popup(*old(self)),
    {
        if self.show_help_popup {
            self.show_help_popup = false;
        }
    }

    /// Move one tab to the left.
    pub fn on_left(&mut self)
        requires
            old(self).wf(),
        ensures
            final(self).wf(),
            *final(self) == Self::spec_on_left(*old(self)),
    {
        self.tabs.previous();
        self.assign_cur_list_with_tab();
        self.close_popup_on_tab_change();
    }

    /// Move one tab to the right.
    pub fn on_right(&mut self)
        requires
            old(self).wf(),
        ensures
            final(self).wf(),
            *final(self) == Self::spec_on_right(*old(self)),
    {
        self.tabs.next();
        self.assign_cur_list_with_tab();
        self.close_popup_on_tab_change();
    }

    /// Move the cursor one item up: in the help list while the popup is
    /// open, otherwise in the current tab's list, refreshing the preview.
    pub fn on_up(&mut self)
        requires
            old(self).wf(),
        ensures
            final(self).wf(),
            *final(self) == Self::spec_on_up(*old(self)),
    {
        if self.show_help_popup {
            self.list_help.previous();
        } else {
            match self.current_tab_mode() {
                TabMode::Home => {
                    self.list_tabs.previous();
                },
                TabMode::Facts => {
                    self.list_facts.previous();
                    if let Option::Some(idx) = self.list_facts.selected {
                        self.preview_item = self.list_facts.items[idx].clone();
                    }
                },
                TabMode::Principles => {
                    self.list_principles.previous();
                    if let Option::Some(idx) = self.list_principles.selected {
                        self.preview_item = self.list_principles.items[idx].clone();
                    }
                },
                TabMode::Input => {},
                TabMode::PopupHelp => {
                    self.list_help.previous();
                    if let Option::Some(idx) = self.list_help.selected {
                        self.preview_item = self.list_help.items[idx].clone();
                    }
                },
            }
            self.assign_cur_list_with_tab();
        }
    }

    /// Move the cursor one item down: in the help list while the popup is
    /// open, otherwise in the current tab's list, refreshing the preview.
    pub fn on_down(&mut self)
        requires
            old(self).wf(),
        ensures
            final(self).wf(),
            *final(self) == Self::spec_on_down(*old(self)),
    {
        if self.show_help_popup {
            self.list_help.next();
        } else {
            match self.current_tab_mode() {
                TabMode::Home => {
                    self.list_tabs.next();
                },
                TabMode::Facts => {
                    self.list_facts.next();
                    if let Option::Some(idx) = self.list_facts.selected {
                        self.preview_item = self.list_facts.items[idx].clone();
                    }
                },
                TabMode::Principles => {
                    self.list_principles.next();
                    if let Option::Some(idx) = self.list_principles.selected {
                        self.preview_item = self.list_principles.items[idx].clone();
                    }
                },
                TabMode::Input => {},
                TabMode::PopupHelp => {
                    self.list_help.next();
                    if let Option::Some(idx) = self.list_help.selected {
                        self.preview_item = self.list_help.items[idx].clone();
                    }
                },
            }
            self.assign_cur_list_with_tab();
        }
    }

    /// Go to the tab whose title the jump list has selected. Used with Enter
    /// in normal mode.
    pub fn jump_to_tab(&mut self)
        requires
            old(self).wf(),
        ensures
            final(self).wf(),
            *final(self) == Self::spec_jump_to_tab(*old(self)),
    {
        if let Option::Some(index) = self.list_tabs.selected {
            self.tabs.index = index;
        }
    }

    /// The currently active tab, so that a key press can be dispatched to
    /// the page it belongs to.
    pub fn current_tab_mode(&mut self) -> (r: TabMode)
        requires
            old(self).wf(),
        ensures
            *final(self) == *old(self),
            r == Self::spec_current_tab(*old(self)),
    {
        self.tabs.titles[self.tabs.index]
    }

    /// Reassign the active list to the list belonging to the current tab.
    fn assign_cur_list_with_tab(&mut self)
        requires
            old(self).wf(),
        ensures
            final(self).wf(),
            *final(self) == Self::spec_assign_cur_list(*old(self)),
    {
        match self.current_tab_mode() {
            TabMode::Home => {
                self.selected_list = self.list_tabs.name;
            },
            TabMode::Facts => {
                self.selected_list = self.list_facts.name;
            },
            TabMode::Principles => {
                self.selected_list = self.list_principles.name;
            },
            TabMode::Input => {},
            TabMode::PopupHelp => {
                self.selected_list = self.list_help.name;
            },
        }
    }

    /// Escape: with the help list active, unselect it, close the popup and
    /// restore the prior active list; otherwise unselect whichever list is
    /// active.
    pub fn escape(&mut self)
        requires
            old(self).wf(),
        ensures
            final(self).wf(),
            *final(self) == Self::spec_escape(*old(self)),
    {
        if self.selected_list == ListName::Help {
            self.list_help.unselect();
            self.show_help_popup = false;
            self.selected_list = self.cache_list_prior_popup;
        } else {
            match self.selected_list {
                ListName::Facts => self.list_facts.unselect(),
                ListName::Principles => self.list_principles.unselect(),
                ListName::Help => self.list_help.unselect(),
                ListName::Tabs => self.list_tabs.unselect(),
                ListName::NoList => {},
            }
        }
    }

    /// Dispatch one key press according to the input mode: in normal mode
    /// keys navigate, in editing mode they edit the text buffer.
    pub fn on_key_event(&mut self, key: Key)
        requires
            old(self).wf(),
        ensures
            final(self).wf(),
            old(self).input_mode == InputMode::Normal ==> *final(self) == Self::spec_step_normal(
                *old(self),
                key,
            ),
            old(self).input_mode == InputMode::Editing ==> Self::editing_step_ok(
                *old(self),
                *final(self),
                key,
            ),
    {
        match self.input_mode {
            InputMode::Normal => {
                match key {
                    Key::Char(c) => {
                        if c == 'e' {
                            self.input_mode = InputMode::Editing;
                        } else if c == 'h' {
                            self.on_left();
                        } else if c == 'l' {
                            self.on_right();
                        } else if c == 'k' {
                            self.on_up();
                        } else if c == 'j' {
                            self.on_down();
                        } else {
                            self.on_key(c);
                        }
                    },
                    Key::Left => self.on_left(),
                    Key::Right => self.on_right(),
                    Key::Up => self.on_up(),
                    Key::Down => self.on_down(),
                    Key::Esc => self.escape(),
                    Key::Enter => self.jump_to_tab(),
                    Key::Backspace => {},
                    Key::Other => {},
                }
            },
            InputMode::Editing => {
                match key {
                    Key::Enter => {
                        let committed: String = self.input.clone();
                        self.messages.push(committed);
                        self.input = String::new();
                    },
                    Key::Char(c) => {
                        self.input.push(c);
                    },
                    Key::Backspace => {
                        self.input.pop();
                    },
                    Key::Esc => {
                        self.input_mode = InputMode::Normal;
                    },
                    Key::Left => {},
                    Key::Right => {},
                    Key::Up => {},
                    Key::Down => {},
                    Key::Other => {},
                }
            },
        }
    }

    /// Opening the help popup records the active list and redirects focus to
    /// the help list; closing it again restores exactly the tag held
    /// immediately before opening, whatever tab and list were active.
    pub proof fn lemma_toggle_popup_restores(s: App)
        requires
            !s.show_help_popup,
        ensures
            Self::spec_toggle_popup(s).show_help_popup,
            Self::spec_toggle_popup(s).selected_list == ListName::Help,
            !Self::spec_toggle_popup(Self::spec_toggle_popup(s)).show_help_popup,
            Self::spec_toggle_popup(Self::spec_toggle_popup(s)).selected_list == s.selected_list,
    {
    }

    /// With the popup closed, toggling it open and pressing Escape closes
    /// the popup again and restores the active list held before opening.
    pub proof fn lemma_escape_closes_popup(s: App)
        requires
            !s.show_help_popup,
        ensures
            !Self::spec_escape(Self::spec_toggle_popup(s)).show_help_popup,
            Self::spec_escape(Self::spec_toggle_popup(s)).selected_list == s.selected_list,
    {
    }
}

} // verus!
