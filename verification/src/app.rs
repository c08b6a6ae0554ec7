//! The state of the dashboard and how it answers each input: moving the
//! selection through the project list, typing the name of a new project,
//! starting a scan, and quitting.
use vstd::prelude::*;
use vstd::string::*;
use crate::project::Project;
use crate::text::{is_whitespace, lemma_trimmed_has_no_outer_whitespace, pop_char, push_char, trim, trimmed};
use vstd::arithmetic::div_mod::{lemma_fundamental_div_mod, lemma_fundamental_div_mod_converse, lemma_mod_bound};

verus! {

/// What the keyboard is used for.
#[derive(Clone, Copy, Debug, PartialEq, Eq, Structural)]
pub enum InputMode {
    /// Moving through the list of projects.
    Normal,
    /// Typing the name of a new project.
    CreatingProject,
}

/// A key that the dashboard tells apart.
#[derive(Clone, Copy, Debug, PartialEq, Eq, Structural)]
pub enum KeyCode {
    Char(char),
    Esc,
    Enter,
    Backspace,
    Up,
    Down,
    Other,
}

/// An input of the terminal, or the passing of a tick without one.
#[derive(Clone, Copy, Debug, PartialEq, Eq, Structural)]
pub enum Event {
    /// A key was pressed (`press`) or released or repeated (`!press`).
    Key { code: KeyCode, press: bool },
    /// The mouse wheel turned down.
    ScrollDown,
    /// The mouse wheel turned up.
    ScrollUp,
    /// The left mouse button went down on the given screen row.
    LeftClick { row: u16 },
    /// No input came within the polling interval.
    Tick,
    /// Any other input.
    Other,
}

/// What the caller is to do after an input.
pub enum Action {
    Nothing,
    /// Leave the dashboard.
    Quit,
    /// Scan the master directory for projects.
    StartScan,
    /// Create the project `name` from the template, then scan the master
    /// directory if `rescan` holds.
    CreateProject { name: String, rescan: bool },
}

/// The meaning of an action, with the name of a new project as text.
pub enum ActionView {
    Nothing,
    Quit,
    StartScan,
    CreateProject { name: Seq<char>, rescan: bool },
}

impl View for Action {
    type V = ActionView;

    open spec fn view(&self) -> ActionView {
        match self {
            Action::Nothing => ActionView::Nothing,
            Action::Quit => ActionView::Quit,
            Action::StartScan => ActionView::StartScan,
            Action::CreateProject { name, rescan } => ActionView::CreateProject { name: name@, rescan: *rescan },
        }
    }
}

/// The state of the dashboard.
pub struct App {
    /// The projects found by the last scan, in listing order.
    pub projects: Vec<Project>,
    /// The position of the selected project in the list, if any.
    pub selected: Option<usize>,
    /// The position of the first project shown in the list.
    pub list_offset: usize,
    pub input_mode: InputMode,
    /// The name of the new project, as typed so far.
    pub input_buffer: String,
    /// A scan is under way.
    pub is_loading: bool,
    /// Ticks counted while nothing happened, for the spinner.
    pub spinner_tick: u8,
}

/// The state of the dashboard, with the typed name as text.
pub struct AppView {
    pub projects: Seq<Project>,
    pub selected: Option<usize>,
    pub list_offset: usize,
    pub input_mode: InputMode,
    pub input_buffer: Seq<char>,
    pub is_loading: bool,
    pub spinner_tick: u8,
}

impl View for App {
    type V = AppView;

    open spec fn view(&self) -> AppView {
        AppView {
            projects: self.projects@,
            selected: self.selected,
            list_offset: self.list_offset,
            input_mode: self.input_mode,
            input_buffer: self.input_buffer@,
            is_loading: self.is_loading,
            spinner_tick: self.spinner_tick,
        }
    }
}

/// The selection after moving down a list of `len` items: the first item
/// when nothing is selected or the last (or a later) item is, the next item
/// otherwise; an empty list keeps its selection.
pub open spec fn next_selection(sel: Option<usize>, len: nat) -> Option<usize> {
    if len == 0 {
        sel
    } else {
        match sel {
            Some(i) => if i >= len - 1 { Some(0) } else { Some((i + 1) as usize) },
            None => Some(0),
        }
    }
}

/// The selection after moving up a list of `len` items: the last item when
/// the first is selected, the item before otherwise, the first item when
/// nothing is selected; an empty list keeps its selection.
pub open spec fn previous_selection(sel: Option<usize>, len: nat) -> Option<usize> {
    if len == 0 {
        sel
    } else {
        match sel {
            Some(i) => if i == 0 { Some((len - 1) as usize) } else { Some((i - 1) as usize) },
            None => Some(0),
        }
    }
}

/// The selection after choosing the item at `index`: that item when the
/// list has it, the old selection otherwise.
pub open spec fn index_selection(sel: Option<usize>, len: nat, index: int) -> Option<usize> {
    if 0 <= index < len {
        Some(index as usize)
    } else {
        sel
    }
}

/// The tick after `t`, wrapping from 255 to 0.
pub open spec fn next_tick(t: u8) -> u8 {
    if t == 255 { 0 } else { (t + 1) as u8 }
}

impl AppView {
    /// The state with a scan started, and whether one was started: none is
    /// while one is under way.
    pub open spec fn scan(self) -> (AppView, bool) {
        if self.is_loading {
            (self, false)
        } else {
            (AppView { is_loading: true, ..self }, true)
        }
    }

    pub open spec fn with_selected(self, sel: Option<usize>) -> AppView {
        AppView { selected: sel, ..self }
    }

    pub open spec fn with_mode(self, mode: InputMode) -> AppView {
        AppView { input_mode: mode, ..self }
    }

    pub open spec fn with_buffer(self, buffer: Seq<char>) -> AppView {
        AppView { input_buffer: buffer, ..self }
    }

    /// The state after a pressed key in the list.
    pub open spec fn normal_key(self, code: KeyCode) -> (AppView, ActionView) {
        let len = self.projects.len();
        match code {
            KeyCode::Char('q') | KeyCode::Esc => (self, ActionView::Quit),
            KeyCode::Down | KeyCode::Char('j') => (self.with_selected(next_selection(self.selected, len)), ActionView::Nothing),
            KeyCode::Up | KeyCode::Char('k') => (self.with_selected(previous_selection(self.selected, len)), ActionView::Nothing),
            KeyCode::Char('r') => {
                let (s, started) = self.scan();
                (s, if started { ActionView::StartScan } else { ActionView::Nothing })
            },
            KeyCode::Char('c') => (self.with_mode(InputMode::CreatingProject).with_buffer(seq![]), ActionView::Nothing),
            _ => (self, ActionView::Nothing),
        }
    }

    /// The state after a pressed key while a name is typed: Enter asks to
    /// create the project of the trimmed name, if it is not blank, and to
    /// rescan, and goes back to the list; Esc goes back to the list; a
    /// character is typed; Backspace erases the last one.
    pub open spec fn creating_key(self, code: KeyCode) -> (AppView, ActionView) {
        match code {
            KeyCode::Enter => {
                let name = trimmed(self.input_buffer);
                if name.len() > 0 {
                    let (s, started) = self.scan();
                    (s.with_mode(InputMode::Normal), ActionView::CreateProject { name, rescan: started })
                } else {
                    (self.with_mode(InputMode::Normal), ActionView::Nothing)
                }
            },
            KeyCode::Char(c) => (self.with_buffer(self.input_buffer.push(c)), ActionView::Nothing),
            KeyCode::Backspace => (
                self.with_buffer(if self.input_buffer.len() > 0 { self.input_buffer.drop_last() } else { self.input_buffer }),
                ActionView::Nothing,
            ),
            KeyCode::Esc => (self.with_mode(InputMode::Normal), ActionView::Nothing),
            _ => (self, ActionView::Nothing),
        }
    }

    /// The state after an input, and what the caller is to do. The mouse
    /// moves the selection in the list only: the wheel as the arrow keys do,
    /// a click below the top border selects the project on that row.
    pub open spec fn step(self, event: Event) -> (AppView, ActionView) {
        let len = self.projects.len();
        let normal = self.input_mode == InputMode::Normal;
        match event {
            Event::Key { code, press } => if !press {
                (self, ActionView::Nothing)
            } else if normal {
                self.normal_key(code)
            } else {
                self.creating_key(code)
            },
            Event::ScrollDown => if normal {
                (self.with_selected(next_selection(self.selected, len)), ActionView::Nothing)
            } else {
                (self, ActionView::Nothing)
            },
            Event::ScrollUp => if normal {
                (self.with_selected(previous_selection(self.selected, len)), ActionView::Nothing)
            } else {
                (self, ActionView::Nothing)
            },
            Event::LeftClick { row } => if normal && row > 0 {
                (self.with_selected(index_selection(self.selected, len, self.list_offset + row - 1)), ActionView::Nothing)
            } else {
                (self, ActionView::Nothing)
            },
            Event::Tick => (AppView { spinner_tick: next_tick(self.spinner_tick), ..self }, ActionView::Nothing),
            Event::Other => (self, ActionView::Nothing),
        }
    }
}

impl App {
    /// The dashboard at start: no projects, nothing selected, in the list,
    /// with an empty name and a scan started.
    pub fn new() -> (app: App)
        ensures
            app@.projects.len() == 0,
            app@.selected is None,
            app@.list_offset == 0,
            app@.input_mode == InputMode::Normal,
            app@.input_buffer.len() == 0,
            app@.is_loading,
            app@.spinner_tick == 0,
    {
        let mut app = App {
            projects: Vec::new(),
            selected: None,
            list_offset: 0,
            input_mode: InputMode::Normal,
            input_buffer: String::new(),
            is_loading: false,
            spinner_tick: 0,
        };
        app.scan_projects();
        app
    }

    /// Starts a scan unless one is under way; tells whether it started one.
    pub fn scan_projects(&mut self) -> (started: bool)
        ensures
            (final(self)@, started) == old(self)@.scan(),
    {
        if self.is_loading {
            return false;
        }
        self.is_loading = true;
        true
    }

    /// Moves the selection down the list, from the last project to the
    /// first.
    pub fn next(&mut self)
        ensures
            final(self)@ == old(self)@.with_selected(next_selection(old(self).selected, old(self).projects@.len())),
    {
        if self.projects.len() == 0 {
            return;
        }
        let i = match self.selected {
            Some(i) => {
                if i >= self.projects.len() - 1 {
                    0
                } else {
                    i + 1
                }
            },
            None => 0,
        };
        self.selected = Some(i);
    }

    /// Moves the selection up the list, from the first project to the last.
    pub fn previous(&mut self)
        ensures
            final(self)@ == old(self)@.with_selected(previous_selection(old(self).selected, old(self).projects@.len())),
    {
        if self.projects.len() == 0 {
            return;
        }
        let i = match self.selected {
            Some(i) => {
                if i == 0 {
                    self.projects.len() - 1
                } else {
                    i - 1
                }
            },
            None => 0,
        };
        self.selected = Some(i);
    }

    /// Selects the project at `index`, if the list has one there.
    pub fn select_index(&mut self, index: usize)
        ensures
            final(self)@ == old(self)@.with_selected(index_selection(old(self).selected, old(self).projects@.len(), index as int)),
    {
        if index < self.projects.len() {
            self.selected = Some(index);
        }
    }

    /// Takes the projects of a finished scan: the scan is over, and the
    /// first project is selected if nothing was and there is one.
    pub fn receive_projects(&mut self, projects: Vec<Project>)
        ensures
            final(self)@ == (AppView {
                projects: projects@,
                is_loading: false,
                selected: if old(self).selected is None && projects@.len() > 0 { Some(0) } else { old(self).selected },
                ..old(self)@
            }),
    {
        self.projects = projects;
        self.is_loading = false;
        if self.selected.is_none() && self.projects.len() > 0 {
            self.selected = Some(0);
        }
    }

    /// Answers a pressed key in the list.
    fn normal_key(&mut self, code: KeyCode) -> (action: Action)
        ensures
            (final(self)@, action@) == old(self)@.normal_key(code),
    {
        match code {
            KeyCode::Char('q') | KeyCode::Esc => Action::Quit,
            KeyCode::Down | KeyCode::Char('j') => {
                self.next();
                Action::Nothing
            },
            KeyCode::Up | KeyCode::Char('k') => {
                self.previous();
                Action::Nothing
            },
            KeyCode::Char('r') => {
                if self.scan_projects() {
                    Action::StartScan
                } else {
                    Action::Nothing
                }
            },
            KeyCode::Char('c') => {
                self.input_mode = InputMode::CreatingProject;
                self.input_buffer = String::new();
                Action::Nothing
            },
            _ => Action::Nothing,
        }
    }

    /// Answers a pressed key while a name is typed.
    fn creating_key(&mut self, code: KeyCode) -> (action: Action)
        ensures
            (final(self)@, action@) == old(self)@.creating_key(code),
    {
        match code {
            KeyCode::Enter => {
                let name = trim(self.input_buffer.as_str());
                let action = if !name.as_str().is_empty() {
                    let rescan = self.scan_projects();
                    Action::CreateProject { name, rescan }
                } else {
                    Action::Nothing
                };
                self.input_mode = InputMode::Normal;
                action
            },
            KeyCode::Char(c) => {
                push_char(&mut self.input_buffer, c);
                Action::Nothing
            },
            KeyCode::Backspace => {
                pop_char(&mut self.input_buffer);
                Action::Nothing
            },
            KeyCode::Esc => {
                self.input_mode = InputMode::Normal;
                Action::Nothing
            },
            _ => Action::Nothing,
        }
    }

    /// Answers an input, and tells the caller what to do.
    pub fn handle_event(&mut self, event: Event) -> (action: Action)
        ensures
            (final(self)@, action@) == old(self)@.step(event),
            event matches Event::Key { press, .. } && !press ==> final(self)@ == old(self)@ && action is Nothing,
    {
        match event {
            Event::Key { code, press } => {
                if !press {
                    return Action::Nothing;
                }
                match self.input_mode {
                    InputMode::Normal => self.normal_key(code),
                    InputMode::CreatingProject => self.creating_key(code),
                }
            },
            Event::ScrollDown => {
                if self.input_mode == InputMode::Normal {
                    self.next();
                }
                Action::Nothing
            },
            Event::ScrollUp => {
                if self.input_mode == InputMode::Normal {
                    self.previous();
                }
                Action::Nothing
            },
            Event::LeftClick { row } => {
                if self.input_mode == InputMode::Normal && row > 0 {
                    match self.list_offset.checked_add((row - 1) as usize) {
                        Some(index) => self.select_index(index),
                        None => {
                            // The row lies past any position a list can have.
                            assert(self.projects@.len() == self.projects.len());
                        },
                    }
                }
                Action::Nothing
            },
            Event::Tick => {
                self.spinner_tick = self.spinner_tick.wrapping_add(1);
                Action::Nothing
            },
            Event::Other => Action::Nothing,
        }
    }
}

/// The selection after moving down `k` times.
pub open spec fn next_selection_n(sel: Option<usize>, len: nat, k: nat) -> Option<usize>
    decreases k,
{
    if k == 0 {
        sel
    } else {
        next_selection(next_selection_n(sel, len, (k - 1) as nat), len)
    }
}

/// Moving down a non-empty list always leaves a project of the list
/// selected.
pub proof fn lemma_next_selects_in_list(sel: Option<usize>, len: nat)
    requires
        0 < len <= usize::MAX,
    ensures
        next_selection(sel, len) matches Some(j) && j < len,
{
}

/// Moving up a non-empty list from a project of the list, or from no
/// selection, leaves a project of the list selected.
pub proof fn lemma_previous_selects_in_list(sel: Option<usize>, len: nat)
    requires
        0 < len <= usize::MAX,
        sel matches Some(i) ==> i < len,
    ensures
        previous_selection(sel, len) matches Some(j) && j < len,
{
}

/// Moving up undoes moving down, wrap-around included.
pub proof fn lemma_previous_undoes_next(i: usize, len: nat)
    requires
        i < len <= usize::MAX,
    ensures
        previous_selection(next_selection(Some(i), len), len) == Some(i),
{
}

/// Moving down undoes moving up, wrap-around included.
pub proof fn lemma_next_undoes_previous(i: usize, len: nat)
    requires
        i < len <= usize::MAX,
    ensures
        next_selection(previous_selection(Some(i), len), len) == Some(i),
{
}

/// Moving down `k` times from the project at `i` selects the project at
/// `(i + k) % len`: the list is a cycle.
pub proof fn lemma_next_n_is_rotation(i: usize, len: nat, k: nat)
    requires
        i < len <= usize::MAX,
    ensures
        next_selection_n(Some(i), len, k) == Some(((i + k) % (len as int)) as usize),
    decreases k,
{
    let d = len as int;
    if k == 0 {
        lemma_fundamental_div_mod_converse(i as int, d, 0, i as int);
    } else {
        lemma_next_n_is_rotation(i, len, (k - 1) as nat);
        let x = i + k - 1;
        let r = x % d;
        let q = x / d;
        lemma_fundamental_div_mod(x, d);
        lemma_mod_bound(x, d);
        assert(x == q * d + r) by (nonlinear_arith)
            requires
                x == d * q + r,
        ;
        if r == d - 1 {
            assert(x + 1 == (q + 1) * d + 0) by (nonlinear_arith)
                requires
                    x == q * d + r,
                    r == d - 1,
            ;
            lemma_fundamental_div_mod_converse(x + 1, d, q + 1, 0);
        } else {
            lemma_fundamental_div_mod_converse(x + 1, d, q, r + 1);
        }
    }
}

/// Moving down as many times as the list is long comes back to the same
/// project.
pub proof fn lemma_next_full_cycle(i: usize, len: nat)
    requires
        i < len <= usize::MAX,
    ensures
        next_selection_n(Some(i), len, len) == Some(i),
{
    lemma_next_n_is_rotation(i, len, len);
    lemma_fundamental_div_mod_converse(i + len, len as int, 1, i as int);
}

/// A key that is released or repeated rather than pressed changes nothing
/// and asks for nothing, whatever the state and the key.
pub proof fn lemma_released_key_ignored(s: AppView, code: KeyCode)
    ensures
        s.step(Event::Key { code, press: false }).0 == s,
        s.step(Event::Key { code, press: false }).1 is Nothing,
{
}

/// While a name is typed, typing a character and erasing it gives back
/// the same state.
pub proof fn lemma_type_then_erase(s: AppView, c: char)
    requires
        s.input_mode == InputMode::CreatingProject,
    ensures
        s.step(Event::Key { code: KeyCode::Char(c), press: true }).0.step(
            Event::Key { code: KeyCode::Backspace, press: true },
        ).0 == s,
{
    assert(s.input_buffer.push(c).drop_last() =~= s.input_buffer);
}

/// A scan is not started again while one is under way.
pub proof fn lemma_one_scan_at_a_time(s: AppView)
    ensures
        s.is_loading ==> s.scan() == (s, false),
        s.scan().0.is_loading,
        !s.scan().0.scan().1,
{
}

/// While a name is typed, no input changes the list or its selection.
pub proof fn lemma_typing_keeps_list(s: AppView, e: Event)
    requires
        s.input_mode == InputMode::CreatingProject,
    ensures
        s.step(e).0.projects == s.projects,
        s.step(e).0.selected == s.selected,
        s.step(e).0.list_offset == s.list_offset,
{
}

/// Only `q` or Esc, pressed in the list, quits.
pub proof fn lemma_quit_keys(s: AppView, e: Event)
    requires
        s.step(e).1 is Quit,
    ensures
        s.input_mode == InputMode::Normal,
        e == (Event::Key { code: KeyCode::Char('q'), press: true }) || e == (Event::Key {
            code: KeyCode::Esc,
            press: true,
        }),
{
}

/// A project is created only on Enter while a name is typed, under the
/// typed name without surrounding whitespace, which is not blank and
/// neither starts nor ends with whitespace; the dashboard then goes back to
/// the list.
pub proof fn lemma_create_takes_trimmed_name(s: AppView, e: Event)
    requires
        s.step(e).1 is CreateProject,
    ensures
        s.input_mode == InputMode::CreatingProject,
        e == (Event::Key { code: KeyCode::Enter, press: true }),
        s.step(e).1->CreateProject_name == trimmed(s.input_buffer),
        trimmed(s.input_buffer).len() > 0,
        !is_whitespace(trimmed(s.input_buffer)[0]),
        !is_whitespace(trimmed(s.input_buffer).last()),
        s.step(e).0.input_mode == InputMode::Normal,
{
    lemma_trimmed_has_no_outer_whitespace(s.input_buffer);
}

/// Inputs other than the scan and create requests never start a scan, and
/// the state of a scan under way is kept by every input.
pub proof fn lemma_loading_only_set_by_requests(s: AppView, e: Event)
    ensures
        s.is_loading ==> s.step(e).0.is_loading,
        !s.is_loading && s.step(e).0.is_loading ==> (s.step(e).1 is StartScan || s.step(e).1 is CreateProject),
{
}

} // verus!
