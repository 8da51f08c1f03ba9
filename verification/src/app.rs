//! The dashboard state and the navigation controller: the four cursor
//! transitions, and the step of the event loop.

use vstd::prelude::*;
use vstd::std_specs::vec::axiom_spec_len;
use crate::cursor::{
    in_range, lemma_selection_counts_steps, lemma_selection_is_net_steps, net_steps,
    next_selection, origin, previous_selection, select_next, select_previous, selection_after,
    Move,
};
use crate::keys::{action_for, event_action, Action, InputEvent};
use crate::rows::placeholder_rows;
use crate::section::{
    lemma_row_cursor_counts_steps, lemma_row_cursor_without_rows, Emphasis, SectionView,
    UiSection, PLACEHOLDER_ROWS,
};
use crate::store::{section_views, SectionStore};

verus! {

/// The outer cursor: which section has the focus.
#[derive(Clone, Copy, Debug, PartialEq, Eq)]
pub struct NavigationState {
    /// The index of the focused section, if any.
    pub selected: Option<usize>,
}

impl NavigationState {
    /// A cursor with no section focused.
    pub fn new() -> (state: NavigationState)
        ensures
            state.selected is None,
    {
        NavigationState { selected: None }
    }

    /// The index of the focused section, if any.
    pub fn selected(&self) -> (selected: Option<usize>)
        ensures
            selected == self.selected,
    {
        self.selected
    }

    /// Focuses the section at `index`, or none.
    pub fn select(&mut self, index: Option<usize>)
        ensures
            final(self).selected == index,
    {
        self.selected = index;
    }

    /// Moves the focus one section forward over `len` sections.
    pub fn next(&mut self, len: usize)
        ensures
            final(self).selected == next_selection(old(self).selected, len as nat),
    {
        self.selected = select_next(self.selected, len);
    }

    /// Moves the focus one section backward over `len` sections.
    pub fn previous(&mut self, len: usize)
        ensures
            final(self).selected == previous_selection(old(self).selected, len as nat),
    {
        self.selected = select_previous(self.selected, len);
    }
}

impl Default for NavigationState {
    fn default() -> (state: NavigationState)
        ensures
            state.selected is None,
    {
        NavigationState::new()
    }
}

/// Whether the event loop goes on.
#[derive(Clone, Copy, Debug, PartialEq, Eq, Structural)]
pub enum LoopState {
    /// The loop draws a frame and waits for the next event.
    Running,
    /// The loop has ended.
    Stopped,
}

/// The dashboard: its sections and the outer cursor over them. Once it is
/// made, nothing but its cursors changes.
#[derive(Clone, Debug)]
pub struct App {
    items: SectionStore,
    state: NavigationState,
}

/// What a dashboard is: its sections and the index of the focused one.
pub struct AppView {
    pub sections: Seq<SectionView>,
    pub selected: Option<usize>,
}

impl AppView {
    /// Both levels of cursors are in range: the outer cursor over the
    /// sections, each inner cursor over its section's rows.
    pub open spec fn wf(self) -> bool {
        &&& in_range(self.selected, self.sections.len())
        &&& self.sections.len() <= usize::MAX
        &&& forall|i: int| 0 <= i < self.sections.len() ==> (#[trigger] self.sections[i]).wf()
    }

    /// The index of the section that has the focus: the outer cursor's,
    /// when it points at a section.
    pub open spec fn focus(self) -> Option<int> {
        match self.selected {
            Some(i) => if (i as int) < self.sections.len() {
                Some(i as int)
            } else {
                None
            },
            None => None,
        }
    }

    /// The dashboard after one action. Moving between sections changes the
    /// outer cursor alone. Moving between rows changes the inner cursor of
    /// the focused section alone, and nothing when no section has the
    /// focus. Quitting and doing nothing leave the dashboard as it is.
    pub open spec fn after(self, action: Action) -> AppView {
        match action {
            Action::OuterNext => AppView {
                selected: next_selection(self.selected, self.sections.len()),
                ..self
            },
            Action::OuterPrevious => AppView {
                selected: previous_selection(self.selected, self.sections.len()),
                ..self
            },
            Action::InnerNext => match self.focus() {
                Some(i) => AppView {
                    sections: self.sections.update(i, self.sections[i].after_next()),
                    ..self
                },
                None => self,
            },
            Action::InnerPrevious => match self.focus() {
                Some(i) => AppView {
                    sections: self.sections.update(i, self.sections[i].after_previous()),
                    ..self
                },
                None => self,
            },
            Action::Quit => self,
            Action::Nothing => self,
        }
    }

    /// The dashboard after a run of actions, each carried out in order.
    pub open spec fn after_all(self, actions: Seq<Action>) -> AppView
        decreases actions.len(),
    {
        if actions.len() == 0 {
            self
        } else {
            self.after_all(actions.drop_last()).after(actions.last())
        }
    }

    /// The dashboard with the outer cursor at another selection.
    pub open spec fn refocused(self, selected: Option<usize>) -> AppView {
        AppView { selected, ..self }
    }

    /// The dashboard with another section at index `i`.
    pub open spec fn with_section(self, i: int, section: SectionView) -> AppView {
        AppView { sections: self.sections.update(i, section), ..self }
    }
}

/// The action that moves the outer cursor by a step.
pub open spec fn outer_action(m: Move) -> Action {
    match m {
        Move::Next => Action::OuterNext,
        Move::Previous => Action::OuterPrevious,
    }
}

/// The action that moves the inner cursor of the focused section by a step.
pub open spec fn inner_action(m: Move) -> Action {
    match m {
        Move::Next => Action::InnerNext,
        Move::Previous => Action::InnerPrevious,
    }
}

/// The actions that move the outer cursor by a run of steps.
pub open spec fn outer_actions(moves: Seq<Move>) -> Seq<Action> {
    Seq::new(moves.len(), |i: int| outer_action(moves[i]))
}

/// The actions that move the inner cursor of the focused section by a run
/// of steps.
pub open spec fn inner_actions(moves: Seq<Move>) -> Seq<Action> {
    Seq::new(moves.len(), |i: int| inner_action(moves[i]))
}

/// Whether the loop goes on after an action: it stops on quit alone.
pub open spec fn loop_after(action: Action) -> LoopState {
    if action == Action::Quit {
        LoopState::Stopped
    } else {
        LoopState::Running
    }
}

/// The stock dashboard: a section "ReplicaSets" of 12 lines and a section
/// "Services" of 8 lines, both of placeholder rows, with no section focused
/// and no row selected.
pub open spec fn stock_dashboard() -> AppView {
    AppView {
        sections: seq![
            SectionView {
                title: "ReplicaSets"@,
                rows: placeholder_rows(PLACEHOLDER_ROWS as nat),
                selected: None,
                height: 12,
                emphasis: Emphasis::Plain,
            },
            SectionView {
                title: "Services"@,
                rows: placeholder_rows(PLACEHOLDER_ROWS as nat),
                selected: None,
                height: 8,
                emphasis: Emphasis::Plain,
            },
        ],
        selected: None,
    }
}

impl View for App {
    type V = AppView;

    closed spec fn view(&self) -> AppView {
        AppView { sections: self.items@, selected: self.state.selected }
    }
}

impl App {
    /// The stock dashboard.
    pub fn new() -> (app: App)
        ensures
            app@ == stock_dashboard(),
            app@.wf(),
    {
        let mut sections: Vec<UiSection> = Vec::new();
        sections.push(UiSection::new("Height: 12", 12, String::from_str("ReplicaSets")));
        sections.push(UiSection::new("Height: 8", 8, String::from_str("Services")));
        let app = App::with_sections(sections);
        assert(app@.sections =~= stock_dashboard().sections);
        app
    }

    /// A dashboard of the given sections under the given outer cursor. The
    /// cursor is taken as it is, also where it points at no section.
    pub fn from_parts(items: SectionStore, state: NavigationState) -> (app: App)
        ensures
            app@ == (AppView { sections: items@, selected: state.selected }),
    {
        App { items, state }
    }

    /// The sections.
    pub fn items(&self) -> (items: &SectionStore)
        ensures
            items@ == self@.sections,
    {
        &self.items
    }

    /// The outer cursor.
    pub fn state(&self) -> (state: NavigationState)
        ensures
            state.selected == self@.selected,
    {
        self.state
    }

    /// A dashboard of the given sections with no section focused.
    pub fn with_sections(sections: Vec<UiSection>) -> (app: App)
        ensures
            app@ == (AppView { sections: section_views(sections@), selected: None }),
            (forall|i: int| 0 <= i < sections@.len() ==> (#[trigger] sections@[i])@.wf())
                ==> app@.wf(),
    {
        proof {
            axiom_spec_len(&sections);
        }
        App { items: SectionStore::new(sections), state: NavigationState::new() }
    }

    /// Focuses the next section, the first one after the last or from no
    /// focus. A dashboard without sections is left as it is.
    pub fn outer_next(&mut self)
        ensures
            final(self)@ == old(self)@.after(Action::OuterNext),
    {
        let len = self.items.len();
        self.state.next(len);
    }

    /// Focuses the previous section, the last one before the first or from
    /// no focus. A dashboard without sections is left as it is.
    pub fn outer_previous(&mut self)
        ensures
            final(self)@ == old(self)@.after(Action::OuterPrevious),
    {
        let len = self.items.len();
        self.state.previous(len);
    }

    /// Selects the next row of the focused section. Without a focused
    /// section, or in one without rows, nothing changes.
    pub fn inner_next(&mut self)
        ensures
            final(self)@ == old(self)@.after(Action::InnerNext),
    {
        if let Some(index) = self.state.selected {
            match self.items.get_mut(index) {
                Ok(section) => {
                    section.next();
                },
                Err(_) => {},
            }
        }
    }

    /// Selects the previous row of the focused section. Without a focused
    /// section, or in one without rows, nothing changes.
    pub fn inner_previous(&mut self)
        ensures
            final(self)@ == old(self)@.after(Action::InnerPrevious),
    {
        if let Some(index) = self.state.selected {
            match self.items.get_mut(index) {
                Ok(section) => {
                    section.previous();
                },
                Err(_) => {},
            }
        }
    }

    /// Carries out one action and says whether the loop goes on.
    pub fn apply(&mut self, action: Action) -> (state: LoopState)
        ensures
            final(self)@ == old(self)@.after(action),
            state == loop_after(action),
            old(self)@.wf() ==> final(self)@.wf(),
    {
        match action {
            Action::Quit => LoopState::Stopped,
            Action::OuterNext => {
                self.outer_next();
                LoopState::Running
            },
            Action::OuterPrevious => {
                self.outer_previous();
                LoopState::Running
            },
            Action::InnerNext => {
                self.inner_next();
                LoopState::Running
            },
            Action::InnerPrevious => {
                self.inner_previous();
                LoopState::Running
            },
            Action::Nothing => LoopState::Running,
        }
    }

    /// One step of the event loop: looks the event up in the key table and
    /// carries the action out. The loop stops on a pressed `q` and on
    /// nothing else; an event the key table does not know changes nothing.
    pub fn handle_event(&mut self, event: InputEvent) -> (state: LoopState)
        ensures
            final(self)@ == old(self)@.after(event_action(event)),
            state == loop_after(event_action(event)),
            event_action(event) == Action::Quit ==> state == LoopState::Stopped,
            event_action(event) == Action::Quit ==> final(self)@ == old(self)@,
            event_action(event) == Action::Nothing ==> state == LoopState::Running,
            event_action(event) == Action::Nothing ==> final(self)@ == old(self)@,
            old(self)@.wf() ==> final(self)@.wf(),
    {
        let action = action_for(event);
        self.apply(action)
    }
}

/// A run of moves between sections changes the outer cursor alone, and as
/// the steps of a cursor over the sections do.
pub proof fn lemma_outer_cursor_follows_moves(app: AppView, moves: Seq<Move>)
    ensures
        app.after_all(outer_actions(moves)) == app.refocused(
            selection_after(app.selected, app.sections.len(), moves),
        ),
    decreases moves.len(),
{
    if moves.len() > 0 {
        lemma_outer_cursor_follows_moves(app, moves.drop_last());
        assert(outer_actions(moves).drop_last() =~= outer_actions(moves.drop_last()));
    }
}

/// Wraparound of the outer cursor as counting: over `n > 0` sections,
/// after any run of moves to the next or the previous section the cursor
/// selects a section below `n`, namely the position it counted from plus
/// the net signed step count, modulo `n`; the sections themselves do not
/// change. From a focused section the count starts at that section; from
/// no focus it starts just before the first section if the first move goes
/// forward, and at the first section if it goes backward. A run of no
/// moves is left out where the cursor starts from no focus or beyond the
/// sections: there it stays as it is.
pub proof fn lemma_outer_cursor_counts_steps(app: AppView, moves: Seq<Move>)
    requires
        0 < app.sections.len() <= usize::MAX,
        moves.len() > 0 || app.focus() is Some,
    ensures
        0 <= (origin(app.selected, moves) + net_steps(moves)) % (app.sections.len() as int)
            < app.sections.len(),
        app.after_all(outer_actions(moves)) == app.refocused(
            Some(
                ((origin(app.selected, moves) + net_steps(moves)) % (
                app.sections.len() as int)) as usize,
            ),
        ),
        app.after_all(outer_actions(moves)).sections == app.sections,
{
    lemma_outer_cursor_follows_moves(app, moves);
    lemma_selection_counts_steps(app.selected, app.sections.len(), moves);
}

/// Where the count starts at a multiple of `n`, the focused section is the
/// net signed step count itself, modulo `n`: so it is from the first
/// section, from no focus when the first move goes backward, and over a
/// single section.
pub proof fn lemma_outer_cursor_is_net_steps(app: AppView, moves: Seq<Move>)
    requires
        0 < app.sections.len() <= usize::MAX,
        moves.len() > 0 || app.focus() is Some,
        origin(app.selected, moves) % (app.sections.len() as int) == 0,
    ensures
        0 <= net_steps(moves) % (app.sections.len() as int) < app.sections.len(),
        app.after_all(outer_actions(moves)) == app.refocused(
            Some((net_steps(moves) % (app.sections.len() as int)) as usize),
        ),
{
    lemma_outer_cursor_follows_moves(app, moves);
    lemma_selection_is_net_steps(app.selected, app.sections.len(), moves);
}

/// A run of moves between rows changes the focused section alone, and as
/// the same run of steps of that section's row cursor does. Which section
/// has the focus plays no part: the run acts on section `k` when `k` is
/// focused as it acts on that section by itself. Without a focused section
/// the run changes nothing.
pub proof fn lemma_inner_cursor_follows_moves(app: AppView, moves: Seq<Move>)
    ensures
        app.focus() is None ==> app.after_all(inner_actions(moves)) == app,
        app.focus() is Some ==> app.after_all(inner_actions(moves)) == app.with_section(
            app.focus().unwrap(),
            app.sections[app.focus().unwrap()].after_moves(moves),
        ),
    decreases moves.len(),
{
    if moves.len() > 0 {
        let init = moves.drop_last();
        lemma_inner_cursor_follows_moves(app, init);
        assert(inner_actions(moves).drop_last() =~= inner_actions(init));
        if let Some(k) = app.focus() {
            assert(app.sections.update(k, app.sections[k].after_moves(init)).update(
                k,
                app.sections[k].after_moves(moves),
            ) =~= app.sections.update(k, app.sections[k].after_moves(moves)));
        }
    } else if let Some(k) = app.focus() {
        assert(app.sections.update(k, app.sections[k]) =~= app.sections);
    }
}

/// Wraparound of the inner cursor as counting, for whichever section has
/// the focus: when the focused section has `m > 0` rows, after any run of
/// moves to the next or the previous row its cursor selects a row below
/// `m`, namely the position it counted from plus the net signed step
/// count, modulo `m`. The outer cursor and the other sections do not
/// change. A run of no moves is left out where the row cursor starts from
/// no selection or beyond the rows: there it stays as it is.
pub proof fn lemma_inner_cursor_counts_steps(app: AppView, k: int, moves: Seq<Move>)
    requires
        app.focus() == Some(k),
        0 < app.sections[k].rows.len() <= usize::MAX,
        moves.len() > 0 || (app.sections[k].selected is Some && app.sections[k].wf()),
    ensures
        0 <= (origin(app.sections[k].selected, moves) + net_steps(moves)) % (
        app.sections[k].rows.len() as int) < app.sections[k].rows.len(),
        app.after_all(inner_actions(moves)) == app.with_section(
            k,
            app.sections[k].reselected(
                Some(
                    ((origin(app.sections[k].selected, moves) + net_steps(moves)) % (
                    app.sections[k].rows.len() as int)) as usize,
                ),
            ),
        ),
        app.after_all(inner_actions(moves)).selected == app.selected,
        forall|i: int|
            0 <= i < app.sections.len() && i != k ==> app.after_all(
                inner_actions(moves),
            ).sections[i] == app.sections[i],
{
    lemma_inner_cursor_follows_moves(app, moves);
    lemma_row_cursor_counts_steps(app.sections[k], moves);
}

/// Moves between rows change nothing while the focused section has no
/// rows: its row cursor stays where it is, at no selection in a
/// well-formed dashboard.
pub proof fn lemma_inner_cursor_without_rows(app: AppView, k: int, moves: Seq<Move>)
    requires
        app.focus() == Some(k),
        app.sections[k].rows.len() == 0,
    ensures
        app.after_all(inner_actions(moves)) == app,
        app.wf() ==> app.after_all(inner_actions(moves)).sections[k].selected is None,
{
    lemma_inner_cursor_follows_moves(app, moves);
    lemma_row_cursor_without_rows(app.sections[k], moves);
    assert(app.sections.update(k, app.sections[k]) =~= app.sections);
}

/// Every action keeps a well-formed dashboard well-formed, and none adds,
/// removes, reorders or alters a section: only cursors move. After a
/// move between sections a dashboard with sections has a focused section.
pub proof fn lemma_action_keeps_wf(app: AppView, action: Action)
    requires
        app.wf(),
    ensures
        app.after(action).wf(),
        app.after(action).sections.len() == app.sections.len(),
        forall|i: int|
            0 <= i < app.sections.len() ==> (#[trigger] app.after(action).sections[i]).reselected(
                None,
            ) == app.sections[i].reselected(None),
        (action == Action::OuterNext || action == Action::OuterPrevious) && app.sections.len() > 0
            ==> app.after(action).focus() is Some,
{
}

/// Every run of actions keeps a well-formed dashboard well-formed, and
/// none adds, removes, reorders or alters a section.
pub proof fn lemma_actions_keep_wf(app: AppView, actions: Seq<Action>)
    requires
        app.wf(),
    ensures
        app.after_all(actions).wf(),
        app.after_all(actions).sections.len() == app.sections.len(),
        forall|i: int|
            0 <= i < app.sections.len() ==> (#[trigger] app.after_all(
                actions,
            ).sections[i]).reselected(None) == app.sections[i].reselected(None),
    decreases actions.len(),
{
    if actions.len() > 0 {
        lemma_actions_keep_wf(app, actions.drop_last());
    }
}

impl Default for App {
    fn default() -> (app: App)
        ensures
            app@ == stock_dashboard(),
            app@.wf(),
    {
        App::new()
    }
}

} // verus!
