//! A section: a titled table of rows with its own row cursor.

use vstd::prelude::*;
use vstd::std_specs::vec::axiom_spec_len;
use crate::cursor::{
    in_range, lemma_selection_counts_steps, lemma_selection_is_net_steps, net_steps,
    next_selection, origin, previous_selection, select_next, select_previous, selection_after,
    Move,
};
use crate::rows::{create_table, placeholder_rows, record_views, RowRecord};

verus! {

/// How a section is drawn.
#[derive(Clone, Copy, Debug, PartialEq, Eq, Structural)]
pub enum Emphasis {
    /// Drawn without emphasis.
    Plain,
    /// Drawn set off from the others.
    Highlighted,
}

/// A named group of rows shown as one unit of the dashboard.
#[derive(Clone, Debug)]
pub struct UiSection {
    title: String,
    items: Vec<RowRecord>,
    selected: Option<usize>,
    height: u16,
    emphasis: Emphasis,
}

/// What a section is: its title, its rows, the row its cursor selects, the
/// number of lines it asks for, and its emphasis.
pub struct SectionView {
    pub title: Seq<char>,
    pub rows: Seq<Seq<Seq<char>>>,
    pub selected: Option<usize>,
    pub height: u16,
    pub emphasis: Emphasis,
}

impl SectionView {
    /// The row cursor selects nothing or one of the rows, so over no rows
    /// it selects nothing; and the rows can be counted in a `usize`.
    pub open spec fn wf(self) -> bool {
        in_range(self.selected, self.rows.len()) && self.rows.len() <= usize::MAX
    }

    /// The section after its row cursor took one step.
    pub open spec fn after_move(self, m: Move) -> SectionView {
        match m {
            Move::Next => self.after_next(),
            Move::Previous => self.after_previous(),
        }
    }

    /// The section after its row cursor took a run of steps, in order.
    pub open spec fn after_moves(self, moves: Seq<Move>) -> SectionView
        decreases moves.len(),
    {
        if moves.len() == 0 {
            self
        } else {
            self.after_moves(moves.drop_last()).after_move(moves.last())
        }
    }

    /// The section with its row cursor at another selection.
    pub open spec fn reselected(self, selected: Option<usize>) -> SectionView {
        SectionView { selected, ..self }
    }

    /// The section after its row cursor moved one row forward.
    pub open spec fn after_next(self) -> SectionView {
        SectionView { selected: next_selection(self.selected, self.rows.len()), ..self }
    }

    /// The section after its row cursor moved one row backward.
    pub open spec fn after_previous(self) -> SectionView {
        SectionView { selected: previous_selection(self.selected, self.rows.len()), ..self }
    }

    /// The section drawn with another emphasis.
    pub open spec fn restyled(self, emphasis: Emphasis) -> SectionView {
        SectionView { emphasis, ..self }
    }
}

impl View for UiSection {
    type V = SectionView;

    closed spec fn view(&self) -> SectionView {
        SectionView {
            title: self.title@,
            rows: record_views(self.items@),
            selected: self.selected,
            height: self.height,
            emphasis: self.emphasis,
        }
    }
}

/// The number of rows of a section made by [`UiSection::new`].
pub const PLACEHOLDER_ROWS: usize = 30;

impl UiSection {
    /// A section of placeholder rows with no row selected, `height` lines
    /// high and drawn plain. The first argument is a free-form note and is
    /// not kept.
    pub fn new(_text: &str, height: u16, title: String) -> (section: UiSection)
        ensures
            section@ == (SectionView {
                title: title@,
                rows: placeholder_rows(PLACEHOLDER_ROWS as nat),
                selected: None,
                height,
                emphasis: Emphasis::Plain,
            }),
            section@.wf(),
    {
        let items = create_table(PLACEHOLDER_ROWS);
        UiSection { title, items, selected: None, height, emphasis: Emphasis::Plain }
    }

    /// A section of the given rows with no row selected, `height` lines high
    /// and drawn plain.
    pub fn with_rows(height: u16, title: String, rows: Vec<RowRecord>) -> (section: UiSection)
        ensures
            section@ == (SectionView {
                title: title@,
                rows: record_views(rows@),
                selected: None,
                height,
                emphasis: Emphasis::Plain,
            }),
            section@.wf(),
    {
        proof {
            axiom_spec_len(&rows);
        }
        UiSection { title, items: rows, selected: None, height, emphasis: Emphasis::Plain }
    }

    /// Moves the row cursor one row forward: to the first row from no
    /// selection or from the last row. A section without rows is left as it
    /// is.
    pub fn next(&mut self)
        ensures
            final(self)@ == old(self)@.after_next(),
            old(self)@.rows.len() == 0 ==> final(self)@ == old(self)@,
            old(self)@.rows.len() > 0 ==> final(self)@.selected is Some && final(self)@.wf(),
            old(self)@.wf() ==> final(self)@.wf(),
    {
        self.selected = select_next(self.selected, self.items.len());
    }

    /// Moves the row cursor one row backward: to the last row from no
    /// selection or from the first row. A section without rows is left as
    /// it is.
    pub fn previous(&mut self)
        ensures
            final(self)@ == old(self)@.after_previous(),
            old(self)@.rows.len() == 0 ==> final(self)@ == old(self)@,
            old(self)@.rows.len() > 0 ==> final(self)@.selected is Some && final(self)@.wf(),
            old(self)@.wf() ==> final(self)@.wf(),
    {
        self.selected = select_previous(self.selected, self.items.len());
    }

    /// The same section drawn with the given emphasis.
    pub fn style(self, style: Emphasis) -> (section: UiSection)
        ensures
            section@ == self@.restyled(style),
            self@.wf() ==> section@.wf(),
    {
        let mut section = self;
        section.emphasis = style;
        section
    }

    /// The same section set off from the others.
    pub fn highlight(self) -> (section: UiSection)
        ensures
            section@ == self@.restyled(Emphasis::Highlighted),
            self@.wf() ==> section@.wf(),
    {
        self.style(Emphasis::Highlighted)
    }

    /// The number of lines the section asks for.
    pub fn height(&self) -> (height: usize)
        ensures
            height == self@.height,
    {
        self.height as usize
    }

    /// The number of lines the section asks for, as a screen coordinate.
    pub fn lines(&self) -> (lines: u16)
        ensures
            lines == self@.height,
    {
        self.height
    }

    /// The title.
    pub fn title(&self) -> (title: &String)
        ensures
            title@ == self@.title,
    {
        &self.title
    }

    /// The rows, in display order.
    pub fn rows(&self) -> (rows: &Vec<RowRecord>)
        ensures
            record_views(rows@) == self@.rows,
    {
        &self.items
    }

    /// The index of the row the cursor selects, if any.
    pub fn selected(&self) -> (selected: Option<usize>)
        ensures
            selected == self@.selected,
    {
        self.selected
    }

    /// The emphasis the section is drawn with.
    pub fn emphasis(&self) -> (emphasis: Emphasis)
        ensures
            emphasis == self@.emphasis,
    {
        self.emphasis
    }
}

/// A run of steps of the row cursor changes the cursor alone, and as the
/// steps of a cursor over the rows do.
pub proof fn lemma_row_cursor_follows_moves(section: SectionView, moves: Seq<Move>)
    ensures
        section.after_moves(moves) == section.reselected(
            selection_after(section.selected, section.rows.len(), moves),
        ),
    decreases moves.len(),
{
    if moves.len() > 0 {
        lemma_row_cursor_follows_moves(section, moves.drop_last());
    }
}

/// Wraparound of the row cursor as counting: in a section of `m > 0` rows,
/// after any run of steps forward or backward the cursor selects a row
/// below `m`, namely the position it counted from plus the net signed step
/// count, modulo `m`; nothing else of the section changes. From a selected
/// row the count starts at that row; from no selection it starts just
/// before the first row if the first step goes forward, and at the first
/// row if it goes backward. A run of no steps is left out where the cursor
/// starts from no selection or beyond the rows: there it stays as it is.
pub proof fn lemma_row_cursor_counts_steps(section: SectionView, moves: Seq<Move>)
    requires
        0 < section.rows.len() <= usize::MAX,
        moves.len() > 0 || (section.selected is Some && section.wf()),
    ensures
        0 <= (origin(section.selected, moves) + net_steps(moves)) % (section.rows.len() as int)
            < section.rows.len(),
        section.after_moves(moves) == section.reselected(
            Some(
                ((origin(section.selected, moves) + net_steps(moves)) % (
                section.rows.len() as int)) as usize,
            ),
        ),
        section.after_moves(moves).wf(),
{
    lemma_row_cursor_follows_moves(section, moves);
    lemma_selection_counts_steps(section.selected, section.rows.len(), moves);
}

/// Where the count starts at a multiple of `m`, the selected row is the net
/// signed step count itself, modulo `m`: so it is from the first row, from
/// no selection when the first step goes backward, and in a section of one
/// row.
pub proof fn lemma_row_cursor_is_net_steps(section: SectionView, moves: Seq<Move>)
    requires
        0 < section.rows.len() <= usize::MAX,
        moves.len() > 0 || (section.selected is Some && section.wf()),
        origin(section.selected, moves) % (section.rows.len() as int) == 0,
    ensures
        0 <= net_steps(moves) % (section.rows.len() as int) < section.rows.len(),
        section.after_moves(moves) == section.reselected(
            Some((net_steps(moves) % (section.rows.len() as int)) as usize),
        ),
{
    lemma_row_cursor_follows_moves(section, moves);
    lemma_selection_is_net_steps(section.selected, section.rows.len(), moves);
}

/// In a section without rows no run of steps changes anything: the row
/// cursor of a well-formed section stays at no selection.
pub proof fn lemma_row_cursor_without_rows(section: SectionView, moves: Seq<Move>)
    requires
        section.rows.len() == 0,
    ensures
        section.after_moves(moves) == section,
        section.wf() ==> section.after_moves(moves).selected is None,
    decreases moves.len(),
{
    if moves.len() > 0 {
        lemma_row_cursor_without_rows(section, moves.drop_last());
    }
}

} // verus!
