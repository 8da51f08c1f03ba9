//! The renderer: from the dashboard and an area to one frame, the regions
//! of the panels and what each of them highlights.

use vstd::prelude::*;
use crate::app::{App, AppView};
use crate::layout::{panel_region, partition, Region};
use crate::rows::record_views;
use crate::section::{SectionView, UiSection};
use crate::store::section_views;

verus! {

/// What is drawn as selected: the focused section and its selected row.
#[derive(Clone, Copy, Debug, PartialEq, Eq, Structural)]
pub struct Selected {
    /// The index of the focused section.
    pub section: usize,
    /// The index of the row to highlight in it, if any.
    pub row: Option<usize>,
}

/// How one section is drawn.
#[derive(Clone, Copy, Debug, PartialEq, Eq, Structural)]
pub struct Panel {
    /// Where the section is drawn. A region of no lines draws nothing.
    pub area: Region,
    /// Whether the section has the focus and shows its full table.
    pub focused: bool,
    /// The row to highlight, in the focused section alone.
    pub selected_row: Option<usize>,
}

/// One composed frame: the area of the section list and one panel for each
/// section, in display order.
#[derive(Clone, Debug, PartialEq, Eq)]
pub struct Frame {
    /// The area of the section list.
    pub area: Region,
    /// The panels; the panel at an index draws the section at that index.
    pub panels: Vec<Panel>,
}

/// What a frame is: its area and its panels.
pub struct FrameView {
    pub area: Region,
    pub panels: Seq<Panel>,
}

impl View for Frame {
    type V = FrameView;

    open spec fn view(&self) -> FrameView {
        FrameView { area: self.area, panels: self.panels@ }
    }
}

/// The row that a section shows as selected: the one its cursor selects,
/// or none when the cursor points at no row of the section.
pub open spec fn shown_row(section: SectionView) -> Option<usize> {
    match section.selected {
        Some(row) => if (row as int) < section.rows.len() {
            Some(row)
        } else {
            None
        },
        None => None,
    }
}

/// What a dashboard shows as selected: the focused section with its shown
/// row, or nothing when the outer cursor points at no section.
pub open spec fn selected_of(app: AppView) -> Option<Selected> {
    match app.focus() {
        Some(i) => Some(Selected { section: i as usize, row: shown_row(app.sections[i]) }),
        None => None,
    }
}

/// The heights that the sections ask for, in display order.
pub open spec fn heights_of(sections: Seq<SectionView>) -> Seq<u16> {
    Seq::new(sections.len(), |i: int| sections[i].height)
}

/// The panel of section `i`: its region in the stack of sections, and, for
/// the focused section, the highlight and the shown row.
pub open spec fn panel_of(app: AppView, area: Region, i: int) -> Panel {
    let focused = app.focus() == Some(i);
    Panel {
        area: panel_region(heights_of(app.sections), area, i),
        focused,
        selected_row: if focused {
            shown_row(app.sections[i])
        } else {
            None
        },
    }
}

/// The frame of a dashboard in an area.
pub open spec fn frame_of(app: AppView, area: Region) -> FrameView {
    FrameView {
        area: area.clipped(),
        panels: Seq::new(app.sections.len(), |i: int| panel_of(app, area, i)),
    }
}

/// Decides what is drawn as selected. An outer cursor that points at no
/// section, and a row cursor that points at no row, select nothing.
pub fn render_selected(app: &App) -> (selected: Option<Selected>)
    ensures
        selected == selected_of(app@),
{
    match app.state().selected() {
        Some(index) => {
            let sections = app.items().sections();
            if index < sections.len() {
                let section = &sections[index];
                let rows = section.rows();
                let row = match section.selected() {
                    Some(row) => if row < rows.len() {
                        Some(row)
                    } else {
                        None
                    },
                    None => None,
                };
                Some(Selected { section: index, row })
            } else {
                None
            }
        },
        None => None,
    }
}

/// The heights that the sections ask for, in display order.
fn heights(sections: &Vec<UiSection>) -> (heights: Vec<u16>)
    ensures
        heights@ == heights_of(section_views(sections@)),
{
    let mut heights: Vec<u16> = Vec::new();
    let mut i: usize = 0;
    while i < sections.len()
        invariant
            i <= sections@.len(),
            heights@.len() == i,
            forall|k: int| 0 <= k < i ==> #[trigger] heights@[k] == sections@[k]@.height,
        decreases sections@.len() - i,
    {
        heights.push(sections[i].lines());
        i = i + 1;
    }
    heights
}

/// Renders the dashboard into one frame for `area`. The sections are
/// stacked from the top of the area at the heights they ask for. The
/// focused one is marked and shows its selected row; the others are not
/// marked and show no selected row. An outer cursor that points at no
/// section marks none.
pub fn ui(app: &App, area: Region) -> (frame: Frame)
    ensures
        frame@ == frame_of(app@, area),
{
    let sections = app.items().sections();
    let heights = heights(sections);
    let regions = partition(&heights, area);
    let selected = render_selected(app);
    let mut panels: Vec<Panel> = Vec::new();
    let mut i: usize = 0;
    while i < sections.len()
        invariant
            i <= sections@.len(),
            section_views(sections@) == app@.sections,
            regions@.len() == sections@.len(),
            forall|k: int|
                0 <= k < sections@.len() ==> #[trigger] regions@[k] == panel_region(
                    heights_of(app@.sections),
                    area,
                    k,
                ),
            selected == selected_of(app@),
            panels@.len() == i,
            forall|k: int| 0 <= k < i ==> #[trigger] panels@[k] == panel_of(app@, area, k),
        decreases sections@.len() - i,
    {
        let row = match selected {
            Some(shown) => if shown.section == i {
                Some(shown.row)
            } else {
                None
            },
            None => None,
        };
        let panel = match row {
            Some(row) => Panel { area: regions[i], focused: true, selected_row: row },
            None => Panel { area: regions[i], focused: false, selected_row: None },
        };
        panels.push(panel);
        i = i + 1;
    }
    let frame = Frame { area: area.clip(), panels };
    assert(frame@.panels =~= frame_of(app@, area).panels);
    frame
}

/// Rendering is a function of what it is given: two frames of one
/// dashboard state in one area are the same frame.
pub proof fn lemma_render_twice_same_frame(
    first: Frame,
    second: Frame,
    app: AppView,
    area: Region,
)
    requires
        first@ == frame_of(app, area),
        second@ == frame_of(app, area),
    ensures
        first@ == second@,
        first@.area == second@.area,
        first@.panels == second@.panels,
{
}

} // verus!
