//! The button under an editor: the last row of its pane is the button's, which
//! stands at the row's right end, and the rows above it are the editor's.

use crate::state::{Dashboard, Mouse};
use crate::style::{ink, minus, within, Color, Rect, Style};
use crate::types::ClickTarget;
use vstd::prelude::*;

verus! {

/// Where an editor and the button under it stand.
#[derive(Clone, Copy, Debug, PartialEq, Eq)]
pub struct EditorRows {
    pub editor: Rect,
    pub button: Rect,
}

/// Whether a pane over `area` has a row for a button with this face.
pub open spec fn face_fits(area: Rect, face: Seq<char>) -> bool {
    &&& area.height >= 1
    &&& face.len() <= area.width
    &&& area.x + area.width <= u16::MAX
    &&& area.y + area.height <= u16::MAX
}

/// Where a button stands in a pane over `area`: one row, as wide as its face, at
/// the right end of the pane's last row.
pub open spec fn button_rect(area: Rect, face: Seq<char>) -> Rect {
    Rect {
        x: (area.x + area.width - face.len()) as u16,
        y: (area.y + area.height - 1) as u16,
        width: face.len() as u16,
        height: 1,
    }
}

/// Where the editor over a button stands: every row of the pane but the last.
pub open spec fn editor_rect(area: Rect) -> Rect {
    Rect { height: minus(area.height, 1), ..area }
}

/// How a button looks: lit like the border of a pane that has the keys, or quiet.
pub open spec fn button_ink(focused: bool) -> Style {
    if focused {
        Style { fg: None, bg: Some(Color::BorderFocus), bold: true, reversed: false }
    } else {
        ink(Color::Border)
    }
}

/// How a button looks.
pub fn button_style(focused: bool) -> (style: Style)
    ensures
        style == button_ink(focused),
{
    if focused {
        Style { fg: None, bg: Some(Color::BorderFocus), bold: true, reversed: false }
    } else {
        Style::ink(Color::Border)
    }
}

/// What putting a button under an editor does: the button becomes a target of the
/// mouse, and nothing else changes. In a pane with no room for the face the button
/// stands somewhere in the pane.
pub open spec fn button_put(
    before: Dashboard,
    after: Dashboard,
    area: Rect,
    face: Seq<char>,
    target: ClickTarget,
    rows: EditorRows,
) -> bool {
    &&& after == (Dashboard {
        mouse: Mouse { click_targets: after.mouse.click_targets, ..before.mouse },
        ..before
    })
    &&& after.mouse.click_targets@ == before.mouse.click_targets@.push((rows.button, target))
    &&& rows.editor == editor_rect(area)
    &&& within(rows.button, area)
    &&& face_fits(area, face) ==> rows.button == button_rect(area, face)
}

/// The button of a pane is never over its editor, and together they are the whole
/// of the pane's rows.
pub proof fn the_button_is_under_the_editor(area: Rect, face: Seq<char>)
    requires
        face_fits(area, face),
    ensures
        within(button_rect(area, face), area),
        within(editor_rect(area), area),
        editor_rect(area).y + editor_rect(area).height == button_rect(area, face).y,
        button_rect(area, face).y + 1 == area.y + area.height,
        button_rect(area, face).x + button_rect(area, face).width == area.x + area.width,
{
}

impl Dashboard {
    /// Put a button under the editor of a pane over `area`, as a target of the
    /// mouse.
    pub fn draw_action_button(&mut self, area: Rect, face: &str, target: ClickTarget) -> (rows:
        EditorRows)
        ensures
            button_put(*old(self), *final(self), area, face@, target, rows),
    {
        let long: usize = face.unicode_len();
        let width: u16 = if long < area.width as usize {
            long as u16
        } else {
            area.width
        };
        let height: u16 = if area.height == 0 {
            0
        } else {
            1
        };
        let button = Rect {
            x: area.x.saturating_add(area.width - width),
            y: area.y.saturating_add(area.height - height),
            width,
            height,
        };
        let editor = Rect { height: area.height.saturating_sub(1), ..area };
        self.register_click(button, target);
        EditorRows { editor, button }
    }
}

} // verus!
