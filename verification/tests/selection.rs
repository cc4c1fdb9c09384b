//! Mouse selection: geometry, the drawn frame, and what each event does.

use leviath_dashboard::selection::{
    claimants, clamp_to_region, extract_from_buffer, highlight_in_buffer, hit_region, ordered,
    row_of, row_span, Claimant,
};
use leviath_dashboard::state::Dashboard;
use leviath_dashboard::style::Rect;
use leviath_dashboard::types::{
    LogEntry, MouseEvent, MouseEventKind, PaneId, Selection, ToastLevel,
};
use ratatui::buffer::Buffer;
use ratatui::layout::Position;
use ratatui::style::{Color, Modifier, Style};
use ratatui::widgets::{Paragraph, Widget};

fn mouse(kind: MouseEventKind, column: u16, row: u16) -> MouseEvent {
    MouseEvent { kind, column, row }
}

fn region() -> Rect {
    Rect::new(2, 1, 10, 4)
}

fn reversed(buf: &Buffer, x: u16, y: u16) -> bool {
    buf.cell(Position::new(x, y))
        .unwrap()
        .style()
        .add_modifier
        .contains(Modifier::REVERSED)
}

fn messages(dash: &Dashboard) -> Vec<String> {
    dash.notes.toasts.iter().map(|t| t.message.clone()).collect()
}

#[test]
fn the_wheel_scrolls_the_pane_under_the_cursor() {
    let mut dash = Dashboard::new();
    for i in 0..50 {
        dash.notes.log.push(LogEntry {
            timestamp: "t".to_string(),
            message: format!("line {i}"),
        });
    }
    dash.notes.log_viewport = 10;
    dash.runs.display_indices = vec![0, 1];
    dash.mouse.pane_rects = vec![
        (PaneId::RunTable, Rect::new(0, 0, 80, 20)),
        (PaneId::LogPanel, Rect::new(0, 20, 80, 15)),
    ];

    // Over the log: wheel up scrolls history, wheel down returns.
    dash.handle_mouse(mouse(MouseEventKind::ScrollUp, 5, 25));
    assert_eq!(dash.notes.log_scroll.offset_from_tail, 3);
    dash.handle_mouse(mouse(MouseEventKind::ScrollDown, 5, 25));
    assert!(dash.notes.log_scroll.is_tailing());

    // Over the run table: the wheel moves the selection.
    dash.handle_mouse(mouse(MouseEventKind::ScrollDown, 5, 5));
    assert_eq!(dash.runs.selected, 1);
    assert_eq!(dash.runs.table_selected, Some(1));
    dash.handle_mouse(mouse(MouseEventKind::ScrollUp, 5, 5));
    assert_eq!(dash.runs.selected, 0);
    // …and clamps at both ends.
    dash.handle_mouse(mouse(MouseEventKind::ScrollUp, 5, 5));
    assert_eq!(dash.runs.selected, 0);

    // Outside both rects: falls back to the keyboard target.
    dash.screens.detail_view = true;
    dash.handle_mouse(mouse(MouseEventKind::ScrollUp, 100, 38));
    assert_eq!(dash.detail.scroll, 3);

    // Over the table with nothing listed: a safe no-op.
    dash.runs.display_indices.clear();
    dash.handle_mouse(mouse(MouseEventKind::ScrollDown, 5, 5));
    assert_eq!(dash.runs.selected, 0);
}

#[test]
fn the_log_stops_at_its_oldest_line() {
    let mut dash = Dashboard::new();
    for i in 0..12 {
        dash.notes.log.push(LogEntry { timestamp: String::new(), message: format!("{i}") });
    }
    dash.notes.log_viewport = 10;
    dash.mouse.pane_rects = vec![(PaneId::LogPanel, Rect::new(0, 0, 10, 10))];
    dash.handle_mouse(mouse(MouseEventKind::ScrollUp, 5, 5));
    assert_eq!(dash.notes.log_scroll.offset_from_tail, 2);
    // A pane that was never measured still shows one line.
    dash.notes.log_viewport = 0;
    for _ in 0..10 {
        dash.handle_mouse(mouse(MouseEventKind::ScrollUp, 5, 5));
    }
    assert_eq!(dash.notes.log_scroll.offset_from_tail, 11);
}

// ── Pure geometry ────────────────────────────────────────────────────────────

#[test]
fn hit_region_finds_the_containing_rect() {
    let other = Rect::new(20, 10, 5, 5);
    let regions = vec![other, region()];
    assert_eq!(hit_region(&regions, 3, 2), Some(region()));
    assert_eq!(hit_region(&regions, 22, 12), Some(other));
}

#[test]
fn hit_region_misses_outside_and_on_the_exclusive_edge() {
    let regions = vec![region()];
    assert_eq!(hit_region(&regions, 11, 4), Some(region()));
    assert_eq!(hit_region(&regions, 12, 4), None);
    assert_eq!(hit_region(&regions, 11, 5), None);
    assert_eq!(hit_region(&vec![], 3, 2), None);
}

#[test]
fn clamp_to_region_pulls_outside_points_to_the_edges() {
    let r = region();
    assert_eq!(clamp_to_region(r, 0, 0), (2, 1));
    assert_eq!(clamp_to_region(r, 50, 50), (11, 4));
    assert_eq!(clamp_to_region(r, 5, 2), (5, 2));
}

#[test]
fn ordered_sorts_by_row_then_column() {
    assert_eq!(ordered((3, 1), (7, 2)), ((3, 1), (7, 2)));
    assert_eq!(ordered((7, 2), (3, 1)), ((3, 1), (7, 2)));
    // Same row, dragged right-to-left.
    assert_eq!(ordered((9, 2), (4, 2)), ((4, 2), (9, 2)));
}

#[test]
fn row_span_is_partial_on_first_and_last_rows_and_full_between() {
    let r = region();
    let start = (5, 1);
    let end = (8, 3);
    assert_eq!(row_span(r, start, end, 1), (5, 11));
    assert_eq!(row_span(r, start, end, 2), (2, 11));
    assert_eq!(row_span(r, start, end, 3), (2, 8));
}

#[test]
fn row_span_on_a_single_row_selection_uses_both_endpoints() {
    let r = region();
    assert_eq!(row_span(r, (4, 2), (9, 2), 2), (4, 9));
}

// ── Buffer extraction + highlight ────────────────────────────────────────────

#[test]
fn extract_single_row_takes_the_exact_column_range() {
    let buf = Buffer::with_lines(["hello world"]);
    let r = Rect::new(0, 0, 11, 1);
    assert_eq!(extract_from_buffer(&buf, r, (6, 0), (10, 0)), "world");
}

#[test]
fn extract_multi_row_spans_full_middle_rows_and_trims_padding() {
    let buf = Buffer::with_lines(["first line   ", "middle       ", "last line    "]);
    let r = Rect::new(0, 0, 13, 3);
    let text = extract_from_buffer(&buf, r, (6, 0), (3, 2));
    assert_eq!(text, "line\nmiddle\nlast");
}

#[test]
fn extract_preserves_interior_empty_rows() {
    let buf = Buffer::with_lines(["top", "   ", "bottom"]);
    let r = Rect::new(0, 0, 6, 3);
    assert_eq!(extract_from_buffer(&buf, r, (0, 0), (5, 2)), "top\n\nbottom");
}

#[test]
fn extract_skips_wide_char_continuation_cells() {
    let buf = Buffer::with_lines(["日本語 ok"]);
    let r = Rect::new(0, 0, 9, 1);
    assert_eq!(extract_from_buffer(&buf, r, (0, 0), (8, 0)), "日本語 ok");
}

#[test]
fn extract_reversed_drag_matches_forward_drag() {
    let buf = Buffer::with_lines(["hello world"]);
    let r = Rect::new(0, 0, 11, 1);
    assert_eq!(
        extract_from_buffer(&buf, r, (10, 0), (6, 0)),
        extract_from_buffer(&buf, r, (6, 0), (10, 0)),
    );
}

#[test]
fn extract_stops_at_the_buffer_edge_when_the_region_overhangs() {
    let buf = Buffer::with_lines(["abc"]);
    let overhanging = Rect::new(0, 0, 10, 1);
    assert_eq!(extract_from_buffer(&buf, overhanging, (0, 0), (9, 0)), "abc");
}

#[test]
fn highlight_ignores_cells_beyond_the_buffer_edge() {
    let mut buf = Buffer::with_lines(["abc"]);
    let overhanging = Rect::new(0, 0, 10, 1);
    highlight_in_buffer(&mut buf, overhanging, (0, 0), (9, 0));
    assert!(reversed(&buf, 0, 0) && reversed(&buf, 2, 0));
}

#[test]
fn highlight_reverses_selected_cells_and_leaves_the_rest() {
    let mut buf = Buffer::with_lines(["hello world"]);
    let r = Rect::new(0, 0, 11, 1);
    highlight_in_buffer(&mut buf, r, (6, 0), (10, 0));
    assert!(reversed(&buf, 6, 0) && reversed(&buf, 10, 0));
    assert!(!reversed(&buf, 0, 0) && !reversed(&buf, 5, 0));
}

#[test]
fn a_highlight_keeps_what_the_pane_drew() {
    let mut buf = Buffer::with_lines(["hello"]);
    let drawn = Style::default().fg(Color::Red).bg(Color::Blue).add_modifier(Modifier::BOLD);
    buf.cell_mut(Position::new(1, 0)).unwrap().set_style(drawn);
    highlight_in_buffer(&mut buf, Rect::new(0, 0, 5, 1), (0, 0), (4, 0));
    let style = buf.cell(Position::new(1, 0)).unwrap().style();
    assert_eq!(style.fg, Some(Color::Red));
    assert_eq!(style.bg, Some(Color::Blue));
    assert!(style.add_modifier.contains(Modifier::BOLD));
    assert!(style.add_modifier.contains(Modifier::REVERSED));
    assert_eq!(buf.cell(Position::new(1, 0)).unwrap().symbol(), "e");
}

#[test]
fn a_row_is_copied_without_the_blanks_at_its_end() {
    let cells: Vec<String> = ["a", " ", "b", " ", " "].iter().map(|s| s.to_string()).collect();
    assert_eq!(row_of(&cells), "a b");
    assert_eq!(row_of(&vec![]), "");
}

// ── Mouse event handling ─────────────────────────────────────────────────────

#[test]
fn wheel_events_still_scroll_three_lines_per_notch() {
    let mut dash = Dashboard::new();
    dash.handle_mouse(mouse(MouseEventKind::ScrollUp, 0, 0));
    assert_eq!(dash.detail.scroll, 3);
    dash.handle_mouse(mouse(MouseEventKind::ScrollDown, 0, 0));
    assert_eq!(dash.detail.scroll, 0);
}

#[test]
fn left_down_inside_a_registered_pane_starts_a_drag() {
    let mut dash = Dashboard::new();
    dash.mouse.selection_regions.push(region());
    dash.handle_mouse(mouse(MouseEventKind::LeftDown, 4, 2));
    let sel = dash.mouse.selection.as_ref().unwrap();
    assert_eq!(sel.anchor, (4, 2));
    assert_eq!(sel.cursor, (4, 2));
    assert!(sel.dragging && !sel.moved && !sel.pending_copy);
}

#[test]
fn left_down_outside_any_pane_clears_the_selection() {
    let mut dash = Dashboard::new();
    dash.mouse.selection_regions.push(region());
    dash.handle_mouse(mouse(MouseEventKind::LeftDown, 4, 2));
    assert!(dash.mouse.selection.is_some());
    dash.handle_mouse(mouse(MouseEventKind::LeftDown, 50, 50));
    assert!(dash.mouse.selection.is_none());
}

#[test]
fn drag_moves_the_cursor_and_clamps_to_the_pane() {
    let mut dash = Dashboard::new();
    dash.mouse.selection_regions.push(region());
    dash.handle_mouse(mouse(MouseEventKind::LeftDown, 4, 2));
    dash.handle_mouse(mouse(MouseEventKind::LeftDrag, 50, 50));
    let sel = dash.mouse.selection.as_ref().unwrap();
    assert_eq!(sel.cursor, (11, 4));
    assert!(sel.moved);
}

#[test]
fn drag_without_an_active_selection_is_ignored() {
    let mut dash = Dashboard::new();
    dash.handle_mouse(mouse(MouseEventKind::LeftDrag, 4, 2));
    assert!(dash.mouse.selection.is_none());
}

#[test]
fn release_after_motion_schedules_the_copy() {
    let mut dash = Dashboard::new();
    dash.mouse.selection_regions.push(region());
    dash.handle_mouse(mouse(MouseEventKind::LeftDown, 4, 2));
    dash.handle_mouse(mouse(MouseEventKind::LeftDrag, 8, 2));
    let click = dash.handle_mouse(mouse(MouseEventKind::LeftUp, 8, 2));
    assert_eq!(click, None);
    let sel = dash.mouse.selection.as_ref().unwrap();
    assert!(!sel.dragging && sel.pending_copy);
}

#[test]
fn release_without_motion_is_a_click_and_clears() {
    let mut dash = Dashboard::new();
    dash.mouse.selection_regions.push(region());
    dash.handle_mouse(mouse(MouseEventKind::LeftDown, 4, 2));
    let click = dash.handle_mouse(mouse(MouseEventKind::LeftUp, 4, 2));
    assert_eq!(click, Some((4, 2)));
    assert!(dash.mouse.selection.is_none());
}

#[test]
fn release_without_a_prior_press_is_ignored() {
    let mut dash = Dashboard::new();
    dash.handle_mouse(mouse(MouseEventKind::LeftUp, 4, 2));
    assert!(dash.mouse.selection.is_none());
}

#[test]
fn drag_after_release_no_longer_extends_the_selection() {
    let mut dash = Dashboard::new();
    dash.mouse.selection_regions.push(region());
    dash.handle_mouse(mouse(MouseEventKind::LeftDown, 4, 2));
    dash.handle_mouse(mouse(MouseEventKind::LeftDrag, 8, 2));
    dash.handle_mouse(mouse(MouseEventKind::LeftUp, 8, 2));
    dash.handle_mouse(mouse(MouseEventKind::LeftDrag, 10, 3));
    assert_eq!(dash.mouse.selection.as_ref().unwrap().cursor, (8, 2));
}

#[test]
fn other_buttons_and_motion_events_are_ignored() {
    let mut dash = Dashboard::new();
    dash.mouse.selection_regions.push(region());
    dash.handle_mouse(mouse(MouseEventKind::Other, 4, 2));
    dash.handle_mouse(mouse(MouseEventKind::Moved, 4, 2));
    assert!(dash.mouse.selection.is_none());
    assert_eq!(dash.detail.scroll, 0);
}

#[test]
fn scrolling_clears_an_active_selection() {
    let mut dash = Dashboard::new();
    dash.mouse.selection_regions.push(region());
    dash.handle_mouse(mouse(MouseEventKind::LeftDown, 4, 2));
    assert!(dash.mouse.selection.is_some());
    dash.scroll_by(1);
    assert!(dash.mouse.selection.is_none());
}

#[test]
fn a_press_is_offered_to_the_toolbar_first_and_the_graph_last() {
    assert_eq!(
        claimants(MouseEventKind::LeftDown, true),
        vec![Claimant::Toolbar, Claimant::Agents, Claimant::Graph]
    );
    assert_eq!(claimants(MouseEventKind::LeftUp, false), vec![Claimant::Graph]);
    // Plain motion is nobody else's business.
    assert_eq!(claimants(MouseEventKind::Moved, true), vec![Claimant::Hover]);
}

// ── Validation + overlay ─────────────────────────────────────────────────────

#[test]
fn validate_drops_a_selection_whose_pane_was_not_redrawn() {
    let mut dash = Dashboard::new();
    dash.mouse.selection_regions.push(region());
    dash.handle_mouse(mouse(MouseEventKind::LeftDown, 4, 2));
    dash.mouse.selection_regions.clear();
    dash.validate_selection();
    assert!(dash.mouse.selection.is_none());
}

#[test]
fn validate_keeps_a_selection_whose_pane_is_still_registered() {
    let mut dash = Dashboard::new();
    dash.mouse.selection_regions.push(region());
    dash.handle_mouse(mouse(MouseEventKind::LeftDown, 4, 2));
    dash.validate_selection();
    assert!(dash.mouse.selection.is_some());
}

/// Draw `text` at the origin, run the selection overlay and, as the terminal
/// does, hand what it gives out to a clipboard that answers `takes`.
fn draw_with_overlay(
    dash: &mut Dashboard,
    text: &str,
    area: Rect,
    takes: bool,
) -> (Buffer, Option<String>) {
    let mut buf = Buffer::empty(ratatui::layout::Rect::new(0, 0, 40, 10));
    let drawn = ratatui::layout::Rect::new(area.x, area.y, area.width, area.height);
    Paragraph::new(text.to_string()).render(drawn, &mut buf);
    dash.mouse.selection_regions.push(area);
    let copied = match dash.apply_selection_overlay(&mut buf) {
        Some(text) => {
            let worth = Dashboard::worth_copying(&text);
            dash.finish_copy(&text, takes);
            if worth {
                Some(text)
            } else {
                None
            }
        }
        None => None,
    };
    (buf, copied)
}

#[test]
fn overlay_highlights_the_dragged_range() {
    let mut dash = Dashboard::new();
    let area = Rect::new(0, 0, 20, 2);
    dash.mouse.selection_regions.push(area);
    dash.handle_mouse(mouse(MouseEventKind::LeftDown, 2, 0));
    dash.handle_mouse(mouse(MouseEventKind::LeftDrag, 6, 0));
    dash.mouse.selection_regions.clear();
    let (buf, copied) = draw_with_overlay(&mut dash, "hello world", area, true);
    assert!(reversed(&buf, 2, 0) && reversed(&buf, 6, 0));
    assert!(!reversed(&buf, 0, 0) && !reversed(&buf, 7, 0));
    // Still an active drag: nothing copied, selection retained.
    assert_eq!(copied, None);
    assert!(dash.mouse.selection.is_some());
    assert!(dash.notes.toasts.is_empty());
}

#[test]
fn overlay_without_a_selection_does_nothing() {
    let mut dash = Dashboard::new();
    let area = Rect::new(0, 0, 20, 2);
    let (buf, _) = draw_with_overlay(&mut dash, "hello world", area, true);
    assert!(!(0..20).any(|x| reversed(&buf, x, 0)));
}

fn select_range(dash: &mut Dashboard, area: Rect, from: (u16, u16), to: (u16, u16)) {
    dash.mouse.selection_regions.push(area);
    dash.handle_mouse(mouse(MouseEventKind::LeftDown, from.0, from.1));
    dash.handle_mouse(mouse(MouseEventKind::LeftDrag, to.0, to.1));
    dash.handle_mouse(mouse(MouseEventKind::LeftUp, to.0, to.1));
    dash.mouse.selection_regions.clear();
}

#[test]
fn released_selection_copies_the_visible_text_and_toasts() {
    let mut dash = Dashboard::new();
    let area = Rect::new(0, 0, 20, 2);
    select_range(&mut dash, area, (6, 0), (10, 0));
    let (_, copied) = draw_with_overlay(&mut dash, "hello world", area, true);
    assert_eq!(copied, Some("world".to_string()));
    assert!(dash.mouse.selection.is_none());
    assert_eq!(dash.notes.toasts.len(), 1);
    assert_eq!(dash.notes.toasts[0].message, "Copied 5 chars");
    assert_eq!(dash.notes.toasts[0].level, ToastLevel::Info);
}

#[test]
fn multi_line_copy_reports_the_line_count() {
    let mut dash = Dashboard::new();
    let area = Rect::new(0, 0, 10, 3);
    select_range(&mut dash, area, (0, 0), (2, 1));
    let (_, copied) = draw_with_overlay(&mut dash, "abc\ndef", area, true);
    assert_eq!(copied, Some("abc\ndef".to_string()));
    assert_eq!(dash.notes.toasts[0].message, "Copied 7 chars (2 lines)");
}

#[test]
fn whitespace_only_selection_copies_nothing_and_stays_silent() {
    let mut dash = Dashboard::new();
    let area = Rect::new(0, 0, 20, 2);
    select_range(&mut dash, area, (0, 1), (5, 1));
    let (_, copied) = draw_with_overlay(&mut dash, "text on row zero only", area, false);
    assert_eq!(copied, None);
    assert!(dash.mouse.selection.is_none());
    assert!(dash.notes.toasts.is_empty());
}

#[test]
fn clipboard_failure_shows_the_unavailable_toast() {
    let mut dash = Dashboard::new();
    let area = Rect::new(0, 0, 20, 2);
    select_range(&mut dash, area, (0, 0), (4, 0));
    draw_with_overlay(&mut dash, "hello world", area, false);
    assert_eq!(messages(&dash), vec!["Clipboard unavailable (no pbcopy/xclip/OSC52)".to_string()]);
    assert_eq!(dash.notes.toasts[0].level, ToastLevel::Error);
}

#[test]
fn a_selection_of_a_pane_that_went_is_not_painted() {
    let mut dash = Dashboard::new();
    dash.mouse.selection = Some(Selection {
        region: region(),
        anchor: (2, 1),
        cursor: (6, 1),
        dragging: false,
        moved: true,
        pending_copy: true,
    });
    let (buf, copied) = draw_with_overlay(&mut dash, "hello world", Rect::new(0, 0, 20, 2), true);
    assert_eq!(copied, None);
    assert!(!(0..20).any(|x| reversed(&buf, x, 1)));
    assert!(dash.mouse.selection.is_none());
}

/// Any scroll clears the selection: over the run list, with rows and without, over the
/// log, and anywhere else.
#[test]
fn any_scroll_clears_the_selection() {
    let begin = |dash: &mut Dashboard| {
        dash.mouse.selection_regions = vec![Rect::new(0, 0, 80, 40)];
        dash.handle_mouse(mouse(MouseEventKind::LeftDown, 3, 3));
        dash.handle_mouse(mouse(MouseEventKind::LeftDrag, 9, 4));
        assert!(dash.mouse.selection.is_some());
    };
    let mut dash = Dashboard::new();
    dash.mouse.pane_rects = vec![
        (PaneId::RunTable, Rect::new(0, 0, 80, 20)),
        (PaneId::LogPanel, Rect::new(0, 20, 80, 15)),
    ];
    for (rows, row) in [(vec![0, 1], 5), (vec![], 5), (vec![], 25), (vec![], 38)] {
        dash.runs.display_indices = rows;
        begin(&mut dash);
        dash.handle_mouse(mouse(MouseEventKind::ScrollDown, 5, row));
        assert!(dash.mouse.selection.is_none(), "row {row}");
    }
}
