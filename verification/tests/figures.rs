//! Figures, fitting text to its room, and rectangles.

use leviath_dashboard::fit::fit_parts;
use leviath_dashboard::numbers::{compact_count, format_tokens, share_percent};
use leviath_dashboard::render::content::{percent_scrolled, scroll_info, settle_scroll};
use leviath_dashboard::style::Rect;
use leviath_dashboard::text::{fit, lines, pad_left, pad_right, trim, truncate};

fn parts(texts: &[&str]) -> Vec<String> {
    texts.iter().map(|s| s.to_string()).collect()
}

#[test]
fn token_figures_are_cut_to_thousands_and_millions() {
    for (count, text) in [
        (0, "0"),
        (999, "999"),
        (1_000, "1k"),
        (58_267, "58k"),
        (999_999, "999k"),
        (1_000_000, "1M"),
        (25_400_000, "25M"),
    ] {
        assert_eq!(format_tokens(count), text);
    }
}

#[test]
fn compact_counts_round_as_the_float_they_stand_for() {
    for (count, text) in [
        (999, "999"),
        (1_000, "1.0k"),
        (1_049, "1.0k"),
        (1_250, "1.2k"),
        (1_350, "1.4k"),
        (10_000, "10k"),
        (100_000, "100k"),
    ] {
        assert_eq!(compact_count(count), text);
        let wanted = if count < 1000 {
            format!("{count}")
        } else if count < 10_000 {
            format!("{:.1}k", count as f64 / 1000.0)
        } else {
            format!("{:.0}k", count as f64 / 1000.0)
        };
        assert_eq!(text, wanted);
    }
}

#[test]
fn shares_round_as_the_float_they_stand_for() {
    for (part, whole) in [
        (1, 1),
        (1, 3),
        (1, 200),
        (3, 200),
        (909_343, 1_464_418),
        (410_000, 1_410_000),
        (usize::MAX / 3, usize::MAX),
        (usize::MAX, usize::MAX),
    ] {
        let wanted = (part as f64 / whole as f64 * 100.0).round_ties_even() as u64;
        let shown: u64 = format!("{:.0}", part as f64 / whole as f64 * 100.0).parse().unwrap();
        assert_eq!(wanted, shown);
        assert_eq!(share_percent(part, whole), shown, "{part}/{whole}");
    }
}

#[test]
fn text_is_cut_by_columns_not_characters() {
    assert_eq!(fit("abcdef", 6), "abcdef");
    assert_eq!(fit("abcdef", 5), "abcd…");
    assert_eq!(truncate("日本語テキスト", 14), "日本語テキスト");
    // Seven columns: three wide characters and the ellipsis.
    assert_eq!(truncate("日本語テキスト", 7), "日本語…");
    assert_eq!(truncate("日本語テキスト", 6), "日本…");
}

#[test]
fn parts_give_way_in_the_order_named() {
    let row = parts(&["a-long-title-indeed", " · ", "a-long-status-too", " · id"]);
    // Everything fits.
    assert_eq!(fit_parts(&row, 60, &vec![0, 2]), row);
    // The first named gives way down to its floor, then the next.
    let cut = fit_parts(&row, 36, &vec![0, 2]).concat();
    assert!(cut.ends_with("a-long-status-too · id"), "{cut}");
    assert!(cut.contains('…'), "{cut}");
    let tight = fit_parts(&row, 28, &vec![0, 2]);
    assert_eq!(tight[3], " · id", "what is not named stays whole");
    assert!(tight[0].chars().count() >= 8, "{tight:?}");
}

#[test]
fn lines_end_at_line_breaks() {
    assert_eq!(lines("a\nb\r\nc\n"), parts(&["a", "b", "c"]));
    assert_eq!(lines("a\n\nb"), parts(&["a", "", "b"]));
    assert!(lines("").is_empty());
    for text in ["a\rb", "\r\n", "\n", "a\r\r\n", "x\n\n"] {
        let wanted: Vec<String> = text.lines().map(str::to_string).collect();
        assert_eq!(lines(text), wanted, "{text:?}");
    }
}

#[test]
fn trimming_takes_every_kind_of_blank() {
    for text in ["  a b ", "\u{3000}x\u{a0}", "\t\n", "", "\u{200b}y"] {
        assert_eq!(trim(text), text.trim(), "{text:?}");
    }
}

#[test]
fn padding_fills_to_a_width_and_never_cuts() {
    assert_eq!(pad_right("ab", 4), "ab  ");
    assert_eq!(pad_left("ab", 4), "  ab");
    assert_eq!(pad_right("abcde", 4), "abcde");
    assert_eq!(pad_left("日本", 4), format!("{:>4}", "日本"));
}

#[test]
fn a_view_settles_within_its_rows() {
    assert_eq!(settle_scroll(99, 50, 18, None), 32);
    assert_eq!(settle_scroll(5, 50, 18, None), 5);
    assert_eq!(settle_scroll(5, 10, 18, None), 0);
    assert_eq!(percent_scrolled(0, 32), 100);
    assert_eq!(percent_scrolled(32, 32), 0);
    assert_eq!(percent_scrolled(0, 0), 100);
    assert_eq!(scroll_info(5, 50, 18), " 85% (45/50) ");
    assert_eq!(scroll_info(0, 10, 18), "");
}

#[test]
fn a_border_takes_a_cell_on_every_side() {
    assert_eq!(Rect::new(2, 3, 10, 8).inner(), Rect::new(3, 4, 8, 6));
    assert_eq!(Rect::new(0, 0, 10, 1).right(), 10);
    assert!(Rect::new(2, 3, 10, 8).contains(11, 10));
    assert!(!Rect::new(2, 3, 10, 8).contains(12, 10));
}

/// A jump brings its row into view, and a pane of one row is the one that it may
/// leave a row above.
#[test]
fn a_jump_brings_its_row_into_view() {
    for (rows, height) in [(40_usize, 2_usize), (40, 5), (40, 12), (3, 10)] {
        for above in 0..rows {
            let scroll = settle_scroll(0, rows, height, Some(above));
            let hidden = rows.saturating_sub(height) - scroll;
            assert!(hidden <= above && above < hidden + height, "{above} of {rows}");
        }
    }
    assert_eq!(settle_scroll(0, 40, 1, Some(7)), 33, "row 6 is the one shown");
}

/// All the way down the last row is the pane's last, and all the way up the first
/// is its first.
#[test]
fn both_ends_of_the_text_are_in_reach() {
    let (rows, height) = (50, 18);
    let limit = rows - height;
    assert_eq!(limit - settle_scroll(0, rows, height, None) + height, rows);
    assert_eq!(limit - settle_scroll(rows, rows, height, None), 0);
}
