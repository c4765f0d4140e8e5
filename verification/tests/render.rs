use kbar::{BarType, ConfigurationError, KBar};

#[test]
fn bracketed_half_with_percent() {
    let mut bar = KBar::new(BarType::Bar, false, true, 10).unwrap();
    bar.update(50);
    assert_eq!(bar.render(), "[█████=====] 50%");
}

#[test]
fn raw_quarter_without_percent() {
    let mut bar = KBar::new(BarType::RawBar, false, false, 20).unwrap();
    bar.update(25);
    assert_eq!(bar.render(), "█████");
}

#[test]
fn zero_length_is_rejected() {
    let r = KBar::new(BarType::Bar, false, true, 0);
    assert!(matches!(r, Err(ConfigurationError)));
    let r = KBar::new_at(3, 4, BarType::Dots, true, false, 0);
    assert!(matches!(r, Err(ConfigurationError)));
}

#[test]
fn over_long_bar_is_rejected() {
    assert!(matches!(KBar::new(BarType::Bar, false, true, 101), Err(ConfigurationError)));
    assert!(KBar::new(BarType::Bar, false, true, 100).is_ok());
    assert!(KBar::new(BarType::Bar, false, true, 1).is_ok());
}

#[test]
fn update_clamps_to_hundred() {
    let mut bar = KBar::new(BarType::Bar, false, true, 10).unwrap();
    bar.update(101);
    assert!(bar.is_complete());
    assert_eq!(bar.render(), "[██████████] 100%");
    let mut bar = KBar::new(BarType::Bar, false, true, 10).unwrap();
    bar.update(255);
    assert!(bar.is_complete());
    assert_eq!(bar.render(), "[██████████] 100%");
}

#[test]
fn complete_iff_hundred() {
    let mut bar = KBar::new(BarType::RawBar, false, false, 20).unwrap();
    assert!(!bar.is_complete());
    bar.update(99);
    assert!(!bar.is_complete());
    bar.update(100);
    assert!(bar.is_complete());
    bar.update(40);
    assert!(!bar.is_complete());
    bar.update(200);
    assert!(bar.is_complete());
}

#[test]
fn dots_freeze_on_odd_percent() {
    let mut bar = KBar::new(BarType::Dots, false, false, 10).unwrap();
    bar.update(51);
    let first = bar.render();
    let second = bar.render();
    assert_eq!(first, ".  ");
    assert_eq!(first, second);
}

#[test]
fn line_freezes_on_odd_percent() {
    let mut bar = KBar::new(BarType::Line, false, false, 10).unwrap();
    bar.update(7);
    let first = bar.render();
    let second = bar.render();
    assert_eq!(first, "|");
    assert_eq!(first, second);
}

#[test]
fn dots_cycle_on_even_percent() {
    let mut bar = KBar::new(BarType::Dots, false, false, 10).unwrap();
    assert_eq!(bar.render(), ".. ");
    assert_eq!(bar.render(), "...");
    assert_eq!(bar.render(), ".  ");
    assert_eq!(bar.render(), ".. ");
}

#[test]
fn line_cycles_on_even_percent() {
    let mut bar = KBar::new(BarType::Line, false, false, 10).unwrap();
    bar.update(42);
    assert_eq!(bar.render(), "/");
    assert_eq!(bar.render(), "-");
    assert_eq!(bar.render(), "\\");
    assert_eq!(bar.render(), "|");
    assert_eq!(bar.render(), "/");
}

#[test]
fn dots_with_percent_text() {
    let mut bar = KBar::new(BarType::Dots, false, true, 10).unwrap();
    bar.update(2);
    assert_eq!(bar.render(), "..  2%");
}

#[test]
fn bracketed_width_is_exact_for_even_weights() {
    let lengths: Vec<u16> = vec![1, 2, 3, 4, 5, 6, 7, 8, 9, 10, 11, 12, 14, 16, 20, 25, 33, 50, 100];
    for &length in &lengths {
        for percent in 0..=100u8 {
            let mut bar = KBar::new(BarType::Bar, false, false, length).unwrap();
            bar.update(percent);
            let line = bar.render();
            assert_eq!(
                line.chars().count(),
                length as usize + 2,
                "length {} percent {}",
                length,
                percent
            );
        }
    }
}

#[test]
fn uneven_weights_can_overrun_the_length() {
    // 100 / (100 / 13) is 14, so near completion the bar runs one cell
    // long: the width law holds only for lengths the cell weight
    // measures back exactly.
    let mut bar = KBar::new(BarType::Bar, false, false, 13).unwrap();
    bar.update(98);
    let line = bar.render();
    assert_eq!(line.chars().count(), 14 + 2);
}

#[test]
fn every_length_renders_without_panic() {
    for length in 1..=100u16 {
        for percent in 0..=100u8 {
            let mut bar = KBar::new(BarType::Bar, false, true, length).unwrap();
            bar.update(percent);
            let line = bar.render();
            assert!(line.starts_with('['));
        }
    }
}

#[test]
fn colorized_raw_bar_escapes() {
    let mut bar = KBar::new(BarType::RawBar, true, true, 20).unwrap();
    bar.update(50);
    let expected = format!(
        "\u{1b}[38;2;155;100;25m{} \u{1b}[38;2;155;100;25m50\u{1b}[37m%",
        "█".repeat(10)
    );
    assert_eq!(bar.render(), expected);
}

#[test]
fn colorized_bracketed_bar_escapes() {
    let mut bar = KBar::new(BarType::Bar, true, true, 10).unwrap();
    bar.update(25);
    let expected = format!(
        "\u{1b}[37m[\u{1b}[38;2;205;50;25m{}\u{1b}[90m{}\u{1b}[37m] \u{1b}[38;2;205;50;25m25\u{1b}[37m%",
        "█".repeat(2),
        "█".repeat(8)
    );
    assert_eq!(bar.render(), expected);
}

#[test]
fn colorized_dots_escape_without_reset() {
    let mut bar = KBar::new(BarType::Dots, true, true, 10).unwrap();
    bar.update(3);
    assert_eq!(bar.render(), ".   \u{1b}[38;2;249;6;25m3%");
}

#[test]
fn position_is_remembered() {
    let bar = KBar::new_at(7, 5, BarType::Dots, true, true, 20).unwrap();
    assert_eq!(bar.x(), 7);
    assert_eq!(bar.y(), 5);
    assert!(bar.color());
}

#[test]
fn default_bar_is_colorized_bracketed() {
    let mut bar = KBar::default();
    assert!(!bar.is_complete());
    assert!(bar.color());
    bar.update(100);
    assert!(bar.is_complete());
    let line = bar.render();
    assert!(line.contains('['));
    assert!(line.contains("100"));
}
