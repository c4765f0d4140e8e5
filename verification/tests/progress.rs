use kbar::progress::bar::Bar;

fn expected_line(label: &str, filled: &str, empty: &str, number: &str) -> String {
    let mut line = String::from(label);
    while line.chars().count() < 50 {
        line.push(' ');
    }
    line.push('[');
    line.push_str(filled);
    line.push_str(empty);
    line.push(']');
    let mut num = String::from(number);
    while num.chars().count() < 4 {
        num.insert(0, ' ');
    }
    line.push_str(&num);
    line.push('%');
    line
}

#[test]
fn labelled_line_at_half() {
    let mut bar = Bar::new();
    bar.set_job_label("Loading");
    bar.reach_percent(50);
    let line = bar.progress_line(67);
    assert_eq!(line, expected_line("Loading", &"█".repeat(5), &" ".repeat(5), "50"));
}

#[test]
fn past_a_hundred_the_glyphs_flip() {
    let mut bar = Bar::new();
    bar.reach_percent(150);
    let line = bar.progress_line(67);
    assert_eq!(line, expected_line("", &" ".repeat(5), &"█".repeat(5), "150"));
}

#[test]
fn second_hundred_fills_again() {
    let mut bar = Bar::new();
    bar.reach_percent(230);
    let line = bar.progress_line(67);
    assert_eq!(line, expected_line("", &"█".repeat(3), &" ".repeat(7), "230"));
}

#[test]
fn negative_progress_overruns_the_right_cap() {
    let mut bar = Bar::new();
    bar.add_percent(-30);
    let line = bar.progress_line(67);
    assert_eq!(line, expected_line("", "", &" ".repeat(13), "-30"));
}

#[test]
fn add_percent_accumulates() {
    let mut bar = Bar::new();
    bar.add_percent(30);
    bar.add_percent(40);
    assert_eq!(bar.progress_percentage(), 70);
    let line = bar.progress_line(67);
    assert_eq!(line, expected_line("", &"█".repeat(7), &" ".repeat(3), "70"));
}

#[test]
fn jobs_done_resets_label_and_progress() {
    let mut bar = Bar::new();
    bar.set_job_label("Copying");
    bar.reach_percent(70);
    bar.jobs_done();
    assert_eq!(bar.progress_percentage(), 0);
    let line = bar.progress_line(67);
    assert_eq!(line, expected_line("", "", &" ".repeat(10), "0"));
}

#[test]
fn narrow_terminal_leaves_no_cells() {
    let mut bar = Bar::new();
    bar.reach_percent(80);
    let line = bar.progress_line(57);
    assert_eq!(line, expected_line("", "", "", "80"));
}

#[test]
fn long_label_is_not_truncated() {
    let mut bar = Bar::new();
    let label = "x".repeat(60);
    bar.set_job_label(&label);
    bar.reach_percent(0);
    let line = bar.progress_line(67);
    assert_eq!(line, expected_line(&label, "", &" ".repeat(10), "0"));
}
