use progress_bar::format::{push_decimal, push_repeat};
use progress_bar::{ProgressBar, RenderPlan, PROGRESS_BAR_WIDTH};

/// The bar glyphs of a rendered line: what stands between '[' and ']'.
fn bar_of(text: &str) -> &str {
    let open = text.find('[').expect("no opening bracket");
    let close = text.find(']').expect("no closing bracket");
    &text[open + 1..close]
}

/// The percentage of a rendered line, parsed from between "] " and "%".
fn percent_of(text: &str) -> f64 {
    let close = text.find(']').expect("no closing bracket");
    let rest = &text[close + 2..];
    let pct_end = rest.find('%').expect("no percent sign");
    rest[..pct_end].parse().expect("percentage did not parse")
}

#[test]
fn new_initial_state() {
    let bar = ProgressBar::new(100, 7, 42);
    assert_eq!(bar.total, 100);
    assert_eq!(bar.current, 0);
    assert_eq!(bar.line, 7);
    assert_eq!(bar.start_ms, 42);
    assert_eq!(bar.last_update_ms, 42);
    assert_eq!(bar.measured_ms, 0);
    assert_eq!(bar.measured_units, 0);
    assert_eq!(bar.last_message_len, 0);
}

#[test]
fn bar_fill_at_half() {
    let mut bar = ProgressBar::new(100, 3, 0);
    let plan: RenderPlan = bar.update(50, 1000);
    let expected = format!(
        "\rProgress: [{}{}] 50.00% | Elapsed: 1s | Remaining: 1s",
        "=".repeat(25),
        " ".repeat(25)
    );
    assert_eq!(plan.text, expected);
    let glyphs = bar_of(&plan.text);
    assert_eq!(glyphs.len(), PROGRESS_BAR_WIDTH);
    assert_eq!(glyphs.chars().filter(|c| *c == '=').count(), 25);
    assert_eq!(glyphs.chars().filter(|c| *c == ' ').count(), 25);
    assert!(glyphs[..25].chars().all(|c| c == '='));
    assert_eq!(plan.row, 3);
    assert!(!plan.clear);
    assert!(!plan.newline);
}

#[test]
fn completion_render() {
    let mut bar = ProgressBar::new(10, 0, 0);
    let up = bar.update(10, 1000);
    assert_eq!(bar.current, bar.total);
    let expected = format!(
        "\rProgress: [{}] 100.00% | Elapsed: 1s | Remaining: 0s",
        "=".repeat(50)
    );
    assert_eq!(up.text, expected);
    let fin = bar.finish(1000);
    assert_eq!(bar.current, bar.total);
    assert_eq!(fin.text, expected);
    assert!(fin.newline);
}

#[test]
fn average_two_samples() {
    let mut bar = ProgressBar::new(2, 0, 0);
    bar.update(1, 2000);
    // one unit measured over 2.0 s: the average is (0 * 0 + 2.0) / 1 = 2.0 s
    assert_eq!(bar.measured_ms, 2000);
    assert_eq!(bar.measured_units, 1);
    assert_eq!(bar.measured_ms / bar.measured_units as u64, 2000);
    bar.update(2, 3000);
    // folding in a further 1.0 s: (2.0 * 1 + 1.0) / 2 = 1.5 s
    assert_eq!(bar.measured_ms, 3000);
    assert_eq!(bar.measured_units, 2);
    assert_eq!(bar.measured_ms / bar.measured_units as u64, 1500);
}

#[test]
fn zero_units_keeps_average() {
    let mut bar = ProgressBar::new(5, 0, 0);
    bar.update(2, 1000);
    assert_eq!(bar.measured_ms, 1000);
    bar.update(2, 9999);
    assert_eq!(bar.measured_ms, 1000);
    assert_eq!(bar.measured_units, 2);
    assert_eq!(bar.current, 2);
    assert_eq!(bar.last_update_ms, 9999);
    bar.update(3, 10999);
    assert_eq!(bar.measured_ms, 2000);
}

#[test]
fn clear_only_when_shorter() {
    let mut bar = ProgressBar::new(10, 0, 0);
    let first = bar.update(1, 5000);
    assert!(first.text.ends_with("Elapsed: 5s | Remaining: 45s"));
    assert!(!first.clear);
    let second = bar.update(9, 5500);
    assert!(second.text.ends_with("Elapsed: 5s | Remaining: 0s"));
    assert!(second.text.len() < first.text.len());
    assert!(second.clear);
    let third = bar.update(10, 6000);
    assert!(third.text.len() > second.text.len());
    assert!(!third.clear);
    let fourth = bar.finish(6000);
    assert_eq!(fourth.text.len(), third.text.len());
    assert!(!fourth.clear);
}

#[test]
fn finish_twice() {
    let mut bar = ProgressBar::new(4, 2, 0);
    bar.update(4, 800);
    let first = bar.finish(800);
    assert_eq!(bar.current, 4);
    assert!(first.newline);
    assert!(first.text.contains("100.00%"));
    let second = bar.finish(800);
    assert_eq!(bar.current, 4);
    assert!(second.newline);
    assert!(second.text.contains("100.00%"));
    assert_eq!(first.text, second.text);
}

#[test]
fn finish_before_completion_projects_from_average() {
    let mut bar = ProgressBar::new(10, 0, 0);
    let halfway = bar.update(5, 5000);
    // average 1.0 s per unit, projected 10 s, elapsed 5 s
    assert!(halfway.text.ends_with("] 50.00% | Elapsed: 5s | Remaining: 5s"));
    let fin = bar.finish(6000);
    assert_eq!(bar.current, 10);
    assert_eq!(bar.measured_ms, 5000);
    assert_eq!(bar.measured_units, 5);
    // the average is untouched: projected 10 s, elapsed 6 s, 4 s left
    let expected = format!(
        "\rProgress: [{}] 100.00% | Elapsed: 6s | Remaining: 4s",
        "=".repeat(50)
    );
    assert_eq!(fin.text, expected);
    assert!(fin.newline);
}

#[test]
fn percentage_monotone_sequence() {
    let mut bar = ProgressBar::new(7, 0, 0);
    let values: [usize; 4] = [0, 1, 3, 7];
    let times: [u64; 4] = [0, 100, 200, 300];
    let mut last = -1.0f64;
    for i in 0..values.len() {
        let plan = bar.update(values[i], times[i]);
        let pct = percent_of(&plan.text);
        assert!(pct >= last);
        assert!((0.0..=100.0).contains(&pct));
        last = pct;
    }
    assert_eq!(last, 100.0);
}

#[test]
fn rounding_to_nearest_hundredth() {
    let mut bar = ProgressBar::new(3, 0, 0);
    let one = bar.update(1, 0);
    assert!(one.text.contains(" 33.33% "));
    let two = bar.update(2, 0);
    assert!(two.text.contains(" 66.67% "));
}

#[test]
fn single_unit_total() {
    let mut bar = ProgressBar::new(1, 0, 0);
    let plan = bar.update(1, 1);
    let expected = format!(
        "\rProgress: [{}] 100.00% | Elapsed: 0s | Remaining: 0s",
        "=".repeat(50)
    );
    assert_eq!(plan.text, expected);
}

#[test]
fn largest_total() {
    let mut bar = ProgressBar::new(usize::MAX, 0, 0);
    let half = bar.update(usize::MAX / 2, 5);
    assert!(half.text.contains(" 50.00% "));
    let plan = bar.update(usize::MAX, 10);
    assert!(plan.text.contains(" 100.00% "));
    assert_eq!(bar_of(&plan.text).chars().filter(|c| *c == '=').count(), 50);
}

#[test]
fn zero_percent_render() {
    let mut bar = ProgressBar::new(8, 0, 0);
    let plan = bar.update(0, 2000);
    let expected = format!(
        "\rProgress: [{}] 0.00% | Elapsed: 2s | Remaining: 0s",
        " ".repeat(50)
    );
    assert_eq!(plan.text, expected);
    assert_eq!(bar.measured_ms, 0);
}

#[test]
fn decimal_formatting() {
    let mut s = String::new();
    push_decimal(&mut s, 0);
    assert_eq!(s, "0");
    let mut s = String::new();
    push_decimal(&mut s, 10);
    assert_eq!(s, "10");
    let mut s = String::from("x");
    push_decimal(&mut s, 9087654321);
    assert_eq!(s, "x9087654321");
    let mut s = String::new();
    push_decimal(&mut s, u128::MAX);
    assert_eq!(s, "340282366920938463463374607431768211455");
}

#[test]
fn repeat_glyphs() {
    let mut s = String::new();
    push_repeat(&mut s, "=", 3);
    push_repeat(&mut s, " ", 0);
    push_repeat(&mut s, "-", 2);
    assert_eq!(s, "===--");
}
