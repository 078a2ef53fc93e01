use vstd::prelude::*;
use vstd::arithmetic::div_mod::{
    lemma_div_decreases, lemma_div_is_ordered, lemma_div_multiples_vanish,
    lemma_div_multiples_vanish_fancy,
};
use vstd::arithmetic::mul::{lemma_mul_inequality, lemma_mul_upper_bound};
use vstd::string::StringExecFns;
use crate::format::{dec_seq, digit_char, digit_str, push_decimal, push_repeat, repeat_char};
use crate::PROGRESS_BAR_WIDTH;

verus! {

/// Completion percentage in hundredths of a percent, rounded to the
/// nearest hundredth: `current / total * 100`, scaled by 100.
pub open spec fn percent_hundredths(current: int, total: int) -> int {
    (current * 10000 + total / 2) / total
}

/// Number of filled cells of the bar: `floor(current / total * width)`.
pub open spec fn bar_fill(current: int, total: int) -> int {
    current * (PROGRESS_BAR_WIDTH as int) / total
}

/// The bar glyphs: `fill` filled cells, then blanks up to the fixed width.
pub open spec fn bar_seq(fill: int) -> Seq<char> {
    repeat_char('=', fill as nat) + repeat_char(' ', (PROGRESS_BAR_WIDTH - fill) as nat)
}

/// Whole seconds of elapsed time, for display.
pub open spec fn elapsed_display_secs(elapsed_ms: int) -> int {
    elapsed_ms / 1000
}

/// Whole seconds of the projected time remaining, for display.
///
/// The running average cost per unit is `measured_ms / measured_units`
/// milliseconds, so the projected total is `measured_ms * total /
/// measured_units` and the remainder after `elapsed_ms` is clamped at
/// zero: `max(0, measured_ms * total / measured_units - elapsed_ms)`,
/// in whole seconds.
pub open spec fn remaining_display_secs(
    measured_ms: int,
    total: int,
    measured_units: int,
    elapsed_ms: int,
) -> int {
    if measured_units > 0 && measured_ms * total > elapsed_ms * measured_units {
        (measured_ms * total - elapsed_ms * measured_units) / (measured_units * 1000)
    } else {
        0
    }
}

/// The percentage rendered with two decimals: the whole percents, a
/// point, then the hundredths as exactly two digits.
pub open spec fn percent_seq(hundredths: int) -> Seq<char> {
    dec_seq((hundredths / 100) as nat) + seq![
        '.',
        digit_char(hundredths % 100 / 10),
        digit_char(hundredths % 10),
    ]
}

/// The full progress line, exactly as it is written to the terminal.
pub open spec fn render_line(
    total: int,
    current: int,
    measured_ms: int,
    measured_units: int,
    elapsed_ms: int,
) -> Seq<char> {
    "\rProgress: ["@ + bar_seq(bar_fill(current, total)) + "] "@ + percent_seq(
        percent_hundredths(current, total),
    ) + "% | Elapsed: "@ + dec_seq(elapsed_display_secs(elapsed_ms) as nat) + "s | Remaining: "@
        + dec_seq(remaining_display_secs(measured_ms, total, measured_units, elapsed_ms) as nat)
        + "s"@
}

/// One in-place redraw of the progress line, ready for a terminal to
/// carry out: move to `row`, clear the row first exactly when `clear`
/// holds, write `text`, and end the line exactly when `newline` holds.
pub struct RenderPlan {
    pub row: u16,
    pub clear: bool,
    pub text: String,
    pub newline: bool,
}

/// An in-place progress indicator for a task of `total` units.
///
/// Times are taken as milliseconds of a monotonic clock, handed in by
/// the caller; the indicator itself never touches a clock or a
/// terminal. Each operation returns the [`RenderPlan`] that a terminal
/// should carry out.
pub struct ProgressBar {
    /// Number of units that stand for full completion; at least 1.
    pub total: usize,
    /// Units completed so far; at most `total`.
    pub current: usize,
    /// The fixed terminal row that every redraw targets.
    pub line: u16,
    /// Clock reading at construction, in milliseconds.
    pub start_ms: u64,
    /// Clock reading at the most recent update, in milliseconds.
    pub last_update_ms: u64,
    /// Milliseconds accumulated by updates that advanced the count.
    ///
    /// The running cumulative weighted average cost per unit is
    /// `measured_ms / measured_units` milliseconds: folding one more
    /// gap `e` in at count `value` by the weighted-average rule
    /// `(average * measured_units + e) / value` is the same as adding
    /// `e` here and setting `measured_units` to `value`.
    pub measured_ms: u64,
    /// The count the accumulated measurement covers: the value of the
    /// most recent update that advanced the count, and so the
    /// denominator of the running average. `finish` leaves it alone,
    /// so the final render still projects from the average as it
    /// stood.
    pub measured_units: usize,
    /// Character length of the most recently rendered line.
    pub last_message_len: usize,
}

impl ProgressBar {
    /// The state is well formed: the count stays within `total`, the
    /// clock readings are ordered, and the accumulated measurement
    /// never exceeds the span it was measured over.
    pub open spec fn wf(self) -> bool {
        &&& 1 <= self.total
        &&& self.current <= self.total
        &&& self.measured_units <= self.current
        &&& self.start_ms <= self.last_update_ms
        &&& self.measured_ms <= self.last_update_ms - self.start_ms
        &&& (self.measured_units == 0 ==> self.measured_ms == 0)
    }

    /// Creates an indicator for `total` units, anchored to the
    /// terminal row `row`, with the clock reading `now_ms`.
    pub fn new(total: usize, row: u16, now_ms: u64) -> (bar: ProgressBar)
        requires
            1 <= total,
        ensures
            bar.wf(),
            bar.total == total,
            bar.current == 0,
            bar.line == row,
            bar.start_ms == now_ms,
            bar.last_update_ms == now_ms,
            bar.measured_ms == 0,
            bar.measured_units == 0,
            bar.last_message_len == 0,
    {
        ProgressBar {
            total,
            current: 0,
            line: row,
            start_ms: now_ms,
            last_update_ms: now_ms,
            measured_ms: 0,
            measured_units: 0,
            last_message_len: 0,
        }
    }

    /// Advances the completed count to the absolute value `value` at
    /// clock reading `now_ms` and renders.
    ///
    /// When the count advances, the gap since the previous update is
    /// folded into the running average by the cumulative
    /// weighted-average rule; when `value == current` the average is
    /// left untouched.
    pub fn update(&mut self, value: usize, now_ms: u64) -> (plan: RenderPlan)
        requires
            old(self).wf(),
            old(self).current <= value <= old(self).total,
            old(self).last_update_ms <= now_ms,
        ensures
            final(self).wf(),
            final(self).total == old(self).total,
            final(self).line == old(self).line,
            final(self).start_ms == old(self).start_ms,
            final(self).current == value,
            final(self).last_update_ms == now_ms,
            value == old(self).current ==> final(self).measured_ms == old(self).measured_ms
                && final(self).measured_units == old(self).measured_units,
            value > old(self).current ==> final(self).measured_ms == old(self).measured_ms + (
            now_ms - old(self).last_update_ms) && final(self).measured_units == value,
            plan.text@ == render_line(
                old(self).total as int,
                value as int,
                final(self).measured_ms as int,
                final(self).measured_units as int,
                now_ms - old(self).start_ms,
            ),
            plan.row == old(self).line,
            plan.clear == (plan.text@.len() < old(self).last_message_len),
            !plan.newline,
            final(self).last_message_len == plan.text@.len(),
    {
        let elapsed_since_last: u64 = now_ms - self.last_update_ms;
        if value > self.current {
            self.measured_ms = self.measured_ms + elapsed_since_last;
            self.measured_units = value;
        }
        self.current = value;
        self.last_update_ms = now_ms;
        self.print(now_ms)
    }

    /// Forces the count to `total` and renders one final line, to be
    /// followed by a newline. The running average is left untouched,
    /// so the remaining time is still projected from it. Calling it
    /// again renders at full completion again.
    pub fn finish(&mut self, now_ms: u64) -> (plan: RenderPlan)
        requires
            old(self).wf(),
            old(self).last_update_ms <= now_ms,
        ensures
            final(self).wf(),
            final(self).total == old(self).total,
            final(self).line == old(self).line,
            final(self).start_ms == old(self).start_ms,
            final(self).last_update_ms == old(self).last_update_ms,
            final(self).measured_ms == old(self).measured_ms,
            final(self).measured_units == old(self).measured_units,
            final(self).current == old(self).total,
            plan.text@ == render_line(
                old(self).total as int,
                old(self).total as int,
                old(self).measured_ms as int,
                old(self).measured_units as int,
                now_ms - old(self).start_ms,
            ),
            plan.row == old(self).line,
            plan.clear == (plan.text@.len() < old(self).last_message_len),
            plan.newline,
            final(self).last_message_len == plan.text@.len(),
    {
        self.current = self.total;
        let mut plan = self.print(now_ms);
        plan.newline = true;
        plan
    }

    /// Renders the current state into a plan and records the new line
    /// length; the row is cleared first exactly when the new line is
    /// shorter than the previous one.
    fn print(&mut self, now_ms: u64) -> (plan: RenderPlan)
        requires
            old(self).wf(),
            old(self).start_ms <= now_ms,
        ensures
            final(self).wf(),
            final(self).total == old(self).total,
            final(self).current == old(self).current,
            final(self).line == old(self).line,
            final(self).start_ms == old(self).start_ms,
            final(self).last_update_ms == old(self).last_update_ms,
            final(self).measured_ms == old(self).measured_ms,
            final(self).measured_units == old(self).measured_units,
            plan.text@ == render_line(
                old(self).total as int,
                old(self).current as int,
                old(self).measured_ms as int,
                old(self).measured_units as int,
                now_ms - old(self).start_ms,
            ),
            plan.row == old(self).line,
            plan.clear == (plan.text@.len() < old(self).last_message_len),
            !plan.newline,
            final(self).last_message_len == plan.text@.len(),
    {
        let elapsed_ms: u64 = now_ms - self.start_ms;
        let text = render_text(
            self.total,
            self.current,
            self.measured_ms,
            self.measured_units,
            elapsed_ms,
        );
        let len: usize = text.as_str().unicode_len();
        let clear = len < self.last_message_len;
        self.last_message_len = len;
        RenderPlan { row: self.line, clear, text, newline: false }
    }
}

/// Law: the displayed percentage never decreases as the count grows,
/// and always lies between 0 and 100 percent (0 and 10000 hundredths).
pub proof fn lemma_percentage_monotone_bounded(total: int, c1: int, c2: int)
    requires
        1 <= total,
        0 <= c1 <= c2 <= total,
    ensures
        percent_hundredths(c1, total) <= percent_hundredths(c2, total),
        0 <= percent_hundredths(c1, total),
        percent_hundredths(c2, total) <= 10000,
{
    lemma_mul_inequality(c1, c2, 10000);
    lemma_div_is_ordered(c1 * 10000 + total / 2, c2 * 10000 + total / 2, total);
    lemma_percent_bounds(c1, total);
    lemma_percent_bounds(c2, total);
}

/// Law: at full completion the displayed percentage is exactly 100.00.
pub proof fn lemma_full_percent(total: int)
    requires
        1 <= total,
    ensures
        percent_hundredths(total, total) == 10000,
{
    lemma_percent_bounds(total, total);
    lemma_div_decreases_or_zero(total);
    lemma_div_multiples_vanish_fancy(10000, total / 2, total);
}

/// Law: the bar always holds exactly the fixed width of glyphs, the
/// first `fill` of them filled and the rest blank.
pub proof fn lemma_bar_glyphs(fill: int)
    requires
        0 <= fill <= PROGRESS_BAR_WIDTH,
    ensures
        bar_seq(fill).len() == PROGRESS_BAR_WIDTH,
        forall|i: int|
            0 <= i < PROGRESS_BAR_WIDTH ==> bar_seq(fill)[i] == (if i < fill {
                '='
            } else {
                ' '
            }),
{
    lemma_repeat_char('=', fill as nat);
    lemma_repeat_char(' ', (PROGRESS_BAR_WIDTH - fill) as nat);
}

/// Every cell of `repeat_char(c, n)` holds `c`, and there are `n` of them.
pub proof fn lemma_repeat_char(c: char, n: nat)
    ensures
        repeat_char(c, n).len() == n,
        forall|i: int| 0 <= i < n ==> repeat_char(c, n)[i] == c,
    decreases n,
{
    if n > 0 {
        lemma_repeat_char(c, (n - 1) as nat);
    }
}

/// The fill count stays within the fixed bar width.
pub proof fn lemma_fill_bounds(current: int, total: int)
    requires
        1 <= total,
        0 <= current <= total,
    ensures
        0 <= bar_fill(current, total) <= PROGRESS_BAR_WIDTH,
{
    let w = PROGRESS_BAR_WIDTH as int;
    lemma_mul_inequality(current, total, w);
    lemma_div_is_ordered(0, current * w, total);
    lemma_div_is_ordered(current * w, total * w, total);
    lemma_div_multiples_vanish(w, total);
}

/// The rounded percentage stays within 0 and 10000 hundredths.
proof fn lemma_percent_bounds(current: int, total: int)
    requires
        1 <= total,
        0 <= current <= total,
    ensures
        0 <= percent_hundredths(current, total) <= 10000,
{
    let num = current * 10000 + total / 2;
    lemma_div_decreases_or_zero(total);
    lemma_mul_inequality(current, total, 10000);
    lemma_div_is_ordered(0, num, total);
    lemma_div_is_ordered(num, total * 10000 + total / 2, total);
    lemma_div_multiples_vanish_fancy(10000, total / 2, total);
}

/// Half of a positive integer is strictly below it.
proof fn lemma_div_decreases_or_zero(total: int)
    requires
        1 <= total,
    ensures
        0 <= total / 2 < total,
{
    lemma_div_decreases(total, 2);
    lemma_div_is_ordered(0, total, 2);
}

/// Builds the progress line for the given state: the bar, the rounded
/// percentage with two decimals, and the whole-second elapsed and
/// remaining times.
fn render_text(
    total: usize,
    current: usize,
    measured_ms: u64,
    measured_units: usize,
    elapsed_ms: u64,
) -> (s: String)
    requires
        1 <= total,
        current <= total,
        measured_units <= total,
    ensures
        s@ == render_line(
            total as int,
            current as int,
            measured_ms as int,
            measured_units as int,
            elapsed_ms as int,
        ),
{
    let t: u128 = total as u128;
    let c: u128 = current as u128;
    let m: u128 = measured_ms as u128;
    let u: u128 = measured_units as u128;
    let e: u128 = elapsed_ms as u128;

    proof {
        lemma_percent_bounds(current as int, total as int);
        lemma_fill_bounds(current as int, total as int);
        lemma_mul_upper_bound(m as int, u64::MAX as int, t as int, u64::MAX as int);
        lemma_mul_upper_bound(e as int, u64::MAX as int, u as int, u64::MAX as int);
    }

    let pct: u128 = (c * 10000 + t / 2) / t;
    let fill: usize = ((c * (PROGRESS_BAR_WIDTH as u128)) / t) as usize;
    let elapsed_s: u64 = elapsed_ms / 1000;
    let remaining_s: u128 = if measured_units > 0 && m * t > e * u {
        (m * t - e * u) / (u * 1000)
    } else {
        0
    };

    proof {
        reveal_strlit("\rProgress: [");
        reveal_strlit("] ");
        reveal_strlit(".");
        reveal_strlit("% | Elapsed: ");
        reveal_strlit("s | Remaining: ");
        reveal_strlit("s");
        reveal_strlit("=");
        reveal_strlit(" ");
    }

    let mut s = String::from_str("\rProgress: [");
    push_repeat(&mut s, "=", fill);
    push_repeat(&mut s, " ", PROGRESS_BAR_WIDTH - fill);
    s.append("] ");
    push_decimal(&mut s, pct / 100);
    s.append(".");
    s.append(digit_str(pct % 100 / 10));
    s.append(digit_str(pct % 10));
    s.append("% | Elapsed: ");
    push_decimal(&mut s, elapsed_s as u128);
    s.append("s | Remaining: ");
    push_decimal(&mut s, remaining_s);
    s.append("s");

    proof {
        assert(s@ =~= render_line(
            total as int,
            current as int,
            measured_ms as int,
            measured_units as int,
            elapsed_ms as int,
        ));
    }
    s
}

} // verus!
