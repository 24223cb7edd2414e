//! What the terminal shows: the numbered steps of a run, the progress bar
//! of the clones and the escape code that clears the search menu.

use vstd::prelude::*;
use std::sync::Arc;
use std::sync::atomic::{AtomicUsize, Ordering};
use crate::text::{decimal, append_usize, decimal_string, push_char};

verus! {

/// The numbered steps of a run: `current_step` of `total_steps`.
pub struct ProgressTracker {
    current_step: usize,
    total_steps: usize,
}

/// The line that announces step `n` of `total` with `message`.
pub open spec fn step_prefix(n: nat, total: nat, message: Seq<char>) -> Seq<char> {
    decimal(n) + "/"@ + decimal(total) + " "@ + message + "..."@
}

impl ProgressTracker {
    /// The step in progress (zero before the first one starts).
    pub closed spec fn spec_current_step(self) -> nat {
        self.current_step as nat
    }

    /// The number of steps of the run.
    pub closed spec fn spec_total_steps(self) -> nat {
        self.total_steps as nat
    }

    /// A tracker of `total_steps` steps, none started.
    pub fn new(total_steps: usize) -> (res: Self)
        ensures
            res.spec_current_step() == 0,
            res.spec_total_steps() == total_steps,
    {
        ProgressTracker { current_step: 0, total_steps }
    }

    /// Starts the next step; returns the text that announces it.
    pub fn start_step(&mut self, message: &str) -> (res: String)
        requires
            old(self).spec_current_step() < usize::MAX,
        ensures
            final(self).spec_current_step() == old(self).spec_current_step() + 1,
            final(self).spec_total_steps() == old(self).spec_total_steps(),
            res@ == step_prefix(final(self).spec_current_step(), final(self).spec_total_steps(), message@),
    {
        self.current_step = self.current_step + 1;
        let mut s = String::new();
        append_usize(&mut s, self.current_step);
        s.append("/");
        append_usize(&mut s, self.total_steps);
        s.append(" ");
        s.append(message);
        s.append("...");
        s
    }

    /// The line that ends the current step with a check mark and `details`,
    /// written over the line that announced it.
    pub fn complete_step(&mut self, message: &str, details: &str) -> (res: String)
        ensures
            *final(self) == *old(self),
            res@ == "\r"@ + step_prefix(old(self).spec_current_step(), old(self).spec_total_steps(), message@)
                + " ✅ ("@ + details@ + ")"@,
    {
        let mut s = String::from_str("\r");
        append_usize(&mut s, self.current_step);
        s.append("/");
        append_usize(&mut s, self.total_steps);
        s.append(" ");
        s.append(message);
        s.append("...");
        s.append(" ✅ (");
        s.append(details);
        s.append(")");
        s
    }

    /// The line that ends the current step with `status`, written over the
    /// line that announced it.
    pub fn complete_step_with_status(&mut self, message: &str, status: &str) -> (res: String)
        ensures
            *final(self) == *old(self),
            res@ == "\r"@ + step_prefix(old(self).spec_current_step(), old(self).spec_total_steps(), message@)
                + " "@ + status@,
    {
        let mut s = String::from_str("\r");
        append_usize(&mut s, self.current_step);
        s.append("/");
        append_usize(&mut s, self.total_steps);
        s.append(" ");
        s.append(message);
        s.append("...");
        s.append(" ");
        s.append(status);
        s
    }

    /// An indented line of information.
    pub fn show_info(&self, message: &str) -> (res: String)
        ensures
            res@ == "   "@ + message@,
    {
        let mut s = String::from_str("   ");
        s.append(message);
        s
    }

    /// The line that closes the run: every step done.
    pub fn finalize(&self) -> (res: String)
        ensures
            res@ == decimal(self.spec_total_steps()) + "/"@ + decimal(self.spec_total_steps())
                + " Terminé ! ✅"@,
    {
        let mut s = String::new();
        append_usize(&mut s, self.total_steps);
        s.append("/");
        append_usize(&mut s, self.total_steps);
        s.append(" Terminé ! ✅");
        s
    }
}

/// The bar of `width` cells of which the first `filled` are full.
pub open spec fn bar_cells(width: nat, filled: int) -> Seq<char> {
    Seq::new(width, |i: int| if i < filled { '█' } else { '░' })
}

/// The percentage shown for `current` of `total` (zero when there is
/// nothing to do).
pub open spec fn bar_percent(current: nat, total: nat) -> nat {
    if total > 0 { current * 100 / total } else { 0 }
}

/// The number of full cells for `current` of `total` on `width` cells.
pub open spec fn bar_filled(current: nat, total: nat, width: nat) -> nat {
    current * width / (if total > 1 { total } else { 1 })
}

/// The progress line for `current` of `total` on a bar of `width` cells.
pub open spec fn bar_line(current: nat, total: nat, width: nat) -> Seq<char> {
    "\r   ["@ + bar_cells(width, bar_filled(current, total, width) as int) + "] "@
        + decimal(bar_percent(current, total)) + "% ("@ + decimal(current) + "/"@
        + decimal(total) + ")"@
}

/// Progress bar law: while no more clones have ended than there are, the
/// percentage is at most one hundred and the full cells fit in the bar.
pub proof fn lemma_bar_bounds(current: nat, total: nat, width: nat)
    requires
        current <= total,
    ensures
        bar_percent(current, total) <= 100,
        bar_filled(current, total, width) <= width,
        current == total && total > 0 ==> bar_percent(current, total) == 100,
        current == total && total > 0 ==> bar_filled(current, total, width) == width,
{
    if total > 0 {
        assert(current * 100 / total <= 100) by (nonlinear_arith)
            requires
                current <= total,
                total > 0,
        ;
        assert(current == total ==> current * 100 / total == 100) by (nonlinear_arith)
            requires
                total > 0,
        ;
    }
    let d: nat = if total > 1 { total } else { 1 };
    assert(current * width / d <= width) by (nonlinear_arith)
        requires
            current <= d || current == 0,
            d > 0,
    ;
    assert(current == total && total > 0 ==> current * width / d == width) by (nonlinear_arith)
        requires
            d > 0,
            total > 1 ==> d == total,
            total <= 1 ==> d == 1,
    ;
}

/// Renders the progress line for `current` of `total` on `width` cells.
pub fn render_bar(current: usize, total: usize, width: usize) -> (res: String)
    ensures
        res@ == bar_line(current as nat, total as nat, width as nat),
{
    let c = current as u128;
    let t = total as u128;
    let w = width as u128;
    proof {
        assert(c * 100 <= 0xffff_ffff_ffff_ffff_u128 * 100) by (nonlinear_arith)
            requires
                c <= 0xffff_ffff_ffff_ffff_u128,
        ;
        assert(c * w <= 0xffff_ffff_ffff_ffff_u128 * 0xffff_ffff_ffff_ffff_u128) by (nonlinear_arith)
            requires
                c <= 0xffff_ffff_ffff_ffff_u128,
                w <= 0xffff_ffff_ffff_ffff_u128,
        ;
    }
    let percent: u128 = if t > 0 { (c * 100) / t } else { 0 };
    let divisor: u128 = if t > 1 { t } else { 1 };
    let filled: u128 = (c * w) / divisor;
    let mut s = String::from_str("\r   [");
    let ghost head = s@;
    let mut i: usize = 0;
    while i < width
        invariant
            i <= width,
            w == width,
            s@ == head + bar_cells(i as nat, filled as int),
            filled == bar_filled(current as nat, total as nat, width as nat),
        decreases width - i,
    {
        if (i as u128) < filled {
            push_char(&mut s, '█');
        } else {
            push_char(&mut s, '░');
        }
        proof {
            assert(bar_cells((i + 1) as nat, filled as int)
                =~= bar_cells(i as nat, filled as int).push(if (i as int) < filled { '█' } else { '░' }));
        }
        i = i + 1;
    }
    s.append("] ");
    let p = decimal_string(percent);
    s.append(p.as_str());
    s.append("% (");
    append_usize(&mut s, current);
    s.append("/");
    append_usize(&mut s, total);
    s.append(")");
    s
}

/// A progress bar over `total` clones, fed by a counter that the clone
/// tasks increase as they end.
pub struct ProgressBar {
    total: usize,
    current: Arc<AtomicUsize>,
    width: usize,
}

/// Shares the counter.
/// Calls `Arc::clone`, which hands out another pointer to the same counter.
#[verifier::external_body]
fn share_counter(counter: &Arc<AtomicUsize>) -> (res: Arc<AtomicUsize>)
    ensures
        res == *counter,
{
    counter.clone()
}

/// Reads the counter; what it holds depends on the clone tasks.
fn read_counter(counter: &Arc<AtomicUsize>) -> usize {
    counter.load(Ordering::Relaxed)
}

impl ProgressBar {
    /// The number of clones the bar counts to.
    pub closed spec fn spec_total(self) -> nat {
        self.total as nat
    }

    /// The number of cells of the bar.
    pub closed spec fn spec_width(self) -> nat {
        self.width as nat
    }

    /// The counter the bar reads.
    pub closed spec fn spec_counter(self) -> Arc<AtomicUsize> {
        self.current
    }

    /// A bar of fifty cells over `total` clones, its counter at zero.
    pub fn new(total: usize) -> (res: Self)
        ensures
            res.spec_total() == total,
            res.spec_width() == 50,
    {
        ProgressBar { total, current: Arc::new(AtomicUsize::new(0)), width: 50 }
    }

    /// The counter the clone tasks increase, shared with the bar.
    pub fn get_counter(&self) -> (res: Arc<AtomicUsize>)
        ensures
            res == self.spec_counter(),
    {
        share_counter(&self.current)
    }

    /// The progress line for the counter's present value.
    pub fn update(&self) -> (res: String)
        ensures
            exists|current: usize| res@ == bar_line(current as nat, self.spec_total(), self.spec_width()),
    {
        let current = read_counter(&self.current);
        let res = render_bar(current, self.total, self.width);
        assert(res@ == bar_line(current as nat, self.spec_total(), self.spec_width()));
        res
    }

    /// The last progress line, followed by a line break.
    pub fn finish(&self) -> (res: String)
        ensures
            exists|current: usize| res@ == bar_line(current as nat, self.spec_total(), self.spec_width()) + "\n"@,
    {
        let current = read_counter(&self.current);
        let mut s = render_bar(current, self.total, self.width);
        s.append("\n");
        assert(s@ == bar_line(current as nat, self.spec_total(), self.spec_width()) + "\n"@);
        s
    }
}

/// The escape code that moves the cursor up `lines` lines and clears the
/// screen below it.
pub fn clear_menu_code(lines: usize) -> (res: String)
    ensures
        res@ == "\x1b["@ + decimal(lines as nat) + "A\x1b[0J"@,
{
    let mut s = String::from_str("\x1b[");
    append_usize(&mut s, lines);
    s.append("A\x1b[0J");
    s
}

} // verus!
