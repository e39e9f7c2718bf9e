//! Animated text spinners for fixed terminal rows.
//!
//! A [`Spinner`] owns the state of one indicator: a cyclic glyph sequence, a
//! label, a liveness flag, a frame interval and a terminal row. The spinner
//! itself performs no I/O: [`Spinner::plan_step`] decides, for each iteration
//! of an animation loop, what the loop must write and how long it must pause,
//! so a driver only performs the planned actions on its output stream.

use vstd::prelude::*;
use vstd::string::*;

verus! {

/// Milliseconds between two consecutive frames of one spinner.
pub const FRAME_INTERVAL_MS: u64 = 150;

/// The abstract state of a [`Spinner`]: each glyph as its character sequence,
/// the label, the liveness flag, the frame interval and the row.
pub struct SpinnerView {
    pub glyphs: Seq<Seq<char>>,
    pub label: Seq<char>,
    pub running: bool,
    pub frame_interval_ms: u64,
    pub row: int,
}

/// The fixed glyph rotation every spinner is constructed with.
pub open spec fn glyph_cycle() -> Seq<Seq<char>> {
    seq![seq!['|'], seq!['/'], seq!['-'], seq!['\\']]
}

/// The glyph a spinner shows at a given step of its animation loop: the
/// glyph sequence is cycled in order, indefinitely.
pub open spec fn glyph_of(v: SpinnerView, step: int) -> Seq<char>
    recommends
        v.glyphs.len() > 0,
        step >= 0,
{
    v.glyphs[step % v.glyphs.len() as int]
}

/// The full text of one frame: a carriage return, the step's glyph, a space
/// and the label, with no trailing newline.
pub open spec fn frame_of(v: SpinnerView, step: int) -> Seq<char> {
    seq!['\r'] + glyph_of(v, step) + seq![' '] + v.label
}

/// The trailing output written once when the animation loop halts: a blank
/// line after the last rendered frame.
pub open spec fn finish_text() -> Seq<char> {
    seq!['\n', '\n']
}

/// Whether a step begins a fresh pass over the glyph sequence. The liveness
/// flag is consulted only at such steps.
pub open spec fn pass_start(v: SpinnerView, step: int) -> bool {
    step % v.glyphs.len() as int == 0
}

/// Whether the animation loop halts at this step: it does exactly when the
/// step begins a fresh pass and the liveness flag was observed clear.
pub open spec fn finishes(v: SpinnerView, step: int, observed_running: bool) -> bool {
    pass_start(v, step) && !observed_running
}

/// The state left by `start`: the same spinner with its liveness flag set.
pub open spec fn started(v: SpinnerView) -> SpinnerView {
    SpinnerView { running: true, ..v }
}

/// The state left by `stop`: the same spinner with its liveness flag cleared.
pub open spec fn stopped(v: SpinnerView) -> SpinnerView {
    SpinnerView { running: false, ..v }
}

/// What one iteration of a spinner's animation loop must do.
pub enum StepAction {
    /// Write `text` to the spinner's row without a trailing newline, flush,
    /// then pause for `pause_ms` milliseconds before the next step.
    Frame { text: String, pause_ms: u64 },
    /// Write `text`, then terminate the loop; no further frames follow.
    Finish { text: String },
}

/// One animated indicator bound to a fixed terminal row.
pub struct Spinner {
    glyphs: Vec<String>,
    label: String,
    running: bool,
    frame_interval_ms: u64,
    row: usize,
}

impl View for Spinner {
    type V = SpinnerView;

    closed spec fn view(&self) -> SpinnerView {
        SpinnerView {
            glyphs: self.glyphs@.map_values(|g: String| g@),
            label: self.label@,
            running: self.running,
            frame_interval_ms: self.frame_interval_ms,
            row: self.row as int,
        }
    }
}

impl Spinner {
    #[verifier::type_invariant]
    spec fn wf(self) -> bool {
        self.glyphs@.len() > 0
    }

    /// A new, idle spinner for the given label and row, with the fixed glyph
    /// rotation and frame interval.
    pub fn new(label: String, position: usize) -> (s: Self)
        ensures
            s@.glyphs == glyph_cycle(),
            s@.label == label@,
            !s@.running,
            s@.frame_interval_ms == FRAME_INTERVAL_MS,
            s@.row == position as int,
    {
        let mut glyphs: Vec<String> = Vec::new();
        glyphs.push(String::from_str("|"));
        glyphs.push(String::from_str("/"));
        glyphs.push(String::from_str("-"));
        glyphs.push(String::from_str("\\"));
        let s = Spinner {
            glyphs,
            label,
            running: false,
            frame_interval_ms: FRAME_INTERVAL_MS,
            row: position,
        };
        proof {
            reveal_strlit("|");
            reveal_strlit("/");
            reveal_strlit("-");
            reveal_strlit("\\");
            assert(s@.glyphs =~~= glyph_cycle());
        }
        s
    }

    /// Set the liveness flag; the animation loop keeps rendering while it is
    /// set. Everything else about the spinner is untouched.
    pub fn start(&mut self)
        ensures
            final(self)@ == started(old(self)@),
    {
        proof {
            use_type_invariant(&*self);
        }
        self.running = true;
    }

    /// Clear the liveness flag; the animation loop halts at its next pass
    /// boundary. Everything else about the spinner is untouched, so stopping
    /// an already stopped spinner changes nothing.
    pub fn stop(&mut self)
        ensures
            final(self)@ == stopped(old(self)@),
    {
        proof {
            use_type_invariant(&*self);
        }
        self.running = false;
    }

    /// The current value of the liveness flag.
    pub fn is_running(&self) -> (r: bool)
        ensures
            r == self@.running,
    {
        self.running
    }

    /// The terminal row this spinner renders to.
    pub fn row(&self) -> (r: usize)
        ensures
            r as int == self@.row,
    {
        self.row
    }

    /// The row in the width the terminal cursor commands expect. Rows beyond
    /// that width have no defined rendering target and are ruled out.
    pub fn cursor_row(&self) -> (r: u16)
        requires
            self@.row <= u16::MAX as int,
        ensures
            r as int == self@.row,
    {
        self.row as u16
    }

    /// The text of the frame rendered at `step`: a carriage return, the
    /// step's glyph from the cycle, a space and the label.
    pub fn frame_text(&self, step: usize) -> (t: String)
        ensures
            t@ == frame_of(self@, step as int),
    {
        proof {
            use_type_invariant(&*self);
        }
        let i: usize = step % self.glyphs.len();
        let mut t = String::from_str("\r");
        t.append(self.glyphs[i].as_str());
        t.append(" ");
        t.append(self.label.as_str());
        proof {
            reveal_strlit("\r");
            reveal_strlit(" ");
            assert(t@ =~= frame_of(self@, step as int));
        }
        t
    }

    /// Decide one iteration of the animation loop. `observed_running` is the
    /// liveness flag as the loop's driver read it before this step; it is
    /// consulted only when `step` begins a fresh pass over the glyph
    /// sequence, so the loop finishes a started pass even after a stop.
    pub fn plan_step(&self, step: usize, observed_running: bool) -> (a: StepAction)
        ensures
            (finishes(self@, step as int, observed_running) ==> (a matches StepAction::Finish {
                text,
            } && text@ == finish_text())),
            (!finishes(self@, step as int, observed_running) ==> (a matches StepAction::Frame {
                text,
                pause_ms,
            } && text@ == frame_of(self@, step as int) && pause_ms == self@.frame_interval_ms)),
    {
        proof {
            use_type_invariant(&*self);
        }
        if step % self.glyphs.len() == 0 && !observed_running {
            let mut t = String::from_str("\n");
            t.append("\n");
            proof {
                reveal_strlit("\n");
                assert(t@ =~= finish_text());
            }
            StepAction::Finish { text: t }
        } else {
            StepAction::Frame { text: self.frame_text(step), pause_ms: self.frame_interval_ms }
        }
    }
}

/// The glyph sequence cycles: one full pass later, the same glyph — and so
/// the same frame — shows again, so the rotation never runs out.
pub proof fn lemma_glyph_cycle(v: SpinnerView, step: int)
    requires
        v.glyphs.len() > 0,
        step >= 0,
    ensures
        glyph_of(v, step + v.glyphs.len()) == glyph_of(v, step),
        frame_of(v, step + v.glyphs.len()) == frame_of(v, step),
{
    let n = v.glyphs.len() as int;
    assert((step + n) % n == step % n) by (nonlinear_arith)
        requires
            n > 0,
            step >= 0,
    ;
}

/// While the liveness flag is observed set, no step of the animation loop
/// finishes: the loop never terminates early.
pub proof fn lemma_no_finish_while_running(v: SpinnerView, step: int)
    ensures
        !finishes(v, step, true),
{
}

/// Once the liveness flag is clear, the animation loop finishes within one
/// full pass over the glyph sequence: some step fewer than a cycle away from
/// the current one halts it.
pub proof fn lemma_finish_within_one_cycle(v: SpinnerView, step: int)
    requires
        v.glyphs.len() > 0,
        step >= 0,
    ensures
        exists|b: int| step <= b < step + v.glyphs.len() && #[trigger] finishes(v, b, false),
{
    let n = v.glyphs.len() as int;
    let r = step % n;
    assert(0 <= r < n) by (nonlinear_arith)
        requires
            n > 0,
            step >= 0,
            r == step % n,
    ;
    let b = if r == 0 {
        step
    } else {
        step + n - r
    };
    assert(b % n == 0) by (nonlinear_arith)
        requires
            n > 0,
            step >= 0,
            r == step % n,
            b == if r == 0 {
                step
            } else {
                step + n - r
            },
    ;
    assert(step <= b < step + n && finishes(v, b, false));
}

/// Stopping is idempotent: stopping an already stopped spinner leaves its
/// state exactly as it was.
pub proof fn lemma_stop_idempotent(v: SpinnerView)
    ensures
        stopped(stopped(v)) == stopped(v),
{
}

} // verus!
