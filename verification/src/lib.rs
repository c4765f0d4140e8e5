pub mod progress;
pub mod text;
pub mod tint;

use vstd::prelude::*;
use crate::text::{append_dec_u32, append_repeat, spec_dec, spec_repeat};
use crate::tint::{escape, spec_escape, Tint};

verus! {

/// The kind of progress indicator to draw.
#[derive(Debug, Clone, Copy)]
pub enum BarType {
    /// A bracketed bar showing both the completed and the remaining
    /// segment, `[████====]`.
    Bar,
    /// A bare bar showing only the completed segment, `████`.
    RawBar,
    /// Cycles through `.  `, `.. ` and `...`.
    Dots,
    /// Cycles through `|`, `/`, `-` and `\`.
    Line,
}

/// Reported when a bar is asked for with a length outside `[1, 100]`:
/// zero cells draw nothing, and beyond a hundred cells a cell would
/// stand for no percentage at all.
#[derive(Debug, Clone, Copy, PartialEq, Eq, Structural)]
pub struct ConfigurationError;

/// The state of a progress bar, as the contracts see it.
pub ghost struct BarModel {
    /// Column of the bar's first cell on the screen.
    pub x: int,
    /// Row of the bar on the screen.
    pub y: int,
    /// Whether the rendering carries colour escapes.
    pub color: bool,
    /// Which indicator is drawn.
    pub bar_type: BarType,
    /// Whether the numeric percentage follows the indicator.
    pub show_percent: bool,
    /// Visual width of the bar in cells.
    pub bar_length: int,
    /// Animation cursor of the `Dots` and `Line` indicators.
    pub phase: int,
    /// Completion percentage, clamped to `[0, 100]`.
    pub percent: int,
}

impl BarModel {
    /// What construction establishes and every method preserves.
    pub open spec fn wf(self) -> bool {
        &&& 0 <= self.percent <= 100
        &&& 1 <= self.bar_length <= 100
        &&& match self.bar_type {
            BarType::Dots => 0 <= self.phase < 3,
            BarType::Line => 0 <= self.phase < 4,
            _ => self.phase == 0,
        }
    }
}

/// The struct for handling progress bars: configured once, fed a
/// percentage with [`KBar::update`], and asked for its current line of
/// text with [`KBar::render`].
#[derive(Debug, Clone, Copy)]
pub struct KBar {
    x: u16,
    y: u16,
    color: bool,
    bar_type: BarType,
    show_percent: bool,
    bar_length: u16,
    repeat_at: u8,
    percent: u8,
}

impl View for KBar {
    type V = BarModel;

    closed spec fn view(&self) -> BarModel {
        BarModel {
            x: self.x as int,
            y: self.y as int,
            color: self.color,
            bar_type: self.bar_type,
            show_percent: self.show_percent,
            bar_length: self.bar_length as int,
            phase: self.repeat_at as int,
            percent: self.percent as int,
        }
    }
}

/// The percentage span one cell of a bar stands for.
pub open spec fn chunk_weight(length: int) -> int {
    100int / length
}

/// How many cells of a bar of `length` cells are drawn filled at
/// `percent`.
pub open spec fn filled_cells(percent: int, length: int) -> int {
    percent / chunk_weight(length)
}

/// How many cells of a bracketed bar are drawn empty at `percent`:
/// the remaining percentage in cells, corrected by one where the two
/// truncated divisions leave the bar a cell short or a cell long, and
/// never taken below zero.
pub open spec fn empty_cells(percent: int, length: int) -> int {
    let filled = filled_cells(percent, length);
    let rest = (100 - percent) / chunk_weight(length);
    if filled + rest < length {
        rest + 1
    } else if filled + rest > length && rest > 0 {
        rest - 1
    } else {
        rest
    }
}

/// How many phases the animation of a bar type cycles through.
pub open spec fn cycle_length(t: BarType) -> int {
    match t {
        BarType::Dots => 3,
        BarType::Line => 4,
        _ => 1,
    }
}

/// The state after one render: the animation phase of `Dots` and
/// `Line` advances exactly when the percentage is even; nothing else
/// moves.
pub open spec fn spec_step(m: BarModel) -> BarModel {
    match m.bar_type {
        BarType::Dots | BarType::Line => if m.percent % 2 == 0 {
            BarModel { phase: (m.phase + 1) % cycle_length(m.bar_type), ..m }
        } else {
            m
        },
        _ => m,
    }
}

/// The glyphs of the `Dots` indicator at a phase.
pub open spec fn dots_glyphs(phase: int) -> Seq<char> {
    if phase == 0 {
        seq!['.', ' ', ' ']
    } else if phase == 1 {
        seq!['.', '.', ' ']
    } else {
        seq!['.', '.', '.']
    }
}

/// The glyph of the `Line` indicator at a phase.
pub open spec fn line_glyph(phase: int) -> Seq<char> {
    if phase == 0 {
        seq!['|']
    } else if phase == 1 {
        seq!['/']
    } else if phase == 2 {
        seq!['-']
    } else {
        seq!['\\']
    }
}

/// The colour of a bar at `percent`: a straight slide from red at zero
/// to green at a hundred, over a fixed touch of blue.
pub open spec fn completion_tint(percent: int) -> Tint {
    Tint::Rgb((255 - 2 * percent) as u8, (2 * percent) as u8, 25u8)
}

/// The text appended after an indicator when the percentage is shown:
/// a space, then the percentage in the completion colour when
/// colourised (switching back to white before the sign when
/// `reset_after` holds), then `%`.
pub open spec fn spec_percent_tail(percent: int, color: bool, reset_after: bool) -> Seq<char> {
    seq![' '] + (if color {
        spec_escape(completion_tint(percent))
    } else {
        Seq::empty()
    }) + spec_dec(percent) + (if color && reset_after {
        spec_escape(Tint::White)
    } else {
        Seq::empty()
    }) + seq!['%']
}

/// One filled cell.
pub open spec fn block_cell() -> Seq<char> {
    seq!['█']
}

/// The line of text one render call produces, from the state before
/// the call. The `Dots` and `Line` indicators show the phase the call
/// steps to.
pub open spec fn spec_render(m: BarModel) -> Seq<char> {
    let stepped = spec_step(m);
    let filled = filled_cells(m.percent, m.bar_length);
    let empty = empty_cells(m.percent, m.bar_length);
    let tail_bar = if m.show_percent {
        spec_percent_tail(m.percent, m.color, true)
    } else {
        Seq::empty()
    };
    let tail_spin = if m.show_percent {
        spec_percent_tail(m.percent, m.color, false)
    } else {
        Seq::empty()
    };
    match m.bar_type {
        BarType::RawBar => if m.color {
            spec_escape(completion_tint(m.percent)) + spec_repeat(block_cell(), filled) + tail_bar
        } else {
            spec_repeat(block_cell(), filled) + tail_bar
        },
        BarType::Bar => if m.color {
            spec_escape(Tint::White) + seq!['['] + spec_escape(completion_tint(m.percent))
                + spec_repeat(block_cell(), filled) + spec_escape(Tint::Gray) + spec_repeat(
                block_cell(),
                empty,
            ) + spec_escape(Tint::White) + seq![']'] + tail_bar
        } else {
            seq!['['] + spec_repeat(block_cell(), filled) + spec_repeat(seq!['='], empty)
                + seq![']'] + tail_bar
        },
        BarType::Dots => dots_glyphs(stepped.phase) + tail_spin,
        BarType::Line => line_glyph(stepped.phase) + tail_spin,
    }
}

/// An update value clamped to the percentage range: anything over a
/// hundred counts as a hundred.
pub open spec fn spec_clamp(v: int) -> int {
    if v > 100 {
        100
    } else {
        v
    }
}

/// A clamped update value reads as complete exactly when the value
/// given was at least a hundred.
pub proof fn lemma_complete_iff_hundred(v: int)
    requires
        v >= 0,
    ensures
        spec_clamp(v) == 100 <==> v >= 100,
{
}

/// Rendering at an odd percentage moves nothing: the state after the
/// call equals the state before it, so a second render of the
/// unchanged bar produces the very same line again.
pub proof fn lemma_odd_percent_freezes(m: BarModel)
    requires
        m.percent % 2 != 0,
    ensures
        spec_step(m) == m,
        spec_render(spec_step(m)) == spec_render(m),
{
}

/// For a bar whose cell weight measures the range back to exactly its
/// length, the bracketed bar is always exactly `length` cells wide:
/// filled and empty cells together cover it, whatever the percentage.
pub proof fn lemma_bracketed_width(percent: int, length: int)
    requires
        0 <= percent <= 100,
        1 <= length <= 100,
        100int / (100int / length) == length,
    ensures
        filled_cells(percent, length) + empty_cells(percent, length) == length,
{
    let c = chunk_weight(length);
    vstd::arithmetic::div_mod::lemma_div_non_zero(100, length);
    let q1 = percent / c;
    let r1 = percent % c;
    let q2 = (100 - percent) / c;
    let r2 = (100 - percent) % c;
    let rm = 100int % c;
    vstd::arithmetic::div_mod::lemma_fundamental_div_mod(percent, c);
    vstd::arithmetic::div_mod::lemma_fundamental_div_mod(100 - percent, c);
    vstd::arithmetic::div_mod::lemma_fundamental_div_mod(100int, c);
    vstd::arithmetic::div_mod::lemma_mod_division_less_than_divisor(percent, c);
    vstd::arithmetic::div_mod::lemma_mod_division_less_than_divisor(100 - percent, c);
    vstd::arithmetic::div_mod::lemma_mod_division_less_than_divisor(100int, c);
    assert(c * (q1 + q2) == 100 - r1 - r2) by (nonlinear_arith)
        requires
            percent == c * q1 + r1,
            100 - percent == c * q2 + r2,
    ;
    assert(q1 + q2 <= length) by (nonlinear_arith)
        requires
            c >= 1,
            c * (q1 + q2) == 100 - r1 - r2,
            r1 >= 0,
            r2 >= 0,
            100 == c * length + rm,
            0 <= rm < c,
    ;
    assert(q1 + q2 >= length - 1) by (nonlinear_arith)
        requires
            c >= 1,
            c * (q1 + q2) == 100 - r1 - r2,
            r1 < c,
            r2 < c,
            100 == c * length + rm,
            rm >= 0,
    ;
}

/// The colour of the bar at `percent`, as a value to hand to
/// [`escape`].
fn tint_for(percent: u8) -> (t: Tint)
    requires
        percent <= 100,
    ensures
        t == completion_tint(percent as int),
{
    let green: u8 = 2 * percent;
    let red: u8 = 255 - green;
    Tint::Rgb(red, green, 25)
}

/// Appends `count` filled cells.
fn append_blocks(out: &mut String, count: usize)
    ensures
        final(out)@ == old(out)@ + spec_repeat(block_cell(), count as int),
{
    proof {
        reveal_strlit("█");
        assert("█"@ =~= block_cell());
    }
    append_repeat(out, "█", count);
}

/// Appends `count` empty cells of the plain bracketed bar.
fn append_marks(out: &mut String, count: usize)
    ensures
        final(out)@ == old(out)@ + spec_repeat(seq!['='], count as int),
{
    proof {
        reveal_strlit("=");
        assert("="@ =~= seq!['=']);
    }
    append_repeat(out, "=", count);
}

/// Appends the shown percentage after an indicator.
fn append_percent_tail(out: &mut String, percent: u8, colorize: bool, reset_after: bool)
    requires
        percent <= 100,
    ensures
        final(out)@ == old(out)@ + spec_percent_tail(percent as int, colorize, reset_after),
{
    proof {
        reveal_strlit(" ");
        reveal_strlit("%");
    }
    out.append(" ");
    if colorize {
        let colour = escape(tint_for(percent));
        out.append(colour.as_str());
    }
    append_dec_u32(out, percent as u32);
    if colorize && reset_after {
        let reset = escape(Tint::White);
        out.append(reset.as_str());
    }
    out.append("%");
    proof {
        assert(out@ =~= old(out)@ + spec_percent_tail(percent as int, colorize, reset_after));
    }
}

impl KBar {
    /// Create a new progress bar.
    /// # parameters
    /// bar_type: the type of bar to display
    /// color: if it should output in color
    /// show_percent: if it should show the percentage next to the bar
    /// bar_length: How long the bar should be, in cells from 1 to 100
    pub fn new(bar_type: BarType, color: bool, show_percent: bool, bar_length: u16) -> (r: Result<
        Self,
        ConfigurationError,
    >)
        ensures
            r is Ok <==> 1 <= bar_length <= 100,
            r is Ok ==> (r->Ok_0)@ == (BarModel {
                x: 0,
                y: 0,
                color,
                bar_type,
                show_percent,
                bar_length: bar_length as int,
                phase: 0,
                percent: 0,
            }),
            r is Ok ==> (r->Ok_0)@.wf(),
    {
        Self::new_at(0, 0, bar_type, color, show_percent, bar_length)
    }

    /// Create a new progress bar remembering a screen position.
    /// # parameters
    /// x: the x location to put the bar (0 is the left)
    /// y: the y location to put the bar (0 is the top)
    /// bar_type: the type of bar to display
    /// color: if it should output in color
    /// show_percent: if it should show the percentage next to the bar
    /// bar_length: How long the bar should be, in cells from 1 to 100
    pub fn new_at(
        x: u16,
        y: u16,
        bar_type: BarType,
        color: bool,
        show_percent: bool,
        bar_length: u16,
    ) -> (r: Result<Self, ConfigurationError>)
        ensures
            r is Ok <==> 1 <= bar_length <= 100,
            r is Ok ==> (r->Ok_0)@ == (BarModel {
                x: x as int,
                y: y as int,
                color,
                bar_type,
                show_percent,
                bar_length: bar_length as int,
                phase: 0,
                percent: 0,
            }),
            r is Ok ==> (r->Ok_0)@.wf(),
    {
        if bar_length == 0 || bar_length > 100 {
            Err(ConfigurationError)
        } else {
            Ok(
                Self {
                    x,
                    y,
                    percent: 0,
                    color,
                    bar_type,
                    bar_length,
                    show_percent,
                    repeat_at: 0,
                },
            )
        }
    }

    /// Update the bar's progress; anything over a hundred counts as a
    /// hundred.
    /// # Parameters
    /// percent: the new percentage (0 to 100)
    pub fn update(&mut self, percent: u8)
        ensures
            final(self)@ == (BarModel { percent: spec_clamp(percent as int), ..old(self)@ }),
            old(self)@.wf() ==> final(self)@.wf(),
    {
        let clamped: u8 = if percent > 100 {
            100
        } else {
            percent
        };
        self.percent = clamped;
    }

    /// Produce the current line of output text, no trailing newline
    /// and no cursor movement. Rendering `Dots` or `Line` at an even
    /// percentage also advances the animation phase; everything else
    /// leaves the bar as it was.
    #[verifier::rlimit(50)]
    pub fn render(&mut self) -> (out: String)
        requires
            old(self)@.wf(),
        ensures
            final(self)@ == spec_step(old(self)@),
            final(self)@.wf(),
            out@ == spec_render(old(self)@),
    {
        let ghost m = old(self)@;
        match self.bar_type {
            BarType::Dots => {
                if self.percent % 2 == 0 {
                    self.repeat_at = if self.repeat_at == 2 {
                        0
                    } else {
                        self.repeat_at + 1
                    };
                }
            },
            BarType::Line => {
                if self.percent % 2 == 0 {
                    self.repeat_at = if self.repeat_at == 3 {
                        0
                    } else {
                        self.repeat_at + 1
                    };
                }
            },
            _ => {},
        }
        proof {
            assert(self@ == spec_step(m));
            assert(self@.wf());
        }
        let percent: u8 = self.percent;
        let colorize: bool = self.color;
        let show: bool = self.show_percent;
        let mut out: String = String::new();
        proof {
            reveal_strlit("[");
            reveal_strlit("]");
        }
        match self.bar_type {
            BarType::RawBar => {
                let chunk: u16 = 100 / self.bar_length;
                proof {
                    vstd::arithmetic::div_mod::lemma_div_non_zero(100, m.bar_length);
                }
                let filled: usize = percent as usize / chunk as usize;
                proof {
                    assert(filled as int == filled_cells(m.percent, m.bar_length));
                }
                if colorize {
                    let colour = escape(tint_for(percent));
                    out.append(colour.as_str());
                }
                append_blocks(&mut out, filled);
                if show {
                    append_percent_tail(&mut out, percent, colorize, true);
                }
                proof {
                    assert(out@ =~= spec_render(m));
                }
            },
            BarType::Bar => {
                let chunk: u16 = 100 / self.bar_length;
                proof {
                    vstd::arithmetic::div_mod::lemma_div_non_zero(100, m.bar_length);
                }
                let filled: usize = percent as usize / chunk as usize;
                let rest: usize = (100 - percent) as usize / chunk as usize;
                let length: usize = self.bar_length as usize;
                let empty: usize = if filled + rest < length {
                    rest + 1
                } else if filled + rest > length {
                    if rest > 0 {
                        rest - 1
                    } else {
                        0
                    }
                } else {
                    rest
                };
                proof {
                    assert(filled as int == filled_cells(m.percent, m.bar_length));
                    assert(empty as int == empty_cells(m.percent, m.bar_length));
                }
                if colorize {
                    let white = escape(Tint::White);
                    out.append(white.as_str());
                    out.append("[");
                    let colour = escape(tint_for(percent));
                    out.append(colour.as_str());
                    append_blocks(&mut out, filled);
                    let gray = escape(Tint::Gray);
                    out.append(gray.as_str());
                    append_blocks(&mut out, empty);
                    let white_again = escape(Tint::White);
                    out.append(white_again.as_str());
                    out.append("]");
                } else {
                    out.append("[");
                    append_blocks(&mut out, filled);
                    append_marks(&mut out, empty);
                    out.append("]");
                }
                if show {
                    append_percent_tail(&mut out, percent, colorize, true);
                }
                proof {
                    assert(out@ =~= spec_render(m));
                }
            },
            BarType::Dots => {
                proof {
                    reveal_strlit(".  ");
                    reveal_strlit(".. ");
                    reveal_strlit("...");
                }
                let lit: &str = match self.repeat_at {
                    0 => ".  ",
                    1 => ".. ",
                    _ => "...",
                };
                out.append(lit);
                if show {
                    append_percent_tail(&mut out, percent, colorize, false);
                }
                proof {
                    assert(out@ =~= spec_render(m));
                }
            },
            BarType::Line => {
                proof {
                    reveal_strlit("|");
                    reveal_strlit("/");
                    reveal_strlit("-");
                    reveal_strlit("\\");
                }
                let lit: &str = match self.repeat_at {
                    0 => "|",
                    1 => "/",
                    2 => "-",
                    _ => "\\",
                };
                out.append(lit);
                if show {
                    append_percent_tail(&mut out, percent, colorize, false);
                }
                proof {
                    assert(out@ =~= spec_render(m));
                }
            },
        }
        out
    }

    /// Whether the bar has reached a hundred percent.
    pub fn is_complete(&self) -> (r: bool)
        ensures
            r == (self@.percent == 100),
    {
        self.percent == 100
    }

    /// The column the bar was created at.
    pub fn x(&self) -> (r: u16)
        ensures
            r as int == self@.x,
    {
        self.x
    }

    /// The row the bar was created at.
    pub fn y(&self) -> (r: u16)
        ensures
            r as int == self@.y,
    {
        self.y
    }

    /// Whether the bar renders with colour escapes.
    pub fn color(&self) -> (r: bool)
        ensures
            r == self@.color,
    {
        self.color
    }
}

impl Default for KBar {
    /// Creates a bar using default values: a colourised bracketed bar
    /// of twenty cells with the percentage shown.
    fn default() -> (r: Self)
        ensures
            r@ == (BarModel {
                x: 0,
                y: 0,
                color: true,
                bar_type: BarType::Bar,
                show_percent: true,
                bar_length: 20,
                phase: 0,
                percent: 0,
            }),
            r@.wf(),
    {
        match Self::new(BarType::Bar, true, true, 20) {
            Ok(bar) => bar,
            Err(_) => KBar {
                x: 0,
                y: 0,
                color: true,
                bar_type: BarType::Bar,
                show_percent: true,
                bar_length: 20,
                repeat_at: 0,
                percent: 0,
            },
        }
    }
}

} // verus!
