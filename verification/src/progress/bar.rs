//! A labelled single-line progress bar sized to a terminal width the
//! caller hands in. The percentage is free to run past a hundred: each
//! completed hundred flips the filled and empty glyphs, so the bar
//! appears to drain and refill as the count climbs.

use vstd::prelude::*;
use crate::text::{
    append_dec_i32, append_repeat, append_spaces, spec_dec_signed, spec_repeat, spec_spaces,
};

verus! {

/// The state of a labelled bar, as the contracts see it.
pub ghost struct BarView {
    /// The label shown before the bar.
    pub job_title: Seq<char>,
    /// The percentage reached; may pass a hundred, may go below zero.
    pub progress_percentage: int,
    /// The glyphs around and inside the bar.
    pub left_cap: Seq<char>,
    pub right_cap: Seq<char>,
    pub filled_symbol: Seq<char>,
    pub empty_symbol: Seq<char>,
}

/// A plain single-line progress bar with a text label.
pub struct Bar {
    job_title: String,
    progress_percentage: i32,
    left_cap: String,
    right_cap: String,
    filled_symbol: String,
    empty_symbol: String,
}

impl View for Bar {
    type V = BarView;

    closed spec fn view(&self) -> BarView {
        BarView {
            job_title: self.job_title@,
            progress_percentage: self.progress_percentage as int,
            left_cap: self.left_cap@,
            right_cap: self.right_cap@,
            filled_symbol: self.filled_symbol@,
            empty_symbol: self.empty_symbol@,
        }
    }
}

/// Division truncated towards zero, as the machine divides.
pub open spec fn trunc_div(a: int, b: int) -> int {
    if a >= 0 {
        a / b
    } else {
        -((-a) / b)
    }
}

/// `n` if positive, else zero: how often a range `0..n` is walked.
pub open spec fn clip0(n: int) -> int {
    if n > 0 {
        n
    } else {
        0
    }
}

/// `s` padded on the right with spaces up to `width` characters; a
/// longer `s` stays as it is.
pub open spec fn pad_right(s: Seq<char>, width: int) -> Seq<char> {
    s + spec_spaces(clip0(width - s.len()))
}

/// `s` padded on the left with spaces up to `width` characters; a
/// longer `s` stays as it is.
pub open spec fn pad_left(s: Seq<char>, width: int) -> Seq<char> {
    spec_spaces(clip0(width - s.len())) + s
}

/// The line of text [`Bar::progress_line`] produces for a bar state
/// and a terminal width: the label padded to fifty columns, then the
/// bar between its caps, then the percentage padded to four columns
/// and a percent sign. The bar itself spans `width - 57` cells; the
/// share reached of the current hundred fills them from the left, with
/// the glyphs flipped on every odd hundred.
pub open spec fn spec_line(m: BarView, width: int) -> Seq<char> {
    let overhead = trunc_div(m.progress_percentage, 100);
    let left_percentage = m.progress_percentage - overhead * 100;
    let bar_len = width - 57;
    let bar_finished_len = trunc_div(bar_len * left_percentage, 100);
    let fill_glyph = if overhead % 2 == 0 {
        m.filled_symbol
    } else {
        m.empty_symbol
    };
    let empty_glyph = if overhead % 2 == 0 {
        m.empty_symbol
    } else {
        m.filled_symbol
    };
    pad_right(m.job_title, 50) + m.left_cap + spec_repeat(fill_glyph, clip0(bar_finished_len))
        + spec_repeat(empty_glyph, clip0(bar_len - bar_finished_len)) + m.right_cap + pad_left(
        spec_dec_signed(m.progress_percentage),
        4,
    ) + seq!['%']
}

/// Negating a number keeps its parity.
proof fn lemma_negated_parity(q: int)
    requires
        q >= 0,
    ensures
        ((-q) % 2 == 0) <==> (q % 2 == 0),
{
    let k = q / 2;
    vstd::arithmetic::div_mod::lemma_fundamental_div_mod(q, 2);
    if q % 2 == 0 {
        vstd::arithmetic::div_mod::lemma_fundamental_div_mod_converse_mod(-q, 2, -k, 0);
    } else {
        vstd::arithmetic::div_mod::lemma_fundamental_div_mod_converse_mod(-q, 2, -k - 1, 1);
    }
}

impl Bar {
    /// Create a new progress bar.
    pub fn new() -> (r: Bar)
        ensures
            r@ == (BarView {
                job_title: Seq::<char>::empty(),
                progress_percentage: 0int,
                left_cap: seq!['['],
                right_cap: seq![']'],
                filled_symbol: seq!['█'],
                empty_symbol: seq![' '],
            }),
    {
        proof {
            reveal_strlit("[");
            reveal_strlit("]");
            reveal_strlit("█");
            reveal_strlit(" ");
        }
        let r = Bar {
            job_title: String::new(),
            progress_percentage: 0,
            left_cap: "[".to_owned(),
            right_cap: "]".to_owned(),
            filled_symbol: "█".to_owned(),
            empty_symbol: " ".to_owned(),
        };
        proof {
            assert(r@.left_cap =~= seq!['[']);
            assert(r@.right_cap =~= seq![']']);
            assert(r@.filled_symbol =~= seq!['█']);
            assert(r@.empty_symbol =~= seq![' ']);
        }
        r
    }

    /// Reset progress percentage to zero and job title to the empty
    /// string, ready for the next job.
    pub fn jobs_done(&mut self)
        ensures
            final(self)@ == (BarView {
                job_title: Seq::<char>::empty(),
                progress_percentage: 0int,
                ..old(self)@
            }),
    {
        self.job_title = String::new();
        self.progress_percentage = 0;
    }

    /// Set text shown in progress bar.
    pub fn set_job_label(&mut self, new_title: &str)
        ensures
            final(self)@ == (BarView { job_title: new_title@, ..old(self)@ }),
    {
        self.job_title = new_title.to_owned();
    }

    /// Put progress to given percentage.
    pub fn reach_percent(&mut self, percent: i32)
        ensures
            final(self)@ == (BarView { progress_percentage: percent as int, ..old(self)@ }),
    {
        self.progress_percentage = percent;
    }

    /// Increase progress with given percentage.
    pub fn add_percent(&mut self, progress: i32)
        requires
            i32::MIN <= old(self)@.progress_percentage + progress <= i32::MAX,
        ensures
            final(self)@ == (BarView {
                progress_percentage: old(self)@.progress_percentage + progress,
                ..old(self)@
            }),
    {
        self.progress_percentage = self.progress_percentage + progress;
    }

    /// The percentage the bar has reached.
    pub fn progress_percentage(&self) -> (r: i32)
        ensures
            r as int == self@.progress_percentage,
    {
        self.progress_percentage
    }

    /// The line of text that shows the current progress on a terminal
    /// `width` columns wide.
    #[verifier::rlimit(50)]
    pub fn progress_line(&self, width: u16) -> (out: String)
        ensures
            out@ == spec_line(self@, width as int),
    {
        let ghost m = self@;
        let ghost spec_overhead = trunc_div(m.progress_percentage, 100);
        let ghost spec_left = m.progress_percentage - spec_overhead * 100;
        let ghost spec_bar_len = width as int - 57;
        let ghost spec_finished = trunc_div(spec_bar_len * spec_left, 100);
        let p: i32 = self.progress_percentage;
        let magnitude: u32 = if p < 0 {
            (-(p as i64)) as u32
        } else {
            p as u32
        };
        let overhead_magnitude: u32 = magnitude / 100;
        let left_magnitude: u32 = magnitude % 100;
        proof {
            vstd::arithmetic::div_mod::lemma_fundamental_div_mod(magnitude as int, 100);
            if p >= 0 {
                assert(spec_overhead == overhead_magnitude as int);
                assert(spec_left == left_magnitude as int);
            } else {
                assert(spec_overhead == -(overhead_magnitude as int));
                assert(spec_left == -(left_magnitude as int));
            }
        }
        let bar_len: i64 = width as i64 - 57;
        let left_percentage: i64 = if p < 0 {
            -(left_magnitude as i64)
        } else {
            left_magnitude as i64
        };
        proof {
            assert(left_percentage as int == spec_left);
            assert(-100 < left_percentage && left_percentage < 100);
            assert(-6600000 < (bar_len as int) * (left_percentage as int)
                && (bar_len as int) * (left_percentage as int) < 6600000) by (nonlinear_arith)
                requires
                    -57 <= (bar_len as int) && (bar_len as int) <= 65478,
                    -100 < (left_percentage as int) && (left_percentage as int) < 100,
            ;
        }
        let product: i64 = bar_len * left_percentage;
        let product_magnitude: u64 = if product < 0 {
            (-product) as u64
        } else {
            product as u64
        };
        let finished_magnitude: u64 = product_magnitude / 100;
        let bar_finished_len: i64 = if product < 0 {
            -(finished_magnitude as i64)
        } else {
            finished_magnitude as i64
        };
        proof {
            assert(product as int == spec_bar_len * spec_left);
            assert(bar_finished_len as int == spec_finished);
        }
        let filled_count: usize = if bar_finished_len > 0 {
            bar_finished_len as usize
        } else {
            0
        };
        let empty_count: usize = if bar_len > bar_finished_len {
            (bar_len - bar_finished_len) as usize
        } else {
            0
        };
        proof {
            assert(filled_count as int == clip0(spec_finished));
            assert(empty_count as int == clip0(spec_bar_len - spec_finished));
        }
        let glyphs_flipped: bool = overhead_magnitude % 2 == 1;
        proof {
            if p < 0 {
                lemma_negated_parity(overhead_magnitude as int);
            }
            assert(glyphs_flipped == (spec_overhead % 2 != 0));
        }
        let mut out: String = String::new();
        out.append(self.job_title.as_str());
        let title_len: usize = self.job_title.as_str().unicode_len();
        if title_len < 50 {
            append_spaces(&mut out, 50 - title_len);
        }
        proof {
            assert(spec_spaces(0) =~= Seq::<char>::empty());
            assert(out@ =~= pad_right(m.job_title, 50));
        }
        out.append(self.left_cap.as_str());
        if glyphs_flipped {
            append_repeat(&mut out, self.empty_symbol.as_str(), filled_count);
            append_repeat(&mut out, self.filled_symbol.as_str(), empty_count);
        } else {
            append_repeat(&mut out, self.filled_symbol.as_str(), filled_count);
            append_repeat(&mut out, self.empty_symbol.as_str(), empty_count);
        }
        out.append(self.right_cap.as_str());
        let ghost body = pad_right(m.job_title, 50) + m.left_cap + spec_repeat(
            if spec_overhead % 2 == 0 {
                m.filled_symbol
            } else {
                m.empty_symbol
            },
            clip0(spec_finished),
        ) + spec_repeat(
            if spec_overhead % 2 == 0 {
                m.empty_symbol
            } else {
                m.filled_symbol
            },
            clip0(spec_bar_len - spec_finished),
        ) + m.right_cap;
        proof {
            assert(out@ =~= body);
        }
        let mut number: String = String::new();
        append_dec_i32(&mut number, p);
        proof {
            assert(number@ =~= spec_dec_signed(m.progress_percentage));
        }
        let number_len: usize = number.as_str().unicode_len();
        if number_len < 4 {
            append_spaces(&mut out, 4 - number_len);
        }
        out.append(number.as_str());
        proof {
            reveal_strlit("%");
        }
        out.append("%");
        proof {
            assert(out@ =~= body + pad_left(spec_dec_signed(m.progress_percentage), 4)
                + seq!['%']);
            assert(out@ =~= spec_line(m, width as int));
        }
        out
    }
}

} // verus!
