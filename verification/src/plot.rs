use vstd::prelude::*;

use crate::event_set::EventCounts;
use crate::two_dim_array::TwoDimensionalArray;

verus! {

/// The background every plot pass starts from: opaque black.
pub const PLOT_BACKGROUND: u32 = 0xff000000;

/// The colour of the branch-misprediction series: opaque blue.
pub const BRANCH_PLOT_COLOUR: u32 = 0xff0000ff;

/// The named colours of the plot, as packed opaque pixel values.
#[derive(Clone, Copy, Debug, PartialEq, Eq, Structural)]
pub enum Colour {
    BLACK,
    WHITE,
    GREY,
    GREEN,
    BLUE,
}

/// The packed pixel value of a named colour.
pub open spec fn colour_value(colour: Colour) -> u32 {
    match colour {
        Colour::BLACK => 0xff000000,
        Colour::WHITE => 0xffffffff,
        Colour::GREY => 0xff2e2e2e,
        Colour::GREEN => 0xff00ff00,
        Colour::BLUE => 0xff0000ff,
    }
}

impl Colour {
    /// The packed pixel value of this colour.
    pub fn rgba(self) -> (r: u32)
        ensures
            r == colour_value(self),
    {
        match self {
            Colour::BLACK => 0xff000000,
            Colour::WHITE => 0xffffffff,
            Colour::GREY => 0xff2e2e2e,
            Colour::GREEN => 0xff00ff00,
            Colour::BLUE => 0xff0000ff,
        }
    }
}

/// Whether cell `(r, c)` of a `rows` by `cols` grid lies in the filled
/// square centred at `(cx, cy)`: rows from half the width above the
/// centre down to half below, clamped to the grid's last row, and
/// columns likewise, with the column range half-open and capped one
/// short of the grid's last column.
pub open spec fn square_covers(
    rows: int,
    cols: int,
    cx: int,
    cy: int,
    w: int,
    r: int,
    c: int,
) -> bool {
    let half = w / 2;
    let row_start = if cy >= half {
        cy - half
    } else {
        0
    };
    let col_start = if cx >= half {
        cx - half
    } else {
        0
    };
    &&& row_start <= r <= cy + half
    &&& r <= rows - 1
    &&& col_start <= c < cx + half
    &&& c < cols - 1
}

/// The grid after one filled square is painted over it: every covered
/// cell takes the colour, every other cell keeps its value.
pub open spec fn paint_square(g: Seq<Seq<u32>>, cx: int, cy: int, w: int, colour: u32) -> Seq<
    Seq<u32>,
> {
    Seq::new(
        g.len(),
        |r: int|
            Seq::new(
                g[r].len(),
                |c: int|
                    if square_covers(g.len() as int, g[r].len() as int, cx, cy, w, r, c) {
                        colour
                    } else {
                        g[r][c]
                    },
            ),
    )
}

/// The plot row of one sample's cache miss rate: the fraction of
/// cache references that missed, scaled to the plot height and drawn
/// from the bottom (a zero rate sits at the full height, a rate of
/// one at row zero).
pub open spec fn cache_miss_y(counts: EventCounts, height: int) -> int {
    height - (height * counts.num_cache_misses) / (counts.num_cache_references as int)
}

/// The plot row of one sample's branch misprediction rate, scaled and
/// drawn as the cache miss rate is.
pub open spec fn branch_miss_y(counts: EventCounts, height: int) -> int {
    height - (height * counts.num_branch_misses) / (counts.num_branch_instructions as int)
}

/// Whether a sample's two rates are well defined wherever their
/// denominators are non-zero: no more misses than references, and no
/// more mispredictions than branch instructions.
pub open spec fn valid_sample(counts: EventCounts) -> bool {
    &&& counts.num_cache_misses <= counts.num_cache_references
    &&& counts.num_branch_misses <= counts.num_branch_instructions
}

/// The grid after one sample is plotted: a square in the series
/// colour at the cache miss rate — only when the sample holds any
/// cache references at all, for with none the rate is undefined and
/// no point is drawn — and then, independently, a square in the
/// branch colour at the branch misprediction rate, only when the
/// sample holds any branch instructions.
pub open spec fn paint_sample(
    g: Seq<Seq<u32>>,
    counts: EventCounts,
    x: int,
    w: int,
    colour: u32,
) -> Seq<Seq<u32>> {
    let height = g.len() as int;
    let g1 = if counts.num_cache_references > 0 {
        paint_square(g, x, cache_miss_y(counts, height), w, colour)
    } else {
        g
    };
    if counts.num_branch_instructions > 0 {
        paint_square(g1, x, branch_miss_y(counts, height), w, BRANCH_PLOT_COLOUR)
    } else {
        g1
    }
}

/// The grid after a whole series of samples is plotted, left to
/// right, one point separation apart.
pub open spec fn paint_series(
    g: Seq<Seq<u32>>,
    samples: Seq<EventCounts>,
    x: int,
    sep: int,
    w: int,
    colour: u32,
) -> Seq<Seq<u32>>
    decreases samples.len(),
{
    if samples.len() == 0 {
        g
    } else {
        paint_series(
            paint_sample(g, samples[0], x, w, colour),
            samples.subrange(1, samples.len() as int),
            x + sep,
            sep,
            w,
            colour,
        )
    }
}

/// A grid of the given dimensions holding only the plot background.
pub open spec fn background(rows: int, cols: int) -> Seq<Seq<u32>> {
    Seq::new(rows as nat, |r: int| Seq::new(cols as nat, |c: int| PLOT_BACKGROUND))
}

/// Paints one filled square of the given width centred at
/// `(centre_x, centre_y)`, clamped to the buffer: rows past the edges
/// are skipped, and the column span stops one short of the last
/// column. Every cell outside the square keeps its value.
pub fn plot_square(
    buffer: &mut TwoDimensionalArray<u32>,
    centre_x: usize,
    centre_y: usize,
    width: usize,
    colour: u32,
)
    requires
        old(buffer).wf(),
        old(buffer).rows() >= 1,
        old(buffer).cols() >= 1,
        centre_x + width <= usize::MAX,
        centre_y + width <= usize::MAX,
        centre_x <= old(buffer).cols() - 1 + width / 2,
    ensures
        final(buffer).wf(),
        final(buffer).rows() == old(buffer).rows(),
        final(buffer).cols() == old(buffer).cols(),
        final(buffer).grid() == paint_square(
            old(buffer).grid(),
            centre_x as int,
            centre_y as int,
            width as int,
            colour,
        ),
{
    let ghost rows = old(buffer).rows();
    let ghost cols = old(buffer).cols();
    let num_rows = buffer.num_rows();
    let num_cols = buffer.num_cols();
    let half = width / 2;
    let row_start = if centre_y >= half {
        centre_y - half
    } else {
        0
    };
    let row_end = {
        let e = centre_y + half;
        if e <= num_rows - 1 {
            e
        } else {
            num_rows - 1
        }
    };
    let col_start = if centre_x >= half {
        centre_x - half
    } else {
        0
    };
    let col_end = {
        let e = centre_x + half;
        if e <= num_cols - 1 {
            e
        } else {
            num_cols - 1
        }
    };
    let mut r = row_start;
    while r <= row_end
        invariant
            buffer.wf(),
            buffer.rows() == rows,
            buffer.cols() == cols,
            rows >= 1,
            cols >= 1,
            rows <= usize::MAX,
            cols <= usize::MAX,
            row_start <= r,
            r <= row_end + 1 || r == row_start,
            row_end <= rows - 1,
            col_start <= col_end <= cols - 1,
            half == width / 2,
            row_start == if centre_y >= half {
                centre_y - half
            } else {
                0
            },
            row_end == if centre_y + half <= rows - 1 {
                centre_y + half
            } else {
                rows - 1
            },
            col_start == if centre_x >= half {
                centre_x - half
            } else {
                0
            },
            col_end == if centre_x + half <= cols - 1 {
                centre_x + half
            } else {
                cols - 1
            },
            forall|r2: int, c2: int| buffer.in_bounds(r2, c2) ==> #[trigger] buffer.at(r2, c2)
                == (if square_covers(
                rows,
                cols,
                centre_x as int,
                centre_y as int,
                width as int,
                r2,
                c2,
            ) && r2 < r {
                colour
            } else {
                old(buffer).at(r2, c2)
            }),
        decreases row_end + 1 - r,
    {
        let mut c = col_start;
        while c < col_end
            invariant
                buffer.wf(),
                buffer.rows() == rows,
                buffer.cols() == cols,
                rows >= 1,
                cols >= 1,
                rows <= usize::MAX,
                cols <= usize::MAX,
                row_start <= r <= row_end,
                row_end <= rows - 1,
                col_start <= c <= col_end,
                col_end <= cols - 1,
                half == width / 2,
                row_start == if centre_y >= half {
                    centre_y - half
                } else {
                    0
                },
                row_end == if centre_y + half <= rows - 1 {
                    centre_y + half
                } else {
                    rows - 1
                },
                col_start == if centre_x >= half {
                    centre_x - half
                } else {
                    0
                },
                col_end == if centre_x + half <= cols - 1 {
                    centre_x + half
                } else {
                    cols - 1
                },
                forall|r2: int, c2: int| buffer.in_bounds(r2, c2) ==> #[trigger] buffer.at(
                    r2,
                    c2,
                ) == (if square_covers(
                    rows,
                    cols,
                    centre_x as int,
                    centre_y as int,
                    width as int,
                    r2,
                    c2,
                ) && (r2 < r || (r2 == r && c2 < c)) {
                    colour
                } else {
                    old(buffer).at(r2, c2)
                }),
            decreases col_end - c,
        {
            buffer.set(r, c, colour);
            c = c + 1;
        }
        r = r + 1;
    }
    proof {
        assert forall|r2: int, c2: int| buffer.in_bounds(r2, c2) implies #[trigger] buffer.at(
            r2,
            c2,
        ) == (if square_covers(
            rows,
            cols,
            centre_x as int,
            centre_y as int,
            width as int,
            r2,
            c2,
        ) {
            colour
        } else {
            old(buffer).at(r2, c2)
        }) by {}
        assert(buffer.grid() =~~= paint_square(
            old(buffer).grid(),
            centre_x as int,
            centre_y as int,
            width as int,
            colour,
        ));
    }
}

/// Redraws the plot from a window of samples: the buffer is reset to
/// the background and each sample is plotted in turn, left to right,
/// one point separation (the buffer width over the declared count)
/// apart. A sample with no cache references gets no cache point — the
/// rate is undefined, so no division happens and nothing is drawn for
/// it — while its branch point is still drawn whenever the sample
/// holds branch instructions, and the other way round.
pub fn plot_data_from_buffer(
    value_buffer: &[EventCounts],
    num_counts: usize,
    plot_buffer: &mut TwoDimensionalArray<u32>,
    width: usize,
    buffer_width: usize,
    buffer_height: usize,
    colour: u32,
)
    requires
        old(plot_buffer).wf(),
        old(plot_buffer).rows() == buffer_height,
        old(plot_buffer).cols() == buffer_width,
        buffer_height >= 1,
        buffer_width >= 1,
        num_counts >= 1,
        value_buffer@.len() <= num_counts,
        buffer_width + width <= usize::MAX,
        buffer_height + width <= usize::MAX,
        forall|j: int| 0 <= j < value_buffer@.len() ==> valid_sample(#[trigger] value_buffer@[j]),
    ensures
        final(plot_buffer).wf(),
        final(plot_buffer).rows() == buffer_height,
        final(plot_buffer).cols() == buffer_width,
        final(plot_buffer).grid() == paint_series(
            background(buffer_height as int, buffer_width as int),
            value_buffer@,
            0,
            (buffer_width / num_counts) as int,
            width as int,
            colour,
        ),
{
    plot_buffer.fill(PLOT_BACKGROUND);
    proof {
        assert(plot_buffer.grid() =~~= background(buffer_height as int, buffer_width as int));
        assert(value_buffer@.skip(0) =~= value_buffer@);
    }
    let sep = buffer_width / num_counts;
    let n = value_buffer.len();
    let ghost goal = paint_series(
        background(buffer_height as int, buffer_width as int),
        value_buffer@,
        0,
        sep as int,
        width as int,
        colour,
    );
    let mut x: usize = 0;
    let mut i: usize = 0;
    while i < n
        invariant
            plot_buffer.wf(),
            plot_buffer.rows() == buffer_height,
            plot_buffer.cols() == buffer_width,
            buffer_height >= 1,
            buffer_width >= 1,
            num_counts >= 1,
            buffer_width + width <= usize::MAX,
            buffer_height + width <= usize::MAX,
            n == value_buffer@.len(),
            n <= num_counts,
            i <= n,
            sep == buffer_width / num_counts,
            x == i * sep,
            forall|j: int| 0 <= j < value_buffer@.len() ==> valid_sample(
                #[trigger] value_buffer@[j],
            ),
            paint_series(
                plot_buffer.grid(),
                value_buffer@.skip(i as int),
                x as int,
                sep as int,
                width as int,
                colour,
            ) == goal,
        decreases n - i,
    {
        let counts = value_buffer[i];
        let ghost gpre = plot_buffer.grid();
        proof {
            vstd::arithmetic::mul::lemma_mul_inequality(
                i + 1,
                num_counts as int,
                sep as int,
            );
            vstd::arithmetic::div_mod::lemma_fundamental_div_mod(
                buffer_width as int,
                num_counts as int,
            );
            vstd::arithmetic::div_mod::lemma_mod_bound(
                buffer_width as int,
                num_counts as int,
            );
            assert((i + 1) * (sep as int) == i * sep + sep) by (nonlinear_arith);
            assert(x + sep <= buffer_width);
        }
        if counts.num_cache_references > 0 {
            proof {
                assert((buffer_height as int) * (counts.num_cache_misses as int) <= u128::MAX)
                    by (nonlinear_arith)
                    requires
                        0 <= buffer_height <= u64::MAX,
                        0 <= counts.num_cache_misses <= u64::MAX,
                ;
            }
            let prod: u128 = (buffer_height as u128) * (counts.num_cache_misses as u128);
            let denom: u128 = counts.num_cache_references as u128;
            let q: u128 = prod / denom;
            proof {
                assert((buffer_height as int) * (counts.num_cache_misses as int)
                    <= (buffer_height as int) * (counts.num_cache_references as int))
                    by (nonlinear_arith)
                    requires
                        counts.num_cache_misses <= counts.num_cache_references,
                        0 <= buffer_height,
                ;
                vstd::arithmetic::div_mod::lemma_div_is_ordered(
                    (buffer_height as int) * (counts.num_cache_misses as int),
                    (buffer_height as int) * (counts.num_cache_references as int),
                    counts.num_cache_references as int,
                );
                vstd::arithmetic::div_mod::lemma_div_multiples_vanish(
                    buffer_height as int,
                    counts.num_cache_references as int,
                );
                assert(q <= buffer_height);
            }
            let y = buffer_height - (q as usize);
            plot_square(plot_buffer, x, y, width, colour);
        }
        if counts.num_branch_instructions > 0 {
            proof {
                assert((buffer_height as int) * (counts.num_branch_misses as int) <= u128::MAX)
                    by (nonlinear_arith)
                    requires
                        0 <= buffer_height <= u64::MAX,
                        0 <= counts.num_branch_misses <= u64::MAX,
                ;
            }
            let prod: u128 = (buffer_height as u128) * (counts.num_branch_misses as u128);
            let denom: u128 = counts.num_branch_instructions as u128;
            let q: u128 = prod / denom;
            proof {
                assert((buffer_height as int) * (counts.num_branch_misses as int)
                    <= (buffer_height as int) * (counts.num_branch_instructions as int))
                    by (nonlinear_arith)
                    requires
                        counts.num_branch_misses <= counts.num_branch_instructions,
                        0 <= buffer_height,
                ;
                vstd::arithmetic::div_mod::lemma_div_is_ordered(
                    (buffer_height as int) * (counts.num_branch_misses as int),
                    (buffer_height as int) * (counts.num_branch_instructions as int),
                    counts.num_branch_instructions as int,
                );
                vstd::arithmetic::div_mod::lemma_div_multiples_vanish(
                    buffer_height as int,
                    counts.num_branch_instructions as int,
                );
                assert(q <= buffer_height);
            }
            let y = buffer_height - (q as usize);
            plot_square(plot_buffer, x, y, width, BRANCH_PLOT_COLOUR);
        }
        proof {
            assert(plot_buffer.grid() == paint_sample(
                gpre,
                counts,
                x as int,
                width as int,
                colour,
            ));
            let rest = value_buffer@.skip(i as int);
            assert(rest[0] == counts);
            assert(rest.subrange(1, rest.len() as int) =~= value_buffer@.skip(i + 1));
            assert(paint_series(
                gpre,
                rest,
                x as int,
                sep as int,
                width as int,
                colour,
            ) == paint_series(
                plot_buffer.grid(),
                value_buffer@.skip(i + 1),
                x + sep,
                sep as int,
                width as int,
                colour,
            ));
        }
        x = x + sep;
        i = i + 1;
    }
    proof {
        assert(value_buffer@.skip(n as int).len() == 0);
    }
}

} // verus!
