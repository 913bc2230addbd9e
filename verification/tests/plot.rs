use cpu_perf::event_set::EventCounts;
use cpu_perf::plot::{plot_data_from_buffer, plot_square, Colour, BRANCH_PLOT_COLOUR, PLOT_BACKGROUND};
use cpu_perf::two_dim_array::TwoDimensionalArray;

const GREEN: u32 = 0xff00ff00;

fn grid(rows: usize, cols: usize, fill: u32) -> TwoDimensionalArray<u32> {
    TwoDimensionalArray::new(vec![fill; rows * cols], rows, cols).unwrap()
}

fn cell(buffer: &TwoDimensionalArray<u32>, r: usize, c: usize) -> u32 {
    *buffer.get(r, c).unwrap()
}

#[test]
fn square_fills_its_clamped_rectangle() {
    let mut buffer = grid(5, 5, 0);
    plot_square(&mut buffer, 2, 2, 2, GREEN);
    // Width 2 reaches one cell each way: rows 1..=3, and columns 1..3
    // (the column span is half-open).
    for r in 0..5 {
        for c in 0..5 {
            let expected = if (1..=3).contains(&r) && (c == 1 || c == 2) { GREEN } else { 0 };
            assert_eq!(cell(&buffer, r, c), expected, "cell ({}, {})", r, c);
        }
    }
}

#[test]
fn square_is_clipped_at_the_buffer_edges() {
    let mut buffer = grid(4, 4, 7);
    plot_square(&mut buffer, 0, 0, 4, 9);
    // Centre at the origin: only rows 0..=2 and columns 0..2 exist,
    // and the column span never reaches the last column.
    for r in 0..4 {
        for c in 0..4 {
            let expected = if r <= 2 && c <= 1 { 9 } else { 7 };
            assert_eq!(cell(&buffer, r, c), expected, "cell ({}, {})", r, c);
        }
    }
}

#[test]
fn square_below_the_buffer_paints_nothing() {
    let mut buffer = grid(3, 3, 5);
    plot_square(&mut buffer, 1, 10, 2, 9);
    for r in 0..3 {
        for c in 0..3 {
            assert_eq!(cell(&buffer, r, c), 5);
        }
    }
}

#[test]
fn zero_cache_references_skip_the_cache_point_only() {
    let sample = EventCounts {
        num_cache_references: 0,
        num_cache_misses: 0,
        num_branch_instructions: 10,
        num_branch_misses: 5,
        ..EventCounts::default()
    };
    let mut buffer = grid(4, 4, 1);
    plot_data_from_buffer(&[sample], 1, &mut buffer, 2, 4, 4, GREEN);

    let mut greens = 0;
    let mut blues = 0;
    for r in 0..4 {
        for c in 0..4 {
            let v = cell(&buffer, r, c);
            if v == GREEN {
                greens += 1;
            } else if v == BRANCH_PLOT_COLOUR {
                blues += 1;
            } else {
                assert_eq!(v, PLOT_BACKGROUND);
            }
        }
    }
    // No cache point was drawn, while the branch point (rate one half,
    // centred at row 2, column 0) still was: rows 1..=3 of column 0.
    assert_eq!(greens, 0);
    assert_eq!(blues, 3);
    assert_eq!(cell(&buffer, 1, 0), BRANCH_PLOT_COLOUR);
    assert_eq!(cell(&buffer, 2, 0), BRANCH_PLOT_COLOUR);
    assert_eq!(cell(&buffer, 3, 0), BRANCH_PLOT_COLOUR);
}

#[test]
fn zero_branch_instructions_skip_the_branch_point_only() {
    let sample = EventCounts {
        num_cache_references: 10,
        num_cache_misses: 5,
        num_branch_instructions: 0,
        num_branch_misses: 0,
        ..EventCounts::default()
    };
    let mut buffer = grid(4, 4, 1);
    plot_data_from_buffer(&[sample], 1, &mut buffer, 2, 4, 4, GREEN);

    let mut blues = 0;
    let mut greens = 0;
    for r in 0..4 {
        for c in 0..4 {
            let v = cell(&buffer, r, c);
            if v == GREEN {
                greens += 1;
            } else if v == BRANCH_PLOT_COLOUR {
                blues += 1;
            }
        }
    }
    assert_eq!(blues, 0);
    assert_eq!(greens, 3);
}

#[test]
fn a_sample_with_no_data_leaves_only_background() {
    let sample = EventCounts::default();
    let mut buffer = grid(4, 4, 12345);
    plot_data_from_buffer(&[sample], 1, &mut buffer, 2, 4, 4, GREEN);
    for r in 0..4 {
        for c in 0..4 {
            assert_eq!(cell(&buffer, r, c), PLOT_BACKGROUND);
        }
    }
}

#[test]
fn samples_advance_by_the_point_separation() {
    let sample = EventCounts {
        num_cache_references: 1,
        num_cache_misses: 1,
        ..EventCounts::default()
    };
    // Two samples across a width of 8: points at columns 0 and 4, both
    // at a miss rate of one (row 0 of an 8-row plot).
    let mut buffer = grid(8, 8, 0);
    plot_data_from_buffer(&[sample, sample], 2, &mut buffer, 2, 8, 8, GREEN);
    assert_eq!(cell(&buffer, 0, 0), GREEN);
    assert_eq!(cell(&buffer, 1, 0), GREEN);
    assert_eq!(cell(&buffer, 0, 3), GREEN);
    assert_eq!(cell(&buffer, 0, 4), GREEN);
    assert_eq!(cell(&buffer, 1, 4), GREEN);
    assert_eq!(cell(&buffer, 0, 2), PLOT_BACKGROUND);
    assert_eq!(cell(&buffer, 3, 0), PLOT_BACKGROUND);
}

#[test]
fn colours_carry_their_packed_values() {
    assert_eq!(Colour::BLACK.rgba(), 0xff000000);
    assert_eq!(Colour::WHITE.rgba(), 0xffffffff);
    assert_eq!(Colour::GREY.rgba(), 0xff2e2e2e);
    assert_eq!(Colour::GREEN.rgba(), 0xff00ff00);
    assert_eq!(Colour::BLUE.rgba(), 0xff0000ff);
}
