use wallpaper_cava::geometry::{bar_width, gap_width, synthesize, validate_layout, Vertex};
use wallpaper_cava::gpu::build_index_buffer;
use wallpaper_cava::rational::Rat;

fn rat(num: i64, den: i64) -> Rat {
    Rat { num, den }
}

#[test]
fn bar_width_three_bars_no_gap() {
    let w = bar_width(3, rat(0, 1));
    assert!(w.eq_value(&rat(2, 3)));
}

#[test]
fn bars_and_gaps_span_exactly_two() {
    // 4 bars with gap ratio 1/2: widths and gaps must sum to the full
    // NDC range of width 2, exactly.
    let w = bar_width(4, rat(1, 2));
    let g = gap_width(4, rat(1, 2));
    assert_eq!(w.den, g.den);
    assert_eq!(w.num * 4 + g.num * 3, 2 * w.den);
}

#[test]
fn bars_and_gaps_span_exactly_two_single_bar() {
    // One bar is valid: no gaps contribute and the bar fills the range.
    let w = bar_width(1, rat(3, 4));
    let g = gap_width(1, rat(3, 4));
    assert_eq!(w.num * 1 + g.num * 0, 2 * w.den);
    assert!(w.eq_value(&rat(2, 1)));
}

#[test]
fn three_bar_scenario_spans_and_tops() {
    // bar_count = 3, gap ratio 0: bar_width = 2/3; bar 0 spans
    // [-1, -1/3], bar 1 spans [-1/3, 1/3], bar 2 spans [1/3, 1];
    // magnitudes 0, 1/2, 1 give top-y values -1, 0, 1.
    let mags = vec![rat(0, 1), rat(1, 2), rat(1, 1)];
    let v: Vec<Vertex> = synthesize(&mags, 3, rat(0, 1));
    assert_eq!(v.len(), 12);
    // bar 0
    assert!(v[0].x.eq_value(&rat(-1, 1)));
    assert!(v[1].x.eq_value(&rat(-1, 3)));
    assert!(v[0].y.eq_value(&rat(-1, 1)));
    // bar 1
    assert!(v[4].x.eq_value(&rat(-1, 3)));
    assert!(v[5].x.eq_value(&rat(1, 3)));
    assert!(v[4].y.eq_value(&rat(0, 1)));
    // bar 2
    assert!(v[8].x.eq_value(&rat(1, 3)));
    assert!(v[9].x.eq_value(&rat(1, 1)));
    assert!(v[8].y.eq_value(&rat(1, 1)));
    // every bottom vertex sits on the baseline
    for i in 0..3 {
        assert!(v[4 * i + 2].y.eq_value(&rat(-1, 1)));
        assert!(v[4 * i + 3].y.eq_value(&rat(-1, 1)));
    }
}

#[test]
fn synthesize_is_pure() {
    let mags = vec![rat(1, 4), rat(3, 4)];
    let a = synthesize(&mags, 2, rat(1, 10));
    let b = synthesize(&mags, 2, rat(1, 10));
    assert_eq!(a, b);
}

#[test]
fn corner_order_matches_index_buffer() {
    // (left, top), (right, top), (left, bottom), (right, bottom)
    let mags = vec![rat(1, 2)];
    let v = synthesize(&mags, 1, rat(0, 1));
    assert_eq!(v.len(), 4);
    assert!(v[0].x.eq_value(&v[2].x));
    assert!(v[1].x.eq_value(&v[3].x));
    assert!(v[0].y.eq_value(&v[1].y));
    assert!(v[2].y.eq_value(&v[3].y));
}

#[test]
fn validate_layout_accepts_and_rejects() {
    assert!(validate_layout(1, rat(0, 1)));
    assert!(validate_layout(16384, rat(1000000, 1)));
    assert!(!validate_layout(0, rat(0, 1)));
    assert!(!validate_layout(16385, rat(0, 1)));
    // negative gap ratio is a configuration error
    assert!(!validate_layout(8, rat(-1, 2)));
    // malformed denominator
    assert!(!validate_layout(8, rat(1, 0)));
}

#[test]
fn index_buffer_two_bars() {
    let idx = build_index_buffer(2);
    assert_eq!(idx, vec![0u16, 1, 2, 1, 2, 3, 4, 5, 6, 5, 6, 7]);
}

#[test]
fn index_buffer_is_six_per_bar() {
    let idx = build_index_buffer(16384);
    assert_eq!(idx.len(), 6 * 16384);
    assert_eq!(idx[6 * 16383 + 5], u16::MAX);
}
