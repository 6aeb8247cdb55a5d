use synthscore::gradient::gradient_total;
use synthscore::grid::PixelGrid;
use synthscore::score::classify;
use synthscore::score::Metrics;
use synthscore::score::Verdict;
use synthscore::texture::variance_numerator;

fn grid(width: u32, height: u32, data: Vec<u8>) -> PixelGrid {
    PixelGrid::try_new(width, height, data).expect("well-formed grid")
}

#[test]
fn grid_rejects_zero_width() {
    assert!(PixelGrid::try_new(0, 4, vec![]).is_none());
}

#[test]
fn grid_rejects_zero_height() {
    assert!(PixelGrid::try_new(4, 0, vec![]).is_none());
}

#[test]
fn grid_rejects_length_mismatch() {
    assert!(PixelGrid::try_new(2, 2, vec![1, 2, 3]).is_none());
}

#[test]
fn grid_accepts_matching_data() {
    let g = grid(2, 3, vec![1, 2, 3, 4, 5, 6]);
    assert_eq!(g.width, 2);
    assert_eq!(g.height, 3);
    assert_eq!(g.data, vec![1, 2, 3, 4, 5, 6]);
}

#[test]
fn texture_zero_on_single_pixel() {
    let g = grid(1, 1, vec![7]);
    assert_eq!(variance_numerator(&g), 0);
}

#[test]
fn texture_and_gradient_zero_on_uniform() {
    let g = grid(8, 8, vec![42; 64]);
    assert_eq!(variance_numerator(&g), 0);
    assert_eq!(gradient_total(&g), 0);
}

#[test]
fn texture_exact_on_two_pixel_contrast() {
    // 2·(0² + 255²) − 255² = 65025; the standard deviation is √65025/2 = 127.5.
    let g = grid(2, 1, vec![0, 255]);
    assert_eq!(variance_numerator(&g), 65025);
}

#[test]
fn gradient_zero_on_single_pixel() {
    let g = grid(1, 1, vec![9]);
    assert_eq!(gradient_total(&g), 0);
}

#[test]
fn gradient_zero_on_single_row() {
    let g = grid(5, 1, vec![0, 80, 160, 240, 30]);
    assert_eq!(gradient_total(&g), 0);
}

#[test]
fn gradient_zero_on_single_column() {
    let g = grid(1, 5, vec![0, 80, 160, 240, 30]);
    assert_eq!(gradient_total(&g), 0);
}

#[test]
fn gradient_zero_without_interior() {
    let g = grid(2, 4, vec![0, 255, 0, 255, 0, 255, 0, 255]);
    assert_eq!(gradient_total(&g), 0);
}

#[test]
fn gradient_exact_on_three_by_three() {
    // Interior pixel (1,1): |60−40| + |80−20| = 80.
    let g = grid(3, 3, vec![10, 20, 30, 40, 50, 60, 70, 80, 90]);
    assert_eq!(gradient_total(&g), 80);
}

#[test]
fn classify_natural_at_review_boundary() {
    // Raw score exactly 1/2 (1600 / (200·16)): strictly-greater comparison
    // keeps it on the lower tier.
    let m = Metrics { var_num: 0, grad_total: 1600, area: 16 };
    assert_eq!(classify(&m), Verdict::Natural);
}

#[test]
fn classify_review_just_above_review_boundary() {
    let m = Metrics { var_num: 0, grad_total: 1601, area: 16 };
    assert_eq!(classify(&m), Verdict::ManualReview);
}

#[test]
fn classify_review_at_high_boundary() {
    // Raw score exactly 17/20 (2720 / (200·16)): still the middle tier.
    let m = Metrics { var_num: 0, grad_total: 2720, area: 16 };
    assert_eq!(classify(&m), Verdict::ManualReview);
}

#[test]
fn classify_synthetic_just_above_high_boundary() {
    let m = Metrics { var_num: 0, grad_total: 2721, area: 16 };
    assert_eq!(classify(&m), Verdict::Synthetic);
}

#[test]
fn classify_uses_texture_dispersion() {
    // √4161600/16 = 127.5 of texture alone: far beyond the high tier.
    let m = Metrics { var_num: 4161600, grad_total: 0, area: 16 };
    assert_eq!(classify(&m), Verdict::Synthetic);
}
