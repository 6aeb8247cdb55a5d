use synthscore::analyze_image;
use synthscore::score::Verdict;
use synthscore::Outcome;

const FAILURE_PREFIX: &str = "image decode failed: ";

fn png_payload(width: u32, height: u32, data: Vec<u8>) -> String {
    let img = image::GrayImage::from_raw(width, height, data).expect("raw buffer fits");
    let mut bytes: Vec<u8> = Vec::new();
    img.write_to(&mut std::io::Cursor::new(&mut bytes), image::ImageOutputFormat::Png)
        .expect("png encoding succeeds");
    base64::encode(&bytes)
}

#[test]
fn invalid_base64_reports_failure() {
    let r = analyze_image("%%% not base64 %%%");
    assert!(matches!(r.outcome, Outcome::DecodeFailed));
    assert!(r.message.starts_with(FAILURE_PREFIX));
    assert!(r.message.len() > FAILURE_PREFIX.len());
}

#[test]
fn non_image_bytes_report_failure() {
    let payload = base64::encode(b"plain text, not an image");
    let r = analyze_image(&payload);
    assert!(matches!(r.outcome, Outcome::DecodeFailed));
    assert!(r.message.starts_with(FAILURE_PREFIX));
    assert!(r.message.len() > FAILURE_PREFIX.len());
}

#[test]
fn solid_black_square_scores_natural() {
    let r = analyze_image(&png_payload(4, 4, vec![0; 16]));
    match r.outcome {
        Outcome::Scored { metrics, verdict } => {
            assert_eq!(metrics.var_num, 0);
            assert_eq!(metrics.grad_total, 0);
            assert_eq!(metrics.area, 16);
            assert_eq!(verdict, Verdict::Natural);
        }
        Outcome::DecodeFailed => panic!("solid square must decode"),
    }
    assert_eq!(r.message, "looks like a natural capture");
}

#[test]
fn checkerboard_scores_synthetic() {
    let mut data = Vec::new();
    for y in 0..4u32 {
        for x in 0..4u32 {
            data.push(if (x + y) % 2 == 0 { 0u8 } else { 255u8 });
        }
    }
    let r = analyze_image(&png_payload(4, 4, data));
    match r.outcome {
        Outcome::Scored { metrics, verdict } => {
            // Population standard deviation 127.5: 16·Σx² − (Σx)² = 4161600.
            assert_eq!(metrics.var_num, 4161600);
            assert_eq!(metrics.area, 16);
            // Central differences skip one pixel, and pixels two apart on a
            // checkerboard share a color, so the gradient term stays 0; the
            // texture term alone pushes the confidence past every tier.
            assert_eq!(metrics.grad_total, 0);
            assert_eq!(verdict, Verdict::Synthetic);
        }
        Outcome::DecodeFailed => panic!("checkerboard must decode"),
    }
    assert_eq!(r.message, "likely an AI-synthesized image");
}

#[test]
fn gradient_energy_nonzero_on_step_edge() {
    // A hard vertical edge two pixels wide is visible to the central
    // differences: every interior pixel straddles it.
    let mut data = Vec::new();
    for _y in 0..4u32 {
        data.extend_from_slice(&[0, 0, 255, 255]);
    }
    let r = analyze_image(&png_payload(4, 4, data));
    match r.outcome {
        Outcome::Scored { metrics, .. } => {
            assert!(metrics.grad_total > 0);
        }
        Outcome::DecodeFailed => panic!("edge image must decode"),
    }
}

#[test]
fn repeated_analysis_is_identical() {
    let payload = png_payload(4, 4, vec![17; 16]);
    let a = analyze_image(&payload);
    let b = analyze_image(&payload);
    assert_eq!(a.outcome, b.outcome);
    assert_eq!(a.message, b.message);

    let bad = "!!!";
    let c = analyze_image(bad);
    let d = analyze_image(bad);
    assert_eq!(c.outcome, d.outcome);
    assert_eq!(c.message, d.message);
}
