use blur_detect::buffer::{EdgeResponse, LumaImage};
use blur_detect::classify::{classify_smoothed, is_blurry, Threshold};
use blur_detect::edge::laplacian_filter;
use blur_detect::error::ImageAnalysisError;
use blur_detect::variance::{calculate_variance, Variance};
use image::{DynamicImage, GrayImage, ImageBuffer, Luma};
use imageproc::filter::gaussian_blur_f32;

fn to_luma(img: GrayImage) -> LumaImage {
    let (w, h) = img.dimensions();
    LumaImage::new(w, h, img.into_raw()).unwrap()
}

fn smoothed(img: GrayImage, sigma: f32) -> LumaImage {
    let gray = DynamicImage::ImageLuma8(img).to_luma8();
    if sigma > 0.0 {
        to_luma(gaussian_blur_f32(&gray, sigma))
    } else {
        to_luma(gray)
    }
}

fn as_f64(v: &Variance) -> f64 {
    v.numerator as f64 / v.denominator as f64
}

#[test]
fn test_calculate_variance() {
    let img = EdgeResponse::new(2, 2, vec![10, 20, 20, 10]).unwrap();
    let variance = calculate_variance(&img).unwrap();
    assert_eq!(as_f64(&variance), 25.0);
}

#[test]
fn test_detect_blur() {
    let blurry_img: GrayImage = ImageBuffer::from_fn(2, 2, |_, _| Luma([10]));
    let threshold = Threshold::from_integer(5);
    assert!(classify_smoothed(&smoothed(blurry_img, 1.0), &threshold).unwrap().blurry);

    let sharp_img: GrayImage =
        ImageBuffer::from_fn(2, 2, |x, y| if x == y { Luma([10]) } else { Luma([30]) });
    assert!(!classify_smoothed(&smoothed(sharp_img, 1.0), &threshold).unwrap().blurry);
}

#[test]
fn variance_is_exact_fraction() {
    let img = EdgeResponse::new(2, 2, vec![10, 20, 20, 10]).unwrap();
    let v = calculate_variance(&img).unwrap();
    assert_eq!(v, Variance { numerator: 400, denominator: 16 });
}

#[test]
fn variance_of_extreme_samples() {
    let img = EdgeResponse::new(2, 1, vec![i16::MIN, i16::MAX]).unwrap();
    let v = calculate_variance(&img).unwrap();
    // mean -0.5, deviations ±32767.5
    assert_eq!(v.numerator * 4, 65535u128 * 65535 * v.denominator);
}

#[test]
fn variance_of_empty_buffer_is_invalid() {
    let img = EdgeResponse::new(0, 3, vec![]).unwrap();
    assert_eq!(calculate_variance(&img), Err(ImageAnalysisError::InvalidInput));
    let img = EdgeResponse::new(3, 0, vec![]).unwrap();
    assert_eq!(calculate_variance(&img), Err(ImageAnalysisError::InvalidInput));
}

#[test]
fn classify_empty_image_is_invalid() {
    let t = Threshold::from_integer(5);
    let img = LumaImage::new(0, 4, vec![]).unwrap();
    assert_eq!(classify_smoothed(&img, &t), Err(ImageAnalysisError::InvalidInput));
    let img = LumaImage::new(4, 0, vec![]).unwrap();
    assert_eq!(classify_smoothed(&img, &t), Err(ImageAnalysisError::InvalidInput));
}

#[test]
fn mismatched_storage_is_invalid() {
    assert_eq!(LumaImage::new(2, 2, vec![1, 2, 3]).err(), Some(ImageAnalysisError::InvalidInput));
    assert_eq!(EdgeResponse::new(1, 2, vec![1]).err(), Some(ImageAnalysisError::InvalidInput));
    assert_eq!(Threshold::new(5, 0), Err(ImageAnalysisError::InvalidInput));
}

#[test]
fn laplacian_uses_edge_replication() {
    // 3x2 image
    //  0 10 20
    // 30 40 50
    let img = LumaImage::new(3, 2, vec![0, 10, 20, 30, 40, 50]).unwrap();
    let r = laplacian_filter(&img);
    assert_eq!((r.width, r.height), (3, 2));
    // (0,0): up 0, left 0, right 10, down 30, centre 0 -> 40
    // (1,0): up 10, left 0, right 20, down 40, centre 10 -> 30
    // (2,0): up 20, left 10, right 20, down 50, centre 20 -> 20
    // (0,1): up 0, left 30, right 40, down 30, centre 30 -> -20
    // (1,1): up 10, left 30, right 50, down 40, centre 40 -> -30
    // (2,1): up 20, left 40, right 50, down 50, centre 50 -> -40
    assert_eq!(r.samples, vec![40, 30, 20, -20, -30, -40]);
}

#[test]
fn laplacian_extremes_fit() {
    let img = LumaImage::new(3, 3, vec![255, 255, 255, 255, 0, 255, 255, 255, 255]).unwrap();
    let r = laplacian_filter(&img);
    assert_eq!(r.samples[4], 1020);
    let img = LumaImage::new(3, 3, vec![0, 0, 0, 0, 255, 0, 0, 0, 0]).unwrap();
    let r = laplacian_filter(&img);
    assert_eq!(r.samples[4], -1020);
    assert_eq!(r.samples[1], 255);
    assert_eq!(r.samples[0], 0);
}

#[test]
fn threshold_boundary_is_sharp() {
    let v = Variance { numerator: 400, denominator: 16 };
    assert!(!is_blurry(&v, &Threshold::from_integer(25)));
    assert!(!is_blurry(&v, &Threshold::new(50, 2).unwrap()));
    assert!(is_blurry(&v, &Threshold::new(51, 2).unwrap()));
    assert!(!is_blurry(&v, &Threshold::new(49, 2).unwrap()));
}

#[test]
fn zero_variance_against_thresholds() {
    let v = Variance { numerator: 0, denominator: 9 };
    assert!(is_blurry(&v, &Threshold::new(1, 1000).unwrap()));
    assert!(!is_blurry(&v, &Threshold::from_integer(0)));
    assert!(!is_blurry(&v, &Threshold::from_integer(-3)));
}

#[test]
fn flat_image_is_blurry() {
    let img = LumaImage::new(3, 4, vec![77; 12]).unwrap();
    let d = classify_smoothed(&img, &Threshold::new(1, 100).unwrap()).unwrap();
    assert!(d.blurry);
    assert_eq!(d.variance.numerator, 0);
    assert_eq!(d.variance.denominator, 144);
    for sigma in [0.0f32, 1.0, 2.5] {
        let gray: GrayImage = ImageBuffer::from_fn(5, 5, |_, _| Luma([200]));
        let d = classify_smoothed(&smoothed(gray, sigma), &Threshold::from_integer(1)).unwrap();
        assert!(d.blurry);
    }
}

#[test]
fn checkerboard_is_sharp() {
    let gray: GrayImage =
        ImageBuffer::from_fn(2, 2, |x, y| if (x + y) % 2 == 0 { Luma([10]) } else { Luma([30]) });
    let d = classify_smoothed(&smoothed(gray, 1.0), &Threshold::from_integer(5)).unwrap();
    assert!(!d.blurry);
    assert!(as_f64(&d.variance) >= 5.0);
}

#[test]
fn checkerboard_unsmoothed_variance() {
    // responses are ±40 on every pixel: variance 1600
    let img = LumaImage::new(2, 2, vec![10, 30, 30, 10]).unwrap();
    let d = classify_smoothed(&img, &Threshold::from_integer(1600)).unwrap();
    assert_eq!(as_f64(&d.variance), 1600.0);
    assert!(!d.blurry);
    let d = classify_smoothed(&img, &Threshold::from_integer(1601)).unwrap();
    assert!(d.blurry);
}

#[test]
fn stronger_smoothing_lowers_variance() {
    let gray: GrayImage = ImageBuffer::from_fn(8, 8, |x, y| {
        if (x / 2 + y / 2) % 2 == 0 { Luma([20]) } else { Luma([220]) }
    });
    let t = Threshold::from_integer(0);
    let v0 = as_f64(&classify_smoothed(&smoothed(gray.clone(), 0.0), &t).unwrap().variance);
    let v1 = as_f64(&classify_smoothed(&smoothed(gray.clone(), 1.0), &t).unwrap().variance);
    let v2 = as_f64(&classify_smoothed(&smoothed(gray, 2.0), &t).unwrap().variance);
    assert!(v1 <= v0);
    assert!(v2 <= v1);
}

#[test]
fn repeated_classification_is_identical() {
    let img = LumaImage::new(3, 3, vec![1, 9, 4, 200, 17, 3, 90, 90, 0]).unwrap();
    let t = Threshold::new(1234, 7).unwrap();
    let a = classify_smoothed(&img, &t);
    let b = classify_smoothed(&img.clone(), &t);
    assert_eq!(a, b);
}
