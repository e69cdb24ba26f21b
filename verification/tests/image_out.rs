use kms_capture::assemble::to_rgba_image;
use kms_capture::capture::CanonicalImage;
use kms_capture::error::CaptureError;

#[test]
fn canonical_image_checks_its_byte_count() {
    let ok = CanonicalImage::new(2, 1, vec![0u8; 8]);
    assert!(ok.is_ok());
    let err = CanonicalImage::new(2, 1, vec![0u8; 7]);
    assert_eq!(err.err(), Some(CaptureError::ImageAssemblyFailure));
}

#[test]
fn outside_image_carries_bytes_and_dimensions() {
    let data = vec![1u8, 2, 3, 4, 5, 6, 7, 8];
    let img = CanonicalImage::new(2, 1, data.clone()).unwrap();
    let out = to_rgba_image(img).unwrap();
    // The wrapped outside value reports the geometry and bytes it was
    // built from, so the trusted call really constructed an image.
    assert_eq!(out.inner.dimensions(), (2, 1));
    assert_eq!(out.inner.as_raw().as_slice(), data.as_slice());
    assert_eq!(out.inner.get_pixel(1, 0).0, [5, 6, 7, 8]);
}
