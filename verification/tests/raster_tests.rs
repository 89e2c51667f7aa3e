use logo_embedder::geometry::compute;
use logo_embedder::geometry::Corner;
use logo_embedder::geometry::LogoGeometry;
use logo_embedder::raster::prepare;
use logo_embedder::raster::Prepared;
use logo_embedder::raster::PreprocessError;
use logo_embedder::raster::Raster;
use logo_embedder::raster::MAX_DIMENSION;

fn uniform(width: u32, height: u32, pixel: [u8; 4]) -> Raster {
    let mut pixels: Vec<u8> = Vec::new();
    for _ in 0..(width as usize * height as usize) {
        pixels.extend_from_slice(&pixel);
    }
    Raster::new(width, height, pixels).unwrap()
}

fn geometry(width: u32, height: u32) -> LogoGeometry {
    LogoGeometry { scaled_width: width, scaled_height: height, x_offset: 20, y_offset: 20 }
}

#[test]
fn raster_needs_four_bytes_per_pixel() {
    assert!(Raster::new(2, 3, vec![0u8; 24]).is_some());
    assert!(Raster::new(2, 3, vec![0u8; 23]).is_none());
    assert!(Raster::new(2, 3, vec![0u8; 25]).is_none());
    assert!(Raster::new(2, 3, vec![0u8; 6]).is_none());
    assert!(Raster::new(0, 3, vec![]).is_none());
    assert!(Raster::new(3, 0, vec![]).is_none());
    assert!(Raster::new(0, 0, vec![]).is_none());
}

#[test]
fn raster_keeps_what_it_was_made_of() {
    let bytes: Vec<u8> = (0..24).collect();
    let r = Raster::new(3, 2, bytes.clone()).unwrap();
    assert_eq!(r.width(), 3);
    assert_eq!(r.height(), 2);
    assert_eq!(r.pixels(), &bytes);
}

#[test]
fn resizing_100_by_50_to_width_40() {
    let source = uniform(100, 50, [10, 20, 30, 255]);
    let g = compute(Corner::BottomRight, Some(40), source.width(), source.height()).unwrap();
    match prepare(&source, &g).unwrap() {
        Prepared::Scaled(scaled) => {
            assert_eq!(scaled.width(), 40);
            assert_eq!(scaled.height(), 20);
            assert_eq!(scaled.pixels().len(), 40 * 20 * 4);
        }
        Prepared::Unchanged => panic!("the logo was not scaled"),
    }
}

#[test]
fn scaling_keeps_a_uniform_colour() {
    let source = uniform(8, 8, [200, 100, 50, 255]);
    match prepare(&source, &geometry(4, 6)).unwrap() {
        Prepared::Scaled(scaled) => {
            assert_eq!(scaled.pixels().len(), 4 * 6 * 4);
            for pixel in scaled.pixels().chunks(4) {
                assert_eq!(pixel, &[200u8, 100, 50, 255]);
            }
        }
        Prepared::Unchanged => panic!("the logo was not scaled"),
    }
}

#[test]
fn scaling_up_separates_two_halves() {
    // left column black, right column white
    let pixels: Vec<u8> = vec![0, 0, 0, 255, 255, 255, 255, 255];
    let source = Raster::new(2, 1, pixels).unwrap();
    match prepare(&source, &geometry(8, 4)).unwrap() {
        Prepared::Scaled(scaled) => {
            assert_eq!(scaled.width(), 8);
            assert_eq!(scaled.height(), 4);
            let p = scaled.pixels();
            assert_eq!(p.len(), 8 * 4 * 4);
            for row in 0..4usize {
                let first = &p[row * 32..row * 32 + 4];
                let last = &p[row * 32 + 28..row * 32 + 32];
                assert!(first[0] < 64);
                assert!(last[0] > 192);
                assert_eq!(first[3], 255);
                assert_eq!(last[3], 255);
            }
        }
        Prepared::Unchanged => panic!("the logo was not scaled"),
    }
}

#[test]
fn scaling_is_repeatable() {
    let bytes: Vec<u8> = (0..(5 * 7 * 4)).map(|i| (i * 37 % 251) as u8).collect();
    let source = Raster::new(5, 7, bytes).unwrap();
    let first = match prepare(&source, &geometry(3, 4)).unwrap() {
        Prepared::Scaled(r) => r.pixels().clone(),
        Prepared::Unchanged => panic!("the logo was not scaled"),
    };
    let second = match prepare(&source, &geometry(3, 4)).unwrap() {
        Prepared::Scaled(r) => r.pixels().clone(),
        Prepared::Unchanged => panic!("the logo was not scaled"),
    };
    assert_eq!(first, second);
    assert_eq!(first.len(), 3 * 4 * 4);
}

#[test]
fn logo_of_the_right_size_is_used_as_it_is() {
    let source = uniform(16, 9, [1, 2, 3, 4]);
    assert!(matches!(prepare(&source, &geometry(16, 9)), Ok(Prepared::Unchanged)));
    let g = compute(Corner::TopLeft, None, 16, 9).unwrap();
    assert!(matches!(prepare(&source, &g), Ok(Prepared::Unchanged)));
    let g = compute(Corner::TopLeft, Some(16), 16, 9).unwrap();
    assert!(matches!(prepare(&source, &g), Ok(Prepared::Unchanged)));
}

#[test]
fn sizes_beyond_the_limit_are_refused() {
    assert_eq!(MAX_DIMENSION, 65535);
    let source = uniform(2, 2, [9, 9, 9, 9]);
    assert!(matches!(prepare(&source, &geometry(65536, 1)), Err(PreprocessError::Resize)));
    assert!(matches!(prepare(&source, &geometry(1, 65536)), Err(PreprocessError::Resize)));
    assert!(matches!(prepare(&source, &geometry(0, 1)), Err(PreprocessError::Resize)));
    assert!(matches!(prepare(&source, &geometry(1, 0)), Err(PreprocessError::Resize)));
    assert!(matches!(
        prepare(&source, &geometry(u32::MAX, u32::MAX)),
        Err(PreprocessError::Resize)
    ));
}

#[test]
fn largest_width_is_scaled() {
    let source = uniform(2, 1, [7, 7, 7, 255]);
    match prepare(&source, &geometry(65535, 1)).unwrap() {
        Prepared::Scaled(scaled) => {
            assert_eq!(scaled.width(), 65535);
            assert_eq!(scaled.height(), 1);
            assert_eq!(scaled.pixels().len(), 65535 * 4);
        }
        Prepared::Unchanged => panic!("the logo was not scaled"),
    }
}
