use rdp_session::event::InclusiveRectangle;
use rdp_session::image::{extract_partial_image, BYTES_PER_PIXEL};

fn image(width: u16, height: u16) -> Vec<u8> {
    let mut data = Vec::new();
    for y in 0..height {
        for x in 0..width {
            data.extend_from_slice(&[x as u8, y as u8, (x + y) as u8, 255]);
        }
    }
    data
}

#[test]
fn region_is_copied_row_by_row() {
    let data = image(4, 3);
    let region = InclusiveRectangle { left: 1, top: 1, right: 2, bottom: 2 };
    assert_eq!(
        extract_partial_image(&data, 4, 3, region),
        Some(vec![1, 1, 2, 255, 2, 1, 3, 255, 1, 2, 3, 255, 2, 2, 4, 255])
    );
}

#[test]
fn single_pixel_region() {
    let data = image(4, 3);
    let region = InclusiveRectangle { left: 3, top: 2, right: 3, bottom: 2 };
    assert_eq!(extract_partial_image(&data, 4, 3, region), Some(vec![3, 2, 5, 255]));
    let region = InclusiveRectangle { left: 0, top: 0, right: 0, bottom: 0 };
    assert_eq!(extract_partial_image(&data, 4, 3, region), Some(vec![0, 0, 0, 255]));
}

#[test]
fn whole_image_region_is_the_image() {
    let data = image(5, 7);
    let region = InclusiveRectangle { left: 0, top: 0, right: 4, bottom: 6 };
    assert_eq!(extract_partial_image(&data, 5, 7, region), Some(data.clone()));
    assert_eq!(data.len(), 5 * 7 * BYTES_PER_PIXEL);
}

#[test]
fn every_region_matches_a_pixel_by_pixel_copy() {
    let (width, height) = (6u16, 5u16);
    let data = image(width, height);
    for left in 0..width {
        for right in left..width {
            for top in 0..height {
                for bottom in top..height {
                    let region = InclusiveRectangle { left, top, right, bottom };
                    let mut expected = Vec::new();
                    for y in top..=bottom {
                        for x in left..=right {
                            expected.extend_from_slice(&[x as u8, y as u8, (x + y) as u8, 255]);
                        }
                    }
                    assert_eq!(extract_partial_image(&data, width, height, region), Some(expected));
                }
            }
        }
    }
}

#[test]
fn region_outside_of_the_image_is_refused() {
    let data = image(4, 3);
    for region in [
        InclusiveRectangle { left: 0, top: 0, right: 4, bottom: 2 },
        InclusiveRectangle { left: 0, top: 0, right: 3, bottom: 3 },
        InclusiveRectangle { left: 4, top: 0, right: 4, bottom: 0 },
        InclusiveRectangle { left: 0, top: 3, right: 0, bottom: 3 },
        InclusiveRectangle { left: 0, top: 0, right: 65535, bottom: 65535 },
    ] {
        assert_eq!(extract_partial_image(&data, 4, 3, region), None);
    }
}

#[test]
fn inverted_region_is_refused() {
    let data = image(4, 3);
    let region = InclusiveRectangle { left: 2, top: 0, right: 1, bottom: 0 };
    assert_eq!(extract_partial_image(&data, 4, 3, region), None);
    let region = InclusiveRectangle { left: 0, top: 2, right: 0, bottom: 1 };
    assert_eq!(extract_partial_image(&data, 4, 3, region), None);
}

#[test]
fn buffer_that_does_not_match_the_dimensions_is_refused() {
    let region = InclusiveRectangle { left: 0, top: 0, right: 0, bottom: 0 };
    let mut data = image(4, 3);
    data.pop();
    assert_eq!(extract_partial_image(&data, 4, 3, region), None);
    data.extend_from_slice(&[0, 0]);
    assert_eq!(extract_partial_image(&data, 4, 3, region), None);
    assert_eq!(extract_partial_image(&[], 0, 0, region), None);
    assert_eq!(extract_partial_image(&[], 0, 7, region), None);
    assert_eq!(extract_partial_image(&image(4, 3), 3, 4, region), Some(vec![0, 0, 0, 255]));
}
