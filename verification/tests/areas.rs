use linux_screenshot::area::{clip_area_to_image, AreaError, OutsideImage, ScreenshotArea};

fn area(x: i32, y: i32, width: u32, height: u32) -> ScreenshotArea {
    ScreenshotArea { x, y, width, height }
}

fn covers(area: ScreenshotArea, px: i64, py: i64) -> bool {
    let (x, y) = (area.x as i64, area.y as i64);
    x <= px && px < x + area.width as i64 && y <= py && py < y + area.height as i64
}

#[test]
fn areas_up_to_the_signed_range_are_valid() {
    let most = i32::MAX as u32;
    assert_eq!(area(i32::MIN, i32::MAX, 1, 1).validate(), Ok(()));
    assert_eq!(area(0, 0, most, most).validate(), Ok(()));
    assert_eq!(area(0, 0, most, most).width_i32(), Ok(i32::MAX));
    assert_eq!(area(0, 0, 7, 9).width_i32(), Ok(7));
    assert_eq!(area(0, 0, 7, 9).height_i32(), Ok(9));
}

#[test]
fn empty_areas_are_refused_with_their_size() {
    let error = area(3, 4, 12, 0).validate().unwrap_err();
    assert_eq!(error, AreaError::NotPositive { width: 12, height: 0 });
    assert_eq!(
        error.message(),
        "screenshot area must have positive width and height, got 12x0"
    );
    assert_eq!(error.cause(), None);
    assert_eq!(
        area(0, 0, 0, u32::MAX).validate(),
        Err(AreaError::NotPositive { width: 0, height: u32::MAX })
    );
}

#[test]
fn oversized_areas_are_refused_width_first() {
    let over = i32::MAX as u32 + 1;
    let conversion = i32::try_from(over).unwrap_err().to_string();

    let error = area(0, 0, over, over).validate().unwrap_err();
    assert_eq!(error, AreaError::WidthOutOfRange);
    assert_eq!(error.message(), "screenshot area width exceeds GNOME Shell integer range");
    assert_eq!(error.cause(), Some(conversion.clone()));

    let error = area(0, 0, 1, over).validate().unwrap_err();
    assert_eq!(error, AreaError::HeightOutOfRange);
    assert_eq!(error.message(), "screenshot area height exceeds GNOME Shell integer range");
    assert_eq!(error.cause(), Some(conversion));

    assert_eq!(area(0, 0, over, 1).width_i32(), Err(AreaError::WidthOutOfRange));
    assert_eq!(area(0, 0, 1, over).height_i32(), Err(AreaError::HeightOutOfRange));
}

#[test]
fn clipping_cuts_at_every_edge() {
    assert_eq!(clip_area_to_image(area(-3, -2, 5, 6), 100, 100), Ok(area(0, 0, 2, 4)));
    assert_eq!(clip_area_to_image(area(95, 90, 10, 20), 100, 100), Ok(area(95, 90, 5, 10)));
    assert_eq!(clip_area_to_image(area(-3, -3, 200, 200), 100, 50), Ok(area(0, 0, 100, 50)));
    assert_eq!(clip_area_to_image(area(7, 8, 9, 10), 100, 100), Ok(area(7, 8, 9, 10)));
}

#[test]
fn clipping_holds_at_the_ends_of_the_integer_ranges() {
    assert_eq!(
        clip_area_to_image(area(i32::MIN, i32::MIN, u32::MAX, u32::MAX), u32::MAX, u32::MAX),
        Ok(area(0, 0, i32::MAX as u32, i32::MAX as u32))
    );
    assert_eq!(
        clip_area_to_image(area(i32::MAX, 0, u32::MAX, 1), u32::MAX, 1),
        Ok(area(i32::MAX, 0, u32::MAX - i32::MAX as u32, 1))
    );
    assert_eq!(
        clip_area_to_image(area(0, 0, u32::MAX, u32::MAX), u32::MAX, u32::MAX),
        Ok(area(0, 0, u32::MAX, u32::MAX))
    );
}

#[test]
fn areas_that_only_touch_the_image_are_outside() {
    let outside = area(-5, 7, 5, 3);
    let error = clip_area_to_image(outside, 10, 20).unwrap_err();
    assert_eq!(error, OutsideImage { area: outside, image_width: 10, image_height: 20 });
    assert_eq!(
        error.message(),
        "screenshot area x=-5, y=7, width=5, height=3 is outside full screenshot 10x20"
    );
    assert!(clip_area_to_image(area(10, 0, 1, 1), 10, 20).is_err());
    assert!(clip_area_to_image(area(0, 20, 1, 1), 10, 20).is_err());
    assert!(clip_area_to_image(area(0, -1, 1, 1), 10, 20).is_err());
    assert!(clip_area_to_image(area(0, 0, 0, 1), 10, 20).is_err());
    assert!(clip_area_to_image(area(0, 0, 1, 1), 0, 0).is_err());
}

#[test]
fn clipping_keeps_the_shared_pixels_and_no_others() {
    let (image_width, image_height) = (4, 3);
    for x in -3..6 {
        for y in -3..5 {
            for (width, height) in [(0, 2), (1, 1), (2, 3), (9, 9)] {
                let wanted = area(x, y, width, height);
                let clipped = clip_area_to_image(wanted, image_width, image_height);
                let mut shared = false;
                for px in -4i64..12 {
                    for py in -4i64..12 {
                        let inside = 0 <= px
                            && px < image_width as i64
                            && 0 <= py
                            && py < image_height as i64;
                        let expected = inside && covers(wanted, px, py);
                        shared = shared || expected;
                        if let Ok(clipped) = clipped {
                            assert_eq!(covers(clipped, px, py), expected);
                        }
                    }
                }
                assert_eq!(clipped.is_ok(), shared);
                if let Ok(clipped) = clipped {
                    assert_eq!(clipped.validate(), Ok(()));
                    assert_eq!(clip_area_to_image(clipped, image_width, image_height), Ok(clipped));
                }
            }
        }
    }
}
