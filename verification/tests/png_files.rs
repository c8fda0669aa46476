use base64::engine::general_purpose::STANDARD;
use base64::Engine;
use linux_screenshot::area::{OutsideImage, ScreenshotArea};
use linux_screenshot::capture::{
    capture_png, crop_capture, crop_capture_if_it_fits, png_bytes_from_data_url, ScreenshotCapture,
};
use linux_screenshot::crop::{
    channels_for_color_type, crop_image, crop_png_bytes, decode_png, png_canvas_fits, CropError,
};
use linux_screenshot::image::{crop_pixels, BitDepth, ColorType, DecodedImage};
use linux_screenshot::png_header::{png_dimensions, PngHeaderError};

fn area(x: i32, y: i32, width: u32, height: u32) -> ScreenshotArea {
    ScreenshotArea { x, y, width, height }
}

fn header(width: u32, height: u32) -> Vec<u8> {
    let mut png = b"\x89PNG\r\n\x1a\n".to_vec();
    png.extend_from_slice(&13_u32.to_be_bytes());
    png.extend_from_slice(b"IHDR");
    png.extend_from_slice(&width.to_be_bytes());
    png.extend_from_slice(&height.to_be_bytes());
    png.extend_from_slice(&[8, 6, 0, 0, 0]);
    png
}

fn png_file(
    width: u32,
    height: u32,
    color: png::ColorType,
    depth: png::BitDepth,
    data: &[u8],
    palette: Option<(Vec<u8>, Vec<u8>)>,
) -> Vec<u8> {
    let mut file = Vec::new();
    let mut encoder = png::Encoder::new(&mut file, width, height);
    encoder.set_color(color);
    encoder.set_depth(depth);
    if let Some((palette, transparency)) = palette {
        encoder.set_palette(palette);
        if !transparency.is_empty() {
            encoder.set_trns(transparency);
        }
    }
    let mut writer = encoder.write_header().unwrap();
    writer.write_image_data(data).unwrap();
    drop(writer);
    file
}

fn decoded(file: &[u8]) -> (u32, u32, png::ColorType, png::BitDepth, Vec<u8>) {
    let mut reader = png::Decoder::new(std::io::Cursor::new(file)).read_info().unwrap();
    let mut pixels = vec![0; reader.output_buffer_size()];
    let info = reader.next_frame(&mut pixels).unwrap();
    pixels.truncate(info.buffer_size());
    (info.width, info.height, info.color_type, info.bit_depth, pixels)
}

fn numbered(count: u8) -> Vec<u8> {
    (0..count).collect()
}

fn crc32(bytes: &[u8]) -> u32 {
    let mut crc = u32::MAX;
    for byte in bytes {
        crc ^= *byte as u32;
        for _ in 0..8 {
            crc = if crc & 1 == 1 { (crc >> 1) ^ 0xedb8_8320 } else { crc >> 1 };
        }
    }
    !crc
}

fn chunk(kind: &[u8], data: &[u8]) -> Vec<u8> {
    let mut body = kind.to_vec();
    body.extend_from_slice(data);
    let mut chunk = (data.len() as u32).to_be_bytes().to_vec();
    chunk.extend_from_slice(&body);
    chunk.extend_from_slice(&crc32(&body).to_be_bytes());
    chunk
}

/// An animation with a canvas of that size, whose first frame is one pixel.
fn animation(width: u32, height: u32) -> Vec<u8> {
    let mut size = Vec::new();
    size.extend_from_slice(&width.to_be_bytes());
    size.extend_from_slice(&height.to_be_bytes());
    size.extend_from_slice(&[8, 6, 0, 0, 0]);
    let mut frame = 0_u32.to_be_bytes().to_vec();
    for number in [1_u32, 1, 0, 0] {
        frame.extend_from_slice(&number.to_be_bytes());
    }
    frame.extend_from_slice(&[0, 1, 0, 1, 0, 0]);
    let mut file = b"\x89PNG\r\n\x1a\n".to_vec();
    file.extend(chunk(b"IHDR", &size));
    file.extend(chunk(b"acTL", &[0, 0, 0, 1, 0, 0, 0, 0]));
    file.extend(chunk(b"fcTL", &frame));
    // A stored block with the filter byte and one pixel, and its Adler checksum.
    let pixel = [0, 9, 8, 7, 6];
    let (mut low, mut high) = (1_u32, 0_u32);
    for byte in pixel {
        low += byte as u32;
        high += low;
    }
    let mut data = vec![0x78, 0x01, 0x01, 5, 0, 0xfa, 0xff];
    data.extend_from_slice(&pixel);
    data.extend_from_slice(&(high << 16 | low).to_be_bytes());
    file.extend(chunk(b"IDAT", &data));
    file.extend(chunk(b"IEND", &[]));
    file
}

fn capture_with(data_url: String) -> ScreenshotCapture {
    ScreenshotCapture {
        mime_type: "image/png".to_string(),
        data_url,
        source: "gnome-shell".to_string(),
        width: 1,
        height: 1,
        region: None,
    }
}

#[test]
fn dimensions_need_signature_and_header_chunk() {
    let good = header(0x0102_0304, 0x0506_0708);
    assert_eq!(png_dimensions(&good), Ok((0x0102_0304, 0x0506_0708)));
    assert_eq!(png_dimensions(&good[..24]), Ok((0x0102_0304, 0x0506_0708)));
    assert_eq!(png_dimensions(&good[..23]), Err(PngHeaderError::NotPng));
    assert_eq!(png_dimensions(&[]), Err(PngHeaderError::NotPng));
    for position in (0..8).chain(12..16) {
        let mut bad = good.clone();
        bad[position] ^= 0x20;
        assert_eq!(png_dimensions(&bad), Err(PngHeaderError::NotPng));
    }
    for position in 8..12 {
        let mut odd_length = good.clone();
        odd_length[position] ^= 0x20;
        assert_eq!(png_dimensions(&odd_length), Ok((0x0102_0304, 0x0506_0708)));
    }
    assert_eq!(PngHeaderError::NotPng.message(), "screenshot file was not a valid PNG");
}

#[test]
fn dimensions_of_zero_are_refused() {
    let error = png_dimensions(&header(0, 5)).unwrap_err();
    assert_eq!(error, PngHeaderError::InvalidDimensions { width: 0, height: 5 });
    assert_eq!(error.message(), "screenshot PNG had invalid dimensions 0x5");
    assert_eq!(
        png_dimensions(&header(5, 0)),
        Err(PngHeaderError::InvalidDimensions { width: 5, height: 0 })
    );
}

#[test]
fn dimensions_do_not_depend_on_what_follows() {
    let mut file = header(640, 480);
    let alone = png_dimensions(&file);
    file.extend_from_slice(b"anything at all");
    assert_eq!(png_dimensions(&file), alone);
}

#[test]
fn captures_hold_the_whole_file() {
    let capture = capture_png(&header(1, 1), "gnome-shell", Some(area(7, 9, 1, 1))).unwrap();
    assert_eq!(capture.mime_type, "image/png");
    assert_eq!(
        capture.data_url,
        "data:image/png;base64,iVBORw0KGgoAAAANSUhEUgAAAAEAAAABCAYAAAA="
    );
    assert_eq!(capture.source, "gnome-shell");
    assert_eq!((capture.width, capture.height), (1, 1));
    assert_eq!(capture.region, Some(area(7, 9, 1, 1)));
    assert_eq!(png_bytes_from_data_url(&capture.data_url).unwrap(), header(1, 1));
}

#[test]
fn captures_of_other_files_are_refused() {
    assert_eq!(capture_png(b"GIF89a", "s", None).unwrap_err(), PngHeaderError::NotPng);
    assert_eq!(
        capture_png(&header(3, 0), "s", None).unwrap_err(),
        PngHeaderError::InvalidDimensions { width: 3, height: 0 }
    );
}

#[test]
fn data_urls_give_back_every_kind_of_byte() {
    for len in [0, 1, 2, 3, 256] {
        let bytes: Vec<u8> = (0..len).map(|i| (i * 7) as u8).collect();
        let url = format!("data:image/png;base64,{}", STANDARD.encode(&bytes));
        assert_eq!(png_bytes_from_data_url(&url).unwrap(), bytes);
    }
}

#[test]
fn data_urls_hold_the_standard_alphabet() {
    for (payload, bytes) in [
        ("", b"".as_slice()),
        ("TQ==", b"M"),
        ("TWE=", b"Ma"),
        ("TWFu", b"Man"),
        ("+/+/AZaz", &[0xfb, 0xff, 0xbf, 0x01, 0x96, 0xb3]),
        ("0987", &[0xd3, 0xdf, 0x3b]),
    ] {
        let url = format!("data:image/png;base64,{payload}");
        assert_eq!(png_bytes_from_data_url(&url).unwrap(), bytes);
    }
}

#[test]
fn data_urls_of_other_types_are_refused() {
    for url in ["data:image/jpeg;base64,AA==", "image/png;base64,AA==", "data:image/png;base64", ""] {
        let error = png_bytes_from_data_url(url).unwrap_err();
        assert!(matches!(error, CropError::NotPngDataUrl));
        assert_eq!(error.message(), "screenshot data URL was not an image/png base64 payload");
    }
}

#[test]
fn data_urls_with_broken_payloads_are_refused() {
    for payload in ["A", "AA", "AA=", "AB==", "A*==", "AA==\n", "-_==", "AA==AA=="] {
        let error = png_bytes_from_data_url(&format!("data:image/png;base64,{payload}")).unwrap_err();
        assert!(matches!(error, CropError::Payload(_)));
        assert_eq!(error.message(), "failed to decode screenshot data URL");
    }
}

#[test]
fn pixels_of_a_rectangle_are_copied_row_by_row() {
    assert_eq!(crop_pixels(&numbered(12), 4, 3, 1, area(1, 1, 2, 2)), [5, 6, 9, 10]);
    assert_eq!(
        crop_pixels(&numbered(36), 4, 3, 3, area(2, 0, 2, 2)),
        [6, 7, 8, 9, 10, 11, 18, 19, 20, 21, 22, 23]
    );
    assert_eq!(crop_pixels(&numbered(48), 4, 3, 4, area(3, 2, 1, 1)), [44, 45, 46, 47]);
}

#[test]
fn crops_show_each_pixel_at_its_place() {
    let (width, height, channels) = (5, 4, 2);
    let pixels = numbered(40);
    let kept = area(1, 1, 3, 2);
    let cropped = crop_pixels(&pixels, width, height, channels, kept);
    for row in 0..2usize {
        for column in 0..3usize {
            for sample in 0..channels {
                assert_eq!(
                    cropped[(row * 3 + column) * channels + sample],
                    pixels[((1 + row) * 5 + 1 + column) * channels + sample]
                );
            }
        }
    }
}

#[test]
fn cropping_to_the_whole_image_keeps_it() {
    assert_eq!(crop_pixels(&numbered(24), 4, 3, 2, area(0, 0, 4, 3)), numbered(24));
}

#[test]
fn cropping_twice_equals_cropping_once() {
    let pixels = numbered(90);
    let outer = crop_pixels(&pixels, 6, 5, 3, area(1, 1, 4, 3));
    let twice = crop_pixels(&outer, 4, 3, 3, area(2, 1, 2, 2));
    assert_eq!(twice, crop_pixels(&pixels, 6, 5, 3, area(3, 2, 2, 2)));
}

#[test]
fn codes_of_color_types_and_depths_are_those_of_the_header() {
    for (code, color_type) in [
        (0, ColorType::Grayscale),
        (2, ColorType::Rgb),
        (3, ColorType::Indexed),
        (4, ColorType::GrayscaleAlpha),
        (6, ColorType::Rgba),
    ] {
        assert_eq!(ColorType::from_code(code), Some(color_type));
        assert_eq!(color_type.to_code(), code);
    }
    for code in [1, 5, 7, 255] {
        assert_eq!(ColorType::from_code(code), None);
    }
    for (bits, depth, name) in [
        (1, BitDepth::One, "One"),
        (2, BitDepth::Two, "Two"),
        (4, BitDepth::Four, "Four"),
        (8, BitDepth::Eight, "Eight"),
        (16, BitDepth::Sixteen, "Sixteen"),
    ] {
        assert_eq!(BitDepth::from_bits(bits), Some(depth));
        assert_eq!(depth.name(), name);
        assert_eq!(name, format!("{:?}", png::BitDepth::from_u8(bits).unwrap()));
    }
    assert_eq!(BitDepth::from_bits(3), None);
}

#[test]
fn channels_count_the_samples_of_a_pixel() {
    assert_eq!(channels_for_color_type(ColorType::Grayscale).unwrap(), 1);
    assert_eq!(channels_for_color_type(ColorType::GrayscaleAlpha).unwrap(), 2);
    assert_eq!(channels_for_color_type(ColorType::Rgb).unwrap(), 3);
    assert_eq!(channels_for_color_type(ColorType::Rgba).unwrap(), 4);
    let error = channels_for_color_type(ColorType::Indexed).unwrap_err();
    assert!(matches!(error, CropError::IndexedColor));
    assert_eq!(error.message(), "indexed screenshot PNG did not expand to RGB");
}

#[test]
fn images_of_other_depths_and_palettes_are_refused() {
    let mut image = DecodedImage {
        width: 2,
        height: 1,
        color_type: ColorType::Indexed,
        bit_depth: BitDepth::Sixteen,
        pixels: vec![0, 1],
    };
    let error = crop_image(&image, area(0, 0, 1, 1)).unwrap_err();
    assert!(matches!(error, CropError::Depth(BitDepth::Sixteen)));
    assert_eq!(
        error.message(),
        "unsupported screenshot PNG bit depth after decoding: Sixteen"
    );
    image.bit_depth = BitDepth::Eight;
    assert!(matches!(crop_image(&image, area(0, 0, 1, 1)), Err(CropError::IndexedColor)));
    image.color_type = ColorType::Grayscale;
    assert_eq!(
        crop_image(&image, area(1, -4, 9, 9)).unwrap(),
        (vec![1], area(1, 0, 1, 1))
    );
}

#[test]
fn rgba_files_keep_their_samples() {
    let file = png_file(4, 3, png::ColorType::Rgba, png::BitDepth::Eight, &numbered(48), None);
    let (cropped, clipped) = crop_png_bytes(&file, area(2, -1, 9, 3)).unwrap();
    assert_eq!(clipped, area(2, 0, 2, 2));
    assert_eq!(
        decoded(&cropped),
        (
            2,
            2,
            png::ColorType::Rgba,
            png::BitDepth::Eight,
            vec![8, 9, 10, 11, 12, 13, 14, 15, 24, 25, 26, 27, 28, 29, 30, 31]
        )
    );
}

#[test]
fn rgb_and_gray_files_keep_their_color_type() {
    let file = png_file(2, 2, png::ColorType::Rgb, png::BitDepth::Eight, &numbered(12), None);
    let (cropped, _) = crop_png_bytes(&file, area(1, 1, 1, 1)).unwrap();
    assert_eq!(
        decoded(&cropped),
        (1, 1, png::ColorType::Rgb, png::BitDepth::Eight, vec![9, 10, 11])
    );

    let file =
        png_file(2, 2, png::ColorType::GrayscaleAlpha, png::BitDepth::Eight, &numbered(8), None);
    let (cropped, _) = crop_png_bytes(&file, area(0, 1, 2, 1)).unwrap();
    assert_eq!(
        decoded(&cropped),
        (2, 1, png::ColorType::GrayscaleAlpha, png::BitDepth::Eight, vec![4, 5, 6, 7])
    );

    let file = png_file(3, 1, png::ColorType::Grayscale, png::BitDepth::Eight, &[7, 8, 9], None);
    let (cropped, _) = crop_png_bytes(&file, area(1, 0, 2, 1)).unwrap();
    assert_eq!(
        decoded(&cropped),
        (2, 1, png::ColorType::Grayscale, png::BitDepth::Eight, vec![8, 9])
    );
}

#[test]
fn low_and_high_depths_become_eight_bits() {
    let file = png_file(8, 1, png::ColorType::Grayscale, png::BitDepth::One, &[0b0110_0001], None);
    let (cropped, _) = crop_png_bytes(&file, area(1, 0, 3, 1)).unwrap();
    assert_eq!(
        decoded(&cropped),
        (3, 1, png::ColorType::Grayscale, png::BitDepth::Eight, vec![255, 255, 0])
    );

    let file =
        png_file(2, 1, png::ColorType::Grayscale, png::BitDepth::Sixteen, &[1, 2, 3, 4], None);
    let (cropped, _) = crop_png_bytes(&file, area(1, 0, 1, 1)).unwrap();
    assert_eq!(
        decoded(&cropped),
        (1, 1, png::ColorType::Grayscale, png::BitDepth::Eight, vec![3])
    );
}

#[test]
fn palettes_are_expanded() {
    let colors = vec![10, 11, 12, 20, 21, 22];
    let file = png_file(
        2,
        1,
        png::ColorType::Indexed,
        png::BitDepth::Eight,
        &[1, 0],
        Some((colors.clone(), vec![])),
    );
    let (cropped, _) = crop_png_bytes(&file, area(0, 0, 1, 1)).unwrap();
    assert_eq!(
        decoded(&cropped),
        (1, 1, png::ColorType::Rgb, png::BitDepth::Eight, vec![20, 21, 22])
    );

    let file = png_file(
        2,
        1,
        png::ColorType::Indexed,
        png::BitDepth::Eight,
        &[1, 0],
        Some((colors, vec![33, 44])),
    );
    let (cropped, _) = crop_png_bytes(&file, area(0, 0, 2, 1)).unwrap();
    assert_eq!(
        decoded(&cropped),
        (2, 1, png::ColorType::Rgba, png::BitDepth::Eight, vec![20, 21, 22, 44, 10, 11, 12, 33])
    );
}

#[test]
fn decoded_images_have_the_size_of_their_frame() {
    let file = png_file(3, 2, png::ColorType::Rgb, png::BitDepth::Eight, &numbered(18), None);
    let image = decode_png(&file).unwrap();
    assert_eq!((image.width, image.height), (3, 2));
    assert_eq!(image.color_type, ColorType::Rgb);
    assert_eq!(image.bit_depth, BitDepth::Eight);
    assert_eq!(image.pixels, numbered(18));
}

#[test]
fn invalid_areas_are_refused_before_the_file_is_read() {
    let error = crop_png_bytes(b"no png", area(0, 0, 0, 4)).unwrap_err();
    assert!(matches!(error, CropError::Area(_)));
    assert_eq!(
        error.message(),
        "screenshot area must have positive width and height, got 0x4"
    );
}

#[test]
fn files_without_header_are_refused() {
    for file in [b"no png".to_vec(), header(2, 2), vec![]] {
        let error = crop_png_bytes(&file, area(0, 0, 1, 1)).unwrap_err();
        assert!(matches!(error, CropError::DecodeHeader(_)));
        assert_eq!(error.message(), "failed to decode screenshot PNG header");
    }
}

#[test]
fn files_with_broken_pixels_are_refused() {
    let mut file = header(1, 1)[..8].to_vec();
    file.extend(chunk(b"IHDR", &[0, 0, 0, 1, 0, 0, 0, 1, 8, 6, 0, 0, 0]));
    file.extend(chunk(b"IDAT", &[1, 2, 3, 4]));
    file.extend(chunk(b"IEND", &[]));
    let error = crop_png_bytes(&file, area(0, 0, 1, 1)).unwrap_err();
    assert!(matches!(error, CropError::DecodePixels(_)));
    assert_eq!(error.message(), "failed to decode screenshot PNG pixels");
}

#[test]
fn areas_outside_the_file_are_refused() {
    let file = png_file(4, 3, png::ColorType::Rgba, png::BitDepth::Eight, &numbered(48), None);
    let wanted = area(4, 0, 5, 5);
    let error = crop_png_bytes(&file, wanted).unwrap_err();
    assert!(matches!(
        error,
        CropError::Outside(OutsideImage { image_width: 4, image_height: 3, area }) if area == wanted
    ));
    assert_eq!(
        error.message(),
        "screenshot area x=4, y=0, width=5, height=5 is outside full screenshot 4x3"
    );
}

#[test]
fn errors_of_writing_have_words_too() {
    let failure = png::EncodingError::from(std::io::Error::from(std::io::ErrorKind::Other));
    assert_eq!(
        CropError::EncodePixels(failure).message(),
        "failed to encode cropped screenshot PNG pixels"
    );
    assert_eq!(
        CropError::Header(PngHeaderError::NotPng).message(),
        "screenshot file was not a valid PNG"
    );
}

#[test]
fn small_frames_on_a_larger_canvas_are_cropped_as_frames() {
    let file = animation(3, 3);
    assert!(png_canvas_fits(&file));
    let (cropped, clipped) = crop_png_bytes(&file, area(0, 0, 3, 3)).unwrap();
    assert_eq!(clipped, area(0, 0, 1, 1));
    assert_eq!(decoded(&cropped).4, vec![9, 8, 7, 6]);
}

#[test]
fn canvases_beyond_all_memory_are_told_apart() {
    let file = animation(0x7fff_ffff, 0x7fff_ffff);
    assert!(!png_canvas_fits(&file));
    assert!(png_canvas_fits(b"no png"));
    let url = format!("data:image/png;base64,{}", STANDARD.encode(&file));
    assert!(crop_capture_if_it_fits(capture_with(url.clone()), area(0, 0, 1, 1)).is_none());
    let refused = crop_capture_if_it_fits(capture_with(url), area(0, 0, 0, 1)).unwrap();
    assert!(matches!(refused, Err(CropError::Area(_))));
}

#[test]
fn malformed_palettes_are_told_apart() {
    let indexed = |palette: Vec<u8>| {
        png_file(
            1,
            1,
            png::ColorType::Indexed,
            png::BitDepth::Eight,
            &[0],
            Some((palette, vec![])),
        )
    };
    for palette in [vec![10], vec![10, 20], vec![10; 4], vec![10; 767], vec![10; 769], vec![10; 771]]
    {
        let file = indexed(palette);
        assert!(!png_canvas_fits(&file));
        let url = format!("data:image/png;base64,{}", STANDARD.encode(&file));
        assert!(crop_capture_if_it_fits(capture_with(url.clone()), area(0, 0, 1, 1)).is_none());
        let refused = crop_capture_if_it_fits(capture_with(url), area(0, 0, 0, 1)).unwrap();
        assert!(matches!(refused, Err(CropError::Area(_))));
    }
    for palette in [vec![10, 20, 30], vec![10; 768]] {
        let expected = palette[..3].to_vec();
        let file = indexed(palette);
        assert!(png_canvas_fits(&file));
        let (cropped, _) = crop_png_bytes(&file, area(0, 0, 1, 1)).unwrap();
        assert_eq!(decoded(&cropped).4, expected);
    }
}

/// An indexed image of one pixel with a palette of one byte.
fn malformed(before_palette: &[Vec<u8>], data: &[u8]) -> Vec<u8> {
    let mut file = header(1, 1)[..8].to_vec();
    file.extend(chunk(b"IHDR", &[0, 0, 0, 1, 0, 0, 0, 1, 8, 3, 0, 0, 0]));
    for other in before_palette {
        file.extend_from_slice(other);
    }
    file.extend(chunk(b"PLTE", &[10]));
    file.extend(chunk(b"IDAT", data));
    file.extend(chunk(b"IEND", &[]));
    file
}

#[test]
fn malformed_palettes_do_not_matter_before_the_first_row() {
    // A stored block with the filter byte and one pixel, which the decoder can read.
    let good = [0x78, 0x01, 0x01, 2, 0, 0xfd, 0xff, 0, 0, 0, 2, 0, 1];
    assert!(!png_canvas_fits(&malformed(&[], &good)));

    let mut frame = 0_u32.to_be_bytes().to_vec();
    for number in [1_u32, 1, 0, 0] {
        frame.extend_from_slice(&number.to_be_bytes());
    }
    frame.extend_from_slice(&[0, 1, 0, 1, 0, 0]);
    let no_frames = [chunk(b"acTL", &[0; 8]), chunk(b"fcTL", &frame)];
    for file in [
        malformed(&[], &[1, 2, 3, 4]),
        malformed(&[], &good[..7]),
        malformed(&no_frames, &good),
        malformed(&no_frames, &good[..7]),
    ] {
        assert!(png_canvas_fits(&file));
        let error = crop_png_bytes(&file, area(0, 0, 1, 1)).unwrap_err();
        assert!(matches!(error, CropError::DecodePixels(_)));
        let url = format!("data:image/png;base64,{}", STANDARD.encode(&file));
        let answer = crop_capture_if_it_fits(capture_with(url), area(0, 0, 1, 1)).unwrap();
        assert_eq!(answer.unwrap_err().message(), "failed to decode screenshot PNG pixels");
    }
}

#[test]
fn the_canvas_need_not_have_the_size_at_the_start_of_the_file() {
    let pixel = png_file(1, 1, png::ColorType::Rgb, png::BitDepth::Eight, &[7, 8, 9], None);
    let mut file = pixel[..8].to_vec();
    file.extend(chunk(b"IHDR", &[]));
    file.extend_from_slice(&pixel[8..]);
    assert_eq!(png_dimensions(&file), Ok((0xa8a1_ae0a, 13)));
    let image = decode_png(&file).unwrap();
    assert_eq!((image.width, image.height), (1, 1));
    let (cropped, clipped) = crop_png_bytes(&file, area(0, 0, 5, 5)).unwrap();
    assert_eq!(clipped, area(0, 0, 1, 1));
    assert_eq!(png_dimensions(&cropped), Ok((1, 1)));
    assert_eq!(decoded(&cropped).4, vec![7, 8, 9]);
}

#[test]
fn palettes_of_true_color_files_do_not_matter() {
    let mut file = header(1, 1)[..8].to_vec();
    file.extend(chunk(b"IHDR", &[0, 0, 0, 1, 0, 0, 0, 1, 8, 2, 0, 0, 0]));
    file.extend(chunk(b"PLTE", &[1, 2, 3, 4]));
    let pixel = png_file(1, 1, png::ColorType::Rgb, png::BitDepth::Eight, &[7, 8, 9], None);
    file.extend_from_slice(&pixel[33..]);
    assert!(png_canvas_fits(&file));
    let (cropped, _) = crop_png_bytes(&file, area(0, 0, 1, 1)).unwrap();
    assert_eq!(decoded(&cropped).4, vec![7, 8, 9]);
}

#[test]
fn interlaced_files_are_cropped_like_others() {
    let mut file = header(1, 1)[..8].to_vec();
    file.extend(chunk(b"IHDR", &[0, 0, 0, 1, 0, 0, 0, 1, 8, 2, 0, 0, 1]));
    let pixel = png_file(1, 1, png::ColorType::Rgb, png::BitDepth::Eight, &[7, 8, 9], None);
    file.extend_from_slice(&pixel[33..]);
    assert!(png_canvas_fits(&file));
    let (cropped, _) = crop_png_bytes(&file, area(0, 0, 1, 1)).unwrap();
    assert_eq!(decoded(&cropped).4, vec![7, 8, 9]);
}

#[test]
fn cropped_files_can_be_cropped_in_turn() {
    let file = png_file(4, 3, png::ColorType::Rgba, png::BitDepth::Eight, &numbered(48), None);
    let (cropped, _) = crop_png_bytes(&file, area(1, 1, 3, 2)).unwrap();
    assert!(png_canvas_fits(&cropped));
    let (again, clipped) = crop_png_bytes(&cropped, area(1, 1, 9, 9)).unwrap();
    assert_eq!(clipped, area(1, 1, 2, 1));
    assert_eq!(decoded(&again).4, vec![40, 41, 42, 43, 44, 45, 46, 47]);
}

#[test]
fn cropped_captures_hold_the_cropped_file() {
    let file = png_file(4, 3, png::ColorType::Rgba, png::BitDepth::Eight, &numbered(48), None);
    let capture = capture_png(&file, "gnome-shell", None).unwrap();
    let wanted = area(3, 1, 8, 8);
    let cropped = crop_capture_if_it_fits(capture.clone(), wanted).unwrap().unwrap();
    let (expected, clipped) = crop_png_bytes(&file, wanted).unwrap();
    assert_eq!(png_bytes_from_data_url(&cropped.data_url).unwrap(), expected);
    assert_eq!(cropped.mime_type, "image/png");
    assert_eq!(cropped.source, "gnome-shell-crop");
    assert_eq!((cropped.width, cropped.height), (1, 2));
    assert_eq!(cropped.region, Some(clipped));

    let again = crop_capture(cropped, area(0, 1, 1, 1)).unwrap();
    assert_eq!(again.source, "gnome-shell-crop-crop");
    let bytes = png_bytes_from_data_url(&again.data_url).unwrap();
    assert_eq!(decoded(&bytes).4, vec![44, 45, 46, 47]);
}

#[test]
fn captures_without_a_png_cannot_be_cropped() {
    let wanted = area(0, 0, 0, 1);
    let crop = |url: &str| crop_capture(capture_with(url.to_string()), wanted).unwrap_err();
    assert!(matches!(crop("data:image/gif;base64,"), CropError::NotPngDataUrl));
    assert!(matches!(crop("data:image/png;base64,?"), CropError::Payload(_)));
    assert!(matches!(crop("data:image/png;base64,"), CropError::Area(_)));
}
