//! Finished screenshots: a PNG file as a data URL, and what is known about it.
use crate::area::ScreenshotArea;
use crate::codec::{base64_decode, base64_encode};
use crate::crop::{crop_png_bytes, png_canvas_fits, CropError};
use crate::png_header::{png_dimensions, PngHeaderError};
use crate::text::strip_prefix;
use vstd::prelude::*;

verus! {

/// A screenshot as it is handed to the caller.
#[derive(Debug, Clone)]
pub struct ScreenshotCapture {
    pub mime_type: String,
    pub data_url: String,
    pub source: String,
    pub width: u32,
    pub height: u32,
    pub region: Option<ScreenshotArea>,
}

/// What a [`ScreenshotCapture`] holds.
pub struct CaptureView {
    pub mime_type: Seq<char>,
    pub data_url: Seq<char>,
    pub source: Seq<char>,
    pub width: u32,
    pub height: u32,
    pub region: Option<ScreenshotArea>,
}

impl View for ScreenshotCapture {
    type V = CaptureView;

    open spec fn view(&self) -> CaptureView {
        CaptureView {
            mime_type: self.mime_type@,
            data_url: self.data_url@,
            source: self.source@,
            width: self.width,
            height: self.height,
            region: self.region,
        }
    }
}

/// What every PNG data URL starts with.
pub open spec fn data_url_prefix() -> Seq<char> {
    "data:image/png;base64,"@
}

/// The data URL of a PNG file.
pub open spec fn data_url_of(file: Seq<u8>) -> Seq<char> {
    data_url_prefix() + crate::payload::base64_text(file)
}

/// Whether `url` is the data URL of `file`. It is that of no other file, by
/// [`data_urls_tell_files_apart`].
pub open spec fn carries(url: Seq<char>, file: Seq<u8>) -> bool {
    data_url_of(file) == url
}

/// Whether `url` is not the data URL of any file.
pub open spec fn carries_nothing(url: Seq<char>) -> bool {
    forall|file: Seq<u8>| #[trigger] data_url_of(file) != url
}

/// The screenshot that a PNG file of that size makes.
pub open spec fn capture_of(
    file: Seq<u8>,
    source: Seq<char>,
    width: u32,
    height: u32,
    region: Option<ScreenshotArea>,
) -> CaptureView {
    CaptureView {
        mime_type: "image/png"@,
        data_url: data_url_of(file),
        source,
        width,
        height,
        region,
    }
}

/// Makes a screenshot of a PNG file. Its size is the one in the header of the
/// file, and its data URL holds the whole file.
pub fn capture_png(bytes: &[u8], source: &str, region: Option<ScreenshotArea>) -> (capture: Result<
    ScreenshotCapture,
    PngHeaderError,
>)
    ensures
        match (capture, crate::png_header::png_size(bytes@)) {
            (Ok(capture), Ok((width, height))) => capture@ == capture_of(
                bytes@,
                source@,
                width,
                height,
                region,
            ),
            (Err(error), Err(expected)) => error == expected,
            _ => false,
        },
        capture matches Ok(capture) ==> {
            &&& capture.mime_type@ == "image/png"@
            &&& capture.data_url@ == "data:image/png;base64,"@ + crate::payload::base64_text(bytes@)
            &&& carries(capture.data_url@, bytes@)
            &&& capture.source@ == source@
            &&& capture.region == region
            &&& crate::png_header::is_big_endian(bytes@, 16, capture.width)
            &&& crate::png_header::is_big_endian(bytes@, 20, capture.height)
            &&& capture.width > 0 && capture.height > 0
        },
        capture is Ok <==> crate::png_header::has_png_header(bytes@) && !(bytes@.subrange(16, 20)
            =~= seq![0u8, 0u8, 0u8, 0u8]) && !(bytes@.subrange(20, 24) =~= seq![
            0u8,
            0u8,
            0u8,
            0u8,
        ]),
{
    match png_dimensions(bytes) {
        Ok((width, height)) => {
            let encoded = base64_encode(bytes);
            let mut data_url = "data:image/png;base64,".to_string();
            data_url.append(encoded.as_str());
            Ok(
                ScreenshotCapture {
                    mime_type: "image/png".to_string(),
                    data_url,
                    source: source.to_string(),
                    width,
                    height,
                    region,
                },
            )
        },
        Err(error) => Err(error),
    }
}

proof fn lemma_same_payload(file: Seq<u8>, payload: Seq<char>)
    requires
        data_url_of(file) == data_url_prefix() + payload,
    ensures
        crate::payload::base64_text(file) == payload,
{
    let start = data_url_prefix().len() as int;
    let text = crate::payload::base64_text(file);
    assert(data_url_of(file).subrange(start, data_url_of(file).len() as int) =~= text);
    assert((data_url_prefix() + payload).subrange(start, start + payload.len()) =~= payload);
}

/// No two files have the same data URL.
pub proof fn data_urls_tell_files_apart(file: Seq<u8>, other: Seq<u8>)
    requires
        data_url_of(file) == data_url_of(other),
    ensures
        file == other,
{
    lemma_same_payload(file, crate::payload::base64_text(other));
    crate::payload::base64_text_tells_bytes_apart(file, other);
}

/// What reading the PNG file out of a data URL may end in.
pub open spec fn data_url_outcome(
    url: Seq<char>,
    outcome: Result<Seq<u8>, CropError>,
) -> bool {
    match outcome {
        Ok(file) => carries(url, file),
        Err(CropError::NotPngDataUrl) => !data_url_prefix().is_prefix_of(url),
        Err(CropError::Payload(_)) => data_url_prefix().is_prefix_of(url) && carries_nothing(url),
        Err(_) => false,
    }
}

/// Reading the data URL of a file gives back that very file, and never fails.
pub proof fn data_urls_give_their_file_back(
    file: Seq<u8>,
    outcome: Result<Seq<u8>, CropError>,
)
    requires
        data_url_outcome(data_url_of(file), outcome),
    ensures
        outcome == Ok::<Seq<u8>, CropError>(file),
{
    assert(data_url_prefix().is_prefix_of(data_url_of(file)));
    if let Ok(other) = outcome {
        data_urls_tell_files_apart(file, other);
    }
}

/// The PNG file inside a data URL.
pub fn png_bytes_from_data_url(data_url: &str) -> (bytes: Result<Vec<u8>, CropError>)
    ensures
        match bytes {
            Ok(bytes) => data_url_outcome(data_url@, Ok(bytes@)),
            Err(error) => data_url_outcome(data_url@, Err(error)),
        },
        match bytes {
            Ok(bytes) => data_url@ == "data:image/png;base64,"@ + crate::payload::base64_text(
                bytes@,
            ),
            Err(CropError::NotPngDataUrl) => !"data:image/png;base64,"@.is_prefix_of(data_url@),
            Err(CropError::Payload(_)) => {
                &&& "data:image/png;base64,"@.is_prefix_of(data_url@)
                &&& forall|file: Seq<u8>|
                    data_url@ != "data:image/png;base64,"@ + #[trigger]
                    crate::payload::base64_text(file)
            },
            Err(_) => false,
        },
{
    let payload = match strip_prefix(data_url, "data:image/png;base64,") {
        Some(payload) => payload,
        None => {
            return Err(CropError::NotPngDataUrl);
        },
    };
    match base64_decode(payload) {
        Ok(bytes) => Ok(bytes),
        Err(error) => {
            proof {
                assert forall|file: Seq<u8>| #[trigger] data_url_of(file) != data_url@ by {
                    if data_url_of(file) == data_url@ {
                        lemma_same_payload(file, payload@);
                    }
                }
                assert forall|file: Seq<u8>|
                    data_url@ != "data:image/png;base64,"@ + #[trigger]
                    crate::payload::base64_text(file) by {
                    assert(data_url_of(file) != data_url@);
                }
            }
            Err(CropError::Payload(error))
        },
    }
}

proof fn lemma_only_file(url: Seq<char>, file: Seq<u8>)
    requires
        carries(url, file),
    ensures
        forall|other: Seq<u8>| #[trigger] carries(url, other) ==> other == file,
{
    assert forall|other: Seq<u8>| #[trigger] carries(url, other) implies other == file by {
        data_urls_tell_files_apart(other, file);
    }
}

/// Whether the decoder can be let loose on the PNG file in a screenshot, should there
/// be one.
pub open spec fn canvas_of_capture_fits(capture: CaptureView) -> bool {
    forall|file: Seq<u8>| #[trigger]
        carries(capture.data_url, file) ==> crate::crop::canvas_fits(file)
}

/// What cropping a screenshot to `area` may end in.
pub open spec fn capture_crop(
    capture: CaptureView,
    area: ScreenshotArea,
    outcome: Result<CaptureView, CropError>,
) -> bool {
    match outcome {
        Err(CropError::NotPngDataUrl) => !data_url_prefix().is_prefix_of(capture.data_url),
        Err(CropError::Payload(_)) => {
            &&& data_url_prefix().is_prefix_of(capture.data_url)
            &&& carries_nothing(capture.data_url)
        },
        Err(error) => exists|file: Seq<u8>| #[trigger]
            carries(capture.data_url, file) && crate::crop::crop_fails_with(file, area, error),
        Ok(cropped) => exists|file: Seq<u8>| #[trigger]
            carries(capture.data_url, file) && {
                &&& crate::crop::cropped_png(file, area) matches Some((png, clipped))
                &&& cropped == capture_of(
                    png,
                    capture.source + "-crop"@,
                    clipped.width,
                    clipped.height,
                    Some(clipped),
                )
            },
    }
}

/// Crops a screenshot to `area`, as far as the area lies inside it. The source of
/// the cropped screenshot is marked with `-crop`, its region is the part of the
/// area that it shows, and its size is the size of that part. It can be cropped in
/// turn.
pub fn crop_capture(capture: ScreenshotCapture, area: ScreenshotArea) -> (cropped: Result<
    ScreenshotCapture,
    CropError,
>)
    requires
        area.validation() is Ok ==> canvas_of_capture_fits(capture@),
    ensures
        match cropped {
            Ok(cropped) => {
                &&& capture_crop(capture@, area, Ok(cropped@))
                &&& canvas_of_capture_fits(cropped@)
                &&& cropped.mime_type@ == "image/png"@
                &&& cropped.source@ == capture.source@ + "-crop"@
                &&& cropped.region matches Some(region) && region.width == cropped.width
                    && region.height == cropped.height
            },
            Err(error) => capture_crop(capture@, area, Err(error)) && !(error is Header),
        },
{
    let bytes = match png_bytes_from_data_url(capture.data_url.as_str()) {
        Ok(bytes) => bytes,
        Err(error) => {
            return Err(error);
        },
    };
    assert(carries(capture@.data_url, bytes@));
    let (cropped_bytes, clipped) = match crop_png_bytes(bytes.as_slice(), area) {
        Ok(cropped) => cropped,
        Err(error) => {
            return Err(error);
        },
    };
    let mut source = capture.source;
    source.append("-crop");
    match capture_png(cropped_bytes.as_slice(), source.as_str(), Some(clipped)) {
        Ok(cropped) => {
            proof {
                lemma_only_file(cropped@.data_url, cropped_bytes@);
            }
            Ok(cropped)
        },
        Err(error) => Err(CropError::Header(error)),
    }
}

/// Crops a screenshot like [`crop_capture`], whatever its data URL holds; `None`
/// where the decoder cannot be let loose on the PNG file in it and the area does not
/// rule cropping out already.
pub fn crop_capture_if_it_fits(capture: ScreenshotCapture, area: ScreenshotArea) -> (cropped:
    Option<Result<ScreenshotCapture, CropError>>)
    ensures
        match cropped {
            Some(Ok(cropped)) => {
                &&& capture_crop(capture@, area, Ok(cropped@))
                &&& canvas_of_capture_fits(cropped@)
                &&& cropped.mime_type@ == "image/png"@
                &&& cropped.source@ == capture.source@ + "-crop"@
                &&& cropped.region matches Some(region) && region.width == cropped.width
                    && region.height == cropped.height
            },
            Some(Err(error)) => capture_crop(capture@, area, Err(error)) && !(error is Header),
            None => true,
        },
        cropped is None <==> area.validation() is Ok && !canvas_of_capture_fits(capture@),
{
    if area.validate().is_ok() {
        if let Ok(bytes) = png_bytes_from_data_url(capture.data_url.as_str()) {
            assert(carries(capture@.data_url, bytes@));
            if !png_canvas_fits(bytes.as_slice()) {
                return None;
            }
            proof {
                lemma_only_file(capture@.data_url, bytes@);
            }
        }
    }
    Some(crop_capture(capture, area))
}

/// Where a screenshot holds a file, cropping it is cropping the file: the answer holds
/// the cropped file as a data URL, its size and region are those of the part that is
/// shown, and its source is marked; and the errors are those of cropping the file.
pub proof fn cropping_a_capture_crops_its_file(
    capture: CaptureView,
    file: Seq<u8>,
    area: ScreenshotArea,
    outcome: Result<CaptureView, CropError>,
)
    requires
        capture.data_url == "data:image/png;base64,"@ + crate::payload::base64_text(file),
        capture_crop(capture, area, outcome),
    ensures
        match outcome {
            Ok(cropped) => crate::crop::cropped_png(file, area) matches Some((png, clipped)) && {
                &&& cropped.mime_type == "image/png"@
                &&& cropped.data_url == "data:image/png;base64,"@ + crate::payload::base64_text(png)
                &&& cropped.source == capture.source + "-crop"@
                &&& cropped.width == clipped.width
                &&& cropped.height == clipped.height
                &&& cropped.region == Some(clipped)
            },
            Err(error) => crate::crop::crop_fails_with(file, area, error),
        },
{
    assert(carries(capture.data_url, file));
    lemma_only_file(capture.data_url, file);
    assert("data:image/png;base64,"@.is_prefix_of(capture.data_url));
}

/// A screenshot that holds no file is refused for its data URL, whatever the area.
pub proof fn captures_without_a_file_are_not_cropped(
    capture: CaptureView,
    area: ScreenshotArea,
    outcome: Result<CaptureView, CropError>,
)
    requires
        forall|file: Seq<u8>|
            capture.data_url != "data:image/png;base64,"@ + #[trigger]
            crate::payload::base64_text(file),
        capture_crop(capture, area, outcome),
    ensures
        match outcome {
            Err(CropError::NotPngDataUrl) => !"data:image/png;base64,"@.is_prefix_of(
                capture.data_url,
            ),
            Err(CropError::Payload(_)) => "data:image/png;base64,"@.is_prefix_of(capture.data_url),
            _ => false,
        },
{
    assert forall|file: Seq<u8>| !(#[trigger] carries(capture.data_url, file)) by {
        assert(capture.data_url != "data:image/png;base64,"@ + crate::payload::base64_text(file));
    }
}

/// A screenshot that was made of a file gives the very file back, with nothing lost,
/// and says what it was told of its source and region.
pub proof fn captures_hold_their_whole_file(
    file: Seq<u8>,
    source: Seq<char>,
    width: u32,
    height: u32,
    region: Option<ScreenshotArea>,
    outcome: Result<Seq<u8>, CropError>,
)
    requires
        data_url_outcome(capture_of(file, source, width, height, region).data_url, outcome),
    ensures
        outcome == Ok::<Seq<u8>, CropError>(file),
        capture_of(file, source, width, height, region).mime_type == "image/png"@,
        capture_of(file, source, width, height, region).data_url == "data:image/png;base64,"@
            + crate::payload::base64_text(file),
        capture_of(file, source, width, height, region).source == source,
        capture_of(file, source, width, height, region).width == width,
        capture_of(file, source, width, height, region).height == height,
        capture_of(file, source, width, height, region).region == region,
{
    data_urls_give_their_file_back(file, outcome);
}

/// A screenshot is left out of cropping exactly where its file is, and one without a
/// file never is.
pub proof fn captures_are_left_out_with_their_file(capture: CaptureView, file: Seq<u8>)
    ensures
        capture.data_url == "data:image/png;base64,"@ + crate::payload::base64_text(file) ==> (
        canvas_of_capture_fits(capture) <==> crate::crop::canvas_fits(file)),
        (forall|other: Seq<u8>|
            capture.data_url != "data:image/png;base64,"@ + #[trigger]
            crate::payload::base64_text(other)) ==> canvas_of_capture_fits(capture),
{
    if capture.data_url == "data:image/png;base64,"@ + crate::payload::base64_text(file) {
        assert(carries(capture.data_url, file));
        lemma_only_file(capture.data_url, file);
    }
    if forall|other: Seq<u8>|
        capture.data_url != "data:image/png;base64,"@ + #[trigger]
        crate::payload::base64_text(other) {
        assert forall|other: Seq<u8>| !(#[trigger] carries(capture.data_url, other)) by {
            assert(capture.data_url != "data:image/png;base64,"@ + crate::payload::base64_text(
                other,
            ));
        }
    }
}

} // verus!
