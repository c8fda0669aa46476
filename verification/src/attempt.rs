//! One attempt at a screenshot: how it fails, and how its file and the answers of
//! the desktop portal are judged.
use crate::area::{AreaError, ScreenshotArea};
use crate::capture::{capture_png, ScreenshotCapture};
use crate::png_header::PngHeaderError;
use crate::text::{push_decimal, strip_prefix};
use crate::uri::{file_uri_to_path, UnsupportedUri};
use vstd::prelude::*;

verus! {

/// Why one way of taking a screenshot failed. `cause` holds the words of the error
/// below, where there is one.
#[derive(Debug)]
pub enum CaptureError {
    /// The area cannot be requested.
    Area(AreaError),
    /// The session bus cannot be reached.
    SessionBus { cause: String },
    /// The D-Bus library refused something; there is nothing to add to its words.
    Dbus { words: String },
    /// GNOME Shell's screenshot service cannot be addressed.
    GnomeProxy { cause: String },
    /// The path of the temporary file cannot be sent over D-Bus.
    TempPathNotUtf8,
    /// The call to GNOME Shell failed.
    GnomeCall { area: bool, cause: String },
    /// GNOME Shell answered that it took no screenshot.
    GnomeReported { area: bool },
    /// The desktop portal cannot be addressed.
    PortalProxy { cause: String },
    /// The responses of the desktop portal cannot be listened to.
    PortalSubscription { cause: String },
    /// The call to the desktop portal failed.
    PortalCall { cause: String },
    /// The desktop portal did not respond in time.
    PortalTimeout { cause: String },
    /// The responses ended before the one that was waited for.
    PortalStreamEnded,
    /// The responses could not be received.
    PortalStreamFailed { cause: String },
    /// The response of the desktop portal cannot be read.
    PortalBody { cause: String },
    /// The desktop portal took no screenshot.
    PortalDenied { code: u32 },
    /// The response does not say where the screenshot is.
    PortalNoUri,
    /// The URI in the response cannot be copied.
    PortalUriClone { cause: String },
    /// The URI in the response is not a text.
    PortalUriType { cause: String },
    /// The URI in the response does not name a local file.
    Uri(UnsupportedUri),
    /// The screenshot file cannot be read.
    FileRead { path: String, cause: String },
    /// The screenshot file is empty.
    EmptyFile { path: String },
    /// The screenshot file is not a PNG file.
    Png(PngHeaderError),
}

impl CaptureError {
    /// The text of [`CaptureError::message`].
    pub open spec fn text(self) -> Seq<char> {
        match self {
            CaptureError::Area(error) => error.text(),
            CaptureError::SessionBus { .. } => "failed to connect to session bus"@,
            CaptureError::Dbus { words } => words@,
            CaptureError::GnomeProxy { .. } => "failed to create GNOME Shell screenshot proxy"@,
            CaptureError::TempPathNotUtf8 => "temporary screenshot path is not valid UTF-8"@,
            CaptureError::GnomeCall { area, .. } => if area {
                "GNOME Shell ScreenshotArea call failed"@
            } else {
                "GNOME Shell Screenshot call failed"@
            },
            CaptureError::GnomeReported { area } => if area {
                "GNOME Shell reported ScreenshotArea failure"@
            } else {
                "GNOME Shell reported screenshot failure"@
            },
            CaptureError::PortalProxy { .. } => "failed to create XDG portal screenshot proxy"@,
            CaptureError::PortalSubscription { .. } =>
                "failed to subscribe to XDG portal screenshot responses"@,
            CaptureError::PortalCall { .. } => "XDG portal Screenshot call failed"@,
            CaptureError::PortalTimeout { .. } =>
                "timed out waiting for XDG portal screenshot response"@,
            CaptureError::PortalStreamEnded => "XDG portal screenshot response stream ended"@,
            CaptureError::PortalStreamFailed { .. } =>
                "XDG portal screenshot response stream failed"@,
            CaptureError::PortalBody { .. } => "failed to decode XDG portal screenshot response"@,
            CaptureError::PortalDenied { code } =>
                "XDG portal screenshot was denied or cancelled with response code "@
                    + crate::text::decimal(code as nat),
            CaptureError::PortalNoUri => "XDG portal screenshot response did not include a uri"@,
            CaptureError::PortalUriClone { .. } => "failed to clone XDG portal screenshot uri"@,
            CaptureError::PortalUriType { .. } => "XDG portal screenshot uri was not a string"@,
            CaptureError::Uri(error) => error.text(),
            CaptureError::FileRead { path, .. } => "failed to read screenshot file "@ + path@,
            CaptureError::EmptyFile { path } => "screenshot file was empty: "@ + path@,
            CaptureError::Png(error) => error.text(),
        }
    }

    /// The words of the error below this one, if there is one.
    pub open spec fn cause_text(self) -> Option<Seq<char>> {
        match self {
            CaptureError::Area(error) => error.cause_text(),
            CaptureError::SessionBus { cause, .. } => Some(cause@),
            CaptureError::GnomeProxy { cause, .. } => Some(cause@),
            CaptureError::GnomeCall { cause, .. } => Some(cause@),
            CaptureError::PortalProxy { cause, .. } => Some(cause@),
            CaptureError::PortalSubscription { cause, .. } => Some(cause@),
            CaptureError::PortalCall { cause, .. } => Some(cause@),
            CaptureError::PortalTimeout { cause, .. } => Some(cause@),
            CaptureError::PortalStreamFailed { cause, .. } => Some(cause@),
            CaptureError::PortalBody { cause, .. } => Some(cause@),
            CaptureError::PortalUriClone { cause, .. } => Some(cause@),
            CaptureError::PortalUriType { cause, .. } => Some(cause@),
            CaptureError::FileRead { cause, .. } => Some(cause@),
            _ => None,
        }
    }

    /// The text of [`CaptureError::report`].
    pub open spec fn report_text(self) -> Seq<char> {
        match self.cause_text() {
            Some(cause) => self.text() + ": "@ + cause,
            None => self.text(),
        }
    }

    /// The error in words, without the error below it.
    pub fn message(&self) -> (message: String)
        ensures
            message@ == self.text(),
    {
        match self {
            CaptureError::Area(error) => error.message(),
            CaptureError::SessionBus { .. } => "failed to connect to session bus".to_string(),
            CaptureError::Dbus { words } => words.clone(),
            CaptureError::GnomeProxy { .. } =>
                "failed to create GNOME Shell screenshot proxy".to_string(),
            CaptureError::TempPathNotUtf8 =>
                "temporary screenshot path is not valid UTF-8".to_string(),
            CaptureError::GnomeCall { area, .. } => if *area {
                "GNOME Shell ScreenshotArea call failed".to_string()
            } else {
                "GNOME Shell Screenshot call failed".to_string()
            },
            CaptureError::GnomeReported { area } => if *area {
                "GNOME Shell reported ScreenshotArea failure".to_string()
            } else {
                "GNOME Shell reported screenshot failure".to_string()
            },
            CaptureError::PortalProxy { .. } =>
                "failed to create XDG portal screenshot proxy".to_string(),
            CaptureError::PortalSubscription { .. } =>
                "failed to subscribe to XDG portal screenshot responses".to_string(),
            CaptureError::PortalCall { .. } => "XDG portal Screenshot call failed".to_string(),
            CaptureError::PortalTimeout { .. } =>
                "timed out waiting for XDG portal screenshot response".to_string(),
            CaptureError::PortalStreamEnded =>
                "XDG portal screenshot response stream ended".to_string(),
            CaptureError::PortalStreamFailed { .. } =>
                "XDG portal screenshot response stream failed".to_string(),
            CaptureError::PortalBody { .. } =>
                "failed to decode XDG portal screenshot response".to_string(),
            CaptureError::PortalDenied { code } => {
                let mut message =
                    "XDG portal screenshot was denied or cancelled with response code ".to_string();
                push_decimal(&mut message, *code as u128);
                message
            },
            CaptureError::PortalNoUri =>
                "XDG portal screenshot response did not include a uri".to_string(),
            CaptureError::PortalUriClone { .. } =>
                "failed to clone XDG portal screenshot uri".to_string(),
            CaptureError::PortalUriType { .. } =>
                "XDG portal screenshot uri was not a string".to_string(),
            CaptureError::Uri(error) => error.message(),
            CaptureError::FileRead { path, .. } => {
                let mut message = "failed to read screenshot file ".to_string();
                message.append(path.as_str());
                message
            },
            CaptureError::EmptyFile { path } => {
                let mut message = "screenshot file was empty: ".to_string();
                message.append(path.as_str());
                message
            },
            CaptureError::Png(error) => error.message(),
        }
    }

    /// The words of the error below this one, if there is one.
    pub fn cause(&self) -> (cause: Option<String>)
        ensures
            match cause {
                Some(cause) => self.cause_text() == Some(cause@),
                None => self.cause_text() is None,
            },
    {
        match self {
            CaptureError::Area(error) => error.cause(),
            CaptureError::SessionBus { cause, .. } => Some(cause.clone()),
            CaptureError::GnomeProxy { cause, .. } => Some(cause.clone()),
            CaptureError::GnomeCall { cause, .. } => Some(cause.clone()),
            CaptureError::PortalProxy { cause, .. } => Some(cause.clone()),
            CaptureError::PortalSubscription { cause, .. } => Some(cause.clone()),
            CaptureError::PortalCall { cause, .. } => Some(cause.clone()),
            CaptureError::PortalTimeout { cause, .. } => Some(cause.clone()),
            CaptureError::PortalStreamFailed { cause, .. } => Some(cause.clone()),
            CaptureError::PortalBody { cause, .. } => Some(cause.clone()),
            CaptureError::PortalUriClone { cause, .. } => Some(cause.clone()),
            CaptureError::PortalUriType { cause, .. } => Some(cause.clone()),
            CaptureError::FileRead { cause, .. } => Some(cause.clone()),
            _ => None,
        }
    }

    /// The error in words, followed by the error below it.
    pub fn report(&self) -> (report: String)
        ensures
            report@ == self.report_text(),
    {
        let mut report = self.message();
        if let Some(cause) = self.cause() {
            report.append(": ");
            report.append(cause.as_str());
        }
        report
    }
}

/// Whether `outcome` is what a screenshot file makes, once it was read or could
/// not be: an unreadable or empty file and one without a proper PNG header are
/// refused, any other becomes a screenshot that holds the whole file.
pub open spec fn read_outcome(
    path: Seq<char>,
    read: Result<Vec<u8>, String>,
    source: Seq<char>,
    region: Option<ScreenshotArea>,
    outcome: Result<ScreenshotCapture, CaptureError>,
) -> bool {
    match read {
        Err(failure) => {
            &&& outcome matches Err(CaptureError::FileRead { path: named, cause })
            &&& named@ == path
            &&& cause == failure
        },
        Ok(bytes) => if bytes@.len() == 0 {
            &&& outcome matches Err(CaptureError::EmptyFile { path: named })
            &&& named@ == path
        } else {
            match crate::png_header::png_size(bytes@) {
                Err(error) => outcome == Err::<ScreenshotCapture, CaptureError>(
                    CaptureError::Png(error),
                ),
                Ok((width, height)) => {
                    &&& outcome matches Ok(capture)
                    &&& capture@ == crate::capture::capture_of(
                        bytes@,
                        source,
                        width,
                        height,
                        region,
                    )
                },
            }
        },
    }
}

/// Makes a screenshot of the file at `path`, given what reading it came to.
pub fn capture_from_read(
    path: &str,
    read: Result<Vec<u8>, String>,
    source: &str,
    region: Option<ScreenshotArea>,
) -> (outcome: Result<ScreenshotCapture, CaptureError>)
    ensures
        read_outcome(path@, read, source@, region, outcome),
        match read {
            Err(failure) => {
                &&& outcome matches Err(CaptureError::FileRead { path: named, cause })
                &&& named@ == path@
                &&& cause@ == failure@
            },
            Ok(bytes) => match outcome {
                Ok(capture) => {
                    &&& capture.mime_type@ == "image/png"@
                    &&& capture.data_url@ == "data:image/png;base64,"@
                        + crate::payload::base64_text(bytes@)
                    &&& crate::capture::carries(capture.data_url@, bytes@)
                    &&& capture.source@ == source@
                    &&& capture.region == region
                    &&& crate::png_header::has_png_header(bytes@)
                    &&& crate::png_header::is_big_endian(bytes@, 16, capture.width)
                    &&& crate::png_header::is_big_endian(bytes@, 20, capture.height)
                    &&& capture.width > 0 && capture.height > 0
                },
                Err(CaptureError::EmptyFile { path: named }) => bytes@.len() == 0 && named@
                    == path@,
                Err(CaptureError::Png(PngHeaderError::NotPng)) => bytes@.len() > 0
                    && !crate::png_header::has_png_header(bytes@),
                Err(CaptureError::Png(PngHeaderError::InvalidDimensions { width, height })) => {
                    &&& crate::png_header::has_png_header(bytes@)
                    &&& width == 0 || height == 0
                    &&& crate::png_header::is_big_endian(bytes@, 16, width)
                    &&& crate::png_header::is_big_endian(bytes@, 20, height)
                },
                Err(_) => false,
            },
        },
{
    match read {
        Err(cause) => Err(CaptureError::FileRead { path: path.to_string(), cause }),
        Ok(bytes) => {
            if bytes.is_empty() {
                return Err(CaptureError::EmptyFile { path: path.to_string() });
            }
            proof {
                crate::png_header::lemma_verdicts_name_their_bytes(bytes@);
            }
            match capture_png(bytes.as_slice(), source, region) {
                Ok(capture) => Ok(capture),
                Err(error) => Err(CaptureError::Png(error)),
            }
        },
    }
}

/// Whether a response of the desktop portal belongs to the request at
/// `request_path`.
pub fn portal_response_matches_path(response_path: Option<&str>, request_path: &str) -> (matches:
    bool)
    ensures
        matches == (response_path matches Some(path) && path@ == request_path@),
{
    match response_path {
        Some(path) => match strip_prefix(path, request_path) {
            Some(rest) => {
                let same: bool = rest.is_empty();
                proof {
                    assert(same ==> path@ =~= request_path@);
                    assert(path@.len() == request_path@.len() + rest@.len());
                }
                same
            },
            None => false,
        },
        None => false,
    }
}

/// What the subscription to the responses of the desktop portal brings next.
#[derive(Debug)]
pub enum PortalSignal {
    /// No response comes any more.
    Ended,
    /// The next response could not be received.
    Failed { cause: String },
    /// A response, sent from an object path if it has one.
    Response { path: Option<String> },
}

/// What is to be done about a [`PortalSignal`].
#[derive(Debug)]
pub enum PortalWait {
    /// The response belongs to another request: wait for the next one.
    Continue,
    /// The response is the one that is waited for: read it.
    Accept,
    /// Waiting is over.
    Fail(CaptureError),
}

/// What is to be done about `signal` while the response from `request_path` is
/// waited for.
pub open spec fn portal_wait(signal: PortalSignal, request_path: Seq<char>) -> PortalWait {
    match signal {
        PortalSignal::Ended => PortalWait::Fail(CaptureError::PortalStreamEnded),
        PortalSignal::Failed { cause } => PortalWait::Fail(
            CaptureError::PortalStreamFailed { cause },
        ),
        PortalSignal::Response { path } => if path matches Some(path) && path@ == request_path {
            PortalWait::Accept
        } else {
            PortalWait::Continue
        },
    }
}

/// Judges what the subscription brought while the response from `request_path` is
/// waited for.
pub fn judge_portal_signal(signal: PortalSignal, request_path: &str) -> (wait: PortalWait)
    ensures
        wait == portal_wait(signal, request_path@),
        wait is Accept <==> (signal matches PortalSignal::Response { path: Some(path) } && path@
            == request_path@),
        wait is Continue <==> (signal matches PortalSignal::Response { path } && !(
        path matches Some(path) && path@ == request_path@)),
        signal is Ended ==> (wait matches PortalWait::Fail(error) && error is PortalStreamEnded),
        signal matches PortalSignal::Failed { cause: words } ==> (wait matches PortalWait::Fail(
            error,
        ) && (error matches CaptureError::PortalStreamFailed { cause } && cause == words)),
{
    match signal {
        PortalSignal::Ended => PortalWait::Fail(CaptureError::PortalStreamEnded),
        PortalSignal::Failed { cause } => PortalWait::Fail(
            CaptureError::PortalStreamFailed { cause },
        ),
        PortalSignal::Response { path } => {
            let response_path: Option<&str> = match &path {
                Some(path) => Some(path.as_str()),
                None => None,
            };
            if portal_response_matches_path(response_path, request_path) {
                PortalWait::Accept
            } else {
                PortalWait::Continue
            }
        },
    }
}

/// The entry `uri` in the results of a portal response.
#[derive(Debug)]
pub enum PortalUri {
    /// There is none.
    Missing,
    /// It could not be copied out of the response.
    NotCopied { cause: String },
    /// It is not a text.
    NotText { cause: String },
    /// It is this text.
    Text { uri: String },
}

/// Whether `outcome` is what a portal response comes to: the path of the
/// screenshot, where the response code is zero and the URI names a local file.
pub open spec fn portal_path_outcome(
    code: u32,
    uri: PortalUri,
    outcome: Result<String, CaptureError>,
) -> bool {
    if code != 0 {
        outcome == Err::<String, CaptureError>(CaptureError::PortalDenied { code })
    } else {
        match uri {
            PortalUri::Missing => outcome == Err::<String, CaptureError>(CaptureError::PortalNoUri),
            PortalUri::NotCopied { cause } => outcome == Err::<String, CaptureError>(
                CaptureError::PortalUriClone { cause },
            ),
            PortalUri::NotText { cause } => outcome == Err::<String, CaptureError>(
                CaptureError::PortalUriType { cause },
            ),
            PortalUri::Text { uri } => match outcome {
                Ok(path) => crate::uri::names_path(uri@, path@),
                Err(CaptureError::Uri(error)) => {
                    &&& !crate::uri::file_scheme().is_prefix_of(uri@)
                    &&& error.uri@ == uri@
                },
                Err(_) => false,
            },
        }
    }
}

/// The path of the screenshot that a portal response tells of.
pub fn portal_screenshot_path(code: u32, uri: PortalUri) -> (outcome: Result<String, CaptureError>)
    ensures
        portal_path_outcome(code, uri, outcome),
        match outcome {
            Ok(path) => code == 0 && (uri matches PortalUri::Text { uri } && {
                &&& "file://"@.is_prefix_of(uri@)
                &&& path@ == crate::codec::lossy_text(
                    crate::uri::unescaped(
                        vstd::utf8::encode_utf8(uri@.skip("file://"@.len() as int)),
                    ),
                )
                &&& !uri@.contains('%') ==> "file://"@ + path@ == uri@
            }),
            Err(CaptureError::PortalDenied { code: denied }) => code != 0 && denied == code,
            Err(CaptureError::PortalNoUri) => code == 0 && uri is Missing,
            Err(CaptureError::PortalUriClone { cause: words }) => code == 0 && (
            uri matches PortalUri::NotCopied { cause } && cause == words),
            Err(CaptureError::PortalUriType { cause: words }) => code == 0 && (
            uri matches PortalUri::NotText { cause } && cause == words),
            Err(CaptureError::Uri(error)) => code == 0 && (uri matches PortalUri::Text { uri }
                && !"file://"@.is_prefix_of(uri@) && error.uri@ == uri@),
            Err(_) => false,
        },
{
    if code != 0 {
        return Err(CaptureError::PortalDenied { code });
    }
    match uri {
        PortalUri::Missing => Err(CaptureError::PortalNoUri),
        PortalUri::NotCopied { cause } => Err(CaptureError::PortalUriClone { cause }),
        PortalUri::NotText { cause } => Err(CaptureError::PortalUriType { cause }),
        PortalUri::Text { uri } => match file_uri_to_path(uri.as_str()) {
            Ok(path) => Ok(path),
            Err(error) => Err(CaptureError::Uri(error)),
        },
    }
}

/// What is said of each error: its own words, which do not depend on the cause, with
/// the path, code, URI or words that it is about.
pub proof fn errors_have_their_words(error: CaptureError)
    ensures
        error.text() == (match error {
            CaptureError::Area(error) => error.text(),
            CaptureError::SessionBus { .. } => "failed to connect to session bus"@,
            CaptureError::Dbus { words } => words@,
            CaptureError::GnomeProxy { .. } => "failed to create GNOME Shell screenshot proxy"@,
            CaptureError::TempPathNotUtf8 => "temporary screenshot path is not valid UTF-8"@,
            CaptureError::GnomeCall { area, .. } => if area {
                "GNOME Shell ScreenshotArea call failed"@
            } else {
                "GNOME Shell Screenshot call failed"@
            },
            CaptureError::GnomeReported { area } => if area {
                "GNOME Shell reported ScreenshotArea failure"@
            } else {
                "GNOME Shell reported screenshot failure"@
            },
            CaptureError::PortalProxy { .. } => "failed to create XDG portal screenshot proxy"@,
            CaptureError::PortalSubscription { .. } =>
                "failed to subscribe to XDG portal screenshot responses"@,
            CaptureError::PortalCall { .. } => "XDG portal Screenshot call failed"@,
            CaptureError::PortalTimeout { .. } =>
                "timed out waiting for XDG portal screenshot response"@,
            CaptureError::PortalStreamEnded => "XDG portal screenshot response stream ended"@,
            CaptureError::PortalStreamFailed { .. } =>
                "XDG portal screenshot response stream failed"@,
            CaptureError::PortalBody { .. } => "failed to decode XDG portal screenshot response"@,
            CaptureError::PortalDenied { code } =>
                "XDG portal screenshot was denied or cancelled with response code "@
                    + crate::text::decimal(code as nat),
            CaptureError::PortalNoUri => "XDG portal screenshot response did not include a uri"@,
            CaptureError::PortalUriClone { .. } => "failed to clone XDG portal screenshot uri"@,
            CaptureError::PortalUriType { .. } => "XDG portal screenshot uri was not a string"@,
            CaptureError::Uri(error) => error.text(),
            CaptureError::FileRead { path, .. } => "failed to read screenshot file "@ + path@,
            CaptureError::EmptyFile { path } => "screenshot file was empty: "@ + path@,
            CaptureError::Png(error) => error.text(),
        }),
{
}

/// The cause of an error is the one that it was made with, word for word, and a report
/// is the error and then its cause.
pub proof fn reports_end_with_the_cause(error: CaptureError)
    ensures
        match error {
            CaptureError::SessionBus { cause } | CaptureError::GnomeProxy { cause }
            | CaptureError::GnomeCall { cause, .. } | CaptureError::PortalProxy { cause }
            | CaptureError::PortalSubscription { cause } | CaptureError::PortalCall { cause }
            | CaptureError::PortalTimeout { cause } | CaptureError::PortalStreamFailed { cause }
            | CaptureError::PortalBody { cause } | CaptureError::PortalUriClone { cause }
            | CaptureError::PortalUriType { cause } | CaptureError::FileRead { cause, .. } => {
                &&& error.cause_text() == Some(cause@)
                &&& error.report_text() == error.text() + ": "@ + cause@
            },
            CaptureError::Area(area) => {
                &&& error.cause_text() == area.cause_text()
                &&& area is NotPositive ==> error.report_text() == error.text()
                &&& !(area is NotPositive) ==> error.report_text() == error.text() + ": "@
                    + "out of range integral type conversion attempted"@
            },
            _ => error.cause_text() is None && error.report_text() == error.text(),
        },
{
}

/// The response that is waited for is the one whose path has exactly the characters of
/// the request, and no other response ends the waiting.
pub proof fn only_the_own_response_is_accepted(signal: PortalSignal, request_path: Seq<char>)
    ensures
        match signal {
            PortalSignal::Response { path: Some(path) } => {
                &&& path@ == request_path ==> portal_wait(signal, request_path) is Accept
                &&& path@ != request_path ==> portal_wait(signal, request_path) is Continue
            },
            PortalSignal::Response { path: None } => portal_wait(signal, request_path) is Continue,
            PortalSignal::Failed { cause } => portal_wait(signal, request_path)
                == PortalWait::Fail(CaptureError::PortalStreamFailed { cause }),
            PortalSignal::Ended => portal_wait(signal, request_path) == PortalWait::Fail(
                CaptureError::PortalStreamEnded,
            ),
        },
{
}

/// A response is accepted for one request only.
pub proof fn responses_belong_to_one_request(
    signal: PortalSignal,
    request_path: Seq<char>,
    other_path: Seq<char>,
)
    requires
        portal_wait(signal, request_path) is Accept,
        portal_wait(signal, other_path) is Accept,
    ensures
        request_path == other_path,
{
}

/// A screenshot file becomes a screenshot exactly where it was read and has a PNG
/// header with a width and a height; the screenshot then holds all of its bytes, its
/// size, and the source and region that were asked for.
pub proof fn files_become_screenshots_whole(
    path: Seq<char>,
    bytes: Vec<u8>,
    source: Seq<char>,
    region: Option<ScreenshotArea>,
    outcome: Result<ScreenshotCapture, CaptureError>,
)
    requires
        read_outcome(path, Ok(bytes), source, region, outcome),
    ensures
        outcome is Ok <==> crate::png_header::png_size(bytes@) is Ok,
        outcome matches Ok(capture) ==> {
            &&& capture.mime_type@ == "image/png"@
            &&& capture.data_url@ == "data:image/png;base64,"@ + crate::payload::base64_text(
                bytes@,
            )
            &&& capture.source@ == source
            &&& capture.region == region
            &&& crate::png_header::has_png_header(bytes@)
            &&& crate::png_header::is_big_endian(bytes@, 16, capture.width)
            &&& crate::png_header::is_big_endian(bytes@, 20, capture.height)
        },
        match outcome {
            Ok(_) => true,
            Err(CaptureError::EmptyFile { path: named }) => bytes@.len() == 0 && named@ == path,
            Err(CaptureError::Png(_)) => bytes@.len() > 0,
            Err(_) => false,
        },
{
    crate::png_header::lemma_verdicts_name_their_bytes(bytes@);
}

/// A file that could not be read is named with the reason.
pub proof fn unreadable_files_are_named(
    path: Seq<char>,
    failure: String,
    source: Seq<char>,
    region: Option<ScreenshotArea>,
    outcome: Result<ScreenshotCapture, CaptureError>,
)
    requires
        read_outcome(path, Err(failure), source, region, outcome),
    ensures
        outcome matches Err(CaptureError::FileRead { path: named, cause }) && named@ == path
            && cause == failure,
{
}

/// A portal response gives a path exactly where its code is zero and its URI starts
/// with `file://`; then the path is what the rest decodes to. Else the code is at fault
/// first, then the URI.
pub proof fn portal_responses_give_the_path_of_their_uri(
    code: u32,
    uri: PortalUri,
    outcome: Result<String, CaptureError>,
)
    requires
        portal_path_outcome(code, uri, outcome),
    ensures
        outcome is Ok <==> code == 0 && (uri matches PortalUri::Text { uri }
            && "file://"@.is_prefix_of(uri@)),
        match outcome {
            Ok(path) => uri matches PortalUri::Text { uri } && {
                &&& path@ == crate::codec::lossy_text(
                    crate::uri::unescaped(
                        vstd::utf8::encode_utf8(uri@.skip("file://"@.len() as int)),
                    ),
                )
                &&& !uri@.contains('%') ==> uri@ == "file://"@ + path@
            },
            Err(error) => {
                &&& error is PortalDenied <==> code != 0
                &&& error matches CaptureError::PortalDenied { code: denied } ==> denied == code
                &&& code == 0 ==> match uri {
                    PortalUri::Missing => error is PortalNoUri,
                    PortalUri::NotCopied { cause } => error == (CaptureError::PortalUriClone {
                        cause,
                    }),
                    PortalUri::NotText { cause } => error == (CaptureError::PortalUriType {
                        cause,
                    }),
                    PortalUri::Text { uri } => error matches CaptureError::Uri(unsupported)
                        && unsupported.uri@ == uri@,
                }
            },
        },
{
}

} // verus!
