//! A screenshot run: which backend is asked, which file is read and removed, and
//! what is answered in the end.
//!
//! A run is a sequence of steps. The caller does what a step asks for and hands
//! the outcome to the step, which gives the next one.
use crate::area::ScreenshotArea;
use crate::attempt::{capture_from_read, portal_screenshot_path, CaptureError, PortalUri};
use crate::capture::{crop_capture_if_it_fits, ScreenshotCapture};
use crate::crop::CropError;
use vstd::prelude::*;

verus! {

/// Why a run ended without a screenshot.
#[derive(Debug)]
pub enum ScreenshotError {
    /// Neither backend took a screenshot of the full screen.
    Full { gnome: CaptureError, portal: CaptureError },
    /// GNOME Shell did not take the area, and neither backend the full screen.
    AreaAndFull { area: CaptureError, gnome: CaptureError, portal: CaptureError },
    /// GNOME Shell did not take the area, and the full screen could not be cropped.
    AreaAndCrop { area: CaptureError, crop: CropError },
}

/// An area that is to be cut out of a full screenshot, because GNOME Shell did not
/// take it.
#[derive(Debug)]
pub struct Fallback {
    pub area: ScreenshotArea,
    pub area_error: CaptureError,
}

/// What GNOME Shell is asked for.
#[derive(Debug)]
pub enum Attempt {
    /// This area alone.
    Area(ScreenshotArea),
    /// The full screen, out of which an area may have to be cut.
    Full(Option<Fallback>),
}

/// GNOME Shell is to be asked for a screenshot.
#[derive(Debug)]
pub struct GnomeTurn {
    pub attempt: Attempt,
}

/// How asking GNOME Shell went.
#[derive(Debug)]
pub enum GnomeEvent {
    /// The call was never made.
    NotCalled(CaptureError),
    /// The call, with a file to write to, failed.
    CallFailed { requested: String, cause: String },
    /// The call, with a file to write to, was answered.
    Answered { requested: String, success: bool, filename: String },
}

/// Who wrote the file that is to be read.
#[derive(Debug)]
pub enum Origin {
    /// GNOME Shell, which was asked to write to `requested`.
    Gnome { attempt: Attempt, requested: String },
    /// The desktop portal, after GNOME Shell had failed.
    Portal { fallback: Option<Fallback>, gnome_error: CaptureError },
}

/// The file at `path` is to be read.
#[derive(Debug)]
pub struct ReadTurn {
    pub path: String,
    pub origin: Origin,
}

/// The file at `path` is to be removed, whether it is there or not.
#[derive(Debug)]
pub struct RemoveTurn {
    pub path: String,
    pub attempt: Attempt,
    pub outcome: Result<ScreenshotCapture, CaptureError>,
}

/// The desktop portal is to be asked for a screenshot of the full screen.
#[derive(Debug)]
pub struct PortalTurn {
    pub fallback: Option<Fallback>,
    pub gnome_error: CaptureError,
}

/// How asking the desktop portal went.
#[derive(Debug)]
pub enum PortalEvent {
    /// No response came.
    Failed(CaptureError),
    /// The response has this code and this URI.
    Answered { code: u32, uri: PortalUri },
}

/// A full screenshot is to be cropped.
#[derive(Debug)]
pub struct CropTurn {
    pub capture: ScreenshotCapture,
    pub fallback: Fallback,
}

/// Where a run stands, and what it needs to go on.
#[derive(Debug)]
pub enum Step {
    AskGnome(GnomeTurn),
    ReadFile(ReadTurn),
    RemoveFile(RemoveTurn),
    AskPortal(PortalTurn),
    Crop(CropTurn),
    Done(Result<ScreenshotCapture, ScreenshotError>),
}

/// What a step can be told.
#[derive(Debug)]
pub enum Event {
    Gnome(GnomeEvent),
    Read(Result<Vec<u8>, String>),
    Removed,
    Portal(PortalEvent),
    Cropped(Result<ScreenshotCapture, CropError>),
}

impl Attempt {
    /// The name of the backend in the finished screenshot.
    pub open spec fn source_text(self) -> Seq<char> {
        match self {
            Attempt::Area(_) => "gnome-shell-area"@,
            Attempt::Full(_) => "gnome-shell"@,
        }
    }

    /// The region of the finished screenshot.
    pub open spec fn region(self) -> Option<ScreenshotArea> {
        match self {
            Attempt::Area(area) => Some(area),
            Attempt::Full(_) => None,
        }
    }

    /// The name of the backend in the finished screenshot.
    pub fn source(&self) -> (source: &'static str)
        ensures
            source@ == self.source_text(),
            self is Area ==> source@ == "gnome-shell-area"@,
            self is Full ==> source@ == "gnome-shell"@,
    {
        match self {
            Attempt::Area(_) => "gnome-shell-area",
            Attempt::Full(_) => "gnome-shell",
        }
    }
}

impl Origin {
    /// The name of the backend in the finished screenshot.
    pub open spec fn source_text(self) -> Seq<char> {
        match self {
            Origin::Gnome { attempt, .. } => attempt.source_text(),
            Origin::Portal { .. } => "xdg-desktop-portal"@,
        }
    }

    /// The region of the finished screenshot.
    pub open spec fn region(self) -> Option<ScreenshotArea> {
        match self {
            Origin::Gnome { attempt, .. } => attempt.region(),
            Origin::Portal { .. } => None,
        }
    }
}

/// The step that follows once GNOME Shell's part is over.
pub open spec fn after_gnome(
    attempt: Attempt,
    outcome: Result<ScreenshotCapture, CaptureError>,
) -> Step {
    match (attempt, outcome) {
        (Attempt::Area(_), Ok(capture)) => Step::Done(Ok(capture)),
        (Attempt::Area(area), Err(area_error)) => Step::AskGnome(
            GnomeTurn { attempt: Attempt::Full(Some(Fallback { area, area_error })) },
        ),
        (Attempt::Full(None), Ok(capture)) => Step::Done(Ok(capture)),
        (Attempt::Full(Some(fallback)), Ok(capture)) => Step::Crop(CropTurn { capture, fallback }),
        (Attempt::Full(fallback), Err(gnome_error)) => Step::AskPortal(
            PortalTurn { fallback, gnome_error },
        ),
    }
}

/// The step that follows once the desktop portal's part is over.
pub open spec fn after_portal(
    fallback: Option<Fallback>,
    gnome_error: CaptureError,
    outcome: Result<ScreenshotCapture, CaptureError>,
) -> Step {
    match (fallback, outcome) {
        (None, Ok(capture)) => Step::Done(Ok(capture)),
        (None, Err(portal)) => Step::Done(
            Err(ScreenshotError::Full { gnome: gnome_error, portal }),
        ),
        (Some(fallback), Ok(capture)) => Step::Crop(CropTurn { capture, fallback }),
        (Some(fallback), Err(portal)) => Step::Done(
            Err(
                ScreenshotError::AreaAndFull {
                    area: fallback.area_error,
                    gnome: gnome_error,
                    portal,
                },
            ),
        ),
    }
}

/// The step that follows once a file was read: a file that GNOME Shell was asked
/// to write is removed first.
pub open spec fn after_read(
    origin: Origin,
    outcome: Result<ScreenshotCapture, CaptureError>,
) -> Step {
    match origin {
        Origin::Gnome { attempt, requested } => Step::RemoveFile(
            RemoveTurn { path: requested, attempt, outcome },
        ),
        Origin::Portal { fallback, gnome_error } => after_portal(fallback, gnome_error, outcome),
    }
}

/// The step that follows an answer of GNOME Shell.
pub open spec fn after_gnome_event(attempt: Attempt, event: GnomeEvent) -> Step {
    match event {
        GnomeEvent::NotCalled(error) => after_gnome(attempt, Err(error)),
        GnomeEvent::CallFailed { requested, cause } => Step::RemoveFile(
            RemoveTurn {
                path: requested,
                attempt,
                outcome: Err(CaptureError::GnomeCall { area: attempt is Area, cause }),
            },
        ),
        GnomeEvent::Answered { requested, success, filename } => if success {
            Step::ReadFile(
                ReadTurn { path: filename, origin: Origin::Gnome { attempt, requested } },
            )
        } else {
            Step::RemoveFile(
                RemoveTurn {
                    path: requested,
                    attempt,
                    outcome: Err(CaptureError::GnomeReported { area: attempt is Area }),
                },
            )
        },
    }
}

/// The step that follows a portal response, once its path is known or refused.
pub open spec fn after_portal_path(turn: PortalTurn, path: Result<String, CaptureError>) -> Step {
    match path {
        Ok(path) => Step::ReadFile(
            ReadTurn {
                path,
                origin: Origin::Portal { fallback: turn.fallback, gnome_error: turn.gnome_error },
            },
        ),
        Err(error) => after_portal(turn.fallback, turn.gnome_error, Err(error)),
    }
}

/// The step that follows the crop.
pub open spec fn after_crop(
    fallback: Fallback,
    cropped: Result<ScreenshotCapture, CropError>,
) -> Step {
    match cropped {
        Ok(capture) => Step::Done(Ok(capture)),
        Err(crop) => Step::Done(
            Err(ScreenshotError::AreaAndCrop { area: fallback.area_error, crop }),
        ),
    }
}

/// Whether `next` may follow `step` once it is told of `event`.
pub open spec fn leads_to(step: Step, event: Event, next: Step) -> bool {
    match (step, event) {
        (Step::AskGnome(turn), Event::Gnome(event)) => next == after_gnome_event(
            turn.attempt,
            event,
        ),
        (Step::ReadFile(turn), Event::Read(read)) => exists|
            outcome: Result<ScreenshotCapture, CaptureError>,
        |
            #[trigger] crate::attempt::read_outcome(
                turn.path@,
                read,
                turn.origin.source_text(),
                turn.origin.region(),
                outcome,
            ) && next == after_read(turn.origin, outcome),
        (Step::RemoveFile(turn), Event::Removed) => next == after_gnome(
            turn.attempt,
            turn.outcome,
        ),
        (Step::AskPortal(turn), Event::Portal(PortalEvent::Failed(error))) => next == after_portal(
            turn.fallback,
            turn.gnome_error,
            Err(error),
        ),
        (Step::AskPortal(turn), Event::Portal(PortalEvent::Answered { code, uri })) => exists|
            path: Result<String, CaptureError>,
        |
            #[trigger] crate::attempt::portal_path_outcome(code, uri, path) && next
                == after_portal_path(turn, path),
        (Step::Crop(turn), Event::Cropped(cropped)) => next == after_crop(turn.fallback, cropped),
        _ => false,
    }
}

/// The first step of a run.
pub open spec fn first_step(area: Option<ScreenshotArea>) -> Step {
    match area {
        None => Step::AskGnome(GnomeTurn { attempt: Attempt::Full(None) }),
        Some(area) => match area.validation() {
            Ok(_) => Step::AskGnome(GnomeTurn { attempt: Attempt::Area(area) }),
            Err(error) => after_gnome(Attempt::Area(area), Err(CaptureError::Area(error))),
        },
    }
}

impl Step {
    /// The number of steps that can still follow.
    pub open spec fn steps_left(self) -> nat {
        match self {
            Step::Done(_) => 0,
            Step::Crop(_) => 1,
            Step::ReadFile(ReadTurn { origin: Origin::Portal { .. }, .. }) => 2,
            Step::AskPortal(_) => 3,
            Step::RemoveFile(RemoveTurn { attempt: Attempt::Full(_), .. }) => 4,
            Step::ReadFile(
                ReadTurn { origin: Origin::Gnome { attempt: Attempt::Full(_), .. }, .. },
            ) => 5,
            Step::AskGnome(GnomeTurn { attempt: Attempt::Full(_) }) => 6,
            Step::RemoveFile(RemoveTurn { attempt: Attempt::Area(_), .. }) => 7,
            Step::ReadFile(
                ReadTurn { origin: Origin::Gnome { attempt: Attempt::Area(_), .. }, .. },
            ) => 8,
            Step::AskGnome(GnomeTurn { attempt: Attempt::Area(_) }) => 9,
        }
    }

    /// An area is asked for only if GNOME Shell can take it.
    pub open spec fn well_formed(self) -> bool {
        self matches Step::AskGnome(turn) ==> turn.well_formed()
    }
}

impl GnomeTurn {
    /// An area is asked for only if GNOME Shell can take it.
    pub open spec fn well_formed(self) -> bool {
        self.attempt matches Attempt::Area(area) ==> area.validation() is Ok
    }
}

fn settle_gnome(attempt: Attempt, outcome: Result<ScreenshotCapture, CaptureError>) -> (next: Step)
    ensures
        next == after_gnome(attempt, outcome),
{
    match attempt {
        Attempt::Area(area) => match outcome {
            Ok(capture) => Step::Done(Ok(capture)),
            Err(area_error) => Step::AskGnome(
                GnomeTurn { attempt: Attempt::Full(Some(Fallback { area, area_error })) },
            ),
        },
        Attempt::Full(fallback) => match outcome {
            Ok(capture) => match fallback {
                None => Step::Done(Ok(capture)),
                Some(fallback) => Step::Crop(CropTurn { capture, fallback }),
            },
            Err(gnome_error) => Step::AskPortal(PortalTurn { fallback, gnome_error }),
        },
    }
}

fn settle_portal(
    fallback: Option<Fallback>,
    gnome_error: CaptureError,
    outcome: Result<ScreenshotCapture, CaptureError>,
) -> (next: Step)
    ensures
        next == after_portal(fallback, gnome_error, outcome),
{
    match outcome {
        Ok(capture) => match fallback {
            None => Step::Done(Ok(capture)),
            Some(fallback) => Step::Crop(CropTurn { capture, fallback }),
        },
        Err(portal) => match fallback {
            None => Step::Done(Err(ScreenshotError::Full { gnome: gnome_error, portal })),
            Some(fallback) => Step::Done(
                Err(
                    ScreenshotError::AreaAndFull {
                        area: fallback.area_error,
                        gnome: gnome_error,
                        portal,
                    },
                ),
            ),
        },
    }
}

fn settle_crop(
    fallback: Fallback,
    cropped: Result<ScreenshotCapture, CropError>,
) -> (next: Step)
    ensures
        next == after_crop(fallback, cropped),
{
    match cropped {
        Ok(capture) => Step::Done(Ok(capture)),
        Err(crop) => Step::Done(
            Err(ScreenshotError::AreaAndCrop { area: fallback.area_error, crop }),
        ),
    }
}

/// Starts a run for an area, or for the full screen. An area that GNOME Shell
/// cannot take is not asked for at all.
pub fn begin(area: Option<ScreenshotArea>) -> (step: Step)
    ensures
        step == first_step(area),
        step.well_formed(),
{
    match area {
        None => Step::AskGnome(GnomeTurn { attempt: Attempt::Full(None) }),
        Some(area) => match area.validate() {
            Ok(_) => Step::AskGnome(GnomeTurn { attempt: Attempt::Area(area) }),
            Err(error) => settle_gnome(Attempt::Area(area), Err(CaptureError::Area(error))),
        },
    }
}

impl GnomeTurn {
    /// The arguments of the call for an area: its corner, width and height. `None`
    /// where the full screen is asked for.
    pub fn area_arguments(&self) -> (arguments: Option<(i32, i32, i32, i32)>)
        requires
            self.well_formed(),
        ensures
            match (self.attempt, arguments) {
                (Attempt::Area(area), Some((x, y, width, height))) => x == area.x && y == area.y
                    && width == area.width && height == area.height,
                (Attempt::Full(_), None) => true,
                _ => false,
            },
    {
        match &self.attempt {
            Attempt::Area(area) => match (area.width_i32(), area.height_i32()) {
                (Ok(width), Ok(height)) => Some((area.x, area.y, width, height)),
                _ => None,
            },
            Attempt::Full(_) => None,
        }
    }

    /// Goes on once GNOME Shell was asked.
    pub fn resume(self, event: GnomeEvent) -> (next: Step)
        ensures
            leads_to(Step::AskGnome(self), Event::Gnome(event), next),
            next.well_formed(),
            next.steps_left() < Step::AskGnome(self).steps_left(),
    {
        let area: bool = match &self.attempt {
            Attempt::Area(_) => true,
            Attempt::Full(_) => false,
        };
        match event {
            GnomeEvent::NotCalled(error) => settle_gnome(self.attempt, Err(error)),
            GnomeEvent::CallFailed { requested, cause } => Step::RemoveFile(
                RemoveTurn {
                    path: requested,
                    attempt: self.attempt,
                    outcome: Err(CaptureError::GnomeCall { area, cause }),
                },
            ),
            GnomeEvent::Answered { requested, success, filename } => if success {
                Step::ReadFile(
                    ReadTurn {
                        path: filename,
                        origin: Origin::Gnome { attempt: self.attempt, requested },
                    },
                )
            } else {
                Step::RemoveFile(
                    RemoveTurn {
                        path: requested,
                        attempt: self.attempt,
                        outcome: Err(CaptureError::GnomeReported { area }),
                    },
                )
            },
        }
    }
}

impl ReadTurn {
    /// Goes on once the file was read or could not be.
    pub fn resume(self, read: Result<Vec<u8>, String>) -> (next: Step)
        ensures
            leads_to(Step::ReadFile(self), Event::Read(read), next),
            next.well_formed(),
            next.steps_left() < Step::ReadFile(self).steps_left(),
    {
        let ghost turn = self;
        match self.origin {
            Origin::Gnome { attempt, requested } => {
                let region = match &attempt {
                    Attempt::Area(area) => Some(*area),
                    Attempt::Full(_) => None,
                };
                let outcome = capture_from_read(self.path.as_str(), read, attempt.source(), region);
                assert(crate::attempt::read_outcome(
                    turn.path@,
                    read,
                    turn.origin.source_text(),
                    turn.origin.region(),
                    outcome,
                ));
                Step::RemoveFile(RemoveTurn { path: requested, attempt, outcome })
            },
            Origin::Portal { fallback, gnome_error } => {
                let outcome = capture_from_read(
                    self.path.as_str(),
                    read,
                    "xdg-desktop-portal",
                    None,
                );
                assert(crate::attempt::read_outcome(
                    turn.path@,
                    read,
                    turn.origin.source_text(),
                    turn.origin.region(),
                    outcome,
                ));
                settle_portal(fallback, gnome_error, outcome)
            },
        }
    }
}

impl RemoveTurn {
    /// Goes on once the file was removed or could not be: that makes no difference.
    pub fn resume(self) -> (next: Step)
        ensures
            leads_to(Step::RemoveFile(self), Event::Removed, next),
            next.well_formed(),
            next.steps_left() < Step::RemoveFile(self).steps_left(),
    {
        settle_gnome(self.attempt, self.outcome)
    }
}

impl PortalTurn {
    /// Goes on once the desktop portal was asked.
    pub fn resume(self, event: PortalEvent) -> (next: Step)
        ensures
            leads_to(Step::AskPortal(self), Event::Portal(event), next),
            next.well_formed(),
            next.steps_left() < Step::AskPortal(self).steps_left(),
    {
        match event {
            PortalEvent::Failed(error) => settle_portal(
                self.fallback,
                self.gnome_error,
                Err(error),
            ),
            PortalEvent::Answered { code, uri } => {
                let outcome = portal_screenshot_path(code, uri);
                match outcome {
                    Ok(path) => Step::ReadFile(
                        ReadTurn {
                            path,
                            origin: Origin::Portal {
                                fallback: self.fallback,
                                gnome_error: self.gnome_error,
                            },
                        },
                    ),
                    Err(error) => settle_portal(self.fallback, self.gnome_error, Err(error)),
                }
            },
        }
    }
}

/// Whether `cropped` is what cropping the screenshot of `turn` to its area comes to.
pub open spec fn is_crop_of(
    turn: CropTurn,
    cropped: Result<ScreenshotCapture, CropError>,
) -> bool {
    match cropped {
        Ok(capture) => crate::capture::capture_crop(
            turn.capture@,
            turn.fallback.area,
            Ok(capture@),
        ),
        Err(error) => crate::capture::capture_crop(turn.capture@, turn.fallback.area, Err(error)),
    }
}

impl CropTurn {
    /// Goes on once the screenshot was cropped or could not be.
    pub fn resume(self, cropped: Result<ScreenshotCapture, CropError>) -> (next: Step)
        ensures
            leads_to(Step::Crop(self), Event::Cropped(cropped), next),
            next.well_formed(),
            next.steps_left() < Step::Crop(self).steps_left(),
    {
        settle_crop(self.fallback, cropped)
    }

    /// Crops the screenshot and goes on; `None` where the decoder cannot be let loose
    /// on the PNG file in it.
    pub fn crop(self) -> (next: Option<Step>)
        ensures
            next is None <==> self.fallback.area.validation() is Ok
                && !crate::capture::canvas_of_capture_fits(self.capture@),
            next matches Some(next) ==> {
                &&& next.well_formed()
                &&& next.steps_left() < Step::Crop(self).steps_left()
                &&& exists|cropped: Result<ScreenshotCapture, CropError>| #[trigger]
                    is_crop_of(self, cropped) && leads_to(
                        Step::Crop(self),
                        Event::Cropped(cropped),
                        next,
                    )
                &&& match next {
                    Step::Done(Ok(capture)) => crate::capture::capture_crop(
                        self.capture@,
                        self.fallback.area,
                        Ok(capture@),
                    ),
                    Step::Done(Err(ScreenshotError::AreaAndCrop { area, crop })) => {
                        &&& area == self.fallback.area_error
                        &&& crate::capture::capture_crop(
                            self.capture@,
                            self.fallback.area,
                            Err(crop),
                        )
                    },
                    _ => false,
                }
            },
    {
        let ghost turn = self;
        match crop_capture_if_it_fits(self.capture, self.fallback.area) {
            Some(cropped) => {
                assert(is_crop_of(turn, cropped));
                Some(settle_crop(self.fallback, cropped))
            },
            None => None,
        }
    }
}

/// A part of a run: every step but the first follows the one before it, told of the
/// event between them.
pub open spec fn is_run(steps: Seq<Step>, events: Seq<Event>) -> bool {
    &&& steps.len() == events.len() + 1
    &&& forall|i: int|
        #![trigger events[i]]
        0 <= i < events.len() ==> leads_to(steps[i], events[i], steps[i + 1])
}

/// Whether the event tells that GNOME Shell was called to write to `path`.
pub open spec fn asked_to_write(event: Event, path: String) -> bool {
    match event {
        Event::Gnome(GnomeEvent::CallFailed { requested, .. }) => requested == path,
        Event::Gnome(GnomeEvent::Answered { requested, .. }) => requested == path,
        _ => false,
    }
}

/// Whether the step removes the file at `path`.
pub open spec fn removes(step: Step, path: String) -> bool {
    step matches Step::RemoveFile(turn) && turn.path == path
}

/// A file that GNOME Shell was called to write is removed before the run ends,
/// whether the call failed, was refused or was answered, and whatever came of
/// reading the screenshot.
pub proof fn requested_files_are_removed(
    steps: Seq<Step>,
    events: Seq<Event>,
    i: int,
    path: String,
)
    requires
        is_run(steps, events),
        steps.last() is Done,
        0 <= i < events.len(),
        asked_to_write(events[i], path),
    ensures
        exists|j: int| i < j < steps.len() && removes(#[trigger] steps[j], path),
{
    assert(leads_to(steps[i], events[i], steps[i + 1]));
    if steps[i + 1] is ReadFile {
        assert(i + 1 < events.len());
        assert(leads_to(steps[i + 1], events[i + 1], steps[i + 2]));
        assert(removes(steps[i + 2], path));
    } else {
        assert(removes(steps[i + 1], path));
    }
}

/// No file is removed but one that GNOME Shell was called to write earlier in the
/// run. A file that GNOME Shell or the desktop portal chose to write is kept.
pub proof fn only_requested_files_are_removed(
    area: Option<ScreenshotArea>,
    steps: Seq<Step>,
    events: Seq<Event>,
    j: int,
    path: String,
)
    requires
        is_run(steps, events),
        steps[0] == first_step(area),
        0 <= j < steps.len(),
        removes(steps[j], path),
    ensures
        exists|i: int| 0 <= i < j && asked_to_write(#[trigger] events[i], path),
{
    assert(0 < j);
    assert(leads_to(steps[j - 1], events[j - 1], steps[j]));
    if steps[j - 1] is ReadFile {
        assert(0 < j - 1);
        assert(leads_to(steps[j - 2], events[j - 2], steps[j - 1]));
        assert(asked_to_write(events[j - 2], path));
    } else {
        assert(asked_to_write(events[j - 1], path));
    }
}

/// Once a file of the desktop portal was read, nothing is removed.
pub proof fn portal_files_are_kept(turn: ReadTurn, read: Result<Vec<u8>, String>, next: Step)
    requires
        turn.origin is Portal,
        leads_to(Step::ReadFile(turn), Event::Read(read), next),
    ensures
        !(next is RemoveFile),
{
}

proof fn lemma_earlier_steps_are_a_run(steps: Seq<Step>, events: Seq<Event>)
    requires
        is_run(steps, events),
        events.len() > 0,
    ensures
        is_run(steps.drop_last(), events.drop_last()),
{
    let earlier = steps.drop_last();
    let told = events.drop_last();
    assert forall|i: int| #![trigger told[i]] 0 <= i < told.len() implies leads_to(
        earlier[i],
        told[i],
        earlier[i + 1],
    ) by {
        assert(told[i] == events[i]);
        assert(leads_to(steps[i], events[i], steps[i + 1]));
    }
}

/// Every step leaves fewer steps to come, so that a run is over after nine steps at
/// most, and nothing follows its end.
pub proof fn runs_end(steps: Seq<Step>, events: Seq<Event>)
    requires
        is_run(steps, events),
    ensures
        events.len() + steps.last().steps_left() <= steps[0].steps_left() <= 9,
        forall|i: int| 0 <= i < events.len() ==> !(#[trigger] steps[i] is Done),
    decreases events.len(),
{
    if events.len() > 0 {
        let last = events.len() - 1;
        assert(leads_to(steps[last], events[last], steps[last + 1]));
        lemma_earlier_steps_are_a_run(steps, events);
        runs_end(steps.drop_last(), events.drop_last());
        assert forall|i: int| 0 <= i < events.len() implies !(#[trigger] steps[i] is Done) by {
            if i < last {
                assert(steps.drop_last()[i] == steps[i]);
            }
        }
    }
}

/// The desktop portal is asked only once GNOME Shell failed to take the full
/// screen, and what it failed with is kept for the answer.
pub proof fn portal_is_asked_only_after_gnome_failed(step: Step, event: Event, turn: PortalTurn)
    requires
        leads_to(step, event, Step::AskPortal(turn)),
    ensures
        match step {
            Step::AskGnome(asked) => asked.attempt == Attempt::Full(turn.fallback) && event
                == Event::Gnome(GnomeEvent::NotCalled(turn.gnome_error)),
            Step::RemoveFile(removed) => removed.attempt == Attempt::Full(turn.fallback)
                && removed.outcome == Err::<ScreenshotCapture, CaptureError>(turn.gnome_error),
            _ => false,
        },
{
}

/// A screenshot that GNOME Shell took is the answer, unless an area has to be cut
/// out of it, which comes next then.
pub proof fn gnome_screenshots_are_answered(
    turn: RemoveTurn,
    capture: ScreenshotCapture,
    next: Step,
)
    requires
        turn.outcome == Ok::<ScreenshotCapture, CaptureError>(capture),
        leads_to(Step::RemoveFile(turn), Event::Removed, next),
    ensures
        match turn.attempt {
            Attempt::Full(Some(fallback)) => next == Step::Crop(CropTurn { capture, fallback }),
            _ => next == Step::Done(Ok(capture)),
        },
{
}

/// Whether a region is the area, or the part of it that lies inside some image.
pub open spec fn shows_area(region: Option<ScreenshotArea>, area: ScreenshotArea) -> bool {
    ||| region == Some(area)
    ||| exists|width: u32, height: u32| #[trigger]
        crate::area::clipped_area(area, width, height) is Some && region
            == crate::area::clipped_area(area, width, height)
}

/// Whether GNOME Shell is asked for what serves the request.
pub open spec fn attempt_serves(attempt: Attempt, area: Option<ScreenshotArea>) -> bool {
    match attempt {
        Attempt::Area(asked) => area == Some(asked) && asked.validation() is Ok,
        Attempt::Full(fallback) => fallback_serves(fallback, area),
    }
}

/// Whether what is to be cut out of a full screenshot serves the request.
pub open spec fn fallback_serves(
    fallback: Option<Fallback>,
    area: Option<ScreenshotArea>,
) -> bool {
    match fallback {
        Some(fallback) => area == Some(fallback.area),
        None => area is None,
    }
}

/// Whether a step serves the request for `area`, or for the full screen.
pub open spec fn serves(step: Step, area: Option<ScreenshotArea>) -> bool {
    match step {
        Step::AskGnome(turn) => attempt_serves(turn.attempt, area),
        Step::ReadFile(turn) => match turn.origin {
            Origin::Gnome { attempt, .. } => attempt_serves(attempt, area),
            Origin::Portal { fallback, .. } => fallback_serves(fallback, area),
        },
        Step::RemoveFile(turn) => {
            &&& attempt_serves(turn.attempt, area)
            &&& turn.outcome matches Ok(capture) ==> capture.region == turn.attempt.region()
        },
        Step::AskPortal(turn) => fallback_serves(turn.fallback, area),
        Step::Crop(turn) => fallback_serves(Some(turn.fallback), area),
        Step::Done(Ok(capture)) => match area {
            Some(area) => area.validation() is Ok && shows_area(capture.region, area),
            None => capture.region is None,
        },
        Step::Done(Err(ScreenshotError::Full { .. })) => area is None,
        Step::Done(Err(_)) => area is Some,
    }
}

/// Whether the events of a run come from cropping what is to be cropped, where they
/// tell of a crop.
pub open spec fn crops_are_faithful(steps: Seq<Step>, events: Seq<Event>) -> bool {
    forall|i: int|
        #![trigger events[i]]
        0 <= i < events.len() ==> match (steps[i], events[i]) {
            (Step::Crop(turn), Event::Cropped(cropped)) => is_crop_of(turn, cropped),
            _ => true,
        }
}

proof fn lemma_step_serves(step: Step, event: Event, next: Step, area: Option<ScreenshotArea>)
    requires
        serves(step, area),
        leads_to(step, event, next),
        match (step, event) {
            (Step::Crop(turn), Event::Cropped(cropped)) => is_crop_of(turn, cropped),
            _ => true,
        },
    ensures
        serves(next, area),
{
    match (step, event) {
        (Step::Crop(turn), Event::Cropped(Ok(capture))) => {
            let file = choose|file: Seq<u8>| #[trigger]
                crate::capture::carries(turn.capture@.data_url, file) && {
                    &&& crate::crop::cropped_png(file, turn.fallback.area) matches Some(
                        (png, clipped),
                    )
                    &&& capture@ == crate::capture::capture_of(
                        png,
                        turn.capture@.source + "-crop"@,
                        clipped.width,
                        clipped.height,
                        Some(clipped),
                    )
                };
            let image = crate::crop::image_of_png(file)->0;
            assert(crate::area::clipped_area(turn.fallback.area, image.width, image.height)
                is Some);
            assert(capture@.region == crate::area::clipped_area(
                turn.fallback.area,
                image.width,
                image.height,
            ));
        },
        (Step::ReadFile(turn), Event::Read(read)) => {
            let outcome = choose|outcome: Result<ScreenshotCapture, CaptureError>| #[trigger]
                crate::attempt::read_outcome(
                    turn.path@,
                    read,
                    turn.origin.source_text(),
                    turn.origin.region(),
                    outcome,
                ) && next == after_read(turn.origin, outcome);
            if let Ok(capture) = outcome {
                assert(capture@.region == turn.origin.region());
            }
        },
        _ => {},
    }
}

/// A run answers what it was asked for: for a valid area, with a screenshot whose
/// region is the area or the part of it inside the full screenshot; for the full
/// screen, with one that has no region. An area that is not valid is never answered
/// with a screenshot.
pub proof fn runs_serve_their_request(
    area: Option<ScreenshotArea>,
    steps: Seq<Step>,
    events: Seq<Event>,
)
    requires
        is_run(steps, events),
        crops_are_faithful(steps, events),
        steps[0] == first_step(area),
    ensures
        serves(steps.last(), area),
    decreases events.len(),
{
    if events.len() > 0 {
        let last = events.len() - 1;
        let earlier = steps.drop_last();
        let told = events.drop_last();
        lemma_earlier_steps_are_a_run(steps, events);
        assert(crops_are_faithful(earlier, told)) by {
            assert forall|i: int| #![trigger told[i]] 0 <= i < told.len() implies match (
                earlier[i],
                told[i],
            ) {
                (Step::Crop(turn), Event::Cropped(cropped)) => is_crop_of(turn, cropped),
                _ => true,
            } by {
                assert(told[i] == events[i]);
            }
        }
        runs_serve_their_request(area, earlier, told);
        assert(leads_to(steps[last], events[last], steps[last + 1]));
        lemma_step_serves(steps[last], events[last], steps[last + 1], area);
    }
}

impl ScreenshotError {
    /// The words for two failures to take the full screen.
    pub open spec fn full_text(gnome: CaptureError, portal: CaptureError) -> Seq<char> {
        "GNOME Shell screenshot failed: "@ + gnome.text() + "; XDG portal screenshot failed: "@
            + portal.text()
    }

    /// The text of [`ScreenshotError::message`].
    pub open spec fn text(self) -> Seq<char> {
        match self {
            ScreenshotError::Full { gnome, portal } => Self::full_text(gnome, portal),
            ScreenshotError::AreaAndFull { area, .. } => "GNOME Shell area screenshot failed: "@
                + area.report_text() + "; full-screen fallback failed"@,
            ScreenshotError::AreaAndCrop { area, .. } => "GNOME Shell area screenshot failed: "@
                + area.report_text() + "; full-screen fallback could not be cropped"@,
        }
    }

    /// The words of the error below this one, if there is one.
    pub open spec fn cause_text(self) -> Option<Seq<char>> {
        match self {
            ScreenshotError::Full { .. } => None,
            ScreenshotError::AreaAndFull { gnome, portal, .. } => Some(
                Self::full_text(gnome, portal),
            ),
            ScreenshotError::AreaAndCrop { crop, .. } => Some(crop.text()),
        }
    }

    fn full_message(gnome: &CaptureError, portal: &CaptureError) -> (message: String)
        ensures
            message@ == Self::full_text(*gnome, *portal),
    {
        let mut message = "GNOME Shell screenshot failed: ".to_string();
        message.append(gnome.message().as_str());
        message.append("; XDG portal screenshot failed: ");
        message.append(portal.message().as_str());
        message
    }

    /// The error in words, without the error below it.
    pub fn message(&self) -> (message: String)
        ensures
            message@ == self.text(),
            match *self {
                ScreenshotError::Full { gnome, portal } => message@
                    == "GNOME Shell screenshot failed: "@ + gnome.text()
                    + "; XDG portal screenshot failed: "@ + portal.text(),
                ScreenshotError::AreaAndFull { area, .. } => message@
                    == "GNOME Shell area screenshot failed: "@ + area.report_text()
                    + "; full-screen fallback failed"@,
                ScreenshotError::AreaAndCrop { area, .. } => message@
                    == "GNOME Shell area screenshot failed: "@ + area.report_text()
                    + "; full-screen fallback could not be cropped"@,
            },
    {
        match self {
            ScreenshotError::Full { gnome, portal } => Self::full_message(gnome, portal),
            ScreenshotError::AreaAndFull { area, .. } => {
                let mut message = "GNOME Shell area screenshot failed: ".to_string();
                message.append(area.report().as_str());
                message.append("; full-screen fallback failed");
                message
            },
            ScreenshotError::AreaAndCrop { area, .. } => {
                let mut message = "GNOME Shell area screenshot failed: ".to_string();
                message.append(area.report().as_str());
                message.append("; full-screen fallback could not be cropped");
                message
            },
        }
    }

    /// The words of the error below this one, if there is one. A failed crop may
    /// have an error of the codec below it still.
    pub fn cause(&self) -> (cause: Option<String>)
        ensures
            match cause {
                Some(cause) => self.cause_text() == Some(cause@),
                None => self.cause_text() is None,
            },
            match (*self, cause) {
                (ScreenshotError::Full { .. }, None) => true,
                (ScreenshotError::AreaAndFull { gnome, portal, .. }, Some(cause)) => cause@
                    == "GNOME Shell screenshot failed: "@ + gnome.text()
                    + "; XDG portal screenshot failed: "@ + portal.text(),
                (ScreenshotError::AreaAndCrop { crop, .. }, Some(cause)) => cause@ == crop.text(),
                _ => false,
            },
    {
        match self {
            ScreenshotError::Full { .. } => None,
            ScreenshotError::AreaAndFull { gnome, portal, .. } => Some(
                Self::full_message(gnome, portal),
            ),
            ScreenshotError::AreaAndCrop { crop, .. } => Some(crop.message()),
        }
    }
}

/// A run for the full screen asks GNOME Shell for it. A run for an area asks GNOME
/// Shell for the area, if its size is one that can be asked for, and else for the full
/// screen, out of which the area is to be cut.
pub proof fn runs_begin_with_gnome(area: Option<ScreenshotArea>)
    ensures
        match (area, first_step(area)) {
            (None, Step::AskGnome(turn)) => turn.attempt == Attempt::Full(None),
            (Some(area), Step::AskGnome(turn)) => match turn.attempt {
                Attempt::Area(asked) => asked == area && 0 < area.width <= i32::MAX && 0
                    < area.height <= i32::MAX,
                Attempt::Full(fallback) => {
                    &&& !(0 < area.width <= i32::MAX && 0 < area.height <= i32::MAX)
                    &&& fallback matches Some(fallback) && fallback.area == area
                        && fallback.area_error is Area
                },
            },
            _ => false,
        },
{
}

/// Whenever GNOME Shell's attempt at the full screen ends in an error, whichever it is
/// and whether or not an area is to be cut out, the desktop portal is asked next, and
/// that error is kept.
pub proof fn full_screen_failures_ask_the_portal(
    fallback: Option<Fallback>,
    error: CaptureError,
    path: String,
    next: Step,
)
    requires
        leads_to(
            Step::RemoveFile(
                RemoveTurn { path, attempt: Attempt::Full(fallback), outcome: Err(error) },
            ),
            Event::Removed,
            next,
        ) || leads_to(
            Step::AskGnome(GnomeTurn { attempt: Attempt::Full(fallback) }),
            Event::Gnome(GnomeEvent::NotCalled(error)),
            next,
        ),
    ensures
        next == Step::AskPortal(PortalTurn { fallback, gnome_error: error }),
{
}

/// Whenever GNOME Shell's attempt at an area ends in an error, whichever it is, GNOME
/// Shell is asked for the full screen, and the area is to be cut out of it.
pub proof fn area_failures_ask_for_the_full_screen(
    area: ScreenshotArea,
    error: CaptureError,
    path: String,
    next: Step,
)
    requires
        leads_to(
            Step::RemoveFile(
                RemoveTurn { path, attempt: Attempt::Area(area), outcome: Err(error) },
            ),
            Event::Removed,
            next,
        ) || leads_to(
            Step::AskGnome(GnomeTurn { attempt: Attempt::Area(area) }),
            Event::Gnome(GnomeEvent::NotCalled(error)),
            next,
        ),
    ensures
        next == Step::AskGnome(
            GnomeTurn { attempt: Attempt::Full(Some(Fallback { area, area_error: error })) },
        ),
{
}

/// A call to GNOME Shell that fails, or that is answered without success, has its file
/// removed and counts as a failure of the attempt; one that is answered with success
/// has the file read that the answer names, and no other.
pub proof fn gnome_answers_decide_what_is_read(
    attempt: Attempt,
    requested: String,
    cause: String,
    filename: String,
    failed: Step,
    refused: Step,
    granted: Step,
)
    requires
        leads_to(
            Step::AskGnome(GnomeTurn { attempt }),
            Event::Gnome(GnomeEvent::CallFailed { requested, cause }),
            failed,
        ),
        leads_to(
            Step::AskGnome(GnomeTurn { attempt }),
            Event::Gnome(GnomeEvent::Answered { requested, success: false, filename }),
            refused,
        ),
        leads_to(
            Step::AskGnome(GnomeTurn { attempt }),
            Event::Gnome(GnomeEvent::Answered { requested, success: true, filename }),
            granted,
        ),
    ensures
        failed matches Step::RemoveFile(turn) && turn.path == requested && turn.attempt == attempt
            && (turn.outcome matches Err(CaptureError::GnomeCall { area, cause: words }) && words
            == cause && area == (attempt is Area)),
        refused matches Step::RemoveFile(turn) && turn.path == requested && turn.attempt == attempt
            && (turn.outcome matches Err(CaptureError::GnomeReported { area }) && area == (
        attempt is Area)),
        granted matches Step::ReadFile(turn) && turn.path == filename && (
        turn.origin matches Origin::Gnome { attempt: asked, requested: path } && asked == attempt
            && path == requested),
{
}

/// What is read of a file of GNOME Shell is what its attempt comes to, under the name
/// of that attempt, and the requested file is removed next, whatever was read.
pub proof fn files_of_gnome_are_read_and_removed(
    path: String,
    attempt: Attempt,
    requested: String,
    read: Result<Vec<u8>, String>,
    next: Step,
)
    requires
        leads_to(
            Step::ReadFile(ReadTurn { path, origin: Origin::Gnome { attempt, requested } }),
            Event::Read(read),
            next,
        ),
    ensures
        next matches Step::RemoveFile(turn) && {
            &&& turn.path == requested
            &&& turn.attempt == attempt
            &&& match attempt {
                Attempt::Area(area) => crate::attempt::read_outcome(
                    path@,
                    read,
                    "gnome-shell-area"@,
                    Some(area),
                    turn.outcome,
                ),
                Attempt::Full(_) => crate::attempt::read_outcome(
                    path@,
                    read,
                    "gnome-shell"@,
                    None,
                    turn.outcome,
                ),
            }
        },
{
}

/// What is read of a file of the desktop portal is the answer, or is cropped next where
/// an area is to be cut out; a failure ends the run with the errors of both backends.
pub proof fn files_of_the_portal_are_read_and_answered(
    path: String,
    fallback: Option<Fallback>,
    gnome_error: CaptureError,
    read: Result<Vec<u8>, String>,
    next: Step,
)
    requires
        leads_to(
            Step::ReadFile(
                ReadTurn { path, origin: Origin::Portal { fallback, gnome_error } },
            ),
            Event::Read(read),
            next,
        ),
    ensures
        exists|outcome: Result<ScreenshotCapture, CaptureError>| #[trigger]
            crate::attempt::read_outcome(path@, read, "xdg-desktop-portal"@, None, outcome)
                && match (fallback, outcome) {
                (None, Ok(capture)) => next == Step::Done(Ok(capture)),
                (Some(fallback), Ok(capture)) => next == Step::Crop(CropTurn { capture, fallback }),
                (None, Err(portal)) => next == Step::Done(
                    Err(ScreenshotError::Full { gnome: gnome_error, portal }),
                ),
                (Some(fallback), Err(portal)) => next == Step::Done(
                    Err(
                        ScreenshotError::AreaAndFull {
                            area: fallback.area_error,
                            gnome: gnome_error,
                            portal,
                        },
                    ),
                ),
            },
{
}

/// A desktop portal that fails ends the run with the errors of both backends; one whose
/// response gives a path has the file there read; one whose response gives none ends
/// the run too.
pub proof fn portal_answers_decide_what_is_read(
    fallback: Option<Fallback>,
    gnome_error: CaptureError,
    error: CaptureError,
    code: u32,
    uri: PortalUri,
    failed: Step,
    answered: Step,
)
    requires
        leads_to(
            Step::AskPortal(PortalTurn { fallback, gnome_error }),
            Event::Portal(PortalEvent::Failed(error)),
            failed,
        ),
        leads_to(
            Step::AskPortal(PortalTurn { fallback, gnome_error }),
            Event::Portal(PortalEvent::Answered { code, uri }),
            answered,
        ),
    ensures
        match fallback {
            None => failed == Step::Done(
                Err(ScreenshotError::Full { gnome: gnome_error, portal: error }),
            ),
            Some(fallback) => failed == Step::Done(
                Err(
                    ScreenshotError::AreaAndFull {
                        area: fallback.area_error,
                        gnome: gnome_error,
                        portal: error,
                    },
                ),
            ),
        },
        exists|path: Result<String, CaptureError>| #[trigger]
            crate::attempt::portal_path_outcome(code, uri, path) && match (path, fallback) {
                (Ok(path), _) => answered == Step::ReadFile(
                    ReadTurn { path, origin: Origin::Portal { fallback, gnome_error } },
                ),
                (Err(portal), None) => answered == Step::Done(
                    Err(ScreenshotError::Full { gnome: gnome_error, portal }),
                ),
                (Err(portal), Some(fallback)) => answered == Step::Done(
                    Err(
                        ScreenshotError::AreaAndFull {
                            area: fallback.area_error,
                            gnome: gnome_error,
                            portal,
                        },
                    ),
                ),
            },
        code == 0 && (uri matches PortalUri::Text { uri } && "file://"@.is_prefix_of(uri@))
            ==> answered is ReadFile,
{
    let path = choose|path: Result<String, CaptureError>| #[trigger]
        crate::attempt::portal_path_outcome(code, uri, path) && answered == after_portal_path(
            PortalTurn { fallback, gnome_error },
            path,
        );
    crate::attempt::portal_responses_give_the_path_of_their_uri(code, uri, path);
}

/// A crop is the answer; one that fails ends the run with its error and with the one
/// for which the full screen was taken.
pub proof fn crops_are_answered(
    capture: ScreenshotCapture,
    fallback: Fallback,
    cropped: Result<ScreenshotCapture, CropError>,
    next: Step,
)
    requires
        leads_to(
            Step::Crop(CropTurn { capture, fallback }),
            Event::Cropped(cropped),
            next,
        ),
    ensures
        match cropped {
            Ok(shown) => next == Step::Done(Ok(shown)),
            Err(crop) => next == Step::Done(
                Err(ScreenshotError::AreaAndCrop { area: fallback.area_error, crop }),
            ),
        },
{
}

/// A step is told of what it asked for and of nothing else, and nothing follows the end.
pub proof fn steps_are_told_of_what_they_ask_for(step: Step, event: Event, next: Step)
    requires
        leads_to(step, event, next),
    ensures
        match step {
            Step::AskGnome(_) => event is Gnome,
            Step::ReadFile(_) => event is Read,
            Step::RemoveFile(_) => event is Removed,
            Step::AskPortal(_) => event is Portal,
            Step::Crop(_) => event is Cropped,
            Step::Done(_) => false,
        },
{
}

proof fn lemma_what_ends_a_run(step: Step, event: Event, next: Step)
    requires
        leads_to(step, event, next),
        next is Done,
    ensures
        match next {
            Step::Done(Ok(capture)) => match step {
                Step::RemoveFile(turn) => turn.outcome == Ok::<ScreenshotCapture, CaptureError>(
                    capture,
                ),
                Step::ReadFile(turn) => turn.origin is Portal,
                Step::Crop(_) => true,
                _ => false,
            },
            Step::Done(Err(ScreenshotError::AreaAndCrop { .. })) => step is Crop,
            Step::Done(Err(_)) => step is AskPortal || (step matches Step::ReadFile(turn)
                && turn.origin is Portal),
            _ => false,
        },
{
}

/// A run fails to take the full screen only once the desktop portal was asked, and to
/// crop only once there was a screenshot to crop. The error that is told of GNOME Shell
/// is the one that it failed with before the portal was asked.
pub proof fn runs_fail_only_after_the_portal(
    area: Option<ScreenshotArea>,
    steps: Seq<Step>,
    events: Seq<Event>,
)
    requires
        is_run(steps, events),
        steps[0] == first_step(area),
        steps.last() matches Step::Done(Err(_)),
    ensures
        match steps.last() {
            Step::Done(Err(ScreenshotError::Full { gnome, .. })) => exists|j: int|
                0 <= j < steps.len() && #[trigger] asks_portal_after(steps[j], gnome),
            Step::Done(Err(ScreenshotError::AreaAndFull { gnome, .. })) => exists|j: int|
                0 <= j < steps.len() && #[trigger] asks_portal_after(steps[j], gnome),
            Step::Done(Err(ScreenshotError::AreaAndCrop { .. })) => exists|j: int|
                0 <= j < steps.len() && #[trigger] steps[j] is Crop,
            _ => false,
        },
{
    let last = steps.len() - 1;
    assert(0 < last);
    assert(leads_to(steps[last - 1], events[last - 1], steps[last]));
    lemma_what_ends_a_run(steps[last - 1], events[last - 1], steps[last]);
    match steps.last() {
        Step::Done(Err(ScreenshotError::AreaAndCrop { .. })) => {
            assert(steps[last - 1] is Crop);
        },
        Step::Done(Err(ScreenshotError::Full { gnome, .. }))
        | Step::Done(Err(ScreenshotError::AreaAndFull { gnome, .. })) => {
            if steps[last - 1] is AskPortal {
                assert(asks_portal_after(steps[last - 1], gnome));
            } else {
                assert(0 < last - 1);
                assert(leads_to(steps[last - 2], events[last - 2], steps[last - 1]));
                assert(asks_portal_after(steps[last - 2], gnome));
            }
        },
        _ => {},
    }
}

/// Whether the step asks the desktop portal, once GNOME Shell has failed with that error.
pub open spec fn asks_portal_after(step: Step, gnome: CaptureError) -> bool {
    step matches Step::AskPortal(turn) && turn.gnome_error == gnome
}

/// A run is answered with a screenshot only once a file was read.
pub proof fn runs_answer_with_a_file_that_was_read(
    area: Option<ScreenshotArea>,
    steps: Seq<Step>,
    events: Seq<Event>,
)
    requires
        is_run(steps, events),
        steps[0] == first_step(area),
        steps.last() matches Step::Done(Ok(_)),
    ensures
        exists|j: int| 0 <= j < steps.len() && #[trigger] steps[j] is ReadFile,
{
    let last = steps.len() - 1;
    assert(leads_to(steps[last - 1], events[last - 1], steps[last]));
    lemma_what_ends_a_run(steps[last - 1], events[last - 1], steps[last]);
    if steps[last - 1] is Crop {
        assert(leads_to(steps[last - 2], events[last - 2], steps[last - 1]));
        if steps[last - 2] is RemoveFile {
            assert(leads_to(steps[last - 3], events[last - 3], steps[last - 2]));
            assert(steps[last - 3] is ReadFile);
        } else {
            assert(steps[last - 2] is ReadFile);
        }
    } else if steps[last - 1] is RemoveFile {
        assert(leads_to(steps[last - 2], events[last - 2], steps[last - 1]));
        assert(steps[last - 2] is ReadFile);
    } else {
        assert(steps[last - 1] is ReadFile);
    }
}

/// What counts as the crop of a turn is the crop of its full screenshot to the area
/// that GNOME Shell did not take, and a failed crop fails for what stands in the
/// screenshot and the area.
pub proof fn turns_crop_their_own_screenshot(
    turn: CropTurn,
    file: Seq<u8>,
    cropped: Result<ScreenshotCapture, CropError>,
)
    requires
        is_crop_of(turn, cropped),
        turn.capture.data_url@ == "data:image/png;base64,"@ + crate::payload::base64_text(file),
    ensures
        match cropped {
            Ok(shown) => crate::crop::cropped_png(file, turn.fallback.area) matches Some(
                (png, clipped),
            ) && {
                &&& shown.data_url@ == "data:image/png;base64,"@ + crate::payload::base64_text(png)
                &&& shown.source@ == turn.capture.source@ + "-crop"@
                &&& shown.width == clipped.width
                &&& shown.height == clipped.height
                &&& shown.region == Some(clipped)
            },
            Err(error) => crate::crop::crop_fails_with(file, turn.fallback.area, error),
        },
{
    match cropped {
        Ok(shown) => {
            crate::capture::cropping_a_capture_crops_its_file(
                turn.capture@,
                file,
                turn.fallback.area,
                Ok(shown@),
            );
        },
        Err(error) => {
            crate::capture::cropping_a_capture_crops_its_file(
                turn.capture@,
                file,
                turn.fallback.area,
                Err(error),
            );
        },
    }
}

} // verus!
