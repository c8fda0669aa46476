use linux_screenshot::area::ScreenshotArea;
use linux_screenshot::attempt::{CaptureError, PortalUri};
use linux_screenshot::capture::ScreenshotCapture;
use linux_screenshot::crop::CropError;
use linux_screenshot::flow::{
    begin, Attempt, GnomeEvent, PortalEvent, ScreenshotError, Step,
};

const AREA: ScreenshotArea = ScreenshotArea { x: 1, y: 2, width: 3, height: 4 };

/// How the outside world behaves in a run.
struct World {
    area: fn() -> GnomeEvent,
    full: fn() -> GnomeEvent,
    portal: fn() -> PortalEvent,
    files: Vec<(&'static str, Vec<u8>)>,
}

/// What a run did and answered.
struct Record {
    done: Vec<String>,
    answer: Result<ScreenshotCapture, ScreenshotError>,
}

fn run(area: Option<ScreenshotArea>, world: &World) -> Record {
    let mut done = Vec::new();
    let mut step = begin(area);
    loop {
        step = match step {
            Step::AskGnome(turn) => {
                let event = match turn.area_arguments() {
                    Some(arguments) => {
                        done.push(format!("gnome area {arguments:?}"));
                        (world.area)()
                    }
                    None => {
                        done.push("gnome full".to_string());
                        (world.full)()
                    }
                };
                turn.resume(event)
            }
            Step::ReadFile(turn) => {
                done.push(format!("read {}", turn.path));
                let file = world.files.iter().find(|(path, _)| *path == turn.path);
                let read = match file {
                    Some((_, bytes)) => Ok(bytes.clone()),
                    None => Err("no such file".to_string()),
                };
                turn.resume(read)
            }
            Step::RemoveFile(turn) => {
                done.push(format!("remove {}", turn.path));
                turn.resume()
            }
            Step::AskPortal(turn) => {
                done.push("portal".to_string());
                turn.resume((world.portal)())
            }
            Step::Crop(turn) => {
                done.push("crop".to_string());
                turn.crop().unwrap()
            }
            Step::Done(answer) => return Record { done, answer },
        };
        assert!(done.len() <= 9);
    }
}

fn answered(requested: &str, success: bool, filename: &str) -> GnomeEvent {
    GnomeEvent::Answered {
        requested: requested.to_string(),
        success,
        filename: filename.to_string(),
    }
}

fn wrote_area() -> GnomeEvent {
    answered("/tmp/area.png", true, "/tmp/area.png")
}

fn wrote_full() -> GnomeEvent {
    answered("/tmp/full.png", true, "/tmp/full.png")
}

fn wrote_elsewhere() -> GnomeEvent {
    answered("/tmp/full.png", true, "/home/user/other.png")
}

fn reported_area() -> GnomeEvent {
    answered("/tmp/area.png", false, "")
}

fn reported_full() -> GnomeEvent {
    answered("/tmp/full.png", false, "")
}

fn failed_area() -> GnomeEvent {
    GnomeEvent::CallFailed { requested: "/tmp/area.png".to_string(), cause: "denied".to_string() }
}

fn failed_full() -> GnomeEvent {
    GnomeEvent::CallFailed { requested: "/tmp/full.png".to_string(), cause: "denied".to_string() }
}

fn no_bus() -> GnomeEvent {
    GnomeEvent::NotCalled(CaptureError::SessionBus { cause: "refused".to_string() })
}

fn portal_wrote() -> PortalEvent {
    PortalEvent::Answered {
        code: 0,
        uri: PortalUri::Text { uri: "file:///home/user/shot%201.png".to_string() },
    }
}

fn portal_denied() -> PortalEvent {
    PortalEvent::Answered { code: 1, uri: PortalUri::Missing }
}

fn portal_failed() -> PortalEvent {
    PortalEvent::Failed(CaptureError::PortalCall { cause: "no portal".to_string() })
}

fn never_gnome() -> GnomeEvent {
    panic!()
}

fn never_portal() -> PortalEvent {
    panic!()
}

fn rgba_png(width: u32, height: u32) -> Vec<u8> {
    let mut file = Vec::new();
    let mut encoder = png::Encoder::new(&mut file, width, height);
    encoder.set_color(png::ColorType::Rgba);
    encoder.set_depth(png::BitDepth::Eight);
    let mut writer = encoder.write_header().unwrap();
    writer.write_image_data(&vec![128; (width * height * 4) as usize]).unwrap();
    drop(writer);
    file
}

#[test]
fn gnome_takes_the_full_screen_and_its_file_is_removed() {
    let record = run(
        None,
        &World {
            area: never_gnome,
            full: wrote_full,
            portal: never_portal,
            files: vec![("/tmp/full.png", rgba_png(2, 3))],
        },
    );
    assert_eq!(record.done, ["gnome full", "read /tmp/full.png", "remove /tmp/full.png"]);
    let capture = record.answer.unwrap();
    assert_eq!(capture.source, "gnome-shell");
    assert_eq!((capture.width, capture.height), (2, 3));
    assert_eq!(capture.region, None);
}

#[test]
fn a_file_that_gnome_chose_itself_is_read_and_kept() {
    let record = run(
        None,
        &World {
            area: never_gnome,
            full: wrote_elsewhere,
            portal: never_portal,
            files: vec![("/home/user/other.png", rgba_png(1, 1))],
        },
    );
    assert_eq!(record.done, ["gnome full", "read /home/user/other.png", "remove /tmp/full.png"]);
    assert_eq!(record.answer.unwrap().source, "gnome-shell");
}

#[test]
fn the_portal_takes_over_and_its_file_is_kept() {
    for (full, before) in [
        (failed_full as fn() -> GnomeEvent, vec!["gnome full", "remove /tmp/full.png"]),
        (reported_full, vec!["gnome full", "remove /tmp/full.png"]),
        (wrote_full, vec!["gnome full", "read /tmp/full.png", "remove /tmp/full.png"]),
        (no_bus, vec!["gnome full"]),
    ] {
        let record = run(
            None,
            &World {
                area: never_gnome,
                full,
                portal: portal_wrote,
                files: vec![("/tmp/full.png", vec![]), ("/home/user/shot 1.png", rgba_png(1, 1))],
            },
        );
        let mut expected = before;
        expected.extend(["portal", "read /home/user/shot 1.png"]);
        assert_eq!(record.done, expected);
        let capture = record.answer.unwrap();
        assert_eq!(capture.source, "xdg-desktop-portal");
        assert_eq!(capture.region, None);
    }
}

#[test]
fn an_empty_file_of_the_portal_is_refused_and_kept() {
    let record = run(
        None,
        &World {
            area: never_gnome,
            full: no_bus,
            portal: portal_wrote,
            files: vec![("/home/user/shot 1.png", vec![])],
        },
    );
    assert_eq!(record.done, ["gnome full", "portal", "read /home/user/shot 1.png"]);
    let error = record.answer.unwrap_err();
    assert!(matches!(
        error,
        ScreenshotError::Full {
            gnome: CaptureError::SessionBus { .. },
            portal: CaptureError::EmptyFile { .. },
        }
    ));
    assert_eq!(
        error.message(),
        "GNOME Shell screenshot failed: failed to connect to session bus; \
         XDG portal screenshot failed: screenshot file was empty: /home/user/shot 1.png"
    );
    assert_eq!(error.cause(), None);
}

#[test]
fn gnome_takes_the_area_alone() {
    let record = run(
        Some(AREA),
        &World {
            area: wrote_area,
            full: never_gnome,
            portal: never_portal,
            files: vec![("/tmp/area.png", rgba_png(3, 4))],
        },
    );
    assert_eq!(
        record.done,
        ["gnome area (1, 2, 3, 4)", "read /tmp/area.png", "remove /tmp/area.png"]
    );
    let capture = record.answer.unwrap();
    assert_eq!(capture.source, "gnome-shell-area");
    assert_eq!(capture.region, Some(AREA));
}

#[test]
fn an_area_is_cut_out_of_the_full_screen_of_gnome() {
    for area in [failed_area as fn() -> GnomeEvent, reported_area] {
        let record = run(
            Some(AREA),
            &World {
                area,
                full: wrote_full,
                portal: never_portal,
                files: vec![("/tmp/full.png", rgba_png(3, 9))],
            },
        );
        assert_eq!(
            record.done,
            [
                "gnome area (1, 2, 3, 4)",
                "remove /tmp/area.png",
                "gnome full",
                "read /tmp/full.png",
                "remove /tmp/full.png",
                "crop",
            ]
        );
        let capture = record.answer.unwrap();
        assert_eq!(capture.source, "gnome-shell-crop");
        assert_eq!((capture.width, capture.height), (2, 4));
        assert_eq!(capture.region, Some(ScreenshotArea { x: 1, y: 2, width: 2, height: 4 }));
    }
}

#[test]
fn the_longest_run_ends_with_a_crop_of_the_file_of_the_portal() {
    let record = run(
        Some(AREA),
        &World {
            area: wrote_area,
            full: wrote_full,
            portal: portal_wrote,
            files: vec![("/tmp/full.png", vec![0]), ("/home/user/shot 1.png", rgba_png(9, 9))],
        },
    );
    assert_eq!(
        record.done,
        [
            "gnome area (1, 2, 3, 4)",
            "read /tmp/area.png",
            "remove /tmp/area.png",
            "gnome full",
            "read /tmp/full.png",
            "remove /tmp/full.png",
            "portal",
            "read /home/user/shot 1.png",
            "crop",
        ]
    );
    let capture = record.answer.unwrap();
    assert_eq!(capture.source, "xdg-desktop-portal-crop");
    assert_eq!(capture.region, Some(AREA));
}

#[test]
fn an_area_fails_with_both_reports_when_nothing_is_taken() {
    let record = run(
        Some(AREA),
        &World { area: failed_area, full: reported_full, portal: portal_denied, files: vec![] },
    );
    let error = record.answer.unwrap_err();
    assert!(matches!(error, ScreenshotError::AreaAndFull { .. }));
    assert_eq!(
        error.message(),
        "GNOME Shell area screenshot failed: GNOME Shell ScreenshotArea call failed: denied; \
         full-screen fallback failed"
    );
    assert_eq!(
        error.cause().unwrap(),
        "GNOME Shell screenshot failed: GNOME Shell reported screenshot failure; \
         XDG portal screenshot failed: \
         XDG portal screenshot was denied or cancelled with response code 1"
    );
}

#[test]
fn an_area_outside_the_full_screen_cannot_be_cropped() {
    let record = run(
        Some(AREA),
        &World {
            area: reported_area,
            full: wrote_full,
            portal: never_portal,
            files: vec![("/tmp/full.png", rgba_png(1, 1))],
        },
    );
    let error = record.answer.unwrap_err();
    assert!(matches!(error, ScreenshotError::AreaAndCrop { crop: CropError::Outside(_), .. }));
    assert_eq!(
        error.message(),
        "GNOME Shell area screenshot failed: GNOME Shell reported ScreenshotArea failure; \
         full-screen fallback could not be cropped"
    );
    assert_eq!(
        error.cause().unwrap(),
        "screenshot area x=1, y=2, width=3, height=4 is outside full screenshot 1x1"
    );
}

#[test]
fn an_invalid_area_is_not_asked_for_and_not_answered() {
    let area = ScreenshotArea { x: 0, y: 0, width: 0, height: 1 };
    let record = run(
        Some(area),
        &World {
            area: never_gnome,
            full: wrote_full,
            portal: never_portal,
            files: vec![("/tmp/full.png", rgba_png(5, 5))],
        },
    );
    assert_eq!(
        record.done,
        ["gnome full", "read /tmp/full.png", "remove /tmp/full.png", "crop"]
    );
    let error = record.answer.unwrap_err();
    assert_eq!(
        error.message(),
        "GNOME Shell area screenshot failed: \
         screenshot area must have positive width and height, got 0x1; \
         full-screen fallback could not be cropped"
    );
    assert_eq!(
        error.cause().unwrap(),
        "screenshot area must have positive width and height, got 0x1"
    );
}

#[test]
fn failures_of_the_portal_keep_what_gnome_failed_with() {
    let record = run(
        None,
        &World { area: never_gnome, full: failed_full, portal: portal_failed, files: vec![] },
    );
    assert_eq!(record.done, ["gnome full", "remove /tmp/full.png", "portal"]);
    assert_eq!(
        record.answer.unwrap_err().message(),
        "GNOME Shell screenshot failed: GNOME Shell Screenshot call failed; \
         XDG portal screenshot failed: XDG portal Screenshot call failed"
    );
}

#[test]
fn steps_can_be_told_of_a_crop_made_elsewhere() {
    let world = World {
        area: no_bus,
        full: wrote_full,
        portal: never_portal,
        files: vec![("/tmp/full.png", rgba_png(5, 5))],
    };
    let mut step = begin(Some(AREA));
    loop {
        step = match step {
            Step::AskGnome(turn) => {
                let event = match turn.attempt {
                    Attempt::Area(_) => (world.area)(),
                    Attempt::Full(_) => (world.full)(),
                };
                turn.resume(event)
            }
            Step::ReadFile(turn) => turn.resume(Ok(world.files[0].1.clone())),
            Step::RemoveFile(turn) => turn.resume(),
            Step::Crop(turn) => turn.resume(Err(CropError::IndexedColor)),
            Step::AskPortal(_) => panic!(),
            Step::Done(answer) => {
                let error = answer.unwrap_err();
                assert_eq!(
                    error.message(),
                    "GNOME Shell area screenshot failed: \
                     failed to connect to session bus: refused; \
                     full-screen fallback could not be cropped"
                );
                assert_eq!(
                    error.cause().unwrap(),
                    "indexed screenshot PNG did not expand to RGB"
                );
                return;
            }
        };
    }
}
