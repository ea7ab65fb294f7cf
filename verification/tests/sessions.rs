use wc_grab::error::CaptureError;
use wc_grab::raster::Resolution;
use wc_grab::reply::ReplyItem;
use wc_grab::session::{
    output_path, start, step, Action, Event, Method, Request, Stage, DEFAULT_OUTPUT, INTERFACE,
    OBJECT_PATH, SERVICE, WAIT_TIME,
};

fn text(s: &str) -> ReplyItem {
    ReplyItem::Str(s.to_string())
}

fn record(width: u32, height: u32) -> ReplyItem {
    ReplyItem::Struct(vec![ReplyItem::UInt32(width), ReplyItem::UInt32(height)])
}

fn call(method: Method) -> Action {
    Action::Invoke(Request { method, argument: None })
}

fn all_events() -> Vec<Event> {
    vec![
        Event::Connected,
        Event::ConnectFailed,
        Event::CallNotBuilt,
        Event::CallFailed,
        Event::Reply(vec![text("eDP-1")]),
        Event::Reply(vec![record(1, 1)]),
        Event::Reply(vec![ReplyItem::Bytes(vec![1, 2, 3, 4])]),
        Event::FileNotCreated,
        Event::FileNotWritten,
        Event::Saved,
    ]
}

#[test]
fn screen_is_found_where_way_cooler_serves_it() {
    assert_eq!(SERVICE, "org.way-cooler");
    assert_eq!(OBJECT_PATH, "/org/way_cooler/Screen");
    assert_eq!(INTERFACE, "org.way_cooler.Screen");
    assert_eq!(WAIT_TIME, 2000);
    assert_eq!(Method::ActiveScreen.name(), "ActiveScreen");
    assert_eq!(Method::Resolution.name(), "Resolution");
    assert_eq!(Method::Scrape.name(), "Scrape");
}

#[test]
fn output_file_defaults_to_screenshot_png() {
    assert_eq!(DEFAULT_OUTPUT, "screenshot.png");
    assert_eq!(output_path(None), "screenshot.png");
    assert_eq!(output_path(Some("shot.png".to_string())), "shot.png");
    assert_eq!(output_path(Some(String::new())), "");
}

#[test]
fn version_flag_prints_and_calls_nothing() {
    let (stage, action) = start(true);
    assert_eq!(stage, Stage::Done);
    assert_eq!(action, Action::ShowVersion);
    assert_eq!(action.exit_code(), Some(0));
    let mut stage = stage;
    for event in all_events() {
        let (then, action) = step(stage, event);
        assert_eq!(action, Action::Nothing);
        assert_eq!(then, Stage::Done);
        stage = then;
    }
}

#[test]
fn capture_begins_with_the_connection() {
    assert_eq!(start(false), (Stage::Connecting, Action::Connect));
    assert_eq!(Action::Connect.exit_code(), None);
}

#[test]
fn missing_bus_ends_the_capture() {
    let (stage, action) = step(Stage::Connecting, Event::ConnectFailed);
    assert_eq!(stage, Stage::Done);
    assert_eq!(action, Action::Abort(CaptureError::Connect));
    assert_eq!(action.exit_code(), Some(1));
    for event in all_events() {
        assert_eq!(step(stage, event), (Stage::Done, Action::Nothing));
    }
}

#[test]
fn missing_service_ends_the_capture() {
    let (stage, action) = step(Stage::Connecting, Event::Connected);
    assert_eq!(stage, Stage::AwaitingOutput);
    assert_eq!(action, call(Method::ActiveScreen));
    let (stage, action) = step(stage, Event::CallFailed);
    assert_eq!(stage, Stage::Done);
    assert_eq!(action, Action::Abort(CaptureError::SendCall));
    assert_ne!(action.exit_code(), Some(0));
    assert_eq!(action.exit_code(), Some(1));
    for event in all_events() {
        assert_eq!(step(stage, event), (Stage::Done, Action::Nothing));
    }
}

#[test]
fn call_that_cannot_be_built_ends_the_capture() {
    for stage in [
        Stage::AwaitingOutput,
        Stage::AwaitingResolution,
        Stage::AwaitingFrame(Resolution { width: 1, height: 1 }),
    ] {
        assert_eq!(
            step(stage, Event::CallNotBuilt),
            (Stage::Done, Action::Abort(CaptureError::BuildCall))
        );
        assert_eq!(
            step(stage, Event::CallFailed),
            (Stage::Done, Action::Abort(CaptureError::SendCall))
        );
    }
}

#[test]
fn output_name_is_passed_to_the_resolution_call() {
    assert_eq!(
        step(Stage::AwaitingOutput, Event::Reply(vec![text("eDP-1")])),
        (
            Stage::AwaitingResolution,
            Action::Invoke(Request {
                method: Method::Resolution,
                argument: Some("eDP-1".to_string()),
            })
        )
    );
}

#[test]
fn first_of_a_list_of_outputs_is_passed_on() {
    let reply = vec![ReplyItem::Array(vec![text("HDMI-A-1"), text("eDP-1")])];
    assert_eq!(
        step(Stage::AwaitingOutput, Event::Reply(reply)),
        (
            Stage::AwaitingResolution,
            Action::Invoke(Request {
                method: Method::Resolution,
                argument: Some("HDMI-A-1".to_string()),
            })
        )
    );
}

#[test]
fn output_that_is_no_string_ends_the_capture() {
    assert_eq!(
        step(Stage::AwaitingOutput, Event::Reply(vec![ReplyItem::UInt32(0)])),
        (Stage::Done, Action::Abort(CaptureError::WrongOutputType))
    );
    assert_eq!(
        step(Stage::AwaitingOutput, Event::Reply(vec![])),
        (Stage::Done, Action::Abort(CaptureError::UnexpectedReply))
    );
}

#[test]
fn resolution_is_kept_for_the_frame() {
    assert_eq!(
        step(Stage::AwaitingResolution, Event::Reply(vec![record(1920, 1080)])),
        (
            Stage::AwaitingFrame(Resolution { width: 1920, height: 1080 }),
            call(Method::Scrape)
        )
    );
}

#[test]
fn malformed_resolution_ends_the_capture() {
    assert_eq!(
        step(Stage::AwaitingResolution, Event::Reply(vec![text("1920x1080")])),
        (Stage::Done, Action::Abort(CaptureError::NoResolution))
    );
    assert_eq!(
        step(Stage::AwaitingResolution, Event::Reply(vec![record(0, 1080)])),
        (Stage::Done, Action::Abort(CaptureError::UnexpectedReply))
    );
    assert_eq!(
        step(Stage::AwaitingResolution, Event::Reply(vec![record(1920, 0)])),
        (Stage::Done, Action::Abort(CaptureError::UnexpectedReply))
    );
}

#[test]
fn frame_is_rotated_flipped_and_handed_out() {
    // Two rows of one pixel each, in the compositor's byte order.
    let raw = vec![1, 2, 3, 4, 5, 6, 7, 8];
    let stage = Stage::AwaitingFrame(Resolution { width: 1, height: 2 });
    let (stage, action) = step(stage, Event::Reply(vec![ReplyItem::Bytes(raw)]));
    assert_eq!(stage, Stage::Saving);
    assert_eq!(action.exit_code(), None);
    let file = match action {
        Action::Save(file) => file,
        other => panic!("expected a file, got {:?}", other),
    };
    let read = image::load_from_memory(&file).unwrap();
    assert_eq!((read.width(), read.height()), (1, 2));
    assert_eq!(read.into_rgba8().into_raw(), vec![8, 5, 6, 7, 4, 1, 2, 3]);
}

#[test]
fn frame_that_does_not_fill_the_screen_ends_the_capture() {
    let stage = Stage::AwaitingFrame(Resolution { width: 2, height: 2 });
    for len in [0usize, 4, 15, 17, 64] {
        assert_eq!(
            step(stage, Event::Reply(vec![ReplyItem::Bytes(vec![0; len])])),
            (Stage::Done, Action::Abort(CaptureError::EncodeImage))
        );
    }
}

#[test]
fn frame_of_another_type_ends_the_capture() {
    let stage = Stage::AwaitingFrame(Resolution { width: 1, height: 1 });
    assert_eq!(
        step(stage, Event::Reply(vec![text("pixels")])),
        (Stage::Done, Action::Abort(CaptureError::UnexpectedReply))
    );
    assert_eq!(
        step(stage, Event::Reply(vec![])),
        (Stage::Done, Action::Abort(CaptureError::UnexpectedReply))
    );
}

#[test]
fn saved_file_ends_the_capture_with_success() {
    let (stage, action) = step(Stage::Saving, Event::Saved);
    assert_eq!((stage, action.clone()), (Stage::Done, Action::Finish));
    assert_eq!(action.exit_code(), Some(0));
}

#[test]
fn file_that_cannot_be_written_ends_the_capture() {
    assert_eq!(
        step(Stage::Saving, Event::FileNotCreated),
        (Stage::Done, Action::Abort(CaptureError::CreateFile))
    );
    assert_eq!(
        step(Stage::Saving, Event::FileNotWritten),
        (Stage::Done, Action::Abort(CaptureError::SaveImage))
    );
}

#[test]
fn event_out_of_turn_changes_nothing() {
    assert_eq!(
        step(Stage::Connecting, Event::Saved),
        (Stage::Connecting, Action::Nothing)
    );
    assert_eq!(
        step(Stage::Connecting, Event::Reply(vec![text("eDP-1")])),
        (Stage::Connecting, Action::Nothing)
    );
    assert_eq!(
        step(Stage::AwaitingOutput, Event::Connected),
        (Stage::AwaitingOutput, Action::Nothing)
    );
    assert_eq!(
        step(Stage::AwaitingResolution, Event::FileNotCreated),
        (Stage::AwaitingResolution, Action::Nothing)
    );
    assert_eq!(
        step(Stage::Saving, Event::CallFailed),
        (Stage::Saving, Action::Nothing)
    );
    assert_eq!(
        step(Stage::Saving, Event::Reply(vec![ReplyItem::Bytes(vec![0; 4])])),
        (Stage::Saving, Action::Nothing)
    );
    assert_eq!(Action::Nothing.exit_code(), None);
}

#[test]
fn file_is_handed_out_only_for_a_frame() {
    let stages = [
        Stage::Connecting,
        Stage::AwaitingOutput,
        Stage::AwaitingResolution,
        Stage::Saving,
        Stage::Done,
    ];
    for stage in stages {
        for event in all_events() {
            let (_, action) = step(stage, event);
            assert!(!matches!(action, Action::Save(_)));
        }
    }
}

#[test]
fn full_hd_capture_from_edp_1() {
    let (stage, action) = start(false);
    assert_eq!(action, Action::Connect);

    let (stage, action) = step(stage, Event::Connected);
    assert_eq!(action, call(Method::ActiveScreen));

    let (stage, action) = step(stage, Event::Reply(vec![text("eDP-1")]));
    assert_eq!(
        action,
        Action::Invoke(Request {
            method: Method::Resolution,
            argument: Some("eDP-1".to_string()),
        })
    );

    let (stage, action) = step(stage, Event::Reply(vec![record(1920, 1080)]));
    assert_eq!(stage, Stage::AwaitingFrame(Resolution { width: 1920, height: 1080 }));
    assert_eq!(action, call(Method::Scrape));

    let mut raw = Vec::with_capacity(1920 * 1080 * 4);
    for _ in 0..1920 * 1080 {
        raw.extend_from_slice(&[0x10, 0x20, 0x30, 0x40]);
    }
    let (stage, action) = step(stage, Event::Reply(vec![ReplyItem::Bytes(raw)]));
    assert_eq!(stage, Stage::Saving);
    let file = match action {
        Action::Save(file) => file,
        other => panic!("expected a file, got {:?}", other),
    };

    let read = image::load_from_memory(&file).unwrap();
    assert_eq!(read.color(), image::ColorType::Rgba8);
    assert_eq!((read.width(), read.height()), (1920, 1080));
    let pixels = read.into_rgba8().into_raw();
    assert_eq!(pixels.len(), 1920 * 1080 * 4);
    assert!(pixels.chunks(4).all(|pixel| pixel == [0x40, 0x10, 0x20, 0x30]));

    let (stage, action) = step(stage, Event::Saved);
    assert_eq!(stage, Stage::Done);
    assert_eq!(action, Action::Finish);
    assert_eq!(action.exit_code(), Some(0));
}

#[test]
fn rows_of_a_capture_come_out_in_reverse() {
    // Four columns, three rows; row `r` holds the pixel (r, 0, 0, 255) as
    // the compositor sends it: rotated one byte to the left.
    let mut raw = Vec::new();
    for row in 0..3u8 {
        for _ in 0..4 {
            raw.extend_from_slice(&[0, 0, 255, row]);
        }
    }
    let stage = Stage::AwaitingFrame(Resolution { width: 4, height: 3 });
    let (_, action) = step(stage, Event::Reply(vec![ReplyItem::Bytes(raw)]));
    let file = match action {
        Action::Save(file) => file,
        other => panic!("expected a file, got {:?}", other),
    };
    let pixels = image::load_from_memory(&file).unwrap().into_rgba8().into_raw();
    for (row, bytes) in pixels.chunks(16).enumerate() {
        for pixel in bytes.chunks(4) {
            assert_eq!(pixel, [2 - row as u8, 0, 0, 255]);
        }
    }
}

#[test]
fn list_that_holds_a_number_ends_the_capture() {
    let reply = vec![ReplyItem::Array(vec![text("eDP-1"), ReplyItem::UInt32(7)])];
    let (stage, action) = step(Stage::AwaitingOutput, Event::Reply(reply));
    assert_eq!(stage, Stage::Done);
    assert_eq!(action, Action::Abort(CaptureError::WrongOutputType));
    assert_eq!(action.exit_code(), Some(1));
    for event in all_events() {
        assert_eq!(step(stage, event), (Stage::Done, Action::Nothing));
    }
}
