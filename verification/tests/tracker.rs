use layertuber::tracker::{
    instruction_for, ControlMessage, FloatSource, LineReader, LineStep, QuatSource, TrackerInstruction,
    TrackerOptions, TrackingReport, Vec2Source, NEWLINE,
};

fn report() -> TrackingReport<f32> {
    TrackingReport {
        blink: 0.5,
        blink_left: 0.25,
        blink_right: 0.75,
        eyebrow_quirk: 1.0,
        eyebrow_quirk_left: 1.5,
        eyebrow_quirk_right: 2.0,
        eyebrow_steepness: 2.5,
        eyebrow_steepness_left: 3.0,
        eyebrow_steepness_right: 3.5,
        eyebrow_updown: 4.0,
        eyebrow_updown_left: 4.5,
        eyebrow_updown_right: 5.0,
        mouth_open: 5.5,
        mouth_wide: 6.0,
        head_rotation: [0.1, 0.2, 0.3, 0.9],
        face_position: [10.0, 11.0],
        left_gaze: [12.0, 13.0],
        right_gaze: [14.0, 15.0],
        gaze: [16.0, 17.0],
    }
}

#[test]
fn float_sources_read_their_fields() {
    let r = report();
    let expected = [
        (FloatSource::Blink, 0.5),
        (FloatSource::BlinkLeft, 0.25),
        (FloatSource::BlinkRight, 0.75),
        (FloatSource::EyebrowQuirk, 1.0),
        (FloatSource::EyebrowQuirkLeft, 1.5),
        (FloatSource::EyebrowQuirkRight, 2.0),
        (FloatSource::EyebrowSteepness, 2.5),
        (FloatSource::EyebrowSteepnessLeft, 3.0),
        (FloatSource::EyebrowSteepnessRight, 3.5),
        (FloatSource::EyebrowUpdown, 4.0),
        (FloatSource::EyebrowUpdownLeft, 4.5),
        (FloatSource::EyebrowUpdownRight, 5.0),
        (FloatSource::MouthOpen, 5.5),
        (FloatSource::MouthWide, 6.0),
    ];
    for (source, value) in expected {
        assert_eq!(source.select(&r), value);
    }
}

#[test]
fn vector_sources_read_their_fields() {
    let r = report();
    assert_eq!(QuatSource::HeadRotation.select(&r), [0.1, 0.2, 0.3, 0.9]);
    assert_eq!(Vec2Source::FacePosition.select(&r), [10.0, 11.0]);
    assert_eq!(Vec2Source::LeftGaze.select(&r), [12.0, 13.0]);
    assert_eq!(Vec2Source::RightGaze.select(&r), [14.0, 15.0]);
    assert_eq!(Vec2Source::Gaze.select(&r), [16.0, 17.0]);
}

#[test]
fn tracker_arguments_name_camera_and_features() {
    assert_eq!(TrackerOptions::new(0, false).arguments(), vec!["--camera=0".to_string()]);
    assert_eq!(TrackerOptions::new(7, false).arguments(), vec!["--camera=7".to_string()]);
    assert_eq!(
        TrackerOptions::new(42, true).arguments(),
        vec!["--camera=42".to_string(), "--show-features".to_string()]
    );
    assert_eq!(TrackerOptions::new(100, false).arguments(), vec!["--camera=100".to_string()]);
    assert_eq!(TrackerOptions::new(255, true).arguments()[0], "--camera=255");
}

#[test]
fn camera_argument_is_decimal_for_every_index() {
    for i in 0..=255u8 {
        assert_eq!(TrackerOptions::new(i, false).arguments()[0], format!("--camera={}", i));
    }
}

#[test]
fn calibrate_writes_command_and_die_stops() {
    assert_eq!(
        instruction_for(ControlMessage::Calibrate),
        TrackerInstruction::Write("calibrate\n".to_string())
    );
    assert_eq!(instruction_for(ControlMessage::Die), TrackerInstruction::Stop);
}

#[test]
fn line_reader_assembles_lines() {
    let mut reader = LineReader::new();
    let mut steps = Vec::new();
    for b in b"{\"blink\": 1}\n\nab\n" {
        steps.push(reader.accept(*b));
    }
    let completed: Vec<&LineStep> = steps.iter().filter(|s| **s != LineStep::Continue).collect();
    assert_eq!(
        completed,
        vec![&LineStep::Line("{\"blink\": 1}".to_string()), &LineStep::Empty, &LineStep::Line("ab".to_string())]
    );
    assert_eq!(steps.len(), 17);
}

#[test]
fn line_reader_maps_each_byte_to_one_character() {
    let mut reader = LineReader::new();
    assert_eq!(reader.accept(0xe9), LineStep::Continue);
    assert_eq!(reader.accept(b'x'), LineStep::Continue);
    assert_eq!(reader.accept(NEWLINE), LineStep::Line("\u{e9}x".to_string()));
    assert_eq!(reader.accept(NEWLINE), LineStep::Empty);
}
