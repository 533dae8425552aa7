use ult_logger::{
    actionable_transitions, can_act, check_record_line, export_file_path, fight_name,
    push_decimal, ActionableTransition, BoundaryAction, ExportError, ExportStep, Logger,
    MatchPhase, SampleLine,
};

fn sample(text: &str) -> SampleLine {
    SampleLine::new(text.to_string()).expect("a single-line JSON object")
}

fn frame_line(frame: u32, id: i32, name: &str, damage: f32) -> String {
    format!(
        "{{\"num_frames_left\":{},\"fighter_id\":{},\"fighter_name\":\"{}\",\"damage\":{}}}",
        frame, id, name, damage
    )
}

fn start_match(logger: &mut Logger) {
    assert_eq!(logger.notify_boundary(false, false), BoundaryAction::MatchStarted);
}

#[test]
fn end_to_end_match() {
    let mut logger = Logger::new();
    assert_eq!(logger.phase(), MatchPhase::Idle);
    let mut started = 0;
    for _ in 0..5 {
        if logger.notify_boundary(false, false) == BoundaryAction::MatchStarted {
            started += 1;
        }
    }
    assert_eq!(started, 1);
    assert_eq!(logger.phase(), MatchPhase::Active);
    assert_eq!(logger.buffered(), 0);

    let lines = vec![
        frame_line(28800, 0, "Mario", 0.0),
        frame_line(28799, 1, "Luigi", 12.5),
        frame_line(28798, 0, "Mario", 3.25),
    ];
    for (i, line) in lines.iter().enumerate() {
        let id = if i == 1 { 1 } else { 0 };
        let name = if id == 1 { "Luigi" } else { "Mario" };
        assert!(logger.record_frame(id, name, sample(line)));
    }
    assert_eq!(logger.buffered(), 3);
    for i in 0..3 {
        assert_eq!(logger.line(i), lines[i].as_str());
        let parsed: serde_json::Value = serde_json::from_str(logger.line(i)).unwrap();
        assert!(parsed.is_object());
    }

    assert_eq!(logger.notify_boundary(true, true), BoundaryAction::Export);
    assert_eq!(logger.phase(), MatchPhase::Flushing);
    let text = logger.buffer_text();
    assert_eq!(text, format!("{}\n{}\n{}\n", lines[0], lines[1], lines[2]));
    let written: Vec<&str> = text.lines().collect();
    assert_eq!(written, vec![lines[0].as_str(), lines[1].as_str(), lines[2].as_str()]);
    assert_eq!(
        logger.export_target("sd:/", None, 1700000000123),
        "sd:/fight-Mario-vs-Luigi-1700000000123.txt"
    );
    assert_eq!(logger.finish_export(Ok(())), ExportStep::Done);
    assert_eq!(logger.buffered(), 0);
    assert_eq!(logger.phase(), MatchPhase::Idle);
}

#[test]
fn first_names_are_latched() {
    let mut logger = Logger::new();
    start_match(&mut logger);
    assert!(logger.record_frame(0, "Mario", sample("{}")));
    assert!(logger.record_frame(1, "Luigi", sample("{}")));
    assert!(logger.record_frame(0, "Wario", sample("{}")));
    assert!(logger.record_frame(1, "Waluigi", sample("{}")));
    assert!(logger.record_frame(2, "Peach", sample("{}")));
    assert_eq!(logger.player_name(0), Some("Mario".to_string()));
    assert_eq!(logger.player_name(1), Some("Luigi".to_string()));
    assert_eq!(logger.player_name(2), None);
    assert_eq!(logger.notify_boundary(false, true), BoundaryAction::Export);
    let target = logger.export_target("sd:/", None, 5);
    assert!(target.contains("Mario-vs-Luigi"));
    assert_eq!(target, "sd:/fight-Mario-vs-Luigi-5.txt");
}

#[test]
fn names_reset_for_next_match() {
    let mut logger = Logger::new();
    start_match(&mut logger);
    logger.record_frame(0, "Mario", sample("{}"));
    logger.notify_boundary(false, true);
    assert_eq!(logger.finish_export(Ok(())), ExportStep::Done);
    start_match(&mut logger);
    assert_eq!(logger.player_name(0), None);
    logger.record_frame(0, "Kirby", sample("{}"));
    assert_eq!(logger.player_name(0), Some("Kirby".to_string()));
    assert_eq!(logger.export_target("r/", None, 0), "r/fight-Kirby-vs--0.txt");
}

#[test]
fn replay_id_names_the_export() {
    let mut logger = Logger::new();
    start_match(&mut logger);
    logger.record_frame(0, "Mario", sample("{}"));
    assert_eq!(logger.export_target("sd:/", Some("ABCD1234"), 42), "sd:/ABCD1234-42.txt");
}

#[test]
fn idle_recording_changes_nothing() {
    let mut logger = Logger::new();
    assert!(!logger.record_frame(0, "Mario", sample("{\"a\":1}")));
    assert_eq!(logger.buffered(), 0);
    assert_eq!(logger.player_name(0), None);
    // The countdown is already over: no match starts.
    assert_eq!(logger.notify_boundary(true, false), BoundaryAction::Nothing);
    assert!(!logger.record_frame(0, "Mario", sample("{\"a\":1}")));
    assert_eq!(logger.buffered(), 0);
}

#[test]
fn result_screen_while_idle_does_nothing() {
    let mut logger = Logger::new();
    for _ in 0..3 {
        assert_eq!(logger.notify_boundary(false, true), BoundaryAction::Nothing);
        assert_eq!(logger.notify_boundary(true, true), BoundaryAction::Nothing);
    }
    assert_eq!(logger.phase(), MatchPhase::Idle);
}

#[test]
fn repeated_notifications_during_match() {
    let mut logger = Logger::new();
    start_match(&mut logger);
    for _ in 0..10 {
        assert_eq!(logger.notify_boundary(false, false), BoundaryAction::Nothing);
        assert_eq!(logger.notify_boundary(true, false), BoundaryAction::Nothing);
    }
    assert_eq!(logger.phase(), MatchPhase::Active);
    assert_eq!(logger.notify_boundary(true, true), BoundaryAction::Export);
    for _ in 0..4 {
        assert_eq!(logger.notify_boundary(true, true), BoundaryAction::Nothing);
    }
    assert_eq!(logger.phase(), MatchPhase::Flushing);
    assert_eq!(logger.finish_export(Ok(())), ExportStep::Done);
    for _ in 0..4 {
        assert_eq!(logger.notify_boundary(true, true), BoundaryAction::Nothing);
    }
    assert_eq!(logger.phase(), MatchPhase::Idle);
}

#[test]
fn failed_export_retries_once_and_keeps_buffer() {
    let mut logger = Logger::new();
    start_match(&mut logger);
    logger.record_frame(0, "Mario", sample("{\"f\":1}"));
    logger.record_frame(1, "Luigi", sample("{\"f\":2}"));
    assert_eq!(logger.notify_boundary(false, true), BoundaryAction::Export);
    assert_eq!(logger.finish_export(Err(ExportError::Create)), ExportStep::Retry(ExportError::Create));
    assert_eq!(logger.phase(), MatchPhase::Flushing);
    assert_eq!(logger.buffered(), 2);
    assert_eq!(logger.finish_export(Err(ExportError::Write)), ExportStep::GaveUp(ExportError::Write));
    assert_eq!(logger.phase(), MatchPhase::Idle);
    assert_eq!(logger.buffer_text(), "{\"f\":1}\n{\"f\":2}\n");
}

#[test]
fn retry_can_succeed() {
    let mut logger = Logger::new();
    start_match(&mut logger);
    logger.record_frame(0, "Mario", sample("{}"));
    logger.notify_boundary(false, true);
    assert_eq!(logger.finish_export(Err(ExportError::Write)), ExportStep::Retry(ExportError::Write));
    assert_eq!(logger.finish_export(Ok(())), ExportStep::Done);
    assert_eq!(logger.buffered(), 0);
    assert_eq!(logger.phase(), MatchPhase::Idle);
    // A new export starts with a fresh retry.
    start_match(&mut logger);
    logger.notify_boundary(false, true);
    assert_eq!(logger.finish_export(Err(ExportError::Create)), ExportStep::Retry(ExportError::Create));
}

#[test]
fn sample_lines_are_checked() {
    assert!(SampleLine::new("{}".to_string()).is_some());
    assert!(SampleLine::new("{\"x\":1.5}".to_string()).is_some());
    assert!(SampleLine::new("{\"a\":1}\n{}".to_string()).is_none());
    assert!(SampleLine::new("{\"a\":1}\r".to_string()).is_none());
    assert!(SampleLine::new("[1]".to_string()).is_none());
    assert!(SampleLine::new("{".to_string()).is_none());
    assert!(SampleLine::new(String::new()).is_none());
    assert!(check_record_line("{\"name\":\"é\"}"));
    assert!(!check_record_line("}{"));
    assert_eq!(sample("{\"k\":2}").as_str(), "{\"k\":2}");
}

#[test]
fn decimal_text() {
    let mut s = String::from("t=");
    push_decimal(&mut s, 0);
    assert_eq!(s, "t=0");
    let mut s = String::new();
    push_decimal(&mut s, 1234567890);
    assert_eq!(s, "1234567890");
    let mut s = String::new();
    push_decimal(&mut s, u64::MAX);
    assert_eq!(s, "18446744073709551615");
}

#[test]
fn export_paths() {
    assert_eq!(fight_name("Mario", "Luigi"), "fight-Mario-vs-Luigi");
    assert_eq!(export_file_path("sd:/", "XXXXXXXX", 1000), "sd:/XXXXXXXX-1000.txt");
    assert_eq!(export_file_path("", "id", 7), "id-7.txt");
}

#[test]
fn can_act_is_an_or_of_five_queries() {
    assert!(!can_act(false, [false; 4]));
    assert!(can_act(true, [false; 4]));
    for i in 0..4 {
        let mut t = [false; 4];
        t[i] = true;
        assert!(can_act(false, t));
        assert!(can_act(true, t));
    }
    assert!(can_act(false, [true; 4]));
}

#[test]
fn actionable_transitions_are_fixed() {
    assert_eq!(
        actionable_transitions(),
        [
            ActionableTransition::ContEscapeAir,
            ActionableTransition::ContAttackAir,
            ActionableTransition::ContGuardOn,
            ActionableTransition::ContEscape,
        ]
    );
}
