use h2_monitor::frame::{Frame, FrameId, Measurement};
use h2_monitor::monitor::{Action, Monitor, ReceiveOutcome};

fn frame(raw: u16, data: &[u8]) -> ReceiveOutcome {
    ReceiveOutcome::Frame(Frame::new(FrameId::Standard(raw), data.to_vec()).unwrap())
}

fn renders(mon: &mut Monitor, outcomes: Vec<ReceiveOutcome>) -> Vec<String> {
    let mut texts = Vec::new();
    for o in outcomes {
        if let Action::Render { text, .. } = mon.step(o) {
            texts.push(text);
        }
    }
    texts
}

#[test]
fn duplicate_frame_renders_twice_only_on_change() {
    let mut mon = Monitor::new();
    let texts = renders(
        &mut mon,
        vec![frame(0x300, &[0x00, 0x14]), frame(0x300, &[0x00, 0x14]), frame(0x300, &[0x00, 0x46])],
    );
    assert_eq!(texts, vec!["H2: 0.0000%".to_string(), "H2: 0.5000%".to_string()]);
    assert_eq!(mon.tracker.last(), Some(Measurement { hundredths: 50 }));
}

#[test]
fn id_0x301_never_renders() {
    let mut mon = Monitor::new();
    for data in [&[][..], &[0x00][..], &[0x00, 0x14][..], &[0x00, 0x46, 1, 2, 3, 4, 5, 6][..]] {
        assert!(matches!(mon.step(frame(0x301, data)), Action::Idle));
    }
    assert_eq!(mon.tracker.last(), None);
}

#[test]
fn bus_error_keeps_state_and_renders_nothing() {
    let mut mon = Monitor::new();
    assert!(matches!(mon.step(frame(0x308, &[0x00, 0x46])), Action::Render { .. }));
    assert!(matches!(mon.step(ReceiveOutcome::BusError), Action::ReportBusError));
    assert_eq!(mon.tracker.last(), Some(Measurement { hundredths: 50 }));
    assert!(matches!(mon.step(frame(0x308, &[0x00, 0x46])), Action::Idle));
}

#[test]
fn no_frame_is_idle() {
    let mut mon = Monitor::new();
    assert!(matches!(mon.step(ReceiveOutcome::NoFrameAvailable), Action::Idle));
    assert_eq!(mon.tracker.last(), None);
}

#[test]
fn extended_frame_is_ignored() {
    let mut mon = Monitor::new();
    let f = Frame::new(FrameId::Extended(0x300), vec![0x00, 0x46]).unwrap();
    assert!(matches!(mon.step(ReceiveOutcome::Frame(f)), Action::Idle));
}

#[test]
fn short_payload_is_ignored() {
    let mut mon = Monitor::new();
    assert!(matches!(mon.step(frame(0x300, &[0x46])), Action::Idle));
    assert_eq!(mon.tracker.last(), None);
}

#[test]
fn render_action_carries_measurement() {
    let mut mon = Monitor::new();
    match mon.step(frame(0x358, &[0x00, 0x00])) {
        Action::Render { measurement, text } => {
            assert_eq!(measurement.hundredths(), -20);
            assert_eq!(text, "H2: -0.2000%");
        }
        other => panic!("unexpected {:?}", other),
    }
}

#[test]
fn started_text_is_fixed() {
    assert_eq!(Monitor::started_text(), "Started TWAI");
}
