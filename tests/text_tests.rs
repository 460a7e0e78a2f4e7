use h2_monitor::frame::Measurement;
use h2_monitor::text::{status_text, write_four_decimals};

fn text(h: i32) -> String {
    status_text(Measurement { hundredths: h })
}

#[test]
fn status_text_of_zero() {
    assert_eq!(text(0), "H2: 0.0000%");
}

#[test]
fn status_text_of_half_percent() {
    assert_eq!(text(50), "H2: 0.5000%");
}

#[test]
fn status_text_of_negative_value() {
    assert_eq!(text(-20), "H2: -0.2000%");
    assert_eq!(text(-5), "H2: -0.0500%");
}

#[test]
fn status_text_of_largest_reading() {
    assert_eq!(text(65515), "H2: 655.1500%");
}

#[test]
fn status_text_matches_float_formatting() {
    for raw in [0u16, 19, 20, 21, 70, 119, 120, 1000, 12345, 65535] {
        let h = raw as i32 - 20;
        let f = (raw as f32 - 20.0) / 100.0;
        assert_eq!(text(h), format!("H2: {:.4}%", f), "raw {}", raw);
    }
}

#[test]
fn four_decimals_appends() {
    let mut s = String::from("x=");
    write_four_decimals(&mut s, 1234);
    assert_eq!(s, "x=12.3400");
    let mut n = String::new();
    write_four_decimals(&mut n, i32::MIN);
    assert_eq!(n, "-21474836.4800");
}
