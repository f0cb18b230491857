use tauri_mcp::script::{render_script, RETRIEVE_SCRIPT};
use tauri_mcp::text::{decimal, signed_decimal};

#[test]
fn decimal_text_of_numbers() {
    assert_eq!(decimal(0), "0");
    assert_eq!(decimal(7), "7");
    assert_eq!(decimal(10), "10");
    assert_eq!(decimal(1920), "1920");
    assert_eq!(decimal(4294967295), "4294967295");
    assert_eq!(decimal(u64::MAX), "18446744073709551615");
    for n in [1u64, 9, 11, 99, 100, 101, 65535, 1_000_000_007] {
        assert_eq!(decimal(n), n.to_string());
    }
}

#[test]
fn script_names_width_and_quality() {
    let script = render_script(1920, 85);
    assert!(script.contains("const viewportWidth = Math.min(window.innerWidth, 1920);"));
    assert_eq!(script.matches("canvas.toDataURL('image/jpeg', 0.85);").count(), 2);
    assert!(script.starts_with("\n        window.__tauriScreenshotData = null;"));
    assert!(script.contains("if (typeof html2canvas !== 'undefined') {"));
    assert!(!script.contains("{{"));
    assert!(script.trim_end().ends_with("})();"));
}

#[test]
fn quality_is_written_as_the_shortest_fraction() {
    for q in 0..=100u8 {
        let fraction = format!("{}", q as f64 / 100.0);
        let script = render_script(800, q);
        let expected = format!("canvas.toDataURL('image/jpeg', {});", fraction);
        assert_eq!(script.matches(expected.as_str()).count(), 2, "quality {}", q);
    }
    assert!(render_script(800, 100).contains("toDataURL('image/jpeg', 1);"));
    assert!(render_script(800, 0).contains("toDataURL('image/jpeg', 0);"));
    assert!(render_script(800, 5).contains("toDataURL('image/jpeg', 0.05);"));
    assert!(render_script(800, 50).contains("toDataURL('image/jpeg', 0.5);"));
}

#[test]
fn width_is_written_in_decimal() {
    for w in [0u32, 1, 800, 1920, u32::MAX] {
        let script = render_script(w, 85);
        let expected = format!("Math.min(window.innerWidth, {});", w);
        assert!(script.contains(expected.as_str()), "width {}", w);
    }
}

#[test]
fn retrieve_script_reads_the_stored_value() {
    assert_eq!(RETRIEVE_SCRIPT, "window.__tauriScreenshotData");
}

#[test]
fn signed_decimal_text_of_numbers() {
    assert_eq!(signed_decimal(0), "0");
    assert_eq!(signed_decimal(-1), "-1");
    assert_eq!(signed_decimal(1), "1");
    for n in [7i128, -7, 10, -10, 99, -100, 1 << 64, -(1 << 64), i128::MAX, i128::MIN] {
        assert_eq!(signed_decimal(n), n.to_string());
    }
}
