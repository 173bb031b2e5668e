use rustiegb::audio::apu::Apu;
use rustiegb::debug::{DebugReason, Debuggable, OutputDebug};

#[test]
fn output_debug_starts_empty() {
    let output = OutputDebug::new_with_reason(DebugReason::PC(0x0150));
    assert_eq!(output.debug_reason, DebugReason::PC(0x0150));
    assert!(output.situations.is_empty());
    assert!(output.values.is_empty());
}

#[test]
fn output_debug_gathers_rows_by_name() {
    let mut output = OutputDebug::new_with_reason(DebugReason::IOWrite(0xFF26, 0x80));
    output.push_situation("before", vec![("NR52", "F1".to_string()), ("NR50", "77".to_string())]);
    output.push_situation("after", vec![("NR52", "F0".to_string()), ("NR51", "00".to_string())]);

    assert_eq!(output.situations, vec!["before".to_string(), "after".to_string()]);
    assert_eq!(output.values.len(), 3);

    let nr52 = output.values.iter().find(|row| row.header == "NR52").unwrap();
    assert_eq!(
        nr52.cells,
        vec![
            ("before".to_string(), "F1".to_string()),
            ("after".to_string(), "F0".to_string())
        ]
    );
    let nr51 = output.values.iter().find(|row| row.header == "NR51").unwrap();
    assert_eq!(nr51.cells, vec![("after".to_string(), "00".to_string())]);
}

#[test]
fn apu_shows_no_debug_values() {
    let apu = Apu::default();
    assert!(apu.get_debug_values().is_empty());
}
