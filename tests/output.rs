use gymdeck3::output::is_output_due;
use gymdeck3::{ErrorOutput, OutputWriter};

#[test]
fn test_output_writer_interval() {
    let writer = OutputWriter::new(1000);
    assert!(writer.should_output());
}

#[test]
fn output_is_paced_by_interval() {
    assert!(is_output_due(None, 1000));
    assert!(!is_output_due(Some(999), 1000));
    assert!(is_output_due(Some(1000), 1000));
    let mut writer = OutputWriter::new(60_000);
    writer.mark_output();
    assert!(!writer.should_output());
}

#[test]
fn error_record_fields() {
    let e = ErrorOutput::new("E1", "broken");
    assert_eq!(e.msg_type, "error");
    assert_eq!(e.code, "E1");
    assert_eq!(e.message, "broken");
}
