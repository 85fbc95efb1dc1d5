use resume_generator::config::FormatConfig;

#[test]
fn test_format_config_defaults() {
    let c = FormatConfig::default();
    assert_eq!(c.text_config.width, 100);
    assert_eq!(c.pdf_config.margin, "0.75in");
    assert_eq!(c.markdown_config.width, 120);
}
