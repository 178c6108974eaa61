use ultrafast_mcp_sequential_thinking::export::ExportConfig;
use ultrafast_mcp_sequential_thinking::export::ExportEngine;
use ultrafast_mcp_sequential_thinking::export::ExportFormat;
use ultrafast_mcp_sequential_thinking::export::ExportOptions;
use ultrafast_mcp_sequential_thinking::export::ExportRecord;
use ultrafast_mcp_sequential_thinking::time::Timestamp;

#[test]
fn test_export_engine_creation() {
    let engine = ExportEngine::new();
    assert_eq!(engine.config().formats.len(), 3);
    assert!(!engine.config().auto_export);
}

#[test]
fn test_export_format_extension() {
    assert_eq!(ExportFormat::Json.extension(), "json");
    assert_eq!(ExportFormat::Markdown.extension(), "md");
    assert_eq!(ExportFormat::Pdf.extension(), "pdf");
}

#[test]
fn test_export_format_from_str() {
    assert_eq!("json".parse::<ExportFormat>().unwrap(), ExportFormat::Json);
    assert_eq!("markdown".parse::<ExportFormat>().unwrap(), ExportFormat::Markdown);
    assert_eq!("md".parse::<ExportFormat>().unwrap(), ExportFormat::Markdown);
    assert!("unknown".parse::<ExportFormat>().is_err());
}

#[test]
fn every_format_has_its_names() {
    let all = [
        (ExportFormat::Json, "json", "application/json", "JSON"),
        (ExportFormat::Markdown, "md", "text/markdown", "Markdown"),
        (ExportFormat::Pdf, "pdf", "application/pdf", "PDF"),
        (ExportFormat::Html, "html", "text/html", "HTML"),
        (ExportFormat::Csv, "csv", "text/csv", "CSV"),
        (ExportFormat::Yaml, "yml", "application/x-yaml", "YAML"),
        (ExportFormat::Toml, "toml", "application/toml", "TOML"),
    ];
    for (format, extension, mime, name) in all {
        assert_eq!(format.extension(), extension);
        assert_eq!(format.mime_type(), mime);
        assert_eq!(format.to_string(), name);
        assert_eq!(ExportFormat::parse(extension), Ok(format));
        assert_eq!(ExportFormat::parse(name), Ok(format));
        assert_eq!(ExportFormat::from_lowercase(extension), Some(format));
    }
    assert_eq!(ExportFormat::parse("YAML"), Ok(ExportFormat::Yaml));
    assert_eq!(ExportFormat::parse("MarkDown"), Ok(ExportFormat::Markdown));
    assert_eq!(ExportFormat::from_lowercase("JSON"), None);
    assert_eq!(ExportFormat::parse("Docx"), Err("Unknown export format: Docx".to_string()));
    assert_eq!(ExportFormat::parse(""), Err("Unknown export format: ".to_string()));
    assert_eq!(ExportFormat::parse(" json"), Err("Unknown export format:  json".to_string()));
}

#[test]
fn default_options_and_settings() {
    let options = ExportOptions::default();
    assert_eq!(options.format, ExportFormat::Json);
    assert!(options.include_metadata && options.include_statistics);
    assert!(!options.include_analytics);
    assert!(options.include_progress && options.include_branches && options.include_timestamps);
    assert!(options.pretty_print);
    assert_eq!(options.custom_styling, None);
    assert_eq!(options.template, None);
    let copy = options.clone();
    assert_eq!(copy.format, ExportFormat::Json);
    let config = ExportConfig::default();
    assert_eq!(config.formats, vec!["json".to_string(), "markdown".to_string(), "pdf".to_string()]);
    assert_eq!(config.export_directory, "./exports");
    assert_eq!(config.filename_template, "session_{session_id}_{timestamp}");
    assert!(config.include_metadata && config.include_statistics);
    assert!(!config.include_analytics && !config.compression && !config.encryption);
}

#[test]
fn templates_and_history() {
    let mut engine = ExportEngine::with_config(ExportConfig { auto_export: true, ..Default::default() });
    assert!(engine.config().auto_export);
    assert_eq!(engine.get_template("t"), None);
    engine.add_template("t".to_string(), "one".to_string());
    engine.add_template("u".to_string(), "two".to_string());
    engine.add_template("t".to_string(), "three".to_string());
    assert_eq!(engine.get_template("t"), Some(&"three".to_string()));
    assert_eq!(engine.get_template("u"), Some(&"two".to_string()));
    assert_eq!(engine.get_template("v"), None);
    assert!(engine.get_export_history().is_empty());
    engine.record_export(ExportRecord {
        session_id: "s".to_string(),
        format: ExportFormat::Csv,
        exported_at: Timestamp::new(5, 0),
        file_path: Some("./exports/s.csv".to_string()),
        file_size: Some(12),
        success: true,
        error_message: None,
    });
    assert_eq!(engine.get_export_history().len(), 1);
    assert_eq!(engine.get_export_history()[0].session_id, "s");
    assert_eq!(engine.get_export_history()[0].format, ExportFormat::Csv);
    engine.clear_export_history();
    assert!(engine.get_export_history().is_empty());
    assert_eq!(engine.get_template("t"), Some(&"three".to_string()));
    assert!(ExportEngine::default().get_export_history().is_empty());
}

#[test]
fn a_format_is_read_from_a_text_in_any_case() {
    assert_eq!("HTML".parse::<ExportFormat>(), Ok(ExportFormat::Html));
    assert_eq!("Yml".parse::<ExportFormat>(), Ok(ExportFormat::Yaml));
    assert_eq!(
        "docx".parse::<ExportFormat>(),
        Err("Unknown export format: docx".to_string())
    );
    assert_eq!("DocX".parse::<ExportFormat>(), Err("Unknown export format: DocX".to_string()));
}
