use axion_db::health::{health_status, ping};
use axion_db::prism::{LineLevel, PrismConfig};

fn config(description: Option<&str>) -> PrismConfig {
    PrismConfig::new(
        "Inventory".to_string(),
        "1.2.3".to_string(),
        description.map(|d| d.to_string()),
        Some("static".to_string()),
        "0.0.0.0".to_string(),
        3000,
    )
}

#[test]
fn health_words() {
    assert_eq!(health_status(true), "healthy");
    assert_eq!(health_status(false), "degraded");
    assert_eq!(ping(), "pong");
}

#[test]
fn settings_hold_what_was_given() {
    let c = config(Some("stock keeping"));
    assert_eq!(c.project_name, "Inventory");
    assert_eq!(c.version, "1.2.3");
    assert_eq!(c.description.as_deref(), Some("stock keeping"));
    assert_eq!(c.static_assets_path.as_deref(), Some("static"));
    assert_eq!(c.host, "0.0.0.0");
    assert_eq!(c.port, 3000);
}

#[test]
fn standard_settings() {
    let c = PrismConfig::standard("0.9.0".to_string());
    assert_eq!(c.project_name, "Prism API");
    assert_eq!(c.version, "0.9.0");
    assert!(c.description.is_none());
    assert!(c.static_assets_path.is_none());
    assert_eq!(c.host, "localhost");
    assert_eq!(c.port, 8080);
}

#[test]
fn bind_address_is_host_and_port() {
    assert_eq!(config(None).bind_address(), "0.0.0.0:3000");
    assert_eq!(PrismConfig::standard(String::new()).bind_address(), "localhost:8080");
}

#[test]
fn welcome_without_description() {
    let lines = config(None).welcome_lines("example.org", 80);
    let texts: Vec<&str> = lines.iter().map(|l| l.text.as_str()).collect();
    assert_eq!(
        texts,
        vec![
            "===========================================",
            "\u{1F680} Inventory v1.2.3",
            "===========================================",
            "\u{1F4DA} API documentation: http://example.org:80/docs",
            "\u{1F4E1} Server running at: http://example.org:80",
            "\u{1F3E5} Health status: http://example.org:80/health",
            "===========================================",
        ]
    );
    assert!(lines.iter().all(|l| l.level == LineLevel::Info));
}

#[test]
fn welcome_with_description() {
    let lines = config(Some("stock keeping")).welcome_lines("h", 65535);
    assert_eq!(lines.len(), 8);
    assert_eq!(lines[2].text, "stock keeping");
    assert_eq!(lines[2].level, LineLevel::Debug);
    assert_eq!(lines[5].text, "\u{1F4E1} Server running at: http://h:65535");
    let debug_lines = lines.iter().filter(|l| l.level == LineLevel::Debug).count();
    assert_eq!(debug_lines, 1);
}
