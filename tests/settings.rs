use chat_box::agent::{OllamaAgent, DEFAULT_SYSTEM_PROMPT};
use chat_box::config::AppConfig as FileConfig;
use chat_box::settings::{parse_port, AppConfig, OllamaSetting};

#[test]
fn default_configuration_values() {
    let c = FileConfig::default();
    assert_eq!(c.config_path, "config.yaml");
    assert_eq!(c.ai_model.model_name, "qwen2.5:0.5b");
    assert_eq!(c.ai_model.server_url, "http://localhost");
    assert_eq!(c.ai_model.server_port, 11434);
    assert!(!c.voice.enabled);
    assert_eq!(c.voice.timeout_seconds, 15);
    assert_eq!(c.ui.theme, "light");
    assert_eq!(c.app_behavior.message_chunk_buffer_size, 2);
    assert_eq!(c.app_behavior.message_chunk_send_interval_ms, 3);
    assert_eq!(c.app_behavior.default_conversation_title, "新对话");
    assert!(c.database.enabled);
    assert_eq!(c.database.path, "database/chat_database.db");
}

#[test]
fn new_keeps_the_path_and_defaults() {
    let c = FileConfig::new("/etc/app/config.yaml".to_string());
    assert_eq!(c.config_path, "/etc/app/config.yaml");
    assert_eq!(c.voice.model_path, "model/vosk-model-small-cn-0.22");
    assert_eq!(c.get_config_file_path(), Some("config.yaml".to_string()));
}

#[test]
fn settle_loaded_prefers_the_file() {
    let mut parsed = FileConfig::default();
    parsed.ui.theme = "dark".to_string();
    let (c, write_back) = FileConfig::settle_loaded(Some(parsed));
    assert_eq!(c.ui.theme, "dark");
    assert!(!write_back);
    let (c, write_back) = FileConfig::settle_loaded(None);
    assert_eq!(c.ui.theme, "light");
    assert!(write_back);
}

#[test]
fn ports_parse_like_u16() {
    assert_eq!(parse_port("8080"), Some(8080));
    assert_eq!(parse_port("+80"), Some(80));
    assert_eq!(parse_port("0"), Some(0));
    assert_eq!(parse_port("65535"), Some(65535));
    assert_eq!(parse_port("65536"), None);
    assert_eq!(parse_port("99999999999999999999"), None);
    assert_eq!(parse_port(""), None);
    assert_eq!(parse_port("+"), None);
    assert_eq!(parse_port("-1"), None);
    assert_eq!(parse_port("80a"), None);
    assert_eq!(parse_port(" 80"), None);
    for s in ["1", "22", "443", "+7", "x", "7x", "70000"] {
        assert_eq!(parse_port(s), s.parse::<u16>().ok());
    }
}

fn setting() -> OllamaSetting {
    OllamaSetting { port: 1, model: "m".to_string(), host: "h".to_string(), prompt: "p".to_string() }
}

#[test]
fn update_from_ui_changes_the_first_server() {
    let mut c = AppConfig { font: "f".to_string(), log_level: "info".to_string(), ollama_setting: vec![setting(), setting()] };
    c.update_from_ui("debug".to_string(), "http://x".to_string(), "9000".to_string(), "llama".to_string());
    assert_eq!(c.log_level, "debug");
    assert_eq!(c.ollama_setting[0].host, "http://x");
    assert_eq!(c.ollama_setting[0].port, 9000);
    assert_eq!(c.ollama_setting[0].model, "llama");
    assert_eq!(c.ollama_setting[0].prompt, "p");
    assert_eq!(c.ollama_setting[1].port, 1);
    c.update_from_ui("warn".to_string(), "u".to_string(), "not a port".to_string(), "m2".to_string());
    assert_eq!(c.ollama_setting[0].port, 11434);
}

#[test]
fn update_from_ui_without_servers_sets_only_the_level() {
    let mut c = AppConfig::default();
    c.update_from_ui("trace".to_string(), "u".to_string(), "1".to_string(), "m".to_string());
    assert_eq!(c.log_level, "trace");
    assert!(c.ollama_setting.is_empty());
}

#[test]
fn agent_builds_prompts() {
    let a = OllamaAgent::new("qwen", "http://localhost", &11434);
    assert_eq!(a.system_prompt(), DEFAULT_SYSTEM_PROMPT);
    let a = a.with_system_prompt("Be brief.").with_host_port("http://remote", 8000);
    assert_eq!(a.host(), "http://remote");
    assert_eq!(a.port(), 8000);
    assert_eq!(a.model(), "qwen");
    assert_eq!(a.full_prompt("Why?"), "Be brief.\n\nWhy?");
}
