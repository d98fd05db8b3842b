use vstd::prelude::*;

verus! {

/// Where the configuration file lives unless told otherwise.
pub const DEFAULT_CONFIG_FILE: &'static str = "config.yaml";

/// Persistence settings.
#[derive(Debug, Clone)]
pub struct DatabaseConfig {
    pub enabled: bool,
    pub path: String,
}

/// Settings of the text generation engine.
#[derive(Debug, Clone)]
pub struct AiModelConfig {
    pub model_name: String,
    pub server_url: String,
    pub server_port: u16,
    pub system_prompt: String,
}

/// Settings of speech recognition.
#[derive(Debug, Clone)]
pub struct VoiceConfig {
    pub enabled: bool,
    pub model_path: String,
    pub timeout_seconds: u64,
}

/// Look of the UI.
#[derive(Debug, Clone)]
pub struct UiConfig {
    pub theme: String,
    pub language: String,
}

/// Behaviour of the application, including the chunk buffering policy.
#[derive(Debug, Clone)]
pub struct AppBehaviorConfig {
    pub log_level: String,
    pub default_conversation_title: String,
    pub welcome_message: String,
    pub message_chunk_buffer_size: usize,
    pub message_chunk_send_interval_ms: u64,
}

/// The application's configuration.
#[derive(Debug, Clone)]
pub struct AppConfig {
    pub config_path: String,
    pub ai_model: AiModelConfig,
    pub voice: VoiceConfig,
    pub ui: UiConfig,
    pub database: DatabaseConfig,
    pub app_behavior: AppBehaviorConfig,
}

/// Every setting but the file path has its default value.
pub open spec fn has_default_settings(c: AppConfig) -> bool {
    &&& c.ai_model.model_name@ == "qwen2.5:0.5b"@
    &&& c.ai_model.server_url@ == "http://localhost"@
    &&& c.ai_model.server_port == 11434
    &&& c.ai_model.system_prompt@ == "你是一个友好、乐于助人的AI助手，使用中文回答问题。"@
    &&& !c.voice.enabled
    &&& c.voice.model_path@ == "model/vosk-model-small-cn-0.22"@
    &&& c.voice.timeout_seconds == 15
    &&& c.ui.theme@ == "light"@
    &&& c.ui.language@ == "zh-CN"@
    &&& c.app_behavior.log_level@ == "info"@
    &&& c.app_behavior.default_conversation_title@ == "新对话"@
    &&& c.app_behavior.welcome_message@ == "欢迎使用聊天应用!"@
    &&& c.app_behavior.message_chunk_buffer_size == 2
    &&& c.app_behavior.message_chunk_send_interval_ms == 3
    &&& c.database.enabled
    &&& c.database.path@ == "database/chat_database.db"@
}

impl Default for AppConfig {
    fn default() -> (r: Self)
        ensures
            has_default_settings(r),
            r.config_path@ == DEFAULT_CONFIG_FILE@,
    {
        AppConfig {
            config_path: String::from_str(DEFAULT_CONFIG_FILE),
            ai_model: AiModelConfig {
                model_name: String::from_str("qwen2.5:0.5b"),
                server_url: String::from_str("http://localhost"),
                server_port: 11434,
                system_prompt: String::from_str("你是一个友好、乐于助人的AI助手，使用中文回答问题。"),
            },
            voice: VoiceConfig {
                enabled: false,
                model_path: String::from_str("model/vosk-model-small-cn-0.22"),
                timeout_seconds: 15,
            },
            ui: UiConfig { theme: String::from_str("light"), language: String::from_str("zh-CN") },
            app_behavior: AppBehaviorConfig {
                log_level: String::from_str("info"),
                default_conversation_title: String::from_str("新对话"),
                welcome_message: String::from_str("欢迎使用聊天应用!"),
                message_chunk_buffer_size: 2,
                message_chunk_send_interval_ms: 3,
            },
            database: DatabaseConfig { enabled: true, path: String::from_str("database/chat_database.db") },
        }
    }
}

impl AppConfig {
    /// The default configuration, kept at `config_path`.
    pub fn new(config_path: String) -> (r: Self)
        ensures
            has_default_settings(r),
            r.config_path == config_path,
    {
        let mut c = AppConfig::default();
        c.config_path = config_path;
        c
    }

    /// The path of the configuration file: always the default file name.
    pub fn get_config_file_path(self) -> (r: Option<String>)
        ensures
            r matches Some(p) && p@ == DEFAULT_CONFIG_FILE@,
    {
        Some(String::from_str(DEFAULT_CONFIG_FILE))
    }

    /// Settles what loading the configuration file gave: the parsed
    /// configuration if there was one; otherwise the defaults, together with
    /// the request to write them to the file.
    pub fn settle_loaded(loaded: Option<AppConfig>) -> (r: (AppConfig, bool))
        ensures
            loaded matches Some(c) ==> r.0 == c && !r.1,
            loaded is None ==> has_default_settings(r.0) && r.0.config_path@ == DEFAULT_CONFIG_FILE@ && r.1,
    {
        match loaded {
            Some(c) => (c, false),
            None => (AppConfig::default(), true),
        }
    }
}

} // verus!
