//! The settings of the application.

use vstd::prelude::*;

verus! {

#[derive(Debug, Clone, Copy, PartialEq, Eq, Structural)]
pub enum ThemeMode {
    System,
    Light,
    Dark,
}

impl Default for ThemeMode {
    fn default() -> (r: Self)
        ensures
            r == ThemeMode::System,
    {
        ThemeMode::System
    }
}

#[derive(Debug, Clone, Copy, PartialEq, Eq, Structural)]
pub struct Theme {
    pub mode: ThemeMode,
}

impl Default for Theme {
    fn default() -> (r: Self)
        ensures
            r.mode == ThemeMode::System,
    {
        Theme { mode: ThemeMode::System }
    }
}

/// How the language model service is reached.
#[derive(Debug)]
pub struct OllamaConfig {
    pub enabled: bool,
    pub endpoint: String,
    pub model: String,
    pub timeout_seconds: u32,
}

impl Default for OllamaConfig {
    fn default() -> (r: Self)
        ensures
            !r.enabled,
            r.endpoint@ == "http://localhost:11434"@,
            r.model@ == "mistral:7b-instruct"@,
            r.timeout_seconds == 30,
    {
        OllamaConfig {
            enabled: false,
            endpoint: "http://localhost:11434".to_string(),
            model: "mistral:7b-instruct".to_string(),
            timeout_seconds: 30,
        }
    }
}

impl Clone for OllamaConfig {
    fn clone(&self) -> (r: Self)
        ensures
            r.enabled == self.enabled,
            r.endpoint@ == self.endpoint@,
            r.model@ == self.model@,
            r.timeout_seconds == self.timeout_seconds,
    {
        OllamaConfig {
            enabled: self.enabled,
            endpoint: self.endpoint.clone(),
            model: self.model.clone(),
            timeout_seconds: self.timeout_seconds,
        }
    }
}

#[derive(Debug, Clone, Copy, PartialEq, Eq, Structural)]
pub struct SecurityConfig {
    pub audit_logging: bool,
    pub require_confirmation_for_kill: bool,
    pub privilege_cache_ttl_minutes: u32,
}

impl Default for SecurityConfig {
    fn default() -> (r: Self)
        ensures
            r.audit_logging,
            r.require_confirmation_for_kill,
            r.privilege_cache_ttl_minutes == 15,
    {
        SecurityConfig {
            audit_logging: true,
            require_confirmation_for_kill: true,
            privilege_cache_ttl_minutes: 15,
        }
    }
}

#[derive(Debug)]
pub struct Config {
    pub theme: Theme,
    pub refresh_interval_ms: u32,
    pub ollama: OllamaConfig,
    pub security: SecurityConfig,
}

impl Default for Config {
    fn default() -> (r: Self)
        ensures
            r.theme.mode == ThemeMode::System,
            r.refresh_interval_ms == 0,
            !r.ollama.enabled,
            r.ollama.endpoint@ == "http://localhost:11434"@,
            r.ollama.model@ == "mistral:7b-instruct"@,
            r.ollama.timeout_seconds == 30,
            r.security.audit_logging,
            r.security.require_confirmation_for_kill,
            r.security.privilege_cache_ttl_minutes == 15,
    {
        Config {
            theme: Theme::default(),
            refresh_interval_ms: 0,
            ollama: OllamaConfig::default(),
            security: SecurityConfig::default(),
        }
    }
}

impl Clone for Config {
    fn clone(&self) -> (r: Self)
        ensures
            r.theme == self.theme,
            r.refresh_interval_ms == self.refresh_interval_ms,
            r.ollama.enabled == self.ollama.enabled,
            r.ollama.endpoint@ == self.ollama.endpoint@,
            r.ollama.model@ == self.ollama.model@,
            r.ollama.timeout_seconds == self.ollama.timeout_seconds,
            r.security == self.security,
    {
        Config {
            theme: self.theme,
            refresh_interval_ms: self.refresh_interval_ms,
            ollama: self.ollama.clone(),
            security: self.security,
        }
    }
}

} // verus!
