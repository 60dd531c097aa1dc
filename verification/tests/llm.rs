use network_manager::commands::llm_commands::{
    explain_lower_name, extract_json_array, get_default_recommendations,
    get_known_process_explanation,
};
use network_manager::llm::analyzer::{log_window, AnalysisType, LogAnalyzer, RecommendationType};
use network_manager::llm::client::{
    default_endpoint, default_model, fast_model, model_names, ModelInfo, DEFAULT_TIMEOUT,
    FAST_TIMEOUT,
};

#[test]
fn analysis_type_names() {
    assert_eq!(AnalysisType::from_name("errors"), Some(AnalysisType::ErrorDetection));
    assert_eq!(AnalysisType::from_name("patterns"), Some(AnalysisType::PatternAnalysis));
    assert_eq!(AnalysisType::from_name("anomalies"), Some(AnalysisType::AnomalyDetection));
    assert_eq!(AnalysisType::from_name("performance"), Some(AnalysisType::PerformanceAnalysis));
    assert_eq!(AnalysisType::from_name("security"), Some(AnalysisType::SecurityAnalysis));
    assert_eq!(AnalysisType::from_name("Errors"), None);
    assert_eq!(AnalysisType::from_name(""), None);
}

#[test]
fn analysis_prompt_wording() {
    let logs = "line one\nline two";
    let instruction = "Analyze these logs for performance issues. Look for slow operations, \
                 timeouts, resource exhaustion, or bottlenecks. Suggest optimizations.";
    let expected = format!(
        "You are a log analysis assistant. Your task is to analyze service logs and provide insights.\n\n\
             IMPORTANT: This is a READ-ONLY analysis. Do not suggest running commands or making changes to services.\n\n\
             {}\n\n\
             LOGS:\n```\n{}\n```\n\n\
             Provide a concise analysis with:\n\
             1. Summary of findings\n\
             2. Key issues or patterns identified\n\
             3. Recommendations (informational only)",
        instruction, logs
    );
    assert_eq!(LogAnalyzer::new().build_prompt(logs, AnalysisType::PerformanceAnalysis), expected);
    assert_eq!(
        AnalysisType::ErrorDetection.instruction(),
        "Analyze these logs and identify all errors, exceptions, and failures. \
                 For each issue found, explain what went wrong and suggest potential fixes."
    );
    assert!(AnalysisType::PatternAnalysis.instruction().ends_with("deviations from the norm."));
    assert!(AnalysisType::AnomalyDetection.instruction().contains("anomalies"));
    assert!(AnalysisType::SecurityAnalysis.instruction().ends_with("or potential attacks."));
}

#[test]
fn logs_are_sanitized() {
    let a = LogAnalyzer::new();
    assert_eq!(a.sanitize_logs("login password = hunter2 ok"), "login password=*** ok");
    assert_eq!(a.sanitize_logs("api-key: abc123"), "api_key=***");
    assert_eq!(a.sanitize_logs("apikey=abc token=xyz"), "api_key=*** token=***");
    assert_eq!(a.sanitize_logs("secret:42 bearer abc.def"), "secret=*** bearer ***");
    assert_eq!(a.sanitize_logs("mail bob@example.com now"), "mail email@*** now");
    assert_eq!(a.sanitize_logs("from 192.168.1.10 to 10.0.0.1"), "from x.x.x.x to x.x.x.x");
    assert_eq!(a.sanitize_logs("nothing to hide"), "nothing to hide");
    assert_eq!(a.sanitize_logs(""), "");
}

#[test]
fn log_window_keeps_the_end() {
    let short = "a".repeat(8000);
    assert_eq!(log_window(&short), short);
    let long = format!("{}{}", "x".repeat(100), "y".repeat(8000));
    assert_eq!(log_window(&long), "y".repeat(8000));
    // a character that straddles the cut is left out whole
    let straddle = format!("ab€{}", "z".repeat(7998));
    assert_eq!(straddle.len(), 8003);
    assert_eq!(log_window(&straddle), "z".repeat(7998));
    let request = LogAnalyzer::new().analysis_request(&format!("password=p {}", "q".repeat(9000)), AnalysisType::ErrorDetection);
    assert!(request.contains(&format!("```\n{}\n```", "q".repeat(8000))));
    assert!(!request.contains("password"));
}

#[test]
fn process_prompt_wording() {
    let a = LogAnalyzer::new();
    assert_eq!(
        a.explain_process_prompt("Safari", Some("/Applications/Safari.app/Contents/MacOS/Safari")),
        "Was macht der Prozess 'Safari (Safari.app)'? Antworte auf Deutsch in 1-2 Sätzen. Nur Fakten, keine Einleitung."
    );
    assert_eq!(
        a.explain_process_prompt("nginx", Some("/usr/sbin/nginx")),
        "Was macht der Prozess 'nginx'? Antworte auf Deutsch in 1-2 Sätzen. Nur Fakten, keine Einleitung."
    );
    assert_eq!(
        a.explain_process_prompt("x", None),
        "Was macht der Prozess 'x'? Antworte auf Deutsch in 1-2 Sätzen. Nur Fakten, keine Einleitung."
    );
    assert!(a
        .explain_process_prompt("h", Some("/A/One.app/B/Two.app/h"))
        .starts_with("Was macht der Prozess 'h (One.app)'"));
}

#[test]
fn recommendations_prompt_wording() {
    let services_json = "[{\"id\": \"1\"}]";
    let expected = format!(
        "You are a system optimization assistant. Analyze the following list of running services and provide recommendations for optimization.\n\n\
             Services (JSON):\n```json\n{}\n```\n\n\
             Focus on identifying:\n\
             1. Services that may be consuming unnecessary resources\n\
             2. Auto-start services that might not be needed\n\
             3. Duplicate or redundant services\n\
             4. Services that could be safely disabled\n\n\
             IMPORTANT: Respond ONLY with valid JSON array. Each recommendation must be an object with these exact fields:\n\
             - service_id: string (the service ID)\n\
             - service_name: string (the service name)\n\
             - recommendation_type: one of \"stop_service\", \"disable_autostart\", \"reduce_resources\", \"performance_impact\", \"info\"\n\
             - title: string (short title, 5-10 words)\n\
             - description: string (explanation in German, 1-2 sentences)\n\
             - action: string or null (suggested action if applicable)\n\n\
             Provide 3-5 recommendations. Be conservative - only suggest stopping services that are truly optional.\n\n\
             Response format example:\n\
             [\n\
               {{\"service_id\": \"123\", \"service_name\": \"ExampleService\", \"recommendation_type\": \"disable_autostart\", \"title\": \"Autostart nicht nötig\", \"description\": \"Dieser Dienst wird selten verwendet.\", \"action\": \"Autostart deaktivieren\"}}\n\
             ]",
        services_json
    );
    assert_eq!(LogAnalyzer::new().recommendations_prompt(services_json), expected);
}

#[test]
fn known_processes() {
    let k = |n: &str| get_known_process_explanation(n);
    assert!(k("AdobeARMHelper").unwrap().starts_with("Adobe ARM (Application Resource Manager)"));
    assert!(k("Adobe CEF").unwrap().starts_with("Adobe CEF Helper"));
    assert!(k("adobe thing").unwrap().starts_with("Adobe-Prozess"));
    assert!(k("WindowServer").unwrap().starts_with("WindowServer - "));
    assert!(k("kernel").unwrap().starts_with("kernel_task"));
    assert!(k("Dock").unwrap().starts_with("Dock - "));
    assert!(k("Docker Desktop").unwrap().starts_with("Docker - "));
    assert!(k("Google Chrome Helper").unwrap().starts_with("Chrome Helper"));
    assert!(k("Google Chrome").unwrap().starts_with("Google Chrome - "));
    assert!(k("Safari Networking").unwrap().starts_with("Safari Networking"));
    assert!(k("node").unwrap().starts_with("Node.js"));
    assert!(k("java").unwrap().starts_with("Java - "));
    assert!(k("javascript-runner").is_none() || !k("javascript-runner").unwrap().starts_with("Java - "));
    assert!(k("go").unwrap().starts_with("Go/Golang"));
    assert!(k("redis-server").unwrap().starts_with("Redis - "));
    assert!(k("Slack").unwrap().starts_with("Slack - "));
    assert!(k("OBS").unwrap().starts_with("OBS Studio"));
    assert!(k("my-helper").unwrap().starts_with("Helper-Prozess"));
    assert!(k("sshd").unwrap().starts_with("Daemon - "));
    assert!(k("a-very-long-name-ending-in-d").is_none());
    assert!(k("com.apple.xyz").unwrap().starts_with("Apple-Systemdienst"));
    assert!(k("updater").unwrap().starts_with("Update-Dienst"));
    assert_eq!(k("zzz"), None);
    assert_eq!(k(""), None);
    assert_eq!(
        k("Finder").unwrap(),
        "Finder - macOS Dateimanager und Desktop-Verwaltung. Standard-App von Apple."
    );
}

#[test]
fn json_array_extraction() {
    assert_eq!(extract_json_array("Here you go: [1, 2] thanks").as_deref(), Some("[1, 2]"));
    assert_eq!(extract_json_array("[[a], [b]] x ]").as_deref(), Some("[[a], [b]] x ]"));
    assert_eq!(extract_json_array("[]").as_deref(), Some("[]"));
    assert_eq!(extract_json_array("] before ["), None);
    assert_eq!(extract_json_array("no brackets"), None);
    assert_eq!(extract_json_array("only ["), None);
    assert_eq!(extract_json_array("only ]"), None);
    assert_eq!(extract_json_array("ä[ö]ü").as_deref(), Some("[ö]"));
}

#[test]
fn default_recommendations() {
    let r = get_default_recommendations();
    assert_eq!(r.len(), 1);
    assert_eq!(r[0].service_id, "tip");
    assert_eq!(r[0].service_name, "Ollama");
    assert_eq!(r[0].recommendation_type, RecommendationType::Info);
    assert_eq!(r[0].title, "KI-Empfehlungen aktivieren");
    assert_eq!(r[0].action.as_deref(), Some("ollama serve"));
}

#[test]
fn client_defaults() {
    assert_eq!(default_endpoint(), "http://localhost:11434");
    assert_eq!(default_model(), "mistral:7b-instruct");
    assert_eq!(fast_model(), "llama3.2:1b");
    assert_eq!(DEFAULT_TIMEOUT, 30);
    assert_eq!(FAST_TIMEOUT, 10);
    let models = vec![
        ModelInfo { name: "a".to_string(), size: 1 },
        ModelInfo { name: "b".to_string(), size: 2 },
    ];
    assert_eq!(model_names(&models), vec!["a".to_string(), "b".to_string()]);
}

#[test]
fn security_prompt_wording() {
    let services_json = "[]";
    let expected = format!(
        r#"Analysiere diese Services auf Sicherheitsprobleme. Antworte auf Deutsch.
Prüfe auf:
- Unverschlüsselte Verbindungen
- Öffentlich erreichbare Datenbanken
- Fehlende Authentifizierung
- Bekannte Schwachstellen

Services:
{}

Gib eine kurze Zusammenfassung der wichtigsten Sicherheitsrisiken und Empfehlungen."#,
        services_json
    );
    assert_eq!(LogAnalyzer::new().security_prompt(services_json), expected);
    assert_eq!(AnalysisType::unknown_name_message("x"), "Unknown analysis type: x");
}

#[test]
fn known_processes_by_lower_case_name() {
    assert!(explain_lower_name("docker").unwrap().starts_with("Docker - "));
    assert!(explain_lower_name("dock").unwrap().starts_with("Dock - "));
    assert_eq!(explain_lower_name("Docker"), None);
    assert!(explain_lower_name("ñandúd").unwrap().starts_with("Daemon - "));
    // fourteen bytes and a final d make a daemon, fifteen do not
    assert!(explain_lower_name("xxxxxxxxxxxxxd").unwrap().starts_with("Daemon - "));
    assert_eq!(explain_lower_name("xxxxxxxxxxxxxxd"), None);
    assert!(explain_lower_name("go").unwrap().starts_with("Go/Golang"));
    assert_eq!(explain_lower_name("gooooooooo"), None);
}
