//! Preparing logs for analysis and wording the questions.

use vstd::prelude::*;
use vstd::string::StringSliceAdditionalSpecFns;
use vstd::utf8::is_char_boundary;
use crate::models::service::text_of;
use crate::text::chars::{str_chars, string_from_chars, views};
use crate::text::search::{ends_with, has_suffix};
use crate::text::split::{extend_chars, split_chars, split_on};

verus! {

#[derive(Debug, Clone, Copy, PartialEq, Eq, Structural)]
pub enum AnalysisType {
    ErrorDetection,
    PatternAnalysis,
    AnomalyDetection,
    PerformanceAnalysis,
    SecurityAnalysis,
}

#[derive(Debug, Clone, Copy, PartialEq, Eq, Structural)]
pub enum RecommendationType {
    StopService,
    DisableAutostart,
    ReduceResources,
    SecurityConcern,
    PerformanceImpact,
    Info,
}

#[derive(Debug)]
pub struct ServiceRecommendation {
    pub service_id: String,
    pub service_name: String,
    pub recommendation_type: RecommendationType,
    pub title: String,
    pub description: String,
    pub action: Option<String>,
}

/// The kind of analysis that a name asks for.
pub open spec fn analysis_named(name: Seq<char>) -> Option<AnalysisType> {
    if name == "errors"@ {
        Some(AnalysisType::ErrorDetection)
    } else if name == "patterns"@ {
        Some(AnalysisType::PatternAnalysis)
    } else if name == "anomalies"@ {
        Some(AnalysisType::AnomalyDetection)
    } else if name == "performance"@ {
        Some(AnalysisType::PerformanceAnalysis)
    } else if name == "security"@ {
        Some(AnalysisType::SecurityAnalysis)
    } else {
        None
    }
}

/// What the model is asked to do in an analysis of this kind.
pub open spec fn instruction(kind: AnalysisType) -> Seq<char> {
    match kind {
        AnalysisType::ErrorDetection => "Analyze these logs and identify all errors, exceptions, and failures. For each issue found, explain what went wrong and suggest potential fixes."@,
        AnalysisType::PatternAnalysis => "Analyze these logs and identify recurring patterns, common operations, and typical behavior. Highlight any unusual deviations from the norm."@,
        AnalysisType::AnomalyDetection => "Analyze these logs and identify any anomalies, unusual behavior, or suspicious activities that deviate from normal operation patterns."@,
        AnalysisType::PerformanceAnalysis => "Analyze these logs for performance issues. Look for slow operations, timeouts, resource exhaustion, or bottlenecks. Suggest optimizations."@,
        AnalysisType::SecurityAnalysis => "Analyze these logs for potential security concerns. Look for failed authentication attempts, suspicious access patterns, or potential attacks."@,
    }
}

impl AnalysisType {
    /// The kind of analysis with this name, if there is one.
    pub fn from_name(name: &str) -> (r: Option<AnalysisType>)
        ensures
            r == analysis_named(name@),
    {
        let chars = str_chars(name);
        if crate::text::chars::chars_eq_str(&chars, "errors") {
            Some(AnalysisType::ErrorDetection)
        } else if crate::text::chars::chars_eq_str(&chars, "patterns") {
            Some(AnalysisType::PatternAnalysis)
        } else if crate::text::chars::chars_eq_str(&chars, "anomalies") {
            Some(AnalysisType::AnomalyDetection)
        } else if crate::text::chars::chars_eq_str(&chars, "performance") {
            Some(AnalysisType::PerformanceAnalysis)
        } else if crate::text::chars::chars_eq_str(&chars, "security") {
            Some(AnalysisType::SecurityAnalysis)
        } else {
            None
        }
    }

    /// The answer for a name that names no kind of analysis.
    pub fn unknown_name_message(name: &str) -> (r: String)
        ensures
            r@ == "Unknown analysis type: "@ + name@,
    {
        crate::text::compose::text_pair("Unknown analysis type: ", name)
    }

    /// What the model is asked to do in an analysis of this kind.
    pub fn instruction(&self) -> (r: &'static str)
        ensures
            r@ == instruction(*self),
    {
        match self {
            AnalysisType::ErrorDetection => "Analyze these logs and identify all errors, exceptions, and failures. For each issue found, explain what went wrong and suggest potential fixes.",
            AnalysisType::PatternAnalysis => "Analyze these logs and identify recurring patterns, common operations, and typical behavior. Highlight any unusual deviations from the norm.",
            AnalysisType::AnomalyDetection => "Analyze these logs and identify any anomalies, unusual behavior, or suspicious activities that deviate from normal operation patterns.",
            AnalysisType::PerformanceAnalysis => "Analyze these logs for performance issues. Look for slow operations, timeouts, resource exhaustion, or bottlenecks. Suggest optimizations.",
            AnalysisType::SecurityAnalysis => "Analyze these logs for potential security concerns. Look for failed authentication attempts, suspicious access patterns, or potential attacks.",
        }
    }
}

/// What a text becomes when every match of a pattern in it is replaced:
/// nothing where the pattern is no regular expression.
pub uninterp spec fn regex_replaced(pattern: Seq<char>, text: Seq<char>, replacement: Seq<char>)
    -> Option<Seq<char>>;

/// `regex::Regex::new` on the pattern and, where it compiles,
/// `Regex::replace_all` on the text: all matches that do not overlap are
/// replaced by the replacement. The result depends on the three texts alone.
#[verifier::external_body]
fn replace_pattern(pattern: &str, text: &str, replacement: &str) -> (r: Option<String>)
    ensures
        text_of(r) == regex_replaced(pattern@, text@, replacement@),
{
    match regex::Regex::new(pattern) {
        Ok(re) => Some(re.replace_all(text, replacement).into_owned()),
        Err(_) => None,
    }
}

/// One step of the cleaning: the matches of a pattern replaced; the text
/// as it is where the pattern is no regular expression.
pub open spec fn sanitize_step(text: Seq<char>, pattern: Seq<char>, replacement: Seq<char>) -> Seq<
    char,
> {
    match regex_replaced(pattern, text, replacement) {
        Some(t) => t,
        None => text,
    }
}

/// What one step of the cleaning gives for the outcome of the replacement.
pub fn replaced_or_kept(text: &str, outcome: Option<String>) -> (r: String)
    ensures
        r@ == match text_of(outcome) {
            Some(t) => t,
            None => text@,
        },
{
    match outcome {
        Some(t) => t,
        None => text.to_string(),
    }
}

/// One step of the cleaning.
pub fn replace_or_keep(text: &str, pattern: &str, replacement: &str) -> (r: String)
    ensures
        r@ == sanitize_step(text@, pattern@, replacement@),
{
    replaced_or_kept(text, replace_pattern(pattern, text, replacement))
}

/// Logs without what looks like a password, a key, a token, a secret, a
/// bearer credential, a mail address or an IPv4 address: each is replaced
/// by a placeholder, one kind after the other.
pub open spec fn sanitized(text: Seq<char>) -> Seq<char> {
    let t1 = sanitize_step(text, "password\\s*[=:]\\s*\\S+"@, "password=***"@);
    let t2 = sanitize_step(t1, "api[_-]?key\\s*[=:]\\s*\\S+"@, "api_key=***"@);
    let t3 = sanitize_step(t2, "token\\s*[=:]\\s*\\S+"@, "token=***"@);
    let t4 = sanitize_step(t3, "secret\\s*[=:]\\s*\\S+"@, "secret=***"@);
    let t5 = sanitize_step(t4, "bearer\\s+\\S+"@, "bearer ***"@);
    let t6 = sanitize_step(t5, "\\b[A-Za-z0-9._%+-]+@[A-Za-z0-9.-]+\\.[A-Z|a-z]{2,}\\b"@, "email@***"@);
    let t7 = sanitize_step(t6, "\\b\\d{1,3}\\.\\d{1,3}\\.\\d{1,3}\\.\\d{1,3}\\b"@, "x.x.x.x"@);
    t7
}

/// The most bytes of logs that go into one question.
pub const MAX_LOG_BYTES: usize = 8000;

/// The first character boundary of `bytes` at or behind `from`.
pub open spec fn boundary_from(bytes: Seq<u8>, from: int) -> int
    decreases bytes.len() - from,
{
    if from >= bytes.len() || is_char_boundary(bytes, from) {
        from
    } else {
        boundary_from(bytes, from + 1)
    }
}

/// Where the part of the logs begins that goes into a question: at the
/// start where the logs are short enough, else at the first character that
/// lies whole within the last `MAX_LOG_BYTES` bytes.
pub open spec fn window_start(bytes: Seq<u8>) -> int {
    if bytes.len() <= MAX_LOG_BYTES {
        0
    } else {
        boundary_from(bytes, bytes.len() - MAX_LOG_BYTES)
    }
}

/// The end of the logs, as much of it as goes into one question. No
/// character is cut in two.
pub fn log_window(logs: &str) -> (r: &str)
    ensures
        r.spec_bytes() == logs.spec_bytes().skip(window_start(logs.spec_bytes())),
        logs.spec_bytes().len() <= MAX_LOG_BYTES ==> r@ == logs@,
        r.spec_bytes().len() <= MAX_LOG_BYTES,
{
    let n = logs.as_bytes().len();
    if n <= MAX_LOG_BYTES {
        assert(logs.spec_bytes().skip(0) == logs.spec_bytes());
        logs
    } else {
        let ghost bytes = logs.spec_bytes();
        let mut cut: usize = n - MAX_LOG_BYTES;
        while !logs.is_char_boundary(cut)
            invariant
                n == bytes.len(),
                bytes == logs.spec_bytes(),
                n - MAX_LOG_BYTES <= cut <= n,
                boundary_from(bytes, n - MAX_LOG_BYTES) == boundary_from(bytes, cut as int),
            decreases n - cut,
        {
            assert(cut < n) by {
                vstd::utf8::encode_utf8_valid_utf8(logs@);
                vstd::utf8::is_char_boundary_start_end_of_seq(bytes);
            }
            cut += 1;
        }
        let parts = logs.split_at(cut);
        assert(bytes.skip(cut as int) == bytes.subrange(cut as int, n as int));
        parts.1
    }
}

/// The question that asks for an analysis of logs.
pub open spec fn analysis_prompt(logs: Seq<char>, kind: AnalysisType) -> Seq<char> {
    "You are a log analysis assistant. Your task is to analyze service logs and provide insights.\n\nIMPORTANT: This is a READ-ONLY analysis. Do not suggest running commands or making changes to services.\n\n"@ + instruction(kind) + "\n\nLOGS:\n```\n"@ + logs + "\n```\n\nProvide a concise analysis with:\n1. Summary of findings\n2. Key issues or patterns identified\n3. Recommendations (informational only)"@
}

/// The part of a program's path that names its application bundle: the
/// first part between slashes that ends in `.app`.
pub open spec fn bundle_name(parts: Seq<Seq<char>>) -> Option<Seq<char>>
    decreases parts.len(),
{
    if parts.len() == 0 {
        None
    } else if has_suffix(parts[0], ".app"@) {
        Some(parts[0])
    } else {
        bundle_name(parts.skip(1))
    }
}

/// What the question about a process says of its path: the bundle in
/// brackets, or nothing.
pub open spec fn path_hint(path: Option<Seq<char>>) -> Seq<char> {
    match path {
        Some(p) => match bundle_name(split_on(p, '/')) {
            Some(app) => " ("@ + app + ")"@,
            None => Seq::<char>::empty(),
        },
        None => Seq::<char>::empty(),
    }
}

/// The question that asks what a process does.
pub open spec fn process_prompt(name: Seq<char>, path: Option<Seq<char>>) -> Seq<char> {
    "Was macht der Prozess '"@ + name + path_hint(path) + "'? Antworte auf Deutsch in 1-2 Sätzen. Nur Fakten, keine Einleitung."@
}

/// The question that asks for recommendations on a list of services.
pub open spec fn recommendations_prompt(services_json: Seq<char>) -> Seq<char> {
    "You are a system optimization assistant. Analyze the following list of running services and provide recommendations for optimization.\n\nServices (JSON):\n```json\n"@ + services_json + "\n```\n\nFocus on identifying:\n1. Services that may be consuming unnecessary resources\n2. Auto-start services that might not be needed\n3. Duplicate or redundant services\n4. Services that could be safely disabled\n\nIMPORTANT: Respond ONLY with valid JSON array. Each recommendation must be an object with these exact fields:\n- service_id: string (the service ID)\n- service_name: string (the service name)\n- recommendation_type: one of \"stop_service\", \"disable_autostart\", \"reduce_resources\", \"performance_impact\", \"info\"\n- title: string (short title, 5-10 words)\n- description: string (explanation in German, 1-2 sentences)\n- action: string or null (suggested action if applicable)\n\nProvide 3-5 recommendations. Be conservative - only suggest stopping services that are truly optional.\n\nResponse format example:\n[\n{\"service_id\": \"123\", \"service_name\": \"ExampleService\", \"recommendation_type\": \"disable_autostart\", \"title\": \"Autostart nicht nötig\", \"description\": \"Dieser Dienst wird selten verwendet.\", \"action\": \"Autostart deaktivieren\"}\n]"@
}

/// The question that asks for the security risks of a list of services.
pub open spec fn security_prompt(services_json: Seq<char>) -> Seq<char> {
    "Analysiere diese Services auf Sicherheitsprobleme. Antworte auf Deutsch.\nPrüfe auf:\n- Unverschlüsselte Verbindungen\n- Öffentlich erreichbare Datenbanken\n- Fehlende Authentifizierung\n- Bekannte Schwachstellen\n\nServices:\n"@ + services_json + "\n\nGib eine kurze Zusammenfassung der wichtigsten Sicherheitsrisiken und Empfehlungen."@
}

/// Appends a text to `out`.
fn push_text(out: &mut Vec<char>, text: &str)
    ensures
        final(out)@ == old(out)@ + text@,
{
    let chars = str_chars(text);
    extend_chars(out, &chars);
}

/// What the question about a process says of its path.
pub fn hint_for_path(path: Option<&str>) -> (r: Vec<char>)
    ensures
        r@ == path_hint(
            match path {
                Some(p) => Some(p@),
                None => None,
            },
        ),
{
    match path {
        Some(p) => {
            let parts = split_chars(&str_chars(p), '/');
            let ghost all = views(parts@);
            let suffix = str_chars(".app");
            let mut i: usize = 0;
            assert(all.skip(0) == all);
            while i < parts.len()
                invariant
                    i <= parts.len(),
                    all == views(parts@),
                    all == split_on(p@, '/'),
                    path == Some(p),
                    suffix@ == ".app"@,
                    bundle_name(all) == bundle_name(all.skip(i as int)),
                decreases parts.len() - i,
            {
                assert(all.skip(i as int)[0] == parts[i as int]@);
                assert(all.skip(i as int).skip(1) == all.skip(i + 1));
                if ends_with(&parts[i], &suffix) {
                    let mut out = str_chars(" (");
                    extend_chars(&mut out, &parts[i]);
                    push_text(&mut out, ")");
                    return out;
                }
                i += 1;
            }
            Vec::new()
        },
        None => Vec::new(),
    }
}

/// Cleans logs and words the questions for the language model.
#[derive(Debug, Clone, Copy)]
pub struct LogAnalyzer {}

impl LogAnalyzer {
    pub fn new() -> (r: Self) {
        LogAnalyzer {  }
    }

    /// Takes out of the logs what should not leave the host.
    pub fn sanitize_logs(&self, logs: &str) -> (r: String)
        ensures
            r@ == sanitized(logs@),
    {
        let t1 = replace_or_keep(logs, "password\\s*[=:]\\s*\\S+", "password=***");
        let t2 = replace_or_keep(t1.as_str(), "api[_-]?key\\s*[=:]\\s*\\S+", "api_key=***");
        let t3 = replace_or_keep(t2.as_str(), "token\\s*[=:]\\s*\\S+", "token=***");
        let t4 = replace_or_keep(t3.as_str(), "secret\\s*[=:]\\s*\\S+", "secret=***");
        let t5 = replace_or_keep(t4.as_str(), "bearer\\s+\\S+", "bearer ***");
        let t6 = replace_or_keep(t5.as_str(), "\\b[A-Za-z0-9._%+-]+@[A-Za-z0-9.-]+\\.[A-Z|a-z]{2,}\\b", "email@***");
        let t7 = replace_or_keep(t6.as_str(), "\\b\\d{1,3}\\.\\d{1,3}\\.\\d{1,3}\\.\\d{1,3}\\b", "x.x.x.x");
        t7
    }

    /// The question that asks for an analysis of these logs.
    pub fn build_prompt(&self, logs: &str, analysis_type: AnalysisType) -> (r: String)
        ensures
            r@ == analysis_prompt(logs@, analysis_type),
    {
        let mut out = str_chars("You are a log analysis assistant. Your task is to analyze service logs and provide insights.\n\nIMPORTANT: This is a READ-ONLY analysis. Do not suggest running commands or making changes to services.\n\n");
        push_text(&mut out, analysis_type.instruction());
        push_text(&mut out, "\n\nLOGS:\n```\n");
        push_text(&mut out, logs);
        push_text(&mut out, "\n```\n\nProvide a concise analysis with:\n1. Summary of findings\n2. Key issues or patterns identified\n3. Recommendations (informational only)");
        string_from_chars(&out)
    }

    /// The question for an analysis of raw logs: the logs are cleaned, cut
    /// to their end where they are long, and put into the question.
    pub fn analysis_request(&self, logs: &str, analysis_type: AnalysisType) -> (r: String)
        ensures
            exists|window: Seq<char>|
                vstd::utf8::encode_utf8(window) == vstd::utf8::encode_utf8(sanitized(logs@)).skip(
                    window_start(vstd::utf8::encode_utf8(sanitized(logs@))),
                ) && r@ == analysis_prompt(window, analysis_type),
    {
        let clean = self.sanitize_logs(logs);
        let window = log_window(clean.as_str());
        self.build_prompt(window, analysis_type)
    }

    /// The question that asks what a process does.
    pub fn explain_process_prompt(&self, process_name: &str, process_path: Option<&str>) -> (r:
        String)
        ensures
            r@ == process_prompt(
                process_name@,
                match process_path {
                    Some(p) => Some(p@),
                    None => None,
                },
            ),
    {
        let mut out = str_chars("Was macht der Prozess '");
        push_text(&mut out, process_name);
        let hint = hint_for_path(process_path);
        extend_chars(&mut out, &hint);
        push_text(&mut out, "'? Antworte auf Deutsch in 1-2 Sätzen. Nur Fakten, keine Einleitung.");
        string_from_chars(&out)
    }

    /// The question that asks for the security risks of a list of services.
    pub fn security_prompt(&self, services_json: &str) -> (r: String)
        ensures
            r@ == security_prompt(services_json@),
    {
        let mut out = str_chars("Analysiere diese Services auf Sicherheitsprobleme. Antworte auf Deutsch.\nPrüfe auf:\n- Unverschlüsselte Verbindungen\n- Öffentlich erreichbare Datenbanken\n- Fehlende Authentifizierung\n- Bekannte Schwachstellen\n\nServices:\n");
        push_text(&mut out, services_json);
        push_text(&mut out, "\n\nGib eine kurze Zusammenfassung der wichtigsten Sicherheitsrisiken und Empfehlungen.");
        string_from_chars(&out)
    }

    /// The question that asks for recommendations on a list of services.
    pub fn recommendations_prompt(&self, services_json: &str) -> (r: String)
        ensures
            r@ == recommendations_prompt(services_json@),
    {
        let mut out = str_chars("You are a system optimization assistant. Analyze the following list of running services and provide recommendations for optimization.\n\nServices (JSON):\n```json\n");
        push_text(&mut out, services_json);
        push_text(&mut out, "\n```\n\nFocus on identifying:\n1. Services that may be consuming unnecessary resources\n2. Auto-start services that might not be needed\n3. Duplicate or redundant services\n4. Services that could be safely disabled\n\nIMPORTANT: Respond ONLY with valid JSON array. Each recommendation must be an object with these exact fields:\n- service_id: string (the service ID)\n- service_name: string (the service name)\n- recommendation_type: one of \"stop_service\", \"disable_autostart\", \"reduce_resources\", \"performance_impact\", \"info\"\n- title: string (short title, 5-10 words)\n- description: string (explanation in German, 1-2 sentences)\n- action: string or null (suggested action if applicable)\n\nProvide 3-5 recommendations. Be conservative - only suggest stopping services that are truly optional.\n\nResponse format example:\n[\n{\"service_id\": \"123\", \"service_name\": \"ExampleService\", \"recommendation_type\": \"disable_autostart\", \"title\": \"Autostart nicht nötig\", \"description\": \"Dieser Dienst wird selten verwendet.\", \"action\": \"Autostart deaktivieren\"}\n]");
        string_from_chars(&out)
    }
}

} // verus!
