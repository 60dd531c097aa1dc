//! What is known of common processes without asking the language model,
//! and reading what the model answered.

use vstd::prelude::*;
use vstd::utf8::encode_utf8;
use crate::llm::analyzer::{RecommendationType, ServiceRecommendation};
use crate::models::service::text_of;
use crate::text::case::{lowercase, to_lowercase};
use crate::text::chars::{chars_eq_str, str_chars, string_from_chars};
use crate::text::compose::static_text;
use crate::text::search::{
    contains, contains_text, ends_with, has_prefix, has_suffix, slice_chars, starts_with,
};

verus! {

fn holds(lower: &Vec<char>, word: &str) -> (r: bool)
    ensures
        r == contains_text(lower@, word@),
{
    let w = str_chars(word);
    contains(lower, &w)
}

fn ends(lower: &Vec<char>, word: &str) -> (r: bool)
    ensures
        r == has_suffix(lower@, word@),
{
    let w = str_chars(word);
    ends_with(lower, &w)
}

fn begins(lower: &Vec<char>, word: &str) -> (r: bool)
    ensures
        r == has_prefix(lower@, word@),
{
    let w = str_chars(word);
    starts_with(lower, &w)
}

/// Processes of the Adobe suite.
pub open spec fn adobe_note(lower: Seq<char>) -> Option<Seq<char>> {
    if contains_text(lower, "adobe"@) {
        if contains_text(lower, "arm"@) || contains_text(lower, "armdchelper"@) {
            Some("Adobe ARM (Application Resource Manager) - Verwaltet automatische Updates für Adobe-Programme. Sicher, aber optional wenn Sie keine Adobe-Produkte nutzen."@)
        } else if contains_text(lower, "cef"@) || contains_text(lower, "cefhelper"@) {
            Some("Adobe CEF Helper - Chromium-basierter Prozess für Web-Inhalte in Adobe Creative Cloud. Sicher, optional bei Nichtnutzung."@)
        } else if contains_text(lower, "creative"@) || contains_text(lower, "cc"@) {
            Some("Adobe Creative Cloud - Verwaltungs-App für Adobe-Produkte wie Photoshop, Illustrator etc."@)
        } else if contains_text(lower, "ipc"@) {
            Some("Adobe IPC Broker - Kommunikationsprozess zwischen Adobe-Anwendungen. Sicher."@)
        } else {
            Some("Adobe-Prozess - Gehört zur Adobe-Software-Suite. In der Regel sicher."@)
        }
    } else {
        None
    }
}

/// Processes of macOS itself.
pub open spec fn apple_macos_system_note(lower: Seq<char>) -> Option<Seq<char>> {
    if contains_text(lower, "windowserver"@) {
        Some("WindowServer - Essentieller macOS-Prozess für die grafische Oberfläche. NIEMALS beenden!"@)
    } else if contains_text(lower, "kernel_task"@) || lower == "kernel"@ {
        Some("kernel_task - Kern des macOS-Betriebssystems. Verwaltet Hardware und Ressourcen. Essentiell."@)
    } else if contains_text(lower, "spotlight"@) || contains_text(lower, "mds"@) || contains_text(lower, "mdworker"@) {
        Some("Spotlight - macOS Suchindizierung. Durchsucht und indiziert Dateien für schnelle Suche. Sicher."@)
    } else if contains_text(lower, "launchd"@) {
        Some("launchd - Zentraler macOS-Prozessmanager. Startet und verwaltet alle Dienste. Essentiell."@)
    } else if contains_text(lower, "loginwindow"@) {
        Some("loginwindow - macOS Anmeldeprozess und Benutzersitzungsverwaltung. Essentiell."@)
    } else if contains_text(lower, "finder"@) {
        Some("Finder - macOS Dateimanager und Desktop-Verwaltung. Standard-App von Apple."@)
    } else if contains_text(lower, "dock"@) && !contains_text(lower, "docker"@) {
        Some("Dock - macOS Anwendungsleiste am unteren Bildschirmrand. System-App von Apple."@)
    } else if contains_text(lower, "systemuiserver"@) {
        Some("SystemUIServer - Verwaltet die macOS-Menüleiste und Systemsymbole. Essentiell."@)
    } else if contains_text(lower, "coreaudio"@) {
        Some("CoreAudio - macOS Audiosystem. Verwaltet alle Audioein- und -ausgaben. Essentiell."@)
    } else if contains_text(lower, "airplay"@) {
        Some("AirPlay - Apple-Dienst für drahtloses Streaming zu Apple TV und kompatiblen Geräten."@)
    } else if contains_text(lower, "bluetooth"@) {
        Some("Bluetooth-Dienst - Verwaltet Bluetooth-Verbindungen zu Geräten wie Kopfhörern, Tastaturen etc."@)
    } else if contains_text(lower, "wifi"@) || contains_text(lower, "wlan"@) {
        Some("WLAN/WiFi-Dienst - Verwaltet drahtlose Netzwerkverbindungen. Essentiell für Internet."@)
    } else if contains_text(lower, "cfprefsd"@) {
        Some("cfprefsd - macOS Einstellungs-Daemon. Verwaltet App-Einstellungen und Preferences. Essentiell."@)
    } else if contains_text(lower, "distnoted"@) {
        Some("distnoted - Distributed Notification Server. Verwaltet System-Benachrichtigungen zwischen Apps."@)
    } else if contains_text(lower, "notificationcenter"@) || contains_text(lower, "usernoted"@) {
        Some("Notification Center - macOS Benachrichtigungszentrale für App-Mitteilungen."@)
    } else if contains_text(lower, "coreservices"@) {
        Some("CoreServices - Zentrale macOS-Systemdienste. Verschiedene Hintergrundprozesse."@)
    } else if contains_text(lower, "imagent"@) || contains_text(lower, "imessage"@) {
        Some("iMessage-Dienst - Apple Nachrichtendienst für iMessage und SMS-Weiterleitung."@)
    } else if contains_text(lower, "facetime"@) {
        Some("FaceTime - Apple Video- und Audioanrufdienst."@)
    } else if contains_text(lower, "icloud"@) || contains_text(lower, "bird"@) {
        Some("iCloud-Dienst - Synchronisiert Dateien, Fotos und Daten mit Apple iCloud."@)
    } else if contains_text(lower, "photoanalysis"@) || contains_text(lower, "photolibrary"@) {
        Some("Fotos-Analyse - Analysiert Bilder für Gesichtserkennung und intelligente Alben."@)
    } else if contains_text(lower, "backupd"@) || contains_text(lower, "timemachine"@) {
        Some("Time Machine - macOS Backup-System. Erstellt automatische Sicherungen."@)
    } else if contains_text(lower, "softwareupdate"@) {
        Some("Software Update - macOS Aktualisierungsdienst für System- und App-Updates."@)
    } else if contains_text(lower, "siri"@) || contains_text(lower, "assistant"@) {
        Some("Siri - Apple Sprachassistent. Verarbeitet Sprachbefehle und -anfragen."@)
    } else if contains_text(lower, "securityd"@) || contains_text(lower, "trustd"@) {
        Some("Sicherheitsdienst - Verwaltet Zertifikate, Schlüsselbund und Sicherheitsrichtlinien. Essentiell."@)
    } else if contains_text(lower, "opendirectory"@) || contains_text(lower, "dscacheutil"@) {
        Some("Directory Service - Verwaltet Benutzer, Gruppen und Netzwerkverzeichnisse."@)
    } else {
        None
    }
}

/// Web browsers and their engines.
pub open spec fn browsers_note(lower: Seq<char>) -> Option<Seq<char>> {
    if contains_text(lower, "chrome"@) {
        if contains_text(lower, "helper"@) {
            Some("Chrome Helper - Unterprozess von Google Chrome für Tabs, Erweiterungen und Plugins. Isoliert für Sicherheit."@)
        } else {
            Some("Google Chrome - Webbrowser von Google. Verwendet mehrere Prozesse für Stabilität."@)
        }
    } else if contains_text(lower, "firefox"@) {
        Some("Mozilla Firefox - Open-Source Webbrowser. Verwendet Multiprozess-Architektur."@)
    } else if contains_text(lower, "safari"@) {
        if contains_text(lower, "networking"@) {
            Some("Safari Networking - Netzwerk-Prozess für Safari-Webbrowser."@)
        } else {
            Some("Safari - Apple Webbrowser. Standard-Browser auf macOS und iOS."@)
        }
    } else if contains_text(lower, "edge"@) {
        Some("Microsoft Edge - Chromium-basierter Webbrowser von Microsoft."@)
    } else if contains_text(lower, "brave"@) {
        Some("Brave Browser - Datenschutzorientierter Webbrowser mit integriertem Werbeblocker."@)
    } else if contains_text(lower, "opera"@) {
        Some("Opera - Webbrowser mit integriertem VPN und Werbeblocker."@)
    } else if contains_text(lower, "webkit"@) {
        Some("WebKit - Browser-Engine für Safari und andere Apps. Rendert Webseiten."@)
    } else {
        None
    }
}

/// Tools of software development, databases among them.
pub open spec fn development_tools_note(lower: Seq<char>) -> Option<Seq<char>> {
    if contains_text(lower, "docker"@) {
        Some("Docker - Container-Virtualisierung. Führt Anwendungen in isolierten Containern aus."@)
    } else if contains_text(lower, "node"@) && !contains_text(lower, "notification"@) {
        Some("Node.js - JavaScript-Laufzeitumgebung für Webentwicklung und Server."@)
    } else if contains_text(lower, "code"@) && (contains_text(lower, "helper"@) || contains_text(lower, "visual"@)) {
        Some("Visual Studio Code - Microsoft Code-Editor. Helper-Prozesse für Erweiterungen."@)
    } else if contains_text(lower, "xcode"@) {
        Some("Xcode - Apple Entwicklungsumgebung für macOS, iOS und andere Apple-Plattformen."@)
    } else if contains_text(lower, "simulator"@) {
        Some("iOS Simulator - Emuliert iPhone/iPad für App-Entwicklung und Tests."@)
    } else if contains_text(lower, "git"@) {
        Some("Git - Versionskontrollsystem für Softwareentwicklung."@)
    } else if contains_text(lower, "npm"@) {
        Some("npm - Node Package Manager. Verwaltet JavaScript-Pakete und Abhängigkeiten."@)
    } else if contains_text(lower, "yarn"@) {
        Some("Yarn - Alternativer JavaScript-Paketmanager, oft schneller als npm."@)
    } else if contains_text(lower, "python"@) {
        Some("Python - Programmiersprache. Weit verbreitet für Scripting, KI und Webentwicklung."@)
    } else if contains_text(lower, "ruby"@) {
        Some("Ruby - Programmiersprache. Bekannt für Ruby on Rails Webframework."@)
    } else if contains_text(lower, "java"@) && !contains_text(lower, "javascript"@) {
        Some("Java - Programmiersprache und Laufzeitumgebung. Weit verbreitet in Unternehmen."@)
    } else if contains_text(lower, "rust"@) {
        Some("Rust - Systemprogrammiersprache. Bekannt für Sicherheit und Performance."@)
    } else if contains_text(lower, "cargo"@) {
        Some("Cargo - Rust Paketmanager und Build-System."@)
    } else if contains_text(lower, "go"@) && encode_utf8(lower).len() < 10 {
        Some("Go/Golang - Programmiersprache von Google. Bekannt für Einfachheit und Performance."@)
    } else if contains_text(lower, "postgres"@) || contains_text(lower, "psql"@) {
        Some("PostgreSQL - Leistungsstarke Open-Source Datenbank."@)
    } else if contains_text(lower, "mysql"@) {
        Some("MySQL - Populäre relationale Datenbank."@)
    } else if contains_text(lower, "redis"@) {
        Some("Redis - In-Memory Datenbank für Caching und Nachrichtenwarteschlangen."@)
    } else if contains_text(lower, "mongo"@) {
        Some("MongoDB - NoSQL-Dokumentendatenbank."@)
    } else if contains_text(lower, "ollama"@) {
        Some("Ollama - Lokale KI/LLM-Laufzeitumgebung. Führt Sprachmodelle auf Ihrem Computer aus."@)
    } else if contains_text(lower, "tauri"@) {
        Some("Tauri - Framework für Desktop-Anwendungen mit Webtechnologien."@)
    } else if contains_text(lower, "electron"@) {
        Some("Electron - Framework für Desktop-Apps (z.B. VS Code, Slack, Discord)."@)
    } else if contains_text(lower, "jetbrains"@) || contains_text(lower, "intellij"@) || contains_text(lower, "pycharm"@) || contains_text(lower, "webstorm"@) {
        Some("JetBrains IDE - Professionelle Entwicklungsumgebung für verschiedene Programmiersprachen."@)
    } else {
        None
    }
}

/// Messengers and conferencing.
pub open spec fn communication_note(lower: Seq<char>) -> Option<Seq<char>> {
    if contains_text(lower, "slack"@) {
        Some("Slack - Team-Kommunikationsplattform für Unternehmen."@)
    } else if contains_text(lower, "discord"@) {
        Some("Discord - Voice-, Video- und Text-Chat-Plattform."@)
    } else if contains_text(lower, "zoom"@) {
        Some("Zoom - Videokonferenz-Software für Meetings und Webinare."@)
    } else if contains_text(lower, "teams"@) {
        Some("Microsoft Teams - Kommunikationsplattform für Unternehmen."@)
    } else if contains_text(lower, "telegram"@) {
        Some("Telegram - Cloud-basierter Messenger mit Fokus auf Geschwindigkeit und Sicherheit."@)
    } else if contains_text(lower, "whatsapp"@) {
        Some("WhatsApp - Messenger von Meta für Text, Sprach- und Videoanrufe."@)
    } else if contains_text(lower, "signal"@) {
        Some("Signal - Sicherer Messenger mit Ende-zu-Ende-Verschlüsselung."@)
    } else if contains_text(lower, "skype"@) {
        Some("Skype - Video- und Sprachanrufdienst von Microsoft."@)
    } else {
        None
    }
}

/// Music, cloud storage, notes and password managers.
pub open spec fn productivity_note(lower: Seq<char>) -> Option<Seq<char>> {
    if contains_text(lower, "spotify"@) {
        Some("Spotify - Musik-Streaming-Dienst."@)
    } else if contains_text(lower, "dropbox"@) {
        Some("Dropbox - Cloud-Speicher und Dateisynchronisation."@)
    } else if contains_text(lower, "onedrive"@) {
        Some("OneDrive - Microsoft Cloud-Speicher, integriert in Windows und Office."@)
    } else if contains_text(lower, "notion"@) {
        Some("Notion - All-in-One Workspace für Notizen, Dokumente und Projektmanagement."@)
    } else if contains_text(lower, "obsidian"@) {
        Some("Obsidian - Wissensmanagement-App mit Markdown-Notizen und Verknüpfungen."@)
    } else if contains_text(lower, "1password"@) || contains_text(lower, "onepassword"@) {
        Some("1Password - Passwort-Manager für sichere Speicherung von Zugangsdaten."@)
    } else if contains_text(lower, "bitwarden"@) {
        Some("Bitwarden - Open-Source Passwort-Manager."@)
    } else if contains_text(lower, "lastpass"@) {
        Some("LastPass - Cloud-basierter Passwort-Manager."@)
    } else {
        None
    }
}

/// VPN clients and security software.
pub open spec fn security_vpn_note(lower: Seq<char>) -> Option<Seq<char>> {
    if contains_text(lower, "vpn"@) {
        Some("VPN-Client - Stellt sichere, verschlüsselte Netzwerkverbindungen her."@)
    } else if contains_text(lower, "wireguard"@) {
        Some("WireGuard - Modernes, schnelles VPN-Protokoll."@)
    } else if contains_text(lower, "openvpn"@) {
        Some("OpenVPN - Open-Source VPN-Lösung."@)
    } else if contains_text(lower, "antivir"@) || contains_text(lower, "avast"@) || contains_text(lower, "norton"@) || contains_text(lower, "kaspersky"@) || contains_text(lower, "malware"@) {
        Some("Antivirus/Sicherheitssoftware - Schützt vor Malware und Bedrohungen."@)
    } else if contains_text(lower, "littlesnitch"@) {
        Some("Little Snitch - macOS Firewall zur Kontrolle ausgehender Verbindungen."@)
    } else {
        None
    }
}

/// Media players and recorders.
pub open spec fn media_note(lower: Seq<char>) -> Option<Seq<char>> {
    if contains_text(lower, "vlc"@) {
        Some("VLC - Open-Source Mediaplayer für fast alle Audio- und Videoformate."@)
    } else if contains_text(lower, "quicktime"@) {
        Some("QuickTime - Apple Mediaplayer und Framework."@)
    } else if contains_text(lower, "handbrake"@) {
        Some("HandBrake - Open-Source Videokonverter."@)
    } else if contains_text(lower, "obs"@) {
        Some("OBS Studio - Open-Source Software für Streaming und Aufnahme."@)
    } else {
        None
    }
}

/// Launchers, window managers and cleaners.
pub open spec fn system_utilities_note(lower: Seq<char>) -> Option<Seq<char>> {
    if contains_text(lower, "alfred"@) {
        Some("Alfred - Produktivitäts-App für macOS mit Spotlight-Alternative und Workflows."@)
    } else if contains_text(lower, "raycast"@) {
        Some("Raycast - Produktivitäts-Tool und Launcher für macOS."@)
    } else if contains_text(lower, "rectangle"@) || contains_text(lower, "magnet"@) {
        Some("Fenster-Manager - Organisiert Fenster auf dem Desktop mit Tastenkombinationen."@)
    } else if contains_text(lower, "bartender"@) {
        Some("Bartender - Organisiert und versteckt Menüleistensymbole auf macOS."@)
    } else if contains_text(lower, "cleanmymac"@) || contains_text(lower, "ccleaner"@) {
        Some("System-Cleaner - Bereinigt temporäre Dateien und Cache."@)
    } else {
        None
    }
}

/// What the shape of a name tells where nothing else is known.
pub open spec fn generic_patterns_note(lower: Seq<char>) -> Option<Seq<char>> {
    if contains_text(lower, "helper"@) {
        Some("Helper-Prozess - Unterprozess einer Anwendung für spezielle Aufgaben."@)
    } else if contains_text(lower, "agent"@) {
        Some("Agent-Prozess - Hintergrundprozess einer Anwendung oder des Systems."@)
    } else if contains_text(lower, "daemon"@) || has_suffix(lower, "d"@) && encode_utf8(lower).len() < 15 {
        Some("Daemon - Hintergrunddienst, der ohne Benutzerinteraktion läuft."@)
    } else if contains_text(lower, "service"@) {
        Some("Systemdienst - Hintergrundprozess für bestimmte Funktionen."@)
    } else if contains_text(lower, "updater"@) || contains_text(lower, "update"@) {
        Some("Update-Dienst - Prüft und installiert Software-Aktualisierungen."@)
    } else if has_prefix(lower, "com.apple."@) {
        Some("Apple-Systemdienst - Interner macOS-Prozess. In der Regel essentiell."@)
    } else {
        None
    }
}

/// Processes of the Adobe suite.
fn explain_adobe(lower: &Vec<char>) -> (r: Option<&'static str>)
    ensures
        static_text(r) == adobe_note(lower@),
{
    if holds(lower, "adobe") {
        if holds(lower, "arm") || holds(lower, "armdchelper") {
            Some("Adobe ARM (Application Resource Manager) - Verwaltet automatische Updates für Adobe-Programme. Sicher, aber optional wenn Sie keine Adobe-Produkte nutzen.")
        } else if holds(lower, "cef") || holds(lower, "cefhelper") {
            Some("Adobe CEF Helper - Chromium-basierter Prozess für Web-Inhalte in Adobe Creative Cloud. Sicher, optional bei Nichtnutzung.")
        } else if holds(lower, "creative") || holds(lower, "cc") {
            Some("Adobe Creative Cloud - Verwaltungs-App für Adobe-Produkte wie Photoshop, Illustrator etc.")
        } else if holds(lower, "ipc") {
            Some("Adobe IPC Broker - Kommunikationsprozess zwischen Adobe-Anwendungen. Sicher.")
        } else {
            Some("Adobe-Prozess - Gehört zur Adobe-Software-Suite. In der Regel sicher.")
        }
    } else {
        None
    }
}

/// Processes of macOS itself.
fn explain_apple_macos_system(lower: &Vec<char>) -> (r: Option<&'static str>)
    ensures
        static_text(r) == apple_macos_system_note(lower@),
{
    if holds(lower, "windowserver") {
        Some("WindowServer - Essentieller macOS-Prozess für die grafische Oberfläche. NIEMALS beenden!")
    } else if holds(lower, "kernel_task") || chars_eq_str(lower, "kernel") {
        Some("kernel_task - Kern des macOS-Betriebssystems. Verwaltet Hardware und Ressourcen. Essentiell.")
    } else if holds(lower, "spotlight") || holds(lower, "mds") || holds(lower, "mdworker") {
        Some("Spotlight - macOS Suchindizierung. Durchsucht und indiziert Dateien für schnelle Suche. Sicher.")
    } else if holds(lower, "launchd") {
        Some("launchd - Zentraler macOS-Prozessmanager. Startet und verwaltet alle Dienste. Essentiell.")
    } else if holds(lower, "loginwindow") {
        Some("loginwindow - macOS Anmeldeprozess und Benutzersitzungsverwaltung. Essentiell.")
    } else if holds(lower, "finder") {
        Some("Finder - macOS Dateimanager und Desktop-Verwaltung. Standard-App von Apple.")
    } else if holds(lower, "dock") && !holds(lower, "docker") {
        Some("Dock - macOS Anwendungsleiste am unteren Bildschirmrand. System-App von Apple.")
    } else if holds(lower, "systemuiserver") {
        Some("SystemUIServer - Verwaltet die macOS-Menüleiste und Systemsymbole. Essentiell.")
    } else if holds(lower, "coreaudio") {
        Some("CoreAudio - macOS Audiosystem. Verwaltet alle Audioein- und -ausgaben. Essentiell.")
    } else if holds(lower, "airplay") {
        Some("AirPlay - Apple-Dienst für drahtloses Streaming zu Apple TV und kompatiblen Geräten.")
    } else if holds(lower, "bluetooth") {
        Some("Bluetooth-Dienst - Verwaltet Bluetooth-Verbindungen zu Geräten wie Kopfhörern, Tastaturen etc.")
    } else if holds(lower, "wifi") || holds(lower, "wlan") {
        Some("WLAN/WiFi-Dienst - Verwaltet drahtlose Netzwerkverbindungen. Essentiell für Internet.")
    } else if holds(lower, "cfprefsd") {
        Some("cfprefsd - macOS Einstellungs-Daemon. Verwaltet App-Einstellungen und Preferences. Essentiell.")
    } else if holds(lower, "distnoted") {
        Some("distnoted - Distributed Notification Server. Verwaltet System-Benachrichtigungen zwischen Apps.")
    } else if holds(lower, "notificationcenter") || holds(lower, "usernoted") {
        Some("Notification Center - macOS Benachrichtigungszentrale für App-Mitteilungen.")
    } else if holds(lower, "coreservices") {
        Some("CoreServices - Zentrale macOS-Systemdienste. Verschiedene Hintergrundprozesse.")
    } else if holds(lower, "imagent") || holds(lower, "imessage") {
        Some("iMessage-Dienst - Apple Nachrichtendienst für iMessage und SMS-Weiterleitung.")
    } else if holds(lower, "facetime") {
        Some("FaceTime - Apple Video- und Audioanrufdienst.")
    } else if holds(lower, "icloud") || holds(lower, "bird") {
        Some("iCloud-Dienst - Synchronisiert Dateien, Fotos und Daten mit Apple iCloud.")
    } else if holds(lower, "photoanalysis") || holds(lower, "photolibrary") {
        Some("Fotos-Analyse - Analysiert Bilder für Gesichtserkennung und intelligente Alben.")
    } else if holds(lower, "backupd") || holds(lower, "timemachine") {
        Some("Time Machine - macOS Backup-System. Erstellt automatische Sicherungen.")
    } else if holds(lower, "softwareupdate") {
        Some("Software Update - macOS Aktualisierungsdienst für System- und App-Updates.")
    } else if holds(lower, "siri") || holds(lower, "assistant") {
        Some("Siri - Apple Sprachassistent. Verarbeitet Sprachbefehle und -anfragen.")
    } else if holds(lower, "securityd") || holds(lower, "trustd") {
        Some("Sicherheitsdienst - Verwaltet Zertifikate, Schlüsselbund und Sicherheitsrichtlinien. Essentiell.")
    } else if holds(lower, "opendirectory") || holds(lower, "dscacheutil") {
        Some("Directory Service - Verwaltet Benutzer, Gruppen und Netzwerkverzeichnisse.")
    } else {
        None
    }
}

/// Web browsers and their engines.
fn explain_browsers(lower: &Vec<char>) -> (r: Option<&'static str>)
    ensures
        static_text(r) == browsers_note(lower@),
{
    if holds(lower, "chrome") {
        if holds(lower, "helper") {
            Some("Chrome Helper - Unterprozess von Google Chrome für Tabs, Erweiterungen und Plugins. Isoliert für Sicherheit.")
        } else {
            Some("Google Chrome - Webbrowser von Google. Verwendet mehrere Prozesse für Stabilität.")
        }
    } else if holds(lower, "firefox") {
        Some("Mozilla Firefox - Open-Source Webbrowser. Verwendet Multiprozess-Architektur.")
    } else if holds(lower, "safari") {
        if holds(lower, "networking") {
            Some("Safari Networking - Netzwerk-Prozess für Safari-Webbrowser.")
        } else {
            Some("Safari - Apple Webbrowser. Standard-Browser auf macOS und iOS.")
        }
    } else if holds(lower, "edge") {
        Some("Microsoft Edge - Chromium-basierter Webbrowser von Microsoft.")
    } else if holds(lower, "brave") {
        Some("Brave Browser - Datenschutzorientierter Webbrowser mit integriertem Werbeblocker.")
    } else if holds(lower, "opera") {
        Some("Opera - Webbrowser mit integriertem VPN und Werbeblocker.")
    } else if holds(lower, "webkit") {
        Some("WebKit - Browser-Engine für Safari und andere Apps. Rendert Webseiten.")
    } else {
        None
    }
}

/// Tools of software development, databases among them.
fn explain_development_tools(lower: &Vec<char>, bytes: usize) -> (r: Option<&'static str>)
    requires
        bytes == encode_utf8(lower@).len(),
    ensures
        static_text(r) == development_tools_note(lower@),
{
    if holds(lower, "docker") {
        Some("Docker - Container-Virtualisierung. Führt Anwendungen in isolierten Containern aus.")
    } else if holds(lower, "node") && !holds(lower, "notification") {
        Some("Node.js - JavaScript-Laufzeitumgebung für Webentwicklung und Server.")
    } else if holds(lower, "code") && (holds(lower, "helper") || holds(lower, "visual")) {
        Some("Visual Studio Code - Microsoft Code-Editor. Helper-Prozesse für Erweiterungen.")
    } else if holds(lower, "xcode") {
        Some("Xcode - Apple Entwicklungsumgebung für macOS, iOS und andere Apple-Plattformen.")
    } else if holds(lower, "simulator") {
        Some("iOS Simulator - Emuliert iPhone/iPad für App-Entwicklung und Tests.")
    } else if holds(lower, "git") {
        Some("Git - Versionskontrollsystem für Softwareentwicklung.")
    } else if holds(lower, "npm") {
        Some("npm - Node Package Manager. Verwaltet JavaScript-Pakete und Abhängigkeiten.")
    } else if holds(lower, "yarn") {
        Some("Yarn - Alternativer JavaScript-Paketmanager, oft schneller als npm.")
    } else if holds(lower, "python") {
        Some("Python - Programmiersprache. Weit verbreitet für Scripting, KI und Webentwicklung.")
    } else if holds(lower, "ruby") {
        Some("Ruby - Programmiersprache. Bekannt für Ruby on Rails Webframework.")
    } else if holds(lower, "java") && !holds(lower, "javascript") {
        Some("Java - Programmiersprache und Laufzeitumgebung. Weit verbreitet in Unternehmen.")
    } else if holds(lower, "rust") {
        Some("Rust - Systemprogrammiersprache. Bekannt für Sicherheit und Performance.")
    } else if holds(lower, "cargo") {
        Some("Cargo - Rust Paketmanager und Build-System.")
    } else if holds(lower, "go") && bytes < 10 {
        Some("Go/Golang - Programmiersprache von Google. Bekannt für Einfachheit und Performance.")
    } else if holds(lower, "postgres") || holds(lower, "psql") {
        Some("PostgreSQL - Leistungsstarke Open-Source Datenbank.")
    } else if holds(lower, "mysql") {
        Some("MySQL - Populäre relationale Datenbank.")
    } else if holds(lower, "redis") {
        Some("Redis - In-Memory Datenbank für Caching und Nachrichtenwarteschlangen.")
    } else if holds(lower, "mongo") {
        Some("MongoDB - NoSQL-Dokumentendatenbank.")
    } else if holds(lower, "ollama") {
        Some("Ollama - Lokale KI/LLM-Laufzeitumgebung. Führt Sprachmodelle auf Ihrem Computer aus.")
    } else if holds(lower, "tauri") {
        Some("Tauri - Framework für Desktop-Anwendungen mit Webtechnologien.")
    } else if holds(lower, "electron") {
        Some("Electron - Framework für Desktop-Apps (z.B. VS Code, Slack, Discord).")
    } else if holds(lower, "jetbrains") || holds(lower, "intellij") || holds(lower, "pycharm") || holds(lower, "webstorm") {
        Some("JetBrains IDE - Professionelle Entwicklungsumgebung für verschiedene Programmiersprachen.")
    } else {
        None
    }
}

/// Messengers and conferencing.
fn explain_communication(lower: &Vec<char>) -> (r: Option<&'static str>)
    ensures
        static_text(r) == communication_note(lower@),
{
    if holds(lower, "slack") {
        Some("Slack - Team-Kommunikationsplattform für Unternehmen.")
    } else if holds(lower, "discord") {
        Some("Discord - Voice-, Video- und Text-Chat-Plattform.")
    } else if holds(lower, "zoom") {
        Some("Zoom - Videokonferenz-Software für Meetings und Webinare.")
    } else if holds(lower, "teams") {
        Some("Microsoft Teams - Kommunikationsplattform für Unternehmen.")
    } else if holds(lower, "telegram") {
        Some("Telegram - Cloud-basierter Messenger mit Fokus auf Geschwindigkeit und Sicherheit.")
    } else if holds(lower, "whatsapp") {
        Some("WhatsApp - Messenger von Meta für Text, Sprach- und Videoanrufe.")
    } else if holds(lower, "signal") {
        Some("Signal - Sicherer Messenger mit Ende-zu-Ende-Verschlüsselung.")
    } else if holds(lower, "skype") {
        Some("Skype - Video- und Sprachanrufdienst von Microsoft.")
    } else {
        None
    }
}

/// Music, cloud storage, notes and password managers.
fn explain_productivity(lower: &Vec<char>) -> (r: Option<&'static str>)
    ensures
        static_text(r) == productivity_note(lower@),
{
    if holds(lower, "spotify") {
        Some("Spotify - Musik-Streaming-Dienst.")
    } else if holds(lower, "dropbox") {
        Some("Dropbox - Cloud-Speicher und Dateisynchronisation.")
    } else if holds(lower, "onedrive") {
        Some("OneDrive - Microsoft Cloud-Speicher, integriert in Windows und Office.")
    } else if holds(lower, "notion") {
        Some("Notion - All-in-One Workspace für Notizen, Dokumente und Projektmanagement.")
    } else if holds(lower, "obsidian") {
        Some("Obsidian - Wissensmanagement-App mit Markdown-Notizen und Verknüpfungen.")
    } else if holds(lower, "1password") || holds(lower, "onepassword") {
        Some("1Password - Passwort-Manager für sichere Speicherung von Zugangsdaten.")
    } else if holds(lower, "bitwarden") {
        Some("Bitwarden - Open-Source Passwort-Manager.")
    } else if holds(lower, "lastpass") {
        Some("LastPass - Cloud-basierter Passwort-Manager.")
    } else {
        None
    }
}

/// VPN clients and security software.
fn explain_security_vpn(lower: &Vec<char>) -> (r: Option<&'static str>)
    ensures
        static_text(r) == security_vpn_note(lower@),
{
    if holds(lower, "vpn") {
        Some("VPN-Client - Stellt sichere, verschlüsselte Netzwerkverbindungen her.")
    } else if holds(lower, "wireguard") {
        Some("WireGuard - Modernes, schnelles VPN-Protokoll.")
    } else if holds(lower, "openvpn") {
        Some("OpenVPN - Open-Source VPN-Lösung.")
    } else if holds(lower, "antivir") || holds(lower, "avast") || holds(lower, "norton") || holds(lower, "kaspersky") || holds(lower, "malware") {
        Some("Antivirus/Sicherheitssoftware - Schützt vor Malware und Bedrohungen.")
    } else if holds(lower, "littlesnitch") {
        Some("Little Snitch - macOS Firewall zur Kontrolle ausgehender Verbindungen.")
    } else {
        None
    }
}

/// Media players and recorders.
fn explain_media(lower: &Vec<char>) -> (r: Option<&'static str>)
    ensures
        static_text(r) == media_note(lower@),
{
    if holds(lower, "vlc") {
        Some("VLC - Open-Source Mediaplayer für fast alle Audio- und Videoformate.")
    } else if holds(lower, "quicktime") {
        Some("QuickTime - Apple Mediaplayer und Framework.")
    } else if holds(lower, "handbrake") {
        Some("HandBrake - Open-Source Videokonverter.")
    } else if holds(lower, "obs") {
        Some("OBS Studio - Open-Source Software für Streaming und Aufnahme.")
    } else {
        None
    }
}

/// Launchers, window managers and cleaners.
fn explain_system_utilities(lower: &Vec<char>) -> (r: Option<&'static str>)
    ensures
        static_text(r) == system_utilities_note(lower@),
{
    if holds(lower, "alfred") {
        Some("Alfred - Produktivitäts-App für macOS mit Spotlight-Alternative und Workflows.")
    } else if holds(lower, "raycast") {
        Some("Raycast - Produktivitäts-Tool und Launcher für macOS.")
    } else if holds(lower, "rectangle") || holds(lower, "magnet") {
        Some("Fenster-Manager - Organisiert Fenster auf dem Desktop mit Tastenkombinationen.")
    } else if holds(lower, "bartender") {
        Some("Bartender - Organisiert und versteckt Menüleistensymbole auf macOS.")
    } else if holds(lower, "cleanmymac") || holds(lower, "ccleaner") {
        Some("System-Cleaner - Bereinigt temporäre Dateien und Cache.")
    } else {
        None
    }
}

/// What the shape of a name tells where nothing else is known.
fn explain_generic_patterns(lower: &Vec<char>, bytes: usize) -> (r: Option<&'static str>)
    requires
        bytes == encode_utf8(lower@).len(),
    ensures
        static_text(r) == generic_patterns_note(lower@),
{
    if holds(lower, "helper") {
        Some("Helper-Prozess - Unterprozess einer Anwendung für spezielle Aufgaben.")
    } else if holds(lower, "agent") {
        Some("Agent-Prozess - Hintergrundprozess einer Anwendung oder des Systems.")
    } else if holds(lower, "daemon") || ends(lower, "d") && bytes < 15 {
        Some("Daemon - Hintergrunddienst, der ohne Benutzerinteraktion läuft.")
    } else if holds(lower, "service") {
        Some("Systemdienst - Hintergrundprozess für bestimmte Funktionen.")
    } else if holds(lower, "updater") || holds(lower, "update") {
        Some("Update-Dienst - Prüft und installiert Software-Aktualisierungen.")
    } else if begins(lower, "com.apple.") {
        Some("Apple-Systemdienst - Interner macOS-Prozess. In der Regel essentiell.")
    } else {
        None
    }
}

/// What is known of a process with this lower-case name. The groups of
/// rules are asked in turn, and within a group the first rule that fits
/// answers.
pub open spec fn note_for(lower: Seq<char>) -> Option<Seq<char>> {
    match adobe_note(lower) {
        Some(t) => Some(t),
        None => match apple_macos_system_note(lower) {
            Some(t) => Some(t),
            None => match browsers_note(lower) {
                Some(t) => Some(t),
                None => match development_tools_note(lower) {
                    Some(t) => Some(t),
                    None => match communication_note(lower) {
                        Some(t) => Some(t),
                        None => match productivity_note(lower) {
                            Some(t) => Some(t),
                            None => match security_vpn_note(lower) {
                                Some(t) => Some(t),
                                None => match media_note(lower) {
                                    Some(t) => Some(t),
                                    None => match system_utilities_note(lower) {
                                        Some(t) => Some(t),
                                        None => match generic_patterns_note(lower) {
                                            Some(t) => Some(t),
                                            None => None,
                                        },
                                    },
                                },
                            },
                        },
                    },
                },
            },
        },
    }
}

/// What is known of a process by its name, whatever its case.
pub open spec fn known_explanation(name: Seq<char>) -> Option<Seq<char>> {
    note_for(lowercase(name))
}

/// What is known of a process by its name, if anything.
pub fn get_known_process_explanation(name: &str) -> (r: Option<String>)
    ensures
        text_of(r) == known_explanation(name@),
{
    explain_lower_name(to_lowercase(name).as_str())
}

/// What is known of a process with this lower-case name, if anything.
pub fn explain_lower_name(lower_name: &str) -> (r: Option<String>)
    ensures
        text_of(r) == note_for(lower_name@),
{
    let bytes = lower_name.as_bytes().len();
    let lower = str_chars(lower_name);
    let found: Option<&'static str> = match explain_adobe(&lower) {
        Some(t) => Some(t),
        None => match explain_apple_macos_system(&lower) {
            Some(t) => Some(t),
            None => match explain_browsers(&lower) {
                Some(t) => Some(t),
                None => match explain_development_tools(&lower, bytes) {
                    Some(t) => Some(t),
                    None => match explain_communication(&lower) {
                        Some(t) => Some(t),
                        None => match explain_productivity(&lower) {
                            Some(t) => Some(t),
                            None => match explain_security_vpn(&lower) {
                                Some(t) => Some(t),
                                None => match explain_media(&lower) {
                                    Some(t) => Some(t),
                                    None => match explain_system_utilities(&lower) {
                                        Some(t) => Some(t),
                                        None => match explain_generic_patterns(&lower, bytes) {
                                            Some(t) => Some(t),
                                            None => None,
                                        },
                                    },
                                },
                            },
                        },
                    },
                },
            },
        },
    };
    match found {
        Some(t) => Some(t.to_string()),
        None => None,
    }
}

/// The index of the last `c` in `s`.
pub open spec fn last_index_of(s: Seq<char>, c: char) -> Option<int>
    decreases s.len(),
{
    if s.len() == 0 {
        None
    } else if s.last() == c {
        Some(s.len() - 1)
    } else {
        last_index_of(s.drop_last(), c)
    }
}

/// The index of the first `c` in `s`.
pub open spec fn first_index_of_char(s: Seq<char>, c: char) -> Option<int>
    decreases s.len(),
{
    if s.len() == 0 {
        None
    } else {
        match first_index_of_char(s.drop_last(), c) {
            Some(i) => Some(i),
            None => if s.last() == c {
                Some(s.len() - 1)
            } else {
                None
            },
        }
    }
}

/// The JSON array in an answer that may hold other text around it: what
/// stands from the first opening bracket to the last closing bracket, where
/// the one comes before the other.
pub open spec fn json_array_in(text: Seq<char>) -> Option<Seq<char>> {
    match (first_index_of_char(text, '['), last_index_of(text, ']')) {
        (Some(start), Some(end)) => if start < end {
            Some(text.subrange(start, end + 1))
        } else {
            None
        },
        _ => None,
    }
}

/// Where `c` first stands in `s`.
pub fn find_char(s: &Vec<char>, c: char) -> (r: Option<usize>)
    ensures
        match r {
            Some(i) => first_index_of_char(s@, c) == Some(i as int) && i < s.len(),
            None => first_index_of_char(s@, c).is_none(),
        },
{
    let mut i: usize = 0;
    while i < s.len()
        invariant
            i <= s.len(),
            first_index_of_char(s@.take(i as int), c).is_none(),
        decreases s.len() - i,
    {
        assert(s@.take(i + 1).drop_last() == s@.take(i as int));
        if s[i] == c {
            proof {
                lemma_first_index_stays(s@, c, i + 1);
            }
            return Some(i);
        }
        i += 1;
    }
    assert(s@.take(s.len() as int) == s@);
    None
}

/// An index found in a prefix is the index in the whole.
pub proof fn lemma_first_index_stays(s: Seq<char>, c: char, n: int)
    requires
        0 <= n <= s.len(),
        first_index_of_char(s.take(n), c).is_some(),
    ensures
        first_index_of_char(s, c) == first_index_of_char(s.take(n), c),
    decreases s.len() - n,
{
    if n < s.len() {
        assert(s.take(n + 1).drop_last() == s.take(n));
        lemma_first_index_stays(s, c, n + 1);
    } else {
        assert(s.take(n) == s);
    }
}

/// Where `c` last stands in `s`.
pub fn rfind_char(s: &Vec<char>, c: char) -> (r: Option<usize>)
    ensures
        match r {
            Some(i) => last_index_of(s@, c) == Some(i as int) && i < s.len(),
            None => last_index_of(s@, c).is_none(),
        },
{
    let mut n: usize = s.len();
    assert(s@.take(n as int) == s@);
    while n > 0
        invariant
            n <= s.len(),
            last_index_of(s@, c) == last_index_of(s@.take(n as int), c),
        decreases n,
    {
        assert(s@.take(n as int).drop_last() == s@.take(n - 1));
        if s[n - 1] == c {
            return Some(n - 1);
        }
        n -= 1;
    }
    None
}

/// The JSON array in an answer, if it holds one.
pub fn extract_json_array(text: &str) -> (r: Option<String>)
    ensures
        text_of(r) == json_array_in(text@),
{
    let chars = str_chars(text);
    match find_char(&chars, '[') {
        Some(start) => match rfind_char(&chars, ']') {
            Some(end) => {
                if start < end {
                    Some(string_from_chars(&slice_chars(&chars, start, end + 1)))
                } else {
                    None
                }
            },
            None => None,
        },
        None => None,
    }
}

/// The recommendations shown while the language model cannot be asked: one
/// hint at how to start it.
pub fn get_default_recommendations() -> (r: Vec<ServiceRecommendation>)
    ensures
        r.len() == 1,
        r[0].service_id@ == "tip"@,
        r[0].service_name@ == "Ollama"@,
        r[0].recommendation_type == RecommendationType::Info,
        r[0].title@ == "KI-Empfehlungen aktivieren"@,
        r[0].description@
            == "Starten Sie Ollama für intelligente, personalisierte Empfehlungen basierend auf Ihren laufenden Services."@,
        text_of(r[0].action) == Some("ollama serve"@),
{
    let mut out: Vec<ServiceRecommendation> = Vec::new();
    out.push(
        ServiceRecommendation {
            service_id: "tip".to_string(),
            service_name: "Ollama".to_string(),
            recommendation_type: RecommendationType::Info,
            title: "KI-Empfehlungen aktivieren".to_string(),
            description: "Starten Sie Ollama für intelligente, personalisierte Empfehlungen basierend auf Ihren laufenden Services.".to_string(),
            action: Some("ollama serve".to_string()),
        },
    );
    out
}

} // verus!
