use internalvoice::advisor::{best_for_tier, recommendation_tiers};
use internalvoice::alerts::{
    collect_platform_alerts, evaluate_alerts, AlertInputs, AlertThresholds, BatteryReading, TelemetrySchedule,
    VolumeReading, GPU_HIGH_KEY,
};
use internalvoice::config::{
    choose_config_location, default_gemini_live_model, default_gemini_live_ws_url, default_log_dir,
    default_system_telemetry_interval_secs, AlertPreferences, ConfigLocation, NotificationFrequency, SecretConfig,
    ServiceConfig,
};
use internalvoice::error::InternalVoiceError;
use internalvoice::gemini::{
    classify_status, request_failed, request_quota, request_timed_out, server_error, stream_timed_out,
    GeminiLiveClient, StatusClass,
};
use internalvoice::model::{AlertSeverity, Level, Reading};
use internalvoice::platform::{target_os, DefaultPlatformAdapter, TargetOs};
use internalvoice::publisher::StatePublisher;
use internalvoice::ranking::{top_processes, RankedProcess};
use internalvoice::security::{validate_action, validate_config, AllowedAction, SecretProvider};
use internalvoice::tools::{select_tool, unknown_tool_message, ToolRequest};

fn level(x: f32) -> Level {
    if x.is_nan() {
        return Level { key: None };
    }
    let bits = x.to_bits() as i32;
    Level { key: Some(if bits < 0 { -(bits & 0x7fff_ffff) } else { bits }) }
}

fn reading(x: f32) -> Reading {
    Reading { level: level(x), text: format!("{:.1}", x) }
}

fn service(model: &str, key: &str) -> ServiceConfig {
    ServiceConfig {
        sample_interval_secs: 60,
        gemini_timeout_secs: 30,
        gemini_model: model.to_string(),
        gemini_live_model: "live-model".to_string(),
        gemini_api_key: key.to_string(),
        debounce_millis: 500,
        max_prompt_tokens_hint: 1024,
        cache_ttl_secs: 3600,
        max_log_files: 5,
        log_dir: "logs".to_string(),
        max_log_file_size_mb: 10,
        gemini_live_ws_url: "wss://x?key={key}".to_string(),
    }
}

fn secrets() -> SecretConfig {
    SecretConfig {
        env_var: "GEMINI_API_KEY".to_string(),
        keyring_service: "internalvoice".to_string(),
        keyring_account: "default".to_string(),
    }
}

fn thresholds() -> AlertThresholds {
    AlertThresholds {
        notify_on_cpu_above: level(90.0),
        notify_on_memory_above: level(90.0),
        notify_on_disk_below: level(10.0),
        notify_on_battery_below: level(20.0),
    }
}

#[test]
fn level_keys_order_like_floats() {
    let xs = [-5.0f32, -0.5, -0.0, 0.0, 0.25, 1.0, 90.0, 1e30];
    for a in xs {
        for b in xs {
            assert_eq!(level(a).at_least(&level(b)), a >= b);
            assert_eq!(level(a).above(&level(b)), a > b);
        }
    }
    assert!(!level(f32::NAN).at_least(&level(1.0)));
    assert!(!level(1.0).at_least(&level(f32::NAN)));
    assert_eq!(level(90.0).key, Some(GPU_HIGH_KEY));
}

#[test]
fn threshold_alerts_in_order() {
    let inputs = AlertInputs {
        cpu_percent: reading(95.25),
        memory_percent: reading(90.0),
        volumes: vec![
            VolumeReading { name: "root".to_string(), free_percent: reading(5.0) },
            VolumeReading { name: "data".to_string(), free_percent: reading(50.0) },
            VolumeReading { name: "tmp".to_string(), free_percent: reading(10.0) },
        ],
        battery: Some(BatteryReading { percent: reading(12.0), on_ac_power: false }),
    };
    let alerts = evaluate_alerts(&inputs, &thresholds());
    let got: Vec<(AlertSeverity, &str, &str)> =
        alerts.iter().map(|a| (a.severity, a.code.as_str(), a.message.as_str())).collect();
    assert_eq!(
        got,
        vec![
            (AlertSeverity::Warning, "cpu.high", "CPU usage is 95.2%"),
            (AlertSeverity::Warning, "memory.high", "Memory usage is 90.0%"),
            (AlertSeverity::Warning, "disk.low", "root has only 5.0% free space remaining"),
            (AlertSeverity::Warning, "disk.low", "tmp has only 10.0% free space remaining"),
            (AlertSeverity::Critical, "battery.low", "Battery is at 12.0%"),
        ]
    );
}

#[test]
fn charging_battery_raises_no_alert() {
    let inputs = AlertInputs {
        cpu_percent: reading(1.0),
        memory_percent: reading(1.0),
        volumes: vec![],
        battery: Some(BatteryReading { percent: reading(3.0), on_ac_power: true }),
    };
    assert!(evaluate_alerts(&inputs, &thresholds()).is_empty());
}

#[test]
fn platform_alerts() {
    let a = collect_platform_alerts(&Some("Serious".to_string()), &Some(reading(91.0)));
    assert_eq!(a.len(), 2);
    assert_eq!(a[0].code, "THERMAL_PRESSURE");
    assert_eq!(a[0].message, "System thermal state is Serious");
    assert_eq!(a[1].code, "HIGH_GPU_USAGE");
    assert_eq!(a[1].message, "GPU usage is at 91.0%");
    assert!(collect_platform_alerts(&Some("Nominal".to_string()), &Some(reading(90.0))).is_empty());
    assert!(collect_platform_alerts(&Some("Fair".to_string()), &None).is_empty());
    let p = DefaultPlatformAdapter::new(target_os("linux"));
    assert!(p.battery_state().is_none());
    assert!(p.gpu_usage_percent().is_none());
    assert!(p.thermal_state().is_none());
    assert!(!p.accessibility_available());
    assert!(p.startup_registration_supported());
    assert_eq!(target_os("macos"), TargetOs::MacOs);
    assert_eq!(target_os("windows"), TargetOs::Windows);
    assert_eq!(target_os("freebsd"), TargetOs::Other);
    assert!(!DefaultPlatformAdapter::new(target_os("freebsd")).startup_registration_supported());
    assert!(DefaultPlatformAdapter::new(TargetOs::Windows).startup_registration_supported());
}

#[test]
fn telemetry_schedule() {
    let mut s = TelemetrySchedule::new();
    assert!(s.full_sample_due(0, 60));
    assert!(!s.full_sample_due(59_000_000_000, 60));
    assert!(s.full_sample_due(60_000_000_000, 60));
    assert_eq!(s.last_full_sample, Some(60_000_000_000));
}

#[test]
fn processes_ranked_stably() {
    let p = |cpu: f32, mem: u64, name: &'static str| RankedProcess { cpu_key: level(cpu).key.unwrap(), memory_bytes: mem, item: name };
    let procs = vec![p(1.0, 10, "a"), p(5.0, 1, "b"), p(1.0, 20, "c"), p(5.0, 1, "d"), p(0.0, 99, "e")];
    let top: Vec<&str> = top_processes(procs.clone(), 3).into_iter().map(|r| r.item).collect();
    assert_eq!(top, vec!["b", "d", "c"]);
    let all: Vec<&str> = top_processes(procs.clone(), 10).into_iter().map(|r| r.item).collect();
    assert_eq!(all, vec!["b", "d", "c", "a", "e"]);
    assert!(top_processes(procs, 0).is_empty());
}

#[test]
fn advisor_tiers() {
    assert_eq!(recommendation_tiers(0), (0, 0, 1));
    assert_eq!(recommendation_tiers(4), (3, 4, 5));
    assert_eq!(recommendation_tiers(9), (8, 9, 9));
    assert_eq!(best_for_tier(0).name, "Qwen3 4B");
    assert_eq!(best_for_tier(3).size_tenths_gb, 162);
    assert_eq!(best_for_tier(5).aa_score, Some(43));
    assert_eq!(best_for_tier(200).name, "Qwen3.5-397B-A17B");
}

#[test]
fn config_defaults_and_location() {
    assert_eq!(default_gemini_live_model(), "gemini-2.0-flash-exp");
    assert!(default_gemini_live_ws_url().ends_with("BiDiGenerateContent?key={key}"));
    assert_eq!(default_log_dir(), "logs");
    assert_eq!(default_system_telemetry_interval_secs(), 60);
    let prefs = AlertPreferences::default();
    assert_eq!(prefs.frequency, NotificationFrequency::Off);
    assert!(!prefs.setup_completed);
    assert_eq!(service("m", "").max_log_file_size(), 10 * 1024 * 1024);
    assert_eq!(service("m", "").max_log_files(), 5);
    assert_eq!(choose_config_location(Some(true), true, true, true).unwrap(), ConfigLocation::FromEnv);
    assert_eq!(choose_config_location(Some(false), true, true, true).unwrap(), ConfigLocation::Local);
    assert_eq!(choose_config_location(None, false, true, true).unwrap(), ConfigLocation::Example);
    assert_eq!(choose_config_location(None, false, false, true).unwrap(), ConfigLocation::UserConfigDir);
    match choose_config_location(Some(false), false, false, false) {
        Err(InternalVoiceError::Config(m)) => assert_eq!(m, "unable to resolve config directory"),
        other => panic!("unexpected {:?}", other),
    }
}

#[test]
fn config_validation() {
    assert!(validate_config(15, &service("gemini", "")).is_ok());
    match validate_config(0, &service("gemini", "")) {
        Err(InternalVoiceError::Config(m)) => assert_eq!(m, "limits.requests_per_minute must be > 0"),
        other => panic!("unexpected {:?}", other),
    }
    match validate_config(1, &service(" \t", "")) {
        Err(InternalVoiceError::Config(m)) => assert_eq!(m, "service.gemini_model cannot be empty"),
        other => panic!("unexpected {:?}", other),
    }
    assert!(validate_action(&AllowedAction::Announce));
    assert!(validate_action(&AllowedAction::QuerySystemState));
    assert!(validate_action(&AllowedAction::SummarizeTopProcesses));
}

#[test]
fn secret_lookup_order() {
    let sec = secrets();
    let svc = service("m", " cfg-key ");
    let p = SecretProvider::new(&sec, &svc);
    assert_eq!(p.key_without_keyring(Some(" env ".to_string())).as_deref(), Some(" env "));
    assert_eq!(p.key_without_keyring(Some("  ".to_string())).as_deref(), Some(" cfg-key "));
    assert_eq!(p.key_without_keyring(None).as_deref(), Some(" cfg-key "));
    let blank = service("m", "   ");
    let p = SecretProvider::new(&sec, &blank);
    assert_eq!(p.key_without_keyring(None), None);
    assert_eq!(p.key_from_keyring(Ok("kr".to_string())).unwrap(), "kr");
    match p.key_from_keyring(Err("no entry".to_string())) {
        Err(InternalVoiceError::Secret(m)) => assert_eq!(
            m,
            "Gemini API key not found. Tried env var `GEMINI_API_KEY`, config field `service.gemini_api_key`, and keyring service `internalvoice` account `default`; keyring error: no entry"
        ),
        other => panic!("unexpected {:?}", other),
    }
    assert!(p.gemini_lookup_failure(None).ends_with("account `default`"));
}

#[test]
fn tools_dispatch() {
    assert_eq!(select_tool("get_system_diagnostics", None), ToolRequest::SystemDiagnostics);
    assert_eq!(select_tool("list_top_processes", None), ToolRequest::TopProcesses { limit: 5 });
    assert_eq!(select_tool("list_top_processes", Some(12)), ToolRequest::TopProcesses { limit: 12 });
    assert_eq!(select_tool("check_network_status", Some(1)), ToolRequest::NetworkStatus);
    assert_eq!(select_tool("rm -rf", None), ToolRequest::Unknown);
    assert_eq!(unknown_tool_message("x"), "Tool 'x' not found");
}

#[test]
fn gemini_decisions() {
    assert_eq!(classify_status(200), StatusClass::Accepted);
    assert_eq!(classify_status(503), StatusClass::ServerError);
    assert_eq!(classify_status(403), StatusClass::Failed);
    assert_eq!(classify_status(204), StatusClass::Failed);
    assert_eq!(request_quota(15).unwrap(), 15);
    match request_quota(0) {
        Err(InternalVoiceError::Config(m)) => assert_eq!(m, "requests_per_minute must be > 0"),
        other => panic!("unexpected {:?}", other),
    }
    match server_error("503 Service Unavailable") {
        InternalVoiceError::Gemini(m) => assert_eq!(m, "server returned 503 Service Unavailable"),
        other => panic!("unexpected {:?}", other),
    }
    match request_failed("403 Forbidden", "API key leaked") {
        InternalVoiceError::Gemini(m) => assert_eq!(m, "request failed with 403 Forbidden: API key leaked"),
        other => panic!("unexpected {:?}", other),
    }
    assert!(matches!(request_timed_out(), InternalVoiceError::Gemini(m) if m == "request timed out"));
    assert!(matches!(stream_timed_out(), InternalVoiceError::Gemini(m) if m == "stream timed out"));
    let live = GeminiLiveClient::new("SECRET-REDACTED".to_string(), &service("m", ""));
    assert_eq!(live.endpoint(), "wss://x?key=SECRET-REDACTED");
    assert_eq!(live.redacted_endpoint(), "wss://x?key=<redacted>");
    assert_eq!(live.setup_model(), "models/live-model");
}

#[test]
fn publisher_path() {
    let p = StatePublisher::new(std::path::PathBuf::from("/tmp/current-state.json"));
    assert_eq!(p.path(), &std::path::PathBuf::from("/tmp/current-state.json"));
}
