use resettime::appconfig::{AppConfig, AppConfigSlimeVR};
use resettime::obs::{handle_send_outcome, SendDisposition, SendOutcome, SetTextRequest};

#[test]
fn defaults_cover_every_field() {
    let c = AppConfig::new();
    assert_eq!(c.slimevr.dir, "C:\\Program Files (x86)\\SlimeVR Server\\");
    assert_eq!(c.slimevr.log, "log_last_0.log");
    assert_eq!(c.slimevr.vrconfig, "vrconfig.yml");
    assert_eq!(c.obs.host, "localhost");
    assert_eq!(c.obs.port, 4455);
    assert_eq!(c.obs.password, "");
    assert_eq!(c.obs.text_time, "slimetime");
    assert_eq!(c.obs.text_time_format, "Reset #{num} {time}");
    assert_eq!(c.obs.text_config, "slimeconfig");
}

#[test]
fn default_paths_join_without_extra_separator() {
    let c = AppConfig::new();
    assert_eq!(
        c.get_log_path_string(),
        "C:\\Program Files (x86)\\SlimeVR Server\\log_last_0.log"
    );
    assert_eq!(
        c.get_vrconfig_path_string(),
        "C:\\Program Files (x86)\\SlimeVR Server\\vrconfig.yml"
    );
}

#[test]
fn custom_paths_join_with_separator_when_needed() {
    let c = AppConfig {
        slimevr: AppConfigSlimeVR {
            dir: String::from("logs"),
            log: String::from("last.log"),
            vrconfig: String::from("vr.yml"),
        },
        obs: AppConfig::new().obs,
    };
    assert_eq!(c.get_log_path_string(), "logs/last.log");
    assert_eq!(c.get_vrconfig_path_string(), "logs/vr.yml");
    let empty_dir = AppConfig {
        slimevr: AppConfigSlimeVR {
            dir: String::new(),
            log: String::from("last.log"),
            vrconfig: String::from("vr.yml"),
        },
        obs: AppConfig::new().obs,
    };
    assert_eq!(empty_dir.get_log_path_string(), "last.log");
}

#[test]
fn only_transport_failure_stops_the_push_loop() {
    assert_eq!(handle_send_outcome(SendOutcome::Delivered), SendDisposition::KeepGoing);
    assert_eq!(handle_send_outcome(SendOutcome::RejectedByApi), SendDisposition::KeepGoing);
    assert_eq!(
        handle_send_outcome(SendOutcome::TransportFailed),
        SendDisposition::DisconnectAndStop
    );
}

#[test]
fn set_text_requests_carry_element_and_text() {
    let r = SetTextRequest {
        element: String::from("slimetime"),
        text: String::from("Reset #2 00:05"),
    };
    let r2 = r.clone();
    assert_eq!(r2.element, "slimetime");
    assert_eq!(r2.text, "Reset #2 00:05");
}
