use rust_poem_api_template::api::system::controller::SystemController;
use rust_poem_api_template::api::system::dto::{SystemConfig, SystemStatus};

#[test]
fn system_status_reports_a_running_service() {
    let r = SystemController.get_system_status("1.2.3");
    assert_eq!(r.code, 200);
    assert_eq!(r.msg, "Success");
    assert_eq!(
        r.data,
        Some(SystemStatus {
            status: String::from("running"),
            version: String::from("1.2.3"),
            uptime: String::from("3d 12h 5m"),
            memory_usage: String::from("128MB"),
            cpu_usage: String::from("5%"),
        })
    );
}

#[test]
fn system_status_passes_the_version_through() {
    let r = SystemController.get_system_status("");
    assert_eq!(r.data.unwrap().version, "");
    let r = SystemController.get_system_status("0.1.0-rc.1+build");
    assert_eq!(r.data.unwrap().version, "0.1.0-rc.1+build");
}

#[test]
fn system_config_reports_the_standing_settings() {
    let r = SystemController.get_system_config();
    assert_eq!(r.code, 200);
    assert_eq!(r.msg, "Success");
    assert_eq!(
        r.data,
        Some(SystemConfig {
            max_connections: 1000,
            timeout: 30,
            debug_mode: false,
            log_level: String::from("info"),
        })
    );
}
