use auditor::client_config::ClientConfig;
use auditor::config::Config;
use auditor::info::Info;
use auditor::mode::Mode;
use auditor::server_config::ServerConfig;

#[test]
fn config_keeps_its_values() {
    let config = Config::new(
        "/usr/share/auditor/".to_string(),
        "/etc/auditor/".to_string(),
        "node-7".to_string(),
        Mode::Server,
    );
    assert_eq!(config.data_dir().as_str(), "/usr/share/auditor/");
    assert_eq!(config.etc_dir().as_str(), "/etc/auditor/");
    assert_eq!(config.host_id().as_str(), "node-7");
    assert_eq!(*config.mode(), Mode::Server);
}

#[test]
fn info_names_the_program() {
    let info = Info::new();
    assert_eq!(info.bin_name().as_str(), "auditor");
    assert_eq!(info.name().as_str(), "Auditor");
    assert_eq!(info.version().as_str(), "v0.1.0");
}

#[test]
fn server_config_keeps_its_values() {
    let server_config = ServerConfig::new("127.0.0.1".to_string(), 4870);
    assert_eq!(server_config.address().as_str(), "127.0.0.1");
    assert_eq!(*server_config.port(), 4870);
}

#[test]
fn client_config_keeps_its_values() {
    let client_config = ClientConfig::new("http://127.0.0.1:4870".to_string());
    assert_eq!(client_config.endpoint().as_str(), "http://127.0.0.1:4870");
}
