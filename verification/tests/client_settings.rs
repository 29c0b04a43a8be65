use mongoac::client_options::{CompressorT, ServerMonitoringModeT, mongoac_client_options_add_compressor_snappy, mongoac_client_options_add_compressor_zlib, mongoac_client_options_add_compressor_zlib_with_level, mongoac_client_options_add_compressor_zstd_with_level, mongoac_client_options_add_host, mongoac_client_options_add_host_and_port, mongoac_client_options_add_unix_path, mongoac_client_options_new, mongoac_client_options_set_app_name, mongoac_client_options_set_capture_command_events, mongoac_client_options_set_connect_timeout_ms, mongoac_client_options_set_credential, mongoac_client_options_set_driver_info, mongoac_client_options_set_max_pool_size, mongoac_client_options_set_read_concern, mongoac_client_options_set_retry_writes, mongoac_client_options_set_server_monitoring_mode, mongoac_client_options_set_tls, server_monitoring_mode_to_driver};
use mongoac::error::ErrorCodeT;
use mongoac::read_concern::{mongoac_read_concern_new, mongoac_read_concern_set_level_majority, ReadConcernLevelT};
use mongoac::server_info::ServerAddressT;
use mongoac::tls_options::{mongoac_tls_options_new, mongoac_tls_options_set_ca_file_path};
use mongoac::credential::{mongoac_credential_new, mongoac_credential_set_username};

#[test]
fn new_settings_hold_nothing() {
    let o = mongoac_client_options_new();
    assert!(!o.capture_command_events);
    assert!(o.inner.app_name.is_none());
    assert!(o.inner.hosts.is_empty());
    assert!(o.inner.compressors.is_none());
    assert!(o.inner.read_preference.is_none());
}

#[test]
fn scalar_settings_are_recorded() {
    let mut o = mongoac_client_options_new();
    mongoac_client_options_set_capture_command_events(&mut o, true);
    mongoac_client_options_set_connect_timeout_ms(&mut o, 1500);
    mongoac_client_options_set_max_pool_size(&mut o, 9);
    mongoac_client_options_set_retry_writes(&mut o, false);
    mongoac_client_options_set_app_name(&mut o, Some("app"));
    assert!(o.capture_command_events);
    assert_eq!(o.inner.connect_timeout_ms, Some(1500));
    assert_eq!(o.inner.max_pool_size, Some(9));
    assert_eq!(o.inner.retry_writes, Some(false));
    assert_eq!(o.inner.app_name.as_deref(), Some("app"));
    mongoac_client_options_set_app_name(&mut o, None);
    assert!(o.inner.app_name.is_none());
}

#[test]
fn hosts_keep_their_order() {
    let mut o = mongoac_client_options_new();
    mongoac_client_options_add_host(&mut o, "a.example");
    mongoac_client_options_add_host_and_port(&mut o, "b.example", 27018);
    mongoac_client_options_add_unix_path(&mut o, "/tmp/mongodb.sock");
    assert_eq!(o.inner.hosts.len(), 3);
    assert!(matches!(&o.inner.hosts[0], ServerAddressT::Tcp { host, port: None } if host == "a.example"));
    assert!(matches!(&o.inner.hosts[1], ServerAddressT::Tcp { host, port: Some(27018) } if host == "b.example"));
    assert!(matches!(&o.inner.hosts[2], ServerAddressT::Unix { path } if path == b"/tmp/mongodb.sock"));
}

#[test]
fn compressors_are_appended_in_order() {
    let mut o = mongoac_client_options_new();
    mongoac_client_options_add_compressor_zstd_with_level(&mut o, -3);
    mongoac_client_options_add_compressor_snappy(&mut o);
    mongoac_client_options_add_compressor_zlib_with_level(&mut o, 6);
    mongoac_client_options_add_compressor_zlib(&mut o);
    assert_eq!(
        o.inner.compressors,
        Some(vec![
            CompressorT::Zstd { level: Some(-3) },
            CompressorT::Snappy,
            CompressorT::Zlib { level: Some(6) },
            CompressorT::Zlib { level: None },
        ])
    );
}

#[test]
fn unknown_monitoring_mode_is_refused() {
    let mut o = mongoac_client_options_new();
    mongoac_client_options_set_server_monitoring_mode(&mut o, 2).unwrap();
    assert_eq!(o.inner.server_monitoring_mode, Some(ServerMonitoringModeT::Poll));
    let e = mongoac_client_options_set_server_monitoring_mode(&mut o, 7).unwrap_err();
    assert_eq!(e.code(), ErrorCodeT::InvalidArgument);
    assert_eq!(
        e.message(),
        Some("invalid argument: unknown mongoac_server_monitoring_mode_t: 7".to_string())
    );
    assert_eq!(o.inner.server_monitoring_mode, Some(ServerMonitoringModeT::Poll));
    assert!(server_monitoring_mode_to_driver(ServerMonitoringModeT::Unknown(-1)).is_err());
    assert!(matches!(
        server_monitoring_mode_to_driver(ServerMonitoringModeT::Stream),
        Ok(mongodb::options::ServerMonitoringMode::Stream)
    ));
}

#[test]
fn monitoring_mode_integers_round_trip() {
    for v in [-1, 0, 1, 2, 3, i32::MIN] {
        assert_eq!(i32::from(ServerMonitoringModeT::from(v)), v);
    }
}

#[test]
fn copied_settings_are_independent() {
    let mut o = mongoac_client_options_new();
    let mut rc = mongoac_read_concern_new();
    mongoac_read_concern_set_level_majority(&mut rc);
    mongoac_client_options_set_read_concern(&mut o, Some(&rc));
    drop(rc);
    assert!(matches!(o.inner.read_concern.as_ref().unwrap().level, ReadConcernLevelT::Majority));
    let mut tls = mongoac_tls_options_new();
    mongoac_tls_options_set_ca_file_path(&mut tls, Some("/ca.pem"));
    mongoac_client_options_set_tls(&mut o, Some(&tls));
    assert_eq!(o.inner.tls.as_ref().unwrap().ca_file_path.as_deref(), Some("/ca.pem"));
    let mut cred = mongoac_credential_new();
    mongoac_credential_set_username(&mut cred, Some("u"));
    mongoac_client_options_set_credential(&mut o, Some(&cred));
    assert_eq!(o.inner.credential.as_ref().unwrap().username.as_deref(), Some("u"));
    mongoac_client_options_set_credential(&mut o, None);
    assert!(o.inner.credential.is_none());
}

#[test]
fn driver_info_setting() {
    let mut o = mongoac_client_options_new();
    mongoac_client_options_set_driver_info(&mut o, "wrapper", Some("1.2"), None);
    let d = o.inner.driver_info.as_ref().unwrap();
    assert_eq!(d.name, "wrapper");
    assert_eq!(d.version.as_deref(), Some("1.2"));
    assert!(d.platform.is_none());
}
