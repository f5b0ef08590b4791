//! Where the configuration comes from, and what it starts.

use mcp_inbound::config::{
    config_source, file_source, Config, ConfigSource, ConfigSourceError, ConfigType, Service,
};

#[test]
fn a_url_is_downloaded_in_its_normal_form() {
    assert!(matches!(
        config_source(Some("HTTPS://Example.com".to_string()), None),
        Ok(ConfigSource::Url(url)) if url == "https://example.com/"
    ));
}

#[test]
fn any_other_name_is_read_from_disk() {
    for name in ["config.json", "/etc/proxy/config.json", "", "../a b"] {
        assert!(matches!(
            config_source(Some(name.to_string()), None),
            Ok(ConfigSource::File(file)) if file == name
        ));
    }
}

#[test]
fn a_drive_letter_makes_a_url() {
    assert!(matches!(
        config_source(Some("c:/config.json".to_string()), None),
        Ok(ConfigSource::Url(_))
    ));
}

#[test]
fn the_url_counts_before_the_name() {
    let name = "name".to_string();
    assert!(matches!(
        file_source(name.clone(), Some("url".to_string())),
        ConfigSource::Url(url) if url == "url"
    ));
    assert!(matches!(file_source(name, None), ConfigSource::File(file) if file == "name"));
}

#[test]
fn a_given_configuration_is_used_as_it_is() {
    let bytes = vec![123, 195, 164, 125];
    assert!(matches!(
        config_source(None, Some(bytes)),
        Ok(ConfigSource::Text(text)) if text == "{\u{e4}}"
    ));
}

#[test]
fn a_given_configuration_must_be_text() {
    let error = config_source(None, Some(vec![123, 255])).err().unwrap();
    assert_eq!(error.usage(), None);
    assert!(matches!(error, ConfigSourceError::Utf8(e) if e.valid_up_to() == 1));
}

#[test]
fn both_options_are_refused() {
    let error = config_source(Some("a".to_string()), Some(Vec::new())).err().unwrap();
    assert!(matches!(error, ConfigSourceError::Both));
    assert_eq!(
        error.usage(),
        Some("config error: both --file and --config cannot be provided, exiting")
    );
}

#[test]
fn no_option_is_refused() {
    let error = config_source(None, None).err().unwrap();
    assert!(matches!(error, ConfigSourceError::Neither));
    assert_eq!(
        error.usage(),
        Some("Error: either --file or --config must be provided, exiting")
    );
}

fn config(config_type: ConfigType<(), ()>, tracing: Option<()>) -> Config<(), (), (), (), ()> {
    Config { config_type, admin: None, metrics: None, tracing }
}

#[test]
fn only_static_settings_follow_the_signal() {
    assert!(config(ConfigType::Static(()), None).follows_signal());
    assert!(!config(ConfigType::Xds(()), None).follows_signal());
}

#[test]
fn services_of_static_settings() {
    assert_eq!(
        config(ConfigType::Static(()), None).services(),
        vec![Service::LocalClient, Service::Metrics, Service::Admin]
    );
    assert_eq!(
        config(ConfigType::Static(()), Some(())).services(),
        vec![Service::LocalClient, Service::Metrics, Service::Admin, Service::Tracing]
    );
}

#[test]
fn services_of_a_control_plane() {
    assert_eq!(
        config(ConfigType::Xds(()), None).services(),
        vec![Service::XdsClient, Service::Admin, Service::Listeners, Service::Metrics]
    );
    assert_eq!(
        config(ConfigType::Xds(()), Some(())).services(),
        vec![
            Service::XdsClient,
            Service::Admin,
            Service::Listeners,
            Service::Metrics,
            Service::Tracing
        ]
    );
}
