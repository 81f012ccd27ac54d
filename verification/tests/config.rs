use nutt_web::modules::config::{NuttConfig, ServiceConfig};

#[test]
fn service_config_holds_host_and_port() {
    let config = ServiceConfig::new("127.0.0.1", 8080);
    assert_eq!(config.get_addr(), ("127.0.0.1", 8080));
    assert_eq!(config.clone().get_addr(), ("127.0.0.1", 8080));
}

#[test]
fn empty_config_has_no_services() {
    let config = NuttConfig::new();
    assert_eq!(config.len(), 0);
    assert!(config.get_service_config("web").is_none());
}

#[test]
fn services_are_found_by_name() {
    let mut config = NuttConfig::new();
    config.set_service_config("web", ServiceConfig::new("0.0.0.0", 80));
    config.set_service_config("api", ServiceConfig::new("localhost", 8081));
    assert_eq!(config.len(), 2);
    assert_eq!(config.get_service_config("web").unwrap().get_addr(), ("0.0.0.0", 80));
    assert_eq!(config.get_service_config("api").unwrap().get_addr(), ("localhost", 8081));
    assert!(config.get_service_config("Web").is_none());
    config.set_service_config("web", ServiceConfig::new("0.0.0.0", 443));
    assert_eq!(config.len(), 2);
    assert_eq!(config.get_service_config("web").unwrap().get_addr(), ("0.0.0.0", 443));
}

#[test]
fn services_can_be_walked() {
    let mut config = NuttConfig::new();
    config.set_service_config("web", ServiceConfig::new("0.0.0.0", 80));
    config.set_service_config("api", ServiceConfig::new("localhost", 8081));
    let mut seen: Vec<(String, String, u16)> = Vec::new();
    let mut i: usize = 0;
    while let Some((name, service)) = config.service_at(i) {
        seen.push((name.to_string(), service.get_addr().0.to_string(), service.get_addr().1));
        i += 1;
    }
    assert_eq!(i, 2);
    assert!(config.service_at(2).is_none());
    seen.sort();
    assert_eq!(
        seen,
        vec![
            ("api".to_string(), "localhost".to_string(), 8081),
            ("web".to_string(), "0.0.0.0".to_string(), 80)
        ]
    );
    let copy = config.clone();
    assert_eq!(copy.len(), 2);
    assert_eq!(copy.get_service_config("api").unwrap().get_addr(), ("localhost", 8081));
}
