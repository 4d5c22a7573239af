use p2panda_net::iroh_endpoint::{IrohConfig, TimeSpan};

#[test]
fn default_config_binds_everywhere_on_random_ports() {
    let config = IrohConfig::default();
    assert_eq!(config.bind_ip_v4, 0);
    assert_eq!(config.bind_port_v4, 0);
    assert_eq!(config.bind_ip_v6, 0);
    assert_eq!(config.bind_port_v6, 0);
}

#[test]
fn default_observed_address_cache_keeps_4096_for_30_minutes() {
    let config = IrohConfig::default();
    assert_eq!(config.observed_address_capacity, 4096);
    assert_eq!(config.observed_address_ttl, TimeSpan { secs: 1800, subsec_nanos: 0 });
}

#[test]
fn time_span_from_secs() {
    let span = TimeSpan::from_secs(90);
    assert_eq!(span.secs, 90);
    assert_eq!(span.subsec_nanos, 0);
}
