use capmux::config::{Config, TagLimit};
use capmux::registry::StreamRegistry;

fn tag(s: &str) -> String {
    String::from(s)
}

#[test]
fn unlisted_tag_gets_the_default() {
    let mut config = Config::new(1500);
    config.set_limit(tag("eth0"), 64);
    assert_eq!(config.max_len_for(&tag("eth1")), 1500);
    assert_eq!(config.max_len_for(&tag("")), 1500);
    assert_eq!(config.max_len_for(&tag("eth")), 1500);
}

#[test]
fn empty_policy_gives_the_default_to_all() {
    let config = Config::new(96);
    assert_eq!(config.max_len_for(&tag("anything")), 96);
    assert!(config.unix_socket.is_none());
    assert!(config.interfaces.is_empty());
    assert_eq!(config.default_max_incl_len, 96);
}

#[test]
fn listed_tag_gets_its_own_limit() {
    let mut config = Config::new(1500);
    config.set_limit(tag("eth0"), 64);
    config.set_limit(tag("lo"), 0);
    assert_eq!(config.max_len_for(&tag("eth0")), 64);
    assert_eq!(config.max_len_for(&tag("lo")), 0);
}

#[test]
fn later_limit_replaces_the_earlier() {
    let mut config = Config::new(1500);
    config.set_limit(tag("eth0"), 64);
    config.set_limit(tag("eth0"), 128);
    assert_eq!(config.max_len_for(&tag("eth0")), 128);
}

#[test]
fn config_built_from_its_fields() {
    let config = Config {
        unix_socket: Some(tag("/run/capture/feed.sock")),
        max_incl_len: vec![
            TagLimit { tag: tag("a"), limit: 1 },
            TagLimit { tag: tag("b"), limit: 2 },
        ],
        default_max_incl_len: 3,
        interfaces: vec![tag("eth0")],
    };
    assert_eq!(config.max_len_for(&tag("a")), 1);
    assert_eq!(config.max_len_for(&tag("b")), 2);
    assert_eq!(config.max_len_for(&tag("c")), 3);
}

#[test]
fn new_registry_is_empty() {
    let registry = StreamRegistry::new();
    assert_eq!(registry.len(), 0);
    assert_eq!(registry.find(&tag("eth0")), None);
}

#[test]
fn first_packet_of_a_tag_creates_its_sink_once() {
    let mut registry = StreamRegistry::new();
    let first = registry.resolve(&tag("eth0"));
    assert!(first.created);
    assert_eq!(first.index, 0);
    for _ in 0..5 {
        let again = registry.resolve(&tag("eth0"));
        assert!(!again.created);
        assert_eq!(again.index, 0);
    }
    assert_eq!(registry.len(), 1);
}

#[test]
fn streams_keep_their_places() {
    let mut registry = StreamRegistry::new();
    assert_eq!(registry.resolve(&tag("a")).index, 0);
    assert_eq!(registry.resolve(&tag("b")).index, 1);
    let c = registry.resolve(&tag("c"));
    assert!(c.created);
    assert_eq!(c.index, 2);
    let a = registry.resolve(&tag("a"));
    assert!(!a.created);
    assert_eq!(a.index, 0);
    assert_eq!(registry.find(&tag("b")), Some(1));
    assert_eq!(registry.find(&tag("d")), None);
    assert_eq!(registry.len(), 3);
    assert_eq!(registry.tag_at(0), "a");
    assert_eq!(registry.tag_at(2), "c");
}
