use bosun_emitter::{parse_args, parse_tags, BosunConfig, CliArgs, Config, Tags};

fn no_args() -> CliArgs {
    CliArgs {
        host: None,
        hostname: None,
        metric: None,
        value: None,
        rate: None,
        unit: None,
        description: None,
        tags: None,
    }
}

fn tag(tags: &Tags, key: &str) -> Option<String> {
    tags.get(key).cloned()
}

#[test]
fn parse_tags_test_okay() {
    let mut config = Config::default();
    let tags = "key1=val1,key2=val2";
    let _ = parse_tags(&mut config, &tags);
    assert_eq!(config.tags.len(), 2);
}

#[test]
#[should_panic(expected = "assertion failed")]
fn parse_tags_test_fails_wrong_kv_separator() {
    let mut config = Config::default();
    let tags = "key1=val1,key2:val2";
    let _ = parse_tags(&mut config, &tags);
    assert!(config.tags.len() == 2);
}

#[test]
fn parse_tags_puts_keys_and_values() {
    let mut config = Config::default();
    assert_eq!(parse_tags(&mut config, "type=mongodb,database=production"), Ok(()));
    assert_eq!(config.tags.len(), 2);
    assert_eq!(tag(&config.tags, "type"), Some("mongodb".to_string()));
    assert_eq!(tag(&config.tags, "database"), Some("production".to_string()));
    assert_eq!(tag(&config.tags, "host"), None);
}

#[test]
fn parse_tags_later_key_wins() {
    let mut config = Config::default();
    assert_eq!(parse_tags(&mut config, "a=1,b=2,a=3"), Ok(()));
    assert_eq!(config.tags.len(), 2);
    assert_eq!(tag(&config.tags, "a"), Some("3".to_string()));
    assert_eq!(tag(&config.tags, "b"), Some("2".to_string()));
}

#[test]
fn parse_tags_reports_the_whole_tag_string() {
    let mut config = Config::default();
    assert_eq!(
        parse_tags(&mut config, "key1=val1,key2:val2"),
        Err("unable to parse tags: 'key1=val1,key2:val2'".to_string())
    );
    // the tag before the offending segment has been put
    assert_eq!(config.tags.len(), 1);
    assert_eq!(tag(&config.tags, "key1"), Some("val1".to_string()));
}

#[test]
fn parse_tags_rejects_segments_without_exactly_one_equals_sign() {
    for bad in ["", "a", "a=b=c", "a=b,", ",a=b", "a=b,,c=d", "=="] {
        let mut config = Config::default();
        assert_eq!(
            parse_tags(&mut config, bad),
            Err(format!("unable to parse tags: '{}'", bad)),
            "tag string {:?}",
            bad
        );
    }
}

#[test]
fn parse_tags_accepts_empty_keys_and_values() {
    let mut config = Config::default();
    assert_eq!(parse_tags(&mut config, "k=,=v"), Ok(()));
    assert_eq!(tag(&config.tags, "k"), Some("".to_string()));
    assert_eq!(tag(&config.tags, ""), Some("v".to_string()));
}

#[test]
fn parse_tags_handles_characters_beyond_ascii() {
    let mut config = Config::default();
    assert_eq!(parse_tags(&mut config, "stadt=Köln,名前=値"), Ok(()));
    assert_eq!(tag(&config.tags, "stadt"), Some("Köln".to_string()));
    assert_eq!(tag(&config.tags, "名前"), Some("値".to_string()));
}

#[test]
fn parse_tags_leaves_the_other_fields_alone() {
    let mut config = Config::default();
    config.metric = Some("m".to_string());
    let _ = parse_tags(&mut config, "a=b");
    assert_eq!(config.host, "localhost:8070");
    assert_eq!(config.hostname, "localhost");
    assert_eq!(config.metric, Some("m".to_string()));
    assert_eq!(config.value, None);
}

#[test]
fn default_configuration() {
    let bosun = BosunConfig::default();
    assert_eq!(bosun.Host, "localhost:8070");
    assert_eq!(bosun.Hostname, "localhost");
    assert!(bosun.Tags.is_empty());
    let config = Config::default();
    assert_eq!(config.host, "localhost:8070");
    assert_eq!(config.hostname, "localhost");
    assert_eq!(config.metric, None);
    assert_eq!(config.value, None);
    assert_eq!(config.rate, None);
    assert_eq!(config.unit, None);
    assert_eq!(config.description, None);
    assert_eq!(config.tags.len(), 0);
}

#[test]
fn from_bosun_config_takes_server_hostname_and_tags() {
    let mut tags = Tags::new();
    tags.insert("hostgroup".to_string(), "webservers".to_string());
    let bosun = BosunConfig { Host: "bosun:8070".to_string(), Hostname: "webserver".to_string(), Tags: tags };
    let config = Config::from_bosun_config(bosun);
    assert_eq!(config.host, "bosun:8070");
    assert_eq!(config.hostname, "webserver");
    assert_eq!(tag(&config.tags, "hostgroup"), Some("webservers".to_string()));
    assert_eq!(config.metric, None);
}

#[test]
fn host_tag_is_seeded_from_the_hostname() {
    let config = parse_args(BosunConfig::default(), &no_args()).unwrap();
    assert_eq!(tag(&config.tags, "host"), Some("localhost".to_string()));
    assert_eq!(config.tags.len(), 1);
}

#[test]
fn hostname_argument_overrides_the_host_tag() {
    let mut tags = Tags::new();
    tags.insert("host".to_string(), "localhost".to_string());
    let bosun = BosunConfig { Host: "localhost:8070".to_string(), Hostname: "localhost".to_string(), Tags: tags };
    let mut args = no_args();
    args.hostname = Some("X".to_string());
    let config = parse_args(bosun, &args).unwrap();
    assert_eq!(config.hostname, "X");
    assert_eq!(tag(&config.tags, "host"), Some("X".to_string()));
    assert_eq!(config.tags.len(), 1);
}

#[test]
fn tags_argument_overrides_the_host_tag_again() {
    let mut tags = Tags::new();
    tags.insert("host".to_string(), "localhost".to_string());
    let bosun = BosunConfig { Host: "localhost:8070".to_string(), Hostname: "localhost".to_string(), Tags: tags };
    let mut args = no_args();
    args.hostname = Some("X".to_string());
    args.tags = Some("host=Y".to_string());
    let config = parse_args(bosun, &args).unwrap();
    assert_eq!(config.hostname, "X");
    assert_eq!(tag(&config.tags, "host"), Some("Y".to_string()));
    assert_eq!(config.tags.len(), 1);
}

#[test]
fn arguments_are_merged_over_the_loaded_configuration() {
    let mut tags = Tags::new();
    tags.insert("hostgroup".to_string(), "webservers".to_string());
    tags.insert("domain".to_string(), "webserver.de".to_string());
    let bosun = BosunConfig { Host: "bosun:8070".to_string(), Hostname: "webserver".to_string(), Tags: tags };
    let args = CliArgs {
        host: Some("other:80".to_string()),
        hostname: None,
        metric: Some("backup.runtime".to_string()),
        value: Some("17".to_string()),
        rate: Some("gauge".to_string()),
        unit: Some("sec".to_string()),
        description: Some("Backup runtime".to_string()),
        tags: Some("type=mongodb,domain=example.org".to_string()),
    };
    let config = parse_args(bosun, &args).unwrap();
    assert_eq!(config.host, "other:80");
    assert_eq!(config.hostname, "webserver");
    assert_eq!(config.metric, Some("backup.runtime".to_string()));
    assert_eq!(config.value, Some("17".to_string()));
    assert_eq!(config.rate, Some("gauge".to_string()));
    assert_eq!(config.unit, Some("sec".to_string()));
    assert_eq!(config.description, Some("Backup runtime".to_string()));
    assert_eq!(config.tags.len(), 4);
    assert_eq!(tag(&config.tags, "hostgroup"), Some("webservers".to_string()));
    assert_eq!(tag(&config.tags, "domain"), Some("example.org".to_string()));
    assert_eq!(tag(&config.tags, "host"), Some("webserver".to_string()));
    assert_eq!(tag(&config.tags, "type"), Some("mongodb".to_string()));
}

#[test]
fn unparsable_tags_argument_fails_the_merge() {
    let mut args = no_args();
    args.tags = Some("key1=val1,key2:val2".to_string());
    let r = parse_args(BosunConfig::default(), &args);
    assert_eq!(r.err(), Some("unable to parse tags: 'key1=val1,key2:val2'".to_string()));
}

#[test]
fn tags_keep_one_entry_per_key() {
    let mut tags = Tags::new();
    assert!(tags.is_empty());
    assert_eq!(tags.insert("host".to_string(), "a".to_string()), None);
    assert_eq!(tags.insert("dc".to_string(), "x".to_string()), None);
    assert_eq!(tags.insert("host".to_string(), "b".to_string()), Some("a".to_string()));
    assert_eq!(tags.len(), 2);
    assert!(!tags.is_empty());
    assert!(tags.contains_key("host"));
    assert!(!tags.contains_key("hos"));
    assert_eq!(tag(&tags, "host"), Some("b".to_string()));
    // a key that is given a new value keeps its place
    let (k0, v0) = tags.entry(0).unwrap();
    assert_eq!((k0.as_str(), v0.as_str()), ("host", "b"));
    let (k1, v1) = tags.entry(1).unwrap();
    assert_eq!((k1.as_str(), v1.as_str()), ("dc", "x"));
    assert!(tags.entry(2).is_none());
}
