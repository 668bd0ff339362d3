use mistake_injector::config::{MistakeConfig, MistakeType, MistakesConfig};
use mistake_injector::filter::{FilterConfig, InjectorError, Method};
use mistake_injector::injector::{DataReply, MistakeInjector, Reply};

fn rule(percent: u8, max_occurrences: usize, max_length: usize, class: MistakeType) -> MistakeConfig {
    MistakeConfig { percent, max_occurrences, max_length, class }
}

fn engine(rules: Vec<MistakeConfig>, methods: Vec<Method>, patterns: Vec<&str>) -> MistakeInjector {
    let conf = MistakesConfig {
        mistakes: rules,
        filter: FilterConfig {
            methods,
            path_patterns: patterns.iter().map(|s| s.to_string()).collect(),
        },
    };
    match MistakeInjector::build(conf) {
        Ok(e) => e,
        Err(_) => panic!("build failed on a well-formed configuration"),
    }
}

#[test]
fn build_rejects_empty_pattern() {
    let conf = MistakesConfig {
        mistakes: vec![rule(100, 1, 4, MistakeType::Zero)],
        filter: FilterConfig {
            methods: vec![Method::Write],
            path_patterns: vec![String::from("/data"), String::new()],
        },
    };
    match MistakeInjector::build(conf) {
        Ok(_) => panic!("an empty path pattern must be rejected"),
        Err(e) => assert_eq!(e, InjectorError::MalformedPattern),
    }
}

#[test]
fn build_accepts_well_formed_config() {
    let conf = MistakesConfig {
        mistakes: vec![],
        filter: FilterConfig {
            methods: vec![],
            path_patterns: vec![String::from("/")],
        },
    };
    assert!(MistakeInjector::build(conf).is_ok());
}

#[test]
fn pre_operation_hook_always_succeeds() {
    let e = engine(vec![rule(100, 5, 8, MistakeType::Random)], vec![Method::Write], vec!["/"]);
    assert!(e.inject(&Method::Write, "/data/file").is_ok());
    assert!(e.inject(&Method::Read, "").is_ok());
}

#[test]
fn rejected_path_leaves_write_buffer_identical() {
    let e = engine(
        vec![rule(100, 5, 8, MistakeType::Random), rule(100, 1, 2, MistakeType::Zero)],
        vec![Method::Write],
        vec!["/data"],
    );
    let original: Vec<u8> = (0..32).map(|i| i as u8).collect();
    for _ in 0..50 {
        let mut buf = original.clone();
        assert!(e.inject_write_data("/other/file", &mut buf).is_ok());
        assert_eq!(buf, original);
    }
}

#[test]
fn rejected_method_leaves_reply_identical() {
    // Only writes are in scope, so a read reply passes through untouched.
    let e = engine(vec![rule(100, 5, 8, MistakeType::Random)], vec![Method::Write], vec!["/"]);
    let original: Vec<u8> = (0..32).map(|i| i as u8 ^ 0x5A).collect();
    for _ in 0..50 {
        let mut reply = Reply::Data(DataReply { data: original.clone() });
        assert!(e.inject_reply(&Method::Read, "/data/file", &mut reply).is_ok());
        match reply {
            Reply::Data(d) => assert_eq!(d.data, original),
            Reply::Other => panic!("the reply variant must be preserved"),
        }
    }
}

#[test]
fn admitted_write_is_corrupted() {
    let e = engine(vec![rule(100, 1, 4, MistakeType::Zero)], vec![Method::Write], vec!["/data"]);
    let mut buf = vec![0xFFu8; 16];
    assert!(e.inject_write_data("/data/file", &mut buf).is_ok());
    assert_eq!(buf.len(), 16);
    assert!(buf.contains(&0), "an admitted write under a certain zero rule must change");
}

#[test]
fn admitted_read_reply_is_corrupted() {
    let e = engine(vec![rule(100, 1, 4, MistakeType::Zero)], vec![Method::Read], vec!["/data"]);
    let mut reply = Reply::Data(DataReply { data: vec![0xFFu8; 16] });
    assert!(e.inject_reply(&Method::Read, "/data/file", &mut reply).is_ok());
    match reply {
        Reply::Data(d) => {
            assert_eq!(d.data.len(), 16);
            assert!(d.data.contains(&0));
        }
        Reply::Other => panic!("the reply variant must be preserved"),
    }
}

#[test]
fn non_data_reply_is_never_touched() {
    let e = engine(vec![rule(100, 5, 8, MistakeType::Random)], vec![Method::Read], vec!["/"]);
    let mut reply = Reply::Other;
    assert!(e.inject_reply(&Method::Read, "/data/file", &mut reply).is_ok());
    assert!(matches!(reply, Reply::Other));
}

#[test]
fn path_pattern_matches_by_prefix() {
    let e = engine(vec![rule(100, 1, 4, MistakeType::Zero)], vec![Method::Write], vec!["/data"]);
    // a path extending the pattern is in scope
    let mut buf = vec![0xFFu8; 8];
    e.inject_write_data("/database", &mut buf).unwrap();
    assert!(buf.contains(&0));
    // a path shorter than every pattern is not
    let original = vec![0xFFu8; 8];
    let mut buf = original.clone();
    e.inject_write_data("/dat", &mut buf).unwrap();
    assert_eq!(buf, original);
}

#[test]
fn rejected_path_identical_for_any_rules(){
    let configs = vec![
        vec![],
        vec![rule(100, 0, 1, MistakeType::Zero)],
        vec![rule(100, 9, 9, MistakeType::Random), rule(50, 1, 1, MistakeType::Zero)],
    ];
    for rules in configs {
        let e = engine(rules, vec![Method::Write, Method::Read], vec!["/data"]);
        let original: Vec<u8> = (0..16).map(|i| i as u8 + 1).collect();
        let mut buf = original.clone();
        e.inject_write_data("/elsewhere", &mut buf).unwrap();
        assert_eq!(buf, original);
    }
}

#[test]
fn empty_buffer_through_hooks() {
    let e = engine(vec![rule(100, 3, 8, MistakeType::Random)], vec![Method::Write], vec!["/"]);
    let mut buf: Vec<u8> = Vec::new();
    assert!(e.inject_write_data("/data", &mut buf).is_ok());
    assert!(buf.is_empty());
    let mut reply = Reply::Data(DataReply { data: Vec::new() });
    assert!(e.inject_reply(&Method::Write, "/data", &mut reply).is_ok());
    match reply {
        Reply::Data(d) => assert!(d.data.is_empty()),
        Reply::Other => panic!("the reply variant must be preserved"),
    }
}

#[test]
fn rules_apply_in_order_on_the_same_buffer() {
    // A certain zero rule after a certain random rule: every trial ends with
    // some zero byte, whatever the random rule wrote first.
    let e = engine(
        vec![rule(100, 1, 8, MistakeType::Random), rule(100, 1, 4, MistakeType::Zero)],
        vec![Method::Write],
        vec!["/"],
    );
    for _ in 0..50 {
        let mut buf = vec![0xFFu8; 8];
        e.inject_write_data("/f", &mut buf).unwrap();
        assert_eq!(buf.len(), 8);
        assert!(buf.contains(&0));
    }
}
