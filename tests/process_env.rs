use std::collections::HashMap;

use kvenv::{OsEnv, ProcessEnv};

fn pair(a: &str, b: &str) -> (String, String) {
    (a.to_string(), b.to_string())
}

fn merge_example() -> HashMap<String, String> {
    let env = ProcessEnv::persisted(
        vec![pair("A", "ENV"), pair("B", "ENV"), pair("C", "ENV")],
        vec![pair("A", "KV"), pair("B", "KV"), pair("D", "KV"), pair("E", "KV")],
        vec!["B".to_string(), "E".to_string()],
    );
    env.into_env().into_iter().collect()
}

fn check_merge_example(env: HashMap<String, String>) {
    assert_eq!(Some(&"KV".to_string()), env.get("A"));
    assert_eq!(None, env.get("B"));
    assert_eq!(Some(&"ENV".to_string()), env.get("C"));
    assert_eq!(Some(&"KV".to_string()), env.get("D"));
    assert_eq!(None, env.get("E"));
}

#[test]
fn env_into_env() {
    check_merge_example(merge_example());
}

#[test]
fn process_env_into_env() {
    let env = merge_example();
    check_merge_example(env.clone());
    assert_eq!(3, env.len());
}

#[test]
fn into_env_each_name_once_last_wins() {
    let env = ProcessEnv::fresh(
        vec![pair("X", "1"), pair("X", "2")],
        vec![pair("Y", "a"), pair("Y", "b"), pair("X", "3"), pair("Y", "c")],
        vec![],
    );
    let vars = env.into_env();
    assert_eq!(2, vars.len());
    let map: HashMap<_, _> = vars.into_iter().collect();
    assert_eq!(Some(&"3".to_string()), map.get("X"));
    assert_eq!(Some(&"c".to_string()), map.get("Y"));
}

#[test]
fn into_env_empty() {
    let env = ProcessEnv::fresh(vec![], vec![], vec!["A".to_string()]);
    assert!(env.into_env().is_empty());
}

fn round_trip(env: ProcessEnv, os_vars: Vec<(String, String)>) -> ProcessEnv {
    ProcessEnv::from_cached(env.into_cached(), os_vars)
}

#[test]
fn env_serialization_persisted() {
    let env = vec![pair("A", "B")];
    let kv = vec![pair("C", "D")];
    let masked = vec!["E".to_string()];
    let proc_env = ProcessEnv::persisted(env.clone(), kv.clone(), masked.clone());

    let serialized = round_trip(proc_env, vec![pair("Other", "process")]);

    assert_eq!(masked, serialized.masked);
    assert_eq!(kv, serialized.from_kv);
    assert!(matches!(serialized.from_env, OsEnv::Persisted(_)));
    assert_eq!(env, serialized.from_env.into_vars());
}

#[test]
fn process_env_serialization_persisted() {
    let env = vec![pair("A", "B")];
    let kv = vec![pair("C", "D")];
    let masked = vec!["E".to_string()];
    let proc_env = ProcessEnv::persisted(env.clone(), kv.clone(), masked.clone());

    let serialized = round_trip(proc_env, vec![]);

    assert_eq!(masked, serialized.masked);
    assert_eq!(kv, serialized.from_kv);
    assert!(matches!(serialized.from_env, OsEnv::Persisted(_)));
    assert_eq!(env, serialized.from_env.into_vars());
}

#[test]
fn persisted_round_trip_keeps_the_merged_variables() {
    let before = ProcessEnv::persisted(
        vec![pair("A", "B"), pair("M", "x")],
        vec![pair("C", "D"), pair("A", "E")],
        vec!["M".to_string()],
    );
    let again = ProcessEnv::persisted(
        vec![pair("A", "B"), pair("M", "x")],
        vec![pair("C", "D"), pair("A", "E")],
        vec!["M".to_string()],
    );
    let after = round_trip(again, vec![pair("Z", "z")]);
    let before: HashMap<_, _> = before.into_env().into_iter().collect();
    let after: HashMap<_, _> = after.into_env().into_iter().collect();
    assert_eq!(before, after);
}

#[test]
fn serialization_fresh_reads_the_consumer_environment() {
    let proc_env = ProcessEnv::fresh(vec![pair("Ignore", "me")], vec![pair("C", "D")], vec!["E".to_string()]);
    let cached = proc_env.into_cached();
    assert!(cached.from_env.is_none());
    let consumer = vec![pair("HOME", "/root")];
    let serialized = ProcessEnv::from_cached(cached, consumer.clone());
    assert_eq!(vec!["E".to_string()], serialized.masked);
    assert_eq!(vec![pair("C", "D")], serialized.from_kv);
    assert!(matches!(serialized.from_env, OsEnv::Fresh(_)));
    assert!(serialized.from_env.should_not_persist());
    assert_eq!(consumer, serialized.from_env.into_vars());
}

#[test]
fn new_keeps_os_variables_only_when_snapshotting() {
    let env = ProcessEnv::new(vec![], vec![], true, vec![pair("A", "1")]);
    assert!(!env.from_env.should_not_persist());
    assert!(env.into_cached().from_env.is_some());
    let env = ProcessEnv::new(vec![], vec![], false, vec![pair("A", "1")]);
    assert!(env.from_env.should_not_persist());
    assert!(env.into_cached().from_env.is_none());
}

#[test]
fn fresh_environment_takes_the_current_os_variables() {
    let env = ProcessEnv::fresh(vec![pair("OLD", "1")], vec![pair("K", "v")], vec![]);
    let env = env.with_current_os(vec![pair("NEW", "2")]);
    let vars: HashMap<_, _> = env.into_env().into_iter().collect();
    assert_eq!(None, vars.get("OLD"));
    assert_eq!(Some(&"2".to_string()), vars.get("NEW"));
    assert_eq!(Some(&"v".to_string()), vars.get("K"));

    let env = ProcessEnv::persisted(vec![pair("OLD", "1")], vec![], vec![]);
    let env = env.with_current_os(vec![pair("NEW", "2")]);
    assert_eq!(vec![pair("OLD", "1")], env.into_env());
}
