use chromemanagement1::cli::{global_param_map, global_params, route_args, route_param, split_kv, ParamRoute};

#[test]
fn split_at_first_equals() {
    assert_eq!(split_kv("filter=a=b"), ("filter".to_string(), Some("a=b".to_string())));
    assert_eq!(split_kv("flag"), ("flag".to_string(), None));
    assert_eq!(split_kv("empty="), ("empty".to_string(), Some(String::new())));
    assert_eq!(split_kv("=v"), (String::new(), Some("v".to_string())));
}

#[test]
fn routes_own_global_and_unknown() {
    let own = vec!["q".to_string(), "num".to_string()];
    assert_eq!(route_param(&"q".to_string(), &own), ParamRoute::Method);
    assert_eq!(route_param(&"quota-user".to_string(), &own), ParamRoute::Global("quotaUser".to_string()));
    assert_eq!(route_param(&"$-xgafv".to_string(), &own), ParamRoute::Global("$.xgafv".to_string()));
    assert_eq!(route_param(&"fields".to_string(), &own), ParamRoute::Global("fields".to_string()));
    assert_eq!(route_param(&"bogus".to_string(), &own), ParamRoute::Unknown);
}

#[test]
fn own_parameter_shadows_global_one() {
    let own = vec!["key".to_string()];
    assert_eq!(route_param(&"key".to_string(), &own), ParamRoute::Method);
}

#[test]
fn global_tables() {
    assert_eq!(global_params().len(), 11);
    assert_eq!(global_param_map().pairs.len(), 7);
}

#[test]
fn route_args_sorts_each_argument() {
    let args: Vec<String> = ["q=rust", "quota-user=me", "bogus=1", "num", "pretty-print", "fields=items", "fields=kind"]
        .iter()
        .map(|s| s.to_string())
        .collect();
    let own = vec!["q".to_string(), "num".to_string()];
    let r = route_args(&args, &own);
    assert_eq!(r.method, vec![("q".to_string(), Some("rust".to_string())), ("num".to_string(), None)]);
    assert_eq!(
        r.global.pairs,
        vec![
            ("quotaUser".to_string(), "me".to_string()),
            ("prettyPrint".to_string(), "unset".to_string()),
            ("fields".to_string(), "kind".to_string()),
        ]
    );
    assert_eq!(r.unknown, vec!["bogus".to_string()]);
}

#[test]
fn route_args_of_nothing() {
    let r = route_args(&Vec::new(), &vec!["q".to_string()]);
    assert!(r.method.is_empty());
    assert!(r.global.pairs.is_empty());
    assert!(r.unknown.is_empty());
}
