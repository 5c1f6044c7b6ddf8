use gordo_controller::config::{
    default_deploy_repository, default_deploy_ro_fs, default_server_host, default_server_port,
    split_workflow_generator_envs, Config, GordoEnvironmentConfig,
};
use gordo_controller::text::{i64_text, plural_str, u64_text};

#[test]
fn defaults() {
    assert_eq!(default_deploy_repository(), "");
    assert_eq!(default_server_port(), 8888);
    assert_eq!(default_server_host(), "0.0.0.0");
    assert!(!default_deploy_ro_fs());
    let env = GordoEnvironmentConfig::default();
    assert_eq!(env.deploy_image, "gordo-infrastructure/gordo-deploy");
    assert_eq!(env.docker_registry, "docker.io");
}

#[test]
fn json_fields_are_read() {
    assert_eq!(Config::load_from_json("").unwrap(), None);
    assert_eq!(
        Config::load_from_json("{\"b\":\"2\",\"a\":\"1\"}").unwrap(),
        Some(vec![("a".to_string(), "1".to_string()), ("b".to_string(), "2".to_string())])
    );
    assert!(Config::load_from_json("{\"a\":1}").is_err());
    assert!(Config::load_from_json("not json").is_err());
}

#[test]
fn bad_fields_are_named() {
    let mut env = GordoEnvironmentConfig::default();
    env.default_deploy_environment = "[".to_string();
    assert_eq!(Config::from_environment(env, vec![]).unwrap_err().field, "DEFAULT_DEPLOY_ENVIRONMENT");
    let mut env = GordoEnvironmentConfig::default();
    env.resources_labels = "{\"a\":[]}".to_string();
    assert_eq!(Config::from_environment(env, vec![]).unwrap_err().field, "RESOURCES_LABELS");
    let mut env = GordoEnvironmentConfig::default();
    env.argo_version_number = Some("abc".to_string());
    assert_eq!(Config::from_environment(env, vec![]).unwrap_err().field, "ARGO_VERSION_NUMBER");
    let mut env = GordoEnvironmentConfig::default();
    env.argo_version_number = Some("256".to_string());
    assert_eq!(Config::from_environment(env, vec![]).unwrap_err().field, "ARGO_VERSION_NUMBER");
    let mut env = GordoEnvironmentConfig::default();
    env.argo_version_number = Some("+255".to_string());
    assert_eq!(Config::from_environment(env, vec![]).unwrap().argo_version_number, Some(255));
}

#[test]
fn resource_labels_as_json() {
    let mut c = Config::from_environment(GordoEnvironmentConfig::default(), vec![]).unwrap();
    assert_eq!(c.get_resources_labels_json().unwrap(), "");
    c.resources_labels = Some(vec![("a".to_string(), "1".to_string()), ("b".to_string(), "x\ny".to_string())]);
    assert_eq!(c.get_resources_labels_json().unwrap(), "{\"a\":\"1\",\"b\":\"x\\ny\"}");
}

#[test]
fn workflow_generator_envs_are_split() {
    let envs = vec![
        ("WORKFLOW_GENERATOR_A".to_string(), "1".to_string()),
        ("DEPLOY_IMAGE".to_string(), "img".to_string()),
        ("WORKFLOW_GENERATOR".to_string(), "2".to_string()),
        ("WORKFLOW_GENERATOR_B".to_string(), "3".to_string()),
    ];
    let (generator, other) = split_workflow_generator_envs(envs);
    assert_eq!(generator, vec![("WORKFLOW_GENERATOR_A".to_string(), "1".to_string()), ("WORKFLOW_GENERATOR_B".to_string(), "3".to_string())]);
    assert_eq!(other, vec![("DEPLOY_IMAGE".to_string(), "img".to_string()), ("WORKFLOW_GENERATOR".to_string(), "2".to_string())]);
}

#[test]
fn plurals() {
    assert_eq!(plural_str(1, "models"), "model");
    assert_eq!(plural_str(1, "pass"), "pa");
    assert_eq!(plural_str(0, "models"), "models");
    assert_eq!(plural_str(2, "pods"), "pods");
}

#[test]
fn decimal_text() {
    assert_eq!(u64_text(0), "0");
    assert_eq!(u64_text(1600000000000), "1600000000000");
    assert_eq!(i64_text(-42), "-42");
    assert_eq!(i64_text(i64::MIN), "-9223372036854775808");
    assert_eq!(u64_text(u64::MAX), "18446744073709551615");
}
