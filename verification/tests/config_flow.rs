use anything_runtime::AnythingConfig;
use anything_runtime::RuntimeConfig;
use anything_runtime::UpdateFlowArgs;
use anything_runtime::UpdateFlowVersion;
use anything_runtime::CreateFlow;

#[test]
fn anything_config_keeps_its_parts() {
    let mut config = AnythingConfig::new(RuntimeConfig::default());
    assert_eq!(config.database_config().uri, None);
    assert_eq!(config.database_config().max_connections, None);
    assert_eq!(*config.runtime_config(), RuntimeConfig::default());

    config.update_runtime_config(RuntimeConfig::default());
    assert_eq!(config.database_config().uri, None);
}

#[test]
fn update_flow_args_new_is_inactive_and_unversioned() {
    let args = UpdateFlowArgs::new("some-flow".to_string());
    assert_eq!(args.flow_name, "some-flow");
    assert!(!args.active);
    assert_eq!(args.version, None);
}

#[test]
fn flow_argument_records_hold_their_fields() {
    let create = CreateFlow {
        name: "some-flow".to_string(),
        active: false,
        version: Some("0.1.1".to_string()),
    };
    assert_eq!(create.name, "some-flow");
    assert_eq!(create.version.as_deref(), Some("0.1.1"));

    let update = UpdateFlowVersion {
        version: None,
        flow_definition: Some("{}".to_string()),
        published: Some(false),
        description: None,
    };
    assert_eq!(update.flow_definition.as_deref(), Some("{}"));
    assert_eq!(update.published, Some(false));
}
