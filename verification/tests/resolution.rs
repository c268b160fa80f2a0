use auto_field::config::{
    AutoFieldConfig, ConfigError, DeclItem, Declaration, FlagValue, ValueKind,
};
use auto_field::derive_auto_field;
use auto_field::shape::EntityFields;

fn disabled_config() -> AutoFieldConfig {
    AutoFieldConfig {
        snowflake_id: false,
        timestamps: false,
        audit: false,
        tenant: false,
        version: false,
        soft_delete: false,
        state: false,
        default_state: None,
        default_state_name: None,
    }
}

#[test]
fn bare_marker_resolves_to_canonical_default() {
    let attrs = vec![Declaration::Bare];
    let config = AutoFieldConfig::from_attributes(&attrs).unwrap();
    assert!(config.snowflake_id);
    assert!(config.timestamps);
    assert!(config.audit);
    assert!(!config.tenant);
    assert!(config.version);
    assert!(config.soft_delete);
    assert!(config.state);
    assert_eq!(config.default_state, Some("1".to_string()));
    assert_eq!(config.default_state_name, Some("enabled".to_string()));
    assert!(config.validate().is_ok());
}

#[test]
fn bare_and_explicit_same_values_resolve_identically() {
    let bare = vec![Declaration::Bare];
    let explicit = vec![Declaration::Items(vec![
        DeclItem::KeyValue("snowflake_id".to_string(), FlagValue::Bool(true)),
        DeclItem::KeyValue("timestamps".to_string(), FlagValue::Bool(true)),
        DeclItem::KeyValue("audit".to_string(), FlagValue::Bool(true)),
        DeclItem::KeyValue("tenant".to_string(), FlagValue::Bool(false)),
        DeclItem::KeyValue("version".to_string(), FlagValue::Bool(true)),
        DeclItem::KeyValue("soft_delete".to_string(), FlagValue::Bool(true)),
        DeclItem::KeyValue("state".to_string(), FlagValue::Bool(true)),
        DeclItem::KeyValue("default_state".to_string(), FlagValue::Text("1".to_string())),
        DeclItem::KeyValue(
            "default_state_name".to_string(),
            FlagValue::Text("enabled".to_string()),
        ),
    ])];
    let from_bare = AutoFieldConfig::from_attributes(&bare).unwrap();
    let from_explicit = AutoFieldConfig::from_attributes(&explicit).unwrap();
    assert_eq!(from_bare, from_explicit);
}

#[test]
fn bare_flag_names_mean_true() {
    let attrs = vec![Declaration::Items(vec![
        DeclItem::Flag("timestamps".to_string()),
        DeclItem::Flag("version".to_string()),
    ])];
    let config = AutoFieldConfig::from_attributes(&attrs).unwrap();
    assert!(config.timestamps);
    assert!(config.version);
    assert!(!config.snowflake_id);
    assert!(!config.audit);
}

#[test]
fn later_entry_overrides_earlier_one() {
    let attrs = vec![Declaration::Items(vec![
        DeclItem::KeyValue("version".to_string(), FlagValue::Bool(true)),
        DeclItem::KeyValue("version".to_string(), FlagValue::Bool(false)),
    ])];
    let config = AutoFieldConfig::from_attributes(&attrs).unwrap();
    assert!(!config.version);
}

#[test]
fn unknown_key_is_rejected() {
    let attrs = vec![Declaration::Items(vec![DeclItem::Flag("caching".to_string())])];
    let err = AutoFieldConfig::from_attributes(&attrs).unwrap_err();
    assert_eq!(err, ConfigError::UnknownKey("caching".to_string()));
    let attrs = vec![Declaration::Items(vec![DeclItem::KeyValue(
        "caching".to_string(),
        FlagValue::Bool(true),
    )])];
    let err = AutoFieldConfig::from_attributes(&attrs).unwrap_err();
    assert_eq!(err, ConfigError::UnknownKey("caching".to_string()));
}

#[test]
fn boolean_key_with_text_value_is_a_type_mismatch() {
    let attrs = vec![Declaration::Items(vec![DeclItem::KeyValue(
        "audit".to_string(),
        FlagValue::Text("yes".to_string()),
    )])];
    let err = AutoFieldConfig::from_attributes(&attrs).unwrap_err();
    assert_eq!(err, ConfigError::TypeMismatch("audit".to_string(), ValueKind::Boolean));
}

#[test]
fn text_key_with_boolean_value_is_a_type_mismatch() {
    let attrs = vec![Declaration::Items(vec![DeclItem::KeyValue(
        "default_state".to_string(),
        FlagValue::Bool(true),
    )])];
    let err = AutoFieldConfig::from_attributes(&attrs).unwrap_err();
    assert_eq!(err, ConfigError::TypeMismatch("default_state".to_string(), ValueKind::Text));
}

#[test]
fn bare_marker_mixed_with_entries_is_malformed() {
    let attrs = vec![
        Declaration::Bare,
        Declaration::Items(vec![DeclItem::Flag("version".to_string())]),
    ];
    let err = AutoFieldConfig::from_attributes(&attrs).unwrap_err();
    assert_eq!(err, ConfigError::MalformedDeclaration);
    let attrs = vec![
        Declaration::Items(vec![DeclItem::Flag("version".to_string())]),
        Declaration::Bare,
    ];
    let err = AutoFieldConfig::from_attributes(&attrs).unwrap_err();
    assert_eq!(err, ConfigError::MalformedDeclaration);
}

#[test]
fn audit_without_timestamps_is_invalid_whatever_else_is_set() {
    let mut combos = Vec::new();
    for snowflake_id in [false, true] {
        for tenant in [false, true] {
            for soft_delete in [false, true] {
                combos.push(AutoFieldConfig {
                    snowflake_id,
                    timestamps: false,
                    audit: true,
                    tenant,
                    version: snowflake_id,
                    soft_delete,
                    state: false,
                    default_state: None,
                    default_state_name: None,
                });
            }
        }
    }
    for config in combos {
        let err = config.validate().unwrap_err();
        assert_eq!(
            err,
            ConfigError::InvalidCombination("audit requires timestamps".to_string())
        );
    }
}

#[test]
fn state_without_default_is_missing_default() {
    let config = AutoFieldConfig { state: true, ..disabled_config() };
    let err = config.validate().unwrap_err();
    assert_eq!(err, ConfigError::MissingDefault("default_state".to_string()));
}

#[test]
fn state_with_default_validates() {
    let config = AutoFieldConfig {
        state: true,
        default_state: Some("1".to_string()),
        ..disabled_config()
    };
    assert!(config.validate().is_ok());
}

#[test]
fn shape_analysis_recognizes_well_known_names_only() {
    let names = vec![
        "id".to_string(),
        "title".to_string(),
        "create_time".to_string(),
        "version".to_string(),
        "owner".to_string(),
        "delete_flag".to_string(),
    ];
    let shape = EntityFields::from_fields(&names);
    assert!(shape.has_id);
    assert!(shape.has_create_time);
    assert!(shape.has_version);
    assert!(shape.has_delete_flag);
    assert!(!shape.has_update_time);
    assert!(!shape.has_create_by);
    assert!(!shape.has_tenant_id);
    assert!(!shape.has_state);
}

#[test]
fn shape_analysis_of_empty_field_list_finds_nothing() {
    let shape = EntityFields::from_fields(&Vec::new());
    assert!(!shape.has_id);
    assert!(!shape.has_create_time);
    assert!(!shape.has_update_time);
    assert!(!shape.has_version);
    assert!(!shape.has_delete_flag);
    assert!(!shape.has_state_name);
}

#[test]
fn shape_analysis_tolerates_repeated_names() {
    let names = vec!["id".to_string(), "id".to_string(), "state".to_string()];
    let shape = EntityFields::from_fields(&names);
    assert!(shape.has_id);
    assert!(shape.has_state);
    assert!(!shape.has_version);
}

#[test]
fn derive_auto_field_builds_a_full_bundle() {
    let attrs = vec![Declaration::Bare];
    let names = vec![
        "id".to_string(),
        "create_time".to_string(),
        "update_time".to_string(),
        "version".to_string(),
        "delete_flag".to_string(),
    ];
    let bundle = derive_auto_field(&attrs, &names).unwrap();
    assert!(bundle.config.snowflake_id);
    assert!(bundle.fields.has_id);
    assert!(!bundle.fields.has_tenant_id);
    assert_eq!(bundle.plan.on_insert.len(), 5);
    assert_eq!(bundle.plan.on_update.len(), 2);
}

#[test]
fn derive_auto_field_surfaces_resolution_errors_before_any_instance() {
    let attrs = vec![Declaration::Items(vec![
        DeclItem::Flag("audit".to_string()),
    ])];
    let names = vec!["id".to_string()];
    let err = derive_auto_field(&attrs, &names).unwrap_err();
    assert_eq!(
        err,
        ConfigError::InvalidCombination("audit requires timestamps".to_string())
    );
    let attrs = vec![Declaration::Items(vec![DeclItem::Flag("nope".to_string())])];
    let err = derive_auto_field(&attrs, &names).unwrap_err();
    assert_eq!(err, ConfigError::UnknownKey("nope".to_string()));
}
