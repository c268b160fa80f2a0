use auto_field::config::AutoFieldConfig;
use auto_field::clock::{on_insert_now, on_update_now};
use auto_field::field_state::{FieldState, FieldValue, should_fill, should_fill_required};
use auto_field::filter::{
    eval_filter, find_by_creator_id, find_by_creator_name, find_by_tenant_id, find_by_tenant_name,
    find_not_deleted, Filter, FilterOptions, Row,
};
use auto_field::plan::{build_plan, FieldName, LifecycleAction, ValueSource};
use auto_field::record::{
    on_insert, on_update, ActiveRecord, AmbientContext, GeneratorOutcome,
};
use auto_field::soft_delete::{
    soft_delete_apply, soft_delete_many_step, soft_delete_supported, BatchStep, SoftDeleteError,
    StoreError,
};
use auto_field::shape::EntityFields;

fn full_config() -> AutoFieldConfig {
    AutoFieldConfig {
        snowflake_id: true,
        timestamps: true,
        audit: true,
        tenant: true,
        version: true,
        soft_delete: true,
        state: true,
        default_state: Some("1".to_string()),
        default_state_name: Some("enabled".to_string()),
    }
}

fn full_shape() -> EntityFields {
    EntityFields {
        has_id: true,
        has_create_time: true,
        has_update_time: true,
        has_create_by: true,
        has_create_id: true,
        has_update_by: true,
        has_update_id: true,
        has_tenant_id: true,
        has_tenant_name: true,
        has_version: true,
        has_delete_flag: true,
        has_state: true,
        has_state_name: true,
    }
}

fn empty_shape() -> EntityFields {
    EntityFields {
        has_id: false,
        has_create_time: false,
        has_update_time: false,
        has_create_by: false,
        has_create_id: false,
        has_update_by: false,
        has_update_id: false,
        has_tenant_id: false,
        has_tenant_name: false,
        has_version: false,
        has_delete_flag: false,
        has_state: false,
        has_state_name: false,
    }
}

fn full_context() -> AmbientContext {
    AmbientContext {
        user_name: Some("ada".to_string()),
        user_id: Some("u-1".to_string()),
        tenant_id: Some("t-9".to_string()),
        tenant_name: Some("acme".to_string()),
    }
}

#[test]
fn should_fill_matches_the_five_state_table() {
    assert!(should_fill(&FieldState::Unset));
    assert!(should_fill(&FieldState::SetToAbsent));
    assert!(!should_fill(&FieldState::SetToPresent(FieldValue::IntVal(7))));
    assert!(should_fill(&FieldState::UnchangedAbsent));
    assert!(!should_fill(&FieldState::UnchangedPresent(FieldValue::TextVal(
        "kept".to_string()
    ))));
}

#[test]
fn should_fill_required_fills_only_unset() {
    assert!(should_fill_required(&FieldState::Unset));
    assert!(!should_fill_required(&FieldState::SetToAbsent));
    assert!(!should_fill_required(&FieldState::SetToPresent(FieldValue::IntVal(1))));
    assert!(!should_fill_required(&FieldState::UnchangedAbsent));
    assert!(!should_fill_required(&FieldState::UnchangedPresent(FieldValue::IntVal(1))));
}

fn has_action_on(actions: &[LifecycleAction], field: FieldName) -> bool {
    actions.iter().any(|a| match a {
        LifecycleAction::FillIfEmpty(f, _) => *f == field,
        LifecycleAction::AlwaysSet(f, _) => *f == field,
        LifecycleAction::Increment(f) => *f == field,
    })
}

#[test]
fn identifier_action_needs_both_flag_and_field() {
    let mut shape = full_shape();
    shape.has_id = false;
    let plan = build_plan(&full_config(), &shape);
    assert!(!has_action_on(&plan.on_insert, FieldName::Id));
    assert!(!has_action_on(&plan.on_update, FieldName::Id));

    let mut config = full_config();
    config.snowflake_id = false;
    let plan = build_plan(&config, &full_shape());
    assert!(!has_action_on(&plan.on_insert, FieldName::Id));

    let plan = build_plan(&full_config(), &full_shape());
    assert!(plan
        .on_insert
        .contains(&LifecycleAction::FillIfEmpty(FieldName::Id, ValueSource::Generator)));
}

#[test]
fn insert_plan_follows_the_construction_table() {
    let plan = build_plan(&full_config(), &full_shape());
    let expected_insert = vec![
        LifecycleAction::FillIfEmpty(FieldName::Id, ValueSource::Generator),
        LifecycleAction::FillIfEmpty(FieldName::CreateTime, ValueSource::CurrentTimestamp),
        LifecycleAction::FillIfEmpty(FieldName::UpdateTime, ValueSource::CurrentTimestamp),
        LifecycleAction::FillIfEmpty(FieldName::CreateBy, ValueSource::ActorName),
        LifecycleAction::FillIfEmpty(FieldName::CreateId, ValueSource::ActorId),
        LifecycleAction::FillIfEmpty(FieldName::TenantId, ValueSource::TenantId),
        LifecycleAction::FillIfEmpty(FieldName::TenantName, ValueSource::TenantName),
        LifecycleAction::FillIfEmpty(FieldName::Version, ValueSource::ConstInt(1)),
        LifecycleAction::FillIfEmpty(FieldName::DeleteFlag, ValueSource::ConstInt(0)),
        LifecycleAction::FillIfEmpty(FieldName::State, ValueSource::ConstText("1".to_string())),
        LifecycleAction::FillIfEmpty(
            FieldName::StateName,
            ValueSource::ConstText("enabled".to_string()),
        ),
    ];
    assert_eq!(plan.on_insert, expected_insert);
    let expected_update = vec![
        LifecycleAction::AlwaysSet(FieldName::UpdateTime, ValueSource::CurrentTimestamp),
        LifecycleAction::AlwaysSet(FieldName::UpdateBy, ValueSource::ActorName),
        LifecycleAction::AlwaysSet(FieldName::UpdateId, ValueSource::ActorId),
        LifecycleAction::Increment(FieldName::Version),
    ];
    assert_eq!(plan.on_update, expected_update);
}

#[test]
fn insert_fills_empty_fields_and_protects_present_ones() {
    let mut rec = ActiveRecord::unset();
    rec.state = FieldState::SetToPresent(FieldValue::TextVal("2".to_string()));
    on_insert(
        &full_config(),
        &full_shape(),
        &mut rec,
        &full_context(),
        1000,
        &GeneratorOutcome::Generated("id-77".to_string()),
    );
    assert_eq!(rec.id, FieldState::SetToPresent(FieldValue::TextVal("id-77".to_string())));
    assert_eq!(rec.create_time, FieldState::SetToPresent(FieldValue::IntVal(1000)));
    assert_eq!(rec.update_time, FieldState::SetToPresent(FieldValue::IntVal(1000)));
    assert_eq!(rec.create_by, FieldState::SetToPresent(FieldValue::TextVal("ada".to_string())));
    assert_eq!(rec.create_id, FieldState::SetToPresent(FieldValue::TextVal("u-1".to_string())));
    assert_eq!(rec.tenant_id, FieldState::SetToPresent(FieldValue::TextVal("t-9".to_string())));
    assert_eq!(
        rec.tenant_name,
        FieldState::SetToPresent(FieldValue::TextVal("acme".to_string()))
    );
    assert_eq!(rec.version, FieldState::SetToPresent(FieldValue::IntVal(1)));
    assert_eq!(rec.delete_flag, FieldState::SetToPresent(FieldValue::IntVal(0)));
    assert_eq!(rec.state, FieldState::SetToPresent(FieldValue::TextVal("2".to_string())));
    assert_eq!(
        rec.state_name,
        FieldState::SetToPresent(FieldValue::TextVal("enabled".to_string()))
    );
    assert_eq!(rec.update_by, FieldState::Unset);
    assert_eq!(rec.update_id, FieldState::Unset);
}

#[test]
fn generation_failure_leaves_the_identifier_unfilled() {
    let mut rec = ActiveRecord::unset();
    on_insert(
        &full_config(),
        &full_shape(),
        &mut rec,
        &full_context(),
        1000,
        &GeneratorOutcome::GenerationFailed,
    );
    assert_eq!(rec.id, FieldState::Unset);
    assert_eq!(rec.version, FieldState::SetToPresent(FieldValue::IntVal(1)));
}

#[test]
fn empty_ambient_values_are_skipped_silently() {
    let ctx = AmbientContext {
        user_name: Some(String::new()),
        user_id: None,
        tenant_id: Some(String::new()),
        tenant_name: None,
    };
    let mut rec = ActiveRecord::unset();
    on_insert(
        &full_config(),
        &full_shape(),
        &mut rec,
        &ctx,
        1000,
        &GeneratorOutcome::GenerationFailed,
    );
    assert_eq!(rec.create_by, FieldState::Unset);
    assert_eq!(rec.create_id, FieldState::Unset);
    assert_eq!(rec.tenant_id, FieldState::Unset);
    assert_eq!(rec.tenant_name, FieldState::Unset);
}

#[test]
fn insert_with_no_prior_version_yields_one() {
    let mut rec = ActiveRecord::unset();
    on_insert(
        &full_config(),
        &full_shape(),
        &mut rec,
        &AmbientContext::empty(),
        5,
        &GeneratorOutcome::GenerationFailed,
    );
    assert_eq!(rec.version, FieldState::SetToPresent(FieldValue::IntVal(1)));
}

#[test]
fn update_increments_version_from_its_last_known_value() {
    let cases = vec![
        (FieldState::SetToPresent(FieldValue::IntVal(5)), 6),
        (FieldState::UnchangedPresent(FieldValue::IntVal(5)), 6),
        (FieldState::Unset, 1),
        (FieldState::SetToAbsent, 1),
        (FieldState::UnchangedAbsent, 1),
    ];
    for (start, expected) in cases {
        let mut rec = ActiveRecord::unset();
        rec.version = start;
        on_update(&full_config(), &full_shape(), &mut rec, &full_context(), 2000);
        assert_eq!(rec.version, FieldState::SetToPresent(FieldValue::IntVal(expected)));
    }
}

#[test]
fn update_always_sets_timestamp_and_updater() {
    let mut rec = ActiveRecord::unset();
    rec.update_time = FieldState::UnchangedPresent(FieldValue::IntVal(1));
    rec.update_by = FieldState::SetToPresent(FieldValue::TextVal("old".to_string()));
    on_update(&full_config(), &full_shape(), &mut rec, &full_context(), 2000);
    assert_eq!(rec.update_time, FieldState::SetToPresent(FieldValue::IntVal(2000)));
    assert_eq!(rec.update_by, FieldState::SetToPresent(FieldValue::TextVal("ada".to_string())));
    assert_eq!(rec.update_id, FieldState::SetToPresent(FieldValue::TextVal("u-1".to_string())));
    assert_eq!(rec.create_time, FieldState::Unset);
}

#[test]
fn running_the_insert_plan_twice_changes_nothing_more() {
    let ctx = full_context();
    let gen = GeneratorOutcome::Generated("id-1".to_string());
    let mut once = ActiveRecord::unset();
    on_insert(&full_config(), &full_shape(), &mut once, &ctx, 1000, &gen);
    let mut twice = once.clone();
    on_insert(&full_config(), &full_shape(), &mut twice, &ctx, 1000, &gen);
    assert_eq!(once, twice);
    let mut third = once.clone();
    on_insert(
        &full_config(),
        &full_shape(),
        &mut third,
        &ctx,
        1000,
        &GeneratorOutcome::Generated("id-2".to_string()),
    );
    assert_eq!(once, third);
}

#[test]
fn clock_backed_runs_fill_the_timestamp_fields() {
    let mut rec = ActiveRecord::unset();
    on_insert_now(
        &full_config(),
        &full_shape(),
        &mut rec,
        &AmbientContext::empty(),
        &GeneratorOutcome::GenerationFailed,
    );
    assert!(matches!(rec.create_time, FieldState::SetToPresent(FieldValue::IntVal(_))));
    let before = rec.create_time.clone();
    on_update_now(&full_config(), &full_shape(), &mut rec, &AmbientContext::empty());
    assert!(matches!(rec.update_time, FieldState::SetToPresent(FieldValue::IntVal(_))));
    assert_eq!(rec.create_time, before);
    assert_eq!(rec.version, FieldState::SetToPresent(FieldValue::IntVal(2)));
}

#[test]
fn find_not_deleted_depends_on_soft_delete_support() {
    let unfiltered = find_not_deleted(
        &AutoFieldConfig { soft_delete: false, ..full_config() },
        &full_shape(),
    );
    assert_eq!(unfiltered, Filter::MatchAll);
    let filtered = find_not_deleted(&full_config(), &full_shape());
    assert_eq!(
        filtered,
        Filter::FieldNe(FieldName::DeleteFlag, FieldValue::IntVal(1))
    );
    let mut deleted = Row::empty();
    deleted.delete_flag = Some(FieldValue::IntVal(1));
    let mut kept = Row::empty();
    kept.delete_flag = Some(FieldValue::IntVal(0));
    assert!(!eval_filter(&filtered, &deleted));
    assert!(eval_filter(&filtered, &kept));
    assert!(eval_filter(&unfiltered, &deleted));
    assert!(eval_filter(&unfiltered, &kept));
}

#[test]
fn tenant_filter_conjoins_not_deleted_by_default() {
    let opts = FilterOptions::default();
    let flt = find_by_tenant_id(&full_config(), &full_shape(), &opts, "t-9");
    let mut row = Row::empty();
    row.tenant_id = Some(FieldValue::TextVal("t-9".to_string()));
    row.delete_flag = Some(FieldValue::IntVal(0));
    assert!(eval_filter(&flt, &row));
    row.delete_flag = Some(FieldValue::IntVal(1));
    assert!(!eval_filter(&flt, &row));
    row.delete_flag = Some(FieldValue::IntVal(0));
    row.tenant_id = Some(FieldValue::TextVal("other".to_string()));
    assert!(!eval_filter(&flt, &row));
}

#[test]
fn tenant_filter_without_conjunct_checks_tenant_alone() {
    let opts = FilterOptions { conjunct_not_deleted: false };
    let flt = find_by_tenant_id(&full_config(), &full_shape(), &opts, "t-9");
    assert_eq!(
        flt,
        Filter::FieldEq(FieldName::TenantId, FieldValue::TextVal("t-9".to_string()))
    );
    let mut row = Row::empty();
    row.tenant_id = Some(FieldValue::TextVal("t-9".to_string()));
    row.delete_flag = Some(FieldValue::IntVal(1));
    assert!(eval_filter(&flt, &row));
}

#[test]
fn unsupported_finders_degrade_to_match_everything() {
    let opts = FilterOptions::default();
    let config = AutoFieldConfig { tenant: false, audit: false, ..full_config() };
    assert_eq!(
        find_by_tenant_id(&config, &full_shape(), &opts, "t"),
        Filter::MatchAll
    );
    assert_eq!(
        find_by_tenant_name(&config, &full_shape(), &opts, "t"),
        Filter::MatchAll
    );
    assert_eq!(
        find_by_creator_id(&config, &full_shape(), &opts, "u"),
        Filter::MatchAll
    );
    assert_eq!(
        find_by_creator_name(&config, &full_shape(), &opts, "u"),
        Filter::MatchAll
    );
    let mut shape = full_shape();
    shape.has_create_id = false;
    assert_eq!(
        find_by_creator_id(&full_config(), &shape, &opts, "u"),
        Filter::MatchAll
    );
}

#[test]
fn creator_filters_compare_the_audit_columns() {
    let opts = FilterOptions { conjunct_not_deleted: false };
    assert_eq!(
        find_by_creator_id(&full_config(), &full_shape(), &opts, "u-1"),
        Filter::FieldEq(FieldName::CreateId, FieldValue::TextVal("u-1".to_string()))
    );
    assert_eq!(
        find_by_creator_name(&full_config(), &full_shape(), &opts, "ada"),
        Filter::FieldEq(FieldName::CreateBy, FieldValue::TextVal("ada".to_string()))
    );
}

#[test]
fn soft_delete_unsupported_fails_explicitly() {
    let config = AutoFieldConfig { soft_delete: false, ..full_config() };
    assert!(!soft_delete_supported(&config, &full_shape()));
    let r = soft_delete_apply(&config, &full_shape(), None, &full_context(), 9);
    assert_eq!(r, Err(SoftDeleteError::UnsupportedOperation));
    let mut shape = full_shape();
    shape.has_delete_flag = false;
    let r = soft_delete_apply(&full_config(), &shape, None, &full_context(), 9);
    assert_eq!(r, Err(SoftDeleteError::UnsupportedOperation));
}

#[test]
fn soft_delete_of_a_missing_record_is_a_no_op() {
    let r = soft_delete_apply(&full_config(), &full_shape(), None, &full_context(), 9);
    assert_eq!(r, Ok(None));
}

#[test]
fn soft_delete_marks_and_runs_the_update_path() {
    let mut loaded = ActiveRecord::unset();
    loaded.version = FieldState::UnchangedPresent(FieldValue::IntVal(3));
    loaded.delete_flag = FieldState::UnchangedPresent(FieldValue::IntVal(0));
    let out = soft_delete_apply(
        &full_config(),
        &full_shape(),
        Some(loaded),
        &full_context(),
        7000,
    )
    .unwrap()
    .unwrap();
    assert_eq!(out.delete_flag, FieldState::SetToPresent(FieldValue::IntVal(1)));
    assert_eq!(out.update_time, FieldState::SetToPresent(FieldValue::IntVal(7000)));
    assert_eq!(out.update_by, FieldState::SetToPresent(FieldValue::TextVal("ada".to_string())));
    assert_eq!(out.version, FieldState::SetToPresent(FieldValue::IntVal(4)));
}

#[test]
fn batch_deletion_halts_at_the_first_failure_and_reports_it() {
    let ids = vec!["a".to_string(), "b".to_string(), "c".to_string()];
    let mut attempted: Vec<String> = Vec::new();
    let mut position = 0usize;
    let mut halted: Option<(usize, StoreError)> = None;
    loop {
        let id = &ids[position];
        attempted.push(id.clone());
        let outcome: Result<(), StoreError> = if id == "b" {
            Err(StoreError { message: "row locked".to_string() })
        } else {
            Ok(())
        };
        match soft_delete_many_step(ids.len(), position, outcome) {
            BatchStep::Proceed(next) => {
                position = next;
            },
            BatchStep::Completed => break,
            BatchStep::Halted(at, err) => {
                halted = Some((at, err));
                break;
            },
        }
    }
    assert_eq!(attempted, vec!["a".to_string(), "b".to_string()]);
    let (at, err) = halted.unwrap();
    assert_eq!(at, 1);
    assert_eq!(ids[at], "b".to_string());
    assert_eq!(err.message, "row locked".to_string());
}

#[test]
fn batch_deletion_completes_when_every_step_succeeds() {
    let ids = vec!["a".to_string(), "b".to_string()];
    assert_eq!(soft_delete_many_step(ids.len(), 0, Ok(())), BatchStep::Proceed(1));
    assert_eq!(soft_delete_many_step(ids.len(), 1, Ok(())), BatchStep::Completed);
}

#[test]
fn plans_for_an_entity_without_fields_are_empty() {
    let plan = build_plan(&full_config(), &empty_shape());
    assert!(plan.on_insert.is_empty());
    assert!(plan.on_update.is_empty());
    let mut rec = ActiveRecord::unset();
    on_insert(
        &full_config(),
        &empty_shape(),
        &mut rec,
        &full_context(),
        1,
        &GeneratorOutcome::Generated("x".to_string()),
    );
    assert_eq!(rec, ActiveRecord::unset());
}
