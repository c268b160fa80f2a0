//! The lifecycle plan builder: combining a resolved configuration with an
//! entity's shape into ordered lists of automatic actions for inserts and
//! updates.

use vstd::prelude::*;
use crate::config::{AutoFieldConfig, ConfigModel};
use crate::shape::EntityFields;

verus! {

/// A well-known automatic field of an entity.
#[derive(Debug, Clone, Copy, PartialEq, Eq, Structural)]
pub enum FieldName {
    Id,
    CreateTime,
    UpdateTime,
    CreateBy,
    CreateId,
    UpdateBy,
    UpdateId,
    TenantId,
    TenantName,
    Version,
    DeleteFlag,
    State,
    StateName,
}

/// Where an automatic value comes from: a constant literal, an
/// ambient-context lookup, the current timestamp, or the external identifier
/// generator.
#[derive(Debug, Clone, PartialEq, Eq)]
pub enum ValueSource {
    ConstInt(i64),
    ConstText(String),
    ActorName,
    ActorId,
    TenantId,
    TenantName,
    CurrentTimestamp,
    Generator,
}

/// Mathematical model of a `ValueSource`.
pub enum SourceModel {
    ConstInt(i64),
    ConstText(Seq<char>),
    ActorName,
    ActorId,
    TenantId,
    TenantName,
    CurrentTimestamp,
    Generator,
}

impl View for ValueSource {
    type V = SourceModel;

    open spec fn view(&self) -> SourceModel {
        match self {
            ValueSource::ConstInt(n) => SourceModel::ConstInt(*n),
            ValueSource::ConstText(s) => SourceModel::ConstText(s@),
            ValueSource::ActorName => SourceModel::ActorName,
            ValueSource::ActorId => SourceModel::ActorId,
            ValueSource::TenantId => SourceModel::TenantId,
            ValueSource::TenantName => SourceModel::TenantName,
            ValueSource::CurrentTimestamp => SourceModel::CurrentTimestamp,
            ValueSource::Generator => SourceModel::Generator,
        }
    }
}

impl DeepView for ValueSource {
    type V = SourceModel;

    open spec fn deep_view(&self) -> SourceModel {
        self.view()
    }
}

/// One automatic lifecycle action: fill a field if it is logically empty,
/// set it unconditionally, or increment the version counter (which starts at
/// one when no prior value is known). Actions are pure data; nothing happens
/// until a plan is executed.
#[derive(Debug, Clone, PartialEq, Eq)]
pub enum LifecycleAction {
    FillIfEmpty(FieldName, ValueSource),
    AlwaysSet(FieldName, ValueSource),
    Increment(FieldName),
}

/// Mathematical model of a `LifecycleAction`.
pub enum ActionModel {
    FillIfEmpty(FieldName, SourceModel),
    AlwaysSet(FieldName, SourceModel),
    Increment(FieldName),
}

impl View for LifecycleAction {
    type V = ActionModel;

    open spec fn view(&self) -> ActionModel {
        match self {
            LifecycleAction::FillIfEmpty(f, s) => ActionModel::FillIfEmpty(*f, s@),
            LifecycleAction::AlwaysSet(f, s) => ActionModel::AlwaysSet(*f, s@),
            LifecycleAction::Increment(f) => ActionModel::Increment(*f),
        }
    }
}

impl DeepView for LifecycleAction {
    type V = ActionModel;

    open spec fn deep_view(&self) -> ActionModel {
        self.view()
    }
}

/// The field an action operates on.
pub open spec fn spec_action_field(a: ActionModel) -> FieldName {
    match a {
        ActionModel::FillIfEmpty(f, _) => f,
        ActionModel::AlwaysSet(f, _) => f,
        ActionModel::Increment(f) => f,
    }
}

/// The two ordered action lists of one entity's plan. Each action operates
/// on its own field, so the order is for determinism and readability, not
/// semantics.
#[derive(Debug, Clone, PartialEq, Eq)]
pub struct LifecyclePlan {
    pub on_insert: Vec<LifecycleAction>,
    pub on_update: Vec<LifecycleAction>,
}

/// The default literal for the state field when the configuration supplies
/// none.
pub open spec fn spec_state_default(c: ConfigModel) -> Seq<char> {
    match c.default_state {
        Some(s) => s,
        None => "1"@,
    }
}

/// The default literal for the state-name field when the configuration
/// supplies none.
pub open spec fn spec_state_name_default(c: ConfigModel) -> Seq<char> {
    match c.default_state_name {
        Some(s) => s,
        None => "enabled"@,
    }
}

/// The first half of the insert-time actions: identifier, timestamps, the
/// creator identities, and the tenant identifier.
pub open spec fn spec_insert_front(c: ConfigModel, f: EntityFields) -> Seq<ActionModel> {
    let s = Seq::<ActionModel>::empty();
    let s = if c.snowflake_id && f.has_id {
        s.push(ActionModel::FillIfEmpty(FieldName::Id, SourceModel::Generator))
    } else {
        s
    };
    let s = if c.timestamps && f.has_create_time {
        s.push(ActionModel::FillIfEmpty(FieldName::CreateTime, SourceModel::CurrentTimestamp))
    } else {
        s
    };
    let s = if c.timestamps && f.has_update_time {
        s.push(ActionModel::FillIfEmpty(FieldName::UpdateTime, SourceModel::CurrentTimestamp))
    } else {
        s
    };
    let s = if c.audit && f.has_create_by {
        s.push(ActionModel::FillIfEmpty(FieldName::CreateBy, SourceModel::ActorName))
    } else {
        s
    };
    let s = if c.audit && f.has_create_id {
        s.push(ActionModel::FillIfEmpty(FieldName::CreateId, SourceModel::ActorId))
    } else {
        s
    };
    let s = if c.tenant && f.has_tenant_id {
        s.push(ActionModel::FillIfEmpty(FieldName::TenantId, SourceModel::TenantId))
    } else {
        s
    };
    s
}

/// The insert-time actions: for each well-known field, a fill-if-empty
/// action is included exactly when the governing policy flag is enabled and
/// the field is present on the entity.
pub open spec fn spec_insert_actions(c: ConfigModel, f: EntityFields) -> Seq<ActionModel> {
    let s = spec_insert_front(c, f);
    let s = if c.tenant && f.has_tenant_name {
        s.push(ActionModel::FillIfEmpty(FieldName::TenantName, SourceModel::TenantName))
    } else {
        s
    };
    let s = if c.version && f.has_version {
        s.push(ActionModel::FillIfEmpty(FieldName::Version, SourceModel::ConstInt(1)))
    } else {
        s
    };
    let s = if c.soft_delete && f.has_delete_flag {
        s.push(ActionModel::FillIfEmpty(FieldName::DeleteFlag, SourceModel::ConstInt(0)))
    } else {
        s
    };
    let s = if c.state && f.has_state {
        s.push(
            ActionModel::FillIfEmpty(FieldName::State, SourceModel::ConstText(spec_state_default(c))),
        )
    } else {
        s
    };
    let s = if c.state && f.has_state_name {
        s.push(
            ActionModel::FillIfEmpty(
                FieldName::StateName,
                SourceModel::ConstText(spec_state_name_default(c)),
            ),
        )
    } else {
        s
    };
    s
}

/// The update-time actions: the update timestamp and updater identity are
/// set on every update, and the version counter is incremented.
pub open spec fn spec_update_actions(c: ConfigModel, f: EntityFields) -> Seq<ActionModel> {
    let s = Seq::<ActionModel>::empty();
    let s = if c.timestamps && f.has_update_time {
        s.push(ActionModel::AlwaysSet(FieldName::UpdateTime, SourceModel::CurrentTimestamp))
    } else {
        s
    };
    let s = if c.audit && f.has_update_by {
        s.push(ActionModel::AlwaysSet(FieldName::UpdateBy, SourceModel::ActorName))
    } else {
        s
    };
    let s = if c.audit && f.has_update_id {
        s.push(ActionModel::AlwaysSet(FieldName::UpdateId, SourceModel::ActorId))
    } else {
        s
    };
    let s = if c.version && f.has_version {
        s.push(ActionModel::Increment(FieldName::Version))
    } else {
        s
    };
    s
}

/// Append one action, tracking the mathematical view of the list.
fn push_action(v: &mut Vec<LifecycleAction>, a: LifecycleAction)
    ensures
        final(v).deep_view() == old(v).deep_view().push(a@),
{
    let ghost before = v.deep_view();
    v.push(a);
    proof {
        assert(v.deep_view() =~= before.push(v@[v@.len() - 1]@));
    }
}

/// Build the lifecycle plan for one entity from its resolved configuration
/// and its shape, following the per-field construction table.
#[verifier::rlimit(100)]
pub fn build_plan(config: &AutoFieldConfig, shape: &EntityFields) -> (plan: LifecyclePlan)
    ensures
        plan.on_insert.deep_view() == spec_insert_actions(config@, *shape),
        plan.on_update.deep_view() == spec_update_actions(config@, *shape),
{
    let mut on_insert: Vec<LifecycleAction> = Vec::new();
    proof {
        assert(on_insert.deep_view() =~= Seq::<ActionModel>::empty());
    }
    if config.snowflake_id && shape.has_id {
        push_action(&mut on_insert, LifecycleAction::FillIfEmpty(FieldName::Id, ValueSource::Generator));
    }
    if config.timestamps && shape.has_create_time {
        push_action(
            &mut on_insert,
            LifecycleAction::FillIfEmpty(FieldName::CreateTime, ValueSource::CurrentTimestamp),
        );
    }
    if config.timestamps && shape.has_update_time {
        push_action(
            &mut on_insert,
            LifecycleAction::FillIfEmpty(FieldName::UpdateTime, ValueSource::CurrentTimestamp),
        );
    }
    if config.audit && shape.has_create_by {
        push_action(
            &mut on_insert,
            LifecycleAction::FillIfEmpty(FieldName::CreateBy, ValueSource::ActorName),
        );
    }
    if config.audit && shape.has_create_id {
        push_action(
            &mut on_insert,
            LifecycleAction::FillIfEmpty(FieldName::CreateId, ValueSource::ActorId),
        );
    }
    if config.tenant && shape.has_tenant_id {
        push_action(
            &mut on_insert,
            LifecycleAction::FillIfEmpty(FieldName::TenantId, ValueSource::TenantId),
        );
    }
    if config.tenant && shape.has_tenant_name {
        push_action(
            &mut on_insert,
            LifecycleAction::FillIfEmpty(FieldName::TenantName, ValueSource::TenantName),
        );
    }
    if config.version && shape.has_version {
        push_action(
            &mut on_insert,
            LifecycleAction::FillIfEmpty(FieldName::Version, ValueSource::ConstInt(1)),
        );
    }
    if config.soft_delete && shape.has_delete_flag {
        push_action(
            &mut on_insert,
            LifecycleAction::FillIfEmpty(FieldName::DeleteFlag, ValueSource::ConstInt(0)),
        );
    }
    if config.state && shape.has_state {
        let ds = match &config.default_state {
            Some(s) => s.clone(),
            None => "1".to_owned(),
        };
        push_action(
            &mut on_insert,
            LifecycleAction::FillIfEmpty(FieldName::State, ValueSource::ConstText(ds)),
        );
    }
    if config.state && shape.has_state_name {
        let dsn = match &config.default_state_name {
            Some(s) => s.clone(),
            None => "enabled".to_owned(),
        };
        push_action(
            &mut on_insert,
            LifecycleAction::FillIfEmpty(FieldName::StateName, ValueSource::ConstText(dsn)),
        );
    }
    let mut on_update: Vec<LifecycleAction> = Vec::new();
    proof {
        assert(on_update.deep_view() =~= Seq::<ActionModel>::empty());
    }
    if config.timestamps && shape.has_update_time {
        push_action(
            &mut on_update,
            LifecycleAction::AlwaysSet(FieldName::UpdateTime, ValueSource::CurrentTimestamp),
        );
    }
    if config.audit && shape.has_update_by {
        push_action(
            &mut on_update,
            LifecycleAction::AlwaysSet(FieldName::UpdateBy, ValueSource::ActorName),
        );
    }
    if config.audit && shape.has_update_id {
        push_action(
            &mut on_update,
            LifecycleAction::AlwaysSet(FieldName::UpdateId, ValueSource::ActorId),
        );
    }
    if config.version && shape.has_version {
        push_action(&mut on_update, LifecycleAction::Increment(FieldName::Version));
    }
    LifecyclePlan { on_insert, on_update }
}

/// Whether some action in a list operates on the given field.
pub open spec fn spec_has_action_on(s: Seq<ActionModel>, fld: FieldName) -> bool {
    exists|i: int| 0 <= i < s.len() && spec_action_field(#[trigger] s[i]) == fld
}

/// Whether every action in a list is a fill-if-empty action.
pub open spec fn spec_all_fill(s: Seq<ActionModel>) -> bool {
    forall|i: int| 0 <= i < s.len() ==> #[trigger] s[i] is FillIfEmpty
}

/// Whether no two actions in a list operate on the same field.
pub open spec fn spec_distinct_fields(s: Seq<ActionModel>) -> bool {
    forall|i: int, j: int|
        #![trigger s[i], s[j]]
        0 <= i < j < s.len() ==> spec_action_field(s[i]) != spec_action_field(s[j])
}

/// Whether every increment in a list operates on the given field.
pub open spec fn spec_increments_only(s: Seq<ActionModel>, fld: FieldName) -> bool {
    forall|i: int|
        0 <= i < s.len() && #[trigger] s[i] is Increment ==> spec_action_field(s[i]) == fld
}

/// How pushing one action changes the list properties the laws rest on.
proof fn lemma_push_props(s: Seq<ActionModel>, a: ActionModel)
    ensures
        forall|fld: FieldName|
            #[trigger] spec_has_action_on(s.push(a), fld) <==> (spec_has_action_on(s, fld)
                || spec_action_field(a) == fld),
        spec_all_fill(s) && a is FillIfEmpty ==> spec_all_fill(s.push(a)),
        spec_distinct_fields(s) && !spec_has_action_on(s, spec_action_field(a))
            ==> spec_distinct_fields(s.push(a)),
        forall|fld: FieldName|
            spec_increments_only(s, fld) && (a is Increment ==> spec_action_field(a) == fld)
                ==> #[trigger] spec_increments_only(s.push(a), fld),
{
    assert forall|fld: FieldName| #[trigger]
        spec_has_action_on(s.push(a), fld) implies (spec_has_action_on(s, fld)
        || spec_action_field(a) == fld) by {
        let i = choose|i: int|
            0 <= i < s.push(a).len() && spec_action_field(#[trigger] s.push(a)[i]) == fld;
        if i < s.len() {
            assert(s[i] == s.push(a)[i]);
            assert(spec_has_action_on(s, fld));
        }
    };
    assert forall|fld: FieldName| (spec_has_action_on(s, fld) || spec_action_field(a)
        == fld) implies #[trigger] spec_has_action_on(s.push(a), fld) by {
        if spec_has_action_on(s, fld) {
            let i = choose|i: int| 0 <= i < s.len() && spec_action_field(#[trigger] s[i]) == fld;
            assert(s.push(a)[i] == s[i]);
        } else {
            assert(s.push(a)[s.len() as int] == a);
        }
    };
    if spec_all_fill(s) && a is FillIfEmpty {
        assert forall|i: int| 0 <= i < s.push(a).len() implies #[trigger] s.push(a)[i]
            is FillIfEmpty by {
            if i < s.len() {
                assert(s.push(a)[i] == s[i]);
            } else {
                assert(s.push(a)[i] == a);
            }
        };
    }
    if spec_distinct_fields(s) && !spec_has_action_on(s, spec_action_field(a)) {
        assert forall|i: int, j: int|
            #![trigger s.push(a)[i], s.push(a)[j]]
            0 <= i < j < s.push(a).len() implies spec_action_field(s.push(a)[i])
            != spec_action_field(s.push(a)[j]) by {
            if j < s.len() {
                assert(s.push(a)[i] == s[i] && s.push(a)[j] == s[j]);
            } else {
                assert(s.push(a)[i] == s[i] && s.push(a)[j] == a);
                if spec_action_field(s[i]) == spec_action_field(a) {
                    assert(spec_has_action_on(s, spec_action_field(a)));
                }
            }
        };
    }
    assert forall|fld: FieldName|
        spec_increments_only(s, fld) && (a is Increment ==> spec_action_field(a)
            == fld) implies #[trigger] spec_increments_only(s.push(a), fld) by {
        assert forall|i: int| 0 <= i < s.push(a).len() && #[trigger] s.push(a)[i]
            is Increment implies spec_action_field(s.push(a)[i]) == fld by {
            if i < s.len() {
                assert(s.push(a)[i] == s[i]);
            } else {
                assert(s.push(a)[i] == a);
            }
        };
    };
}

/// Which fields the insert plan acts on: exactly those whose policy flag is
/// enabled and whose field the entity declares.
pub open spec fn spec_insert_enables(c: ConfigModel, f: EntityFields, fld: FieldName) -> bool {
    match fld {
        FieldName::Id => c.snowflake_id && f.has_id,
        FieldName::CreateTime => c.timestamps && f.has_create_time,
        FieldName::UpdateTime => c.timestamps && f.has_update_time,
        FieldName::CreateBy => c.audit && f.has_create_by,
        FieldName::CreateId => c.audit && f.has_create_id,
        FieldName::UpdateBy => false,
        FieldName::UpdateId => false,
        FieldName::TenantId => c.tenant && f.has_tenant_id,
        FieldName::TenantName => c.tenant && f.has_tenant_name,
        FieldName::Version => c.version && f.has_version,
        FieldName::DeleteFlag => c.soft_delete && f.has_delete_flag,
        FieldName::State => c.state && f.has_state,
        FieldName::StateName => c.state && f.has_state_name,
    }
}

/// Which fields the update plan acts on.
pub open spec fn spec_update_enables(c: ConfigModel, f: EntityFields, fld: FieldName) -> bool {
    match fld {
        FieldName::UpdateTime => c.timestamps && f.has_update_time,
        FieldName::UpdateBy => c.audit && f.has_update_by,
        FieldName::UpdateId => c.audit && f.has_update_id,
        FieldName::Version => c.version && f.has_version,
        _ => false,
    }
}

/// Which fields the first half of the insert plan acts on.
pub open spec fn spec_insert_front_enables(c: ConfigModel, f: EntityFields, fld: FieldName) -> bool {
    match fld {
        FieldName::Id => c.snowflake_id && f.has_id,
        FieldName::CreateTime => c.timestamps && f.has_create_time,
        FieldName::UpdateTime => c.timestamps && f.has_update_time,
        FieldName::CreateBy => c.audit && f.has_create_by,
        FieldName::CreateId => c.audit && f.has_create_id,
        FieldName::TenantId => c.tenant && f.has_tenant_id,
        _ => false,
    }
}

/// The first half of the insert plan acts on a field exactly when its policy
/// flag is enabled and the entity declares the field; all its actions are
/// fill-if-empty actions, and no two of them touch the same field.
#[verifier::rlimit(100)]
proof fn lemma_insert_front_characterized(c: ConfigModel, f: EntityFields)
    ensures
        spec_all_fill(spec_insert_front(c, f)),
        spec_distinct_fields(spec_insert_front(c, f)),
        forall|fld: FieldName|
            #[trigger] spec_has_action_on(spec_insert_front(c, f), fld)
                <==> spec_insert_front_enables(c, f, fld),
{
    let s0 = Seq::<ActionModel>::empty();
    let a1 = ActionModel::FillIfEmpty(FieldName::Id, SourceModel::Generator);
    let s1 = if c.snowflake_id && f.has_id {
        s0.push(a1)
    } else {
        s0
    };
    let a2 = ActionModel::FillIfEmpty(FieldName::CreateTime, SourceModel::CurrentTimestamp);
    let s2 = if c.timestamps && f.has_create_time {
        s1.push(a2)
    } else {
        s1
    };
    let a3 = ActionModel::FillIfEmpty(FieldName::UpdateTime, SourceModel::CurrentTimestamp);
    let s3 = if c.timestamps && f.has_update_time {
        s2.push(a3)
    } else {
        s2
    };
    let a4 = ActionModel::FillIfEmpty(FieldName::CreateBy, SourceModel::ActorName);
    let s4 = if c.audit && f.has_create_by {
        s3.push(a4)
    } else {
        s3
    };
    let a5 = ActionModel::FillIfEmpty(FieldName::CreateId, SourceModel::ActorId);
    let s5 = if c.audit && f.has_create_id {
        s4.push(a5)
    } else {
        s4
    };
    let a6 = ActionModel::FillIfEmpty(FieldName::TenantId, SourceModel::TenantId);
    let s6 = if c.tenant && f.has_tenant_id {
        s5.push(a6)
    } else {
        s5
    };
    assert(s6 == spec_insert_front(c, f));
    lemma_push_props(s0, a1);
    lemma_push_props(s1, a2);
    lemma_push_props(s2, a3);
    lemma_push_props(s3, a4);
    lemma_push_props(s4, a5);
    lemma_push_props(s5, a6);
    assert(forall|fld: FieldName| !spec_has_action_on(s0, fld));
    assert(forall|fld: FieldName|
        #[trigger] spec_has_action_on(s1, fld) <==> (c.snowflake_id && f.has_id && fld
            == FieldName::Id));
    assert(forall|fld: FieldName|
        #[trigger] spec_has_action_on(s2, fld) <==> (spec_has_action_on(s1, fld) || (c.timestamps
            && f.has_create_time && fld == FieldName::CreateTime)));
    assert(forall|fld: FieldName|
        #[trigger] spec_has_action_on(s3, fld) <==> (spec_has_action_on(s2, fld) || (c.timestamps
            && f.has_update_time && fld == FieldName::UpdateTime)));
    assert(forall|fld: FieldName|
        #[trigger] spec_has_action_on(s4, fld) <==> (spec_has_action_on(s3, fld) || (c.audit
            && f.has_create_by && fld == FieldName::CreateBy)));
    assert(forall|fld: FieldName|
        #[trigger] spec_has_action_on(s5, fld) <==> (spec_has_action_on(s4, fld) || (c.audit
            && f.has_create_id && fld == FieldName::CreateId)));
    assert(forall|fld: FieldName|
        #[trigger] spec_has_action_on(s6, fld) <==> (spec_has_action_on(s5, fld) || (c.tenant
            && f.has_tenant_id && fld == FieldName::TenantId)));
    assert(spec_all_fill(s6));
    assert(spec_distinct_fields(s6));
}

/// The insert plan acts on a field exactly when its policy flag is enabled
/// and the entity declares the field; all its actions are fill-if-empty
/// actions, and no two of them touch the same field.
#[verifier::rlimit(100)]
pub proof fn lemma_insert_actions_characterized(c: ConfigModel, f: EntityFields)
    ensures
        spec_all_fill(spec_insert_actions(c, f)),
        spec_distinct_fields(spec_insert_actions(c, f)),
        forall|fld: FieldName|
            #[trigger] spec_has_action_on(spec_insert_actions(c, f), fld) <==> spec_insert_enables(
                c,
                f,
                fld,
            ),
{
    lemma_insert_front_characterized(c, f);
    let s6 = spec_insert_front(c, f);
    let a7 = ActionModel::FillIfEmpty(FieldName::TenantName, SourceModel::TenantName);
    let s7 = if c.tenant && f.has_tenant_name {
        s6.push(a7)
    } else {
        s6
    };
    let a8 = ActionModel::FillIfEmpty(FieldName::Version, SourceModel::ConstInt(1));
    let s8 = if c.version && f.has_version {
        s7.push(a8)
    } else {
        s7
    };
    let a9 = ActionModel::FillIfEmpty(FieldName::DeleteFlag, SourceModel::ConstInt(0));
    let s9 = if c.soft_delete && f.has_delete_flag {
        s8.push(a9)
    } else {
        s8
    };
    let a10 = ActionModel::FillIfEmpty(FieldName::State, SourceModel::ConstText(spec_state_default(c)));
    let s10 = if c.state && f.has_state {
        s9.push(a10)
    } else {
        s9
    };
    let a11 = ActionModel::FillIfEmpty(
        FieldName::StateName,
        SourceModel::ConstText(spec_state_name_default(c)),
    );
    let s11 = if c.state && f.has_state_name {
        s10.push(a11)
    } else {
        s10
    };
    assert(s11 == spec_insert_actions(c, f));
    lemma_push_props(s6, a7);
    lemma_push_props(s7, a8);
    lemma_push_props(s8, a9);
    lemma_push_props(s9, a10);
    lemma_push_props(s10, a11);
    assert(forall|fld: FieldName|
        #[trigger] spec_has_action_on(s7, fld) <==> (spec_insert_front_enables(c, f, fld) || (
        c.tenant && f.has_tenant_name && fld == FieldName::TenantName)));
    assert(forall|fld: FieldName|
        #[trigger] spec_has_action_on(s8, fld) <==> (spec_has_action_on(s7, fld) || (c.version
            && f.has_version && fld == FieldName::Version)));
    assert(forall|fld: FieldName|
        #[trigger] spec_has_action_on(s9, fld) <==> (spec_has_action_on(s8, fld) || (c.soft_delete
            && f.has_delete_flag && fld == FieldName::DeleteFlag)));
    assert(forall|fld: FieldName|
        #[trigger] spec_has_action_on(s10, fld) <==> (spec_has_action_on(s9, fld) || (c.state
            && f.has_state && fld == FieldName::State)));
    assert(forall|fld: FieldName|
        #[trigger] spec_has_action_on(s11, fld) <==> (spec_has_action_on(s10, fld) || (c.state
            && f.has_state_name && fld == FieldName::StateName)));
    assert(spec_all_fill(s11));
    assert(spec_distinct_fields(s11));
    assert(forall|fld: FieldName|
        #[trigger] spec_has_action_on(s11, fld) <==> spec_insert_enables(c, f, fld));
}

/// The update plan acts on a field exactly when its policy flag is enabled
/// and the entity declares the field; no two of its actions touch the same
/// field, and its only increment is the version counter's.
pub proof fn lemma_update_actions_characterized(c: ConfigModel, f: EntityFields)
    ensures
        spec_distinct_fields(spec_update_actions(c, f)),
        spec_increments_only(spec_update_actions(c, f), FieldName::Version),
        forall|fld: FieldName|
            #[trigger] spec_has_action_on(spec_update_actions(c, f), fld) <==> spec_update_enables(
                c,
                f,
                fld,
            ),
{
    let u0 = Seq::<ActionModel>::empty();
    let b1 = ActionModel::AlwaysSet(FieldName::UpdateTime, SourceModel::CurrentTimestamp);
    let u1 = if c.timestamps && f.has_update_time {
        u0.push(b1)
    } else {
        u0
    };
    let b2 = ActionModel::AlwaysSet(FieldName::UpdateBy, SourceModel::ActorName);
    let u2 = if c.audit && f.has_update_by {
        u1.push(b2)
    } else {
        u1
    };
    let b3 = ActionModel::AlwaysSet(FieldName::UpdateId, SourceModel::ActorId);
    let u3 = if c.audit && f.has_update_id {
        u2.push(b3)
    } else {
        u2
    };
    let b4 = ActionModel::Increment(FieldName::Version);
    let u4 = if c.version && f.has_version {
        u3.push(b4)
    } else {
        u3
    };
    assert(u4 == spec_update_actions(c, f));
    lemma_push_props(u0, b1);
    lemma_push_props(u1, b2);
    lemma_push_props(u2, b3);
    lemma_push_props(u3, b4);
    assert(forall|fld: FieldName| !spec_has_action_on(u0, fld));
    assert(forall|fld: FieldName|
        #[trigger] spec_has_action_on(u1, fld) <==> (c.timestamps && f.has_update_time && fld
            == FieldName::UpdateTime));
    assert(forall|fld: FieldName|
        #[trigger] spec_has_action_on(u2, fld) <==> (spec_has_action_on(u1, fld) || (c.audit
            && f.has_update_by && fld == FieldName::UpdateBy)));
    assert(forall|fld: FieldName|
        #[trigger] spec_has_action_on(u3, fld) <==> (spec_has_action_on(u2, fld) || (c.audit
            && f.has_update_id && fld == FieldName::UpdateId)));
    assert(forall|fld: FieldName|
        #[trigger] spec_has_action_on(u4, fld) <==> (spec_has_action_on(u3, fld) || (c.version
            && f.has_version && fld == FieldName::Version)));
    assert(spec_distinct_fields(u4));
    assert(spec_increments_only(u4, FieldName::Version));
    assert(forall|fld: FieldName|
        #[trigger] spec_has_action_on(u4, fld) <==> spec_update_enables(c, f, fld));
}

/// An identifier action appears in the insert plan exactly when the
/// identifier family is enabled and the entity declares the identifier
/// field: the flag alone is insufficient, and so is the field alone. The
/// update plan never touches the identifier.
pub proof fn lemma_identifier_action_iff(c: ConfigModel, f: EntityFields)
    ensures
        spec_has_action_on(spec_insert_actions(c, f), FieldName::Id) <==> (c.snowflake_id
            && f.has_id),
        !spec_has_action_on(spec_update_actions(c, f), FieldName::Id),
{
    lemma_insert_actions_characterized(c, f);
    lemma_update_actions_characterized(c, f);
}

} // verus!
