//! Executing a lifecycle plan against one in-memory record: the pending
//! field states of an entity, the ambient per-call context, and the action
//! interpreter.

use vstd::prelude::*;
use crate::config::{AutoFieldConfig, ConfigModel};
use crate::field_state::{
    FieldState, FieldStateModel, FieldValue, ValueModel, should_fill, should_fill_required,
    spec_should_fill, spec_should_fill_required,
};
use crate::plan::{
    ActionModel, FieldName, LifecycleAction, SourceModel, ValueSource, build_plan,
    lemma_insert_actions_characterized, lemma_update_actions_characterized, spec_action_field,
    spec_all_fill, spec_distinct_fields, spec_has_action_on,
    spec_insert_actions, spec_update_actions,
};
use crate::shape::EntityFields;

verus! {

/// The read-only per-operation context the host environment supplies: the
/// acting user and tenant, any of which may be absent.
#[derive(Debug, Clone, PartialEq, Eq)]
pub struct AmbientContext {
    pub user_name: Option<String>,
    pub user_id: Option<String>,
    pub tenant_id: Option<String>,
    pub tenant_name: Option<String>,
}

/// Mathematical model of an `AmbientContext`.
pub struct AmbientModel {
    pub user_name: Option<Seq<char>>,
    pub user_id: Option<Seq<char>>,
    pub tenant_id: Option<Seq<char>>,
    pub tenant_name: Option<Seq<char>>,
}

impl View for AmbientContext {
    type V = AmbientModel;

    open spec fn view(&self) -> AmbientModel {
        AmbientModel {
            user_name: self.user_name.deep_view(),
            user_id: self.user_id.deep_view(),
            tenant_id: self.tenant_id.deep_view(),
            tenant_name: self.tenant_name.deep_view(),
        }
    }
}

impl AmbientContext {
    /// The all-absent context, used when no actor or tenant is established.
    pub fn empty() -> (ctx: AmbientContext)
        ensures
            ctx@ == (AmbientModel {
                user_name: None,
                user_id: None,
                tenant_id: None,
                tenant_name: None,
            }),
    {
        AmbientContext { user_name: None, user_id: None, tenant_id: None, tenant_name: None }
    }
}

/// What the external identifier generator produced for this insert: a fresh
/// identifier, or any failure, which degrades to leaving the identifier
/// field unfilled.
#[derive(Debug, Clone, PartialEq, Eq)]
pub enum GeneratorOutcome {
    Generated(String),
    GenerationFailed,
}

/// Mathematical model of a `GeneratorOutcome`.
pub enum GeneratorModel {
    Generated(Seq<char>),
    GenerationFailed,
}

impl View for GeneratorOutcome {
    type V = GeneratorModel;

    open spec fn view(&self) -> GeneratorModel {
        match self {
            GeneratorOutcome::Generated(s) => GeneratorModel::Generated(s@),
            GeneratorOutcome::GenerationFailed => GeneratorModel::GenerationFailed,
        }
    }
}

/// The pending field states of one entity instance, one per well-known
/// field. Fields the entity does not declare simply stay `Unset`; the plan
/// builder never emits an action for them.
#[derive(Debug, Clone, PartialEq, Eq)]
pub struct ActiveRecord {
    pub id: FieldState,
    pub create_time: FieldState,
    pub update_time: FieldState,
    pub create_by: FieldState,
    pub create_id: FieldState,
    pub update_by: FieldState,
    pub update_id: FieldState,
    pub tenant_id: FieldState,
    pub tenant_name: FieldState,
    pub version: FieldState,
    pub delete_flag: FieldState,
    pub state: FieldState,
    pub state_name: FieldState,
}

/// Mathematical model of an `ActiveRecord`.
pub struct RecordModel {
    pub id: FieldStateModel,
    pub create_time: FieldStateModel,
    pub update_time: FieldStateModel,
    pub create_by: FieldStateModel,
    pub create_id: FieldStateModel,
    pub update_by: FieldStateModel,
    pub update_id: FieldStateModel,
    pub tenant_id: FieldStateModel,
    pub tenant_name: FieldStateModel,
    pub version: FieldStateModel,
    pub delete_flag: FieldStateModel,
    pub state: FieldStateModel,
    pub state_name: FieldStateModel,
}

impl View for ActiveRecord {
    type V = RecordModel;

    open spec fn view(&self) -> RecordModel {
        RecordModel {
            id: self.id@,
            create_time: self.create_time@,
            update_time: self.update_time@,
            create_by: self.create_by@,
            create_id: self.create_id@,
            update_by: self.update_by@,
            update_id: self.update_id@,
            tenant_id: self.tenant_id@,
            tenant_name: self.tenant_name@,
            version: self.version@,
            delete_flag: self.delete_flag@,
            state: self.state@,
            state_name: self.state_name@,
        }
    }
}

impl RecordModel {
    /// The state of one named field.
    pub open spec fn spec_get(self, f: FieldName) -> FieldStateModel {
        match f {
            FieldName::Id => self.id,
            FieldName::CreateTime => self.create_time,
            FieldName::UpdateTime => self.update_time,
            FieldName::CreateBy => self.create_by,
            FieldName::CreateId => self.create_id,
            FieldName::UpdateBy => self.update_by,
            FieldName::UpdateId => self.update_id,
            FieldName::TenantId => self.tenant_id,
            FieldName::TenantName => self.tenant_name,
            FieldName::Version => self.version,
            FieldName::DeleteFlag => self.delete_flag,
            FieldName::State => self.state,
            FieldName::StateName => self.state_name,
        }
    }

    /// The record with one named field replaced.
    pub open spec fn spec_set(self, f: FieldName, v: FieldStateModel) -> RecordModel {
        match f {
            FieldName::Id => RecordModel { id: v, ..self },
            FieldName::CreateTime => RecordModel { create_time: v, ..self },
            FieldName::UpdateTime => RecordModel { update_time: v, ..self },
            FieldName::CreateBy => RecordModel { create_by: v, ..self },
            FieldName::CreateId => RecordModel { create_id: v, ..self },
            FieldName::UpdateBy => RecordModel { update_by: v, ..self },
            FieldName::UpdateId => RecordModel { update_id: v, ..self },
            FieldName::TenantId => RecordModel { tenant_id: v, ..self },
            FieldName::TenantName => RecordModel { tenant_name: v, ..self },
            FieldName::Version => RecordModel { version: v, ..self },
            FieldName::DeleteFlag => RecordModel { delete_flag: v, ..self },
            FieldName::State => RecordModel { state: v, ..self },
            FieldName::StateName => RecordModel { state_name: v, ..self },
        }
    }
}

/// The identifier is the entity's primary key and is declared without an
/// optional wrapper, so its fill decision uses the simplified two-state
/// variant; every other well-known field is optional.
pub open spec fn spec_field_required(f: FieldName) -> bool {
    f is Id
}

/// The value an action source yields for this call, or nothing: an absent or
/// empty ambient value and a failed generation are skipped silently.
pub open spec fn spec_resolve_source(
    src: SourceModel,
    ctx: AmbientModel,
    now: i64,
    gen: GeneratorModel,
) -> Option<ValueModel> {
    match src {
        SourceModel::ConstInt(n) => Some(ValueModel::Int(n)),
        SourceModel::ConstText(t) => Some(ValueModel::Text(t)),
        SourceModel::ActorName => match ctx.user_name {
            Some(s) => if s.len() > 0 {
                Some(ValueModel::Text(s))
            } else {
                None
            },
            None => None,
        },
        SourceModel::ActorId => match ctx.user_id {
            Some(s) => if s.len() > 0 {
                Some(ValueModel::Text(s))
            } else {
                None
            },
            None => None,
        },
        SourceModel::TenantId => match ctx.tenant_id {
            Some(s) => if s.len() > 0 {
                Some(ValueModel::Text(s))
            } else {
                None
            },
            None => None,
        },
        SourceModel::TenantName => match ctx.tenant_name {
            Some(s) => if s.len() > 0 {
                Some(ValueModel::Text(s))
            } else {
                None
            },
            None => None,
        },
        SourceModel::CurrentTimestamp => Some(ValueModel::Int(now)),
        SourceModel::Generator => match gen {
            GeneratorModel::Generated(s) => Some(ValueModel::Text(s)),
            GeneratorModel::GenerationFailed => None,
        },
    }
}

/// The incremented version state: one more than the last known value,
/// whether the caller set it or left it unchanged, and one when no numeric
/// value is pending at all.
pub open spec fn spec_increment_value(s: FieldStateModel) -> FieldStateModel {
    match s {
        FieldStateModel::SetToPresent(ValueModel::Int(n)) => FieldStateModel::SetToPresent(
            ValueModel::Int((n + 1) as i64),
        ),
        FieldStateModel::UnchangedPresent(ValueModel::Int(n)) => FieldStateModel::SetToPresent(
            ValueModel::Int((n + 1) as i64),
        ),
        _ => FieldStateModel::SetToPresent(ValueModel::Int(1)),
    }
}

/// Whether an increment of this field state stays within the machine range.
pub open spec fn spec_increment_ok(s: FieldStateModel) -> bool {
    match s {
        FieldStateModel::SetToPresent(ValueModel::Int(n)) => n < i64::MAX,
        FieldStateModel::UnchangedPresent(ValueModel::Int(n)) => n < i64::MAX,
        _ => true,
    }
}

/// The record after one action: a fill-if-empty action writes its field only
/// when the field-fill state machine allows it and the source yields a
/// value; an always-set action writes whenever the source yields a value;
/// an increment bumps the version counter from its last known value.
pub open spec fn spec_apply_action(
    r: RecordModel,
    a: ActionModel,
    ctx: AmbientModel,
    now: i64,
    gen: GeneratorModel,
) -> RecordModel {
    match a {
        ActionModel::FillIfEmpty(f, src) => {
            let fill = if spec_field_required(f) {
                spec_should_fill_required(r.spec_get(f))
            } else {
                spec_should_fill(r.spec_get(f))
            };
            if fill {
                match spec_resolve_source(src, ctx, now, gen) {
                    Some(v) => r.spec_set(f, FieldStateModel::SetToPresent(v)),
                    None => r,
                }
            } else {
                r
            }
        },
        ActionModel::AlwaysSet(f, src) => match spec_resolve_source(src, ctx, now, gen) {
            Some(v) => r.spec_set(f, FieldStateModel::SetToPresent(v)),
            None => r,
        },
        ActionModel::Increment(f) => r.spec_set(f, spec_increment_value(r.spec_get(f))),
    }
}

/// The record after a whole action list, applied in order.
pub open spec fn spec_run_actions(
    r: RecordModel,
    s: Seq<ActionModel>,
    ctx: AmbientModel,
    now: i64,
    gen: GeneratorModel,
) -> RecordModel
    decreases s.len(),
{
    if s.len() == 0 {
        r
    } else {
        spec_run_actions(spec_apply_action(r, s[0], ctx, now, gen), s.drop_first(), ctx, now, gen)
    }
}

/// Whether every increment in the list, applied in order, stays within the
/// machine range.
pub open spec fn spec_actions_arith_ok(
    r: RecordModel,
    s: Seq<ActionModel>,
    ctx: AmbientModel,
    now: i64,
    gen: GeneratorModel,
) -> bool
    decreases s.len(),
{
    if s.len() == 0 {
        true
    } else {
        &&& (s[0] is Increment ==> spec_increment_ok(r.spec_get(spec_action_field(s[0]))))
        &&& spec_actions_arith_ok(
            spec_apply_action(r, s[0], ctx, now, gen),
            s.drop_first(),
            ctx,
            now,
            gen,
        )
    }
}

impl ActiveRecord {
    /// A record the caller has not touched at all.
    pub fn unset() -> (r: ActiveRecord)
        ensures
            r@ == spec_unset_record(),
    {
        ActiveRecord {
            id: FieldState::Unset,
            create_time: FieldState::Unset,
            update_time: FieldState::Unset,
            create_by: FieldState::Unset,
            create_id: FieldState::Unset,
            update_by: FieldState::Unset,
            update_id: FieldState::Unset,
            tenant_id: FieldState::Unset,
            tenant_name: FieldState::Unset,
            version: FieldState::Unset,
            delete_flag: FieldState::Unset,
            state: FieldState::Unset,
            state_name: FieldState::Unset,
        }
    }

    /// Borrow the state of one named field.
    pub fn get_field(&self, f: FieldName) -> (s: &FieldState)
        ensures
            s@ == self@.spec_get(f),
    {
        match f {
            FieldName::Id => &self.id,
            FieldName::CreateTime => &self.create_time,
            FieldName::UpdateTime => &self.update_time,
            FieldName::CreateBy => &self.create_by,
            FieldName::CreateId => &self.create_id,
            FieldName::UpdateBy => &self.update_by,
            FieldName::UpdateId => &self.update_id,
            FieldName::TenantId => &self.tenant_id,
            FieldName::TenantName => &self.tenant_name,
            FieldName::Version => &self.version,
            FieldName::DeleteFlag => &self.delete_flag,
            FieldName::State => &self.state,
            FieldName::StateName => &self.state_name,
        }
    }

    /// Replace the state of one named field.
    pub fn set_field(&mut self, f: FieldName, v: FieldState)
        ensures
            final(self)@ == old(self)@.spec_set(f, v@),
    {
        match f {
            FieldName::Id => {
                self.id = v;
            },
            FieldName::CreateTime => {
                self.create_time = v;
            },
            FieldName::UpdateTime => {
                self.update_time = v;
            },
            FieldName::CreateBy => {
                self.create_by = v;
            },
            FieldName::CreateId => {
                self.create_id = v;
            },
            FieldName::UpdateBy => {
                self.update_by = v;
            },
            FieldName::UpdateId => {
                self.update_id = v;
            },
            FieldName::TenantId => {
                self.tenant_id = v;
            },
            FieldName::TenantName => {
                self.tenant_name = v;
            },
            FieldName::Version => {
                self.version = v;
            },
            FieldName::DeleteFlag => {
                self.delete_flag = v;
            },
            FieldName::State => {
                self.state = v;
            },
            FieldName::StateName => {
                self.state_name = v;
            },
        }
    }
}

/// The all-unset record.
pub open spec fn spec_unset_record() -> RecordModel {
    RecordModel {
        id: FieldStateModel::Unset,
        create_time: FieldStateModel::Unset,
        update_time: FieldStateModel::Unset,
        create_by: FieldStateModel::Unset,
        create_id: FieldStateModel::Unset,
        update_by: FieldStateModel::Unset,
        update_id: FieldStateModel::Unset,
        tenant_id: FieldStateModel::Unset,
        tenant_name: FieldStateModel::Unset,
        version: FieldStateModel::Unset,
        delete_flag: FieldStateModel::Unset,
        state: FieldStateModel::Unset,
        state_name: FieldStateModel::Unset,
    }
}

/// Whether the simplified or the five-state fill decision governs this
/// field.
fn field_required(f: FieldName) -> (b: bool)
    ensures
        b == spec_field_required(f),
{
    match f {
        FieldName::Id => true,
        _ => false,
    }
}

/// Resolve an action source against the ambient context, the call's
/// timestamp, and the generator outcome.
fn resolve_source(
    src: &ValueSource,
    ctx: &AmbientContext,
    now: i64,
    gen: &GeneratorOutcome,
) -> (r: Option<FieldValue>)
    ensures
        r.deep_view() == spec_resolve_source(src@, ctx@, now, gen@),
{
    match src {
        ValueSource::ConstInt(n) => Some(FieldValue::IntVal(*n)),
        ValueSource::ConstText(t) => Some(FieldValue::TextVal(t.clone())),
        ValueSource::ActorName => match &ctx.user_name {
            Some(s) => if !s.as_str().is_empty() {
                Some(FieldValue::TextVal(s.clone()))
            } else {
                None
            },
            None => None,
        },
        ValueSource::ActorId => match &ctx.user_id {
            Some(s) => if !s.as_str().is_empty() {
                Some(FieldValue::TextVal(s.clone()))
            } else {
                None
            },
            None => None,
        },
        ValueSource::TenantId => match &ctx.tenant_id {
            Some(s) => if !s.as_str().is_empty() {
                Some(FieldValue::TextVal(s.clone()))
            } else {
                None
            },
            None => None,
        },
        ValueSource::TenantName => match &ctx.tenant_name {
            Some(s) => if !s.as_str().is_empty() {
                Some(FieldValue::TextVal(s.clone()))
            } else {
                None
            },
            None => None,
        },
        ValueSource::CurrentTimestamp => Some(FieldValue::IntVal(now)),
        ValueSource::Generator => match gen {
            GeneratorOutcome::Generated(s) => Some(FieldValue::TextVal(s.clone())),
            GeneratorOutcome::GenerationFailed => None,
        },
    }
}

/// Apply one lifecycle action to a record.
pub fn apply_action(
    rec: &mut ActiveRecord,
    action: &LifecycleAction,
    ctx: &AmbientContext,
    now: i64,
    gen: &GeneratorOutcome,
)
    requires
        action@ is Increment ==> spec_increment_ok(
            old(rec)@.spec_get(spec_action_field(action@)),
        ),
    ensures
        final(rec)@ == spec_apply_action(old(rec)@, action@, ctx@, now, gen@),
{
    match action {
        LifecycleAction::FillIfEmpty(f, src) => {
            let fill = if field_required(*f) {
                should_fill_required(rec.get_field(*f))
            } else {
                should_fill(rec.get_field(*f))
            };
            if fill {
                match resolve_source(src, ctx, now, gen) {
                    Some(v) => {
                        rec.set_field(*f, FieldState::SetToPresent(v));
                    },
                    None => {},
                }
            }
        },
        LifecycleAction::AlwaysSet(f, src) => {
            match resolve_source(src, ctx, now, gen) {
                Some(v) => {
                    rec.set_field(*f, FieldState::SetToPresent(v));
                },
                None => {},
            }
        },
        LifecycleAction::Increment(f) => {
            let bumped = match rec.get_field(*f) {
                FieldState::SetToPresent(FieldValue::IntVal(n)) => FieldState::SetToPresent(
                    FieldValue::IntVal(*n + 1),
                ),
                FieldState::UnchangedPresent(FieldValue::IntVal(n)) => FieldState::SetToPresent(
                    FieldValue::IntVal(*n + 1),
                ),
                _ => FieldState::SetToPresent(FieldValue::IntVal(1)),
            };
            rec.set_field(*f, bumped);
        },
    }
}

/// Run an action list against a record, in order.
#[verifier::loop_isolation(false)]
pub fn run_actions(
    rec: &mut ActiveRecord,
    actions: &Vec<LifecycleAction>,
    ctx: &AmbientContext,
    now: i64,
    gen: &GeneratorOutcome,
)
    requires
        spec_actions_arith_ok(old(rec)@, actions.deep_view(), ctx@, now, gen@),
    ensures
        final(rec)@ == spec_run_actions(old(rec)@, actions.deep_view(), ctx@, now, gen@),
{
    let ghost am = actions.deep_view();
    proof {
        assert(am.skip(0) =~= am);
    }
    let mut i: usize = 0;
    while i < actions.len()
        invariant
            i <= actions.len(),
            am.len() == actions.len(),
            spec_run_actions(old(rec)@, am, ctx@, now, gen@) == spec_run_actions(
                rec@,
                am.skip(i as int),
                ctx@,
                now,
                gen@,
            ),
            spec_actions_arith_ok(rec@, am.skip(i as int), ctx@, now, gen@),
        decreases actions.len() - i,
    {
        proof {
            assert(am.skip(i as int)[0] == am[i as int]);
            assert(am.skip(i as int).drop_first() =~= am.skip(i as int + 1));
            assert(am[i as int] == actions@[i as int]@);
        }
        apply_action(rec, &actions[i], ctx, now, gen);
        i += 1;
    }
    proof {
        assert(am.skip(actions.len() as int) =~= Seq::<ActionModel>::empty());
    }
}

/// An action leaves every field other than its own untouched.
proof fn lemma_apply_preserves(
    r: RecordModel,
    a: ActionModel,
    ctx: AmbientModel,
    now: i64,
    gen: GeneratorModel,
    g: FieldName,
)
    requires
        spec_action_field(a) != g,
    ensures
        spec_apply_action(r, a, ctx, now, gen).spec_get(g) == r.spec_get(g),
{
}

/// A whole action list leaves a field untouched when none of its actions
/// operates on it.
proof fn lemma_run_preserves_untouched(
    r: RecordModel,
    s: Seq<ActionModel>,
    ctx: AmbientModel,
    now: i64,
    gen: GeneratorModel,
    g: FieldName,
)
    requires
        forall|i: int| 0 <= i < s.len() ==> spec_action_field(#[trigger] s[i]) != g,
    ensures
        spec_run_actions(r, s, ctx, now, gen).spec_get(g) == r.spec_get(g),
    decreases s.len(),
{
    if s.len() > 0 {
        let t = s.drop_first();
        assert(forall|i: int| 0 <= i < t.len() ==> #[trigger] t[i] == s[i + 1]);
        lemma_apply_preserves(r, s[0], ctx, now, gen, g);
        lemma_run_preserves_untouched(
            spec_apply_action(r, s[0], ctx, now, gen),
            t,
            ctx,
            now,
            gen,
            g,
        );
    }
}

/// When no two actions share a field and every increment starts within the
/// machine range, the whole list is arithmetically safe.
proof fn lemma_arith_ok_from_distinct(
    r: RecordModel,
    s: Seq<ActionModel>,
    ctx: AmbientModel,
    now: i64,
    gen: GeneratorModel,
)
    requires
        spec_distinct_fields(s),
        forall|i: int|
            0 <= i < s.len() && #[trigger] s[i] is Increment ==> spec_increment_ok(
                r.spec_get(spec_action_field(s[i])),
            ),
    ensures
        spec_actions_arith_ok(r, s, ctx, now, gen),
    decreases s.len(),
{
    if s.len() > 0 {
        let a = s[0];
        let t = s.drop_first();
        let r1 = spec_apply_action(r, a, ctx, now, gen);
        assert(forall|i: int| 0 <= i < t.len() ==> #[trigger] t[i] == s[i + 1]);
        assert forall|i: int|
            0 <= i < t.len() && #[trigger] t[i] is Increment implies spec_increment_ok(
            r1.spec_get(spec_action_field(t[i])),
        ) by {
            assert(t[i] == s[i + 1]);
            assert(spec_action_field(s[0]) != spec_action_field(s[i + 1]));
            lemma_apply_preserves(r, a, ctx, now, gen, spec_action_field(t[i]));
        };
        lemma_arith_ok_from_distinct(r1, t, ctx, now, gen);
    }
}

/// Running a list with one more action at its end is running the list and
/// then that action.
proof fn lemma_run_snoc(
    r: RecordModel,
    s: Seq<ActionModel>,
    a: ActionModel,
    ctx: AmbientModel,
    now: i64,
    gen: GeneratorModel,
)
    ensures
        spec_run_actions(r, s.push(a), ctx, now, gen) == spec_apply_action(
            spec_run_actions(r, s, ctx, now, gen),
            a,
            ctx,
            now,
            gen,
        ),
    decreases s.len(),
{
    reveal_with_fuel(spec_run_actions, 3);
    if s.len() == 0 {
        assert(s.push(a)[0] == a);
        assert(s.push(a).drop_first() =~= Seq::<ActionModel>::empty());
    } else {
        assert(s.push(a)[0] == s[0]);
        assert(s.push(a).drop_first() =~= s.drop_first().push(a));
        lemma_run_snoc(
            spec_apply_action(r, s[0], ctx, now, gen),
            s.drop_first(),
            a,
            ctx,
            now,
            gen,
        );
    }
}

/// Running a list of fill-if-empty actions on pairwise-distinct fields a
/// second time changes nothing: each field either was filled (and a filled
/// field is never refilled) or its source yields nothing again.
proof fn lemma_fill_idempotent(
    r: RecordModel,
    s: Seq<ActionModel>,
    ctx: AmbientModel,
    now: i64,
    gen: GeneratorModel,
)
    requires
        spec_all_fill(s),
        spec_distinct_fields(s),
    ensures
        spec_run_actions(spec_run_actions(r, s, ctx, now, gen), s, ctx, now, gen)
            == spec_run_actions(r, s, ctx, now, gen),
    decreases s.len(),
{
    if s.len() > 0 {
        let a = s[0];
        let t = s.drop_first();
        assert(forall|i: int| 0 <= i < t.len() ==> #[trigger] t[i] == s[i + 1]);
        let fld = spec_action_field(a);
        assert(forall|i: int| 0 <= i < t.len() ==> spec_action_field(#[trigger] t[i]) != fld);
        let r1 = spec_apply_action(r, a, ctx, now, gen);
        let r2 = spec_run_actions(r1, t, ctx, now, gen);
        assert(spec_run_actions(r, s, ctx, now, gen) == r2);
        lemma_run_preserves_untouched(r1, t, ctx, now, gen, fld);
        assert(r2.spec_get(fld) == r1.spec_get(fld));
        assert(spec_apply_action(r2, a, ctx, now, gen) == r2);
        lemma_fill_idempotent(r1, t, ctx, now, gen);
        assert(spec_run_actions(r2, s, ctx, now, gen) == spec_run_actions(
            spec_apply_action(r2, a, ctx, now, gen),
            t,
            ctx,
            now,
            gen,
        ));
    }
}

/// Insert plans are always arithmetically safe: they contain no increment.
pub proof fn lemma_insert_arith_ok(
    c: ConfigModel,
    f: EntityFields,
    r: RecordModel,
    ctx: AmbientModel,
    now: i64,
    gen: GeneratorModel,
)
    ensures
        spec_actions_arith_ok(r, spec_insert_actions(c, f), ctx, now, gen),
{
    lemma_insert_actions_characterized(c, f);
    lemma_arith_ok_from_distinct(r, spec_insert_actions(c, f), ctx, now, gen);
}

/// An update plan is arithmetically safe whenever the version counter, if it
/// is managed at all, starts below the machine maximum.
pub proof fn lemma_update_arith_ok(
    c: ConfigModel,
    f: EntityFields,
    r: RecordModel,
    ctx: AmbientModel,
    now: i64,
    gen: GeneratorModel,
)
    requires
        c.version && f.has_version ==> spec_increment_ok(r.version),
    ensures
        spec_actions_arith_ok(r, spec_update_actions(c, f), ctx, now, gen),
{
    lemma_update_actions_characterized(c, f);
    let u = spec_update_actions(c, f);
    assert forall|i: int|
        0 <= i < u.len() && #[trigger] u[i] is Increment implies spec_increment_ok(
        r.spec_get(spec_action_field(u[i])),
    ) by {
        assert(spec_action_field(u[i]) == FieldName::Version);
        assert(spec_has_action_on(u, FieldName::Version));
        assert(c.version && f.has_version);
    };
    lemma_arith_ok_from_distinct(r, u, ctx, now, gen);
}

/// Idempotence of the insert plan: running it twice on the same record with
/// the same context, timestamp and generator outcome leaves exactly the
/// record one run produces, with no accumulation.
pub proof fn lemma_on_insert_idempotent(
    c: ConfigModel,
    f: EntityFields,
    r: RecordModel,
    ctx: AmbientModel,
    now: i64,
    gen: GeneratorModel,
)
    ensures
        ({
            let once = spec_run_actions(r, spec_insert_actions(c, f), ctx, now, gen);
            spec_run_actions(once, spec_insert_actions(c, f), ctx, now, gen) == once
        }),
{
    lemma_insert_actions_characterized(c, f);
    lemma_fill_idempotent(r, spec_insert_actions(c, f), ctx, now, gen);
}

/// The update plan increments the version counter from its last known
/// value: one more than a pending or unchanged present value, and one when
/// nothing is known, however the caller left the field.
pub proof fn lemma_update_version_increment(
    c: ConfigModel,
    f: EntityFields,
    r: RecordModel,
    ctx: AmbientModel,
    now: i64,
    gen: GeneratorModel,
)
    requires
        c.version && f.has_version,
    ensures
        spec_run_actions(r, spec_update_actions(c, f), ctx, now, gen).version
            == spec_increment_value(r.version),
{
    let u0 = Seq::<ActionModel>::empty();
    let b1 = ActionModel::AlwaysSet(FieldName::UpdateTime, SourceModel::CurrentTimestamp);
    let u1 = if c.timestamps && f.has_update_time {
        u0.push(b1)
    } else {
        u0
    };
    let b2 = ActionModel::AlwaysSet(FieldName::UpdateBy, SourceModel::ActorName);
    let u2 = if c.audit && f.has_update_by {
        u1.push(b2)
    } else {
        u1
    };
    let b3 = ActionModel::AlwaysSet(FieldName::UpdateId, SourceModel::ActorId);
    let u3 = if c.audit && f.has_update_id {
        u2.push(b3)
    } else {
        u2
    };
    let b4 = ActionModel::Increment(FieldName::Version);
    assert(u3.push(b4) == spec_update_actions(c, f));
    assert(forall|i: int|
        0 <= i < u3.len() ==> spec_action_field(#[trigger] u3[i]) != FieldName::Version);
    lemma_run_snoc(r, u3, b4, ctx, now, gen);
    lemma_run_preserves_untouched(r, u3, ctx, now, gen, FieldName::Version);
}

/// Run the insert-time plan for an entity: build the action list from the
/// configuration and shape and apply it. Insert plans contain no increment,
/// so no arithmetic condition is asked of the caller.
pub fn on_insert(
    config: &AutoFieldConfig,
    shape: &EntityFields,
    rec: &mut ActiveRecord,
    ctx: &AmbientContext,
    now: i64,
    gen: &GeneratorOutcome,
)
    ensures
        final(rec)@ == spec_run_actions(
            old(rec)@,
            spec_insert_actions(config@, *shape),
            ctx@,
            now,
            gen@,
        ),
{
    proof {
        lemma_insert_arith_ok(config@, *shape, rec@, ctx@, now, gen@);
    }
    let plan = build_plan(config, shape);
    run_actions(rec, &plan.on_insert, ctx, now, gen);
}

/// Run the update-time plan for an entity. The update path consults no
/// generator, so the failed outcome stands in for it in the model.
pub fn on_update(
    config: &AutoFieldConfig,
    shape: &EntityFields,
    rec: &mut ActiveRecord,
    ctx: &AmbientContext,
    now: i64,
)
    requires
        config.version && shape.has_version ==> spec_increment_ok(old(rec)@.version),
    ensures
        final(rec)@ == spec_run_actions(
            old(rec)@,
            spec_update_actions(config@, *shape),
            ctx@,
            now,
            GeneratorModel::GenerationFailed,
        ),
{
    proof {
        lemma_update_arith_ok(
            config@,
            *shape,
            rec@,
            ctx@,
            now,
            GeneratorModel::GenerationFailed,
        );
    }
    let plan = build_plan(config, shape);
    run_actions(rec, &plan.on_update, ctx, now, &GeneratorOutcome::GenerationFailed);
}

} // verus!
