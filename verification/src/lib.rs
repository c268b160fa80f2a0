//! A declarative entity-lifecycle rule engine.
//!
//! Given a validated feature-flag policy for an entity and the set of
//! well-known fields the entity actually declares, the library computes a
//! deterministic plan of lifecycle actions to run before inserts and updates,
//! a set of reusable query-filter predicates, and a soft-delete workflow.
//! Persistence itself is left to an external record store; everything here is
//! the resolution and planning logic, stated and proved over mathematical
//! models of the data.

pub mod clock;
pub mod config;
pub mod field_state;
pub mod filter;
pub mod plan;
pub mod record;
pub mod shape;
pub mod soft_delete;

use vstd::prelude::*;
use crate::config::{
    AutoFieldConfig, ConfigError, ConfigErrorModel, ConfigModel, Declaration,
    spec_from_attributes, spec_validate,
};
use crate::plan::{LifecyclePlan, build_plan, spec_insert_actions, spec_update_actions};
use crate::shape::{EntityFields, spec_from_fields};

verus! {

/// Everything the engine derives for one entity: its validated
/// configuration, its shape, and its lifecycle plan.
#[derive(Debug, Clone, PartialEq, Eq)]
pub struct AutoFieldBundle {
    pub config: AutoFieldConfig,
    pub fields: EntityFields,
    pub plan: LifecyclePlan,
}

/// Resolve an entity's declarations, validate the configuration, analyze the
/// entity's declared field names, and build its lifecycle plan. Any
/// resolution or validation error is surfaced here, before any entity
/// instance is ever processed.
pub fn derive_auto_field(attrs: &Vec<Declaration>, field_names: &Vec<String>) -> (r: Result<
    AutoFieldBundle,
    ConfigError,
>)
    ensures
        match r {
            Ok(b) => {
                &&& spec_from_attributes(attrs.deep_view()) == Ok::<ConfigModel, ConfigErrorModel>(
                    b.config@,
                )
                &&& spec_validate(b.config@) == Ok::<(), ConfigErrorModel>(())
                &&& b.fields == spec_from_fields(field_names.deep_view())
                &&& b.plan.on_insert.deep_view() == spec_insert_actions(b.config@, b.fields)
                &&& b.plan.on_update.deep_view() == spec_update_actions(b.config@, b.fields)
            },
            Err(e) => match spec_from_attributes(attrs.deep_view()) {
                Ok(c) => spec_validate(c) == Err::<(), ConfigErrorModel>(e@),
                Err(pe) => pe == e@,
            },
        },
{
    let config = match AutoFieldConfig::from_attributes(attrs) {
        Ok(c) => c,
        Err(e) => {
            return Err(e);
        },
    };
    match config.validate() {
        Ok(()) => {},
        Err(e) => {
            return Err(e);
        },
    }
    let fields = EntityFields::from_fields(field_names);
    let plan = build_plan(&config, &fields);
    Ok(AutoFieldBundle { config, fields, plan })
}

} // verus!
