//! The soft-delete operator: marking a record deleted through the normal
//! update path, and the fail-fast sequencing of a batch of deletions. The
//! external store performs the load and the write; the decisions stand here.

use vstd::prelude::*;
use crate::config::AutoFieldConfig;
use crate::field_state::{FieldState, FieldStateModel, FieldValue, ValueModel};
use crate::plan::{FieldName, spec_update_actions};
use crate::record::{
    ActiveRecord, AmbientContext, AmbientModel, GeneratorModel, RecordModel, on_update,
    spec_increment_ok, spec_run_actions,
};
use crate::shape::EntityFields;

verus! {

/// An error the external record store reported; the library passes it
/// through verbatim.
#[derive(Debug, Clone, PartialEq, Eq)]
pub struct StoreError {
    pub message: String,
}

impl View for StoreError {
    type V = Seq<char>;

    open spec fn view(&self) -> Seq<char> {
        self.message@
    }
}

/// Why a soft-delete call failed: the entity does not support soft deletion
/// at all, or the store refused an operation.
#[derive(Debug, Clone, PartialEq, Eq)]
pub enum SoftDeleteError {
    UnsupportedOperation,
    Store(StoreError),
}

/// Mathematical model of a `SoftDeleteError`.
pub enum SoftDeleteErrorModel {
    UnsupportedOperation,
    Store(Seq<char>),
}

impl View for SoftDeleteError {
    type V = SoftDeleteErrorModel;

    open spec fn view(&self) -> SoftDeleteErrorModel {
        match self {
            SoftDeleteError::UnsupportedOperation => SoftDeleteErrorModel::UnsupportedOperation,
            SoftDeleteError::Store(e) => SoftDeleteErrorModel::Store(e@),
        }
    }
}

/// Whether soft deletion is available: the policy enables it and the entity
/// declares the delete flag.
pub fn soft_delete_supported(config: &AutoFieldConfig, shape: &EntityFields) -> (b: bool)
    ensures
        b == (config.soft_delete && shape.has_delete_flag),
{
    config.soft_delete && shape.has_delete_flag
}

/// The record a soft deletion writes back: the loaded record with its delete
/// flag set to the deleted value, run through the normal update plan, so
/// timestamp, updater and version effects fire exactly as for any other
/// update.
pub open spec fn spec_soft_deleted(
    c: crate::config::ConfigModel,
    f: EntityFields,
    rm: RecordModel,
    ctx: AmbientModel,
    now: i64,
) -> RecordModel {
    spec_run_actions(
        rm.spec_set(FieldName::DeleteFlag, FieldStateModel::SetToPresent(ValueModel::Int(1))),
        spec_update_actions(c, f),
        ctx,
        now,
        GeneratorModel::GenerationFailed,
    )
}

/// Decide one soft deletion, given what the store found for the identifier:
/// an unsupported entity fails explicitly, a missing record succeeds as a
/// no-op with nothing to write, and a found record yields the updated record
/// the store must write back.
pub fn soft_delete_apply(
    config: &AutoFieldConfig,
    shape: &EntityFields,
    found: Option<ActiveRecord>,
    ctx: &AmbientContext,
    now: i64,
) -> (r: Result<Option<ActiveRecord>, SoftDeleteError>)
    requires
        match found {
            Some(rec) => config.version && shape.has_version ==> spec_increment_ok(rec@.version),
            None => true,
        },
    ensures
        ({
            let supported = config.soft_delete && shape.has_delete_flag;
            match r {
                Err(e) => !supported && e@ == SoftDeleteErrorModel::UnsupportedOperation,
                Ok(None) => supported && found is None,
                Ok(Some(out)) => supported && match found {
                    Some(rec) => out@ == spec_soft_deleted(config@, *shape, rec@, ctx@, now),
                    None => false,
                },
            }
        }),
{
    if !(config.soft_delete && shape.has_delete_flag) {
        return Err(SoftDeleteError::UnsupportedOperation);
    }
    match found {
        None => Ok(None),
        Some(mut rec) => {
            rec.set_field(FieldName::DeleteFlag, FieldState::SetToPresent(FieldValue::IntVal(1)));
            on_update(config, shape, &mut rec, ctx, now);
            Ok(Some(rec))
        },
    }
}

/// What a batch driver does after one deletion: go on to the next
/// identifier, stop because all are done, or halt at the failed one.
#[derive(Debug, PartialEq, Eq)]
pub enum BatchStep {
    Proceed(usize),
    Completed,
    Halted(usize, StoreError),
}

/// Decide how a batch of independent soft deletions continues after the
/// deletion at one position: a success moves to the next identifier or
/// completes the batch, and a failure halts it at once, reporting the
/// position that failed with the store's error verbatim. Later identifiers
/// are never attempted after a failure.
pub fn soft_delete_many_step(count: usize, idx: usize, outcome: Result<(), StoreError>) -> (step:
    BatchStep)
    requires
        idx < count,
    ensures
        match outcome {
            Ok(()) => if idx + 1 == count {
                step is Completed
            } else {
                step matches BatchStep::Proceed(j) && j == idx + 1
            },
            Err(e) => step matches BatchStep::Halted(j, e2) && j == idx && e2@ == e@,
        },
{
    match outcome {
        Ok(()) => {
            if idx + 1 == count {
                BatchStep::Completed
            } else {
                BatchStep::Proceed(idx + 1)
            }
        },
        Err(e) => BatchStep::Halted(idx, e),
    }
}

} // verus!
