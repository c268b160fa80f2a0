//! The call timestamp: lifecycle runs that take the current moment from the
//! host clock instead of a caller-supplied value.

use vstd::prelude::*;
use crate::config::AutoFieldConfig;
use crate::plan::{spec_insert_actions, spec_update_actions};
use crate::record::{
    ActiveRecord, AmbientContext, GeneratorModel, GeneratorOutcome, on_insert, on_update,
    spec_increment_ok, spec_run_actions,
};
use crate::shape::EntityFields;

verus! {

/// Relies on chrono::Utc::now for the current moment, reported as
/// milliseconds since the Unix epoch. The result depends on the system
/// clock alone (which chrono expects not to stand before the epoch), so
/// nothing is promised of the value.
#[verifier::external_body]
fn current_millis() -> i64 {
    chrono::Utc::now().timestamp_millis()
}

/// Run the insert-time plan with the clock's current moment as the
/// timestamp: the record ends exactly as the plan prescribes for some
/// timestamp.
pub fn on_insert_now(
    config: &AutoFieldConfig,
    shape: &EntityFields,
    rec: &mut ActiveRecord,
    ctx: &AmbientContext,
    gen: &GeneratorOutcome,
)
    ensures
        exists|now: i64|
            final(rec)@ == #[trigger] spec_run_actions(
                old(rec)@,
                spec_insert_actions(config@, *shape),
                ctx@,
                now,
                gen@,
            ),
{
    let now = current_millis();
    on_insert(config, shape, rec, ctx, now, gen);
}

/// Run the update-time plan with the clock's current moment as the
/// timestamp.
pub fn on_update_now(
    config: &AutoFieldConfig,
    shape: &EntityFields,
    rec: &mut ActiveRecord,
    ctx: &AmbientContext,
)
    requires
        config.version && shape.has_version ==> spec_increment_ok(old(rec)@.version),
    ensures
        exists|now: i64|
            final(rec)@ == #[trigger] spec_run_actions(
                old(rec)@,
                spec_update_actions(config@, *shape),
                ctx@,
                now,
                GeneratorModel::GenerationFailed,
            ),
{
    let now = current_millis();
    on_update(config, shape, rec, ctx, now);
}

} // verus!
