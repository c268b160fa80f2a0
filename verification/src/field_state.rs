//! The pending value of one entity field, and the field-fill state machine
//! that decides whether an automatic value may overwrite what is already
//! there.

use vstd::prelude::*;

verus! {

/// The payload a field can carry: an integer column (timestamps as epoch
/// milliseconds, version counters, the delete flag) or a text column
/// (identifiers, names, state labels).
#[derive(Debug, Clone, PartialEq, Eq)]
pub enum FieldValue {
    IntVal(i64),
    TextVal(String),
}

/// Mathematical model of a `FieldValue`: text is abstracted to its
/// character sequence.
pub enum ValueModel {
    Int(i64),
    Text(Seq<char>),
}

impl View for FieldValue {
    type V = ValueModel;

    open spec fn view(&self) -> ValueModel {
        match self {
            FieldValue::IntVal(n) => ValueModel::Int(*n),
            FieldValue::TextVal(s) => ValueModel::Text(s@),
        }
    }
}

impl DeepView for FieldValue {
    type V = ValueModel;

    open spec fn deep_view(&self) -> ValueModel {
        self.view()
    }
}

/// The runtime state of a single field's pending value.
///
/// `Unset` means the caller never touched the field; `SetToAbsent` and
/// `SetToPresent` record an explicit assignment of "no value" or a value;
/// the two `Unchanged` states carry the value loaded from the store, which
/// the caller has not modified.
#[derive(Debug, Clone, PartialEq, Eq)]
pub enum FieldState {
    Unset,
    SetToAbsent,
    SetToPresent(FieldValue),
    UnchangedAbsent,
    UnchangedPresent(FieldValue),
}

/// Mathematical model of a `FieldState`.
pub enum FieldStateModel {
    Unset,
    SetToAbsent,
    SetToPresent(ValueModel),
    UnchangedAbsent,
    UnchangedPresent(ValueModel),
}

impl View for FieldState {
    type V = FieldStateModel;

    open spec fn view(&self) -> FieldStateModel {
        match self {
            FieldState::Unset => FieldStateModel::Unset,
            FieldState::SetToAbsent => FieldStateModel::SetToAbsent,
            FieldState::SetToPresent(v) => FieldStateModel::SetToPresent(v@),
            FieldState::UnchangedAbsent => FieldStateModel::UnchangedAbsent,
            FieldState::UnchangedPresent(v) => FieldStateModel::UnchangedPresent(v@),
        }
    }
}

impl DeepView for FieldState {
    type V = FieldStateModel;

    open spec fn deep_view(&self) -> FieldStateModel {
        self.view()
    }
}

/// Whether a fill-if-empty action may write an optional field: fill exactly
/// when the field is logically empty, whether it was never touched,
/// explicitly cleared, or loaded as empty. A value the caller provided, or
/// one already stored, is never overwritten.
pub open spec fn spec_should_fill(s: FieldStateModel) -> bool {
    match s {
        FieldStateModel::Unset => true,
        FieldStateModel::SetToAbsent => true,
        FieldStateModel::SetToPresent(_) => false,
        FieldStateModel::UnchangedAbsent => true,
        FieldStateModel::UnchangedPresent(_) => false,
    }
}

/// The simplified variant for non-optional fields: fill only when the field
/// was never touched at all.
pub open spec fn spec_should_fill_required(s: FieldStateModel) -> bool {
    s is Unset
}

/// The field-fill decision for optional fields, case by case over the five
/// states.
pub fn should_fill(s: &FieldState) -> (fill: bool)
    ensures
        fill == spec_should_fill(s@),
{
    match s {
        FieldState::Unset => true,
        FieldState::SetToAbsent => true,
        FieldState::SetToPresent(_) => false,
        FieldState::UnchangedAbsent => true,
        FieldState::UnchangedPresent(_) => false,
    }
}

/// The field-fill decision for non-optional fields.
pub fn should_fill_required(s: &FieldState) -> (fill: bool)
    ensures
        fill == spec_should_fill_required(s@),
{
    match s {
        FieldState::Unset => true,
        _ => false,
    }
}

} // verus!
