//! The query filter builder: named predicate builders derived from a
//! configuration and an entity shape. An operation whose governing flag or
//! field is missing degrades to a match-everything predicate instead of
//! failing.

use vstd::prelude::*;
use crate::config::{AutoFieldConfig, ConfigModel};
use crate::field_state::{FieldValue, ValueModel};
use crate::plan::FieldName;
use crate::shape::EntityFields;

verus! {

/// A predicate over stored rows, as data: match everything, compare one
/// well-known field against a value, or require two predicates at once.
#[derive(Debug, PartialEq, Eq)]
pub enum Filter {
    MatchAll,
    FieldEq(FieldName, FieldValue),
    FieldNe(FieldName, FieldValue),
    And(Box<Filter>, Box<Filter>),
}

/// Mathematical model of a `Filter`.
pub enum FilterModel {
    MatchAll,
    FieldEq(FieldName, ValueModel),
    FieldNe(FieldName, ValueModel),
    And(Box<FilterModel>, Box<FilterModel>),
}

/// The model a filter denotes.
pub open spec fn spec_filter_model(flt: Filter) -> FilterModel
    decreases flt,
{
    match flt {
        Filter::MatchAll => FilterModel::MatchAll,
        Filter::FieldEq(f, v) => FilterModel::FieldEq(f, v@),
        Filter::FieldNe(f, v) => FilterModel::FieldNe(f, v@),
        Filter::And(a, b) => FilterModel::And(
            Box::new(spec_filter_model(*a)),
            Box::new(spec_filter_model(*b)),
        ),
    }
}

impl View for Filter {
    type V = FilterModel;

    open spec fn view(&self) -> FilterModel {
        spec_filter_model(*self)
    }
}

/// One stored row, as the filters see it: the value each well-known field
/// holds, or nothing where the column is empty.
#[derive(Debug, Clone, PartialEq, Eq)]
pub struct Row {
    pub id: Option<FieldValue>,
    pub create_time: Option<FieldValue>,
    pub update_time: Option<FieldValue>,
    pub create_by: Option<FieldValue>,
    pub create_id: Option<FieldValue>,
    pub update_by: Option<FieldValue>,
    pub update_id: Option<FieldValue>,
    pub tenant_id: Option<FieldValue>,
    pub tenant_name: Option<FieldValue>,
    pub version: Option<FieldValue>,
    pub delete_flag: Option<FieldValue>,
    pub state: Option<FieldValue>,
    pub state_name: Option<FieldValue>,
}

/// Mathematical model of a `Row`.
pub struct RowModel {
    pub id: Option<ValueModel>,
    pub create_time: Option<ValueModel>,
    pub update_time: Option<ValueModel>,
    pub create_by: Option<ValueModel>,
    pub create_id: Option<ValueModel>,
    pub update_by: Option<ValueModel>,
    pub update_id: Option<ValueModel>,
    pub tenant_id: Option<ValueModel>,
    pub tenant_name: Option<ValueModel>,
    pub version: Option<ValueModel>,
    pub delete_flag: Option<ValueModel>,
    pub state: Option<ValueModel>,
    pub state_name: Option<ValueModel>,
}

impl View for Row {
    type V = RowModel;

    open spec fn view(&self) -> RowModel {
        RowModel {
            id: self.id.deep_view(),
            create_time: self.create_time.deep_view(),
            update_time: self.update_time.deep_view(),
            create_by: self.create_by.deep_view(),
            create_id: self.create_id.deep_view(),
            update_by: self.update_by.deep_view(),
            update_id: self.update_id.deep_view(),
            tenant_id: self.tenant_id.deep_view(),
            tenant_name: self.tenant_name.deep_view(),
            version: self.version.deep_view(),
            delete_flag: self.delete_flag.deep_view(),
            state: self.state.deep_view(),
            state_name: self.state_name.deep_view(),
        }
    }
}

impl RowModel {
    /// The value one named column holds.
    pub open spec fn spec_get(self, f: FieldName) -> Option<ValueModel> {
        match f {
            FieldName::Id => self.id,
            FieldName::CreateTime => self.create_time,
            FieldName::UpdateTime => self.update_time,
            FieldName::CreateBy => self.create_by,
            FieldName::CreateId => self.create_id,
            FieldName::UpdateBy => self.update_by,
            FieldName::UpdateId => self.update_id,
            FieldName::TenantId => self.tenant_id,
            FieldName::TenantName => self.tenant_name,
            FieldName::Version => self.version,
            FieldName::DeleteFlag => self.delete_flag,
            FieldName::State => self.state,
            FieldName::StateName => self.state_name,
        }
    }
}

/// Whether a row satisfies a filter.
pub open spec fn spec_eval(flt: FilterModel, row: RowModel) -> bool
    decreases flt,
{
    match flt {
        FilterModel::MatchAll => true,
        FilterModel::FieldEq(f, v) => row.spec_get(f) == Some(v),
        FilterModel::FieldNe(f, v) => row.spec_get(f) != Some(v),
        FilterModel::And(a, b) => spec_eval(*a, row) && spec_eval(*b, row),
    }
}

impl Row {
    /// Borrow the value one named column holds.
    pub fn get_field(&self, f: FieldName) -> (v: &Option<FieldValue>)
        ensures
            v.deep_view() == self@.spec_get(f),
    {
        match f {
            FieldName::Id => &self.id,
            FieldName::CreateTime => &self.create_time,
            FieldName::UpdateTime => &self.update_time,
            FieldName::CreateBy => &self.create_by,
            FieldName::CreateId => &self.create_id,
            FieldName::UpdateBy => &self.update_by,
            FieldName::UpdateId => &self.update_id,
            FieldName::TenantId => &self.tenant_id,
            FieldName::TenantName => &self.tenant_name,
            FieldName::Version => &self.version,
            FieldName::DeleteFlag => &self.delete_flag,
            FieldName::State => &self.state,
            FieldName::StateName => &self.state_name,
        }
    }

    /// An entirely empty row.
    pub fn empty() -> (row: Row)
        ensures
            forall|f: FieldName| row@.spec_get(f) is None,
    {
        Row {
            id: None,
            create_time: None,
            update_time: None,
            create_by: None,
            create_id: None,
            update_by: None,
            update_id: None,
            tenant_id: None,
            tenant_name: None,
            version: None,
            delete_flag: None,
            state: None,
            state_name: None,
        }
    }
}

/// Whether two field values are the same value.
fn value_eq(a: &FieldValue, b: &FieldValue) -> (r: bool)
    ensures
        r == (a@ == b@),
{
    match (a, b) {
        (FieldValue::IntVal(x), FieldValue::IntVal(y)) => x == y,
        (FieldValue::TextVal(x), FieldValue::TextVal(y)) => *x == *y,
        _ => false,
    }
}

/// Evaluate a filter against one row.
pub fn eval_filter(flt: &Filter, row: &Row) -> (r: bool)
    ensures
        r == spec_eval(flt@, row@),
    decreases flt,
{
    match flt {
        Filter::MatchAll => true,
        Filter::FieldEq(f, v) => match row.get_field(*f) {
            Some(w) => value_eq(v, w),
            None => false,
        },
        Filter::FieldNe(f, v) => match row.get_field(*f) {
            Some(w) => !value_eq(v, w),
            None => true,
        },
        Filter::And(a, b) => {
            let left = eval_filter(a, row);
            let right = eval_filter(b, row);
            left && right
        },
    }
}

/// The policy point of the filter builders: whether a supported tenant or
/// creator filter also requires the row not to be soft-deleted. The default
/// conjoins the condition whenever soft delete is enabled.
#[derive(Debug, Clone, Copy, PartialEq, Eq, Structural)]
pub struct FilterOptions {
    pub conjunct_not_deleted: bool,
}

impl Default for FilterOptions {
    fn default() -> (opts: FilterOptions)
        ensures
            opts.conjunct_not_deleted,
    {
        FilterOptions { conjunct_not_deleted: true }
    }
}

/// The not-deleted condition: the delete flag is not the deleted value.
pub open spec fn spec_not_deleted_condition() -> FilterModel {
    FilterModel::FieldNe(FieldName::DeleteFlag, ValueModel::Int(1))
}

/// A supported scoped filter, with the not-deleted condition conjoined when
/// soft delete is enabled and the options ask for it.
pub open spec fn spec_scoped(
    c: ConfigModel,
    f: EntityFields,
    opts: FilterOptions,
    base: FilterModel,
) -> FilterModel {
    if opts.conjunct_not_deleted && c.soft_delete && f.has_delete_flag {
        FilterModel::And(Box::new(base), Box::new(spec_not_deleted_condition()))
    } else {
        base
    }
}

/// What `find_not_deleted` builds.
pub open spec fn spec_find_not_deleted(c: ConfigModel, f: EntityFields) -> FilterModel {
    if c.soft_delete && f.has_delete_flag {
        spec_not_deleted_condition()
    } else {
        FilterModel::MatchAll
    }
}

/// The predicate excluding soft-deleted rows: the delete flag must not hold
/// the deleted value. Without soft-delete support it matches everything
/// rather than failing.
pub fn find_not_deleted(config: &AutoFieldConfig, shape: &EntityFields) -> (flt: Filter)
    ensures
        flt@ == spec_find_not_deleted(config@, *shape),
{
    if config.soft_delete && shape.has_delete_flag {
        Filter::FieldNe(FieldName::DeleteFlag, FieldValue::IntVal(1))
    } else {
        Filter::MatchAll
    }
}

/// What a field-equality finder builds: the scoped comparison when its flag
/// and field are both present, and match-everything otherwise.
pub open spec fn spec_find_by(
    c: ConfigModel,
    f: EntityFields,
    opts: FilterOptions,
    enabled: bool,
    fld: FieldName,
    v: Seq<char>,
) -> FilterModel {
    if enabled {
        spec_scoped(c, f, opts, FilterModel::FieldEq(fld, ValueModel::Text(v)))
    } else {
        FilterModel::MatchAll
    }
}

/// Build one scoped field-equality filter.
fn scoped_eq(
    config: &AutoFieldConfig,
    shape: &EntityFields,
    opts: &FilterOptions,
    fld: FieldName,
    value: &str,
) -> (flt: Filter)
    ensures
        flt@ == spec_scoped(
            config@,
            *shape,
            *opts,
            FilterModel::FieldEq(fld, ValueModel::Text(value@)),
        ),
{
    let base = Filter::FieldEq(fld, FieldValue::TextVal(value.to_owned()));
    proof {
        assert(base@ == FilterModel::FieldEq(fld, ValueModel::Text(value@)));
    }
    if opts.conjunct_not_deleted && config.soft_delete && shape.has_delete_flag {
        let ghost bm = base@;
        let flt = Filter::And(
            Box::new(base),
            Box::new(Filter::FieldNe(FieldName::DeleteFlag, FieldValue::IntVal(1))),
        );
        proof {
            reveal_with_fuel(spec_filter_model, 3);
            assert(flt@ == FilterModel::And(Box::new(bm), Box::new(spec_not_deleted_condition())));
        }
        flt
    } else {
        base
    }
}

/// Rows of one tenant, by tenant identifier; unfiltered when tenant support
/// or the column is missing.
pub fn find_by_tenant_id(
    config: &AutoFieldConfig,
    shape: &EntityFields,
    opts: &FilterOptions,
    tenant_id: &str,
) -> (flt: Filter)
    ensures
        flt@ == spec_find_by(
            config@,
            *shape,
            *opts,
            config.tenant && shape.has_tenant_id,
            FieldName::TenantId,
            tenant_id@,
        ),
{
    if config.tenant && shape.has_tenant_id {
        scoped_eq(config, shape, opts, FieldName::TenantId, tenant_id)
    } else {
        Filter::MatchAll
    }
}

/// Rows of one tenant, by tenant display name; unfiltered when unsupported.
pub fn find_by_tenant_name(
    config: &AutoFieldConfig,
    shape: &EntityFields,
    opts: &FilterOptions,
    tenant_name: &str,
) -> (flt: Filter)
    ensures
        flt@ == spec_find_by(
            config@,
            *shape,
            *opts,
            config.tenant && shape.has_tenant_name,
            FieldName::TenantName,
            tenant_name@,
        ),
{
    if config.tenant && shape.has_tenant_name {
        scoped_eq(config, shape, opts, FieldName::TenantName, tenant_name)
    } else {
        Filter::MatchAll
    }
}

/// Rows created by one actor, by actor identifier; unfiltered when auditing
/// or the column is missing.
pub fn find_by_creator_id(
    config: &AutoFieldConfig,
    shape: &EntityFields,
    opts: &FilterOptions,
    user_id: &str,
) -> (flt: Filter)
    ensures
        flt@ == spec_find_by(
            config@,
            *shape,
            *opts,
            config.audit && shape.has_create_id,
            FieldName::CreateId,
            user_id@,
        ),
{
    if config.audit && shape.has_create_id {
        scoped_eq(config, shape, opts, FieldName::CreateId, user_id)
    } else {
        Filter::MatchAll
    }
}

/// Rows created by one actor, by actor display name; unfiltered when
/// unsupported.
pub fn find_by_creator_name(
    config: &AutoFieldConfig,
    shape: &EntityFields,
    opts: &FilterOptions,
    user_name: &str,
) -> (flt: Filter)
    ensures
        flt@ == spec_find_by(
            config@,
            *shape,
            *opts,
            config.audit && shape.has_create_by,
            FieldName::CreateBy,
            user_name@,
        ),
{
    if config.audit && shape.has_create_by {
        scoped_eq(config, shape, opts, FieldName::CreateBy, user_name)
    } else {
        Filter::MatchAll
    }
}

/// What the not-deleted predicate means row by row: everything matches when
/// soft delete is off, and exactly the rows whose delete flag is not the
/// deleted value match when it is on.
pub proof fn lemma_find_not_deleted_semantics(c: ConfigModel, f: EntityFields, row: RowModel)
    ensures
        !(c.soft_delete && f.has_delete_flag) ==> spec_eval(spec_find_not_deleted(c, f), row),
        (c.soft_delete && f.has_delete_flag) ==> (spec_eval(spec_find_not_deleted(c, f), row)
            <==> row.delete_flag != Some(ValueModel::Int(1))),
{
}

} // verus!
