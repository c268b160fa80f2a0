//! The configuration resolver: turning a feature-flag declaration attached
//! to an entity definition into a validated `AutoFieldConfig`, or a
//! resolution error.

use vstd::prelude::*;
use crate::shape::str_eq;

verus! {

/// A value given for a configuration key.
#[derive(Debug, Clone, PartialEq, Eq)]
pub enum FlagValue {
    Bool(bool),
    Text(String),
}

/// Mathematical model of a `FlagValue`.
pub enum FlagValueModel {
    Bool(bool),
    Text(Seq<char>),
}

impl View for FlagValue {
    type V = FlagValueModel;

    open spec fn view(&self) -> FlagValueModel {
        match self {
            FlagValue::Bool(b) => FlagValueModel::Bool(*b),
            FlagValue::Text(s) => FlagValueModel::Text(s@),
        }
    }
}

impl DeepView for FlagValue {
    type V = FlagValueModel;

    open spec fn deep_view(&self) -> FlagValueModel {
        self.view()
    }
}

/// One entry of a declaration list: a bare flag name (which means "set it to
/// true") or an explicit `key = value` pair.
#[derive(Debug, Clone, PartialEq, Eq)]
pub enum DeclItem {
    Flag(String),
    KeyValue(String, FlagValue),
}

/// Mathematical model of a `DeclItem`.
pub enum DeclItemModel {
    Flag(Seq<char>),
    KeyValue(Seq<char>, FlagValueModel),
}

impl View for DeclItem {
    type V = DeclItemModel;

    open spec fn view(&self) -> DeclItemModel {
        match self {
            DeclItem::Flag(k) => DeclItemModel::Flag(k@),
            DeclItem::KeyValue(k, v) => DeclItemModel::KeyValue(k@, v@),
        }
    }
}

impl DeepView for DeclItem {
    type V = DeclItemModel;

    open spec fn deep_view(&self) -> DeclItemModel {
        self.view()
    }
}

/// One declaration attached to an entity definition: either the bare marker,
/// meaning "use the canonical defaults", or a list of entries.
#[derive(Debug, Clone, PartialEq, Eq)]
pub enum Declaration {
    Bare,
    Items(Vec<DeclItem>),
}

/// Mathematical model of a `Declaration`.
pub enum DeclarationModel {
    Bare,
    Items(Seq<DeclItemModel>),
}

impl View for Declaration {
    type V = DeclarationModel;

    open spec fn view(&self) -> DeclarationModel {
        match self {
            Declaration::Bare => DeclarationModel::Bare,
            Declaration::Items(items) => DeclarationModel::Items(items.deep_view()),
        }
    }
}

impl DeepView for Declaration {
    type V = DeclarationModel;

    open spec fn deep_view(&self) -> DeclarationModel {
        self.view()
    }
}

/// The kind of value a configuration key expects.
#[derive(Debug, Clone, Copy, PartialEq, Eq, Structural)]
pub enum ValueKind {
    Boolean,
    Text,
}

/// A configuration resolution error. All of these are detected while the
/// declaration is resolved, before any entity instance is processed, and all
/// are fatal to building the plan for that entity.
#[derive(Debug, Clone, PartialEq, Eq)]
pub enum ConfigError {
    UnknownKey(String),
    TypeMismatch(String, ValueKind),
    MalformedDeclaration,
    InvalidCombination(String),
    MissingDefault(String),
}

/// Mathematical model of a `ConfigError`.
pub enum ConfigErrorModel {
    UnknownKey(Seq<char>),
    TypeMismatch(Seq<char>, ValueKind),
    MalformedDeclaration,
    InvalidCombination(Seq<char>),
    MissingDefault(Seq<char>),
}

impl View for ConfigError {
    type V = ConfigErrorModel;

    open spec fn view(&self) -> ConfigErrorModel {
        match self {
            ConfigError::UnknownKey(k) => ConfigErrorModel::UnknownKey(k@),
            ConfigError::TypeMismatch(k, kind) => ConfigErrorModel::TypeMismatch(k@, *kind),
            ConfigError::MalformedDeclaration => ConfigErrorModel::MalformedDeclaration,
            ConfigError::InvalidCombination(m) => ConfigErrorModel::InvalidCombination(m@),
            ConfigError::MissingDefault(k) => ConfigErrorModel::MissingDefault(k@),
        }
    }
}

impl DeepView for ConfigError {
    type V = ConfigErrorModel;

    open spec fn deep_view(&self) -> ConfigErrorModel {
        self.view()
    }
}

/// The resolved, validated configuration for one entity: which automatic
/// field families are enabled, and the default literals for the state
/// fields. Created once at definition-resolution time; immutable thereafter.
#[derive(Debug, Clone, PartialEq, Eq)]
pub struct AutoFieldConfig {
    pub snowflake_id: bool,
    pub timestamps: bool,
    pub audit: bool,
    pub tenant: bool,
    pub version: bool,
    pub soft_delete: bool,
    pub state: bool,
    pub default_state: Option<String>,
    pub default_state_name: Option<String>,
}

/// Mathematical model of an `AutoFieldConfig`.
pub struct ConfigModel {
    pub snowflake_id: bool,
    pub timestamps: bool,
    pub audit: bool,
    pub tenant: bool,
    pub version: bool,
    pub soft_delete: bool,
    pub state: bool,
    pub default_state: Option<Seq<char>>,
    pub default_state_name: Option<Seq<char>>,
}

impl View for AutoFieldConfig {
    type V = ConfigModel;

    open spec fn view(&self) -> ConfigModel {
        ConfigModel {
            snowflake_id: self.snowflake_id,
            timestamps: self.timestamps,
            audit: self.audit,
            tenant: self.tenant,
            version: self.version,
            soft_delete: self.soft_delete,
            state: self.state,
            default_state: self.default_state.deep_view(),
            default_state_name: self.default_state_name.deep_view(),
        }
    }
}

impl DeepView for AutoFieldConfig {
    type V = ConfigModel;

    open spec fn deep_view(&self) -> ConfigModel {
        self.view()
    }
}

/// The configuration every resolution starts from: everything disabled.
pub open spec fn spec_default_config() -> ConfigModel {
    ConfigModel {
        snowflake_id: false,
        timestamps: false,
        audit: false,
        tenant: false,
        version: false,
        soft_delete: false,
        state: false,
        default_state: None,
        default_state_name: None,
    }
}

/// What the bare marker expands to: the fixed canonical default.
pub open spec fn spec_canonical_config() -> ConfigModel {
    ConfigModel {
        snowflake_id: true,
        timestamps: true,
        audit: true,
        tenant: false,
        version: true,
        soft_delete: true,
        state: true,
        default_state: Some("1"@),
        default_state_name: Some("enabled"@),
    }
}

/// The effect of one declaration entry on a partially resolved
/// configuration: a bare flag name sets its flag to true, a `key = value`
/// pair sets its key, an unknown key or a value of the wrong kind is an
/// error.
pub open spec fn spec_apply_item(c: ConfigModel, item: DeclItemModel) -> Result<
    ConfigModel,
    ConfigErrorModel,
> {
    match item {
        DeclItemModel::Flag(k) => {
            if k == "snowflake_id"@ {
                Ok(ConfigModel { snowflake_id: true, ..c })
            } else if k == "timestamps"@ {
                Ok(ConfigModel { timestamps: true, ..c })
            } else if k == "audit"@ {
                Ok(ConfigModel { audit: true, ..c })
            } else if k == "tenant"@ {
                Ok(ConfigModel { tenant: true, ..c })
            } else if k == "version"@ {
                Ok(ConfigModel { version: true, ..c })
            } else if k == "soft_delete"@ {
                Ok(ConfigModel { soft_delete: true, ..c })
            } else if k == "state"@ {
                Ok(ConfigModel { state: true, ..c })
            } else {
                Err(ConfigErrorModel::UnknownKey(k))
            }
        },
        DeclItemModel::KeyValue(k, v) => {
            if k == "snowflake_id"@ {
                match v {
                    FlagValueModel::Bool(b) => Ok(ConfigModel { snowflake_id: b, ..c }),
                    _ => Err(ConfigErrorModel::TypeMismatch(k, ValueKind::Boolean)),
                }
            } else if k == "timestamps"@ {
                match v {
                    FlagValueModel::Bool(b) => Ok(ConfigModel { timestamps: b, ..c }),
                    _ => Err(ConfigErrorModel::TypeMismatch(k, ValueKind::Boolean)),
                }
            } else if k == "audit"@ {
                match v {
                    FlagValueModel::Bool(b) => Ok(ConfigModel { audit: b, ..c }),
                    _ => Err(ConfigErrorModel::TypeMismatch(k, ValueKind::Boolean)),
                }
            } else if k == "tenant"@ {
                match v {
                    FlagValueModel::Bool(b) => Ok(ConfigModel { tenant: b, ..c }),
                    _ => Err(ConfigErrorModel::TypeMismatch(k, ValueKind::Boolean)),
                }
            } else if k == "version"@ {
                match v {
                    FlagValueModel::Bool(b) => Ok(ConfigModel { version: b, ..c }),
                    _ => Err(ConfigErrorModel::TypeMismatch(k, ValueKind::Boolean)),
                }
            } else if k == "soft_delete"@ {
                match v {
                    FlagValueModel::Bool(b) => Ok(ConfigModel { soft_delete: b, ..c }),
                    _ => Err(ConfigErrorModel::TypeMismatch(k, ValueKind::Boolean)),
                }
            } else if k == "state"@ {
                match v {
                    FlagValueModel::Bool(b) => Ok(ConfigModel { state: b, ..c }),
                    _ => Err(ConfigErrorModel::TypeMismatch(k, ValueKind::Boolean)),
                }
            } else if k == "default_state"@ {
                match v {
                    FlagValueModel::Text(s) => Ok(ConfigModel { default_state: Some(s), ..c }),
                    _ => Err(ConfigErrorModel::TypeMismatch(k, ValueKind::Text)),
                }
            } else if k == "default_state_name"@ {
                match v {
                    FlagValueModel::Text(s) => Ok(
                        ConfigModel { default_state_name: Some(s), ..c },
                    ),
                    _ => Err(ConfigErrorModel::TypeMismatch(k, ValueKind::Text)),
                }
            } else {
                Err(ConfigErrorModel::UnknownKey(k))
            }
        },
    }
}

/// The effect of a declaration list, entry by entry, left to right, stopping
/// at the first error. A later entry for the same key overrides an earlier
/// one.
pub open spec fn spec_apply_items(c: ConfigModel, items: Seq<DeclItemModel>) -> Result<
    ConfigModel,
    ConfigErrorModel,
>
    decreases items.len(),
{
    if items.len() == 0 {
        Ok(c)
    } else {
        match spec_apply_item(c, items[0]) {
            Ok(c2) => spec_apply_items(c2, items.drop_first()),
            Err(e) => Err(e),
        }
    }
}

/// Whether any declaration in the set is the bare marker.
pub open spec fn spec_has_bare(attrs: Seq<DeclarationModel>) -> bool {
    exists|i: int| 0 <= i < attrs.len() && attrs[i] is Bare
}

/// Whether any declaration in the set is an entry list.
pub open spec fn spec_has_items(attrs: Seq<DeclarationModel>) -> bool {
    exists|i: int| 0 <= i < attrs.len() && attrs[i] is Items
}

/// The effect of a set of entry-list declarations, in order, stopping at the
/// first error. A bare marker contributes nothing here; mixing it with entry
/// lists is rejected before this fold is consulted.
pub open spec fn spec_fold_attrs(c: ConfigModel, attrs: Seq<DeclarationModel>) -> Result<
    ConfigModel,
    ConfigErrorModel,
>
    decreases attrs.len(),
{
    if attrs.len() == 0 {
        Ok(c)
    } else {
        match attrs[0] {
            DeclarationModel::Bare => spec_fold_attrs(c, attrs.drop_first()),
            DeclarationModel::Items(items) => match spec_apply_items(c, items) {
                Ok(c2) => spec_fold_attrs(c2, attrs.drop_first()),
                Err(e) => Err(e),
            },
        }
    }
}

/// What a set of declarations resolves to, before validation: mixing the
/// bare marker with entry lists is malformed; the bare marker alone gives
/// the canonical default; otherwise the entry lists are folded over the
/// all-disabled starting point.
pub open spec fn spec_from_attributes(attrs: Seq<DeclarationModel>) -> Result<
    ConfigModel,
    ConfigErrorModel,
> {
    if spec_has_bare(attrs) && spec_has_items(attrs) {
        Err(ConfigErrorModel::MalformedDeclaration)
    } else if spec_has_bare(attrs) {
        Ok(spec_canonical_config())
    } else {
        spec_fold_attrs(spec_default_config(), attrs)
    }
}

/// Whether a resolved configuration passes the invariant check: auditing
/// requires timestamps, and an enabled state field requires a supplied
/// default.
pub open spec fn spec_config_valid(c: ConfigModel) -> bool {
    &&& !(c.audit && !c.timestamps)
    &&& !(c.state && c.default_state is None)
}

/// The exact outcome of validation, checking the audit/timestamps invariant
/// first.
pub open spec fn spec_validate(c: ConfigModel) -> Result<(), ConfigErrorModel> {
    if c.audit && !c.timestamps {
        Err(ConfigErrorModel::InvalidCombination("audit requires timestamps"@))
    } else if c.state && c.default_state is None {
        Err(ConfigErrorModel::MissingDefault("default_state"@))
    } else {
        Ok(())
    }
}

/// Apply one declaration entry to a partially resolved configuration.
fn apply_item(config: AutoFieldConfig, item: &DeclItem) -> (r: Result<AutoFieldConfig, ConfigError>)
    ensures
        match r {
            Ok(c) => spec_apply_item(config@, item@) == Ok::<ConfigModel, ConfigErrorModel>(c@),
            Err(e) => spec_apply_item(config@, item@) == Err::<ConfigModel, ConfigErrorModel>(e@),
        },
{
    match item {
        DeclItem::Flag(k) => {
            if str_eq(k.as_str(), "snowflake_id") {
                Ok(AutoFieldConfig { snowflake_id: true, ..config })
            } else if str_eq(k.as_str(), "timestamps") {
                Ok(AutoFieldConfig { timestamps: true, ..config })
            } else if str_eq(k.as_str(), "audit") {
                Ok(AutoFieldConfig { audit: true, ..config })
            } else if str_eq(k.as_str(), "tenant") {
                Ok(AutoFieldConfig { tenant: true, ..config })
            } else if str_eq(k.as_str(), "version") {
                Ok(AutoFieldConfig { version: true, ..config })
            } else if str_eq(k.as_str(), "soft_delete") {
                Ok(AutoFieldConfig { soft_delete: true, ..config })
            } else if str_eq(k.as_str(), "state") {
                Ok(AutoFieldConfig { state: true, ..config })
            } else {
                Err(ConfigError::UnknownKey(k.clone()))
            }
        },
        DeclItem::KeyValue(k, v) => {
            if str_eq(k.as_str(), "snowflake_id") {
                match v {
                    FlagValue::Bool(b) => Ok(AutoFieldConfig { snowflake_id: *b, ..config }),
                    _ => Err(ConfigError::TypeMismatch(k.clone(), ValueKind::Boolean)),
                }
            } else if str_eq(k.as_str(), "timestamps") {
                match v {
                    FlagValue::Bool(b) => Ok(AutoFieldConfig { timestamps: *b, ..config }),
                    _ => Err(ConfigError::TypeMismatch(k.clone(), ValueKind::Boolean)),
                }
            } else if str_eq(k.as_str(), "audit") {
                match v {
                    FlagValue::Bool(b) => Ok(AutoFieldConfig { audit: *b, ..config }),
                    _ => Err(ConfigError::TypeMismatch(k.clone(), ValueKind::Boolean)),
                }
            } else if str_eq(k.as_str(), "tenant") {
                match v {
                    FlagValue::Bool(b) => Ok(AutoFieldConfig { tenant: *b, ..config }),
                    _ => Err(ConfigError::TypeMismatch(k.clone(), ValueKind::Boolean)),
                }
            } else if str_eq(k.as_str(), "version") {
                match v {
                    FlagValue::Bool(b) => Ok(AutoFieldConfig { version: *b, ..config }),
                    _ => Err(ConfigError::TypeMismatch(k.clone(), ValueKind::Boolean)),
                }
            } else if str_eq(k.as_str(), "soft_delete") {
                match v {
                    FlagValue::Bool(b) => Ok(AutoFieldConfig { soft_delete: *b, ..config }),
                    _ => Err(ConfigError::TypeMismatch(k.clone(), ValueKind::Boolean)),
                }
            } else if str_eq(k.as_str(), "state") {
                match v {
                    FlagValue::Bool(b) => Ok(AutoFieldConfig { state: *b, ..config }),
                    _ => Err(ConfigError::TypeMismatch(k.clone(), ValueKind::Boolean)),
                }
            } else if str_eq(k.as_str(), "default_state") {
                match v {
                    FlagValue::Text(s) => Ok(
                        AutoFieldConfig { default_state: Some(s.clone()), ..config },
                    ),
                    _ => Err(ConfigError::TypeMismatch(k.clone(), ValueKind::Text)),
                }
            } else if str_eq(k.as_str(), "default_state_name") {
                match v {
                    FlagValue::Text(s) => Ok(
                        AutoFieldConfig { default_state_name: Some(s.clone()), ..config },
                    ),
                    _ => Err(ConfigError::TypeMismatch(k.clone(), ValueKind::Text)),
                }
            } else {
                Err(ConfigError::UnknownKey(k.clone()))
            }
        },
    }
}

/// Apply a declaration list, entry by entry, stopping at the first error.
#[verifier::loop_isolation(false)]
fn apply_items(config: AutoFieldConfig, items: &Vec<DeclItem>) -> (r: Result<
    AutoFieldConfig,
    ConfigError,
>)
    ensures
        match r {
            Ok(c) => spec_apply_items(config@, items.deep_view()) == Ok::<
                ConfigModel,
                ConfigErrorModel,
            >(c@),
            Err(e) => spec_apply_items(config@, items.deep_view()) == Err::<
                ConfigModel,
                ConfigErrorModel,
            >(e@),
        },
{
    let ghost im = items.deep_view();
    let ghost c0 = config@;
    proof {
        assert(im.skip(0) =~= im);
    }
    let mut cur = config;
    let mut i: usize = 0;
    while i < items.len()
        invariant
            i <= items.len(),
            im == items.deep_view(),
            im.len() == items.len(),
            spec_apply_items(c0, im) == spec_apply_items(cur@, im.skip(i as int)),
        decreases items.len() - i,
    {
        proof {
            assert(im.skip(i as int)[0] == im[i as int]);
            assert(im.skip(i as int).drop_first() =~= im.skip(i as int + 1));
            assert(im[i as int] == items@[i as int]@);
        }
        let ghost prev = cur@;
        cur = match apply_item(cur, &items[i]) {
            Ok(c) => c,
            Err(e) => {
                proof {
                    assert(im.skip(i as int).len() > 0);
                    assert(spec_apply_item(prev, im[i as int]) == Err::<
                        ConfigModel,
                        ConfigErrorModel,
                    >(e@));
                    assert(spec_apply_items(prev, im.skip(i as int)) == Err::<
                        ConfigModel,
                        ConfigErrorModel,
                    >(e@));
                }
                return Err(e);
            },
        };
        i += 1;
    }
    proof {
        assert(im.skip(items.len() as int) =~= Seq::<DeclItemModel>::empty());
    }
    Ok(cur)
}

impl AutoFieldConfig {
    /// Resolve a set of declarations into a configuration, without yet
    /// running the invariant check: the bare marker alone gives the
    /// canonical default, entry lists are folded in order over the
    /// all-disabled starting point, and mixing the two forms is malformed.
    #[verifier::loop_isolation(false)]
    pub fn from_attributes(attrs: &Vec<Declaration>) -> (r: Result<AutoFieldConfig, ConfigError>)
        ensures
            match r {
                Ok(c) => spec_from_attributes(attrs.deep_view()) == Ok::<
                    ConfigModel,
                    ConfigErrorModel,
                >(c@),
                Err(e) => spec_from_attributes(attrs.deep_view()) == Err::<
                    ConfigModel,
                    ConfigErrorModel,
                >(e@),
            },
    {
        let ghost am = attrs.deep_view();
        let mut saw_bare = false;
        let mut saw_items = false;
        let mut i: usize = 0;
        while i < attrs.len()
            invariant
                i <= attrs.len(),
                am == attrs.deep_view(),
                am.len() == attrs.len(),
                saw_bare == spec_has_bare(am.take(i as int)),
                saw_items == spec_has_items(am.take(i as int)),
            decreases attrs.len() - i,
        {
            proof {
                assert(am.take(i as int + 1).drop_last() =~= am.take(i as int));
                assert(am[i as int] == attrs@[i as int]@);
            }
            match &attrs[i] {
                Declaration::Bare => {
                    saw_bare = true;
                },
                Declaration::Items(_) => {
                    saw_items = true;
                },
            }
            proof {
                lemma_scan_step(am, i as int);
            }
            i += 1;
        }
        proof {
            assert(am.take(attrs.len() as int) =~= am);
        }
        if saw_bare && saw_items {
            return Err(ConfigError::MalformedDeclaration);
        }
        if saw_bare {
            return Ok(
                AutoFieldConfig {
                    snowflake_id: true,
                    timestamps: true,
                    audit: true,
                    tenant: false,
                    version: true,
                    soft_delete: true,
                    state: true,
                    default_state: Some("1".to_owned()),
                    default_state_name: Some("enabled".to_owned()),
                },
            );
        }
        let mut config = AutoFieldConfig {
            snowflake_id: false,
            timestamps: false,
            audit: false,
            tenant: false,
            version: false,
            soft_delete: false,
            state: false,
            default_state: None,
            default_state_name: None,
        };
        let ghost c0 = config@;
        proof {
            assert(am.skip(0) =~= am);
        }
        let mut j: usize = 0;
        while j < attrs.len()
            invariant
                j <= attrs.len(),
                am == attrs.deep_view(),
                am.len() == attrs.len(),
                !spec_has_bare(am),
                c0 == spec_default_config(),
                spec_fold_attrs(c0, am) == spec_fold_attrs(config@, am.skip(j as int)),
            decreases attrs.len() - j,
        {
            proof {
                assert(am.skip(j as int)[0] == am[j as int]);
                assert(am.skip(j as int).drop_first() =~= am.skip(j as int + 1));
                assert(am[j as int] == attrs@[j as int]@);
            }
            match &attrs[j] {
                Declaration::Bare => {},
                Declaration::Items(items) => {
                    config = match apply_items(config, items) {
                        Ok(c) => c,
                        Err(e) => {
                            return Err(e);
                        },
                    };
                },
            }
            j += 1;
        }
        proof {
            assert(am.skip(attrs.len() as int) =~= Seq::<DeclarationModel>::empty());
        }
        Ok(config)
    }

    /// Run the invariant check on a resolved configuration: auditing without
    /// timestamps is an invalid combination, whatever the other flags say,
    /// and an enabled state field without a supplied default is missing its
    /// default.
    pub fn validate(&self) -> (r: Result<(), ConfigError>)
        ensures
            match r {
                Ok(()) => spec_validate(self@) == Ok::<(), ConfigErrorModel>(()),
                Err(e) => spec_validate(self@) == Err::<(), ConfigErrorModel>(e@),
            },
            r is Ok <==> spec_config_valid(self@),
            self.audit && !self.timestamps ==> (r matches Err(e) && e@
                == ConfigErrorModel::InvalidCombination("audit requires timestamps"@)),
    {
        if self.audit && !self.timestamps {
            return Err(ConfigError::InvalidCombination("audit requires timestamps".to_owned()));
        }
        if self.state && self.default_state.is_none() {
            return Err(ConfigError::MissingDefault("default_state".to_owned()));
        }
        Ok(())
    }
}

/// An explicit entry list that names every flag the bare marker enables,
/// with the same values.
pub open spec fn spec_canonical_items() -> Seq<DeclItemModel> {
    seq![
        DeclItemModel::KeyValue("snowflake_id"@, FlagValueModel::Bool(true)),
        DeclItemModel::KeyValue("timestamps"@, FlagValueModel::Bool(true)),
        DeclItemModel::KeyValue("audit"@, FlagValueModel::Bool(true)),
        DeclItemModel::KeyValue("tenant"@, FlagValueModel::Bool(false)),
        DeclItemModel::KeyValue("version"@, FlagValueModel::Bool(true)),
        DeclItemModel::KeyValue("soft_delete"@, FlagValueModel::Bool(true)),
        DeclItemModel::KeyValue("state"@, FlagValueModel::Bool(true)),
        DeclItemModel::KeyValue("default_state"@, FlagValueModel::Text("1"@)),
        DeclItemModel::KeyValue("default_state_name"@, FlagValueModel::Text("enabled"@)),
    ]
}

/// Canonical-default equivalence: the bare marker and an explicit key/value
/// declaration that sets the same flags to the same values resolve to the
/// same configuration.
pub proof fn lemma_canonical_default_equivalence()
    ensures
        spec_from_attributes(seq![DeclarationModel::Bare]) == Ok::<ConfigModel, ConfigErrorModel>(
            spec_canonical_config(),
        ),
        spec_from_attributes(seq![DeclarationModel::Items(spec_canonical_items())]) == Ok::<
            ConfigModel,
            ConfigErrorModel,
        >(spec_canonical_config()),
{
    broadcast use vstd::string::group_string_axioms;

    reveal_strlit("snowflake_id");
    reveal_strlit("timestamps");
    reveal_strlit("audit");
    reveal_strlit("tenant");
    reveal_strlit("version");
    reveal_strlit("soft_delete");
    reveal_strlit("state");
    reveal_strlit("default_state");
    reveal_strlit("default_state_name");
    let bare = seq![DeclarationModel::Bare];
    let explicit = seq![DeclarationModel::Items(spec_canonical_items())];
    assert(spec_has_bare(bare)) by {
        assert(bare[0] is Bare);
    };
    assert(!spec_has_items(bare)) by {
        assert(forall|i: int| 0 <= i < bare.len() ==> !(#[trigger] bare[i] is Items));
    };
    assert(!spec_has_bare(explicit)) by {
        assert(forall|i: int| 0 <= i < explicit.len() ==> !(#[trigger] explicit[i] is Bare));
    };
    reveal_with_fuel(spec_fold_attrs, 3);
    assert(explicit.drop_first() =~= Seq::<DeclarationModel>::empty());
    assert("snowflake_id"@.len() == 12);
    assert("timestamps"@.len() == 10);
    assert("audit"@.len() == 5);
    assert("tenant"@.len() == 6);
    assert("version"@.len() == 7);
    assert("soft_delete"@.len() == 11);
    assert("state"@.len() == 5);
    assert("default_state"@.len() == 13);
    assert("default_state_name"@.len() == 18);
    assert("state"@[0] != "audit"@[0]);
    let items = spec_canonical_items();
    let kv0 = DeclItemModel::KeyValue("snowflake_id"@, FlagValueModel::Bool(true));
    let kv1 = DeclItemModel::KeyValue("timestamps"@, FlagValueModel::Bool(true));
    let kv2 = DeclItemModel::KeyValue("audit"@, FlagValueModel::Bool(true));
    let kv3 = DeclItemModel::KeyValue("tenant"@, FlagValueModel::Bool(false));
    let kv4 = DeclItemModel::KeyValue("version"@, FlagValueModel::Bool(true));
    let kv5 = DeclItemModel::KeyValue("soft_delete"@, FlagValueModel::Bool(true));
    let kv6 = DeclItemModel::KeyValue("state"@, FlagValueModel::Bool(true));
    let kv7 = DeclItemModel::KeyValue("default_state"@, FlagValueModel::Text("1"@));
    let kv8 = DeclItemModel::KeyValue("default_state_name"@, FlagValueModel::Text("enabled"@));
    let t0 = items;
    let t1 = seq![kv1, kv2, kv3, kv4, kv5, kv6, kv7, kv8];
    let t2 = seq![kv2, kv3, kv4, kv5, kv6, kv7, kv8];
    let t3 = seq![kv3, kv4, kv5, kv6, kv7, kv8];
    let t4 = seq![kv4, kv5, kv6, kv7, kv8];
    let t5 = seq![kv5, kv6, kv7, kv8];
    let t6 = seq![kv6, kv7, kv8];
    let t7 = seq![kv7, kv8];
    let t8 = seq![kv8];
    let t9 = Seq::<DeclItemModel>::empty();
    assert(t0.drop_first() =~= t1);
    assert(t1.drop_first() =~= t2);
    assert(t2.drop_first() =~= t3);
    assert(t3.drop_first() =~= t4);
    assert(t4.drop_first() =~= t5);
    assert(t5.drop_first() =~= t6);
    assert(t6.drop_first() =~= t7);
    assert(t7.drop_first() =~= t8);
    assert(t8.drop_first() =~= t9);
    let c0 = spec_default_config();
    let c1 = ConfigModel { snowflake_id: true, ..c0 };
    let c2 = ConfigModel { timestamps: true, ..c1 };
    let c3 = ConfigModel { audit: true, ..c2 };
    let c4 = ConfigModel { tenant: false, ..c3 };
    let c5 = ConfigModel { version: true, ..c4 };
    let c6 = ConfigModel { soft_delete: true, ..c5 };
    let c7 = ConfigModel { state: true, ..c6 };
    let c8 = ConfigModel { default_state: Some("1"@), ..c7 };
    let c9 = ConfigModel { default_state_name: Some("enabled"@), ..c8 };
    assert(spec_apply_item(c0, kv0) == Ok::<ConfigModel, ConfigErrorModel>(c1));
    assert(spec_apply_item(c1, kv1) == Ok::<ConfigModel, ConfigErrorModel>(c2));
    assert(spec_apply_item(c2, kv2) == Ok::<ConfigModel, ConfigErrorModel>(c3));
    assert(spec_apply_item(c3, kv3) == Ok::<ConfigModel, ConfigErrorModel>(c4));
    assert(spec_apply_item(c4, kv4) == Ok::<ConfigModel, ConfigErrorModel>(c5));
    assert(spec_apply_item(c5, kv5) == Ok::<ConfigModel, ConfigErrorModel>(c6));
    assert(spec_apply_item(c6, kv6) == Ok::<ConfigModel, ConfigErrorModel>(c7));
    assert(spec_apply_item(c7, kv7) == Ok::<ConfigModel, ConfigErrorModel>(c8));
    assert(spec_apply_item(c8, kv8) == Ok::<ConfigModel, ConfigErrorModel>(c9));
    assert(spec_apply_items(c0, t0) == spec_apply_items(c1, t1));
    assert(spec_apply_items(c1, t1) == spec_apply_items(c2, t2));
    assert(spec_apply_items(c2, t2) == spec_apply_items(c3, t3));
    assert(spec_apply_items(c3, t3) == spec_apply_items(c4, t4));
    assert(spec_apply_items(c4, t4) == spec_apply_items(c5, t5));
    assert(spec_apply_items(c5, t5) == spec_apply_items(c6, t6));
    assert(spec_apply_items(c6, t6) == spec_apply_items(c7, t7));
    assert(spec_apply_items(c7, t7) == spec_apply_items(c8, t8));
    assert(spec_apply_items(c8, t8) == spec_apply_items(c9, t9));
    assert(spec_apply_items(c9, t9) == Ok::<ConfigModel, ConfigErrorModel>(c9));
    assert(c9 == spec_canonical_config());
    assert(spec_fold_attrs(spec_default_config(), explicit) == Ok::<ConfigModel, ConfigErrorModel>(
        spec_canonical_config(),
    ));
}

/// Seeing one more declaration extends the bare/items scan by exactly that
/// declaration's form.
proof fn lemma_scan_step(s: Seq<DeclarationModel>, i: int)
    requires
        0 <= i < s.len(),
    ensures
        spec_has_bare(s.take(i + 1)) == (spec_has_bare(s.take(i)) || s[i] is Bare),
        spec_has_items(s.take(i + 1)) == (spec_has_items(s.take(i)) || s[i] is Items),
{
    if spec_has_bare(s.take(i + 1)) {
        let k = choose|k: int| 0 <= k < s.take(i + 1).len() && #[trigger] s.take(i + 1)[k] is Bare;
        if k < i {
            assert(s.take(i)[k] is Bare);
        }
    }
    if spec_has_bare(s.take(i)) {
        let k = choose|k: int| 0 <= k < s.take(i).len() && #[trigger] s.take(i)[k] is Bare;
        assert(s.take(i + 1)[k] is Bare);
    }
    if s[i] is Bare {
        assert(s.take(i + 1)[i] is Bare);
    }
    if spec_has_items(s.take(i + 1)) {
        let k = choose|k: int| 0 <= k < s.take(i + 1).len() && #[trigger] s.take(i + 1)[k] is Items;
        if k < i {
            assert(s.take(i)[k] is Items);
        }
    }
    if spec_has_items(s.take(i)) {
        let k = choose|k: int| 0 <= k < s.take(i).len() && #[trigger] s.take(i)[k] is Items;
        assert(s.take(i + 1)[k] is Items);
    }
    if s[i] is Items {
        assert(s.take(i + 1)[i] is Items);
    }
}

} // verus!
