//! The entity shape analyzer: which of the well-known optional field names
//! an entity actually declares.

use vstd::prelude::*;
use vstd::string::StrSliceExecFns;

verus! {

/// Which well-known fields an entity declares, one boolean per name in the
/// fixed vocabulary. Derived once from the entity's field list; immutable.
#[derive(Debug, Clone, Copy, PartialEq, Eq, Structural)]
pub struct EntityFields {
    pub has_id: bool,
    pub has_create_time: bool,
    pub has_update_time: bool,
    pub has_create_by: bool,
    pub has_create_id: bool,
    pub has_update_by: bool,
    pub has_update_id: bool,
    pub has_tenant_id: bool,
    pub has_tenant_name: bool,
    pub has_version: bool,
    pub has_delete_flag: bool,
    pub has_state: bool,
    pub has_state_name: bool,
}

/// The shape an entity with the given declared field names has: each flag is
/// true exactly when the corresponding well-known name occurs in the list.
/// Unrecognized names are ignored, and repeats are harmless.
pub open spec fn spec_from_fields(names: Seq<Seq<char>>) -> EntityFields {
    EntityFields {
        has_id: names.contains("id"@),
        has_create_time: names.contains("create_time"@),
        has_update_time: names.contains("update_time"@),
        has_create_by: names.contains("create_by"@),
        has_create_id: names.contains("create_id"@),
        has_update_by: names.contains("update_by"@),
        has_update_id: names.contains("update_id"@),
        has_tenant_id: names.contains("tenant_id"@),
        has_tenant_name: names.contains("tenant_name"@),
        has_version: names.contains("version"@),
        has_delete_flag: names.contains("delete_flag"@),
        has_state: names.contains("state"@),
        has_state_name: names.contains("state_name"@),
    }
}

/// String equality by character sequence.
pub(crate) fn str_eq(a: &str, b: &str) -> (r: bool)
    ensures
        r == (a@ == b@),
{
    let la = a.unicode_len();
    let lb = b.unicode_len();
    if la != lb {
        proof {
            assert(a@ != b@) by {
                assert(a@.len() != b@.len());
            }
        }
        return false;
    }
    let mut i: usize = 0;
    while i < la
        invariant
            la == a@.len(),
            la == b@.len(),
            i <= la,
            forall|j: int| 0 <= j < i ==> a@[j] == b@[j],
        decreases la - i,
    {
        if a.get_char(i) != b.get_char(i) {
            return false;
        }
        i += 1;
    }
    proof {
        assert(a@ =~= b@);
    }
    true
}

impl EntityFields {
    /// Analyze an entity's declared field names against the well-known
    /// vocabulary.
    pub fn from_fields(names: &Vec<String>) -> (shape: EntityFields)
        ensures
            shape == spec_from_fields(names.deep_view()),
    {
        let mut shape = EntityFields {
            has_id: false,
            has_create_time: false,
            has_update_time: false,
            has_create_by: false,
            has_create_id: false,
            has_update_by: false,
            has_update_id: false,
            has_tenant_id: false,
            has_tenant_name: false,
            has_version: false,
            has_delete_flag: false,
            has_state: false,
            has_state_name: false,
        };
        let ghost all = names.deep_view();
        let mut i: usize = 0;
        while i < names.len()
            invariant
                i <= names.len(),
                all == names.deep_view(),
                all.len() == names.len(),
                forall|j: int| 0 <= j < i ==> all[j] == names@[j]@,
                shape == spec_from_fields(all.take(i as int)),
            decreases names.len() - i,
        {
            let name = &names[i];
            let is_id = str_eq(name.as_str(), "id");
            let is_create_time = str_eq(name.as_str(), "create_time");
            let is_update_time = str_eq(name.as_str(), "update_time");
            let is_create_by = str_eq(name.as_str(), "create_by");
            let is_create_id = str_eq(name.as_str(), "create_id");
            let is_update_by = str_eq(name.as_str(), "update_by");
            let is_update_id = str_eq(name.as_str(), "update_id");
            let is_tenant_id = str_eq(name.as_str(), "tenant_id");
            let is_tenant_name = str_eq(name.as_str(), "tenant_name");
            let is_version = str_eq(name.as_str(), "version");
            let is_delete_flag = str_eq(name.as_str(), "delete_flag");
            let is_state = str_eq(name.as_str(), "state");
            let is_state_name = str_eq(name.as_str(), "state_name");
            shape = EntityFields {
                has_id: shape.has_id || is_id,
                has_create_time: shape.has_create_time || is_create_time,
                has_update_time: shape.has_update_time || is_update_time,
                has_create_by: shape.has_create_by || is_create_by,
                has_create_id: shape.has_create_id || is_create_id,
                has_update_by: shape.has_update_by || is_update_by,
                has_update_id: shape.has_update_id || is_update_id,
                has_tenant_id: shape.has_tenant_id || is_tenant_id,
                has_tenant_name: shape.has_tenant_name || is_tenant_name,
                has_version: shape.has_version || is_version,
                has_delete_flag: shape.has_delete_flag || is_delete_flag,
                has_state: shape.has_state || is_state,
                has_state_name: shape.has_state_name || is_state_name,
            };
            proof {
                lemma_take_contains(all, i as int);
            }
            i += 1;
        }
        proof {
            assert(all.take(names.len() as int) =~= all);
        }
        shape
    }
}

/// Membership in a one-longer prefix is membership in the shorter prefix or
/// equality with the newly exposed element.
proof fn lemma_take_contains(s: Seq<Seq<char>>, i: int)
    requires
        0 <= i < s.len(),
    ensures
        forall|x: Seq<char>|
            #[trigger] s.take(i + 1).contains(x) <==> (s.take(i).contains(x) || x == s[i]),
{
    assert forall|x: Seq<char>| #[trigger] s.take(i + 1).contains(x) implies (s.take(i).contains(x)
        || x == s[i]) by {
        let k = choose|k: int| 0 <= k < s.take(i + 1).len() && #[trigger] s.take(i + 1)[k] == x;
        if k < i {
            assert(s.take(i)[k] == x);
        }
    };
    assert forall|x: Seq<char>| (s.take(i).contains(x) || x == s[i]) implies #[trigger] s.take(
        i + 1,
    ).contains(x) by {
        if s.take(i).contains(x) {
            let k = choose|k: int| 0 <= k < s.take(i).len() && #[trigger] s.take(i)[k] == x;
            assert(s.take(i + 1)[k] == x);
        } else {
            assert(s.take(i + 1)[i] == x);
        }
    };
}

} // verus!
