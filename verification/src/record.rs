//! The record type that the vault persists: a named value with a small
//! structured payload, the shape every encoding serializes.

use vstd::prelude::*;

verus! {

/// One persisted record: a `name` field holding text and a `value` field
/// holding an integer. Every supported encoding writes these two fields
/// under the keys `"name"` and `"value"`.
#[derive(Debug, Clone)]
pub struct VaultRecord {
    pub name: String,
    pub value: i64,
}

/// Holds exactly of the record that default construction produces: an empty
/// name and a zero value.
pub open spec fn is_default_record(r: VaultRecord) -> bool {
    r.name@ == Seq::<char>::empty() && r.value == 0
}

impl PartialEq for VaultRecord {
    fn eq(&self, o: &VaultRecord) -> (r: bool) {
        self.name == o.name && self.value == o.value
    }
}

impl vstd::std_specs::cmp::PartialEqSpecImpl for VaultRecord {
    open spec fn obeys_eq_spec() -> bool {
        true
    }

    open spec fn eq_spec(&self, o: &VaultRecord) -> bool {
        self.name@ == o.name@ && self.value == o.value
    }
}

impl Default for VaultRecord {
    /// Default construction: empty name, zero value.
    fn default() -> (r: Self)
        ensures
            is_default_record(r),
    {
        VaultRecord { name: String::new(), value: 0 }
    }
}

} // verus!
