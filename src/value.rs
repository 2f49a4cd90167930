//! Values: named entries grouped under a reference key, and the key-value
//! settings of the site.

use vstd::prelude::*;

verus! {

/// A value as a client submits it.
pub struct NewValue {
    pub reference: String,
    pub name: String,
}

/// A stored value. Timestamps are microseconds since the Unix epoch, UTC.
pub struct Value {
    pub id: i32,
    pub reference: String,
    pub name: String,
    pub created_at: Option<i64>,
    pub updated_at: Option<i64>,
}

/// A site setting: `value` is stored as text and `value_type` says how to
/// read it. Timestamps are microseconds since the Unix epoch, UTC.
pub struct Setting {
    pub key: String,
    pub value: String,
    pub value_type: String,
    pub description: Option<String>,
    pub created_at: i64,
    pub updated_at: i64,
}

} // verus!
