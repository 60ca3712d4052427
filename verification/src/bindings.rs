//! Binding resolution: the bindable names a request's variable mapping
//! offers, in the mapping's iteration order.
//!
//! Keys are not checked against identifier syntax here; a key that is not a
//! valid identifier in the evaluation scope surfaces later as a compile
//! failure of the synthesized unit.
use vstd::prelude::*;

use crate::errors::BindingError;
use crate::json::is_object_of;
use crate::json::obj_keys_of;
use crate::json::object_keys;
use crate::json::value_is_object;

verus! {

/// The names a variable mapping binds: its keys, order-preserving, when it is
/// an object; `NotAnObject` for every other JSON shape.
pub fn get_argument_list(variables: &serde_json::Value) -> (r: Result<Vec<String>, BindingError>)
    ensures
        match r {
            Ok(keys) => is_object_of(*variables) && keys@.map_values(|s: String| s@)
                == obj_keys_of(*variables),
            Err(e) => !is_object_of(*variables) && e == BindingError::NotAnObject,
        },
{
    if value_is_object(variables) {
        Ok(object_keys(variables))
    } else {
        Err(BindingError::NotAnObject)
    }
}

} // verus!
