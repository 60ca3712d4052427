//! Wrapper synthesis: the evaluation unit handed to the interpreter.
//!
//! The unit is the trusted prelude followed by one callable named `wrapper`
//! that takes the snippet text and a single object whose named fields are
//! destructured into the snippet's scope. The destructuring pattern is the
//! isolation boundary: the snippet's only free names are the bound variables.
use vstd::prelude::*;

use crate::errors::BindingError;
use crate::errors::RenderError;
use crate::bindings::get_argument_list;
use crate::json::is_object_of;
use crate::json::obj_keys_of;
use vstd::string::StringExecFns;

verus! {

/// Names joined with `", "` between them: the wrapper's destructuring
/// pattern.
pub open spec fn join_comma(names: Seq<Seq<char>>) -> Seq<char>
    decreases names.len(),
{
    if names.len() == 0 {
        Seq::<char>::empty()
    } else if names.len() == 1 {
        names[0]
    } else {
        join_comma(names.drop_last()) + ", "@ + names.last()
    }
}

/// The trusted prelude injected verbatim ahead of every synthesized wrapper:
/// operator configuration, not request input.
pub open spec fn spec_prelude() -> Seq<char> {
    "'use strict';"@
}

/// The synthesized callable, after the prelude: the part of the unit that
/// depends on the binding names.
pub open spec fn wrapper_suffix(names: Seq<Seq<char>>) -> Seq<char> {
    "function wrapper(script_snippet, { "@ + join_comma(names) + " } ){ return eval(script_snippet) }"@
}

/// The whole evaluation unit for a sequence of binding names.
pub open spec fn wrapper_source(names: Seq<Seq<char>>) -> Seq<char> {
    " "@ + spec_prelude() + " "@ + wrapper_suffix(names)
}

/// The prelude as text.
pub fn js_prelude() -> (r: &'static str)
    ensures
        r@ == spec_prelude(),
{
    "'use strict';"
}

/// The names joined with `", "`.
fn join_args(names: &Vec<String>) -> (r: String)
    ensures
        r@ == join_comma(names@.map_values(|s: String| s@)),
{
    let ghost m = names@.map_values(|s: String| s@);
    let mut out = String::new();
    let mut i: usize = 0;
    while i < names.len()
        invariant
            i <= names.len(),
            m == names@.map_values(|s: String| s@),
            out@ == join_comma(m.take(i as int)),
        decreases names.len() - i,
    {
        if i > 0 {
            out.append(", ");
        }
        out.append(names[i].as_str());
        proof {
            let t = m.take(i as int + 1);
            assert(t.drop_last() =~= m.take(i as int));
            assert(t.last() == m[i as int]);
            assert(out@ =~= join_comma(t));
        }
        i = i + 1;
    }
    assert(m.take(names@.len() as int) =~= m);
    out
}

/// Synthesizes the evaluation unit for the given binding names. Synthesis is
/// total: the result is always `Ok`, and it always ends with the wrapper
/// callable for exactly those names.
pub fn synthesize(bindings: &Vec<String>) -> (r: Result<String, RenderError>)
    ensures
        r is Ok,
        r matches Ok(s) ==> s@ == wrapper_source(bindings@.map_values(|k: String| k@)),
        r matches Ok(s) ==> wrapper_suffix(bindings@.map_values(|k: String| k@)).is_suffix_of(
            s@,
        ),
{
    let ghost names = bindings@.map_values(|k: String| k@);
    let mut out = String::new();
    out.append(" ");
    out.append(js_prelude());
    out.append(" ");
    out.append("function wrapper(script_snippet, { ");
    let args = join_args(bindings);
    out.append(args.as_str());
    out.append(" } ){ return eval(script_snippet) }");
    proof {
        assert(out@ =~= wrapper_source(names));
        let sfx = wrapper_suffix(names);
        assert(out@.subrange(out@.len() - sfx.len(), out@.len() as int) =~= sfx);
    }
    Ok(out)
}

/// Resolves the variable mapping's binding names and synthesizes the
/// evaluation unit for them; when the mapping is not an object, synthesis is
/// not attempted and the resolver's error propagates.
pub fn render_script(variables: &serde_json::Value) -> (r: Result<String, BindingError>)
    ensures
        match r {
            Ok(s) => is_object_of(*variables) && s@ == wrapper_source(obj_keys_of(*variables))
                && wrapper_suffix(obj_keys_of(*variables)).is_suffix_of(s@),
            Err(e) => !is_object_of(*variables) && e == BindingError::NotAnObject,
        },
{
    let arguments = match get_argument_list(variables) {
        Ok(keys) => keys,
        Err(e) => {
            return Err(e);
        },
    };
    match synthesize(&arguments) {
        Ok(s) => Ok(s),
        Err(_) => Err(BindingError::NotAnObject),
    }
}

} // verus!
