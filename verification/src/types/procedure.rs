//! Display forms of an imported procedure: a module name and a procedure name.
use vstd::prelude::*;
use vstd::string::StringExecFns;
use crate::types::{utf8_lossy, PascalString};

verus! {

/// `module`, then `separator`, then `procedure`.
pub fn join_names(module: String, separator: &str, procedure: &str) -> (s: String)
    ensures
        s@ == module@ + separator@ + procedure@,
{
    module.concat(separator).concat(procedure)
}

/// The debugger form `MODULE!Procedure`.
pub fn format_windbg(mod_str: &PascalString, proc_str: &PascalString) -> (s: String)
    ensures
        s@ == utf8_lossy(mod_str.deep_view()) + "!"@ + utf8_lossy(proc_str.deep_view()),
{
    let procedure = proc_str.to_string();
    join_names(mod_str.to_string(), "!", procedure.as_str())
}

/// The path form `MODULE::Procedure`.
pub fn format_rs(mod_str: &PascalString, proc_str: &PascalString) -> (s: String)
    ensures
        s@ == utf8_lossy(mod_str.deep_view()) + "::"@ + utf8_lossy(proc_str.deep_view()),
{
    let procedure = proc_str.to_string();
    join_names(mod_str.to_string(), "::", procedure.as_str())
}

} // verus!
