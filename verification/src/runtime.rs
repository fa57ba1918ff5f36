//! The trusted boundary to the embedded Lua interpreter.
//!
//! Everything the bridge needs from the scripting runtime goes through the
//! small functions here: executing a script once, invoking a named global
//! function with no arguments, and reading or writing one global or one
//! positional table slot as plain data. Each function's body makes exactly
//! the calls its doc comment names; nothing about the values that come back
//! is assumed beyond their plain Rust types, since they depend entirely on
//! the script's own state.

use vstd::prelude::*;

use crate::errors::ScriptError;
use crate::values::ScriptValue;

verus! {

#[verifier::external_type_specification]
#[verifier::external_body]
pub struct ExLua(mlua::Lua);

#[verifier::external_type_specification]
#[verifier::external_body]
pub struct ExTable(mlua::Table);

/// Relies on `mlua::Lua::new`: creates a fresh, isolated interpreter whose
/// global namespace is shared with no other interpreter.
#[verifier::external_body]
pub(crate) fn lua_new() -> mlua::Lua {
    mlua::Lua::new()
}

/// Relies on `mlua::Lua::load` and `mlua::Chunk::exec`: parses the source
/// text as a chunk and runs it once at top level. A parse failure or an
/// error raised during that execution is reported as a load error.
#[verifier::external_body]
pub(crate) fn lua_exec(lua: &mlua::Lua, source: &str) -> Result<(), ScriptError> {
    lua.load(source).exec().map_err(|_| ScriptError::Load)
}

/// Relies on `mlua::Table::get` on the globals table and
/// `mlua::Function::call`: looks up the named global and invokes it with no
/// arguments, dropping whatever it returns. A global that is absent or not a
/// function reports `FunctionMissing`; a raise during the call, `Runtime`.
#[verifier::external_body]
pub(crate) fn lua_call_unit(lua: &mlua::Lua, name: &str) -> Result<(), ScriptError> {
    let f: mlua::Function = match lua.globals().get(name) {
        Ok(f) => f,
        Err(_) => return Err(ScriptError::FunctionMissing),
    };
    f.call::<()>(()).map_err(|_| ScriptError::Runtime)
}

/// Relies on `mlua::Table::get` on the globals table and
/// `mlua::Function::call`: as [`lua_call_unit`], but the first returned
/// value is read by Lua truthiness (absent and `nil` count as false).
#[verifier::external_body]
pub(crate) fn lua_call_bool(lua: &mlua::Lua, name: &str) -> Result<bool, ScriptError> {
    let f: mlua::Function = match lua.globals().get(name) {
        Ok(f) => f,
        Err(_) => return Err(ScriptError::FunctionMissing),
    };
    f.call::<bool>(()).map_err(|_| ScriptError::Runtime)
}

/// Relies on `mlua::Table::get` on the globals table and
/// `mlua::Function::call`: as [`lua_call_unit`], but the first returned
/// value must coerce to a string (numbers coerce); anything else reports
/// `Runtime`.
#[verifier::external_body]
pub(crate) fn lua_call_string(lua: &mlua::Lua, name: &str) -> Result<String, ScriptError> {
    let f: mlua::Function = match lua.globals().get(name) {
        Ok(f) => f,
        Err(_) => return Err(ScriptError::FunctionMissing),
    };
    f.call::<String>(()).map_err(|_| ScriptError::Runtime)
}

/// Relies on `mlua::Table::get` on the globals table and
/// `mlua::Function::call`: as [`lua_call_unit`], but the first returned
/// value must be a table; anything else reports `Runtime`.
#[verifier::external_body]
pub(crate) fn lua_call_table(lua: &mlua::Lua, name: &str) -> Result<mlua::Table, ScriptError> {
    let f: mlua::Function = match lua.globals().get(name) {
        Ok(f) => f,
        Err(_) => return Err(ScriptError::FunctionMissing),
    };
    f.call::<mlua::Table>(()).map_err(|_| ScriptError::Runtime)
}

/// Relies on `mlua::Table::pairs`: hands out the table's key/value pairs in
/// Lua's own traversal order, which fixes the order in which descriptor
/// entries are visited. Keys are coerced to strings as Lua does (numbers
/// coerce); a key that cannot coerce, or a value that is not a table,
/// reports `Runtime`.
#[verifier::external_body]
pub(crate) fn table_entry_list(t: &mlua::Table) -> Result<Vec<(String, mlua::Table)>, ScriptError> {
    let mut out: Vec<(String, mlua::Table)> = Vec::new();
    for pair in t.pairs::<String, mlua::Table>() {
        match pair {
            Ok(kv) => out.push(kv),
            Err(_) => return Err(ScriptError::Runtime),
        }
    }
    Ok(out)
}

/// Relies on `mlua::Table::raw_get`: reads one positional slot and reduces
/// it to plain data. An absent slot reads as `Nil`; a non-integer number is
/// carried as its bit pattern; a string that is not valid text, or a value
/// of a kind the bridge does not read, reads as `Other`.
#[verifier::external_body]
pub(crate) fn table_pos(t: &mlua::Table, pos: i64) -> ScriptValue {
    match t.raw_get::<mlua::Value>(pos) {
        Ok(mlua::Value::Boolean(b)) => ScriptValue::Bool(b),
        Ok(mlua::Value::Integer(i)) => ScriptValue::Int(i),
        Ok(mlua::Value::Number(n)) => ScriptValue::Num(n.to_bits()),
        Ok(mlua::Value::String(s)) => match s.to_str() {
            Ok(text) => ScriptValue::Str(text.to_owned()),
            Err(_) => ScriptValue::Other,
        },
        Ok(mlua::Value::Nil) | Err(_) => ScriptValue::Nil,
        Ok(_) => ScriptValue::Other,
    }
}

/// Relies on `mlua::Table::get` on the globals table: reads one global and
/// reduces it to plain data exactly as [`table_pos`] does.
#[verifier::external_body]
pub(crate) fn lua_get_global(lua: &mlua::Lua, name: &str) -> ScriptValue {
    match lua.globals().get::<mlua::Value>(name) {
        Ok(mlua::Value::Boolean(b)) => ScriptValue::Bool(b),
        Ok(mlua::Value::Integer(i)) => ScriptValue::Int(i),
        Ok(mlua::Value::Number(n)) => ScriptValue::Num(n.to_bits()),
        Ok(mlua::Value::String(s)) => match s.to_str() {
            Ok(text) => ScriptValue::Str(text.to_owned()),
            Err(_) => ScriptValue::Other,
        },
        Ok(mlua::Value::Nil) | Err(_) => ScriptValue::Nil,
        Ok(_) => ScriptValue::Other,
    }
}

/// Relies on `mlua::Table::set` on the globals table: clears one global.
#[verifier::external_body]
pub(crate) fn lua_set_global_nil(lua: &mlua::Lua, name: &str) -> Result<(), ScriptError> {
    lua.globals().set(name, mlua::Value::Nil).map_err(|_| ScriptError::Runtime)
}

/// Relies on `mlua::Table::set` on the globals table: writes one boolean
/// global.
#[verifier::external_body]
pub(crate) fn lua_set_global_bool(lua: &mlua::Lua, name: &str, v: bool) -> Result<(), ScriptError> {
    lua.globals().set(name, v).map_err(|_| ScriptError::Runtime)
}

/// Relies on `mlua::Table::set` on the globals table: writes one integer
/// global.
#[verifier::external_body]
pub(crate) fn lua_set_global_int(lua: &mlua::Lua, name: &str, v: i64) -> Result<(), ScriptError> {
    lua.globals().set(name, v).map_err(|_| ScriptError::Runtime)
}

/// Relies on `mlua::Table::set` on the globals table: writes one number
/// global from its bit pattern.
#[verifier::external_body]
pub(crate) fn lua_set_global_num(lua: &mlua::Lua, name: &str, bits: u64) -> Result<(), ScriptError> {
    lua.globals().set(name, mlua::Number::from_bits(bits)).map_err(|_| ScriptError::Runtime)
}

/// Relies on `mlua::Table::set` on the globals table: writes one string
/// global.
#[verifier::external_body]
pub(crate) fn lua_set_global_str(lua: &mlua::Lua, name: &str, v: &str) -> Result<(), ScriptError> {
    lua.globals().set(name, v).map_err(|_| ScriptError::Runtime)
}

/// Writes one dynamic value into the script global of the given name,
/// choosing the runtime write that matches the value's kind. `Nil` and
/// `Other` clear the global.
pub fn set_global_value(lua: &mlua::Lua, name: &str, v: &ScriptValue) -> Result<(), ScriptError> {
    match v {
        ScriptValue::Nil => lua_set_global_nil(lua, name),
        ScriptValue::Other => lua_set_global_nil(lua, name),
        ScriptValue::Bool(b) => lua_set_global_bool(lua, name, *b),
        ScriptValue::Int(i) => lua_set_global_int(lua, name, *i),
        ScriptValue::Num(bits) => lua_set_global_num(lua, name, *bits),
        ScriptValue::Str(s) => lua_set_global_str(lua, name, s.as_str()),
    }
}

} // verus!
