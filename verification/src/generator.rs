//! One generator: a user-authored script, its exclusively owned interpreter
//! instance, its current list of typed controls, and the per-frame cycle of
//! value synchronization and control rebuild.

use vstd::prelude::*;

use crate::controls::{Control, ControlModel, control_views, spec_current_value, spec_name};
use crate::errors::{GeneratorError, ScriptError, ShapeErrorModel};
use crate::parse::{SCAN_LIMIT, parse_table, sat_add, sat_add_usize, spec_parse_table};
use crate::runtime::{
    lua_call_bool, lua_call_table, lua_exec, lua_get_global, lua_new, set_global_value, table_entry_list,
    table_pos,
};
use crate::values::{ScriptValue, TableEntry, ValueModel, entry_views};

verus! {

/// One user-authored script with its runtime state.
///
/// The interpreter instance is exclusively owned: no other generator can see
/// this script's globals. `script` names where the source came from;
/// `script_data` holds the raw text once [`LuaGenerator::load`] ran. A
/// generator whose `error` is set is disabled: the frame cycle skips it
/// until the owner clears the flag, so one broken script never stops the
/// others.
pub struct LuaGenerator {
    pub lua: mlua::Lua,
    /// Where the script source came from.
    pub script: String,
    /// The raw script text, empty until loaded.
    pub script_data: String,
    /// The current ordered control list.
    pub controls: Vec<Control>,
    /// Whether the script has been executed once.
    pub loaded: bool,
    /// The failure that disabled this generator, if any.
    pub error: Option<GeneratorError>,
}

/// What one frame's rebuild step observed and did, handed back so the owner
/// can log errors and carry the identity-slot counter to the next generator.
pub struct RebuildReport {
    /// What the script's `controls_changed` answered.
    pub changed: bool,
    /// The descriptor table read from the script, as plain entries; empty
    /// when nothing was rebuilt.
    pub entries: Vec<TableEntry>,
    /// The failure that stopped the rebuild, if any.
    pub error: Option<GeneratorError>,
    /// The identity-slot counter after this generator.
    pub next_counter: usize,
}

pub open spec fn pair_views(s: Seq<(String, ScriptValue)>) -> Seq<(Seq<char>, ValueModel)> {
    Seq::new(s.len(), |i: int| (s[i].0@, s[i].1@))
}

/// The value-synchronization list of a control list from index `i` on: for
/// every control carrying a synchronization name, in list order, the pair of
/// that name and the control's current value. Writing the pairs in this
/// order makes the last-listed control win when two share a name.
pub open spec fn spec_sync_pairs_from(cs: Seq<ControlModel>, i: int) -> Seq<(Seq<char>, ValueModel)>
    decreases cs.len() - i,
{
    if i < 0 || i >= cs.len() {
        Seq::empty()
    } else {
        let rest = spec_sync_pairs_from(cs, i + 1);
        match (spec_name(cs[i]), spec_current_value(cs[i])) {
            (Some(n), Some(v)) => seq![(n, v)] + rest,
            _ => rest,
        }
    }
}

/// The value-synchronization list of a whole control list.
pub open spec fn spec_sync_pairs(cs: Seq<ControlModel>) -> Seq<(Seq<char>, ValueModel)> {
    spec_sync_pairs_from(cs, 0)
}

/// When two controls share a synchronization name, both writes happen and
/// the later-listed control's write comes second: last-parsed wins in the
/// script's global namespace.
pub proof fn lemma_sync_last_write_wins(
    c0: ControlModel,
    c1: ControlModel,
    n: Seq<char>,
    v0: ValueModel,
    v1: ValueModel,
)
    requires
        spec_name(c0) == Some(n),
        spec_current_value(c0) == Some(v0),
        spec_name(c1) == Some(n),
        spec_current_value(c1) == Some(v1),
    ensures
        spec_sync_pairs(seq![c0, c1]) == seq![(n, v0), (n, v1)],
{
    let s = seq![c0, c1];
    assert(spec_sync_pairs_from(s, 2) =~= Seq::<(Seq<char>, ValueModel)>::empty());
    assert(spec_sync_pairs_from(s, 1) =~= seq![(n, v1)]);
    assert(spec_sync_pairs_from(s, 0) =~= seq![(n, v0), (n, v1)]);
}

fn sync_pairs_from(controls: &Vec<Control>, i: usize) -> (r: Vec<(String, ScriptValue)>)
    ensures
        pair_views(r@) == spec_sync_pairs_from(control_views(controls@), i as int),
    decreases controls@.len() - i,
{
    if i >= controls.len() {
        let r: Vec<(String, ScriptValue)> = Vec::new();
        proof {
            assert(pair_views(r@) =~= Seq::<(Seq<char>, ValueModel)>::empty());
        }
        r
    } else {
        let mut rest = sync_pairs_from(controls, i + 1);
        let name = controls[i].get_name();
        let value = controls[i].current_value();
        match (name, value) {
            (Some(n), Some(v)) => {
                let ghost nm = n@;
                let ghost vm = v@;
                let ghost restm = pair_views(rest@);
                rest.insert(0, (n, v));
                proof {
                    assert(pair_views(rest@) =~= seq![(nm, vm)] + restm);
                }
                rest
            },
            _ => rest,
        }
    }
}

/// The value-synchronization list of a control list: for every control with
/// a synchronization name, in order, its name paired with its current value.
pub fn sync_pairs(controls: &Vec<Control>) -> (r: Vec<(String, ScriptValue)>)
    ensures
        pair_views(r@) == spec_sync_pairs(control_views(controls@)),
{
    sync_pairs_from(controls, 0)
}

/// Reads the first [`SCAN_LIMIT`] positional slots of one descriptor into
/// plain values; slots past the stored table read as `Nil`.
fn read_fields(t: &mlua::Table) -> (r: Vec<ScriptValue>)
    ensures
        r@.len() == SCAN_LIMIT as int,
{
    let mut out: Vec<ScriptValue> = Vec::new();
    let mut pos: usize = 1;
    while pos <= SCAN_LIMIT
        invariant
            1 <= pos <= SCAN_LIMIT + 1,
            out@.len() == pos - 1,
        decreases SCAN_LIMIT + 1 - pos,
    {
        out.push(table_pos(t, pos as i64));
        pos = pos + 1;
    }
    out
}

/// Calls the script's `get_controls` and reduces the returned table to plain
/// entries, in the runtime's traversal order.
fn fetch_entries(lua: &mlua::Lua) -> (r: Result<Vec<TableEntry>, ScriptError>) {
    let table = match lua_call_table(lua, "get_controls") {
        Ok(t) => t,
        Err(e) => { return Err(e) },
    };
    let raw = match table_entry_list(&table) {
        Ok(v) => v,
        Err(e) => { return Err(e) },
    };
    let mut out: Vec<TableEntry> = Vec::new();
    let mut i: usize = 0;
    while i < raw.len()
        decreases raw@.len() - i,
    {
        let fields = read_fields(&raw[i].1);
        out.push(TableEntry { key: raw[i].0.clone(), fields });
        i = i + 1;
    }
    Ok(out)
}

impl LuaGenerator {
    /// The models of the current control list.
    pub open spec fn models(&self) -> Seq<ControlModel> {
        control_views(self.controls@)
    }

    /// A fresh generator for the script at the given source path: a new,
    /// isolated interpreter, no controls, nothing loaded yet.
    pub fn new(script_path: &str) -> (r: LuaGenerator)
        ensures
            r.script@ == script_path@,
            r.script_data@ == Seq::<char>::empty(),
            r.controls@.len() == 0,
            !r.loaded,
            r.error is None,
    {
        LuaGenerator {
            lua: lua_new(),
            script: script_path.to_owned(),
            script_data: String::new(),
            controls: Vec::new(),
            loaded: false,
            error: None,
        }
    }

    /// Executes the script text once at top level. Loading is one-shot: once
    /// `loaded` is set, a second call changes nothing and reports success. A
    /// failure disables the generator and is reported as a load error.
    pub fn load(&mut self, source_text: &str) -> (r: Result<(), ScriptError>)
        ensures
            final(self).lua == old(self).lua,
            final(self).script == old(self).script,
            final(self).controls == old(self).controls,
            final(self).loaded,
            old(self).loaded ==> *final(self) == *old(self) && r is Ok,
            !old(self).loaded ==> final(self).script_data@ == source_text@,
            r matches Err(e) ==> e == ScriptError::Load && final(self).error == Some(
                GeneratorError::Script(ScriptError::Load),
            ),
            r is Ok && !old(self).loaded ==> final(self).error == old(self).error,
    {
        if self.loaded {
            return Ok(());
        }
        self.loaded = true;
        self.script_data = source_text.to_owned();
        match lua_exec(&self.lua, source_text) {
            Ok(u) => Ok(u),
            Err(_) => {
                self.error = Some(GeneratorError::Script(ScriptError::Load));
                Err(ScriptError::Load)
            },
        }
    }

    /// Reads one script global as plain data.
    pub fn read_global(&self, name: &str) -> (r: ScriptValue) {
        lua_get_global(&self.lua, name)
    }

    /// Writes one plain value into a script global.
    pub fn write_global(&self, name: &str, v: &ScriptValue) -> (r: Result<(), ScriptError>) {
        set_global_value(&self.lua, name, v)
    }

    /// Writes every named control's current value into the script global of
    /// the same name, in list order, so the last of two same-named controls
    /// wins. Returns the first write failure, after attempting the rest.
    pub fn sync_globals(&self) -> (r: Option<ScriptError>) {
        let pairs = sync_pairs(&self.controls);
        let mut err: Option<ScriptError> = None;
        let mut i: usize = 0;
        while i < pairs.len()
            decreases pairs@.len() - i,
        {
            match set_global_value(&self.lua, pairs[i].0.as_str(), &pairs[i].1) {
                Ok(u) => u,
                Err(e) => {
                    if err.is_none() {
                        err = Some(e);
                    }
                },
            }
            i = i + 1;
        }
        err
    }

    /// One frame's tick for this generator: synchronize every named
    /// control's current value into the script's globals, then invoke the
    /// script's `tick`. The control list is never changed here. A failure
    /// disables the generator and is returned.
    pub fn tick_step(&mut self) -> (r: Option<ScriptError>)
        ensures
            final(self).lua == old(self).lua,
            final(self).script == old(self).script,
            final(self).script_data == old(self).script_data,
            final(self).loaded == old(self).loaded,
            final(self).controls == old(self).controls,
            r is None ==> final(self).error == old(self).error,
            r is Some ==> final(self).error is Some,
    {
        if let Some(e) = self.sync_globals() {
            self.error = Some(GeneratorError::Script(e));
            return Some(e);
        }
        match crate::runtime::lua_call_unit(&self.lua, "tick") {
            Ok(u) => None,
            Err(e) => {
                self.error = Some(GeneratorError::Script(e));
                Some(e)
            },
        }
    }

    /// One frame's rebuild step, with `counter` the identity-slot counter
    /// before this generator.
    ///
    /// Asks the script's `controls_changed`. If it answers false, the
    /// control list is left untouched and the counter advances by a fixed
    /// stride of 100, preserving unique identity numbering for this
    /// generator's slot. If it answers true, `get_controls` is called, the
    /// returned table parsed, and on success the old control list is
    /// discarded and fully replaced, every named new control's value written
    /// back into the script's globals at once; the counter advances by one
    /// per table entry visited, skipped entries included. On any failure the
    /// previous control list is retained, the counter is left as it was, and
    /// the generator is disabled.
    pub fn frame_rebuild(&mut self, counter: usize) -> (r: RebuildReport)
        ensures
            final(self).lua == old(self).lua,
            final(self).script == old(self).script,
            final(self).script_data == old(self).script_data,
            final(self).loaded == old(self).loaded,
            !r.changed ==> final(self).controls == old(self).controls,
            r.error is None && !r.changed ==> r.next_counter == sat_add(counter, 100)
                && r.entries@.len() == 0,
            r.error is None && r.changed ==> spec_parse_table(entry_views(r.entries@), counter)
                == Ok::<Seq<ControlModel>, ShapeErrorModel>(final(self).models())
                && r.next_counter == sat_add(counter, r.entries@.len()),
            r.error is Some ==> final(self).controls == old(self).controls && final(self).error
                is Some && r.next_counter == counter,
            r.error matches Some(GeneratorError::Shape(e)) ==> r.changed && spec_parse_table(
                entry_views(r.entries@),
                counter,
            ) == Err::<Seq<ControlModel>, ShapeErrorModel>(e@),
    {
        let changed = match lua_call_bool(&self.lua, "controls_changed") {
            Ok(b) => b,
            Err(e) => {
                self.error = Some(GeneratorError::Script(e));
                return RebuildReport {
                    changed: false,
                    entries: Vec::new(),
                    error: Some(GeneratorError::Script(e)),
                    next_counter: counter,
                };
            },
        };
        if !changed {
            return RebuildReport {
                changed: false,
                entries: Vec::new(),
                error: None,
                next_counter: sat_add_usize(counter, 100),
            };
        }
        let entries = match fetch_entries(&self.lua) {
            Ok(es) => es,
            Err(e) => {
                self.error = Some(GeneratorError::Script(e));
                return RebuildReport {
                    changed: true,
                    entries: Vec::new(),
                    error: Some(GeneratorError::Script(e)),
                    next_counter: counter,
                };
            },
        };
        match parse_table(&entries, counter) {
            Ok(new_controls) => {
                let next_counter = sat_add_usize(counter, entries.len());
                self.controls = new_controls;
                if let Some(e) = self.sync_globals() {
                    // The new list stands; only the generator is flagged.
                    self.error = Some(GeneratorError::Script(e));
                }
                RebuildReport { changed: true, entries, error: None, next_counter }
            },
            Err(e) => {
                let report_err = GeneratorError::Shape(e.clone());
                self.error = Some(GeneratorError::Shape(e));
                RebuildReport {
                    changed: true,
                    entries,
                    error: Some(report_err),
                    next_counter: counter,
                }
            },
        }
    }
}

} // verus!
