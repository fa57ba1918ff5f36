//! The control handler: an ordered list of generators, the per-frame drive
//! of their tick and rebuild cycle, and the aggregation of the five
//! code-generation phases across all generators in list order.

use vstd::prelude::*;
use vstd::string::StringExecFns;

use crate::controls::string_views;
use crate::errors::GeneratorError;
use crate::generator::LuaGenerator;
use crate::parse::sat_add_usize;
use crate::runtime::lua_call_string;

verus! {

/// Whether `b` is the generator `a` with, at most, its error flag and its
/// control list changed: the interpreter, source identity and loaded state
/// are untouched.
pub open spec fn same_setup(a: LuaGenerator, b: LuaGenerator) -> bool {
    &&& b.lua == a.lua
    &&& b.script == a.script
    &&& b.script_data == a.script_data
    &&& b.loaded == a.loaded
}

pub open spec fn gens_same_setup(a: Seq<LuaGenerator>, b: Seq<LuaGenerator>) -> bool {
    &&& b.len() == a.len()
    &&& forall|j: int| 0 <= j < a.len() ==> same_setup(a[j], #[trigger] b[j])
}

pub open spec fn gens_same_controls(a: Seq<LuaGenerator>, b: Seq<LuaGenerator>) -> bool {
    &&& b.len() == a.len()
    &&& forall|j: int| 0 <= j < a.len() ==> (#[trigger] b[j]).controls == a[j].controls
}

/// The concatenation of text fragments from index `i` on, in order, with
/// nothing inserted between them.
pub open spec fn spec_concat_from(parts: Seq<Seq<char>>, i: int) -> Seq<char>
    decreases parts.len() - i,
{
    if i < 0 || i >= parts.len() {
        Seq::empty()
    } else {
        parts[i] + spec_concat_from(parts, i + 1)
    }
}

/// The concatenation of text fragments in order, with nothing between them.
pub open spec fn spec_concat(parts: Seq<Seq<char>>) -> Seq<char> {
    spec_concat_from(parts, 0)
}

/// Concatenates text fragments in order, with no separator inserted: the
/// result is the first fragment, then the second, and so on. An empty
/// fragment contributes nothing but is not dropped from the order.
pub fn concat_fragments(parts: &Vec<String>) -> (r: String)
    ensures
        r@ == spec_concat(string_views(parts@)),
{
    let ghost views = string_views(parts@);
    let mut out = String::new();
    let mut i: usize = 0;
    while i < parts.len()
        invariant
            i <= parts@.len(),
            views == string_views(parts@),
            out@ + spec_concat_from(views, i as int) == spec_concat(views),
        decreases parts@.len() - i,
    {
        let ghost before = out@;
        out.append(parts[i].as_str());
        proof {
            assert(out@ + spec_concat_from(views, i + 1) =~= before + spec_concat_from(
                views,
                i as int,
            ));
        }
        i = i + 1;
    }
    proof {
        assert(out@ + spec_concat_from(views, i as int) =~= out@);
    }
    out
}

/// Concatenation is order-stable: three fragments aggregate to the first,
/// then the second, then the third, with no separator between them.
pub proof fn lemma_concat_order(a: Seq<char>, b: Seq<char>, c: Seq<char>)
    ensures
        spec_concat(seq![a, b, c]) == a + b + c,
{
    let s = seq![a, b, c];
    assert(spec_concat_from(s, 3) =~= Seq::<char>::empty());
    assert(spec_concat_from(s, 2) =~= c);
    assert(spec_concat_from(s, 1) =~= b + c);
    assert(spec_concat_from(s, 0) =~= a + b + c);
}

/// The ordered collection of generators. Insertion order is significant: it
/// fixes both the order controls stack in the UI and the order in which the
/// code-generation phases concatenate.
pub struct ControlHandler {
    pub generators: Vec<LuaGenerator>,
}

impl ControlHandler {
    /// A handler with no generators.
    pub fn new() -> (r: ControlHandler)
        ensures
            r.generators@.len() == 0,
    {
        ControlHandler { generators: Vec::new() }
    }

    /// Appends a generator; it will be visited after all earlier ones.
    pub fn add_generator(&mut self, g: LuaGenerator)
        ensures
            final(self).generators@ == old(self).generators@.push(g),
    {
        self.generators.push(g);
    }

    /// The tick phase of one frame: for every loaded, unflagged generator in
    /// order, synchronize its control values into its script's globals and
    /// invoke the script's `tick`. No control list is changed; a failing
    /// generator is flagged and the rest still run.
    pub fn tick_lua(&mut self)
        ensures
            gens_same_setup(old(self).generators@, final(self).generators@),
            gens_same_controls(old(self).generators@, final(self).generators@),
    {
        let n = self.generators.len();
        let mut i: usize = 0;
        while i < n
            invariant
                i <= n,
                n == self.generators@.len(),
                gens_same_setup(old(self).generators@, self.generators@),
                gens_same_controls(old(self).generators@, self.generators@),
            decreases n - i,
        {
            let g = &mut self.generators[i];
            if g.loaded && g.error.is_none() {
                let _ = g.tick_step();
            }
            i = i + 1;
        }
    }

    /// The rebuild phase of one frame: for every loaded, unflagged generator
    /// in order, ask its script whether the controls changed and rebuild its
    /// control list if so. The identity-slot counter starts at zero and is
    /// carried across generators: a generator that rebuilds advances it by
    /// one per table entry visited, one that does not (or is skipped)
    /// advances it by the fixed stride of 100, so identity numbering stays
    /// unique across generators that rebuild on different frames.
    pub fn add_controls(&mut self)
        ensures
            gens_same_setup(old(self).generators@, final(self).generators@),
    {
        let n = self.generators.len();
        let mut counter: usize = 0;
        let mut i: usize = 0;
        while i < n
            invariant
                i <= n,
                n == self.generators@.len(),
                gens_same_setup(old(self).generators@, self.generators@),
            decreases n - i,
        {
            let g = &mut self.generators[i];
            if g.loaded && g.error.is_none() {
                let report = g.frame_rebuild(counter);
                counter = report.next_counter;
            } else {
                counter = sat_add_usize(counter, 100);
            }
            i = i + 1;
        }
    }

    /// Calls the named zero-argument, text-returning script function on
    /// every loaded, unflagged generator in list order and collects the
    /// fragments. A generator whose call fails is flagged and contributes no
    /// fragment; the remaining generators are still attempted, so one broken
    /// script never blanks the others' output.
    fn collect_phase(&mut self, name: &str) -> (r: Vec<String>)
        ensures
            gens_same_setup(old(self).generators@, final(self).generators@),
            gens_same_controls(old(self).generators@, final(self).generators@),
    {
        let n = self.generators.len();
        let mut parts: Vec<String> = Vec::new();
        let mut i: usize = 0;
        while i < n
            invariant
                i <= n,
                n == self.generators@.len(),
                gens_same_setup(old(self).generators@, self.generators@),
                gens_same_controls(old(self).generators@, self.generators@),
            decreases n - i,
        {
            let g = &mut self.generators[i];
            if g.loaded && g.error.is_none() {
                match lua_call_string(&g.lua, name) {
                    Ok(s) => parts.push(s),
                    Err(e) => { g.error = Some(GeneratorError::Script(e)) },
                }
            }
            i = i + 1;
        }
        parts
    }

    /// The include section: every generator's `generate_includes` output,
    /// concatenated in list order with nothing inserted.
    pub fn generate_includes(&mut self) -> (r: String)
        ensures
            gens_same_setup(old(self).generators@, final(self).generators@),
            gens_same_controls(old(self).generators@, final(self).generators@),
    {
        let parts = self.collect_phase("generate_includes");
        concat_fragments(&parts)
    }

    /// The init section: every generator's `generate_init` output,
    /// concatenated in list order with nothing inserted.
    pub fn generate_init(&mut self) -> (r: String)
        ensures
            gens_same_setup(old(self).generators@, final(self).generators@),
            gens_same_controls(old(self).generators@, final(self).generators@),
    {
        let parts = self.collect_phase("generate_init");
        concat_fragments(&parts)
    }

    /// The globals section: every generator's `generate_globals` output,
    /// concatenated in list order with nothing inserted.
    pub fn generate_globals(&mut self) -> (r: String)
        ensures
            gens_same_setup(old(self).generators@, final(self).generators@),
            gens_same_controls(old(self).generators@, final(self).generators@),
    {
        let parts = self.collect_phase("generate_globals");
        concat_fragments(&parts)
    }

    /// The one-time loop setup section: every generator's
    /// `generate_loop_one_time_setup` output, concatenated in list order
    /// with nothing inserted.
    pub fn generate_loop_one_time_setup(&mut self) -> (r: String)
        ensures
            gens_same_setup(old(self).generators@, final(self).generators@),
            gens_same_controls(old(self).generators@, final(self).generators@),
    {
        let parts = self.collect_phase("generate_loop_one_time_setup");
        concat_fragments(&parts)
    }

    /// The loop body section: every generator's `generate_loop` output,
    /// concatenated in list order with nothing inserted.
    pub fn generate_loop(&mut self) -> (r: String)
        ensures
            gens_same_setup(old(self).generators@, final(self).generators@),
            gens_same_controls(old(self).generators@, final(self).generators@),
    {
        let parts = self.collect_phase("generate_loop");
        concat_fragments(&parts)
    }
}

} // verus!
