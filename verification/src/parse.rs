//! The control-table parser: turns one dynamic descriptor table, already
//! reduced to plain [`TableEntry`] values, into an ordered list of typed
//! [`Control`] values, validating the shape of every entry against its
//! declared type tag.

use vstd::prelude::*;

use crate::controls::{
    CheckboxInput, CheckboxModel, ComboBoxInput, ComboBoxModel, Control, ControlModel, Slider,
    SliderModel, TextInput, TextInputModel, control_views, string_views,
};
use crate::errors::{ControlShapeError, FieldKind, ShapeErrorModel};
use crate::values::{
    EntryModel, NumValue, ScriptValue, TableEntry, ValueModel, as_num, as_text, as_whole,
    entry_views, field_at, value_views,
};

verus! {

/// Equality of a string and a literal, decided by their character content.
pub fn string_eq(a: &String, b: &str) -> (r: bool)
    ensures
        r == (a@ == b@),
{
    let b2: String = b.to_owned();
    *a == b2
}

/// The highest 1-based descriptor position the parser ever reads. A combo
/// box's entry list is scanned from position 5 up to at most this position,
/// so that a malformed table can never cause an unbounded walk; the bound is
/// part of the descriptor protocol's documented contract.
pub const SCAN_LIMIT: usize = 49;

/// Identity-slot arithmetic: adding beyond the greatest representable slot
/// saturates instead of wrapping, so slot numbers never collide by overflow.
pub open spec fn sat_add(a: usize, b: nat) -> usize {
    if a + b > usize::MAX {
        usize::MAX
    } else {
        (a + b) as usize
    }
}

/// Saturating addition of two identity-slot counters.
pub fn sat_add_usize(a: usize, b: usize) -> (r: usize)
    ensures
        r == sat_add(a, b as nat),
{
    if a <= usize::MAX - b {
        a + b
    } else {
        usize::MAX
    }
}

/// A whole-number descriptor field that must also fit a `usize`.
pub open spec fn whole_in_usize(v: ValueModel) -> Option<usize> {
    match as_whole(v) {
        Some(d) => if 0 <= d && d <= usize::MAX {
            Some(d as usize)
        } else {
            None
        },
        None => None,
    }
}

pub open spec fn shape_err(key: Seq<char>, tag: Seq<char>, field: usize, expected: FieldKind) -> ShapeErrorModel {
    ShapeErrorModel { key, tag, field, expected }
}

/// The shape of a `Slider` descriptor: positions 2 to 8 hold name, label,
/// minimum, maximum, value, step and decimal places, in that fixed order.
/// The first field that fails to coerce aborts the entry with its position.
pub open spec fn spec_parse_slider(key: Seq<char>, tag: Seq<char>, fields: Seq<ValueModel>) -> Result<ControlModel, ShapeErrorModel> {
    if as_text(field_at(fields, 2)) is None {
        Err(shape_err(key, tag, 2, FieldKind::Text))
    } else if as_text(field_at(fields, 3)) is None {
        Err(shape_err(key, tag, 3, FieldKind::Text))
    } else if as_num(field_at(fields, 4)) is None {
        Err(shape_err(key, tag, 4, FieldKind::Number))
    } else if as_num(field_at(fields, 5)) is None {
        Err(shape_err(key, tag, 5, FieldKind::Number))
    } else if as_num(field_at(fields, 6)) is None {
        Err(shape_err(key, tag, 6, FieldKind::Number))
    } else if as_num(field_at(fields, 7)) is None {
        Err(shape_err(key, tag, 7, FieldKind::Number))
    } else if whole_in_usize(field_at(fields, 8)) is None {
        Err(shape_err(key, tag, 8, FieldKind::Whole))
    } else {
        Ok(ControlModel::Slider(SliderModel {
            name: as_text(field_at(fields, 2)).unwrap(),
            label: as_text(field_at(fields, 3)).unwrap(),
            min: as_num(field_at(fields, 4)).unwrap(),
            max: as_num(field_at(fields, 5)).unwrap(),
            value: as_num(field_at(fields, 6)).unwrap(),
            step_by: as_num(field_at(fields, 7)).unwrap(),
            decimals: whole_in_usize(field_at(fields, 8)).unwrap(),
            keybinding: None,
        }))
    }
}

/// The shape of a `TextInput` descriptor: positions 2 to 4 hold name, label
/// and the current text.
pub open spec fn spec_parse_text_input(key: Seq<char>, tag: Seq<char>, fields: Seq<ValueModel>) -> Result<ControlModel, ShapeErrorModel> {
    if as_text(field_at(fields, 2)) is None {
        Err(shape_err(key, tag, 2, FieldKind::Text))
    } else if as_text(field_at(fields, 3)) is None {
        Err(shape_err(key, tag, 3, FieldKind::Text))
    } else if as_text(field_at(fields, 4)) is None {
        Err(shape_err(key, tag, 4, FieldKind::Text))
    } else {
        Ok(ControlModel::TextInput(TextInputModel {
            name: as_text(field_at(fields, 2)).unwrap(),
            label: as_text(field_at(fields, 3)).unwrap(),
            value: as_text(field_at(fields, 4)).unwrap(),
        }))
    }
}

/// The entry strings of a `ComboBox` descriptor: the maximal run of string
/// values starting at position 5, stopped by the first missing or non-string
/// position and bounded at [`SCAN_LIMIT`].
pub open spec fn combo_entries(fields: Seq<ValueModel>, pos: int) -> Seq<Seq<char>>
    decreases SCAN_LIMIT + 1 - pos,
{
    if pos < 5 || pos > SCAN_LIMIT {
        Seq::empty()
    } else {
        match as_text(field_at(fields, pos)) {
            Some(s) => seq![s] + combo_entries(fields, pos + 1),
            None => Seq::empty(),
        }
    }
}

/// The shape of a `ComboBox` descriptor: positions 2 to 4 hold name, label
/// and the selected entry; positions 5 onward hold the entry strings, scanned
/// as [`combo_entries`] says. `id` is the identity slot the entry occupies.
pub open spec fn spec_parse_combo(key: Seq<char>, tag: Seq<char>, fields: Seq<ValueModel>, id: usize) -> Result<ControlModel, ShapeErrorModel> {
    if as_text(field_at(fields, 2)) is None {
        Err(shape_err(key, tag, 2, FieldKind::Text))
    } else if as_text(field_at(fields, 3)) is None {
        Err(shape_err(key, tag, 3, FieldKind::Text))
    } else if as_text(field_at(fields, 4)) is None {
        Err(shape_err(key, tag, 4, FieldKind::Text))
    } else {
        Ok(ControlModel::ComboBox(ComboBoxModel {
            name: as_text(field_at(fields, 2)).unwrap(),
            label: as_text(field_at(fields, 3)).unwrap(),
            value: as_text(field_at(fields, 4)).unwrap(),
            id: id,
            entries: combo_entries(fields, 5),
        }))
    }
}

/// The shape of a `Checkbox` descriptor: positions 2 to 4 hold name, label
/// and a whole number whose equality to 1 gives the boolean value.
pub open spec fn spec_parse_checkbox(key: Seq<char>, tag: Seq<char>, fields: Seq<ValueModel>) -> Result<ControlModel, ShapeErrorModel> {
    if as_text(field_at(fields, 2)) is None {
        Err(shape_err(key, tag, 2, FieldKind::Text))
    } else if as_text(field_at(fields, 3)) is None {
        Err(shape_err(key, tag, 3, FieldKind::Text))
    } else if as_whole(field_at(fields, 4)) is None {
        Err(shape_err(key, tag, 4, FieldKind::Whole))
    } else {
        Ok(ControlModel::Checkbox(CheckboxModel {
            name: as_text(field_at(fields, 2)).unwrap(),
            label: as_text(field_at(fields, 3)).unwrap(),
            value: as_whole(field_at(fields, 4)).unwrap() == 1,
        }))
    }
}

/// The shape of a `Label` descriptor: position 2 holds the display text.
pub open spec fn spec_parse_label(key: Seq<char>, tag: Seq<char>, fields: Seq<ValueModel>) -> Result<ControlModel, ShapeErrorModel> {
    if as_text(field_at(fields, 2)) is None {
        Err(shape_err(key, tag, 2, FieldKind::Text))
    } else {
        Ok(ControlModel::Label(as_text(field_at(fields, 2)).unwrap()))
    }
}

pub open spec fn lift(r: Result<ControlModel, ShapeErrorModel>) -> Result<Option<ControlModel>, ShapeErrorModel> {
    match r {
        Ok(c) => Ok(Some(c)),
        Err(e) => Err(e),
    }
}

/// One descriptor entry, dispatched on its type tag at position 1.
///
/// An entry whose position 1 is missing or not a string, and an entry whose
/// tag is a string the host does not know, parse to `Ok(None)`: they are
/// skipped without error, so control kinds introduced by newer scripts do not
/// break this host. A recognized tag with a malformed field aborts with a
/// [`ShapeErrorModel`] naming the field. `id` is the identity slot the entry
/// occupies while the table is walked.
pub open spec fn spec_parse_entry(key: Seq<char>, fields: Seq<ValueModel>, id: usize) -> Result<Option<ControlModel>, ShapeErrorModel> {
    match as_text(field_at(fields, 1)) {
        None => Ok(None),
        Some(tag) => if tag == "Slider"@ {
            lift(spec_parse_slider(key, tag, fields))
        } else if tag == "TextInput"@ {
            lift(spec_parse_text_input(key, tag, fields))
        } else if tag == "ComboBox"@ {
            lift(spec_parse_combo(key, tag, fields, id))
        } else if tag == "Checkbox"@ {
            lift(spec_parse_checkbox(key, tag, fields))
        } else if tag == "Label"@ {
            lift(spec_parse_label(key, tag, fields))
        } else if tag == "Separator"@ {
            Ok(Some(ControlModel::Separator))
        } else if tag == "Spacer"@ {
            Ok(Some(ControlModel::Spacer))
        } else {
            Ok(None)
        },
    }
}

/// The whole descriptor table from entry `i` on, with `counter` the identity
/// slot counter before entry `i` is visited. Every entry visited advances the
/// counter by one, skipped entries included; the first malformed entry aborts
/// the whole table with its error.
pub open spec fn spec_parse_from(entries: Seq<EntryModel>, i: int, counter: usize) -> Result<Seq<ControlModel>, ShapeErrorModel>
    decreases entries.len() - i,
{
    if i < 0 || i >= entries.len() {
        Ok(Seq::empty())
    } else {
        let id = sat_add(counter, 1);
        match spec_parse_entry(entries[i].key, entries[i].fields, id) {
            Err(e) => Err(e),
            Ok(opt) => match spec_parse_from(entries, i + 1, id) {
                Err(e) => Err(e),
                Ok(rest) => Ok(
                    match opt {
                        Some(c) => seq![c] + rest,
                        None => rest,
                    },
                ),
            },
        }
    }
}

/// A whole descriptor table, visited in entry order starting at identity
/// slot counter `counter`.
pub open spec fn spec_parse_table(entries: Seq<EntryModel>, counter: usize) -> Result<Seq<ControlModel>, ShapeErrorModel> {
    spec_parse_from(entries, 0, counter)
}

fn mk_err(entry: &TableEntry, tag: &String, field: usize, expected: FieldKind) -> (r: ControlShapeError)
    ensures
        r@ == shape_err(entry@.key, tag@, field, expected),
{
    ControlShapeError { key: entry.key.clone(), tag: tag.clone(), field, expected }
}

fn parse_slider(entry: &TableEntry, tag: &String) -> (r: Result<Control, ControlShapeError>)
    ensures
        match r {
            Ok(c) => spec_parse_slider(entry@.key, tag@, entry@.fields) == Ok::<
                ControlModel,
                ShapeErrorModel,
            >(c@),
            Err(e) => spec_parse_slider(entry@.key, tag@, entry@.fields) == Err::<
                ControlModel,
                ShapeErrorModel,
            >(e@),
        },
{
    let name = match entry.field(2).text() {
        Some(s) => s,
        None => { return Err(mk_err(entry, tag, 2, FieldKind::Text)) },
    };
    let label = match entry.field(3).text() {
        Some(s) => s,
        None => { return Err(mk_err(entry, tag, 3, FieldKind::Text)) },
    };
    let min = match entry.field(4).numeric() {
        Some(n) => n,
        None => { return Err(mk_err(entry, tag, 4, FieldKind::Number)) },
    };
    let max = match entry.field(5).numeric() {
        Some(n) => n,
        None => { return Err(mk_err(entry, tag, 5, FieldKind::Number)) },
    };
    let value = match entry.field(6).numeric() {
        Some(n) => n,
        None => { return Err(mk_err(entry, tag, 6, FieldKind::Number)) },
    };
    let step_by = match entry.field(7).numeric() {
        Some(n) => n,
        None => { return Err(mk_err(entry, tag, 7, FieldKind::Number)) },
    };
    let decimals = match entry.field(8).whole() {
        Some(d) => if d >= 0 && (d as u64) <= (usize::MAX as u64) {
            d as usize
        } else {
            return Err(mk_err(entry, tag, 8, FieldKind::Whole));
        },
        None => { return Err(mk_err(entry, tag, 8, FieldKind::Whole)) },
    };
    Ok(Control::SliderType(Slider { name, label, min, max, value, step_by, decimals, keybinding: None }))
}

fn parse_text_input(entry: &TableEntry, tag: &String) -> (r: Result<Control, ControlShapeError>)
    ensures
        match r {
            Ok(c) => spec_parse_text_input(entry@.key, tag@, entry@.fields) == Ok::<
                ControlModel,
                ShapeErrorModel,
            >(c@),
            Err(e) => spec_parse_text_input(entry@.key, tag@, entry@.fields) == Err::<
                ControlModel,
                ShapeErrorModel,
            >(e@),
        },
{
    let name = match entry.field(2).text() {
        Some(s) => s,
        None => { return Err(mk_err(entry, tag, 2, FieldKind::Text)) },
    };
    let label = match entry.field(3).text() {
        Some(s) => s,
        None => { return Err(mk_err(entry, tag, 3, FieldKind::Text)) },
    };
    let value = match entry.field(4).text() {
        Some(s) => s,
        None => { return Err(mk_err(entry, tag, 4, FieldKind::Text)) },
    };
    Ok(Control::TextInputType(TextInput { name, label, value }))
}

fn parse_combo(entry: &TableEntry, tag: &String, id: usize) -> (r: Result<Control, ControlShapeError>)
    ensures
        match r {
            Ok(c) => spec_parse_combo(entry@.key, tag@, entry@.fields, id) == Ok::<
                ControlModel,
                ShapeErrorModel,
            >(c@),
            Err(e) => spec_parse_combo(entry@.key, tag@, entry@.fields, id) == Err::<
                ControlModel,
                ShapeErrorModel,
            >(e@),
        },
{
    let name = match entry.field(2).text() {
        Some(s) => s,
        None => { return Err(mk_err(entry, tag, 2, FieldKind::Text)) },
    };
    let label = match entry.field(3).text() {
        Some(s) => s,
        None => { return Err(mk_err(entry, tag, 3, FieldKind::Text)) },
    };
    let value = match entry.field(4).text() {
        Some(s) => s,
        None => { return Err(mk_err(entry, tag, 4, FieldKind::Text)) },
    };
    let mut entries: Vec<String> = Vec::new();
    let mut pos: usize = 5;
    let mut stopped: bool = false;
    while pos <= SCAN_LIMIT && !stopped
        invariant
            5 <= pos <= SCAN_LIMIT + 1,
            !stopped ==> combo_entries(entry@.fields, 5) == string_views(entries@)
                + combo_entries(entry@.fields, pos as int),
            stopped ==> combo_entries(entry@.fields, 5) == string_views(entries@),
        decreases SCAN_LIMIT + 1 - pos + (if stopped { 0int } else { 1int }),
    {
        match entry.field(pos).text() {
            Some(s) => {
                let ghost before = entries@;
                entries.push(s);
                pos = pos + 1;
                proof {
                    assert(string_views(entries@) =~= string_views(before) + seq![s@]);
                }
            },
            None => {
                stopped = true;
                proof {
                    assert(combo_entries(entry@.fields, pos as int) =~= Seq::empty());
                }
            },
        }
    }
    proof {
        if !stopped {
            assert(combo_entries(entry@.fields, pos as int) =~= Seq::empty());
        }
        assert(combo_entries(entry@.fields, 5) =~= string_views(entries@));
    }
    Ok(Control::ComboBoxType(ComboBoxInput { name, label, value, id, entries }))
}

fn parse_checkbox(entry: &TableEntry, tag: &String) -> (r: Result<Control, ControlShapeError>)
    ensures
        match r {
            Ok(c) => spec_parse_checkbox(entry@.key, tag@, entry@.fields) == Ok::<
                ControlModel,
                ShapeErrorModel,
            >(c@),
            Err(e) => spec_parse_checkbox(entry@.key, tag@, entry@.fields) == Err::<
                ControlModel,
                ShapeErrorModel,
            >(e@),
        },
{
    let name = match entry.field(2).text() {
        Some(s) => s,
        None => { return Err(mk_err(entry, tag, 2, FieldKind::Text)) },
    };
    let label = match entry.field(3).text() {
        Some(s) => s,
        None => { return Err(mk_err(entry, tag, 3, FieldKind::Text)) },
    };
    let raw = match entry.field(4).whole() {
        Some(i) => i,
        None => { return Err(mk_err(entry, tag, 4, FieldKind::Whole)) },
    };
    Ok(Control::CheckboxType(CheckboxInput { name, label, value: raw == 1 }))
}

fn parse_label(entry: &TableEntry, tag: &String) -> (r: Result<Control, ControlShapeError>)
    ensures
        match r {
            Ok(c) => spec_parse_label(entry@.key, tag@, entry@.fields) == Ok::<
                ControlModel,
                ShapeErrorModel,
            >(c@),
            Err(e) => spec_parse_label(entry@.key, tag@, entry@.fields) == Err::<
                ControlModel,
                ShapeErrorModel,
            >(e@),
        },
{
    match entry.field(2).text() {
        Some(s) => Ok(Control::Label(s)),
        None => Err(mk_err(entry, tag, 2, FieldKind::Text)),
    }
}

/// One descriptor entry, dispatched on its type tag, with `id` the identity
/// slot the entry occupies. `Ok(None)` is a skipped entry: its tag is
/// missing, not a string, or unknown to this host.
pub fn parse_entry(entry: &TableEntry, id: usize) -> (r: Result<Option<Control>, ControlShapeError>)
    ensures
        ({
            let s = spec_parse_entry(entry@.key, entry@.fields, id);
            match r {
                Ok(Some(c)) => s == Ok::<Option<ControlModel>, ShapeErrorModel>(Some(c@)),
                Ok(None) => s == Ok::<Option<ControlModel>, ShapeErrorModel>(None),
                Err(e) => s == Err::<Option<ControlModel>, ShapeErrorModel>(e@),
            }
        }),
{
    let tag = match entry.field(1).text() {
        Some(s) => s,
        None => { return Ok(None) },
    };
    if string_eq(&tag, "Slider") {
        match parse_slider(entry, &tag) {
            Ok(c) => Ok(Some(c)),
            Err(e) => Err(e),
        }
    } else if string_eq(&tag, "TextInput") {
        match parse_text_input(entry, &tag) {
            Ok(c) => Ok(Some(c)),
            Err(e) => Err(e),
        }
    } else if string_eq(&tag, "ComboBox") {
        match parse_combo(entry, &tag, id) {
            Ok(c) => Ok(Some(c)),
            Err(e) => Err(e),
        }
    } else if string_eq(&tag, "Checkbox") {
        match parse_checkbox(entry, &tag) {
            Ok(c) => Ok(Some(c)),
            Err(e) => Err(e),
        }
    } else if string_eq(&tag, "Label") {
        match parse_label(entry, &tag) {
            Ok(c) => Ok(Some(c)),
            Err(e) => Err(e),
        }
    } else if string_eq(&tag, "Separator") {
        Ok(Some(Control::Separator))
    } else if string_eq(&tag, "Spacer") {
        Ok(Some(Control::Spacer))
    } else {
        Ok(None)
    }
}

fn parse_from(entries: &Vec<TableEntry>, i: usize, counter: usize) -> (r: Result<Vec<Control>, ControlShapeError>)
    ensures
        ({
            let s = spec_parse_from(entry_views(entries@), i as int, counter);
            match r {
                Ok(cs) => s == Ok::<Seq<ControlModel>, ShapeErrorModel>(control_views(cs@)),
                Err(e) => s == Err::<Seq<ControlModel>, ShapeErrorModel>(e@),
            }
        }),
    decreases entries@.len() - i,
{
    if i >= entries.len() {
        let r: Vec<Control> = Vec::new();
        proof {
            assert(control_views(r@) =~= Seq::<ControlModel>::empty());
        }
        Ok(r)
    } else {
        let id = sat_add_usize(counter, 1);
        match parse_entry(&entries[i], id) {
            Err(e) => Err(e),
            Ok(opt) => match parse_from(entries, i + 1, id) {
                Err(e) => Err(e),
                Ok(mut rest) => {
                    match opt {
                        Some(c) => {
                            let ghost cm = c@;
                            let ghost restm = control_views(rest@);
                            rest.insert(0, c);
                            proof {
                                assert(control_views(rest@) =~= seq![cm] + restm);
                            }
                            Ok(rest)
                        },
                        None => Ok(rest),
                    }
                },
            },
        }
    }
}

/// The primitive type a `Slider` descriptor expects at each of its
/// positions 2 to 8.
pub open spec fn slider_expected(pos: int) -> FieldKind {
    if pos == 2 || pos == 3 {
        FieldKind::Text
    } else if pos == 8 {
        FieldKind::Whole
    } else {
        FieldKind::Number
    }
}

/// Whether a `Slider` descriptor's field at one of positions 2 to 8 coerces
/// to the type that position expects.
pub open spec fn slider_field_ok(fields: Seq<ValueModel>, pos: int) -> bool {
    if pos == 2 || pos == 3 {
        as_text(field_at(fields, pos)) is Some
    } else if pos == 8 {
        whole_in_usize(field_at(fields, pos)) is Some
    } else {
        as_num(field_at(fields, pos)) is Some
    }
}

/// A well-formed `Slider` descriptor parses to a slider whose seven typed
/// fields are exactly the seven positional source values, in their fixed
/// order, with no keybinding assigned.
pub proof fn lemma_slider_fields(
    key: Seq<char>,
    fields: Seq<ValueModel>,
    id: usize,
    name: Seq<char>,
    label: Seq<char>,
    min: NumValue,
    max: NumValue,
    value: NumValue,
    step_by: NumValue,
    decimals: usize,
)
    requires
        field_at(fields, 1) == ValueModel::Str("Slider"@),
        as_text(field_at(fields, 2)) == Some(name),
        as_text(field_at(fields, 3)) == Some(label),
        as_num(field_at(fields, 4)) == Some(min),
        as_num(field_at(fields, 5)) == Some(max),
        as_num(field_at(fields, 6)) == Some(value),
        as_num(field_at(fields, 7)) == Some(step_by),
        whole_in_usize(field_at(fields, 8)) == Some(decimals),
    ensures
        spec_parse_entry(key, fields, id) == Ok::<Option<ControlModel>, ShapeErrorModel>(
            Some(
                ControlModel::Slider(
                    SliderModel { name, label, min, max, value, step_by, decimals, keybinding: None },
                ),
            ),
        ),
{
}

/// A `Slider` descriptor whose first failing field is at position `pos`
/// parses to a shape error naming exactly that position and the type it
/// expected, with the entry's key and tag attached.
pub proof fn lemma_slider_bad_field(key: Seq<char>, fields: Seq<ValueModel>, id: usize, pos: usize)
    requires
        field_at(fields, 1) == ValueModel::Str("Slider"@),
        2 <= pos <= 8,
        forall|p: int| 2 <= p < pos ==> slider_field_ok(fields, p),
        !slider_field_ok(fields, pos as int),
    ensures
        spec_parse_entry(key, fields, id) == Err::<Option<ControlModel>, ShapeErrorModel>(
            shape_err(key, "Slider"@, pos, slider_expected(pos as int)),
        ),
{
    if pos > 2 {
        assert(slider_field_ok(fields, 2));
    }
    if pos > 3 {
        assert(slider_field_ok(fields, 3));
    }
    if pos > 4 {
        assert(slider_field_ok(fields, 4));
    }
    if pos > 5 {
        assert(slider_field_ok(fields, 5));
    }
    if pos > 6 {
        assert(slider_field_ok(fields, 6));
    }
    if pos > 7 {
        assert(slider_field_ok(fields, 7));
    }
}

/// Combo-box entry scanning stops at the first missing or non-string
/// position: with strings at positions 5, 6 and 7 and a gap at 8, exactly
/// those three entries are collected, whatever stands at position 9 and
/// beyond.
pub proof fn lemma_combo_scan_stops(
    fields: Seq<ValueModel>,
    a: Seq<char>,
    b: Seq<char>,
    c: Seq<char>,
)
    requires
        as_text(field_at(fields, 5)) == Some(a),
        as_text(field_at(fields, 6)) == Some(b),
        as_text(field_at(fields, 7)) == Some(c),
        as_text(field_at(fields, 8)) is None,
    ensures
        combo_entries(fields, 5) == seq![a, b, c],
{
    assert(combo_entries(fields, 8) =~= Seq::<Seq<char>>::empty());
    assert(combo_entries(fields, 7) =~= seq![c]);
    assert(combo_entries(fields, 6) =~= seq![b, c]);
    assert(combo_entries(fields, 5) =~= seq![a, b, c]);
}

/// An entry whose tag is a string the host does not recognize parses to no
/// control and no error: the entry is skipped, a deliberate forward
/// compatibility policy for control kinds introduced by newer scripts.
pub proof fn lemma_unknown_tag_skipped(
    key: Seq<char>,
    fields: Seq<ValueModel>,
    id: usize,
    tag: Seq<char>,
)
    requires
        as_text(field_at(fields, 1)) == Some(tag),
        tag != "Slider"@,
        tag != "TextInput"@,
        tag != "ComboBox"@,
        tag != "Checkbox"@,
        tag != "Label"@,
        tag != "Separator"@,
        tag != "Spacer"@,
    ensures
        spec_parse_entry(key, fields, id) == Ok::<Option<ControlModel>, ShapeErrorModel>(None),
{
}

/// A table of one unknown-tag entry followed by one well-formed `Label`
/// yields exactly the label: the skipped entry leaves no trace in the
/// control list, though it still consumes one identity slot.
pub proof fn lemma_unknown_then_label(
    e0: EntryModel,
    e1: EntryModel,
    counter: usize,
    tag: Seq<char>,
    text: Seq<char>,
)
    requires
        as_text(field_at(e0.fields, 1)) == Some(tag),
        tag != "Slider"@,
        tag != "TextInput"@,
        tag != "ComboBox"@,
        tag != "Checkbox"@,
        tag != "Label"@,
        tag != "Separator"@,
        tag != "Spacer"@,
        field_at(e1.fields, 1) == ValueModel::Str("Label"@),
        as_text(field_at(e1.fields, 2)) == Some(text),
    ensures
        spec_parse_table(seq![e0, e1], counter) == Ok::<Seq<ControlModel>, ShapeErrorModel>(
            seq![ControlModel::Label(text)],
        ),
{
    reveal_strlit("Slider");
    reveal_strlit("TextInput");
    reveal_strlit("ComboBox");
    reveal_strlit("Checkbox");
    reveal_strlit("Label");
    reveal_strlit("Separator");
    reveal_strlit("Spacer");
    let s = seq![e0, e1];
    let id0 = sat_add(counter, 1);
    let id1 = sat_add(id0, 1);
    assert(s[0] == e0);
    assert(s[1] == e1);
    lemma_unknown_tag_skipped(e0.key, e0.fields, id0, tag);
    assert("Slider"@.len() == 6);
    assert("TextInput"@.len() == 9);
    assert("ComboBox"@.len() == 8);
    assert("Checkbox"@.len() == 8);
    assert("Label"@.len() == 5);
    assert("Label"@ != "Slider"@ && "Label"@ != "TextInput"@ && "Label"@ != "ComboBox"@
        && "Label"@ != "Checkbox"@);
    assert(spec_parse_from(s, 2, id1) == Ok::<Seq<ControlModel>, ShapeErrorModel>(
        Seq::empty(),
    ));
    assert(spec_parse_entry(e1.key, e1.fields, id1) == Ok::<
        Option<ControlModel>,
        ShapeErrorModel,
    >(Some(ControlModel::Label(text))));
    assert(seq![ControlModel::Label(text)] + Seq::<ControlModel>::empty() =~= seq![
        ControlModel::Label(text),
    ]);
    assert(spec_parse_from(s, 1, id0) == Ok::<Seq<ControlModel>, ShapeErrorModel>(
        seq![ControlModel::Label(text)],
    ));
    assert(spec_parse_from(s, 0, counter) == spec_parse_from(s, 1, id0));
}

/// A whole descriptor table in entry order, starting at identity slot
/// counter `counter`: the typed controls of every recognized entry, or the
/// error of the first malformed entry.
pub fn parse_table(entries: &Vec<TableEntry>, counter: usize) -> (r: Result<Vec<Control>, ControlShapeError>)
    ensures
        ({
            let s = spec_parse_table(entry_views(entries@), counter);
            match r {
                Ok(cs) => s == Ok::<Seq<ControlModel>, ShapeErrorModel>(control_views(cs@)),
                Err(e) => s == Err::<Seq<ControlModel>, ShapeErrorModel>(e@),
            }
        }),
{
    parse_from(entries, 0, counter)
}

} // verus!
