//! The typed control model: one tagged variant per kind of UI control a
//! script can describe, together with the synchronization name and current
//! value that the per-frame cycle writes back into the script's globals.

use vstd::prelude::*;

use crate::values::{as_num, NumValue, ScriptValue, ValueModel};

verus! {

/// A slider over a numeric range.
#[derive(Debug, PartialEq, Eq)]
pub struct Slider {
    pub name: String,
    pub label: String,
    pub min: NumValue,
    pub max: NumValue,
    pub value: NumValue,
    pub step_by: NumValue,
    pub decimals: usize,
    /// A renderer-assigned button code; the parser always leaves it unset.
    pub keybinding: Option<u32>,
}

/// A single-line text input.
#[derive(Debug, PartialEq, Eq)]
pub struct TextInput {
    pub name: String,
    pub label: String,
    pub value: String,
}

/// A selection among a fixed, ordered list of entries.
#[derive(Debug, PartialEq, Eq)]
pub struct ComboBoxInput {
    pub name: String,
    pub label: String,
    /// The selected entry.
    pub value: String,
    /// The identity slot assigned while the descriptor table was walked.
    pub id: usize,
    pub entries: Vec<String>,
}

/// A boolean checkbox.
#[derive(Debug, PartialEq, Eq)]
pub struct CheckboxInput {
    pub name: String,
    pub label: String,
    pub value: bool,
}

/// One typed UI control, exactly one variant active.
///
/// The variants carrying a `name` use it as their synchronization key: before
/// every script invocation the control's current value is written into the
/// script global of that name. `Label`, `Separator` and `Spacer` carry no
/// name and are never synchronized.
#[derive(Debug, PartialEq, Eq)]
pub enum Control {
    SliderType(Slider),
    TextInputType(TextInput),
    ComboBoxType(ComboBoxInput),
    CheckboxType(CheckboxInput),
    Label(String),
    Separator,
    Spacer,
}

/// The mathematical model of a [`Slider`].
pub struct SliderModel {
    pub name: Seq<char>,
    pub label: Seq<char>,
    pub min: NumValue,
    pub max: NumValue,
    pub value: NumValue,
    pub step_by: NumValue,
    pub decimals: usize,
    pub keybinding: Option<u32>,
}

/// The mathematical model of a [`TextInput`].
pub struct TextInputModel {
    pub name: Seq<char>,
    pub label: Seq<char>,
    pub value: Seq<char>,
}

/// The mathematical model of a [`ComboBoxInput`].
pub struct ComboBoxModel {
    pub name: Seq<char>,
    pub label: Seq<char>,
    pub value: Seq<char>,
    pub id: usize,
    pub entries: Seq<Seq<char>>,
}

/// The mathematical model of a [`CheckboxInput`].
pub struct CheckboxModel {
    pub name: Seq<char>,
    pub label: Seq<char>,
    pub value: bool,
}

/// The mathematical model of a [`Control`].
pub enum ControlModel {
    Slider(SliderModel),
    TextInput(TextInputModel),
    ComboBox(ComboBoxModel),
    Checkbox(CheckboxModel),
    Label(Seq<char>),
    Separator,
    Spacer,
}

pub open spec fn string_views(s: Seq<String>) -> Seq<Seq<char>> {
    Seq::new(s.len(), |i: int| s[i]@)
}

impl View for Slider {
    type V = SliderModel;

    open spec fn view(&self) -> SliderModel {
        SliderModel {
            name: self.name@,
            label: self.label@,
            min: self.min,
            max: self.max,
            value: self.value,
            step_by: self.step_by,
            decimals: self.decimals,
            keybinding: self.keybinding,
        }
    }
}

impl View for TextInput {
    type V = TextInputModel;

    open spec fn view(&self) -> TextInputModel {
        TextInputModel { name: self.name@, label: self.label@, value: self.value@ }
    }
}

impl View for ComboBoxInput {
    type V = ComboBoxModel;

    open spec fn view(&self) -> ComboBoxModel {
        ComboBoxModel {
            name: self.name@,
            label: self.label@,
            value: self.value@,
            id: self.id,
            entries: string_views(self.entries@),
        }
    }
}

impl View for CheckboxInput {
    type V = CheckboxModel;

    open spec fn view(&self) -> CheckboxModel {
        CheckboxModel { name: self.name@, label: self.label@, value: self.value }
    }
}

impl View for Control {
    type V = ControlModel;

    open spec fn view(&self) -> ControlModel {
        match self {
            Control::SliderType(s) => ControlModel::Slider(s@),
            Control::TextInputType(t) => ControlModel::TextInput(t@),
            Control::ComboBoxType(c) => ControlModel::ComboBox(c@),
            Control::CheckboxType(c) => ControlModel::Checkbox(c@),
            Control::Label(s) => ControlModel::Label(s@),
            Control::Separator => ControlModel::Separator,
            Control::Spacer => ControlModel::Spacer,
        }
    }
}

pub open spec fn control_views(s: Seq<Control>) -> Seq<ControlModel> {
    Seq::new(s.len(), |i: int| s[i]@)
}

/// The synchronization name of a control, if its variant carries one.
pub open spec fn spec_name(c: ControlModel) -> Option<Seq<char>> {
    match c {
        ControlModel::Slider(s) => Some(s.name),
        ControlModel::TextInput(t) => Some(t.name),
        ControlModel::ComboBox(cb) => Some(cb.name),
        ControlModel::Checkbox(cb) => Some(cb.name),
        ControlModel::Label(_) => None,
        ControlModel::Separator => None,
        ControlModel::Spacer => None,
    }
}

/// The current value of a control as a dynamic script value, if its variant
/// carries one: this is what value synchronization writes into the script
/// global named by the control's synchronization name.
pub open spec fn spec_current_value(c: ControlModel) -> Option<ValueModel> {
    match c {
        ControlModel::Slider(s) => Some(
            match s.value {
                NumValue::Bits(b) => ValueModel::Num(b),
                NumValue::Int(i) => ValueModel::Int(i),
            },
        ),
        ControlModel::TextInput(t) => Some(ValueModel::Str(t.value)),
        ControlModel::ComboBox(cb) => Some(ValueModel::Str(cb.value)),
        ControlModel::Checkbox(cb) => Some(ValueModel::Bool(cb.value)),
        ControlModel::Label(_) => None,
        ControlModel::Separator => None,
        ControlModel::Spacer => None,
    }
}

impl Control {
    /// The synchronization name of this control, if its variant carries one.
    pub fn get_name(&self) -> (r: Option<String>)
        ensures
            match r {
                Some(n) => spec_name(self@) == Some(n@),
                None => spec_name(self@) is None,
            },
    {
        match self {
            Control::SliderType(s) => Some(s.name.clone()),
            Control::TextInputType(t) => Some(t.name.clone()),
            Control::ComboBoxType(c) => Some(c.name.clone()),
            Control::CheckboxType(c) => Some(c.name.clone()),
            Control::Label(_) => None,
            Control::Separator => None,
            Control::Spacer => None,
        }
    }

    /// The current value of this control as a dynamic script value, if its
    /// variant carries one.
    pub fn current_value(&self) -> (r: Option<ScriptValue>)
        ensures
            match r {
                Some(v) => spec_current_value(self@) == Some(v@),
                None => spec_current_value(self@) is None,
            },
    {
        match self {
            Control::SliderType(s) => Some(
                match s.value {
                    NumValue::Bits(b) => ScriptValue::Num(b),
                    NumValue::Int(i) => ScriptValue::Int(i),
                },
            ),
            Control::TextInputType(t) => Some(ScriptValue::Str(t.value.clone())),
            Control::ComboBoxType(c) => Some(ScriptValue::Str(c.value.clone())),
            Control::CheckboxType(c) => Some(ScriptValue::Bool(c.value)),
            Control::Label(_) => None,
            Control::Separator => None,
            Control::Spacer => None,
        }
    }
}

impl Clone for Slider {
    fn clone(&self) -> (r: Self)
        ensures
            r@ == self@,
    {
        Slider {
            name: self.name.clone(),
            label: self.label.clone(),
            min: self.min,
            max: self.max,
            value: self.value,
            step_by: self.step_by,
            decimals: self.decimals,
            keybinding: self.keybinding,
        }
    }
}

impl Clone for TextInput {
    fn clone(&self) -> (r: Self)
        ensures
            r@ == self@,
    {
        TextInput {
            name: self.name.clone(),
            label: self.label.clone(),
            value: self.value.clone(),
        }
    }
}

impl Clone for ComboBoxInput {
    fn clone(&self) -> (r: Self)
        ensures
            r@ == self@,
    {
        let r = ComboBoxInput {
            name: self.name.clone(),
            label: self.label.clone(),
            value: self.value.clone(),
            id: self.id,
            entries: self.entries.clone(),
        };
        proof {
            assert forall|i: int| 0 <= i < self.entries@.len() implies r.entries@[i]
                == self.entries@[i] by {
                assert(cloned::<String>(self.entries@[i], r.entries@[i]));
            }
            assert(string_views(r.entries@) =~= string_views(self.entries@));
        }
        r
    }
}

impl Clone for CheckboxInput {
    fn clone(&self) -> (r: Self)
        ensures
            r@ == self@,
    {
        CheckboxInput {
            name: self.name.clone(),
            label: self.label.clone(),
            value: self.value,
        }
    }
}

impl Clone for Control {
    fn clone(&self) -> (r: Self)
        ensures
            r@ == self@,
    {
        match self {
            Control::SliderType(s) => Control::SliderType(s.clone()),
            Control::TextInputType(t) => Control::TextInputType(t.clone()),
            Control::ComboBoxType(c) => Control::ComboBoxType(c.clone()),
            Control::CheckboxType(c) => Control::CheckboxType(c.clone()),
            Control::Label(s) => Control::Label(s.clone()),
            Control::Separator => Control::Separator,
            Control::Spacer => Control::Spacer,
        }
    }
}

} // verus!
