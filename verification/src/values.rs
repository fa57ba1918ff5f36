//! Plain representation of the dynamic values that cross the script boundary.
//!
//! The scripting runtime hands the host dynamically typed values. Before any
//! of the bridge's logic looks at them, each value is converted into a
//! [`ScriptValue`], so that the parsing and synchronization rules are stated
//! and checked over plain data.

use vstd::prelude::*;

verus! {

/// A numeric value handed across the script boundary: either the raw bits of
/// a double-precision script number or a script integer.
#[derive(Clone, Copy, Debug, PartialEq, Eq, Structural)]
pub enum NumValue {
    /// The bit pattern of a double-precision number.
    Bits(u64),
    /// A whole number.
    Int(i64),
}

/// One dynamic value read from the scripting runtime, reduced to plain data.
#[derive(Debug, PartialEq, Eq)]
pub enum ScriptValue {
    /// The absent value.
    Nil,
    /// A boolean.
    Bool(bool),
    /// An integer.
    Int(i64),
    /// A non-integer number, carried as its bit pattern.
    Num(u64),
    /// A text string.
    Str(String),
    /// A value of a kind the bridge does not read (a table, a function, ...).
    Other,
}

/// The mathematical model of a [`ScriptValue`].
pub enum ValueModel {
    Nil,
    Bool(bool),
    Int(i64),
    Num(u64),
    Str(Seq<char>),
    Other,
}

impl View for ScriptValue {
    type V = ValueModel;

    open spec fn view(&self) -> ValueModel {
        match self {
            ScriptValue::Nil => ValueModel::Nil,
            ScriptValue::Bool(b) => ValueModel::Bool(*b),
            ScriptValue::Int(i) => ValueModel::Int(*i),
            ScriptValue::Num(n) => ValueModel::Num(*n),
            ScriptValue::Str(s) => ValueModel::Str(s@),
            ScriptValue::Other => ValueModel::Other,
        }
    }
}

impl Clone for ScriptValue {
    fn clone(&self) -> (r: Self)
        ensures
            r == *self,
    {
        match self {
            ScriptValue::Nil => ScriptValue::Nil,
            ScriptValue::Bool(b) => ScriptValue::Bool(*b),
            ScriptValue::Int(i) => ScriptValue::Int(*i),
            ScriptValue::Num(n) => ScriptValue::Num(*n),
            ScriptValue::Str(s) => ScriptValue::Str(s.clone()),
            ScriptValue::Other => ScriptValue::Other,
        }
    }
}

/// One entry of a control descriptor table: a synchronization key mapped to a
/// positional list of field values.
#[derive(Debug, PartialEq, Eq)]
pub struct TableEntry {
    /// The key under which the script listed the descriptor; it becomes the
    /// control's synchronization name.
    pub key: String,
    /// The positional fields, position `p` stored at index `p - 1`.
    pub fields: Vec<ScriptValue>,
}

impl Clone for TableEntry {
    fn clone(&self) -> (r: Self)
        ensures
            r@ == self@,
    {
        let r = TableEntry { key: self.key.clone(), fields: self.fields.clone() };
        proof {
            assert forall|i: int| 0 <= i < self.fields@.len() implies r.fields@[i]
                == self.fields@[i] by {
                assert(cloned::<ScriptValue>(self.fields@[i], r.fields@[i]));
            }
            assert(r.fields@ =~= self.fields@);
        }
        r
    }
}

/// The mathematical model of a [`TableEntry`].
pub struct EntryModel {
    pub key: Seq<char>,
    pub fields: Seq<ValueModel>,
}

pub open spec fn value_views(s: Seq<ScriptValue>) -> Seq<ValueModel> {
    Seq::new(s.len(), |i: int| s[i]@)
}

impl View for TableEntry {
    type V = EntryModel;

    open spec fn view(&self) -> EntryModel {
        EntryModel { key: self.key@, fields: value_views(self.fields@) }
    }
}

pub open spec fn entry_views(s: Seq<TableEntry>) -> Seq<EntryModel> {
    Seq::new(s.len(), |i: int| s[i]@)
}

/// The positional field of a descriptor, 1-based; a position outside the
/// given fields reads as `Nil`, exactly as an absent slot in a script table.
pub open spec fn field_at(fields: Seq<ValueModel>, pos: int) -> ValueModel {
    if 1 <= pos && pos <= fields.len() {
        fields[pos - 1]
    } else {
        ValueModel::Nil
    }
}

/// Coercion of a dynamic value to a text field: only a string is accepted.
pub open spec fn as_text(v: ValueModel) -> Option<Seq<char>> {
    match v {
        ValueModel::Str(s) => Some(s),
        _ => None,
    }
}

/// Coercion of a dynamic value to a numeric field: a number or an integer.
pub open spec fn as_num(v: ValueModel) -> Option<NumValue> {
    match v {
        ValueModel::Num(b) => Some(NumValue::Bits(b)),
        ValueModel::Int(i) => Some(NumValue::Int(i)),
        _ => None,
    }
}

/// Coercion of a dynamic value to a whole-number field: only an integer.
pub open spec fn as_whole(v: ValueModel) -> Option<i64> {
    match v {
        ValueModel::Int(i) => Some(i),
        _ => None,
    }
}

impl ScriptValue {
    /// The text content of this value, if it is a string.
    pub fn text(&self) -> (r: Option<String>)
        ensures
            match r {
                Some(s) => as_text(self@) == Some(s@),
                None => as_text(self@) is None,
            },
    {
        match self {
            ScriptValue::Str(s) => Some(s.clone()),
            _ => None,
        }
    }

    /// The numeric content of this value, if it is a number or an integer.
    pub fn numeric(&self) -> (r: Option<NumValue>)
        ensures
            r == as_num(self@),
    {
        match self {
            ScriptValue::Num(b) => Some(NumValue::Bits(*b)),
            ScriptValue::Int(i) => Some(NumValue::Int(*i)),
            _ => None,
        }
    }

    /// The whole-number content of this value, if it is an integer.
    pub fn whole(&self) -> (r: Option<i64>)
        ensures
            r == as_whole(self@),
    {
        match self {
            ScriptValue::Int(i) => Some(*i),
            _ => None,
        }
    }
}

impl TableEntry {
    /// The positional field of this entry, 1-based; positions past the stored
    /// fields read as `Nil`.
    pub fn field(&self, pos: usize) -> (r: ScriptValue)
        ensures
            r@ == field_at(self@.fields, pos as int),
    {
        if 1 <= pos && pos <= self.fields.len() {
            self.fields[pos - 1].clone()
        } else {
            ScriptValue::Nil
        }
    }
}

} // verus!
