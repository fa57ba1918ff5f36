use lua_bridge::controls::{CheckboxInput, ComboBoxInput, Control, Slider, TextInput};
use lua_bridge::errors::FieldKind;
use lua_bridge::handler::concat_fragments;
use lua_bridge::parse::{parse_entry, parse_table};
use lua_bridge::values::{NumValue, ScriptValue, TableEntry};

fn s(text: &str) -> ScriptValue {
    ScriptValue::Str(text.to_string())
}

fn n(x: f64) -> ScriptValue {
    ScriptValue::Num(x.to_bits())
}

fn entry(key: &str, fields: Vec<ScriptValue>) -> TableEntry {
    TableEntry { key: key.to_string(), fields }
}

#[test]
fn slider_fields_in_order() {
    let e = entry(
        "s1",
        vec![s("Slider"), s("s1"), s("Speed"), n(0.0), n(1.0), n(0.5), n(0.1), ScriptValue::Int(2)],
    );
    let c = parse_entry(&e, 7).unwrap().unwrap();
    assert_eq!(
        c,
        Control::SliderType(Slider {
            name: "s1".to_string(),
            label: "Speed".to_string(),
            min: NumValue::Bits(0.0f64.to_bits()),
            max: NumValue::Bits(1.0f64.to_bits()),
            value: NumValue::Bits(0.5f64.to_bits()),
            step_by: NumValue::Bits(0.1f64.to_bits()),
            decimals: 2,
            keybinding: None,
        })
    );
}

#[test]
fn slider_integer_fields_accepted() {
    let e = entry(
        "s1",
        vec![
            s("Slider"),
            s("s1"),
            s("Speed"),
            ScriptValue::Int(0),
            ScriptValue::Int(10),
            ScriptValue::Int(5),
            ScriptValue::Int(1),
            ScriptValue::Int(0),
        ],
    );
    let c = parse_entry(&e, 1).unwrap().unwrap();
    match c {
        Control::SliderType(sl) => {
            assert_eq!(sl.min, NumValue::Int(0));
            assert_eq!(sl.max, NumValue::Int(10));
            assert_eq!(sl.value, NumValue::Int(5));
            assert_eq!(sl.step_by, NumValue::Int(1));
            assert_eq!(sl.decimals, 0);
        }
        other => panic!("expected a slider, got {:?}", other),
    }
}

#[test]
fn slider_bad_field_names_position() {
    // Position 5 (the maximum) holds a string instead of a number.
    let e = entry(
        "s1",
        vec![s("Slider"), s("s1"), s("Speed"), n(0.0), s("oops"), n(0.5), n(0.1), ScriptValue::Int(2)],
    );
    let err = parse_entry(&e, 1).unwrap_err();
    assert_eq!(err.key, "s1");
    assert_eq!(err.tag, "Slider");
    assert_eq!(err.field, 5);
    assert_eq!(err.expected, FieldKind::Number);
}

#[test]
fn slider_bad_decimals_names_position_eight() {
    let e = entry(
        "s1",
        vec![s("Slider"), s("s1"), s("Speed"), n(0.0), n(1.0), n(0.5), n(0.1), n(2.0)],
    );
    let err = parse_entry(&e, 1).unwrap_err();
    assert_eq!(err.field, 8);
    assert_eq!(err.expected, FieldKind::Whole);
}

#[test]
fn slider_missing_field_names_position() {
    let e = entry("s1", vec![s("Slider"), s("s1"), s("Speed"), n(0.0)]);
    let err = parse_entry(&e, 1).unwrap_err();
    assert_eq!(err.field, 5);
    assert_eq!(err.expected, FieldKind::Number);
}

#[test]
fn text_input_fields() {
    let e = entry("t1", vec![s("TextInput"), s("t1"), s("Name"), s("hello")]);
    let c = parse_entry(&e, 1).unwrap().unwrap();
    assert_eq!(
        c,
        Control::TextInputType(TextInput {
            name: "t1".to_string(),
            label: "Name".to_string(),
            value: "hello".to_string(),
        })
    );
}

#[test]
fn checkbox_value_is_equality_to_one() {
    let on = entry("c1", vec![s("Checkbox"), s("c1"), s("Enable"), ScriptValue::Int(1)]);
    let off = entry("c1", vec![s("Checkbox"), s("c1"), s("Enable"), ScriptValue::Int(2)]);
    match parse_entry(&on, 1).unwrap().unwrap() {
        Control::CheckboxType(cb) => assert!(cb.value),
        other => panic!("expected a checkbox, got {:?}", other),
    }
    match parse_entry(&off, 1).unwrap().unwrap() {
        Control::CheckboxType(cb) => assert!(!cb.value),
        other => panic!("expected a checkbox, got {:?}", other),
    }
}

#[test]
fn checkbox_non_integer_value_is_error() {
    let e = entry("c1", vec![s("Checkbox"), s("c1"), s("Enable"), s("yes")]);
    let err = parse_entry(&e, 1).unwrap_err();
    assert_eq!(err.field, 4);
    assert_eq!(err.expected, FieldKind::Whole);
}

#[test]
fn label_missing_text_is_error() {
    let e = entry("l1", vec![s("Label")]);
    let err = parse_entry(&e, 1).unwrap_err();
    assert_eq!(err.field, 2);
    assert_eq!(err.expected, FieldKind::Text);
}

#[test]
fn combo_box_scan_stops_at_gap() {
    // Entries at positions 5, 6 and 7, a gap at 8, and another string at 9:
    // exactly three entries are collected.
    let e = entry(
        "cb",
        vec![
            s("ComboBox"),
            s("cb"),
            s("Choice"),
            s("one"),
            s("alpha"),
            s("beta"),
            s("gamma"),
            ScriptValue::Nil,
            s("delta"),
        ],
    );
    match parse_entry(&e, 3).unwrap().unwrap() {
        Control::ComboBoxType(cb) => {
            assert_eq!(cb.entries, vec!["alpha", "beta", "gamma"]);
            assert_eq!(cb.id, 3);
        }
        other => panic!("expected a combo box, got {:?}", other),
    }
}

#[test]
fn combo_box_non_string_entry_stops_scan() {
    let e = entry(
        "cb",
        vec![s("ComboBox"), s("cb"), s("Choice"), s("one"), s("alpha"), n(2.5), s("beta")],
    );
    match parse_entry(&e, 1).unwrap().unwrap() {
        Control::ComboBoxType(cb) => assert_eq!(cb.entries, vec!["alpha"]),
        other => panic!("expected a combo box, got {:?}", other),
    }
}

#[test]
fn unknown_tag_is_skipped() {
    let unknown = entry("x", vec![s("Dial"), s("x"), s("Gain")]);
    assert_eq!(parse_entry(&unknown, 1).unwrap(), None);
}

#[test]
fn missing_tag_is_skipped() {
    let empty = entry("x", vec![]);
    assert_eq!(parse_entry(&empty, 1).unwrap(), None);
    let numeric_tag = entry("x", vec![ScriptValue::Int(7)]);
    assert_eq!(parse_entry(&numeric_tag, 1).unwrap(), None);
}

#[test]
fn unknown_and_label_yield_only_label() {
    let table = vec![
        entry("x", vec![s("Dial"), s("x"), s("Gain")]),
        entry("l", vec![s("Label"), s("hello")]),
    ];
    let controls = parse_table(&table, 0).unwrap();
    assert_eq!(controls, vec![Control::Label("hello".to_string())]);
}

#[test]
fn separator_and_spacer_have_no_fields() {
    let table = vec![entry("a", vec![s("Separator")]), entry("b", vec![s("Spacer")])];
    let controls = parse_table(&table, 0).unwrap();
    assert_eq!(controls, vec![Control::Separator, Control::Spacer]);
}

#[test]
fn malformed_entry_aborts_whole_table() {
    let table = vec![
        entry("l", vec![s("Label"), s("fine")]),
        entry("t", vec![s("TextInput"), s("t"), s("Name"), ScriptValue::Int(3)]),
    ];
    let err = parse_table(&table, 0).unwrap_err();
    assert_eq!(err.key, "t");
    assert_eq!(err.tag, "TextInput");
    assert_eq!(err.field, 4);
    assert_eq!(err.expected, FieldKind::Text);
}

#[test]
fn identity_slots_count_every_entry_visited() {
    // The skipped entry still consumes an identity slot: the combo box in
    // the second entry gets slot counter + 2.
    let table = vec![
        entry("x", vec![s("Dial")]),
        entry("cb", vec![s("ComboBox"), s("cb"), s("Choice"), s("one"), s("alpha")]),
    ];
    let controls = parse_table(&table, 10).unwrap();
    assert_eq!(controls.len(), 1);
    match &controls[0] {
        Control::ComboBoxType(cb) => assert_eq!(cb.id, 12),
        other => panic!("expected a combo box, got {:?}", other),
    }
}

#[test]
fn checkbox_from_table() {
    let table = vec![entry("c1", vec![s("Checkbox"), s("c1"), s("Enable"), ScriptValue::Int(1)])];
    let controls = parse_table(&table, 0).unwrap();
    assert_eq!(
        controls,
        vec![Control::CheckboxType(CheckboxInput {
            name: "c1".to_string(),
            label: "Enable".to_string(),
            value: true,
        })]
    );
}

#[test]
fn concat_keeps_order_and_inserts_nothing() {
    let parts = vec!["A\n".to_string(), "B\n".to_string(), "C\n".to_string()];
    assert_eq!(concat_fragments(&parts), "A\nB\nC\n");
}

#[test]
fn concat_keeps_empty_fragments_in_order() {
    let parts = vec!["left".to_string(), "".to_string(), "right".to_string()];
    assert_eq!(concat_fragments(&parts), "leftright");
    let empty: Vec<String> = vec![];
    assert_eq!(concat_fragments(&empty), "");
}
