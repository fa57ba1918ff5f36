use lua_bridge::controls::Control;
use lua_bridge::errors::{GeneratorError, ScriptError};
use lua_bridge::generator::LuaGenerator;
use lua_bridge::handler::ControlHandler;
use lua_bridge::values::{NumValue, ScriptValue};

fn loaded(script: &str) -> LuaGenerator {
    let mut g = LuaGenerator::new("test.lua");
    g.load(script).expect("script should load");
    g
}

#[test]
fn load_is_one_shot() {
    let mut g = LuaGenerator::new("test.lua");
    assert!(!g.loaded);
    g.load("x = 1").unwrap();
    assert!(g.loaded);
    // A second load is a no-op: the earlier chunk's effect stays.
    g.load("x = 2").unwrap();
    assert_eq!(g.read_global("x"), ScriptValue::Int(1));
}

#[test]
fn load_syntax_error_disables_generator() {
    let mut g = LuaGenerator::new("test.lua");
    let err = g.load("function ( broken").unwrap_err();
    assert_eq!(err, ScriptError::Load);
    assert!(matches!(g.error, Some(GeneratorError::Script(ScriptError::Load))));
}

#[test]
fn load_top_level_raise_disables_generator() {
    let mut g = LuaGenerator::new("test.lua");
    let err = g.load("error('boom')").unwrap_err();
    assert_eq!(err, ScriptError::Load);
}

#[test]
fn tick_missing_function_is_reported() {
    let mut g = loaded("x = 1");
    let err = g.tick_step();
    assert_eq!(err, Some(ScriptError::FunctionMissing));
    assert!(g.error.is_some());
}

#[test]
fn tick_runtime_error_is_reported() {
    let mut g = loaded("function tick() error('no') end");
    let err = g.tick_step();
    assert_eq!(err, Some(ScriptError::Runtime));
}

#[test]
fn globals_round_trip_through_runtime() {
    let g = loaded("x = 1");
    g.write_global("b", &ScriptValue::Bool(true)).unwrap();
    g.write_global("i", &ScriptValue::Int(-7)).unwrap();
    g.write_global("f", &ScriptValue::Num(2.5f64.to_bits())).unwrap();
    g.write_global("s", &ScriptValue::Str("hi".to_string())).unwrap();
    assert_eq!(g.read_global("b"), ScriptValue::Bool(true));
    assert_eq!(g.read_global("i"), ScriptValue::Int(-7));
    assert_eq!(g.read_global("f"), ScriptValue::Num(2.5f64.to_bits()));
    assert_eq!(g.read_global("s"), ScriptValue::Str("hi".to_string()));
    assert_eq!(g.read_global("absent"), ScriptValue::Nil);
}

#[test]
fn rebuild_false_keeps_controls() {
    // `get_controls` would return a different table if it were called, but
    // `controls_changed` answers false, so nothing is replaced.
    let mut g = loaded(
        "n = 0\n\
         function controls_changed() n = n + 1; return n == 1 end\n\
         function get_controls()\n\
           if n == 1 then return { l = {'Label', 'first'} }\n\
           else return { l = {'Label', 'second'} } end\n\
         end\n\
         function tick() end",
    );
    let first = g.frame_rebuild(0);
    assert!(first.changed);
    assert!(first.error.is_none());
    assert_eq!(g.controls, vec![Control::Label("first".to_string())]);

    let second = g.frame_rebuild(first.next_counter);
    assert!(!second.changed);
    assert!(second.error.is_none());
    assert_eq!(second.next_counter, first.next_counter + 100);
    assert_eq!(g.controls, vec![Control::Label("first".to_string())]);
}

#[test]
fn rebuild_true_fully_replaces() {
    let mut g = loaded(
        "n = 0\n\
         function controls_changed() n = n + 1; return true end\n\
         function get_controls()\n\
           if n == 1 then return { l = {'Label', 'first'} }\n\
           else return { t = {'TextInput', 't1', 'Name', 'hello'} } end\n\
         end\n\
         function tick() end",
    );
    let first = g.frame_rebuild(0);
    assert!(first.error.is_none());
    assert_eq!(g.controls, vec![Control::Label("first".to_string())]);

    let second = g.frame_rebuild(first.next_counter);
    assert!(second.error.is_none());
    assert_eq!(g.controls.len(), 1);
    match &g.controls[0] {
        Control::TextInputType(t) => {
            assert_eq!(t.name, "t1");
            assert_eq!(t.value, "hello");
        }
        other => panic!("expected the new text input, got {:?}", other),
    }
}

#[test]
fn rebuild_shape_error_keeps_previous_controls() {
    let mut g = loaded(
        "n = 0\n\
         function controls_changed() n = n + 1; return true end\n\
         function get_controls()\n\
           if n == 1 then return { l = {'Label', 'first'} }\n\
           else return { t = {'TextInput', 't1', 'Name', 3} } end\n\
         end",
    );
    let first = g.frame_rebuild(0);
    assert!(first.error.is_none());
    let second = g.frame_rebuild(first.next_counter);
    match second.error {
        Some(GeneratorError::Shape(e)) => {
            assert_eq!(e.key, "t");
            assert_eq!(e.field, 4);
        }
        other => panic!("expected a shape error, got {:?}", other),
    }
    // The previous list is retained and the generator is flagged.
    assert_eq!(g.controls, vec![Control::Label("first".to_string())]);
    assert!(g.error.is_some());
}

#[test]
fn rebuild_missing_get_controls_is_reported() {
    let mut g = loaded("function controls_changed() return true end");
    let report = g.frame_rebuild(0);
    assert!(matches!(
        report.error,
        Some(GeneratorError::Script(ScriptError::FunctionMissing))
    ));
    assert_eq!(g.controls.len(), 0);
}

#[test]
fn parsed_controls_are_written_back_at_once() {
    let mut g = loaded(
        "function controls_changed() return true end\n\
         function get_controls()\n\
           return { s1 = {'Slider', 's1', 'Speed', 0.0, 1.0, 0.5, 0.1, 2},\n\
                    c1 = {'Checkbox', 'c1', 'Enable', 1} }\n\
         end",
    );
    let report = g.frame_rebuild(0);
    assert!(report.error.is_none());
    // The script can read its controls' values in the same frame.
    assert_eq!(g.read_global("s1"), ScriptValue::Num(0.5f64.to_bits()));
    assert_eq!(g.read_global("c1"), ScriptValue::Bool(true));
}

#[test]
fn mutated_value_is_visible_to_next_tick() {
    // A value mutated host-side between frames (as rendering does) reaches
    // the script's `tick` through the synchronized global of the same name.
    let mut g = loaded(
        "observed = 'nothing'\n\
         function controls_changed() return not done end\n\
         function get_controls()\n\
           done = true\n\
           return { t1 = {'TextInput', 't1', 'Name', 'init'} }\n\
         end\n\
         function tick() observed = t1 end",
    );
    let report = g.frame_rebuild(0);
    assert!(report.error.is_none());
    match &mut g.controls[0] {
        Control::TextInputType(t) => t.value = "edited".to_string(),
        other => panic!("expected the text input, got {:?}", other),
    }
    assert_eq!(g.tick_step(), None);
    assert_eq!(g.read_global("observed"), ScriptValue::Str("edited".to_string()));
}

#[test]
fn duplicate_names_last_write_wins() {
    // Two controls share the synchronization name: the later one's value is
    // what the script sees.
    let mut g = loaded(
        "function controls_changed() return true end\n\
         function get_controls()\n\
           local t = {}\n\
           t[1] = {'TextInput', 'dup', 'First', 'one'}\n\
           t[2] = {'TextInput', 'dup', 'Second', 'two'}\n\
           return t\n\
         end",
    );
    let report = g.frame_rebuild(0);
    assert!(report.error.is_none());
    assert_eq!(g.controls.len(), 2);
    let last = match &g.controls[1] {
        Control::TextInputType(t) => t.value.clone(),
        other => panic!("expected a text input, got {:?}", other),
    };
    assert_eq!(g.read_global("dup"), ScriptValue::Str(last));
}

#[test]
fn codegen_concatenates_in_handler_order() {
    let mut handler = ControlHandler::new();
    for text in ["A", "B", "C"] {
        let script = format!(
            "function generate_includes() return '{}' end\n\
             function generate_init() return 'i{}' end\n\
             function generate_globals() return 'g{}' end\n\
             function generate_loop_one_time_setup() return 's{}' end\n\
             function generate_loop() return 'l{}' end",
            text, text, text, text, text
        );
        handler.add_generator(loaded(&script));
    }
    assert_eq!(handler.generate_includes(), "ABC");
    assert_eq!(handler.generate_init(), "iAiBiC");
    assert_eq!(handler.generate_globals(), "gAgBgC");
    assert_eq!(handler.generate_loop_one_time_setup(), "sAsBsC");
    assert_eq!(handler.generate_loop(), "lAlBlC");
}

#[test]
fn codegen_isolates_a_broken_generator() {
    let mut handler = ControlHandler::new();
    handler.add_generator(loaded("x = 1"));
    handler.add_generator(loaded("function generate_includes() return 'ok' end"));
    assert_eq!(handler.generate_includes(), "ok");
    assert!(handler.generators[0].error.is_some());
    assert!(handler.generators[1].error.is_none());
}

#[test]
fn end_to_end_single_slider_stays() {
    let script = "function controls_changed()\n\
                    if fired then return false end\n\
                    fired = true\n\
                    return true\n\
                  end\n\
                  function get_controls()\n\
                    return { s1 = {'Slider', 's1', 'Speed', 0.0, 1.0, 0.5, 0.1, 2} }\n\
                  end\n\
                  function tick() end";
    let mut handler = ControlHandler::new();
    handler.add_generator(loaded(script));

    let expected_slider = |c: &Control| match c {
        Control::SliderType(sl) => {
            assert_eq!(sl.name, "s1");
            assert_eq!(sl.label, "Speed");
            assert_eq!(sl.min, NumValue::Bits(0.0f64.to_bits()));
            assert_eq!(sl.max, NumValue::Bits(1.0f64.to_bits()));
            assert_eq!(sl.value, NumValue::Bits(0.5f64.to_bits()));
            assert_eq!(sl.step_by, NumValue::Bits(0.1f64.to_bits()));
            assert_eq!(sl.decimals, 2);
            assert_eq!(sl.keybinding, None);
        }
        other => panic!("expected the slider, got {:?}", other),
    };

    handler.tick_lua();
    handler.add_controls();
    assert_eq!(handler.generators[0].controls.len(), 1);
    expected_slider(&handler.generators[0].controls[0]);

    for _ in 0..10 {
        handler.tick_lua();
        handler.add_controls();
        assert_eq!(handler.generators[0].controls.len(), 1);
        expected_slider(&handler.generators[0].controls[0]);
    }
}
