use ddconrod::bridge::ParamChange;
use ddconrod::params::{percent_string, ParamError, Parameter, ParameterStore};
use ddconrod::plugin::{
    surface_size, ConrodWindowError, OpenError, PluginCategory, SurfaceSize, VSTPlugin,
};
use ddconrod::render::LoopState;

const SIZE: SurfaceSize = SurfaceSize { width: 500, height: 300 };

#[test]
fn parameter_text_of_half_threshold_is_fifty() {
    let mut p = VSTPlugin::new();
    p.set_parameter(0, 500_000);
    assert_eq!(p.get_parameter(0), 500_000);
    assert_eq!(p.get_parameter_text(0), "50");
}

#[test]
fn parameter_text_formats() {
    assert_eq!(percent_string(1_000_000), "100");
    assert_eq!(percent_string(10_000), "1");
    assert_eq!(percent_string(333_300), "33.33");
    assert_eq!(percent_string(123_456), "12.3456");
    assert_eq!(percent_string(150_000), "15");
    assert_eq!(percent_string(15_000), "1.5");
    assert_eq!(percent_string(10_001), "1.0001");
    assert_eq!(percent_string(0), "0");
}

#[test]
fn set_then_get_clamps() {
    let mut p = VSTPlugin::new();
    p.set_parameter(0, -5);
    assert_eq!(p.get_parameter(0), 10_000);
    p.set_parameter(0, 0);
    assert_eq!(p.get_parameter(0), 10_000);
    p.set_parameter(1, 2_000_000);
    assert_eq!(p.get_parameter(1), 1_000_000);
    p.set_parameter(1, 700_000);
    assert_eq!(p.get_parameter(1), 700_000);
    assert_eq!(p.get_parameter(0), 10_000);
    p.set_parameter(0, 10_000);
    assert_eq!(p.get_parameter(0), 10_000);
    p.set_parameter(0, 1_000_000);
    assert_eq!(p.get_parameter(0), 1_000_000);
}

#[test]
fn out_of_range_index_gives_defaults() {
    let mut p = VSTPlugin::new();
    p.set_parameter(2, 300_000);
    p.set_parameter(-1, 300_000);
    assert_eq!(p.get_parameter(0), 1_000_000);
    assert_eq!(p.get_parameter(1), 1_000_000);
    assert_eq!(p.get_parameter(2), 0);
    assert_eq!(p.get_parameter(-1), 0);
    assert_eq!(p.get_parameter_name(5), "");
    assert_eq!(p.get_parameter_text(-3), "");
    assert_eq!(p.get_parameter_label(2), "");
}

#[test]
fn names_labels_and_info() {
    let p = VSTPlugin::default();
    assert_eq!(p.get_parameter_name(0), "Threshold");
    assert_eq!(p.get_parameter_name(1), "Gain");
    assert_eq!(p.get_parameter_label(0), "%");
    assert_eq!(p.get_parameter_label(1), "%");
    assert_eq!(p.get_parameter_text(0), "100");
    assert_eq!(p.get_parameter_text(1), "100");
    assert_eq!(p.get_parameter(0), 1_000_000);
    assert_eq!(p.get_parameter(1), 1_000_000);
    assert_eq!(p.editor.open, None);
    assert!(p.can_be_automated(0));
    let info = p.get_info();
    assert_eq!(info.name, "DDConrod");
    assert_eq!(info.vendor, "DeathDisco");
    assert_eq!(info.unique_id, 7790);
    assert_eq!(info.category, PluginCategory::Effect);
    assert_eq!((info.inputs, info.outputs, info.parameters), (2, 2, 2));
}

#[test]
fn store_clamps_on_construction_and_reports_out_of_range() {
    let decls = vec![
        Parameter { name: "A".to_string(), unit: "dB".to_string(), value: -1 },
        Parameter { name: "B".to_string(), unit: "%".to_string(), value: 5_000_000 },
        Parameter { name: "C".to_string(), unit: "%".to_string(), value: 250_000 },
    ];
    let mut s = ParameterStore::new(&decls);
    assert_eq!(s.len(), 3);
    assert_eq!(s.get(0), Ok(10_000));
    assert_eq!(s.get(1), Ok(1_000_000));
    assert_eq!(s.get(2), Ok(250_000));
    assert_eq!(s.get(3), Err(ParamError::OutOfRange));
    assert_eq!(s.set(3, 1), Err(ParamError::OutOfRange));
    assert_eq!(s.set(2, 400_000), Ok(()));
    assert_eq!(s.get(2), Ok(400_000));
    assert_eq!(s.unit_of(0), Ok("dB".to_string()));
    assert_eq!(s.name_of(1), Ok("B".to_string()));
    assert_eq!(s.display_text_of(2), Ok("40".to_string()));
    assert_eq!(s.display_text_of(9), Err(ParamError::OutOfRange));
}

#[test]
fn process_buffer_scenario() {
    let p = VSTPlugin::new();
    let inputs = vec![vec![-2_000_000, 500_000, 2_000_000, -500_000]];
    let mut outputs = vec![vec![0; 4]];
    p.process(&inputs, &mut outputs);
    assert_eq!(outputs, vec![vec![-1_000_000, 500_000, 1_000_000, -500_000]]);
}

#[test]
fn process_uses_current_parameters() {
    let mut p = VSTPlugin::new();
    p.set_parameter(0, 500_000);
    p.set_parameter(1, 800_000);
    let inputs = vec![vec![300_000, -700_000, 0], vec![250_000]];
    let mut outputs = vec![vec![9, 9, 9, 9], vec![9, 9], vec![7]];
    p.process(&inputs, &mut outputs);
    assert_eq!(outputs, vec![vec![480_000, -800_000, 0, 9], vec![400_000, 9], vec![7]]);
}

#[test]
fn ui_changes_are_applied_in_order() {
    let mut p = VSTPlugin::new();
    let changes = vec![
        ParamChange { index: 1, value: 300_000 },
        ParamChange { index: 7, value: 1 },
        ParamChange { index: 1, value: -4 },
        ParamChange { index: 0, value: 600_000 },
    ];
    p.apply_ui_changes(&changes);
    assert_eq!(p.get_parameter(0), 600_000);
    assert_eq!(p.get_parameter(1), 10_000);
}

#[test]
fn reopen_gives_fresh_session() {
    let mut p = VSTPlugin::new();
    let first = p.open_editor(1, Ok(SIZE)).ok().unwrap();
    assert_eq!(p.editor.open, Some(first.id));
    assert!(p.close_editor());
    assert_eq!(p.editor.open, None);
    let second = p.open_editor(2, Ok(SurfaceSize { width: 640, height: 480 })).ok().unwrap();
    assert_ne!(second.id, first.id);
    assert_eq!(second.render.state, LoopState::Running);
    assert_eq!(second.render.frames, 0);
    assert_eq!(second.size, SurfaceSize { width: 640, height: 480 });
    assert_eq!(p.editor.open, Some(second.id));
}

#[test]
fn null_handle_opens_nothing() {
    let mut p = VSTPlugin::new();
    assert_eq!(p.check_open(0), Err(OpenError::NullHandle));
    assert_eq!(p.open_editor(0, Ok(SIZE)).err(), Some(OpenError::NullHandle));
    assert_eq!(p.editor.open, None);
    assert!(!p.close_editor());
    assert_eq!(p.editor.open, None);
}

#[test]
fn open_errors() {
    let mut p = VSTPlugin::new();
    assert_eq!(
        p.open_editor(5, Err(ConrodWindowError::GetInnerSizeFail)).err(),
        Some(OpenError::Window(ConrodWindowError::GetInnerSizeFail))
    );
    assert_eq!(p.editor.open, None);
    assert_eq!(p.check_open(5), Ok(()));
    assert!(p.open_editor(5, Ok(SIZE)).is_ok());
    assert_eq!(p.check_open(6), Err(OpenError::AlreadyOpen));
    assert_eq!(p.open_editor(6, Ok(SIZE)).err(), Some(OpenError::AlreadyOpen));
}

#[test]
fn surface_size_checks_in_order() {
    assert_eq!(surface_size(false, Some((1, 2))), Err(ConrodWindowError::GetWindowFail));
    assert_eq!(surface_size(true, None), Err(ConrodWindowError::GetInnerSizeFail));
    assert_eq!(surface_size(true, Some((500, 300))), Ok(SIZE));
}
