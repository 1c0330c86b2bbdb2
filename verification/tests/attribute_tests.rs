use animate::attribute::{
    easing_path, field_anim_type, field_mode, mode_token, plan_struct, spring_mode_ident,
    tween_interp_path, tween_mode_ident, type_to_module, update_method_name, AnimMode, AnimType,
    AttrError, DataShape, EasingPath, FieldAttrs, FieldPlan, InterpPath, PathShape,
};

#[test]
fn mode_from_string_reads_known_words() {
    assert_eq!(AnimMode::from_string("once"), Some(AnimMode::Once));
    assert_eq!(AnimMode::from_string("cycle"), Some(AnimMode::Cycle));
    assert_eq!(AnimMode::from_string("alternate"), Some(AnimMode::Alternate));
    assert_eq!(AnimMode::from_string("Once"), None);
    assert_eq!(AnimMode::from_string(""), None);
    assert_eq!(AnimMode::from_string("bounce"), None);
}

#[test]
fn mode_token_round_trips() {
    for m in [AnimMode::Once, AnimMode::Cycle, AnimMode::Alternate] {
        assert_eq!(AnimMode::from_string(mode_token(m)), Some(m));
    }
    assert_eq!(mode_token(AnimMode::Cycle), "cycle");
}

#[test]
fn mode_idents() {
    assert_eq!(tween_mode_ident("once"), "Once");
    assert_eq!(tween_mode_ident("cycle"), "Cycle");
    assert_eq!(tween_mode_ident("alternate"), "Alternate");
    assert_eq!(tween_mode_ident("other"), "Once");
    assert_eq!(spring_mode_ident("alternate"), "Alternate");
    assert_eq!(spring_mode_ident(""), "Once");
}

#[test]
fn anim_type_of_attributes() {
    assert_eq!(field_anim_type(0, true, false), Ok(Some(AnimType::Spring)));
    assert_eq!(field_anim_type(0, false, true), Ok(Some(AnimType::Tween)));
    assert_eq!(field_anim_type(0, false, false), Ok(None));
    assert_eq!(field_anim_type(3, true, true), Err(AttrError::BothSpringAndTween(3)));
}

#[test]
fn field_mode_defaults_to_once() {
    assert_eq!(field_mode(None, Some(AnimType::Tween)), Some("once"));
    assert_eq!(field_mode(Some(AnimMode::Cycle), Some(AnimType::Spring)), Some("cycle"));
    assert_eq!(field_mode(Some(AnimMode::Cycle), None), None);
}

#[test]
fn error_messages() {
    assert_eq!(AttrError::NotAStruct.message(), "#[animate] only supports structs");
    assert_eq!(
        AttrError::NotNamedFields.message(),
        "#[animate] only supports named field structs"
    );
    assert_eq!(
        AttrError::BothSpringAndTween(1).message(),
        "field cannot have both #[spring] and #[tween]"
    );
}

#[test]
fn easing_paths() {
    let bare = PathShape { leading_colon: false, segments: 1 };
    let long = PathShape { leading_colon: false, segments: 2 };
    let rooted = PathShape { leading_colon: true, segments: 1 };
    assert_eq!(easing_path(Some(bare)), EasingPath::InEasingModule);
    assert_eq!(easing_path(Some(long)), EasingPath::AsWritten);
    assert_eq!(easing_path(Some(rooted)), EasingPath::AsWritten);
    assert_eq!(easing_path(None), EasingPath::Linear);
}

#[test]
fn type_modules() {
    assert_eq!(type_to_module(Some("String")), "string");
    assert_eq!(type_to_module(Some("f64")), "num");
    assert_eq!(type_to_module(Some("u8")), "num");
    assert_eq!(type_to_module(Some("i8")), "num");
    assert_eq!(type_to_module(Some("Color")), "color");
    assert_eq!(type_to_module(Some("MyType")), "mytype");
    assert_eq!(type_to_module(None), "unknown");
}

#[test]
fn interp_paths() {
    let bare = PathShape { leading_colon: false, segments: 1 };
    let long = PathShape { leading_colon: false, segments: 3 };
    assert_eq!(
        tween_interp_path(Some("Color"), Some(bare)),
        InterpPath::InTypeModule("color".to_string())
    );
    assert_eq!(
        tween_interp_path(Some("u32"), Some(bare)),
        InterpPath::InTypeModule("num".to_string())
    );
    assert_eq!(tween_interp_path(Some("u32"), Some(long)), InterpPath::AsWritten);
    assert_eq!(tween_interp_path(Some("u32"), None), InterpPath::TypeDefault);
}

#[test]
fn update_method_names() {
    assert_eq!(update_method_name(None), "animate");
    assert_eq!(update_method_name(Some("tick_all")), "tick_all");
}

fn attrs(has_spring: bool, has_tween: bool, mode: Option<AnimMode>, duration: Option<u64>) -> FieldAttrs {
    FieldAttrs { has_spring, has_tween, mode, duration }
}

#[test]
fn plan_rejects_non_structs() {
    let fields = vec![attrs(true, true, None, None)];
    assert_eq!(plan_struct(DataShape::NotStruct, &fields).unwrap_err(), AttrError::NotAStruct);
    assert_eq!(
        plan_struct(DataShape::OtherStruct, &fields).unwrap_err(),
        AttrError::NotNamedFields
    );
}

#[test]
fn plan_reports_first_conflicting_field() {
    let fields = vec![
        attrs(false, true, None, None),
        attrs(true, true, None, None),
        attrs(true, true, None, None),
    ];
    assert_eq!(
        plan_struct(DataShape::NamedStruct, &fields).unwrap_err(),
        AttrError::BothSpringAndTween(1)
    );
}

#[test]
fn plan_each_field() {
    let fields = vec![
        attrs(false, false, Some(AnimMode::Cycle), Some(5)),
        attrs(false, true, None, Some(300)),
        attrs(false, true, Some(AnimMode::Cycle), None),
        attrs(true, false, Some(AnimMode::Alternate), None),
    ];
    let plans = plan_struct(DataShape::NamedStruct, &fields).unwrap();
    assert_eq!(plans.len(), 4);
    assert!(matches!(plans[0], FieldPlan::Plain));
    assert!(matches!(plans[1], FieldPlan::Tween { mode: "Once", duration: 300 }));
    assert!(matches!(plans[2], FieldPlan::Tween { mode: "Cycle", duration: 0 }));
    assert!(matches!(plans[3], FieldPlan::Spring { mode: "Alternate" }));
    let empty: Vec<FieldAttrs> = Vec::new();
    assert_eq!(plan_struct(DataShape::NamedStruct, &empty).unwrap().len(), 0);
}
