use textual_rs::keys::{Key, Modifiers};
use textual_rs::widget_impl::{
    method_exists, parse_key_combo, plan_widget_impl, AttrKind, KeyComboError, MethodAttr,
};

fn mods(control: bool, shift: bool, alt: bool) -> Modifiers {
    Modifiers { shift, control, alt, other: false }
}

#[test]
fn combo_plain_named_keys() {
    assert_eq!(parse_key_combo("enter"), Ok((Key::Enter, Modifiers::none())));
    assert_eq!(parse_key_combo("Escape"), Ok((Key::Esc, Modifiers::none())));
    assert_eq!(parse_key_combo("del"), Ok((Key::Delete, Modifiers::none())));
    assert_eq!(parse_key_combo("PageDown"), Ok((Key::PageDown, Modifiers::none())));
    assert_eq!(parse_key_combo("space"), Ok((Key::Char(' '), Modifiers::none())));
    assert_eq!(parse_key_combo("f12"), Ok((Key::F(12), Modifiers::none())));
}

#[test]
fn combo_single_char_lowercased() {
    assert_eq!(parse_key_combo("a"), Ok((Key::Char('a'), Modifiers::none())));
    assert_eq!(parse_key_combo("Q"), Ok((Key::Char('q'), Modifiers::none())));
    assert_eq!(parse_key_combo("?"), Ok((Key::Char('?'), Modifiers::none())));
}

#[test]
fn combo_with_modifiers() {
    assert_eq!(parse_key_combo("ctrl+s"), Ok((Key::Char('s'), mods(true, false, false))));
    assert_eq!(parse_key_combo("shift+tab"), Ok((Key::Tab, mods(false, true, false))));
    assert_eq!(parse_key_combo("Control+Alt+Delete"), Ok((Key::Delete, mods(true, false, true))));
    assert_eq!(parse_key_combo("ctrl+ctrl+x"), Ok((Key::Char('x'), mods(true, false, false))));
}

#[test]
fn combo_unknown_key_reported_first() {
    assert_eq!(parse_key_combo("ctrl+bogus"), Err(KeyComboError::UnknownKey("bogus".to_string())));
    assert_eq!(parse_key_combo("hyper+zz"), Err(KeyComboError::UnknownKey("zz".to_string())));
    assert_eq!(parse_key_combo(""), Err(KeyComboError::UnknownKey(String::new())));
    assert_eq!(parse_key_combo("ctrl+"), Err(KeyComboError::UnknownKey(String::new())));
    assert_eq!(parse_key_combo("é"), Err(KeyComboError::UnknownKey("é".to_string())));
    assert_eq!(parse_key_combo("f13"), Err(KeyComboError::UnknownKey("f13".to_string())));
}

#[test]
fn combo_unknown_modifier_reported() {
    assert_eq!(
        parse_key_combo("ctrl+Super+s"),
        Err(KeyComboError::UnknownModifier("super".to_string()))
    );
    assert_eq!(
        parse_key_combo("meta+hyper+a"),
        Err(KeyComboError::UnknownModifier("meta".to_string()))
    );
}

#[test]
fn method_lookup_by_name() {
    let names = vec!["render".to_string(), "on_mount".to_string()];
    assert!(method_exists(&names, "on_mount"));
    assert!(!method_exists(&names, "on_event"));
}

#[test]
fn widget_impl_plan_collects_handlers_and_bindings() {
    let attrs = vec![
        MethodAttr { method: 0, index: 0, kind: AttrKind::Other },
        MethodAttr { method: 1, index: 0, kind: AttrKind::On },
        MethodAttr {
            method: 2,
            index: 0,
            kind: AttrKind::Keybinding("ctrl+s".to_string(), "save".to_string()),
        },
        MethodAttr { method: 2, index: 1, kind: AttrKind::Other },
    ];
    let names = vec!["render".to_string(), "on_press".to_string(), "save".to_string(), "can_focus".to_string()];
    let plan = plan_widget_impl(&attrs, &names).expect("plan");
    assert_eq!(plan.retained, vec![(0, 0), (2, 1)]);
    assert_eq!(plan.on_handlers, vec![(1, 0)]);
    assert_eq!(plan.keybindings.len(), 1);
    assert_eq!(plan.keybindings[0].key, Key::Char('s'));
    assert_eq!(plan.keybindings[0].modifiers, mods(true, false, false));
    assert_eq!(plan.keybindings[0].action, "save");
    assert_eq!(plan.keybindings[0].method, 2);
    assert!(plan.inject_widget_type_name);
    assert!(!plan.inject_can_focus);
    assert!(plan.inject_on_mount && plan.inject_on_unmount);
    assert!(plan.inject_on_event && plan.inject_key_bindings && plan.inject_on_action);
}

#[test]
fn widget_impl_plan_respects_manual_methods() {
    let attrs = vec![MethodAttr {
        method: 0,
        index: 0,
        kind: AttrKind::Keybinding("enter".to_string(), "go".to_string()),
    }];
    let names = vec!["go".to_string(), "on_action".to_string(), "widget_type_name".to_string()];
    let plan = plan_widget_impl(&attrs, &names).expect("plan");
    assert!(!plan.inject_on_action);
    assert!(plan.inject_key_bindings);
    assert!(!plan.inject_on_event, "no #[on] handlers, no on_event");
    assert!(!plan.inject_widget_type_name);
}

#[test]
fn widget_impl_plan_reports_every_bad_combo() {
    let attrs = vec![
        MethodAttr { method: 0, index: 0, kind: AttrKind::Keybinding("nope".to_string(), "a".to_string()) },
        MethodAttr { method: 1, index: 2, kind: AttrKind::Keybinding("enter".to_string(), "b".to_string()) },
        MethodAttr { method: 1, index: 3, kind: AttrKind::Keybinding("win+x".to_string(), "c".to_string()) },
    ];
    let errs = plan_widget_impl(&attrs, &vec![]).unwrap_err();
    assert_eq!(errs.len(), 2);
    assert_eq!((errs[0].method, errs[0].index), (0, 0));
    assert_eq!(errs[0].error, KeyComboError::UnknownKey("nope".to_string()));
    assert_eq!((errs[1].method, errs[1].index), (1, 3));
    assert_eq!(errs[1].error, KeyComboError::UnknownModifier("win".to_string()));
}
