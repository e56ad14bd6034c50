use blinkmd_core::shortcuts::{
    dispatch_shortcut, shortcut_bindings, ModifierKey, Platform, PressState, ShortcutKey,
};

#[test]
fn macos_table_uses_the_super_modifier() {
    let table = shortcut_bindings(Platform::MacOs);
    assert_eq!(table.len(), 3);
    for binding in &table {
        assert_eq!(binding.modifier, ModifierKey::Super);
    }
}

#[test]
fn other_platforms_use_the_control_modifier() {
    let table = shortcut_bindings(Platform::Other);
    assert_eq!(table.len(), 3);
    for binding in &table {
        assert_eq!(binding.modifier, ModifierKey::Control);
    }
}

#[test]
fn table_binds_the_three_mode_events() {
    let table = shortcut_bindings(Platform::Other);
    assert_eq!(table[0].key, ShortcutKey::KeyE);
    assert_eq!(table[0].event, "blinkmd://shortcut-edit-mode");
    assert_eq!(table[1].key, ShortcutKey::KeyR);
    assert_eq!(table[1].event, "blinkmd://shortcut-preview-mode");
    assert_eq!(table[2].key, ShortcutKey::Backslash);
    assert_eq!(table[2].event, "blinkmd://shortcut-split-mode");
}

#[test]
fn pressing_a_bound_accelerator_emits_its_event() {
    let table = shortcut_bindings(Platform::Other);
    let emitted = dispatch_shortcut(
        &table,
        ModifierKey::Control,
        ShortcutKey::KeyR,
        PressState::Pressed,
    );
    assert_eq!(emitted, Some("blinkmd://shortcut-preview-mode"));
}

#[test]
fn releasing_an_accelerator_emits_nothing() {
    let table = shortcut_bindings(Platform::Other);
    let emitted = dispatch_shortcut(
        &table,
        ModifierKey::Control,
        ShortcutKey::KeyR,
        PressState::Released,
    );
    assert_eq!(emitted, None);
}

#[test]
fn an_unbound_accelerator_emits_nothing() {
    let table = shortcut_bindings(Platform::MacOs);
    // The macOS table binds Super, not Control.
    let emitted = dispatch_shortcut(
        &table,
        ModifierKey::Control,
        ShortcutKey::KeyE,
        PressState::Pressed,
    );
    assert_eq!(emitted, None);
}
