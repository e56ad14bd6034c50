//! The global-shortcut table and its dispatch rule.
//!
//! The host toolkit performs the OS-level registration and reports each
//! press-state transition; the library decides which accelerators exist
//! on the target platform and which notification a report emits.

use vstd::prelude::*;

verus! {

/// The platform family a shortcut table is resolved for: the modifier
/// key differs on macOS from all other systems.
#[derive(Clone, Copy, Debug, PartialEq, Eq, Structural)]
pub enum Platform {
    MacOs,
    Other,
}

/// The modifier half of a global accelerator.
#[derive(Clone, Copy, Debug, PartialEq, Eq, Structural)]
pub enum ModifierKey {
    Super,
    Control,
}

/// The key half of a global accelerator.
#[derive(Clone, Copy, Debug, PartialEq, Eq, Structural)]
pub enum ShortcutKey {
    KeyE,
    KeyR,
    Backslash,
}

/// Whether the host toolkit reports the accelerator going down or up;
/// only the press edge emits a notification.
#[derive(Clone, Copy, Debug, PartialEq, Eq, Structural)]
pub enum PressState {
    Pressed,
    Released,
}

/// One registered accelerator and the notification it emits when
/// pressed.
#[derive(Clone, Copy, Debug)]
pub struct ShortcutBinding {
    pub modifier: ModifierKey,
    pub key: ShortcutKey,
    pub event: &'static str,
}

/// The modifier every accelerator uses on the given platform.
pub open spec fn platform_modifier(platform: Platform) -> ModifierKey {
    match platform {
        Platform::MacOs => ModifierKey::Super,
        Platform::Other => ModifierKey::Control,
    }
}

/// Whether a binding's accelerator is the one the toolkit reported.
pub open spec fn binding_matches(b: ShortcutBinding, modifier: ModifierKey, key: ShortcutKey) -> bool {
    b.modifier == modifier && b.key == key
}

/// The notification selected for a toolkit report: the first binding in
/// the table whose accelerator matches, and only on the press edge.
pub open spec fn dispatch_model(
    table: Seq<ShortcutBinding>,
    modifier: ModifierKey,
    key: ShortcutKey,
    state: PressState,
) -> Option<Seq<char>>
    decreases table.len(),
{
    if state != PressState::Pressed {
        None
    } else if table.len() == 0 {
        None
    } else if binding_matches(table[0], modifier, key) {
        Some(table[0].event@)
    } else {
        dispatch_model(table.drop_first(), modifier, key, state)
    }
}

/// The fixed accelerator table, resolved once at startup for the target
/// platform: edit mode, preview mode and split mode, all on the platform
/// modifier.
pub fn shortcut_bindings(platform: Platform) -> (table: Vec<ShortcutBinding>)
    ensures
        table@.len() == 3,
        table@[0].modifier == platform_modifier(platform),
        table@[0].key == ShortcutKey::KeyE,
        table@[0].event@ == "blinkmd://shortcut-edit-mode"@,
        table@[1].modifier == platform_modifier(platform),
        table@[1].key == ShortcutKey::KeyR,
        table@[1].event@ == "blinkmd://shortcut-preview-mode"@,
        table@[2].modifier == platform_modifier(platform),
        table@[2].key == ShortcutKey::Backslash,
        table@[2].event@ == "blinkmd://shortcut-split-mode"@,
{
    let modifier = match platform {
        Platform::MacOs => ModifierKey::Super,
        Platform::Other => ModifierKey::Control,
    };
    let mut table: Vec<ShortcutBinding> = Vec::new();
    table.push(
        ShortcutBinding {
            modifier: modifier,
            key: ShortcutKey::KeyE,
            event: "blinkmd://shortcut-edit-mode",
        },
    );
    table.push(
        ShortcutBinding {
            modifier: modifier,
            key: ShortcutKey::KeyR,
            event: "blinkmd://shortcut-preview-mode",
        },
    );
    table.push(
        ShortcutBinding {
            modifier: modifier,
            key: ShortcutKey::Backslash,
            event: "blinkmd://shortcut-split-mode",
        },
    );
    table
}

/// A prefix of the table with no matching binding does not change what
/// is dispatched.
proof fn lemma_dispatch_skip(
    table: Seq<ShortcutBinding>,
    modifier: ModifierKey,
    key: ShortcutKey,
    k: int,
)
    requires
        0 <= k <= table.len(),
        forall|j: int| 0 <= j < k ==> !binding_matches(table[j], modifier, key),
    ensures
        dispatch_model(table, modifier, key, PressState::Pressed) == dispatch_model(
            table.subrange(k, table.len() as int),
            modifier,
            key,
            PressState::Pressed,
        ),
    decreases k,
{
    if k == 0 {
        assert(table.subrange(0, table.len() as int) =~= table);
    } else {
        let tail = table.drop_first();
        assert(!binding_matches(table[0], modifier, key));
        assert forall|j: int| 0 <= j < k - 1 implies !binding_matches(
            tail[j],
            modifier,
            key,
        ) by {
            assert(tail[j] == table[j + 1]);
        }
        lemma_dispatch_skip(tail, modifier, key, k - 1);
        assert(tail.subrange(k - 1, tail.len() as int) =~= table.subrange(
            k,
            table.len() as int,
        ));
    }
}

/// Picks the notification to emit for one toolkit report, scanning the
/// table in order. Release edges emit nothing.
pub fn dispatch_shortcut(
    table: &Vec<ShortcutBinding>,
    modifier: ModifierKey,
    key: ShortcutKey,
    state: PressState,
) -> (r: Option<&'static str>)
    ensures
        (match r {
            Some(e) => Some(e@),
            None => None::<Seq<char>>,
        }) == dispatch_model(table@, modifier, key, state),
{
    match state {
        PressState::Released => {
            return None;
        },
        PressState::Pressed => {},
    }
    let n: usize = table.len();
    let mut i: usize = 0;
    while i < n
        invariant
            state == PressState::Pressed,
            n == table@.len(),
            i <= n,
            forall|j: int| 0 <= j < i ==> !binding_matches(table@[j], modifier, key),
        decreases n - i,
    {
        let b = table[i];
        if b.modifier == modifier && b.key == key {
            proof {
                lemma_dispatch_skip(table@, modifier, key, i as int);
                let sub = table@.subrange(i as int, n as int);
                assert(sub[0] == table@[i as int]);
                assert(binding_matches(sub[0], modifier, key));
            }
            return Some(b.event);
        }
        i = i + 1;
    }
    proof {
        lemma_dispatch_skip(table@, modifier, key, n as int);
        assert(table@.subrange(n as int, n as int).len() == 0);
    }
    None
}

} // verus!
