//! The shortcut registry: the configured shortcuts, the hotkeys that the
//! host accepted for them, and the lookup of a fired hotkey.
use crate::actions::{action_for_id, action_of, Action};
use crate::keys::{parse_shortcut, parse_spec, tokens_of, Hotkey, KeyCode, Modifiers};
use vstd::prelude::*;

verus! {

/// A configured shortcut: the action identifier and the key tokens.
#[derive(Clone, Debug)]
pub struct ShortcutConfig {
    pub id: String,
    pub keys: Vec<String>,
}

pub type ConfigView = (Seq<char>, Seq<Seq<char>>);

impl View for ShortcutConfig {
    type V = ConfigView;

    open spec fn view(&self) -> ConfigView {
        (self.id@, tokens_of(self.keys@))
    }
}

pub open spec fn configs_view(v: Seq<ShortcutConfig>) -> Seq<ConfigView> {
    v.map_values(|c: ShortcutConfig| c@)
}

impl ShortcutConfig {
    /// A copy with the same identifier and tokens.
    pub fn duplicate(&self) -> (r: ShortcutConfig)
        ensures
            r@ == self@,
    {
        let mut keys: Vec<String> = Vec::new();
        let mut i: usize = 0;
        while i < self.keys.len()
            invariant
                0 <= i <= self.keys.len(),
                keys@ == self.keys@.take(i as int),
            decreases self.keys.len() - i,
        {
            let k = self.keys[i].clone();
            keys.push(k);
            assert(keys@ =~= self.keys@.take(i + 1));
            i += 1;
        }
        assert(self.keys@.take(i as int) =~= self.keys@);
        ShortcutConfig { id: self.id.clone(), keys }
    }
}

/// A hotkey to register with the host, and the action identifier it fires.
#[derive(Clone, Debug)]
pub struct Registration {
    pub id: String,
    pub hotkey: Hotkey,
}

pub type RegistrationView = (Seq<char>, Hotkey);

impl View for Registration {
    type V = RegistrationView;

    open spec fn view(&self) -> RegistrationView {
        (self.id@, self.hotkey)
    }
}

pub open spec fn registrations_view(v: Seq<Registration>) -> Seq<RegistrationView> {
    v.map_values(|r: Registration| r@)
}

/// The registrations for a list of shortcuts, in input order: one for each
/// shortcut whose keys parse, none for the others.
pub open spec fn registration_plan(cfgs: Seq<ConfigView>) -> Seq<RegistrationView>
    decreases cfgs.len(),
{
    if cfgs.len() == 0 {
        seq![]
    } else {
        let rest = registration_plan(cfgs.drop_last());
        match parse_spec(cfgs.last().1) {
            Some(h) => rest.push((cfgs.last().0, h)),
            None => rest,
        }
    }
}

/// The identifier of the first registration of a hotkey in the table.
pub open spec fn bound_id(table: Seq<RegistrationView>, h: Hotkey) -> Option<Seq<char>>
    decreases table.len(),
{
    if table.len() == 0 {
        None
    } else if table[0].1 == h {
        Some(table[0].0)
    } else {
        bound_id(table.drop_first(), h)
    }
}

/// The action of a hotkey event: only a press of a registered hotkey acts.
pub open spec fn fire_spec(table: Seq<RegistrationView>, h: Hotkey, pressed: bool) -> Option<
    Action,
> {
    if !pressed {
        None
    } else {
        match bound_id(table, h) {
            Some(id) => Some(action_of(id)),
            None => None,
        }
    }
}

/// The registry: the stored shortcuts, and the dispatch table of the hotkeys
/// that the host accepted.
pub struct ShortcutState {
    current_shortcuts: Vec<ShortcutConfig>,
    registered: Vec<Registration>,
}

pub type StateView = (Seq<ConfigView>, Seq<RegistrationView>);

impl View for ShortcutState {
    type V = StateView;

    closed spec fn view(&self) -> StateView {
        (configs_view(self.current_shortcuts@), registrations_view(self.registered@))
    }
}

/// The registry right after its shortcuts were replaced by `cfgs`: every
/// earlier hotkey unregistered, none of the new ones registered yet.
pub open spec fn replaced(cfgs: Seq<ConfigView>) -> StateView {
    (cfgs, seq![])
}

impl ShortcutState {
    /// An empty registry.
    pub fn new() -> (r: ShortcutState)
        ensures
            r@ == (Seq::<ConfigView>::empty(), Seq::<RegistrationView>::empty()),
    {
        let r = ShortcutState { current_shortcuts: Vec::new(), registered: Vec::new() };
        assert(r@.0 =~= Seq::<ConfigView>::empty());
        assert(r@.1 =~= Seq::<RegistrationView>::empty());
        r
    }

    /// Adds a registration that the host accepted to the dispatch table.
    pub fn record_registration(&mut self, reg: Registration)
        ensures
            final(self)@ == (old(self)@.0, old(self)@.1.push(reg@)),
    {
        let ghost before = registrations_view(self.registered@);
        self.registered.push(reg);
        assert(registrations_view(self.registered@) =~= before.push(reg@));
    }

    /// The action of a hotkey event: `None` for a release, or for a hotkey
    /// that is not in the dispatch table.
    pub fn fire(&self, hotkey: Hotkey, pressed: bool) -> (r: Option<Action>)
        ensures
            r == fire_spec(self@.1, hotkey, pressed),
    {
        if !pressed {
            return None;
        }
        let ghost table = self@.1;
        let mut i: usize = 0;
        assert(table.subrange(0, table.len() as int) =~= table);
        while i < self.registered.len()
            invariant
                0 <= i <= self.registered.len(),
                pressed,
                table == registrations_view(self.registered@),
                bound_id(table, hotkey) == bound_id(table.subrange(i as int, table.len() as int), hotkey),
            decreases self.registered.len() - i,
        {
            let ghost rest = table.subrange(i as int, table.len() as int);
            assert(rest[0] == self.registered@[i as int]@);
            if self.registered[i].hotkey == hotkey {
                let a = action_for_id(&self.registered[i].id);
                assert(rest.len() > 0);
                assert(rest[0].1 == hotkey);
                assert(bound_id(rest, hotkey) == Some(self.registered@[i as int].id@));
                return Some(a);
            }
            assert(rest.drop_first() =~= table.subrange(i + 1, table.len() as int));
            i += 1;
        }
        None
    }
}

/// Replaces the stored shortcuts and clears the dispatch table. Returns the
/// registrations to make with the host, in input order; the caller records
/// each one that the host accepts, and stops at the first it refuses.
pub fn update_shortcuts(state: &mut ShortcutState, shortcuts: Vec<ShortcutConfig>) -> (r: Vec<Registration>)
    ensures
        final(state)@ == replaced(configs_view(shortcuts@)),
        registrations_view(r@) == registration_plan(configs_view(shortcuts@)),
{
    let ghost cfgs = configs_view(shortcuts@);
    let mut plan: Vec<Registration> = Vec::new();
    let mut i: usize = 0;
    while i < shortcuts.len()
        invariant
            0 <= i <= shortcuts.len(),
            cfgs == configs_view(shortcuts@),
            registrations_view(plan@) == registration_plan(cfgs.take(i as int)),
        decreases shortcuts.len() - i,
    {
        let cfg = &shortcuts[i];
        assert(cfgs.take(i + 1).drop_last() =~= cfgs.take(i as int));
        assert(cfgs.take(i + 1).last() == cfg@);
        match parse_shortcut(&cfg.keys) {
            Some(hotkey) => {
                let ghost before = registrations_view(plan@);
                plan.push(Registration { id: cfg.id.clone(), hotkey });
                assert(registrations_view(plan@) =~= before.push((cfg.id@, hotkey)));
            },
            None => {},
        }
        i += 1;
    }
    assert(cfgs.take(i as int) =~= cfgs);
    state.current_shortcuts = shortcuts;
    state.registered = Vec::new();
    assert(registrations_view(state.registered@) =~= Seq::<RegistrationView>::empty());
    plan
}

/// A copy of the stored shortcuts.
pub fn get_shortcuts(state: &ShortcutState) -> (r: Vec<ShortcutConfig>)
    ensures
        configs_view(r@) == state@.0,
{
    let mut out: Vec<ShortcutConfig> = Vec::new();
    let mut i: usize = 0;
    while i < state.current_shortcuts.len()
        invariant
            0 <= i <= state.current_shortcuts.len(),
            out@.len() == i,
            forall|j: int| 0 <= j < i ==> (#[trigger] out@[j])@ == state.current_shortcuts@[j]@,
        decreases state.current_shortcuts.len() - i,
    {
        let c = state.current_shortcuts[i].duplicate();
        out.push(c);
        i += 1;
    }
    assert(configs_view(out@) =~= configs_view(state.current_shortcuts@));
    out
}

/// The built-in binding, registered at startup before any configuration:
/// Meta+Shift+K toggles the bubble window.
pub fn builtin_registration() -> (r: Registration)
    ensures
        r@ == (
            "show-hide-bubble"@,
            Hotkey {
                modifiers: Modifiers { meta: true, control: false, alt: false, shift: true },
                key: KeyCode::Letter(75),
            },
        ),
{
    Registration {
        id: "show-hide-bubble".to_owned(),
        hotkey: Hotkey {
            modifiers: Modifiers { meta: true, control: false, alt: false, shift: true },
            key: KeyCode::Letter(75),
        },
    }
}

/// Replacing the shortcuts by none always succeeds, as nothing is to be
/// registered, and leaves the stored set empty.
pub proof fn lemma_replace_with_none(cfgs: Seq<ConfigView>)
    requires
        cfgs.len() == 0,
    ensures
        registration_plan(cfgs) == Seq::<RegistrationView>::empty(),
        replaced(cfgs).0 == Seq::<ConfigView>::empty(),
{
    assert(cfgs =~= Seq::<ConfigView>::empty());
}

/// Two shortcuts with the same identifier are both registered, in order,
/// when both parse.
pub proof fn lemma_shared_id_both_registered(a: ConfigView, b: ConfigView)
    requires
        a.0 == b.0,
        parse_spec(a.1) is Some,
        parse_spec(b.1) is Some,
    ensures
        registration_plan(seq![a, b]) == seq![(a.0, parse_spec(a.1)->0), (b.0, parse_spec(b.1)->0)],
{
    assert(seq![a, b].drop_last() =~= seq![a]);
    assert(seq![a].drop_last() =~= Seq::<ConfigView>::empty());
    assert(seq![a].last() == a);
    assert(seq![a, b].last() == b);
    assert(registration_plan(Seq::<ConfigView>::empty()) == Seq::<RegistrationView>::empty());
    assert(Seq::<RegistrationView>::empty().push((a.0, parse_spec(a.1)->0)) =~= seq![
        (a.0, parse_spec(a.1)->0),
    ]);
    assert(registration_plan(seq![a]) =~= seq![(a.0, parse_spec(a.1)->0)]);
    assert(registration_plan(seq![a, b]) =~= seq![
        (a.0, parse_spec(a.1)->0),
        (b.0, parse_spec(b.1)->0),
    ]);
}

/// Once the shortcuts are replaced by none, no hotkey event acts, whatever
/// was bound before: neither right after the replacement nor once every
/// planned registration is recorded.
pub proof fn lemma_cleared_registry_is_silent(cfgs: Seq<ConfigView>, h: Hotkey, pressed: bool)
    requires
        cfgs.len() == 0,
    ensures
        fire_spec(replaced(cfgs).1, h, pressed) is None,
        fire_spec(replaced(cfgs).1 + registration_plan(cfgs), h, pressed) is None,
{
    lemma_replace_with_none(cfgs);
    assert(replaced(cfgs).1 + registration_plan(cfgs) =~= Seq::<RegistrationView>::empty());
}

} // verus!
