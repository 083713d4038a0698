//! The policy of one seat: its registry, its grab state and its cursor
//! preference, and what a key event does to them.

use vstd::prelude::*;
use crate::action::Action;
use crate::action::HostCommand;
use crate::chord::Chord;
use crate::chord::KEY_B;
use crate::chord::KEY_Y;
use crate::chord::MOD4;
use crate::registry::Registry;

verus! {

/// Whether the seat's keyboards are captured.
#[derive(Clone, Copy, Debug, PartialEq, Eq, Structural)]
pub enum GrabState {
    Normal,
    Grabbed,
}

/// An input device of the seat, as the host reports it.
#[derive(Clone, Copy, Debug, PartialEq, Eq, Structural)]
pub struct InputDevice {
    pub id: u64,
    pub keyboard: bool,
}

/// The two chords of the grab toggle. They differ, so that entering and
/// leaving can never be bound at once.
#[derive(Clone, Copy, Debug)]
pub struct GrabChords {
    enter: Chord,
    exit: Chord,
}

/// The chord that captures the keyboards unless another is chosen: the
/// key `y` on its own.
pub open spec fn standard_enter() -> Chord {
    Chord { mods: 0, sym: KEY_Y }
}

/// The chord that releases the keyboards unless another is chosen: Logo
/// with the key `b`.
pub open spec fn standard_exit() -> Chord {
    Chord { mods: MOD4, sym: KEY_B }
}

impl GrabChords {
    #[verifier::type_invariant]
    spec fn well_formed(&self) -> bool {
        self.enter != self.exit
    }

    /// The chord that captures the keyboards.
    pub closed spec fn enter_spec(&self) -> Chord {
        self.enter
    }

    /// The chord that releases the keyboards.
    pub closed spec fn exit_spec(&self) -> Chord {
        self.exit
    }

    /// The pair of chords, unless they are the same chord.
    pub fn new(enter: Chord, exit: Chord) -> (r: Option<GrabChords>)
        ensures
            r.is_some() <==> enter != exit,
            r matches Some(chords) ==> chords.enter_spec() == enter && chords.exit_spec() == exit,
    {
        if enter == exit {
            None
        } else {
            Some(GrabChords { enter, exit })
        }
    }

    /// The standard pair.
    pub fn standard() -> (r: GrabChords)
        ensures
            r.enter_spec() == standard_enter(),
            r.exit_spec() == standard_exit(),
    {
        GrabChords {
            enter: Chord { mods: 0, sym: KEY_Y },
            exit: Chord { mods: MOD4, sym: KEY_B },
        }
    }

    /// The chord that captures the keyboards.
    pub fn enter(&self) -> (r: Chord)
        ensures
            r == self.enter_spec(),
            r != self.exit_spec(),
    {
        proof {
            use_type_invariant(self);
        }
        self.enter
    }

    /// The chord that releases the keyboards.
    pub fn exit(&self) -> (r: Chord)
        ensures
            r == self.exit_spec(),
            r != self.enter_spec(),
    {
        proof {
            use_type_invariant(self);
        }
        self.exit
    }
}

/// The capture or release of every keyboard among `devices`, in their
/// order; devices without keys are passed over.
pub open spec fn capture_commands(devices: Seq<InputDevice>, grab: bool) -> Seq<HostCommand>
    decreases devices.len(),
{
    if devices.len() == 0 {
        Seq::empty()
    } else if devices.last().keyboard {
        capture_commands(devices.drop_last(), grab).push(
            HostCommand::GrabDevice { device: devices.last().id, grab },
        )
    } else {
        capture_commands(devices.drop_last(), grab)
    }
}

/// The identifiers of the keyboards among `devices`.
pub open spec fn keyboards(devices: Seq<InputDevice>) -> Set<u64> {
    Set::new(
        |id: u64|
            exists|i: int|
                0 <= i < devices.len() && (#[trigger] devices[i]).keyboard && devices[i].id == id,
    )
}

/// The devices held captive once the host has carried out `commands` from
/// first to last, `captured` being held before.
pub open spec fn captured_after(captured: Set<u64>, commands: Seq<HostCommand>) -> Set<u64>
    decreases commands.len(),
{
    if commands.len() == 0 {
        captured
    } else {
        let before = captured_after(captured, commands.drop_last());
        match commands.last() {
            HostCommand::GrabDevice { device, grab } => if grab {
                before.insert(device)
            } else {
                before.remove(device)
            },
            _ => before,
        }
    }
}

/// Capturing holds every keyboard and releasing lets every keyboard go,
/// whatever was held before; so a capture or a release that is repeated
/// changes nothing.
pub proof fn lemma_capture_idempotent(captured: Set<u64>, devices: Seq<InputDevice>, grab: bool)
    ensures
        grab ==> captured_after(captured, capture_commands(devices, grab)) == captured.union(
            keyboards(devices),
        ),
        !grab ==> captured_after(captured, capture_commands(devices, grab)) == captured.difference(
            keyboards(devices),
        ),
        captured_after(
            captured_after(captured, capture_commands(devices, grab)),
            capture_commands(devices, grab),
        ) == captured_after(captured, capture_commands(devices, grab)),
{
    lemma_capture_result(captured, devices, grab);
    let once = captured_after(captured, capture_commands(devices, grab));
    lemma_capture_result(once, devices, grab);
    if grab {
        assert(once.union(keyboards(devices)) =~= once);
    } else {
        assert(once.difference(keyboards(devices)) =~= once);
    }
}

proof fn lemma_capture_result(captured: Set<u64>, devices: Seq<InputDevice>, grab: bool)
    ensures
        grab ==> captured_after(captured, capture_commands(devices, grab)) == captured.union(
            keyboards(devices),
        ),
        !grab ==> captured_after(captured, capture_commands(devices, grab)) == captured.difference(
            keyboards(devices),
        ),
    decreases devices.len(),
{
    let commands = capture_commands(devices, grab);
    let result = captured_after(captured, commands);
    if devices.len() == 0 {
        assert(captured.union(keyboards(devices)) =~= captured);
        assert(captured.difference(keyboards(devices)) =~= captured);
    } else {
        let front = devices.drop_last();
        let last = devices.last();
        lemma_capture_result(captured, front, grab);
        assert forall|id: u64| keyboards(devices).contains(id) <==> keyboards(front).contains(id)
            || (last.keyboard && last.id == id) by {
            if keyboards(front).contains(id) {
                let i = choose|i: int|
                    0 <= i < front.len() && (#[trigger] front[i]).keyboard && front[i].id == id;
                assert(devices[i] == front[i]);
            }
            if last.keyboard && last.id == id {
                assert(devices[devices.len() - 1] == last);
            }
            if keyboards(devices).contains(id) {
                let i = choose|i: int|
                    0 <= i < devices.len() && (#[trigger] devices[i]).keyboard && devices[i].id
                        == id;
                if i < front.len() {
                    assert(front[i] == devices[i]);
                }
            }
        }
        if last.keyboard {
            let rest = capture_commands(front, grab);
            assert(commands.drop_last() == rest);
        }
        if grab {
            assert(result =~= captured.union(keyboards(devices)));
        } else {
            assert(result =~= captured.difference(keyboards(devices)));
        }
    }
}

/// Everything the policy remembers about a seat.
pub struct SeatState {
    pub bindings: Map<Chord, Action>,
    pub grab: GrabState,
    pub hardware_cursor: bool,
    pub enter: Chord,
    pub exit: Chord,
}

impl SeatState {
    /// A seat before anything is bound: not grabbed, the hardware cursor in
    /// use, and the entering chord as the only binding.
    pub open spec fn initial(enter: Chord, exit: Chord) -> SeatState {
        SeatState {
            bindings: Map::empty().insert(enter, Action::EnterGrab),
            grab: GrabState::Normal,
            hardware_cursor: true,
            enter,
            exit,
        }
    }

    /// Something is bound to the entering chord.
    pub open spec fn enter_bound(self) -> bool {
        self.bindings.contains_key(self.enter)
    }

    /// Something is bound to the leaving chord.
    pub open spec fn exit_bound(self) -> bool {
        self.bindings.contains_key(self.exit)
    }

    /// The registry shows the one toggle that fits the grab state: while
    /// not grabbed the entering chord and not the leaving one, while grabbed
    /// the leaving chord and not the entering one.
    pub open spec fn exclusive(self) -> bool {
        match self.grab {
            GrabState::Normal => {
                &&& self.enter_bound()
                &&& !self.exit_bound()
                &&& self.bindings[self.enter] == Action::EnterGrab
            },
            GrabState::Grabbed => {
                &&& self.exit_bound()
                &&& !self.enter_bound()
                &&& self.bindings[self.exit] == Action::ExitGrab
            },
        }
    }

    /// The seat with `action` stored under `chord`.
    pub open spec fn bound(self, chord: Chord, action: Action) -> SeatState {
        SeatState { bindings: self.bindings.insert(chord, action), ..self }
    }

    /// The seat with nothing stored under `chord`.
    pub open spec fn unbound(self, chord: Chord) -> SeatState {
        SeatState { bindings: self.bindings.remove(chord), ..self }
    }

    /// The seat after a transition of the grab toggle: the binding of the
    /// chord that led here is removed, the one that leads back is installed.
    pub open spec fn with_grab(self, grab: bool) -> SeatState {
        if grab {
            SeatState {
                bindings: self.bindings.remove(self.enter).insert(self.exit, Action::ExitGrab),
                grab: GrabState::Grabbed,
                ..self
            }
        } else {
            SeatState {
                bindings: self.bindings.remove(self.exit).insert(self.enter, Action::EnterGrab),
                grab: GrabState::Normal,
                ..self
            }
        }
    }

    /// What the host is asked to do for a transition of the grab toggle:
    /// capture or release each keyboard, then swap the two chords.
    pub open spec fn grab_commands(self, grab: bool, devices: Seq<InputDevice>) -> Seq<
        HostCommand,
    > {
        if grab {
            capture_commands(devices, true) + seq![
                HostCommand::Unbind(self.enter),
                HostCommand::Bind(self.exit),
            ]
        } else {
            capture_commands(devices, false) + seq![
                HostCommand::Unbind(self.exit),
                HostCommand::Bind(self.enter),
            ]
        }
    }

    /// The seat after `action` has run.
    pub open spec fn ran(self, action: Action) -> SeatState {
        match action {
            Action::EnterGrab => self.with_grab(true),
            Action::ExitGrab => self.with_grab(false),
            Action::ToggleHardwareCursor => SeatState {
                hardware_cursor: !self.hardware_cursor,
                ..self
            },
            _ => self,
        }
    }

    /// What the host is asked to do when `action` runs.
    pub open spec fn commands(self, action: Action, devices: Seq<InputDevice>) -> Seq<
        HostCommand,
    > {
        match action {
            Action::Focus(direction) => seq![HostCommand::Focus(direction)],
            Action::Move(direction) => seq![HostCommand::Move(direction)],
            Action::Split(axis) => seq![HostCommand::Split(axis)],
            Action::ToggleSplit => seq![HostCommand::ToggleSplit],
            Action::ToggleMono => seq![HostCommand::ToggleMono],
            Action::ToggleFullscreen => seq![HostCommand::ToggleFullscreen],
            Action::FocusParent => seq![HostCommand::FocusParent],
            Action::Close => seq![HostCommand::Close],
            Action::ToggleFloating => seq![HostCommand::ToggleFloating],
            Action::Launch(program) => seq![HostCommand::Spawn(program)],
            Action::Quit => seq![HostCommand::Quit],
            Action::Reload => seq![HostCommand::Reload],
            Action::ToggleHardwareCursor => seq![
                HostCommand::UseHardwareCursor(!self.hardware_cursor),
            ],
            Action::SwitchVt(number) => seq![HostCommand::SwitchVt(number)],
            Action::ShowWorkspace(number) => seq![HostCommand::ShowWorkspace(number)],
            Action::MoveToWorkspace(number) => seq![
                HostCommand::SetWorkspace(number),
                HostCommand::ShowWorkspace(number),
            ],
            Action::EnterGrab => self.grab_commands(true, devices),
            Action::ExitGrab => self.grab_commands(false, devices),
        }
    }

    /// The seat after a key event with this chord: the bound action has
    /// run, or nothing has changed where the chord is not bound.
    pub open spec fn pressed(self, chord: Chord) -> SeatState {
        if self.bindings.contains_key(chord) {
            self.ran(self.bindings[chord])
        } else {
            self
        }
    }

    /// The seat after a run of transitions of the grab toggle, `true` for
    /// entering and `false` for leaving.
    pub open spec fn after_transitions(self, transitions: Seq<bool>) -> SeatState
        decreases transitions.len(),
    {
        if transitions.len() == 0 {
            self
        } else {
            self.after_transitions(transitions.drop_last()).with_grab(transitions.last())
        }
    }

    /// The seat after a run of key events.
    pub open spec fn after_keys(self, chords: Seq<Chord>) -> SeatState
        decreases chords.len(),
    {
        if chords.len() == 0 {
            self
        } else {
            self.after_keys(chords.drop_last()).pressed(chords.last())
        }
    }
}

/// One seat's policy.
pub struct SeatPolicy {
    registry: Registry,
    grab: GrabState,
    hardware_cursor: bool,
    chords: GrabChords,
}

impl View for SeatPolicy {
    type V = SeatState;

    closed spec fn view(&self) -> SeatState {
        SeatState {
            bindings: self.registry@,
            grab: self.grab,
            hardware_cursor: self.hardware_cursor,
            enter: self.chords.enter_spec(),
            exit: self.chords.exit_spec(),
        }
    }
}

/// Collects the capture or release of each keyboard.
pub fn capture_keyboards(devices: &Vec<InputDevice>, grab: bool) -> (r: Vec<HostCommand>)
    ensures
        r@ == capture_commands(devices@, grab),
{
    let mut r: Vec<HostCommand> = Vec::new();
    let mut i: usize = 0;
    while i < devices.len()
        invariant
            i <= devices.len(),
            r@ == capture_commands(devices@.take(i as int), grab),
        decreases devices.len() - i,
    {
        proof {
            let upto = devices@.take(i + 1);
            assert(upto.drop_last() == devices@.take(i as int));
            assert(upto.last() == devices@[i as int]);
        }
        if devices[i].keyboard {
            r.push(HostCommand::GrabDevice { device: devices[i].id, grab });
        }
        i += 1;
    }
    proof {
        assert(devices@.take(i as int) == devices@);
    }
    r
}

impl SeatPolicy {
    /// The policy of a fresh seat.
    pub fn new(chords: GrabChords) -> (r: SeatPolicy)
        ensures
            r@ == SeatState::initial(chords.enter_spec(), chords.exit_spec()),
            r@.exclusive(),
    {
        let mut registry = Registry::new();
        registry.bind(chords.enter(), Action::EnterGrab);
        SeatPolicy { registry, grab: GrabState::Normal, hardware_cursor: true, chords }
    }

    /// Whether the keyboards are captured.
    pub fn grab_state(&self) -> (r: GrabState)
        ensures
            r == self@.grab,
    {
        self.grab
    }

    /// Whether the hardware cursor is in use.
    pub fn hardware_cursor(&self) -> (r: bool)
        ensures
            r == self@.hardware_cursor,
    {
        self.hardware_cursor
    }

    /// The two chords of the grab toggle.
    pub fn chords(&self) -> (r: GrabChords)
        ensures
            r.enter_spec() == self@.enter,
            r.exit_spec() == self@.exit,
    {
        self.chords
    }

    /// The bindings of the seat.
    pub fn registry(&self) -> (r: &Registry)
        ensures
            r@ == self@.bindings,
    {
        &self.registry
    }

    /// Stores `action` under `chord` for this seat, in place of whatever
    /// was there.
    pub fn bind(&mut self, chord: Chord, action: Action)
        ensures
            final(self)@ == old(self)@.bound(chord, action),
    {
        self.registry.bind(chord, action);
    }

    /// Removes the binding of `chord`, if there is one.
    pub fn unbind(&mut self, chord: Chord)
        ensures
            final(self)@ == old(self)@.unbound(chord),
    {
        self.registry.unbind(chord);
    }

    /// The action a key event with this chord would run.
    pub fn lookup(&self, chord: Chord) -> (r: Option<Action>)
        ensures
            r == (if self@.bindings.contains_key(chord) {
                Some(self@.bindings[chord])
            } else {
                None
            }),
    {
        self.registry.lookup(chord)
    }

    /// Makes a transition of the grab toggle, whatever the state before:
    /// every keyboard among `devices` is captured or released, and the
    /// binding of the one chord gives way to that of the other.
    pub fn set_grab(&mut self, grab: bool, devices: &Vec<InputDevice>) -> (r: Vec<HostCommand>)
        ensures
            final(self)@ == old(self)@.with_grab(grab),
            r@ == old(self)@.grab_commands(grab, devices@),
            final(self)@.exclusive(),
    {
        let enter = self.chords.enter();
        let exit = self.chords.exit();
        let mut r = capture_keyboards(devices, grab);
        if grab {
            self.registry.unbind(enter);
            self.registry.bind(exit, Action::ExitGrab);
            self.grab = GrabState::Grabbed;
            r.push(HostCommand::Unbind(enter));
            r.push(HostCommand::Bind(exit));
        } else {
            self.registry.unbind(exit);
            self.registry.bind(enter, Action::EnterGrab);
            self.grab = GrabState::Normal;
            r.push(HostCommand::Unbind(exit));
            r.push(HostCommand::Bind(enter));
        }
        assert(r@ =~= old(self)@.grab_commands(grab, devices@));
        r
    }

    /// Runs `action` on this seat and returns what the host is to do.
    pub fn run(&mut self, action: Action, devices: &Vec<InputDevice>) -> (r: Vec<HostCommand>)
        ensures
            final(self)@ == old(self)@.ran(action),
            r@ == old(self)@.commands(action, devices@),
    {
        let r = match action {
            Action::Focus(direction) => vec![HostCommand::Focus(direction)],
            Action::Move(direction) => vec![HostCommand::Move(direction)],
            Action::Split(axis) => vec![HostCommand::Split(axis)],
            Action::ToggleSplit => vec![HostCommand::ToggleSplit],
            Action::ToggleMono => vec![HostCommand::ToggleMono],
            Action::ToggleFullscreen => vec![HostCommand::ToggleFullscreen],
            Action::FocusParent => vec![HostCommand::FocusParent],
            Action::Close => vec![HostCommand::Close],
            Action::ToggleFloating => vec![HostCommand::ToggleFloating],
            Action::Launch(program) => vec![HostCommand::Spawn(program)],
            Action::Quit => vec![HostCommand::Quit],
            Action::Reload => vec![HostCommand::Reload],
            Action::ToggleHardwareCursor => {
                let preference = !self.hardware_cursor;
                self.hardware_cursor = preference;
                vec![HostCommand::UseHardwareCursor(preference)]
            },
            Action::SwitchVt(number) => vec![HostCommand::SwitchVt(number)],
            Action::ShowWorkspace(number) => vec![HostCommand::ShowWorkspace(number)],
            Action::MoveToWorkspace(number) => vec![
                HostCommand::SetWorkspace(number),
                HostCommand::ShowWorkspace(number),
            ],
            Action::EnterGrab => self.set_grab(true, devices),
            Action::ExitGrab => self.set_grab(false, devices),
        };
        assert(r@ =~= old(self)@.commands(action, devices@));
        r
    }

    /// Handles a key event: runs the action bound to the event's chord, and
    /// no other. `None` says that nothing is bound to the chord, so that the
    /// event passes through to the host untouched.
    pub fn handle_key(&mut self, chord: Chord, devices: &Vec<InputDevice>) -> (r: Option<
        Vec<HostCommand>,
    >)
        ensures
            final(self)@ == old(self)@.pressed(chord),
            r.is_some() <==> old(self)@.bindings.contains_key(chord),
            r matches Some(commands) ==> commands@ == old(self)@.commands(
                old(self)@.bindings[chord],
                devices@,
            ),
    {
        match self.registry.lookup(chord) {
            Some(action) => Some(self.run(action, devices)),
            None => None,
        }
    }
}

/// After a transition of the grab toggle, from whatever state, exactly one
/// of the two chords is bound: the leaving chord after entering, the
/// entering chord after leaving. Making the same transition again changes
/// nothing.
pub proof fn lemma_transition_exclusive(state: SeatState, grab: bool)
    requires
        state.enter != state.exit,
    ensures
        state.with_grab(grab).exclusive(),
        state.with_grab(grab).enter_bound() != state.with_grab(grab).exit_bound(),
        state.with_grab(grab).exit_bound() == grab,
        (state.with_grab(grab).grab == GrabState::Grabbed) == grab,
        state.with_grab(grab).with_grab(grab) == state.with_grab(grab),
{
    let once = state.with_grab(grab);
    assert(once.with_grab(grab).bindings =~= once.bindings);
}

/// After any run of transitions of the grab toggle, the seat being fresh or
/// the run not empty, exactly one of the two chords is bound, and it is the
/// one that fits the grab state.
pub proof fn lemma_transitions_exclusive(state: SeatState, transitions: Seq<bool>)
    requires
        state.enter != state.exit,
        state.exclusive() || transitions.len() > 0,
    ensures
        state.after_transitions(transitions).exclusive(),
        state.after_transitions(transitions).enter_bound() != state.after_transitions(
            transitions,
        ).exit_bound(),
        state.after_transitions(transitions).enter_bound() == (state.after_transitions(
            transitions,
        ).grab == GrabState::Normal),
    decreases transitions.len(),
{
    if transitions.len() > 0 {
        let before = state.after_transitions(transitions.drop_last());
        lemma_chords_kept(state, transitions.drop_last());
        lemma_transition_exclusive(before, transitions.last());
    }
}

proof fn lemma_chords_kept(state: SeatState, transitions: Seq<bool>)
    ensures
        state.after_transitions(transitions).enter == state.enter,
        state.after_transitions(transitions).exit == state.exit,
    decreases transitions.len(),
{
    if transitions.len() > 0 {
        lemma_chords_kept(state, transitions.drop_last());
    }
}

/// Key events keep the toggle exclusive: whatever chords are pressed on a
/// seat whose registry shows the one toggle that fits its grab state, it
/// still does so afterwards.
pub proof fn lemma_keys_keep_exclusive(state: SeatState, chords: Seq<Chord>)
    requires
        state.enter != state.exit,
        state.exclusive(),
    ensures
        state.after_keys(chords).exclusive(),
        state.after_keys(chords).enter == state.enter,
        state.after_keys(chords).exit == state.exit,
    decreases chords.len(),
{
    if chords.len() > 0 {
        let before = state.after_keys(chords.drop_last());
        lemma_keys_keep_exclusive(state, chords.drop_last());
        lemma_transition_exclusive(before, true);
        lemma_transition_exclusive(before, false);
    }
}

/// Binding or unbinding a chord other than the two of the toggle leaves the
/// toggle as it is.
pub proof fn lemma_other_chords_keep_exclusive(state: SeatState, chord: Chord, action: Action)
    requires
        state.exclusive(),
        chord != state.enter,
        chord != state.exit,
    ensures
        state.bound(chord, action).exclusive(),
        state.unbound(chord).exclusive(),
{
}

} // verus!
