//! The default key bindings and the programs started with the session.

use vstd::prelude::*;
use crate::action::Action;
use crate::action::Axis;
use crate::action::Direction;
use crate::action::Program;
use crate::chord::digit_key;
use crate::chord::digit_key_spec;
use crate::chord::function_key;
use crate::chord::function_key_spec;
use crate::chord::Chord;
use crate::chord::ALT;
use crate::chord::CTRL;
use crate::chord::KEY_BRACKETLEFT;
use crate::chord::KEY_BRACKETRIGHT;
use crate::chord::KEY_D;
use crate::chord::KEY_F;
use crate::chord::KEY_H;
use crate::chord::KEY_I;
use crate::chord::KEY_J;
use crate::chord::KEY_K;
use crate::chord::KEY_L;
use crate::chord::KEY_M;
use crate::chord::KEY_P;
use crate::chord::KEY_Q;
use crate::chord::KEY_R;
use crate::chord::KEY_RETURN;
use crate::chord::KEY_SLASH;
use crate::chord::KEY_T;
use crate::chord::KEY_U;
use crate::chord::KEY_V;
use crate::chord::KEY_X;
use crate::chord::MOD4;
use crate::chord::MOD5;
use crate::chord::SHIFT;
use crate::decimal::decimal;
use crate::decimal::decimal_text;
use crate::registry::bind_each;
use crate::registry::distinct_chords;
use crate::registry::lemma_bind_each_keys;
use crate::registry::lemma_bind_each_value;
use crate::registry::mentions;
use crate::registry::Binding;
use crate::seat::GrabChords;
use crate::seat::SeatPolicy;
use crate::seat::standard_enter;
use crate::seat::standard_exit;
use crate::seat::SeatState;

verus! {

/// The name of the seat the bindings are installed on.
pub const SEAT: &'static str = "default";

/// How many virtual terminals have a function key.
pub const VIRTUAL_TERMINALS: u32 = 12;

/// How many workspaces have a digit key.
pub const WORKSPACES: u32 = 6;

/// The binding of an action to a symbol under a set of modifiers.
pub open spec fn key(mods: u32, sym: u32, action: Action) -> Binding {
    Binding { chord: Chord { mods, sym }, action }
}

/// The bindings of the letter and punctuation keys under the modifier `m`.
pub open spec fn fixed_bindings(m: u32) -> Seq<Binding> {
    seq![
        key(m, KEY_H, Action::Focus(Direction::Left)),
        key(m, KEY_J, Action::Focus(Direction::Down)),
        key(m, KEY_K, Action::Focus(Direction::Up)),
        key(m, KEY_L, Action::Focus(Direction::Right)),
        key(m | SHIFT, KEY_H, Action::Move(Direction::Left)),
        key(m | SHIFT, KEY_J, Action::Move(Direction::Down)),
        key(m | SHIFT, KEY_K, Action::Move(Direction::Up)),
        key(m | SHIFT, KEY_L, Action::Move(Direction::Right)),
        key(m, KEY_D, Action::Split(Axis::Horizontal)),
        key(m, KEY_V, Action::Split(Axis::Vertical)),
        key(m, KEY_T, Action::ToggleSplit),
        key(m, KEY_M, Action::ToggleMono),
        key(m, KEY_U, Action::ToggleFullscreen),
        key(m, KEY_F, Action::FocusParent),
        key(m | SHIFT, KEY_Q, Action::Close),
        key(m | SHIFT, KEY_F, Action::ToggleFloating),
        key(m | SHIFT, KEY_RETURN, Action::Launch(Program::Terminal)),
        key(m, KEY_P, Action::Launch(Program::Launcher)),
        key(m, KEY_BRACKETLEFT, Action::Launch(Program::PasswordMenu)),
        key(m, KEY_BRACKETRIGHT, Action::Launch(Program::Bookmarks)),
        key(m, KEY_SLASH, Action::Launch(Program::Notifications)),
        key(m | SHIFT, KEY_I, Action::Launch(Program::Browser)),
        key(m, KEY_I, Action::Launch(Program::BrowserProfiles)),
        key(m, KEY_X, Action::Quit),
        key(m | SHIFT, KEY_R, Action::Reload),
        key(m | SHIFT, KEY_M, Action::ToggleHardwareCursor),
    ]
}

/// Ctrl and Alt with function key `n` switch to virtual terminal `n`.
pub open spec fn terminal_bindings() -> Seq<Binding> {
    Seq::new(
        VIRTUAL_TERMINALS as nat,
        |i: int| key(CTRL | ALT, function_key_spec(i + 1), Action::SwitchVt((i + 1) as u32)),
    )
}

/// The modifier with digit key `n` shows workspace `n`; with Shift as well
/// it moves the focused container there first.
pub open spec fn workspace_bindings(m: u32) -> Seq<Binding> {
    Seq::new(
        2 * WORKSPACES as nat,
        |i: int|
            if i % 2 == 0 {
                key(m, digit_key_spec(i / 2 + 1), Action::ShowWorkspace((i / 2 + 1) as u32))
            } else {
                key(
                    m | SHIFT,
                    digit_key_spec(i / 2 + 1),
                    Action::MoveToWorkspace((i / 2 + 1) as u32),
                )
            },
    )
}

/// The whole default table under the modifier `m`, in the order in which it
/// is bound.
pub open spec fn default_table(m: u32) -> Seq<Binding> {
    fixed_bindings(m) + terminal_bindings() + workspace_bindings(m)
}

fn entry(mods: u32, sym: u32, action: Action) -> (r: Binding)
    ensures
        r == key(mods, sym, action),
{
    Binding { chord: Chord { mods, sym }, action }
}

/// Builds the default table under the modifier `m`.
pub fn default_bindings(m: u32) -> (r: Vec<Binding>)
    ensures
        r@ == default_table(m),
{
    let s = m | SHIFT;
    let mut r = vec![
        entry(m, KEY_H, Action::Focus(Direction::Left)),
        entry(m, KEY_J, Action::Focus(Direction::Down)),
        entry(m, KEY_K, Action::Focus(Direction::Up)),
        entry(m, KEY_L, Action::Focus(Direction::Right)),
        entry(s, KEY_H, Action::Move(Direction::Left)),
        entry(s, KEY_J, Action::Move(Direction::Down)),
        entry(s, KEY_K, Action::Move(Direction::Up)),
        entry(s, KEY_L, Action::Move(Direction::Right)),
        entry(m, KEY_D, Action::Split(Axis::Horizontal)),
        entry(m, KEY_V, Action::Split(Axis::Vertical)),
        entry(m, KEY_T, Action::ToggleSplit),
        entry(m, KEY_M, Action::ToggleMono),
        entry(m, KEY_U, Action::ToggleFullscreen),
        entry(m, KEY_F, Action::FocusParent),
        entry(s, KEY_Q, Action::Close),
        entry(s, KEY_F, Action::ToggleFloating),
        entry(s, KEY_RETURN, Action::Launch(Program::Terminal)),
        entry(m, KEY_P, Action::Launch(Program::Launcher)),
        entry(m, KEY_BRACKETLEFT, Action::Launch(Program::PasswordMenu)),
        entry(m, KEY_BRACKETRIGHT, Action::Launch(Program::Bookmarks)),
        entry(m, KEY_SLASH, Action::Launch(Program::Notifications)),
        entry(s, KEY_I, Action::Launch(Program::Browser)),
        entry(m, KEY_I, Action::Launch(Program::BrowserProfiles)),
        entry(m, KEY_X, Action::Quit),
        entry(s, KEY_R, Action::Reload),
        entry(s, KEY_M, Action::ToggleHardwareCursor),
    ];
    assert(r@ =~= fixed_bindings(m));
    let mut n: u32 = 1;
    while n <= VIRTUAL_TERMINALS
        invariant
            1 <= n <= VIRTUAL_TERMINALS + 1,
            r@ == fixed_bindings(m) + terminal_bindings().take(n - 1),
        decreases VIRTUAL_TERMINALS + 1 - n,
    {
        r.push(entry(CTRL | ALT, function_key(n), Action::SwitchVt(n)));
        assert(r@ =~= fixed_bindings(m) + terminal_bindings().take(n as int));
        n += 1;
    }
    assert(terminal_bindings().take(VIRTUAL_TERMINALS as int) == terminal_bindings());
    let mut n: u32 = 1;
    while n <= WORKSPACES
        invariant
            1 <= n <= WORKSPACES + 1,
            s == m | SHIFT,
            r@ == fixed_bindings(m) + terminal_bindings() + workspace_bindings(m).take(
                2 * (n - 1),
            ),
        decreases WORKSPACES + 1 - n,
    {
        r.push(entry(m, digit_key(n), Action::ShowWorkspace(n)));
        r.push(entry(s, digit_key(n), Action::MoveToWorkspace(n)));
        assert(r@ =~= fixed_bindings(m) + terminal_bindings() + workspace_bindings(m).take(
            2 * n,
        ));
        n += 1;
    }
    assert(workspace_bindings(m).take(2 * WORKSPACES as int) == workspace_bindings(m));
    r
}

/// Binds the default table on a seat, entry by entry: the seat then has
/// every binding of the table, a later entry replacing an equal chord bound
/// before it, and keeps whatever else was bound.
pub fn configure_seat(seat: &mut SeatPolicy, m: u32)
    ensures
        final(seat)@ == (SeatState {
            bindings: bind_each(old(seat)@.bindings, default_table(m)),
            ..old(seat)@
        }),
{
    let table = default_bindings(m);
    let ghost start = seat@;
    let mut i: usize = 0;
    while i < table.len()
        invariant
            i <= table.len(),
            seat@ == (SeatState { bindings: bind_each(start.bindings, table@.take(i as int)), ..start }),
        decreases table.len() - i,
    {
        proof {
            let upto = table@.take(i + 1);
            assert(upto.drop_last() == table@.take(i as int));
            assert(upto.last() == table@[i as int]);
        }
        seat.bind(table[i].chord, table[i].action);
        i += 1;
    }
    proof {
        assert(table@.take(i as int) == table@);
    }
}

/// The state of the seat once it is set up: the default table under the
/// Logo modifier, then the same table under Mod5, on a fresh seat.
pub open spec fn configured(chords: GrabChords) -> SeatState {
    let fresh = SeatState::initial(chords.enter_spec(), chords.exit_spec());
    SeatState {
        bindings: bind_each(bind_each(fresh.bindings, default_table(MOD4)), default_table(MOD5)),
        ..fresh
    }
}

/// Sets up the policy of the seat: a fresh seat with the default table
/// under each of the two primary modifiers.
pub fn configure(chords: GrabChords) -> (seat: SeatPolicy)
    ensures
        seat@ == configured(chords),
{
    let mut seat = SeatPolicy::new(chords);
    configure_seat(&mut seat, MOD4);
    configure_seat(&mut seat, MOD5);
    seat
}

/// The chords of the default table differ from one another, provided that
/// the modifier does not hold Shift itself: with Shift in it, a key and the
/// same key shifted would be one chord.
pub proof fn lemma_default_chords_distinct(m: u32)
    requires
        m & SHIFT == 0,
    ensures
        distinct_chords(default_table(m)),
{
    let table = default_table(m);
    let fixed = fixed_bindings(m);
    let shifted = m | SHIFT;
    assert(shifted != m) by (bit_vector)
        requires
            m & 1 == 0,
            shifted == m | 1,
    ;
    assert forall|i: int, j: int| 0 <= i < j < table.len() implies (#[trigger] table[i]).chord != (
    #[trigger] table[j]).chord by {
        if j < 26 {
            assert(table[i] == fixed[i] && table[j] == fixed[j]);
        } else if i < 26 {
            assert(table[i] == fixed[i]);
            assert(table[i].chord.sym == KEY_RETURN || table[i].chord.sym >= KEY_BRACKETLEFT
                || table[i].chord.sym == KEY_SLASH);
        }
    }
}

/// With distinct chords the order of the table does not matter: once it is
/// bound, every entry is in force as it stands.
pub proof fn lemma_table_in_force(start: Map<Chord, Action>, m: u32, i: int)
    requires
        m & SHIFT == 0,
        0 <= i < default_table(m).len(),
    ensures
        bind_each(start, default_table(m)).contains_key(default_table(m)[i].chord),
        bind_each(start, default_table(m))[default_table(m)[i].chord] == default_table(m)[i].action,
{
    lemma_default_chords_distinct(m);
    lemma_bind_each_value(start, default_table(m), i);
}

/// Every entry of the default table, under either primary modifier, is in
/// force on the seat once it is set up.
pub proof fn lemma_configured_bindings(chords: GrabChords, m: u32, i: int)
    requires
        m == MOD4 || m == MOD5,
        0 <= i < default_table(m).len(),
    ensures
        configured(chords).bindings.contains_key(default_table(m)[i].chord),
        configured(chords).bindings[default_table(m)[i].chord] == default_table(m)[i].action,
{
    let fresh = SeatState::initial(chords.enter_spec(), chords.exit_spec());
    let first = default_table(MOD4);
    let second = default_table(MOD5);
    let inner = bind_each(fresh.bindings, first);
    assert(0x40u32 & 0x01 == 0 && 0x80u32 & 0x01 == 0) by (bit_vector);
    assert(0x40u32 | 0x01 == 0x41 && 0x80u32 | 0x01 == 0x81 && 0x04u32 | 0x08 == 0x0c)
        by (bit_vector);
    if m == MOD5 {
        lemma_table_in_force(inner, MOD5, i);
    } else {
        let chord = first[i].chord;
        lemma_table_in_force(fresh.bindings, MOD4, i);
        lemma_bind_each_keys(inner, second, chord);
        if mentions(second, chord) {
            let j = choose|j: int| 0 <= j < second.len() && (#[trigger] second[j]).chord == chord;
            lemma_table_in_force(inner, MOD5, j);
            let fixed_first = fixed_bindings(MOD4);
            let fixed_second = fixed_bindings(MOD5);
            if i < 26 {
                assert(first[i] == fixed_first[i]);
            }
            if j < 26 {
                assert(second[j] == fixed_second[j]);
            }
            assert(first[i].action == second[j].action);
        }
    }
}

/// A chord that the default tables leave alone is, once the seat is set
/// up, bound as on a fresh seat. With the standard chords of the grab
/// toggle the seat therefore starts out with the entering chord bound and
/// the leaving chord free.
pub proof fn lemma_configured_exclusive(chords: GrabChords)
    requires
        chords.enter_spec() == standard_enter(),
        chords.exit_spec() == standard_exit(),
    ensures
        configured(chords).exclusive(),
{
    let fresh = SeatState::initial(chords.enter_spec(), chords.exit_spec());
    let first = default_table(MOD4);
    let second = default_table(MOD5);
    let inner = bind_each(fresh.bindings, first);
    assert(0x40u32 | 0x01 == 0x41 && 0x80u32 | 0x01 == 0x81 && 0x04u32 | 0x08 == 0x0c)
        by (bit_vector);
    assert forall|m: u32, chord: Chord|
        (m == MOD4 || m == MOD5) && (chord == standard_enter() || chord == standard_exit())
            implies !mentions(default_table(m), chord) by {
        let table = default_table(m);
        let fixed = fixed_bindings(m);
        if mentions(table, chord) {
            let j = choose|j: int| 0 <= j < table.len() && (#[trigger] table[j]).chord == chord;
            if j < 26 {
                assert(table[j] == fixed[j]);
            }
            assert(false);
        }
    }
    lemma_bind_each_keys(fresh.bindings, first, standard_enter());
    lemma_bind_each_keys(fresh.bindings, first, standard_exit());
    lemma_bind_each_keys(inner, second, standard_enter());
    lemma_bind_each_keys(inner, second, standard_exit());
}

/// The programs started once graphics are ready, in this order.
pub open spec fn startup_spec() -> Seq<Program> {
    seq![
        Program::EnvironmentImport,
        Program::ActivationEnvironment,
        Program::AuthenticationAgent,
        Program::SessionTerminal,
        Program::Wallpaper,
    ]
}

/// Lists the programs started once graphics are ready.
pub fn startup_programs() -> (r: Vec<Program>)
    ensures
        r@ == startup_spec(),
{
    let r = vec![
        Program::EnvironmentImport,
        Program::ActivationEnvironment,
        Program::AuthenticationAgent,
        Program::SessionTerminal,
        Program::Wallpaper,
    ];
    assert(r@ =~= startup_spec());
    r
}

/// The name of workspace `number`: its decimal numeral.
pub fn workspace_name(number: u32) -> (r: String)
    ensures
        r@ == decimal(number as nat),
{
    decimal_text(number as u64)
}

} // verus!
