use compositor_policy::chord;
use compositor_policy::chord::digit_key;
use compositor_policy::chord::function_key;
use compositor_policy::chord::Chord;
use jay_config::keyboard::mods;
use jay_config::keyboard::syms;

#[test]
fn modifiers_match_the_host() {
    assert_eq!(chord::SHIFT, mods::SHIFT.0);
    assert_eq!(chord::LOCK, mods::LOCK.0);
    assert_eq!(chord::CTRL, mods::CTRL.0);
    assert_eq!(chord::ALT, mods::ALT.0);
    assert_eq!(chord::NUM, mods::NUM.0);
    assert_eq!(chord::MOD3, mods::MOD3.0);
    assert_eq!(chord::MOD4, mods::MOD4.0);
    assert_eq!(chord::MOD5, mods::MOD5.0);
}

#[test]
fn key_symbols_match_the_host() {
    assert_eq!(chord::KEY_RETURN, syms::SYM_Return.0);
    assert_eq!(chord::KEY_SLASH, syms::SYM_slash.0);
    assert_eq!(chord::KEY_BRACKETLEFT, syms::SYM_bracketleft.0);
    assert_eq!(chord::KEY_BRACKETRIGHT, syms::SYM_bracketright.0);
    assert_eq!(chord::KEY_B, syms::SYM_b.0);
    assert_eq!(chord::KEY_D, syms::SYM_d.0);
    assert_eq!(chord::KEY_F, syms::SYM_f.0);
    assert_eq!(chord::KEY_H, syms::SYM_h.0);
    assert_eq!(chord::KEY_I, syms::SYM_i.0);
    assert_eq!(chord::KEY_J, syms::SYM_j.0);
    assert_eq!(chord::KEY_K, syms::SYM_k.0);
    assert_eq!(chord::KEY_L, syms::SYM_l.0);
    assert_eq!(chord::KEY_M, syms::SYM_m.0);
    assert_eq!(chord::KEY_P, syms::SYM_p.0);
    assert_eq!(chord::KEY_Q, syms::SYM_q.0);
    assert_eq!(chord::KEY_R, syms::SYM_r.0);
    assert_eq!(chord::KEY_T, syms::SYM_t.0);
    assert_eq!(chord::KEY_U, syms::SYM_u.0);
    assert_eq!(chord::KEY_V, syms::SYM_v.0);
    assert_eq!(chord::KEY_X, syms::SYM_x.0);
    assert_eq!(chord::KEY_Y, syms::SYM_y.0);
}

#[test]
fn digit_keys_match_the_host() {
    let host = [syms::SYM_1, syms::SYM_2, syms::SYM_3, syms::SYM_4, syms::SYM_5, syms::SYM_6];
    let own = [
        chord::KEY_1,
        chord::KEY_2,
        chord::KEY_3,
        chord::KEY_4,
        chord::KEY_5,
        chord::KEY_6,
    ];
    for n in 1..=6u32 {
        assert_eq!(digit_key(n), host[n as usize - 1].0);
        assert_eq!(digit_key(n), own[n as usize - 1]);
    }
    assert_eq!(digit_key(0), syms::SYM_0.0);
    assert_eq!(digit_key(9), syms::SYM_9.0);
}

#[test]
fn function_keys_match_the_host() {
    let host = [
        syms::SYM_F1,
        syms::SYM_F2,
        syms::SYM_F3,
        syms::SYM_F4,
        syms::SYM_F5,
        syms::SYM_F6,
        syms::SYM_F7,
        syms::SYM_F8,
        syms::SYM_F9,
        syms::SYM_F10,
        syms::SYM_F11,
        syms::SYM_F12,
    ];
    for n in 1..=12u32 {
        assert_eq!(function_key(n), host[n as usize - 1].0);
    }
    assert_eq!(chord::KEY_F1, syms::SYM_F1.0);
}

#[test]
fn chord_matches_the_host_pair() {
    let host = mods::MOD4 | mods::SHIFT | syms::SYM_q;
    let own = Chord::new(chord::MOD4, chord::KEY_Q).shifted();
    assert_eq!(own.mods, host.mods.0);
    assert_eq!(own.sym, host.sym.0);
}
