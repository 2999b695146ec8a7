use stratagem_trainer::db::{Code, Stratagem, STRATAGEM_COUNT};
use stratagem_trainer::rng::{random_from, random_stratagem};
use stratagem_trainer::session::{get_keycode_str, Outcome, Session};

#[test]
fn arrow_glyphs() {
    assert_eq!(Code::Down.get_arrow(), "\u{2193}");
    assert_eq!(Code::Left.get_arrow(), "\u{2190}");
    assert_eq!(Code::Right.get_arrow(), "\u{2192}");
    assert_eq!(Code::Up.get_arrow(), "\u{2191}");
}

#[test]
fn keycode_of_resupply() {
    assert_eq!(
        Stratagem::Resupply.get_keycode(),
        vec![Code::Down, Code::Down, Code::Up, Code::Right]
    );
}

#[test]
fn image_path_of_resupply() {
    assert_eq!(
        Stratagem::Resupply.get_image_path(),
        "assets/Helldivers-2-Stratagems-icons-svg/GeneralStratagems/Resupply.svg"
    );
}

#[test]
fn display_name_of_resupply() {
    assert_eq!(Stratagem::Resupply.display_name(), "Resupply");
    assert_eq!(Stratagem::Eagle500kgBomb.display_name(), "Eagle500kgBomb");
}

#[test]
fn catalog_is_complete_and_nonempty() {
    let all = Stratagem::all();
    assert_eq!(all.len(), STRATAGEM_COUNT);
    for s in &all {
        assert!(s.get_keycode().len() >= 1);
    }
}

#[test]
fn glyph_string_of_empty_buffer_is_empty() {
    let empty: Vec<Code> = vec![];
    assert_eq!(get_keycode_str(&empty), "");
}

#[test]
fn glyph_string_concatenates_in_order() {
    let codes = vec![Code::Up, Code::Left];
    assert_eq!(get_keycode_str(&codes), "\u{2191}\u{2190}");
}

#[test]
fn full_correct_sequence_advances_on_last_event() {
    // OrbitalPrecisionStrike: Right, Right, Up.
    let mut s = Session::new(Stratagem::OrbitalPrecisionStrike);
    assert_eq!(s.process_direction(Code::Right), Outcome::Continued);
    assert_eq!(s.buffer, vec![Code::Right]);
    assert_eq!(s.process_direction(Code::Right), Outcome::Continued);
    assert_eq!(s.buffer, vec![Code::Right, Code::Right]);
    assert_eq!(s.process_direction(Code::Up), Outcome::Advanced);
    assert!(s.buffer.is_empty());
}

#[test]
fn mismatch_clears_buffer_and_keeps_target() {
    // Resupply: Down, Down, Up, Right. Two correct, then a wrong one.
    let mut s = Session::new(Stratagem::Resupply);
    assert_eq!(s.process_direction(Code::Down), Outcome::Continued);
    assert_eq!(s.process_direction(Code::Down), Outcome::Continued);
    assert_eq!(s.process_direction(Code::Left), Outcome::Continued);
    assert!(s.buffer.is_empty());
    assert_eq!(s.target, Stratagem::Resupply);
}

#[test]
fn mismatch_on_empty_buffer_keeps_target() {
    // A wrong first direction must not hand out a free advance.
    let mut s = Session::new(Stratagem::Resupply);
    assert_eq!(s.process_direction(Code::Up), Outcome::Continued);
    assert!(s.buffer.is_empty());
    assert_eq!(s.target, Stratagem::Resupply);
}

#[test]
fn retry_after_mismatch_succeeds() {
    // The concrete scenario: Resupply, Down Down wrong, then the full keycode.
    let mut s = Session::new(Stratagem::Resupply);
    assert_eq!(s.process_direction(Code::Down), Outcome::Continued);
    assert_eq!(s.buffer, vec![Code::Down]);
    assert_eq!(s.process_direction(Code::Down), Outcome::Continued);
    assert_eq!(s.buffer, vec![Code::Down, Code::Down]);
    assert_eq!(s.process_direction(Code::Left), Outcome::Continued);
    assert!(s.buffer.is_empty());
    assert_eq!(s.target, Stratagem::Resupply);
    assert_eq!(s.process_direction(Code::Down), Outcome::Continued);
    assert_eq!(s.process_direction(Code::Down), Outcome::Continued);
    assert_eq!(s.process_direction(Code::Up), Outcome::Continued);
    assert_eq!(s.process_direction(Code::Right), Outcome::Advanced);
    assert!(s.buffer.is_empty());
}

#[test]
fn manual_reset_clears_buffer_at_any_point() {
    // At buffer length 0.
    let mut s = Session::new(Stratagem::Resupply);
    let t = s.manual_reset();
    assert!(s.buffer.is_empty());
    assert_eq!(t, s.target);

    // At buffer length k - 1.
    let mut s = Session::new(Stratagem::Resupply);
    assert_eq!(s.process_direction(Code::Down), Outcome::Continued);
    assert_eq!(s.process_direction(Code::Down), Outcome::Continued);
    assert_eq!(s.process_direction(Code::Up), Outcome::Continued);
    assert_eq!(s.buffer.len(), 3);
    let t = s.manual_reset();
    assert!(s.buffer.is_empty());
    assert_eq!(t, s.target);
}

#[test]
fn every_catalog_keycode_advances_exactly_once() {
    for target in Stratagem::all() {
        let mut s = Session::new(target);
        let mut advanced: usize = 0;
        for code in target.get_keycode() {
            if s.process_direction(code) == Outcome::Advanced {
                advanced += 1;
            }
        }
        assert_eq!(advanced, 1);
        assert!(s.buffer.is_empty());
    }
}

#[test]
fn buffer_stays_shorter_than_keycode() {
    // After any event the buffer is a strict prefix of the target's keycode.
    let inputs = [Code::Down, Code::Down, Code::Up, Code::Right, Code::Left, Code::Up];
    let mut s = Session::new(Stratagem::Resupply);
    for code in inputs {
        s.process_direction(code);
        assert!(s.buffer.len() < s.target.get_keycode().len());
    }
}

#[test]
fn display_state_tracks_target_and_buffer() {
    let mut s = Session::new(Stratagem::Resupply);
    let d = s.current_display_state();
    assert_eq!(d.target_display_name, "Resupply");
    assert_eq!(
        d.target_image_reference,
        "assets/Helldivers-2-Stratagems-icons-svg/GeneralStratagems/Resupply.svg"
    );
    assert_eq!(d.rendered_buffer_glyphs, "");

    s.process_direction(Code::Down);
    s.process_direction(Code::Down);
    let d = s.current_display_state();
    assert_eq!(d.rendered_buffer_glyphs, "\u{2193}\u{2193}");
}

#[test]
fn random_from_singleton_returns_the_candidate() {
    let candidates = vec![Stratagem::Hellbomb];
    for _ in 0..20 {
        assert_eq!(random_from(&candidates), Stratagem::Hellbomb);
    }
}

#[test]
fn random_from_stays_within_candidates() {
    let candidates = vec![Stratagem::Resupply, Stratagem::Reinforce, Stratagem::SOSBeacon];
    for _ in 0..100 {
        let drawn = random_from(&candidates);
        assert!(candidates.contains(&drawn));
    }
}

#[test]
fn random_stratagem_is_a_catalog_entry() {
    let all = Stratagem::all();
    for _ in 0..100 {
        assert!(all.contains(&random_stratagem()));
    }
}

#[test]
fn new_random_session_is_well_formed() {
    for _ in 0..50 {
        let s = Session::new_random();
        assert!(s.buffer.is_empty());
        assert!(s.target.get_keycode().len() >= 1);
    }
}

fn some_other_direction(d: Code) -> Code {
    if d == Code::Up {
        Code::Down
    } else {
        Code::Up
    }
}

#[test]
fn mismatch_at_every_position_of_every_item() {
    for target in Stratagem::all() {
        let keycode = target.get_keycode();
        for p in 0..keycode.len() {
            let mut s = Session::new(target);
            for code in &keycode[..p] {
                assert_eq!(s.process_direction(*code), Outcome::Continued);
            }
            assert_eq!(s.buffer, keycode[..p]);
            let wrong = some_other_direction(keycode[p]);
            assert_eq!(s.process_direction(wrong), Outcome::Continued);
            assert!(s.buffer.is_empty());
            assert_eq!(s.target, target);
        }
    }
}
