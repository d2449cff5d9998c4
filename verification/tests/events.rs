use keyboard_types::{
    is_well_formed_session, Code, CompositionEvent, CompositionPhase, CompositionState, Key,
    KeyState, KeyboardEvent, Location, Modifiers, NamedKey,
};

use keyboard_types::CompositionState::{End, Start, Update};

#[test]
fn key_state_event_types() {
    assert_eq!(KeyState::Down.event_type(), "keydown");
    assert_eq!(KeyState::Up.event_type(), "keyup");
}

#[test]
fn composition_state_event_types() {
    assert_eq!(CompositionState::Start.event_type(), "compositionstart");
    assert_eq!(CompositionState::Update.event_type(), "compositionupdate");
    assert_eq!(CompositionState::End.event_type(), "compositionend");
}

#[test]
fn key_state_predicates() {
    assert!(KeyState::Down.is_down());
    assert!(!KeyState::Down.is_up());
    assert!(KeyState::Up.is_up());
    assert!(!KeyState::Up.is_down());
}

#[test]
fn default_values() {
    assert_eq!(Key::default(), Key::Named(NamedKey::Unidentified));
    assert_eq!(KeyState::default(), KeyState::Down);
    let event = KeyboardEvent::default();
    assert!(!event.repeat);
    assert!(!event.is_composing);
    assert_eq!(event.state, KeyState::Down);
    assert_eq!(event.key, Key::Named(NamedKey::Unidentified));
    assert_eq!(event.code, Code::Unidentified);
    assert_eq!(event.location, Location::Standard);
    assert_eq!(event.modifiers, Modifiers::empty());
    assert_eq!(Location::default(), Location::Standard);
    assert_eq!(Modifiers::default(), Modifiers::empty());
}

#[test]
fn key_down_sets_state_key_and_code() {
    let event = KeyboardEvent::key_down(Key::Character("a".into()), Code::KeyA);
    assert_eq!(event.state, KeyState::Down);
    assert!(!event.repeat);
    assert!(!event.is_composing);
    assert_eq!(event.key, Key::Character("a".to_string()));
    assert_eq!(event.code, Code::KeyA);
    assert_eq!(event.location, Location::Standard);
    assert!(event.modifiers.is_empty());
}

#[test]
fn key_up_sets_state_key_and_code() {
    let event = KeyboardEvent::key_up(NamedKey::Enter.into(), Code::NumpadEnter);
    assert_eq!(event.state, KeyState::Up);
    assert!(!event.repeat);
    assert!(!event.is_composing);
    assert_eq!(event.key, Key::Named(NamedKey::Enter));
    assert_eq!(event.code, Code::NumpadEnter);
    assert_eq!(event.location, Location::Standard);
    assert!(event.modifiers.is_empty());
}

#[test]
fn keyboard_event_equality_covers_every_field() {
    let base = KeyboardEvent::key_down(Key::Character("a".into()), Code::KeyA);
    assert_eq!(base, base.clone());
    assert_ne!(base, KeyboardEvent::key_up(Key::Character("a".into()), Code::KeyA));
    assert_ne!(base, KeyboardEvent::key_down(Key::Character("b".into()), Code::KeyA));
    assert_ne!(base, KeyboardEvent::key_down(Key::Character("a".into()), Code::KeyB));
    let mut other = base.clone();
    other.location = Location::Left;
    assert_ne!(base, other);
    let mut other = base.clone();
    other.modifiers = Modifiers::from_bits_truncate(Modifiers::SHIFT);
    assert_ne!(base, other);
    let mut other = base.clone();
    other.repeat = true;
    assert_ne!(base, other);
    let mut other = base.clone();
    other.is_composing = true;
    assert_ne!(base, other);
}

#[test]
fn composition_event_equality() {
    let a = CompositionEvent { state: Update, data: "ka".to_string() };
    let b = CompositionEvent { state: Update, data: "ka".to_string() };
    let c = CompositionEvent { state: End, data: "ka".to_string() };
    let d = CompositionEvent { state: Update, data: String::new() };
    assert_eq!(a, b);
    assert_ne!(a, c);
    assert_ne!(a, d);
    assert_eq!(d.data, "");
}

#[test]
fn a_whole_session_is_well_formed() {
    assert!(is_well_formed_session(&[Start, Update, Update, End]));
    assert!(is_well_formed_session(&[Start, End]));
    assert!(is_well_formed_session(&[Start, Update, End]));
}

#[test]
fn a_broken_session_is_not_well_formed() {
    assert!(!is_well_formed_session(&[Update, End]));
    assert!(!is_well_formed_session(&[Start, End, Update]));
    assert!(!is_well_formed_session(&[]));
    assert!(!is_well_formed_session(&[Start]));
    assert!(!is_well_formed_session(&[End]));
    assert!(!is_well_formed_session(&[Start, Update]));
    assert!(!is_well_formed_session(&[Start, Start, End]));
    assert!(!is_well_formed_session(&[Start, End, End]));
    assert!(!is_well_formed_session(&[Start, End, Start, End]));
}

#[test]
fn the_tracker_follows_one_event() {
    let idle = CompositionPhase::NotComposing;
    let open = CompositionPhase::Composing;
    assert_eq!(idle.advance(Start), Some(open));
    assert_eq!(idle.advance(Update), None);
    assert_eq!(idle.advance(End), None);
    assert_eq!(open.advance(Start), None);
    assert_eq!(open.advance(Update), Some(open));
    assert_eq!(open.advance(End), Some(idle));
}

#[test]
fn the_tracker_detects_violations() {
    let idle = CompositionPhase::NotComposing;
    assert_eq!(idle.advance_all(&[Start, Update, Update, End]), Some(idle));
    assert_eq!(idle.advance_all(&[Update, End]), None);
    assert_eq!(idle.advance_all(&[Start, End, Update]), None);
}

#[test]
fn the_tracker_follows_several_sessions() {
    let idle = CompositionPhase::NotComposing;
    let open = CompositionPhase::Composing;
    assert_eq!(idle.advance_all(&[]), Some(idle));
    assert_eq!(open.advance_all(&[]), Some(open));
    assert_eq!(idle.advance_all(&[Start, End, Start, Update, End]), Some(idle));
    assert_eq!(idle.advance_all(&[Start, End, Start, Update]), Some(open));
    assert_eq!(open.advance_all(&[Update, End]), Some(idle));
    assert_eq!(idle.advance_all(&[Start, Start]), None);
    assert_eq!(idle.advance_all(&[Start, End, End]), None);
}

#[test]
fn modifiers_hold_their_bits() {
    let none = Modifiers::empty();
    assert!(none.is_empty());
    assert_eq!(none.bits(), 0);
    let shift = Modifiers::from_bits_truncate(Modifiers::SHIFT);
    let alt = Modifiers::from_bits_truncate(Modifiers::ALT);
    let both = shift.union(alt);
    assert_eq!(both.bits(), 0x201);
    assert!(both.contains(shift));
    assert!(both.contains(alt));
    assert!(both.contains(none));
    assert!(!shift.contains(alt));
    assert!(!shift.contains(both));
    assert!(!both.is_empty());
}

#[test]
fn modifiers_drop_unknown_bits() {
    assert_eq!(Modifiers::from_bits_truncate(0xffff_ffff).bits(), 0x3fff);
    assert_eq!(Modifiers::from_bits_truncate(0x4000).bits(), 0);
    assert_eq!(Modifiers::from_bits_truncate(0x4000 | Modifiers::SUPER).bits(), 0x2000);
    let all = Modifiers::ALT | Modifiers::ALT_GRAPH | Modifiers::CAPS_LOCK | Modifiers::CONTROL
        | Modifiers::FN | Modifiers::FN_LOCK | Modifiers::META | Modifiers::NUM_LOCK
        | Modifiers::SCROLL_LOCK | Modifiers::SHIFT | Modifiers::SYMBOL | Modifiers::SYMBOL_LOCK
        | Modifiers::HYPER | Modifiers::SUPER;
    assert_eq!(all, Modifiers::ALL);
}
