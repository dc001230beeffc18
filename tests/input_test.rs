use vox_gui::input::{key_code, KeyCode, Modifiers, MouseButton};
use vox_gui::metrics::Timer;

#[test]
fn canonical_key_names() {
    assert_eq!(key_code("Return"), Some(KeyCode::Return));
    assert_eq!(key_code("Enter"), Some(KeyCode::Return));
    assert_eq!(key_code("Escape"), Some(KeyCode::Escape));
    assert_eq!(key_code("BackSpace"), Some(KeyCode::Backspace));
    assert_eq!(key_code("Tab"), Some(KeyCode::Tab));
    assert_eq!(key_code(" "), Some(KeyCode::Space));
    assert_eq!(key_code("Up"), Some(KeyCode::UpArrow));
    assert_eq!(key_code("Down"), Some(KeyCode::DownArrow));
    assert_eq!(key_code("Left"), Some(KeyCode::LeftArrow));
    assert_eq!(key_code("Right"), Some(KeyCode::RightArrow));
    assert_eq!(key_code("a"), Some(KeyCode::Unicode('a')));
    assert_eq!(key_code("7"), Some(KeyCode::Unicode('7')));
    assert_eq!(key_code("Upper"), Some(KeyCode::Unicode('U')));
    assert_eq!(key_code(""), None);
}

#[test]
fn input_values() {
    let m = Modifiers::default();
    assert!(!m.shift && !m.ctrl && !m.alt && !m.meta);
    assert_ne!(MouseButton::Left, MouseButton::Right);
    let t = Timer::start();
    let _ = t.elapsed();
}
