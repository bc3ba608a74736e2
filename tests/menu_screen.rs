use allium::draw::DrawOp;
use allium::geom::{Alignment, Key, KeyEvent, Point};
use allium::menu::{CoreRequest, Menu, MenuEntry, MenuOutcome};

fn press(m: &mut Menu, key: Key) -> MenuOutcome {
    m.handle_key_event(KeyEvent::Pressed(key))
}

#[test]
fn menu_up_six_times_cycles() {
    let mut m = Menu::new();
    press(&mut m, Key::Down);
    press(&mut m, Key::Down);
    press(&mut m, Key::Down);
    assert_eq!(m.selected(), MenuEntry::Reset);
    for _ in 0..5 {
        press(&mut m, Key::Up);
        assert_ne!(m.selected(), MenuEntry::Reset);
    }
    assert_eq!(m.selected(), MenuEntry::Advanced);
    press(&mut m, Key::Up);
    assert_eq!(m.selected(), MenuEntry::Reset);
}

#[test]
fn menu_wraps_both_ways() {
    assert_eq!(MenuEntry::Continue.prev(), MenuEntry::Quit);
    assert_eq!(MenuEntry::Quit.next(), MenuEntry::Continue);
}

#[test]
fn menu_left_then_right() {
    for start in MenuEntry::all() {
        let mut m = Menu::new();
        while m.selected() != start {
            press(&mut m, Key::Down);
        }
        assert_eq!(press(&mut m, Key::Left), MenuOutcome::Moved);
        assert_eq!(m.selected(), MenuEntry::Continue);
        press(&mut m, Key::Right);
        assert_eq!(m.selected(), MenuEntry::Quit);
    }
}

#[test]
fn menu_activation() {
    let mut m = Menu::new();
    press(&mut m, Key::Down);
    assert_eq!(press(&mut m, Key::A), MenuOutcome::Activate(MenuEntry::Save));
    assert_eq!(press(&mut m, Key::B), MenuOutcome::Activate(MenuEntry::Continue));
    assert_eq!(m.selected(), MenuEntry::Continue);
    assert_eq!(m.handle_key_event(KeyEvent::Autorepeat(Key::Down)), MenuOutcome::Ignored);
    assert_eq!(press(&mut m, Key::Start), MenuOutcome::Ignored);
}

#[test]
fn menu_requests() {
    assert_eq!(MenuEntry::Continue.request(), None);
    assert_eq!(MenuEntry::Save.request(), Some(CoreRequest::SaveState));
    assert_eq!(MenuEntry::Load.request(), Some(CoreRequest::LoadState));
    assert_eq!(MenuEntry::Reset.request(), Some(CoreRequest::Reset));
    assert_eq!(MenuEntry::Advanced.request(), Some(CoreRequest::MenuToggle));
    assert_eq!(MenuEntry::Quit.request(), Some(CoreRequest::Quit));
    assert!(MenuEntry::Quit.ends_game());
    assert!(!MenuEntry::Reset.ends_game());
    assert_eq!(MenuEntry::Advanced.label(), "Advanced");
}

#[test]
fn menu_draw_layout() {
    let mut m = Menu::new();
    press(&mut m, Key::Down);
    let mut ops = Vec::new();
    m.draw(640, 480, &mut ops);
    assert_eq!(ops.len(), 9);
    match &ops[2] {
        DrawOp::Label { at, text, selected, width, .. } => {
            assert_eq!(*width, 300);
            assert_eq!(*at, Point::new(24, 108));
            assert_eq!(text, "Save");
            assert!(*selected);
        }
        op => panic!("unexpected {:?}", op),
    }
    match &ops[8] {
        DrawOp::Hint { at, slot, align, spacing, key, text } => {
            assert_eq!(*at, Point::new(628, 441));
            assert_eq!(*slot, 1);
            assert_eq!(*align, Alignment::Right);
            assert_eq!(*spacing, 18);
            assert_eq!(*key, Key::B);
            assert_eq!(text, "Back");
        }
        op => panic!("unexpected {:?}", op),
    }
}
