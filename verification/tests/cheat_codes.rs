use fortress_core::cheat::{check_cheat, Cheats, TextBuffer, TEXT_BUFFER_CAPACITY};
use fortress_core::content::CurrentLevel;

fn type_text(buffer: &mut TextBuffer, text: &str) {
    for c in text.chars() {
        buffer.push(c);
    }
}

#[test]
fn buffer_remembers_recent_letters() {
    let mut b = TextBuffer::new();
    type_text(&mut b, "abc");
    assert!(b.has_typed("abc"));
    assert!(b.has_typed("bc"));
    assert!(b.has_typed(""));
    assert!(!b.has_typed("ab"));
    assert!(!b.has_typed("zabc"));
    b.clear();
    assert!(!b.has_typed("a"));
    assert!(b.has_typed(""));
}

#[test]
fn buffer_drops_the_oldest_past_capacity() {
    let mut b = TextBuffer::new();
    for _ in 0..3 {
        type_text(&mut b, "abcdefghijklmnopqrstuvwxyz");
    }
    assert_eq!(b.buffer.len(), TEXT_BUFFER_CAPACITY);
    assert!(b.has_typed("abcdefghijklmnopqrstuvwxyz"));
    // exactly the last 32 letters survive
    assert!(b.has_typed("uvwxyzabcdefghijklmnopqrstuvwxyz"));
    assert!(!b.has_typed("tuvwxyzabcdefghijklmnopqrstuvwxyz"));
}

#[test]
fn invulnerability_cheat_toggles() {
    let mut b = TextBuffer::new();
    let mut cheats = Cheats::default();
    let mut level = CurrentLevel::default();
    type_text(&mut b, "xxiddqd");
    assert!(!check_cheat(&mut b, &mut cheats, &mut level, true));
    assert!(cheats.invulnerability);
    assert!(cheats.used_cheats);
    assert_eq!(level.id.stage, 0);
    assert!(b.has_typed("") && b.buffer.is_empty());
    type_text(&mut b, "iddqd");
    assert!(!check_cheat(&mut b, &mut cheats, &mut level, false));
    assert!(!cheats.invulnerability);
}

#[test]
fn level_skip_cheats_advance_when_live() {
    let mut b = TextBuffer::new();
    let mut cheats = Cheats::default();
    let mut level = CurrentLevel::default();
    type_text(&mut b, "nothingleftforme");
    assert!(check_cheat(&mut b, &mut cheats, &mut level, true));
    assert_eq!(level.id.stage, 1);
    assert_eq!(level.id.decisions, 0);
    assert!(cheats.used_cheats);
    assert!(b.buffer.is_empty());
    type_text(&mut b, "thisisdownrightridiculous");
    assert!(check_cheat(&mut b, &mut cheats, &mut level, true));
    assert_eq!(level.id.stage, 2);
    assert_eq!(level.id.decisions, 0b10);
    assert!(b.buffer.is_empty());
}

#[test]
fn level_skip_cheats_do_nothing_outside_live() {
    let mut b = TextBuffer::new();
    let mut cheats = Cheats::default();
    let mut level = CurrentLevel::default();
    type_text(&mut b, "nothingleftforme");
    assert!(!check_cheat(&mut b, &mut cheats, &mut level, false));
    assert_eq!(level.id.stage, 0);
    assert!(!cheats.used_cheats);
    // this code consumes the buffer even outside the live game
    assert!(b.buffer.is_empty());
    type_text(&mut b, "thisisdownrightridiculous");
    assert!(!check_cheat(&mut b, &mut cheats, &mut level, false));
    assert_eq!(level.id.stage, 0);
    assert!(!cheats.used_cheats);
    // while this one leaves it for a later attempt
    assert!(b.has_typed("thisisdownrightridiculous"));
}

#[test]
fn unrecognized_text_changes_nothing() {
    let mut b = TextBuffer::new();
    let mut cheats = Cheats::default();
    let mut level = CurrentLevel::default();
    type_text(&mut b, "openthedoor");
    assert!(!check_cheat(&mut b, &mut cheats, &mut level, true));
    assert_eq!(cheats, Cheats::default());
    assert_eq!(level.id.stage, 0);
    assert!(b.has_typed("openthedoor"));
}

#[test]
fn cheat_advance_stops_at_the_ceiling() {
    let mut b = TextBuffer::new();
    let mut cheats = Cheats::default();
    let mut level = CurrentLevel::default();
    for _ in 0..5 {
        type_text(&mut b, "nothingleftforme");
        assert!(check_cheat(&mut b, &mut cheats, &mut level, true));
    }
    assert_eq!(level.id.stage, 5);
    type_text(&mut b, "nothingleftforme");
    assert!(!check_cheat(&mut b, &mut cheats, &mut level, true));
    assert_eq!(level.id.stage, 5);
}
