use fortress_core::level::{Decision, LevelId, MAX_STAGES};

#[test]
fn decisions_round_trip() {
    let mut id = LevelId::default();
    assert_eq!(id, LevelId { stage: 0, decisions: 0 });
    assert!(id.add_decision(Decision::Left));
    assert!(id.add_decision(Decision::Right));
    assert!(id.add_decision(Decision::Left));
    assert_eq!(id.stage, 3);
    assert_eq!(id.decisions, 0b010);
    assert_eq!(id.decision_at(0), Some(Decision::Left));
    assert_eq!(id.decision_at(1), Some(Decision::Right));
    assert_eq!(id.decision_at(2), Some(Decision::Left));
    assert_eq!(id.decision_at(3), None);
    assert_eq!(id.decision_at(200), None);
}

#[test]
fn ceiling_pins_stage_and_reports_failure() {
    let mut id = LevelId::default();
    for _ in 0..MAX_STAGES {
        assert!(id.add_decision(Decision::Right));
    }
    assert_eq!(id.stage, MAX_STAGES);
    assert_eq!(id.decisions, 0b11111);
    for _ in 0..3 {
        assert!(!id.add_decision(Decision::Left));
        assert!(!id.add_decision(Decision::Right));
        assert_eq!(id.stage, MAX_STAGES);
        assert_eq!(id.decisions, 0b11111);
    }
}

#[test]
fn display_shows_stage_and_arrows() {
    assert_eq!(LevelId { stage: 0, decisions: 0 }.display_text(), "0");
    assert_eq!(LevelId { stage: 1, decisions: 0b1 }.display_text(), "1(>)");
    assert_eq!(LevelId { stage: 2, decisions: 0b10 }.display_text(), "2(<>)");
    assert_eq!(LevelId { stage: 3, decisions: 0b010 }.display_text(), "3(<><)");
    assert_eq!(LevelId { stage: 5, decisions: 0b00000 }.display_text(), "5(<<<<<)");
    assert_eq!(LevelId { stage: 5, decisions: 0b10101 }.display_text(), "5(><><>)");
}
