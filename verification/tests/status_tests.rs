use liquidator::PositionStatus;

#[test]
fn test_position_status_display() {
    assert_eq!(PositionStatus::Active.label(), "active");
    assert_eq!(PositionStatus::AtRisk.label(), "at_risk");
    assert_eq!(PositionStatus::Liquidating.label(), "liquidating");
    assert_eq!(PositionStatus::Liquidated.label(), "liquidated");
    assert_eq!(PositionStatus::Closed.label(), "closed");
}

#[test]
fn test_status_transitions() {
    assert!(PositionStatus::Active.can_transition(PositionStatus::AtRisk));
    assert!(PositionStatus::AtRisk.can_transition(PositionStatus::Liquidating));
    assert!(PositionStatus::Liquidating.can_transition(PositionStatus::Liquidated));
    assert!(PositionStatus::Liquidating.can_transition(PositionStatus::Active));
    assert!(PositionStatus::Active.can_transition(PositionStatus::Closed));
    assert!(PositionStatus::AtRisk.can_transition(PositionStatus::Closed));
    assert!(!PositionStatus::Liquidated.can_transition(PositionStatus::Active));
    assert!(!PositionStatus::Closed.can_transition(PositionStatus::Active));
    assert!(!PositionStatus::Active.can_transition(PositionStatus::Liquidating));
}
