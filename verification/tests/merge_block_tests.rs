use bllvm_commons::enforcement::decision_log::DecisionLogger;
use bllvm_commons::enforcement::merge_block::MergeBlocker;

#[test]
fn test_should_block_merge_all_requirements_met() {
    let result = MergeBlocker::should_block_merge(
        true,  // review_period_met
        true,  // signatures_met
        false, // emergency_mode
    )
    .unwrap();

    assert!(!result, "Should not block when all requirements met");
}

#[test]
fn test_should_block_merge_review_period_not_met() {
    let result = MergeBlocker::should_block_merge(
        false, // review_period_met
        true,  // signatures_met
        false, // emergency_mode
    )
    .unwrap();

    assert!(result, "Should block when review period not met");
}

#[test]
fn test_should_block_merge_signatures_not_met() {
    let result = MergeBlocker::should_block_merge(
        true,  // review_period_met
        false, // signatures_met
        false, // emergency_mode
    )
    .unwrap();

    assert!(result, "Should block when signatures not met");
}

#[test]
fn test_should_block_merge_emergency_mode_signatures_met() {
    let result = MergeBlocker::should_block_merge(
        false, // review_period_met (ignored in emergency)
        true,  // signatures_met
        true,  // emergency_mode
    )
    .unwrap();

    assert!(
        !result,
        "Should not block in emergency mode when signatures met"
    );
}

#[test]
fn test_should_block_merge_emergency_mode_signatures_not_met() {
    let result = MergeBlocker::should_block_merge(
        true,  // review_period_met (ignored in emergency)
        false, // signatures_met
        true,  // emergency_mode
    )
    .unwrap();

    assert!(
        result,
        "Should block in emergency mode when signatures not met"
    );
}

#[test]
fn test_get_block_reason_all_met() {
    let reason = MergeBlocker::get_block_reason(
        true,  // review_period_met
        true,  // signatures_met
        false, // emergency_mode
    );
    assert_eq!(reason, "All governance requirements met");
}

#[test]
fn test_get_block_reason_review_period() {
    let reason = MergeBlocker::get_block_reason(false, true, false);
    assert!(reason.contains("Review period requirement not met"));
}

#[test]
fn test_get_block_reason_signatures() {
    let reason = MergeBlocker::get_block_reason(true, false, false);
    assert!(reason.contains("Signature threshold requirement not met"));
}

#[test]
fn test_get_block_reason_multiple() {
    let reason = MergeBlocker::get_block_reason(false, false, false);
    assert!(reason.contains("Review period requirement not met"));
    assert!(reason.contains("Signature threshold requirement not met"));
}

#[test]
fn test_get_block_reason_emergency_signatures_met() {
    let reason = MergeBlocker::get_block_reason(false, true, true);
    assert_eq!(reason, "Emergency mode: All requirements met");
}

#[test]
fn test_get_block_reason_emergency_signatures_not_met() {
    let reason = MergeBlocker::get_block_reason(true, false, true);
    assert_eq!(reason, "Emergency mode: Signature threshold not met");
}

#[test]
fn test_merge_blocker_new() {
    let logger = DecisionLogger::new(true, true, None);
    let blocker = MergeBlocker::new(None, logger);
    assert!(blocker.github_client.is_none());
}

#[test]
fn test_get_block_reason_exact_texts() {
    assert_eq!(
        MergeBlocker::get_block_reason(false, false, false),
        "Governance requirements not met: Review period requirement not met, Signature threshold requirement not met"
    );
    assert_eq!(
        MergeBlocker::get_block_reason(false, true, false),
        "Governance requirements not met: Review period requirement not met"
    );
    assert_eq!(
        MergeBlocker::get_block_reason(true, false, false),
        "Governance requirements not met: Signature threshold requirement not met"
    );
}

#[test]
fn test_merge_status_texts() {
    let blocker = MergeBlocker::new(None, DecisionLogger::new(false, true, None));
    let blocked = blocker.merge_status(true, "Signature threshold requirement not met");
    assert_eq!(blocked.state, "failure");
    assert_eq!(
        blocked.description,
        "\u{274c} Merge blocked: Signature threshold requirement not met"
    );
    assert_eq!(blocked.context, "governance/merge");
    let allowed = blocker.merge_status(false, "ignored");
    assert_eq!(allowed.state, "success");
    assert_eq!(allowed.description, "\u{2705} Governance requirements met - merge allowed");

    let dry = MergeBlocker::new(None, DecisionLogger::new(true, true, None));
    assert_eq!(
        dry.merge_status(false, "").description,
        "[DRY-RUN] \u{2705} Governance requirements met - merge allowed"
    );
    assert_eq!(
        dry.merge_status(true, "x").description,
        "[DRY-RUN] \u{274c} Merge blocked: x"
    );
}
