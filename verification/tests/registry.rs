use clipbrain::actions::builtin;
use clipbrain::actions::builtin::register_builtin_actions;
use clipbrain::actions::registry::{
    content_type_match_kind, descriptor_for_action, ActionMatchKind, ActionRegistry,
};
use clipbrain::classifier::ContentType;

#[test]
fn plain_text_actions_apply_to_math_expression() {
    assert_eq!(
        content_type_match_kind(&ContentType::PlainText, &ContentType::MathExpression),
        Some(ActionMatchKind::General)
    );
}

#[test]
fn plain_text_actions_do_not_apply_to_json() {
    assert_eq!(
        content_type_match_kind(&ContentType::PlainText, &ContentType::Json),
        None
    );
}

#[test]
fn math_expression_contains_general_and_specific_actions() {
    let mut registry = ActionRegistry::new();
    register_builtin_actions(&mut registry);
    let descriptors = registry.list_descriptors(&ContentType::MathExpression, "zh-CN");

    assert!(descriptors
        .iter()
        .any(|d| d.id == "math_calculate" && d.action_scope == "specific"));
    assert!(descriptors
        .iter()
        .any(|d| d.id == "summarize" && d.action_scope == "general"));
}

#[test]
fn exact_match_multi_type_action_is_marked_specific() {
    let action = builtin::llm_actions::TranslateToChineseAction;
    let descriptor =
        descriptor_for_action(&action.info(), &ContentType::Code("rust".to_string()), "zh-CN")
            .expect("translate action should match code");
    assert_eq!(descriptor.action_scope, "specific");
}

#[test]
fn inherited_match_action_is_marked_general() {
    let action = builtin::llm_actions::SummarizeAction;
    let descriptor = descriptor_for_action(&action.info(), &ContentType::MathExpression, "zh-CN")
        .expect("summarize action should match math expression through plain text fallback");
    assert_eq!(descriptor.action_scope, "general");
}

#[test]
fn specific_actions_are_sorted_before_general_actions() {
    let mut registry = ActionRegistry::new();
    register_builtin_actions(&mut registry);
    let descriptors = registry.list_descriptors(&ContentType::MathExpression, "zh-CN");

    let first_general = descriptors.iter().position(|d| d.action_scope == "general");
    let last_specific = descriptors
        .iter()
        .rposition(|d| d.action_scope == "specific");
    assert!(matches!((last_specific, first_general), (Some(s), Some(g)) if s < g));
}
