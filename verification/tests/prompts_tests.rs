use dictation_core::prompts::{
    combine_prompt_sections, PromptSections, ADVANCED_PROMPT_DEFAULT, DICTIONARY_PROMPT_DEFAULT,
    MAIN_PROMPT_DEFAULT,
};

#[test]
fn test_default_prompts_not_empty() {
    assert!(!MAIN_PROMPT_DEFAULT.is_empty());
    assert!(!ADVANCED_PROMPT_DEFAULT.is_empty());
    assert!(!DICTIONARY_PROMPT_DEFAULT.is_empty());
}

#[test]
fn test_combine_default_sections() {
    let prompts = PromptSections::default();
    let combined = combine_prompt_sections(&prompts);

    // Should include main and advanced (default has advanced enabled)
    assert!(combined.contains("Core Rules"));
    assert!(combined.contains("Backtrack Corrections"));
    // Dictionary is disabled by default
    assert!(!combined.contains("Personal Dictionary"));
}

#[test]
fn test_combine_all_sections() {
    let prompts = PromptSections::all_enabled();
    let combined = combine_prompt_sections(&prompts);

    assert!(combined.contains("Core Rules"));
    assert!(combined.contains("Backtrack Corrections"));
    assert!(combined.contains("Personal Dictionary"));
}

#[test]
fn test_custom_prompts() {
    let prompts = PromptSections {
        main_custom: Some("Custom main prompt".to_string()),
        advanced_enabled: true,
        advanced_custom: Some("Custom advanced prompt".to_string()),
        dictionary_enabled: false,
        dictionary_custom: None,
    };

    let combined = combine_prompt_sections(&prompts);

    assert!(combined.contains("Custom main prompt"));
    assert!(combined.contains("Custom advanced prompt"));
    assert!(!combined.contains("Core Rules")); // Custom replaced default
}

#[test]
fn test_prompt_sections_default() {
    let prompts = PromptSections::default();
    // Check main_prompt method returns non-empty default
    assert!(!prompts.main_prompt().is_empty());
    // Advanced is enabled by default
    assert!(prompts.advanced_enabled);
    // Dictionary is disabled by default
    assert!(!prompts.dictionary_enabled);
}

#[test]
fn combined_prompt_is_joined_by_blank_lines_in_fixed_order() {
    let prompts = PromptSections {
        main_custom: Some("M".to_string()),
        advanced_enabled: true,
        advanced_custom: Some("A".to_string()),
        dictionary_enabled: true,
        dictionary_custom: Some("D".to_string()),
    };
    assert_eq!(combine_prompt_sections(&prompts), "M\n\nA\n\nD");

    let main_only = PromptSections {
        main_custom: Some("M".to_string()),
        advanced_enabled: false,
        advanced_custom: Some("A".to_string()),
        dictionary_enabled: false,
        dictionary_custom: Some("D".to_string()),
    };
    assert_eq!(combine_prompt_sections(&main_only), "M");

    let skip_advanced = PromptSections {
        main_custom: None,
        advanced_enabled: false,
        advanced_custom: None,
        dictionary_enabled: true,
        dictionary_custom: None,
    };
    assert_eq!(
        combine_prompt_sections(&skip_advanced),
        format!("{}\n\n{}", MAIN_PROMPT_DEFAULT, DICTIONARY_PROMPT_DEFAULT)
    );
}

#[test]
fn section_getters_prefer_custom_text() {
    let defaults = PromptSections::all_enabled();
    assert_eq!(defaults.main_prompt(), MAIN_PROMPT_DEFAULT);
    assert_eq!(defaults.advanced_prompt(), ADVANCED_PROMPT_DEFAULT);
    assert_eq!(defaults.dictionary_prompt(), DICTIONARY_PROMPT_DEFAULT);
    assert!(defaults.advanced_enabled && defaults.dictionary_enabled);

    let custom = PromptSections {
        main_custom: Some("one".to_string()),
        advanced_enabled: false,
        advanced_custom: Some("two".to_string()),
        dictionary_enabled: false,
        dictionary_custom: Some("three".to_string()),
    };
    assert_eq!(custom.main_prompt(), "one");
    assert_eq!(custom.advanced_prompt(), "two");
    assert_eq!(custom.dictionary_prompt(), "three");
}

#[test]
fn default_prompt_text_is_kept() {
    assert!(MAIN_PROMPT_DEFAULT.starts_with("You are a dictation formatting assistant."));
    assert!(MAIN_PROMPT_DEFAULT.ends_with("Output: \"Hello\nworld\n\nbye\""));
    assert!(ADVANCED_PROMPT_DEFAULT.starts_with("## Backtrack Corrections\n"));
    assert!(DICTIONARY_PROMPT_DEFAULT.ends_with("Pipecat\nTauri"));
    assert_eq!(MAIN_PROMPT_DEFAULT.lines().count(), 67);
}
