//! Prompt sections for transcript rewriting and how they combine into one
//! system prompt.

use vstd::prelude::*;
use vstd::string::StringExecFns;

verus! {

/// Main prompt section: core rules, punctuation, new lines. Always included.
pub const MAIN_PROMPT_DEFAULT: &'static str = "You are a dictation formatting assistant. Your task is to format transcribed speech.\n\n## Core Rules\n- Remove filler words (um, uh, err, erm, etc.)\n- Use punctuation where appropriate\n- Capitalize sentences properly\n- Keep the original meaning and tone intact\n- Do NOT add any new information or change the intent\n- Do NOT condense, summarize, or make sentences more concise - preserve the speaker's full expression\n- Do NOT answer questions - if the user dictates a question, output the cleaned question, not an answer\n- Do NOT respond conversationally or engage with the content - you are a text processor, not a conversational assistant\n- Output ONLY the cleaned text, nothing else - no explanations, no quotes, no prefixes\n\n### Good Example\nInput: \"um so basically I was like thinking we should uh you know update the readme file\"\nOutput: \"So basically, I was thinking we should update the readme file.\"\n\n### Bad Examples\n\n1. Condensing/summarizing (preserve full expression):\n   Input: \"I really think that we should probably consider maybe going to the store to pick up some groceries\"\n   Bad: \"We should go grocery shopping.\"\n   Good: \"I really think that we should probably consider going to the store to pick up some groceries.\"\n\n2. Answering questions (just clean the question):\n   Input: \"what is the capital of France\"\n   Bad: \"The capital of France is Paris.\"\n   Good: \"What is the capital of France?\"\n\n3. Responding conversationally (format, don't engage):\n   Input: \"hey how are you doing today\"\n   Bad: \"I'm doing well, thank you for asking!\"\n   Good: \"Hey, how are you doing today?\"\n\n4. Adding information (keep original intent only):\n   Input: \"send the email to john\"\n   Bad: \"Send the email to John as soon as possible.\"\n   Good: \"Send the email to John.\"\n\n## Punctuation\nConvert spoken punctuation to symbols:\n- \"comma\" = ,\n- \"period\" or \"full stop\" = .\n- \"question mark\" = ?\n- \"exclamation point\" or \"exclamation mark\" = !\n- \"dash\" = -\n- \"em dash\" = \u{e2}\u{20ac}\u{201d}\n- \"quotation mark\" or \"quote\" or \"end quote\" = \"\n- \"colon\" = :\n- \"semicolon\" = ;\n- \"open parenthesis\" or \"open paren\" = (\n- \"close parenthesis\" or \"close paren\" = )\n\nExample:\nInput: \"I can't wait exclamation point Let's meet at seven period\"\nOutput: \"I can't wait! Let's meet at seven.\"\n\n## New Line and Paragraph\n- \"new line\" = Insert a line break\n- \"new paragraph\" = Insert a paragraph break (blank line)\n\nExample:\nInput: \"Hello, new line, world, new paragraph, bye\"\nOutput: \"Hello\nworld\n\nbye\"";

/// Advanced prompt section: backtrack corrections and list formatting.
pub const ADVANCED_PROMPT_DEFAULT: &'static str = "## Backtrack Corrections\nWhen the speaker corrects themselves mid-sentence, use only the corrected version:\n- \"actually\" signals a correction: \"at 2 actually 3\" = \"at 3\"\n- \"scratch that\" removes the previous phrase: \"cookies scratch that brownies\" = \"brownies\"\n- \"wait\" or \"I mean\" signal corrections: \"on Monday wait Tuesday\" = \"on Tuesday\"\n- Natural restatements: \"as a gift... as a present\" = \"as a present\"\n\nExamples:\n- \"Let's do coffee at 2 actually 3\" = \"Let's do coffee at 3.\"\n- \"I'll bring cookies scratch that brownies\" = \"I'll bring brownies.\"\n- \"Send it to John I mean Jane\" = \"Send it to Jane.\"\n\n## List Formats\nWhen sequence words are detected, format as a numbered or bulleted list:\n- Triggers: \"one\", \"two\", \"three\" or \"first\", \"second\", \"third\"\n- Capitalize each list item\n\nExample:\n- \"My goals are one finish the report two send the presentation three review feedback\" =\n  \"My goals are:\n  1. Finish the report\n  2. Send the presentation\n  3. Review feedback\"";

/// Dictionary prompt section: personal word mappings.
pub const DICTIONARY_PROMPT_DEFAULT: &'static str = "## Personal Dictionary\nApply these corrections for technical terms, proper nouns, and custom words.\n\nEntries can be in various formats - interpret flexibly:\n- Explicit mappings: \"ant row pic = Anthropic\"\n- Single terms to recognize: Just \"LLM\" (correct phonetic mismatches)\n- Natural descriptions: \"The name 'Tangerine' should always be capitalized\"\n\nWhen you hear terms that sound like entries below, use the correct spelling/form.\n\n### Entries:\nTangerine\nLLM\nant row pick = Anthropic\nPipecat\nTauri";

/// Separator placed between two prompt sections.
pub const SECTION_SEPARATOR: &'static str = "\n\n";

/// Configuration for prompt sections.
#[derive(Debug, Clone)]
pub struct PromptSections {
    /// Custom main prompt (if `None`, use the default).
    pub main_custom: Option<String>,
    /// Whether the advanced section is enabled.
    pub advanced_enabled: bool,
    /// Custom advanced prompt (if `None`, use the default).
    pub advanced_custom: Option<String>,
    /// Whether the dictionary section is enabled.
    pub dictionary_enabled: bool,
    /// Custom dictionary prompt (if `None`, use the default).
    pub dictionary_custom: Option<String>,
}

/// The custom text if there is one, else the default.
pub open spec fn section_text(custom: Option<String>, default: Seq<char>) -> Seq<char> {
    match custom {
        Some(s) => s@,
        None => default,
    }
}

/// The system prompt: the main section, then the advanced section if
/// enabled, then the dictionary section if enabled, joined by blank lines.
pub open spec fn combined_prompt(prompts: PromptSections) -> Seq<char> {
    let main = prompts.spec_main_prompt();
    let with_advanced = if prompts.advanced_enabled {
        main + SECTION_SEPARATOR@ + prompts.spec_advanced_prompt()
    } else {
        main
    };
    if prompts.dictionary_enabled {
        with_advanced + SECTION_SEPARATOR@ + prompts.spec_dictionary_prompt()
    } else {
        with_advanced
    }
}

/// Whether these are the default sections: the main and the advanced
/// section with their default text, no dictionary.
pub open spec fn default_sections(p: PromptSections) -> bool {
    &&& p.main_custom is None
    &&& p.advanced_enabled
    &&& p.advanced_custom is None
    &&& !p.dictionary_enabled
    &&& p.dictionary_custom is None
}

impl Default for PromptSections {
    /// The main and advanced sections with their default text; no dictionary.
    fn default() -> (p: Self)
        ensures
            default_sections(p),
    {
        PromptSections {
            main_custom: None,
            advanced_enabled: true,
            advanced_custom: None,
            dictionary_enabled: false,
            dictionary_custom: None,
        }
    }
}

impl PromptSections {
    /// The main prompt text in effect.
    pub open spec fn spec_main_prompt(&self) -> Seq<char> {
        section_text(self.main_custom, MAIN_PROMPT_DEFAULT@)
    }

    /// The advanced prompt text in effect.
    pub open spec fn spec_advanced_prompt(&self) -> Seq<char> {
        section_text(self.advanced_custom, ADVANCED_PROMPT_DEFAULT@)
    }

    /// The dictionary prompt text in effect.
    pub open spec fn spec_dictionary_prompt(&self) -> Seq<char> {
        section_text(self.dictionary_custom, DICTIONARY_PROMPT_DEFAULT@)
    }

    /// Create with all sections enabled and default prompts.
    pub fn all_enabled() -> (p: Self)
        ensures
            p.main_custom is None,
            p.advanced_enabled,
            p.advanced_custom is None,
            p.dictionary_enabled,
            p.dictionary_custom is None,
    {
        PromptSections {
            main_custom: None,
            advanced_enabled: true,
            advanced_custom: None,
            dictionary_enabled: true,
            dictionary_custom: None,
        }
    }

    /// Get the main prompt (custom or default).
    pub fn main_prompt(&self) -> (s: &str)
        ensures
            s@ == self.spec_main_prompt(),
    {
        match &self.main_custom {
            Some(s) => s.as_str(),
            None => MAIN_PROMPT_DEFAULT,
        }
    }

    /// Get the advanced prompt (custom or default).
    pub fn advanced_prompt(&self) -> (s: &str)
        ensures
            s@ == self.spec_advanced_prompt(),
    {
        match &self.advanced_custom {
            Some(s) => s.as_str(),
            None => ADVANCED_PROMPT_DEFAULT,
        }
    }

    /// Get the dictionary prompt (custom or default).
    pub fn dictionary_prompt(&self) -> (s: &str)
        ensures
            s@ == self.spec_dictionary_prompt(),
    {
        match &self.dictionary_custom {
            Some(s) => s.as_str(),
            None => DICTIONARY_PROMPT_DEFAULT,
        }
    }
}

/// Combine prompt sections into a single system prompt.
pub fn combine_prompt_sections(prompts: &PromptSections) -> (combined: String)
    ensures
        combined@ == combined_prompt(*prompts),
{
    let mut combined = String::from_str(prompts.main_prompt());
    if prompts.advanced_enabled {
        combined.append(SECTION_SEPARATOR);
        combined.append(prompts.advanced_prompt());
    }
    if prompts.dictionary_enabled {
        combined.append(SECTION_SEPARATOR);
        combined.append(prompts.dictionary_prompt());
    }
    combined
}

} // verus!
