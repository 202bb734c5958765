use forgeflow::prompt::{
    Context, Delimiter, Example, FewShot, Instruction, OutputFormat, Persona, Prompt,
    PromptComponent,
};

#[test]
fn test_instruction_to_string() {
    let instruction = Instruction::new("This is an instruction.");
    assert_eq!(
        instruction.to_string(),
        "### Instruction ###\nThis is an instruction."
    );
}

#[test]
fn test_context_to_string() {
    let context = Context::new("This is some context.");
    assert_eq!(context.to_string(), "### Context ###\nThis is some context.");
}

#[test]
fn test_persona_to_string() {
    let persona = Persona::new("You are a helpful assistant.");
    assert_eq!(
        persona.to_string(),
        "### Persona ###\nYou are a helpful assistant."
    );
}

#[test]
fn test_example_to_string() {
    let example = Example::new("Input 1", "Output 1");
    assert_eq!(example.to_string(), "Input: Input 1\nOutput: Output 1");
}

#[test]
fn test_few_shot_to_string() {
    let few_shot = FewShot::new(vec![
        Example::new("Input 1", "Output 1"),
        Example::new("Input 2", "Output 2"),
    ]);
    let expected = "Input: Input 1\nOutput: Output 1\n\nInput: Input 2\nOutput: Output 2";
    assert_eq!(few_shot.to_string(), expected);
}

#[test]
fn test_delimiter_to_string() {
    let delimiter = Delimiter;
    assert_eq!(delimiter.to_string(), "---");
}

#[test]
fn test_output_format_to_string() {
    let output_format = OutputFormat::new("JSON");
    assert_eq!(
        output_format.to_string(),
        "### Output Format ###\nYour response must be in the following format:\nJSON"
    );
}

#[test]
fn test_prompt_builder() {
    let prompt = Prompt::builder()
        .add(Persona::new("You are a helpful assistant."))
        .add(Instruction::new("Instruction 1"))
        .add(Delimiter)
        .add(Context::new("This is some context."))
        .add(FewShot::new(vec![
            Example::new("Input 1", "Output 1"),
            Example::new("Input 2", "Output 2"),
        ]))
        .add(OutputFormat::new("JSON"))
        .build();

    let expected = "### Persona ###\nYou are a helpful assistant.\n\n### Instruction ###\nInstruction 1\n\n---\n\n### Context ###\nThis is some context.\n\nInput: Input 1\nOutput: Output 1\n\nInput: Input 2\nOutput: Output 2\n\n### Output Format ###\nYour response must be in the following format:\nJSON";
    assert_eq!(prompt.to_string(), expected);
}

#[test]
fn empty_prompt_renders_empty() {
    let prompt = Prompt::builder().build();
    assert_eq!(prompt.to_string(), "");
}
