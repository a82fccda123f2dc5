use goose_developer::input::{
    handle_slash_command, interpret_line, is_memorable, parse_prompt_command, InputResult,
    HELP_TEXT,
};

#[test]
fn test_handle_slash_command() {
    // Test exit commands
    assert!(matches!(
        handle_slash_command("/exit"),
        Some(InputResult::Exit)
    ));
    assert!(matches!(
        handle_slash_command("/quit"),
        Some(InputResult::Exit)
    ));

    // Test help commands
    assert!(matches!(
        handle_slash_command("/help"),
        Some(InputResult::Retry)
    ));
    assert!(matches!(
        handle_slash_command("/?"),
        Some(InputResult::Retry)
    ));

    // Test theme toggle
    assert!(matches!(
        handle_slash_command("/t"),
        Some(InputResult::ToggleTheme)
    ));

    // Test extension command
    if let Some(InputResult::AddExtension(cmd)) = handle_slash_command("/extension foo bar") {
        assert_eq!(cmd, "foo bar");
    } else {
        panic!("Expected AddExtension");
    }

    // Test builtin command
    if let Some(InputResult::AddBuiltin(names)) = handle_slash_command("/builtin dev,git") {
        assert_eq!(names, "dev,git");
    } else {
        panic!("Expected AddBuiltin");
    }

    // Test unknown commands
    assert!(handle_slash_command("/unknown").is_none());
}

#[test]
fn test_prompt_command() {
    // Test basic prompt info command
    if let Some(InputResult::PromptCommand(opts)) =
        handle_slash_command("/prompt test-prompt --info")
    {
        assert_eq!(opts.name, "test-prompt");
        assert!(opts.info);
        assert!(opts.arguments.is_empty());
    } else {
        panic!("Expected PromptCommand");
    }

    // Test prompt with arguments
    if let Some(InputResult::PromptCommand(opts)) =
        handle_slash_command("/prompt test-prompt arg1=val1 arg2=val2")
    {
        assert_eq!(opts.name, "test-prompt");
        assert!(!opts.info);
        assert_eq!(opts.arguments.len(), 2);
        assert_eq!(opts.arguments.get("arg1"), Some(&"val1".to_string()));
        assert_eq!(opts.arguments.get("arg2"), Some(&"val2".to_string()));
    } else {
        panic!("Expected PromptCommand");
    }
}

// Test whitespace handling
#[test]
fn test_whitespace_handling() {
    // Leading/trailing whitespace in extension command
    if let Some(InputResult::AddExtension(cmd)) = handle_slash_command("  /extension foo bar  ")
    {
        assert_eq!(cmd, "foo bar");
    } else {
        panic!("Expected AddExtension");
    }

    // Leading/trailing whitespace in builtin command
    if let Some(InputResult::AddBuiltin(names)) = handle_slash_command("  /builtin dev,git  ") {
        assert_eq!(names, "dev,git");
    } else {
        panic!("Expected AddBuiltin");
    }
}

#[test]
fn list_prompts_is_not_a_prompt_command() {
    assert!(matches!(
        handle_slash_command("/prompts"),
        Some(InputResult::ListPrompts)
    ));
    assert!(handle_slash_command("/prompt").is_none());
    assert!(handle_slash_command("/prompt   ").is_none());
    assert!(handle_slash_command("/promptx y").is_none());
}

#[test]
fn prompt_command_rejects_a_word_that_is_no_flag() {
    assert!(parse_prompt_command("name stray").is_none());
    assert!(parse_prompt_command("name a=b stray c=d").is_none());
    assert!(parse_prompt_command("").is_none());
    assert!(parse_prompt_command(" \t ").is_none());
}

#[test]
fn prompt_command_splits_at_the_first_equals_sign() {
    match parse_prompt_command("p a=b=c =x y= a=last --info") {
        Some(InputResult::PromptCommand(opts)) => {
            assert_eq!(opts.name, "p");
            assert!(opts.info);
            assert_eq!(opts.arguments.len(), 3);
            assert_eq!(opts.arguments.get("a"), Some(&"last".to_string()));
            assert_eq!(opts.arguments.get(""), Some(&"x".to_string()));
            assert_eq!(opts.arguments.get("y"), Some(&"".to_string()));
            assert_eq!(opts.arguments.get("b"), None);
        }
        _ => panic!("Expected PromptCommand"),
    }
}

#[test]
fn prompt_words_are_split_at_any_white_space() {
    match parse_prompt_command("\tname\u{a0}k=v\u{2003}--info\n") {
        Some(InputResult::PromptCommand(opts)) => {
            assert_eq!(opts.name, "name");
            assert!(opts.info);
            assert_eq!(opts.arguments.get("k"), Some(&"v".to_string()));
        }
        _ => panic!("Expected PromptCommand"),
    }
}

#[test]
fn plain_lines_are_messages_or_exit() {
    assert!(matches!(interpret_line("exit"), InputResult::Exit));
    assert!(matches!(interpret_line("QuIt"), InputResult::Exit));
    match interpret_line("exit ") {
        InputResult::Message(m) => assert_eq!(m, "exit"),
        _ => panic!("Expected Message"),
    }
    match interpret_line("  hello world \n") {
        InputResult::Message(m) => assert_eq!(m, "hello world"),
        _ => panic!("Expected Message"),
    }
    match interpret_line(" /exit") {
        InputResult::Message(m) => assert_eq!(m, "/exit"),
        _ => panic!("Expected Message"),
    }
    match interpret_line("") {
        InputResult::Message(m) => assert_eq!(m, ""),
        _ => panic!("Expected Message"),
    }
}

#[test]
fn slash_lines_are_commands_or_messages() {
    assert!(matches!(interpret_line("/exit  "), InputResult::Exit));
    assert!(matches!(interpret_line("/help"), InputResult::Retry));
    match interpret_line("/unknown thing ") {
        InputResult::Message(m) => assert_eq!(m, "/unknown thing"),
        _ => panic!("Expected Message"),
    }
    match interpret_line("/prompt") {
        InputResult::Message(m) => assert_eq!(m, "/prompt"),
        _ => panic!("Expected Message"),
    }
}

#[test]
fn only_lines_with_text_are_memorable() {
    assert!(is_memorable(" x "));
    assert!(!is_memorable(""));
    assert!(!is_memorable(" \t\n"));
}

#[test]
fn help_text_names_every_command() {
    for word in ["/exit", "/quit", "/t", "/extension", "/builtin", "/prompts", "/prompt", "/help"] {
        assert!(HELP_TEXT.contains(word));
    }
}
