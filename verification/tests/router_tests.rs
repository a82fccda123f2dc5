use goose_developer::content::{Body, Content, Role, ToolError};
use goose_developer::history::EditHistory;
use goose_developer::params::{ParamValue, ToolParams};
use goose_developer::policy::RuleFile;
use goose_developer::router::{DeveloperRouter, Effect, Event, Pending, Step};
use goose_developer::screen::CaptureFailure;
use std::collections::HashMap;

/// A host that keeps its files in memory.
struct Host {
    files: HashMap<String, String>,
    shell_output: Result<String, String>,
    scripts: Vec<String>,
    windows: Option<Vec<String>>,
    displays: Option<usize>,
    image: Result<Vec<u8>, CaptureFailure>,
    write_failure: Option<String>,
    effects: usize,
}

impl Host {
    fn new() -> Host {
        Host {
            files: HashMap::new(),
            shell_output: Ok(String::new()),
            scripts: Vec::new(),
            windows: Some(Vec::new()),
            displays: Some(1),
            image: Ok(Vec::new()),
            write_failure: None,
            effects: 0,
        }
    }

    fn perform(&mut self, effect: Effect) -> Event {
        self.effects += 1;
        match effect {
            Effect::RunShell { script } => {
                self.scripts.push(script);
                Event::Ran(self.shell_output.clone())
            }
            Effect::ProbeFile { path } => match self.files.get(&path) {
                Some(text) => Event::Probed {
                    exists: true,
                    is_file: true,
                    size: Ok(text.len() as u64),
                },
                None => Event::Probed { exists: false, is_file: false, size: Ok(0) },
            },
            Effect::ReadFile { path } => Event::Read(
                self.files
                    .get(&path)
                    .cloned()
                    .ok_or_else(|| "No such file or directory (os error 2)".to_string()),
            ),
            Effect::WriteFile { path, content } => match &self.write_failure {
                Some(cause) => Event::Written(Err(cause.clone())),
                None => {
                    self.files.insert(path, content);
                    Event::Written(Ok(()))
                }
            },
            Effect::ListWindows => Event::Windows(self.windows.clone()),
            Effect::CountDisplays => Event::Displays(self.displays),
            Effect::CaptureWindow { .. } | Effect::CaptureDisplay { .. } => {
                Event::Captured(match &self.image {
                    Ok(bytes) => Ok(bytes.clone()),
                    Err(CaptureFailure::Capture(e)) => Err(CaptureFailure::Capture(e.clone())),
                    Err(CaptureFailure::Encode(e)) => Err(CaptureFailure::Encode(e.clone())),
                })
            }
        }
    }
}

struct Session {
    router: DeveloperRouter,
    history: EditHistory,
    host: Host,
}

fn languages() -> Vec<(String, String)> {
    vec![
        ("rs".to_string(), "rust".to_string()),
        ("py".to_string(), "python".to_string()),
        ("rs".to_string(), "shadowed".to_string()),
    ]
}

fn session_with(global: Option<&str>, local: Option<&str>) -> Session {
    let global = global.map(|t| RuleFile {
        path: "/home/user/.gooseignore".to_string(),
        text: t.to_string(),
    });
    let local = local.map(|t| RuleFile {
        path: "/project/.gooseignore".to_string(),
        text: t.to_string(),
    });
    let router = DeveloperRouter::new(
        "linux",
        "/project",
        None,
        global.as_ref(),
        local.as_ref(),
        languages(),
    )
    .unwrap();
    Session { router, history: EditHistory::new(), host: Host::new() }
}

fn session() -> Session {
    session_with(None, None)
}

impl Session {
    fn call_tool(&mut self, name: &str, params: ToolParams) -> Result<Vec<Content>, ToolError> {
        let mut step = self.router.call_tool(
            &mut self.history,
            name,
            &params,
            Some("/home/user"),
            "/project",
        );
        loop {
            match step {
                Step::Done(result) => return result,
                Step::Await { effect, pending } => {
                    let event = self.host.perform(effect);
                    step = self.router.resume(&mut self.history, pending, event);
                }
            }
        }
    }

    fn editor(&mut self, fields: &[(&str, &str)]) -> Result<Vec<Content>, ToolError> {
        let mut params = ToolParams::new();
        for (name, value) in fields {
            params = params.with_text(name, value);
        }
        self.call_tool("text_editor", params)
    }
}

fn text_for(contents: &[Content], role: Role) -> String {
    contents
        .iter()
        .find(|c| c.audience().is_some_and(|roles| roles.contains(&role)))
        .unwrap()
        .as_text()
        .unwrap()
        .to_string()
}

fn invalid(result: Result<Vec<Content>, ToolError>) -> String {
    match result {
        Err(ToolError::InvalidParameters(message)) => message,
        other => panic!("Expected InvalidParameters, got {:?}", other),
    }
}

fn failure(result: Result<Vec<Content>, ToolError>) -> String {
    match result {
        Err(ToolError::ExecutionError(message)) => message,
        other => panic!("Expected ExecutionError, got {:?}", other),
    }
}

#[test]
fn test_goosehints_when_present() {
    let router = DeveloperRouter::new(
        "linux",
        "/project",
        Some("Test hint content"),
        None,
        None,
        Vec::new(),
    )
    .unwrap();
    let instructions = router.instructions();

    assert!(instructions.contains("Test hint content"));
}

#[test]
fn test_goosehints_when_missing() {
    let router =
        DeveloperRouter::new("linux", "/project", None, None, None, Vec::new()).unwrap();
    let instructions = router.instructions();

    assert!(!instructions.contains("Project Hints"));
}

#[test]
fn the_instructions_say_where_the_agent_is() {
    let router = DeveloperRouter::new(
        "linux",
        "/project",
        Some("Be kind."),
        None,
        None,
        Vec::new(),
    )
    .unwrap();
    let instructions = router.instructions();
    assert!(instructions.starts_with("The developer extension gives you the capabilities"));
    assert!(instructions.ends_with(
        "\noperating system: linux\ncurrent directory: /project\n\n\n### Project Hints\nThe developer extension includes some hints for working on the project in this directory.\nBe kind."
    ));
    let plain = DeveloperRouter::new("macos", "/w", None, None, None, Vec::new()).unwrap();
    assert!(plain
        .instructions()
        .ends_with("relevant.\n\noperating system: macos\ncurrent directory: /w\n\n"));
    assert_eq!(plain.name(), "developer");
}

#[test]
fn test_shell_missing_parameters() {
    let mut session = session();
    let result = session.call_tool("shell", ToolParams::new());

    assert!(result.is_err());
    let err = result.err().unwrap();
    assert!(matches!(err, ToolError::InvalidParameters(_)));
    assert_eq!(session.host.effects, 0);
}

#[test]
fn test_text_editor_size_limits() {
    let mut session = session();

    // Test file size limit
    {
        let large_file_str = "/project/large.txt";

        // Create a file larger than 2MB
        let content = "x".repeat(3 * 1024 * 1024); // 3MB
        session.host.files.insert(large_file_str.to_string(), content);

        let result = session.editor(&[("command", "view"), ("path", large_file_str)]);

        assert!(result.is_err());
        let err = result.err().unwrap();
        assert!(matches!(err, ToolError::ExecutionError(_)));
        assert!(err.to_string().contains("too large"));
        assert_eq!(
            err.message(),
            "File '/project/large.txt' is too large (3072.00KB). Maximum size is 400KB to prevent memory issues."
        );
    }

    // Test character count limit
    {
        let many_chars_str = "/project/many_chars.txt";

        // Create a file with more than 400K characters but less than 400KB
        let content = "x".repeat(405_000);
        session.host.files.insert(many_chars_str.to_string(), content);

        let result = session.editor(&[("command", "view"), ("path", many_chars_str)]);

        assert!(result.is_err());
        let err = result.err().unwrap();
        assert!(matches!(err, ToolError::ExecutionError(_)));
        assert!(err.to_string().contains("too many characters"));
        assert_eq!(
            err.message(),
            "File '/project/many_chars.txt' has too many characters (405000). Maximum character count is 400000."
        );
    }
}

#[test]
fn a_file_at_the_limits_can_be_viewed() {
    let mut session = session();
    session.host.files.insert("/project/full.txt".to_string(), "x".repeat(400_000));
    assert!(session.editor(&[("command", "view"), ("path", "/project/full.txt")]).is_ok());
    session.host.files.insert("/project/over.txt".to_string(), "x".repeat(400_001));
    let message = failure(session.editor(&[("command", "view"), ("path", "/project/over.txt")]));
    assert!(message.contains("too many characters (400001)"));
    // 409,600 bytes in 204,800 characters of two bytes each.
    session.host.files.insert("/project/wide.txt".to_string(), "é".repeat(204_800));
    assert!(session.editor(&[("command", "view"), ("path", "/project/wide.txt")]).is_ok());
    session.host.files.insert("/project/wider.txt".to_string(), "é".repeat(204_801));
    let message = failure(session.editor(&[("command", "view"), ("path", "/project/wider.txt")]));
    assert!(message.contains("is too large (400.00KB)"));
}

#[test]
fn test_text_editor_write_and_view_file() {
    let mut session = session();
    let file_path_str = "/project/test.txt";

    // Create a new file
    session
        .editor(&[
            ("command", "write"),
            ("path", file_path_str),
            ("file_text", "Hello, world!"),
        ])
        .unwrap();

    // View the file
    let view_result = session
        .editor(&[("command", "view"), ("path", file_path_str)])
        .unwrap();

    assert!(!view_result.is_empty());
    let text = view_result
        .iter()
        .find(|c| {
            c.audience()
                .is_some_and(|roles| roles.contains(&Role::User))
        })
        .unwrap()
        .as_text()
        .unwrap();
    assert!(text.contains("Hello, world!"));
}

#[test]
fn write_then_view_round_trips() {
    let mut session = session();
    let text = "fn main() {\n    println!(\"héllo\");\n}\n\u{feff}\r\n\ttabs and \u{1F600}";
    let written = session
        .editor(&[("command", "write"), ("path", "/project/src/main.rs"), ("file_text", text)])
        .unwrap();
    assert_eq!(written.len(), 2);
    assert_eq!(text_for(&written, Role::Assistant), "Successfully wrote to /project/src/main.rs");
    assert_eq!(
        text_for(&written, Role::User),
        format!("### /project/src/main.rs\n```rs\n{}\n```\n", text)
    );
    assert_eq!(written[0].priority(), None);
    assert_eq!(written[1].priority(), Some(20));
    assert_eq!(session.host.files["/project/src/main.rs"], text);

    let viewed = session
        .editor(&[("command", "view"), ("path", "/project/src/main.rs")])
        .unwrap();
    assert_eq!(viewed.len(), 2);
    match &viewed[0].body {
        Body::Resource { uri, text: content } => {
            assert_eq!(uri, "file:///project/src/main.rs");
            assert_eq!(content, text);
        }
        other => panic!("Expected a resource, got {:?}", other),
    }
    assert!(viewed[0].is_for(Role::Assistant));
    assert!(!viewed[0].is_for(Role::User));
    assert_eq!(viewed[0].priority(), None);
    assert_eq!(
        text_for(&viewed, Role::User),
        format!("### /project/src/main.rs\n```rust\n{}\n```\n", text)
    );
    assert_eq!(viewed[1].priority(), Some(0));
}

#[test]
fn write_records_no_history() {
    let mut session = session();
    session
        .editor(&[("command", "write"), ("path", "/project/a.txt"), ("file_text", "one")])
        .unwrap();
    session
        .editor(&[("command", "write"), ("path", "/project/a.txt"), ("file_text", "two")])
        .unwrap();
    assert!(!session.history.has_history("/project/a.txt"));
    let message = invalid(session.editor(&[("command", "undo_edit"), ("path", "/project/a.txt")]));
    assert_eq!(message, "No edit history available to undo");
    assert_eq!(session.host.files["/project/a.txt"], "two");
}

#[test]
fn test_text_editor_str_replace() {
    let mut session = session();
    let file_path_str = "/project/test.txt";

    // Create a new file
    session
        .editor(&[
            ("command", "write"),
            ("path", file_path_str),
            ("file_text", "Hello, world!"),
        ])
        .unwrap();

    // Replace string
    let replace_result = session
        .editor(&[
            ("command", "str_replace"),
            ("path", file_path_str),
            ("old_str", "world"),
            ("new_str", "Rust"),
        ])
        .unwrap();

    let text = replace_result
        .iter()
        .find(|c| {
            c.audience()
                .is_some_and(|roles| roles.contains(&Role::Assistant))
        })
        .unwrap()
        .as_text()
        .unwrap();

    assert!(text.contains("has been edited, and the section now reads"));

    // View the file to verify the change
    let view_result = session
        .editor(&[("command", "view"), ("path", file_path_str)])
        .unwrap();

    let text = view_result
        .iter()
        .find(|c| {
            c.audience()
                .is_some_and(|roles| roles.contains(&Role::User))
        })
        .unwrap()
        .as_text()
        .unwrap();
    assert!(text.contains("Hello, Rust!"));
}

#[test]
fn str_replace_reports_the_edited_section() {
    let mut session = session();
    let before = "l1\nl2\nl3\nl4\nl5\nl6 old\nl7\nl8\nl9\nl10\nl11\nl12\nl13\n";
    session.host.files.insert("/project/notes.py".to_string(), before.to_string());
    let result = session
        .editor(&[
            ("command", "str_replace"),
            ("path", "/project/notes.py"),
            ("old_str", "old"),
            ("new_str", "new\nextra"),
        ])
        .unwrap();
    assert_eq!(
        session.host.files["/project/notes.py"],
        "l1\nl2\nl3\nl4\nl5\nl6 new\nextra\nl7\nl8\nl9\nl10\nl11\nl12\nl13\n"
    );
    // The edit is on line 5 (counted from 0) and adds one line: lines 1 to 10 are shown.
    let snippet = "l2\nl3\nl4\nl5\nl6 new\nextra\nl7\nl8\nl9\nl10";
    let output = format!("```py\n{}\n```\n", snippet);
    assert_eq!(text_for(&result, Role::User), output);
    assert_eq!(
        text_for(&result, Role::Assistant),
        format!(
            "The file /project/notes.py has been edited, and the section now reads:\n{}\nReview the changes above for errors. Undo and edit the file again if necessary!\n",
            output
        )
    );
    assert_eq!(result[0].priority(), None);
    assert_eq!(result[1].priority(), Some(20));
}

#[test]
fn str_replace_near_the_start_shows_from_the_first_line() {
    let mut session = session();
    session.host.files.insert("/project/a".to_string(), "x\ny\nz".to_string());
    let result = session
        .editor(&[
            ("command", "str_replace"),
            ("path", "/project/a"),
            ("old_str", "y"),
            ("new_str", "Y"),
        ])
        .unwrap();
    assert_eq!(text_for(&result, Role::User), "```\nx\nY\nz\n```\n");
}

#[test]
fn str_replace_needs_exactly_one_occurrence() {
    let mut session = session();
    session.host.files.insert("/project/a.txt".to_string(), "one two two".to_string());
    let absent = invalid(session.editor(&[
        ("command", "str_replace"),
        ("path", "/project/a.txt"),
        ("old_str", "three"),
        ("new_str", "3"),
    ]));
    assert_eq!(
        absent,
        "'old_str' must appear exactly once in the file, but it does not appear in the file. Make sure the string exactly matches existing file content, including whitespace!"
    );
    let twice = invalid(session.editor(&[
        ("command", "str_replace"),
        ("path", "/project/a.txt"),
        ("old_str", "two"),
        ("new_str", "2"),
    ]));
    assert_eq!(
        twice,
        "'old_str' must appear exactly once in the file, but it appears multiple times"
    );
    assert_eq!(session.host.files["/project/a.txt"], "one two two");
    assert!(!session.history.has_history("/project/a.txt"));
    session
        .editor(&[
            ("command", "str_replace"),
            ("path", "/project/a.txt"),
            ("old_str", "one"),
            ("new_str", "1"),
        ])
        .unwrap();
    assert_eq!(session.host.files["/project/a.txt"], "1 two two");
    assert!(session.history.has_history("/project/a.txt"));
}

#[test]
fn str_replace_refuses_occurrences_that_overlap() {
    let mut session = session();
    session.host.files.insert("/project/a.txt".to_string(), "aaa".to_string());
    let message = invalid(session.editor(&[
        ("command", "str_replace"),
        ("path", "/project/a.txt"),
        ("old_str", "aa"),
        ("new_str", "b"),
    ]));
    assert_eq!(
        message,
        "'old_str' must appear exactly once in the file, but it appears multiple times"
    );
    assert_eq!(session.host.files["/project/a.txt"], "aaa");
    assert!(!session.history.has_history("/project/a.txt"));
}

#[test]
fn str_replace_needs_an_existing_file() {
    let mut session = session();
    let message = invalid(session.editor(&[
        ("command", "str_replace"),
        ("path", "/project/none.txt"),
        ("old_str", "a"),
        ("new_str", "b"),
    ]));
    assert_eq!(
        message,
        "File '/project/none.txt' does not exist, you can write a new file with the `write` command"
    );
    assert!(session.host.files.is_empty());
}

#[test]
fn test_text_editor_undo_edit() {
    let mut session = session();
    let file_path_str = "/project/test.txt";

    // Create a new file
    session
        .editor(&[
            ("command", "write"),
            ("path", file_path_str),
            ("file_text", "First line"),
        ])
        .unwrap();

    // Replace string
    session
        .editor(&[
            ("command", "str_replace"),
            ("path", file_path_str),
            ("old_str", "First line"),
            ("new_str", "Second line"),
        ])
        .unwrap();

    // Undo the edit
    let undo_result = session
        .editor(&[("command", "undo_edit"), ("path", file_path_str)])
        .unwrap();

    let text = undo_result.first().unwrap().as_text().unwrap();
    assert!(text.contains("Undid the last edit"));

    // View the file to verify the undo
    let view_result = session
        .editor(&[("command", "view"), ("path", file_path_str)])
        .unwrap();

    let text = view_result
        .iter()
        .find(|c| {
            c.audience()
                .is_some_and(|roles| roles.contains(&Role::User))
        })
        .unwrap()
        .as_text()
        .unwrap();
    assert!(text.contains("First line"));
}

#[test]
fn each_undo_takes_back_one_edit() {
    let mut session = session();
    let before = "alpha\r\nbeta \u{1F600}\n";
    session.host.files.insert("/project/a.txt".to_string(), before.to_string());
    session.host.files.insert("/project/b.txt".to_string(), "other".to_string());
    for (old, new) in [("alpha", "ALPHA"), ("beta", "BETA")] {
        session
            .editor(&[
                ("command", "str_replace"),
                ("path", "/project/a.txt"),
                ("old_str", old),
                ("new_str", new),
            ])
            .unwrap();
    }
    assert_eq!(session.host.files["/project/a.txt"], "ALPHA\r\nBETA \u{1F600}\n");
    let message = invalid(session.editor(&[("command", "undo_edit"), ("path", "/project/b.txt")]));
    assert_eq!(message, "No edit history available to undo");
    let undone = session
        .editor(&[("command", "undo_edit"), ("path", "/project/a.txt")])
        .unwrap();
    assert_eq!(undone.len(), 1);
    assert_eq!(undone[0].as_text(), Some("Undid the last edit"));
    assert!(undone[0].audience().is_none());
    assert_eq!(session.host.files["/project/a.txt"], "ALPHA\r\nbeta \u{1F600}\n");
    session
        .editor(&[("command", "undo_edit"), ("path", "/project/a.txt")])
        .unwrap();
    assert_eq!(session.host.files["/project/a.txt"], before);
    let message = invalid(session.editor(&[("command", "undo_edit"), ("path", "/project/a.txt")]));
    assert_eq!(message, "No edit history available to undo");
    assert_eq!(session.host.files["/project/a.txt"], before);
    assert_eq!(session.host.files["/project/b.txt"], "other");
}

#[test]
fn test_text_editor_respects_ignore_patterns() {
    let mut session = session_with(Some("global_secret.*\n"), Some("secret.txt\n*.env\n"));
    for (name, text) in [
        ("secret.txt", "secret data"),
        ("normal.txt", "normal data"),
        ("global_secret.txt", "global secret"),
    ] {
        session.host.files.insert(format!("/project/{}", name), text.to_string());
    }

    let result = session.editor(&[("command", "view"), ("path", "/project/secret.txt")]);
    assert!(result.is_err());
    assert!(result.unwrap_err().to_string().contains("restricted by .gooseignore"));

    let result = session.editor(&[("command", "view"), ("path", "/project/global_secret.txt")]);
    assert!(result.is_err());
    assert!(result.unwrap_err().to_string().contains("restricted by .gooseignore"));

    let result = session.editor(&[("command", "view"), ("path", "/project/normal.txt")]);
    assert!(result.is_ok());
    let content = result.unwrap();
    assert!(content
        .iter()
        .any(|c| c.as_text().is_some_and(|t| t.contains("normal data"))));

    let result = session.editor(&[
        ("command", "write"),
        ("path", "/project/secret.txt"),
        ("file_text", "new secret data"),
    ]);
    assert!(result.is_err());
    assert!(result.unwrap_err().to_string().contains("restricted by .gooseignore"));
    assert_eq!(session.host.files["/project/secret.txt"], "secret data");
}

#[test]
fn without_a_rule_file_the_defaults_hide_dot_env() {
    let mut session = session_with(None, None);
    session.host.files.insert("/project/.env".to_string(), "KEY=value".to_string());
    let message = failure(session.editor(&[("command", "view"), ("path", "/project/.env")]));
    assert_eq!(message, "Access to '/project/.env' is restricted by .gooseignore");
    assert_eq!(session.host.effects, 0);
}

#[test]
fn with_an_empty_rule_file_dot_env_can_be_viewed() {
    let mut session = session_with(None, Some(""));
    session.host.files.insert("/project/.env".to_string(), "KEY=value".to_string());
    let viewed = session
        .editor(&[("command", "view"), ("path", "/project/.env")])
        .unwrap();
    match &viewed[0].body {
        Body::Resource { text, .. } => assert_eq!(text, "KEY=value"),
        other => panic!("Expected a resource, got {:?}", other),
    }
}

#[test]
fn the_editor_checks_its_parameters_in_order() {
    let mut session = session();
    assert_eq!(invalid(session.editor(&[])), "Missing 'command' parameter");
    assert_eq!(
        invalid(session.editor(&[("path", "/project/a")])),
        "Missing 'command' parameter"
    );
    assert_eq!(
        invalid(session.editor(&[("command", "view")])),
        "Missing 'path' parameter"
    );
    assert_eq!(
        invalid(session.editor(&[("command", "nonsense"), ("path", "a.txt")])),
        "The path a.txt is not an absolute path, did you possibly mean /project/a.txt?"
    );
    assert_eq!(
        failure(session.editor(&[("command", "nonsense"), ("path", "/project/.env")])),
        "Access to '/project/.env' is restricted by .gooseignore"
    );
    assert_eq!(
        invalid(session.editor(&[("command", "nonsense"), ("path", "/project/a")])),
        "Unknown command 'nonsense'"
    );
    assert_eq!(
        invalid(session.editor(&[("command", "write"), ("path", "/project/a")])),
        "Missing 'file_text' parameter"
    );
    assert_eq!(
        invalid(session.editor(&[
            ("command", "str_replace"),
            ("path", "/project/a"),
            ("new_str", "x")
        ])),
        "Missing 'old_str' parameter"
    );
    assert_eq!(
        invalid(session.editor(&[
            ("command", "str_replace"),
            ("path", "/project/a"),
            ("old_str", "x")
        ])),
        "Missing 'new_str' parameter"
    );
    let mut params = ToolParams::new().with_text("command", "view");
    params.insert("path".to_string(), ParamValue::Number(7));
    assert_eq!(invalid(session.call_tool("text_editor", params)), "Missing 'path' parameter");
    assert_eq!(session.host.effects, 0);
}

#[test]
fn the_editor_expands_a_tilde_in_the_path() {
    let mut session = session();
    session
        .editor(&[("command", "write"), ("path", "~/notes.txt"), ("file_text", "n")])
        .unwrap();
    assert_eq!(session.host.files["/home/user/notes.txt"], "n");
}

#[test]
fn view_needs_a_regular_file() {
    let mut session = session();
    assert_eq!(
        failure(session.editor(&[("command", "view"), ("path", "/project/none.txt")])),
        "The path '/project/none.txt' does not exist or is not a file."
    );
}

#[test]
fn failures_of_the_host_are_passed_on() {
    let router =
        DeveloperRouter::new("linux", "/project", None, None, None, Vec::new()).unwrap();
    let mut history = EditHistory::new();
    let step = router.resume(
        &mut history,
        Pending::ViewProbe { path: "/project/a".to_string() },
        Event::Probed { exists: true, is_file: true, size: Err("denied".to_string()) },
    );
    assert_eq!(
        failure(match step {
            Step::Done(r) => r,
            _ => panic!("Expected the end"),
        }),
        "Failed to get file metadata: denied"
    );
    let step = router.resume(
        &mut history,
        Pending::ViewRead { path: "/project/a".to_string(), uri: "file:///project/a".to_string() },
        Event::Read(Err("stream did not contain valid UTF-8".to_string())),
    );
    assert_eq!(
        failure(match step {
            Step::Done(r) => r,
            _ => panic!("Expected the end"),
        }),
        "Failed to read file: stream did not contain valid UTF-8"
    );
    let step = router.resume(
        &mut history,
        Pending::UndoWrite,
        Event::Read(Ok("not what was asked".to_string())),
    );
    assert_eq!(
        failure(match step {
            Step::Done(r) => r,
            _ => panic!("Expected the end"),
        }),
        "The report of the host does not answer what was asked of it"
    );
}

#[test]
fn a_failed_write_is_an_execution_error() {
    let mut session = session();
    session.host.files.insert("/project/a.txt".to_string(), "one".to_string());
    session.host.write_failure = Some("disk full".to_string());
    assert_eq!(
        failure(session.editor(&[
            ("command", "write"),
            ("path", "/project/a.txt"),
            ("file_text", "two")
        ])),
        "Failed to write file: disk full"
    );
    assert_eq!(
        failure(session.editor(&[
            ("command", "str_replace"),
            ("path", "/project/a.txt"),
            ("old_str", "one"),
            ("new_str", "1")
        ])),
        "Failed to write file: disk full"
    );
    // The history was recorded before the write was tried, and the undo takes it out.
    assert!(session.history.has_history("/project/a.txt"));
    assert_eq!(
        failure(session.editor(&[("command", "undo_edit"), ("path", "/project/a.txt")])),
        "Failed to write file: disk full"
    );
    assert!(!session.history.has_history("/project/a.txt"));
}

#[test]
fn test_bash_blocks_ignored_files() {
    let mut session = session_with(None, Some("secret.txt\n*.env\n"));

    let result = session.call_tool("shell", ToolParams::new().with_text("command", "cat secret.txt"));
    assert!(result.is_err());
    assert!(result.unwrap_err().to_string().contains("restricted by .gooseignore"));
    assert!(session.host.scripts.is_empty());

    let result = session.call_tool("shell", ToolParams::new().with_text("command", "ls"));
    assert!(result.is_ok());

    let result = session.call_tool("shell", ToolParams::new().with_text("command", "cat normal.txt"));
    assert!(result.is_ok());
    assert_eq!(
        session.host.scripts,
        vec!["exec 2>&1\nls".to_string(), "exec 2>&1\ncat normal.txt".to_string()]
    );
}

#[test]
fn the_shell_hands_its_output_to_both_audiences() {
    let mut session = session();
    session.host.shell_output = Ok("total 0\n".to_string());
    let result = session
        .call_tool("shell", ToolParams::new().with_text("command", "ls -l"))
        .unwrap();
    assert_eq!(result.len(), 2);
    assert_eq!(text_for(&result, Role::Assistant), "total 0\n");
    assert_eq!(text_for(&result, Role::User), "total 0\n");
    assert_eq!(result[0].priority(), None);
    assert_eq!(result[1].priority(), Some(0));
    assert_eq!(result[0].audience().unwrap(), &vec![Role::Assistant]);
    assert_eq!(result[1].audience().unwrap(), &vec![Role::User]);
}

#[test]
fn shell_output_over_the_limit_is_withheld() {
    let mut session = session();
    session.host.shell_output = Ok("y".repeat(400_000));
    assert!(session
        .call_tool("shell", ToolParams::new().with_text("command", "yes"))
        .is_ok());
    session.host.shell_output = Ok("y".repeat(400_001));
    let message =
        failure(session.call_tool("shell", ToolParams::new().with_text("command", "yes")));
    assert_eq!(
        message,
        "Shell output from command 'yes' has too many characters (400001). Maximum character count is 400000."
    );
    // The command ran both times.
    assert_eq!(session.host.scripts.len(), 2);
}

#[test]
fn a_command_that_cannot_run_is_an_execution_error() {
    let mut session = session();
    session.host.shell_output = Err("No such file or directory (os error 2)".to_string());
    assert_eq!(
        failure(session.call_tool("shell", ToolParams::new().with_text("command", "true"))),
        "No such file or directory (os error 2)"
    );
}

#[test]
fn an_unknown_tool_is_not_found() {
    let mut session = session();
    match session.call_tool("teleport", ToolParams::new()) {
        Err(ToolError::NotFound(message)) => assert_eq!(message, "Tool teleport not found"),
        other => panic!("Expected NotFound, got {:?}", other),
    }
    let err = session.call_tool("", ToolParams::new()).unwrap_err();
    assert_eq!(err.to_string(), "Tool not found: Tool  not found");
    for tool in session.router.list_tools().clone() {
        let result = session.call_tool(&tool.name, ToolParams::new());
        assert!(!matches!(result, Err(ToolError::NotFound(_))), "tool {}", tool.name);
    }
}

#[test]
fn windows_are_listed_one_to_a_line() {
    let mut session = session();
    session.host.windows = Some(vec!["Terminal".to_string(), "Editor — main.rs".to_string()]);
    let result = session.call_tool("list_windows", ToolParams::new()).unwrap();
    assert_eq!(
        text_for(&result, Role::Assistant),
        "Available windows:\nTerminal\nEditor — main.rs"
    );
    assert_eq!(text_for(&result, Role::User), text_for(&result, Role::Assistant));
    assert_eq!(result[1].priority(), Some(0));
    session.host.windows = Some(Vec::new());
    let result = session.call_tool("list_windows", ToolParams::new()).unwrap();
    assert_eq!(text_for(&result, Role::Assistant), "Available windows:\n");
    session.host.windows = None;
    assert_eq!(
        failure(session.call_tool("list_windows", ToolParams::new())),
        "Failed to list windows"
    );
}

#[test]
fn a_capture_is_handed_back_as_a_base64_image() {
    let mut session = session();
    session.host.image = Ok(b"\x89PNG\r\n\x1a\nimage".to_vec());
    let result = session.call_tool("screen_capture", ToolParams::new()).unwrap();
    assert_eq!(result.len(), 2);
    assert_eq!(text_for(&result, Role::Assistant), "Screenshot captured");
    match &result[1].body {
        Body::Image { data, mime_type } => {
            assert_eq!(data, "iVBORw0KGgppbWFnZQ==");
            assert_eq!(mime_type, "image/png");
        }
        other => panic!("Expected an image, got {:?}", other),
    }
    assert!(result[1].audience().is_none());
    assert_eq!(result[1].priority(), Some(0));
}

#[test]
fn a_capture_picks_the_window_or_the_display_asked_for() {
    let router =
        DeveloperRouter::new("linux", "/project", None, None, None, Vec::new()).unwrap();
    let mut history = EditHistory::new();
    let by_title = ToolParams::new().with_text("window_title", "Editor").with_number("display", 3);
    let step = router.call_tool(&mut history, "screen_capture", &by_title, None, "/project");
    let pending = match step {
        Step::Await { effect: Effect::ListWindows, pending } => pending,
        other => panic!("Expected to list windows, got {:?}", other),
    };
    let titles = vec!["Terminal".to_string(), "Editor".to_string(), "Editor".to_string()];
    match router.resume(&mut history, pending, Event::Windows(Some(titles))) {
        Step::Await { effect: Effect::CaptureWindow { index }, .. } => assert_eq!(index, 1),
        other => panic!("Expected to capture a window, got {:?}", other),
    }
    let by_number = ToolParams::new().with_number("display", 2);
    let step = router.call_tool(&mut history, "screen_capture", &by_number, None, "/project");
    let pending = match step {
        Step::Await { effect: Effect::CountDisplays, pending } => pending,
        other => panic!("Expected to count displays, got {:?}", other),
    };
    match router.resume(&mut history, pending, Event::Displays(Some(3))) {
        Step::Await { effect: Effect::CaptureDisplay { index }, .. } => assert_eq!(index, 2),
        other => panic!("Expected to capture a display, got {:?}", other),
    }
}

#[test]
fn a_capture_that_cannot_be_made_is_an_execution_error() {
    let mut session = session();
    session.host.windows = Some(vec!["Terminal".to_string()]);
    assert_eq!(
        failure(session.call_tool(
            "screen_capture",
            ToolParams::new().with_text("window_title", "Editor")
        )),
        "No window found with title 'Editor'"
    );
    session.host.windows = None;
    assert_eq!(
        failure(session.call_tool(
            "screen_capture",
            ToolParams::new().with_text("window_title", "Editor")
        )),
        "Failed to list windows"
    );
    session.host.displays = Some(2);
    assert_eq!(
        failure(session.call_tool("screen_capture", ToolParams::new().with_number("display", 2))),
        "2 was not an available monitor, 2 found."
    );
    session.host.displays = None;
    assert_eq!(
        failure(session.call_tool("screen_capture", ToolParams::new())),
        "Failed to access monitors"
    );
    session.host.displays = Some(1);
    session.host.windows = Some(vec!["Editor".to_string()]);
    session.host.image = Err(CaptureFailure::Capture("no permission".to_string()));
    assert_eq!(
        failure(session.call_tool("screen_capture", ToolParams::new())),
        "Failed to capture display 0: no permission"
    );
    assert_eq!(
        failure(session.call_tool(
            "screen_capture",
            ToolParams::new().with_text("window_title", "Editor")
        )),
        "Failed to capture window 'Editor': no permission"
    );
    session.host.image = Err(CaptureFailure::Encode("bad buffer".to_string()));
    assert_eq!(
        failure(session.call_tool("screen_capture", ToolParams::new())),
        "Failed to write image buffer bad buffer"
    );
}
