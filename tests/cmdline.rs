use pty_process::{command_line, environment_block, quote_arg, Error};

#[test]
fn plain_argument_stays() {
    assert_eq!(quote_arg("abc"), "abc");
}

#[test]
fn empty_argument_is_quoted() {
    assert_eq!(quote_arg(""), "\"\"");
}

#[test]
fn argument_with_space_is_quoted() {
    assert_eq!(quote_arg("a b"), "\"a b\"");
    assert_eq!(quote_arg("a\tb"), "\"a\tb\"");
}

#[test]
fn inner_quote_is_escaped() {
    assert_eq!(quote_arg(r#"a"b"#), r#"a\"b"#);
}

#[test]
fn backslashes_before_quote_are_doubled() {
    assert_eq!(quote_arg(r#"a\"b"#), r#"a\\\"b"#);
}

#[test]
fn lone_backslashes_stay() {
    assert_eq!(quote_arg(r"a\b"), r"a\b");
    assert_eq!(quote_arg(r"x\"), r"x\");
}

#[test]
fn trailing_backslashes_are_doubled_inside_quotes() {
    assert_eq!(quote_arg(r"a b\"), r#""a b\\""#);
}

#[test]
fn command_line_needs_a_program() {
    assert_eq!(command_line(None, &vec![]), Err(Error::NoExeSpecified));
}

#[test]
fn command_line_refuses_nul_in_program() {
    assert_eq!(
        command_line(Some("a\0b"), &vec![]),
        Err(Error::InvalidExeSpecified("a\0b".to_string()))
    );
}

#[test]
fn command_line_joins_quoted_arguments() {
    let args = vec!["-n".to_string(), "hello world".to_string(), String::new()];
    assert_eq!(
        command_line(Some(r"C:\Program Files\app.exe"), &args),
        Ok(r#""C:\Program Files\app.exe" -n "hello world" """#.to_string())
    );
}

#[test]
fn command_line_of_program_alone() {
    assert_eq!(command_line(Some("cmd.exe"), &vec![]), Ok("cmd.exe".to_string()));
}

fn var(k: &str, v: &str) -> (String, String) {
    (k.to_string(), v.to_string())
}

#[test]
fn environment_block_of_no_vars_is_two_nuls() {
    assert_eq!(environment_block(&vec![]), Ok(vec!['\0', '\0']));
}

#[test]
fn environment_block_keeps_order() {
    let block = environment_block(&vec![var("B", "2"), var("A", "x y")]).unwrap();
    let text: String = block.into_iter().collect();
    assert_eq!(text, "B=2\0A=x y\0\0");
}

#[test]
fn environment_block_takes_empty_value() {
    let block = environment_block(&vec![var("EMPTY", "")]).unwrap();
    assert_eq!(block, vec!['E', 'M', 'P', 'T', 'Y', '=', '\0', '\0']);
}

#[test]
fn environment_block_refuses_bad_names() {
    assert_eq!(
        environment_block(&vec![var("OK", "1"), var("A=B", "2")]),
        Err(Error::InvalidEnvironment("A=B".to_string()))
    );
    assert_eq!(
        environment_block(&vec![var("", "2")]),
        Err(Error::InvalidEnvironment(String::new()))
    );
}

#[test]
fn environment_block_refuses_nul_in_value() {
    assert_eq!(
        environment_block(&vec![var("K", "a\0b")]),
        Err(Error::InvalidEnvironment("K".to_string()))
    );
}
