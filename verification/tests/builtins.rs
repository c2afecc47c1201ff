use amber::builtins::{
    Await, Cd, Cp, Disown, EnvLookup, Exit, Len, LinesInvocation, Lock, Ls, LsSwitch, Mv, Nameof, Param, Pid, Pwd, Rm,
    RmDir, Shellname, Shellversion, Sleep, TextPart, Touch, TypeError,
};
use amber::docs::DocumentationModule;
use amber::types::Type;

fn arr(t: Type) -> Type {
    Type::array_of(t)
}

fn mismatch(message: &str, comment: &str) -> Result<(), TypeError> {
    Err(TypeError { message: message.to_string(), comment: Some(comment.to_string()) })
}

#[test]
fn type_names() {
    assert_eq!(Type::Text.to_text(), "Text");
    assert_eq!(Type::Null.to_text(), "Null");
    assert_eq!(arr(arr(Type::Num)).to_text(), "[[Num]]");
    assert!(arr(Type::Text).is_array_of_text());
    assert!(!arr(Type::Int).is_array_of_text());
    assert!(arr(Type::Int).is_array_of_int());
    assert_eq!(arr(Type::Bool).copied(), arr(Type::Bool));
}

#[test]
fn cd_needs_a_text_path() {
    assert_eq!(Cd { value: Type::Text }.typecheck(), Ok(()));
    assert_eq!(
        Cd { value: Type::Int }.typecheck(),
        mismatch("Builtin function `cd` can only be used with values of type Text", "Given type: Int, expected type: Text")
    );
}

#[test]
fn cp_checks_paths_then_force() {
    let ok = Cp { source: Type::Text, destination: Type::Text, force: Some(Type::Bool) };
    assert_eq!(ok.typecheck(), Ok(()));
    let bad_dest = Cp { source: Type::Text, destination: arr(Type::Text), force: Some(Type::Int) };
    assert_eq!(
        bad_dest.typecheck(),
        mismatch("Builtin function `cp` can only be used with values of type Text", "Given type: [Text], expected type: Text")
    );
    let bad_force = Cp { source: Type::Text, destination: Type::Text, force: Some(Type::Int) };
    assert_eq!(
        bad_force.typecheck(),
        mismatch("Builtin function `cp` can only be used with 3rd argument of type Bool", "Given type: Int, expected type: Bool")
    );
}

#[test]
fn exit_code_is_an_int() {
    assert_eq!(Exit { code: None }.typecheck(), Ok(()));
    assert_eq!(Exit { code: Some(Type::Int) }.typecheck(), Ok(()));
    assert_eq!(
        Exit { code: Some(Type::Num) }.typecheck(),
        mismatch("Builtin function `exit` can only be used with values of type Int", "Given type: Num, expected type: Int")
    );
}

#[test]
fn ls_arguments() {
    assert_eq!(Ls { value: None, all: None, recursive: None }.typecheck(), Ok(()));
    assert_eq!(
        Ls { value: Some(Type::Text), all: Some(Type::Bool), recursive: Some(Type::Text) }.typecheck(),
        mismatch("Builtin function `ls` can only be used with 3rd argument of type Bool", "Given type: Text, expected type: Bool")
    );
    assert_eq!(
        Ls { value: Some(Type::Bool), all: Some(Type::Int), recursive: None }.typecheck(),
        mismatch("Builtin function `ls` can only be used with 1st argument of type Text", "Given type: Bool, expected type: Text")
    );
    assert_eq!(Ls { value: None, all: None, recursive: None }.get_type(), arr(Type::Text));
}

#[test]
fn lock_mv_rm_touch() {
    assert_eq!(Lock { path: None }.typecheck(), Ok(()));
    assert_eq!(
        Lock { path: Some(Type::Int) }.typecheck(),
        mismatch("Builtin function `lock` can only be used with values of type Text", "Given type: Int, expected type: Text")
    );
    assert_eq!(Mv { source: Type::Text, destination: Type::Text }.typecheck(), Ok(()));
    assert_eq!(
        Mv { source: Type::Null, destination: Type::Text }.typecheck(),
        mismatch("Builtin function `mv` can only be used with values of type Text", "Given type: Null, expected type: Text")
    );
    assert_eq!(Rm { value: Type::Text, recursive: Some(Type::Bool), force: None }.typecheck(), Ok(()));
    assert_eq!(
        Rm { value: Type::Text, recursive: Some(Type::Text), force: None }.typecheck(),
        mismatch(
            "Builtin function `rm` can only be used with optional 2nd argument of type Bool",
            "Given type: Text, expected type: Bool"
        )
    );
    assert_eq!(Touch { value: Type::Text }.typecheck(), Ok(()));
    assert_eq!(
        Touch { value: Type::Bool }.typecheck(),
        mismatch("Builtin function `touch` can only be used with values of type Text", "Given type: Bool, expected type: Text")
    );
}

#[test]
fn rmdir_takes_a_list_of_paths() {
    assert_eq!(RmDir { value: arr(Type::Text), ignore_non_empty: Type::Bool }.typecheck(), Ok(()));
    assert_eq!(
        RmDir { value: Type::Text, ignore_non_empty: Type::Bool }.typecheck(),
        mismatch(
            "Builtin function `rmdir` can only be used with 1st argument of type [Text]",
            "Given type: Text, expected type: [Text]"
        )
    );
    assert_eq!(
        RmDir { value: arr(Type::Text), ignore_non_empty: Type::Int }.typecheck(),
        mismatch("Builtin function `rmdir` can only be used with 2nd argument of type Bool", "Given type: Int, expected type: Bool")
    );
}

#[test]
fn sleep_and_await() {
    assert_eq!(Sleep { value: Type::Int }.typecheck(), Ok(()));
    assert_eq!(Sleep { value: Type::Num }.typecheck(), Ok(()));
    assert_eq!(
        Sleep { value: Type::Text }.typecheck(),
        mismatch(
            "Builtin function `sleep` can only be used with values of type Int or Num",
            "Given type: Text, expected type: Int or Num"
        )
    );
    assert_eq!(Await { pids: Type::Int }.typecheck(), Ok(()));
    assert_eq!(Await { pids: arr(Type::Int) }.typecheck(), Ok(()));
    assert_eq!(
        Await { pids: arr(Type::Num) }.typecheck(),
        mismatch(
            "Builtin function `await` can only be used with values of type Int or [Int]",
            "Given type: [Num], expected type: Int or [Int]"
        )
    );
}

#[test]
fn len_and_lines() {
    assert_eq!(Len { value: Type::Text }.typecheck(), Ok(()));
    assert_eq!(Len { value: arr(Type::Bool) }.typecheck(), Ok(()));
    assert_eq!(
        Len { value: Type::Int }.typecheck(),
        Err(TypeError { message: "Length can only be applied to text or array types".to_string(), comment: None })
    );
    assert_eq!(Len { value: Type::Text }.get_type(), Type::Int);
    assert_eq!(LinesInvocation { path: Some(Type::Text) }.typecheck(), Ok(()));
    assert_eq!(
        LinesInvocation { path: Some(arr(Type::Text)) }.typecheck(),
        Err(TypeError { message: "Expected value of type 'Text' but got '[Text]'".to_string(), comment: None })
    );
    assert_eq!(LinesInvocation { path: None }.get_type(), arr(Type::Text));
}

#[test]
fn builtin_value_types() {
    assert_eq!(Pid {}.get_type(), Type::Int);
    assert_eq!(Pwd {}.get_type(), Type::Text);
    assert_eq!(Shellname {}.get_type(), Type::Text);
    assert_eq!(Shellversion {}.get_type(), arr(Type::Int));
    assert_eq!(Nameof { name: "x".to_string() }.get_type(), Type::Text);
}

#[test]
fn builtins_add_no_documentation() {
    assert_eq!(DocumentationModule::<u8>::document(&Cd { value: Type::Text }, &0), "");
    assert_eq!(DocumentationModule::<u8>::document(&Pid {}, &0), "");
}

#[test]
fn failing_builtins_need_a_handler() {
    let e = amber::builtins::unhandled_failure("cd", "command");
    assert_eq!(
        e.message,
        "The `cd` command can fail and requires explicit failure handling. Use '?', 'failed', 'succeeded', or 'exited' to manage its result."
    );
    assert_eq!(
        e.comment,
        Some("You can use '?' to propagate failure, 'failed' block to handle failure, 'succeeded' block to handle success, 'exited' block to handle both, or 'trust' modifier to ignore results".to_string())
    );
    let e = amber::builtins::unhandled_failure("sleep", "builtin");
    assert!(e.message.starts_with("The `sleep` builtin can fail"));
}

#[test]
fn param_values_come_from_the_environment() {
    assert_eq!(Param::resolve_value("HOME", EnvLookup::Present("/root".to_string()), Some("x".to_string())), Ok("/root".to_string()));
    assert_eq!(Param::resolve_value("MISSING", EnvLookup::NotPresent, Some("dflt".to_string())), Ok("dflt".to_string()));
    assert_eq!(
        Param::resolve_value("MISSING", EnvLookup::NotPresent, None),
        Err("MISSING: no such environment variable".to_string())
    );
    assert_eq!(
        Param::resolve_value("BAD", EnvLookup::NotUnicode, Some("d".to_string())),
        Err("BAD: unreadable environment variable".to_string())
    );
    assert_eq!(Param { value: String::new() }.get_type(), Type::Text);
}

#[test]
fn negative_sleep_is_reported_with_its_place() {
    assert_eq!(Sleep::negative_value_report(Some("main.ab:3:1")), "echo \"Sleep value needs to be >= 0 (at main.ab:3:1)\" >&2");
    assert_eq!(Sleep::negative_value_report(None), "echo \"Sleep value needs to be >= 0 (at unknown)\" >&2");
}

#[test]
fn ls_shell_snippets() {
    assert_eq!(Ls::default_path(), ".");
    assert_eq!(Ls::escape_line("__ls_path_3"), "__ls_path_3=\"${__ls_path_3//\\\\/\\\\\\\\}\"");
    assert_eq!(
        Ls::switch_snippets(3, LsSwitch::All, "1"),
        ("(( 1 )) && __ls_all_3=\"-A\" || __ls_all_3=\"\"".to_string(), " ${__ls_all_3}".to_string())
    );
    assert_eq!(
        Ls::switch_snippets(12, LsSwitch::Recursive, "$x"),
        ("(( $x )) && __ls_rec_12=\"-R\" || __ls_rec_12=\"\"".to_string(), " ${__ls_rec_12}".to_string())
    );
    assert_eq!(Ls::read_head("__ls_4"), "IFS=$'\\n' read -rd '' -a __ls_4 < <(IFS=$'\\n';");
}

#[test]
fn lock_lines_and_disown_snippets() {
    assert_eq!(Lock::default_path(), "${TMPDIR:-/tmp}/${0##*/}.lock");
    let (before, after) = LinesInvocation::reader_lines("__AMBER_LINE_1", "__AMBER_FIFO_2", "__AMBER_PID_3", "__array_0", "    ");
    assert_eq!(
        before,
        vec!["__AMBER_FIFO_2=$(mktemp -u) || exit 1".to_string(), "mkfifo \"$__AMBER_FIFO_2\" || exit 1".to_string()]
    );
    assert_eq!(
        after,
        vec![
            "__AMBER_PID_3=$!".to_string(),
            "while IFS= read -r __AMBER_LINE_1 || [ -n \"$__AMBER_LINE_1\" ]; do".to_string(),
            "    __array_0+=(\"$__AMBER_LINE_1\")".to_string(),
            "done <\"$__AMBER_FIFO_2\"".to_string(),
            "wait $__AMBER_PID_3".to_string(),
            "rm -f \"$__AMBER_FIFO_2\"".to_string(),
        ]
    );
    assert_eq!(Disown { pids: None }.translate_lines("p", "q"), vec!["disown 2>/dev/null || true".to_string()]);
    assert_eq!(
        Disown { pids: Some(arr(Type::Int)) }.translate_lines("__disown_pids_4", "__AMBER_PID_5"),
        vec![
            "for __AMBER_PID_5 in \"${__disown_pids_4[@]}\"; do".to_string(),
            "disown $__AMBER_PID_5 2>/dev/null || true".to_string(),
            "done".to_string(),
        ]
    );
    assert_eq!(
        Disown { pids: Some(Type::Int) }.translate_lines("__disown_pids_4", "__AMBER_PID_5")[0],
        "for __AMBER_PID_5 in \"${__disown_pids_4}\"; do"
    );
}

#[test]
fn nameof_needs_a_strictly_typed_function() {
    let n = Nameof { name: "greet".to_string() };
    assert_eq!(n.validate_strict_typing(&vec![true, true]), Ok(()));
    assert_eq!(n.validate_strict_typing(&vec![]), Ok(()));
    assert_eq!(
        n.validate_strict_typing(&vec![true, false]),
        Err(TypeError {
            message: "Function 'greet' must be strictly typed to be used with 'nameof'.".to_string(),
            comment: Some("All function parameters have to be of concrete type".to_string()),
        })
    );
}

#[test]
fn param_name_is_plain_text() {
    let parts = vec![TextPart::Plain("HO".to_string()), TextPart::Plain("ME".to_string())];
    assert_eq!(Param::parse_name(&parts), Ok("HOME".to_string()));
    let parts = vec![TextPart::Plain("A".to_string()), TextPart::Interpolation];
    assert_eq!(Param::parse_name(&parts), Err("Only plain strings are allowed in param()".to_string()));
}
