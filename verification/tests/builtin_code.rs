use amber::builtin_code::{CommandDecor, ShellVar, SleepCheck};
use amber::builtins::{Cp, Lock, Ls, Rm, Sleep};
use amber::types::Type;

fn lines(v: &[&str]) -> Vec<String> {
    v.iter().map(|s| s.to_string()).collect()
}

fn var(name: &str) -> ShellVar {
    ShellVar { name: name.to_string(), read: format!("${{{name}}}") }
}

fn plain() -> CommandDecor {
    CommandDecor { sudo_prefix: String::new(), suppress: String::new(), silent: String::new() }
}

#[test]
fn rm_with_and_without_switches() {
    let rm = Rm { value: Type::Text, recursive: Some(Type::Bool), force: None };
    let (queued, cmd) = rm.translate("\"dir\"", Some("1"), None, &var("__rm_0"), &var("__rm_1"), &plain());
    assert_eq!(queued, lines(&["(( 1 )) && __rm_0=\"-r\" || __rm_0=\"\""]));
    assert_eq!(cmd, "rm ${__rm_1} ${__rm_0} \"dir\"");
    let decor = CommandDecor {
        sudo_prefix: "${__sudo} ".to_string(),
        suppress: " 2>/dev/null".to_string(),
        silent: " >/dev/null".to_string(),
    };
    let (queued, cmd) = rm.translate("\"f\"", None, Some("0"), &var("__rm_2"), &var("__rm_3"), &decor);
    assert_eq!(queued, lines(&["(( 0 )) && __rm_3=\"-f\" || __rm_3=\"\""]));
    assert_eq!(cmd, "${__sudo} rm ${__rm_3} ${__rm_2} \"f\" 2>/dev/null >/dev/null");
}

#[test]
fn cp_command_then_handler() {
    let cp = Cp { source: Type::Text, destination: Type::Text, force: Some(Type::Bool) };
    let (queued, code) = cp.translate("\"a\"", "\"b\"", Some("1"), &var("__cp_5"), &plain(), &lines(&["__status=$?"]));
    assert_eq!(queued, lines(&["(( 1 )) && __cp_5=\"-f\" || __cp_5=\"\""]));
    assert_eq!(code, lines(&["cp -r ${__cp_5} \"a\" \"b\"", "__status=$?"]));
}

#[test]
fn sleep_tests_the_value_first() {
    assert_eq!(Sleep { value: Type::Int }.check_kind(), SleepCheck::Integer);
    assert_eq!(Sleep { value: Type::Num }.check_kind(), SleepCheck::Float);
    let s = Sleep { value: Type::Int };
    let decor = CommandDecor { sudo_prefix: String::new(), suppress: String::new(), silent: ">/dev/null".to_string() };
    let r = s.translate("$(( __sleep_val_0 >= 0 ))", "$__sleep_val_0", Some("main.ab:3:1"), &decor, "    ", &vec![]);
    assert_eq!(
        r,
        lines(&[
            "if [ $(( __sleep_val_0 >= 0 )) != 0 ]; then",
            "    sleep $__sleep_val_0 >/dev/null",
            "else",
            "    echo \"Sleep value needs to be >= 0 (at main.ab:3:1)\" >&2>/dev/null",
            "    false",
            "fi",
        ])
    );
    let r = s.translate("1", "$v", None, &plain(), "  ", &lines(&["__status=$?"]));
    assert_eq!(r[1], "  sleep $v");
    assert_eq!(r[3], "  echo \"Sleep value needs to be >= 0 (at unknown)\" >&2");
    assert_eq!(r.len(), 7);
}

#[test]
fn ls_reads_the_listing_into_an_array() {
    let ls = Ls { value: None, all: Some(Type::Bool), recursive: None };
    let (queued, array) = ls.translate(
        4,
        Some("1"),
        None,
        &var("__ls_path_4"),
        &var("__ls_4"),
        &plain(),
        &lines(&["__status=$?"]),
    );
    assert_eq!(
        queued,
        lines(&[
            "__ls_path_4=\"${__ls_path_4//\\\\/\\\\\\\\}\"",
            "(( 1 )) && __ls_all_4=\"-A\" || __ls_all_4=\"\"",
            "IFS=$'\\n' read -rd '' -a __ls_4 < <(IFS=$'\\n';ls -1 ${__ls_all_4} ${__ls_path_4}",
            "__status=$?",
            ")",
        ])
    );
    assert_eq!(array, "${__ls_4}");
}

#[test]
fn lock_takes_the_file_or_fails() {
    let lock = Lock { path: None };
    let r = lock.translate("$__lock_file_0", "  ", &vec![]);
    assert_eq!(r.len(), 7);
    assert_eq!(r[0], "if ( set -o noclobber; echo $$ > \"$__lock_file_0\" ) 2>/dev/null; then");
    assert_eq!(r[1], "  touch \"$__lock_file_0\"");
    assert_eq!(
        r[2],
        "  if [ -z \"${__amber_cleanup_files+x}\" ]; then __amber_cleanup_files=( \"$__lock_file_0\" ); else __amber_cleanup_files+=( \"$__lock_file_0\" ); fi\n"
    );
    assert!(r[3].starts_with("  if [ -z \"${__amber_cleanup_trap_installed+x}\" ]"));
    assert_eq!(&r[4..], &lines(&["else", "  false", "fi"])[..]);
}
