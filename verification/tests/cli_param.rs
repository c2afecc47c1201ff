use amber::cli_param::{
    GetoptCli, InvocationError, ParamCli, ParamDefault, ParamImpl, ParamKind, ParserCli, ParserImpl,
};
use amber::docs::DocumentationModule;
use amber::types::Type;

fn default_of(kind: Type, int_value: Option<isize>) -> ParamDefault {
    ParamDefault { kind, int_value }
}

#[test]
fn option_strings_name_parameter_kinds() {
    assert_eq!(ParamKind::from("file"), Some(ParamKind::Positional("file".to_string())));
    assert_eq!(
        ParamKind::from("-v|--verbose"),
        Some(ParamKind::Optional(vec!['v'], vec!["verbose".to_string()], false))
    );
    assert_eq!(
        ParamKind::from("--out|-o|--output"),
        Some(ParamKind::Optional(vec!['o'], vec!["out".to_string(), "output".to_string()], false))
    );
}

#[test]
fn malformed_option_strings_name_nothing() {
    assert_eq!(ParamKind::from("a|b"), None);
    assert_eq!(ParamKind::from("name|-n"), None);
    assert_eq!(ParamKind::from("-vv"), None);
    assert_eq!(ParamKind::from("---x"), None);
    assert_eq!(ParamKind::from(""), None);
    assert_eq!(ParamKind::from("-v|"), None);
}

#[test]
fn variable_names_of_parameters() {
    let mut p = ParamImpl::new(ParamKind::Positional("x".to_string()), default_of(Type::Text, None), "h".to_string());
    assert_eq!(p.name, "");
    p.set_var_name("file", Some(12));
    assert_eq!(p.name, "__12_file");
    p.set_var_name("file", None);
    assert_eq!(p.name, "file");
}

#[test]
fn optional_descriptions() {
    assert_eq!(ParamImpl::describe_optional(&vec!['a', 'b'], &vec!["all".to_string()]), "-a|-b|--all");
    assert_eq!(ParamImpl::describe_optional(&vec![], &vec!["help".to_string()]), "--help");
    assert_eq!(ParamImpl::describe_optional(&vec![], &vec![]), "");
}

#[test]
fn help_entries_name_the_default_type() {
    let p = ParamImpl::new(ParamKind::Positional("file".to_string()), default_of(Type::Text, None), "Input".to_string());
    assert_eq!(p.describe_help(), ("FILE: Text".to_string(), "Input".to_string()));
    let h = ParamImpl::help();
    assert_eq!(h.describe_help(), ("--help".to_string(), "Show help text".to_string()));
    assert_eq!(ParamImpl::with_default_type("-n".to_string(), &Type::Array(Box::new(Type::Int))), "-n: [Int]");
    assert_eq!(ParamImpl::with_default_type("-n".to_string(), &Type::Null), "-n");
}

#[test]
fn boolean_defaults_are_inverted_by_their_flag() {
    let off = ParamImpl::new(ParamKind::Optional(vec!['q'], vec![], false), default_of(Type::Bool, Some(0)), String::new());
    assert_eq!(off.invert_default_bool(), 1);
    let on = ParamImpl::new(ParamKind::Optional(vec!['q'], vec![], false), default_of(Type::Bool, Some(1)), String::new());
    assert_eq!(on.invert_default_bool(), 0);
    let unknown = ParamImpl::new(ParamKind::Optional(vec!['q'], vec![], false), default_of(Type::Bool, None), String::new());
    assert_eq!(unknown.invert_default_bool(), 1);
}

#[test]
fn run_name_reads_the_first_argument() {
    assert_eq!(ParserImpl::create_run_name(Some("args")), "$(basename ${args[0]})");
    assert_eq!(ParserImpl::create_run_name(None), "$(basename ${[0]})");
}

#[test]
fn parser_translates_to_a_getopt_script() {
    let mut parser = ParserImpl::new("Demo".to_string());
    let mut verbose = ParamImpl::new(
        ParamKind::Optional(vec!['v'], vec!["verbose".to_string()], false),
        default_of(Type::Bool, Some(0)),
        "Be loud".to_string(),
    );
    verbose.set_var_name("verbose", None);
    parser.add_param(verbose);
    parser.add_param(ParamImpl::help());
    let mut file = ParamImpl::new(ParamKind::Positional("file".to_string()), default_of(Type::Text, None), "Input".to_string());
    file.set_var_name("file", None);
    parser.add_param(file);
    let script = parser.translate("${args[@]}", Some("args"), "    ");
    let expected = [
        "getopt=$(getopt --options=v --longoptions=verbose,help -- ${args[@]}) || exit",
        "eval set -- $getopt",
        "while true; do",
        "    case \"$1\" in",
        "    -v|--verbose)",
        "        verbose=1",
        "        shift",
        "        ;;",
        "    --help)",
        "        cat <<EOF",
        "Demo",
        "Syntax: $(basename ${args[0]}) [options]",
        "  -v|--verbose: Bool ... Be loud",
        "  --help ............... Show help text",
        "  FILE: Text ........... Input",
        "EOF",
        "        exit 1",
        "        ;;",
        "    --)",
        "        shift",
        "        break",
        "        ;;",
        "    *)",
        "        exit 1",
        "        ;;",
        "    esac",
        "done",
        "shift",
        "[ -n \"$1\" ] && file=\"$1\"",
        "shift",
    ]
    .join("\n");
    assert_eq!(script, expected);
}

#[test]
fn valued_and_array_options_read_their_argument() {
    let mut parser = ParserImpl::new("A".to_string());
    let mut out = ParamImpl::new(ParamKind::Optional(vec!['o'], vec![], false), default_of(Type::Text, None), "o".to_string());
    out.set_var_name("out", None);
    parser.add_param(out);
    let mut inc = ParamImpl::new(
        ParamKind::Optional(vec![], vec!["inc".to_string()], false),
        default_of(Type::Array(Box::new(Type::Text)), None),
        "i".to_string(),
    );
    inc.set_var_name("inc", None);
    parser.add_param(inc);
    let mut rest = ParamImpl::new(
        ParamKind::Positional("rest".to_string()),
        default_of(Type::Array(Box::new(Type::Text)), None),
        "r".to_string(),
    );
    rest.set_var_name("rest", None);
    parser.add_param(rest);
    let script = parser.translate("\"$@\"", None, "  ");
    let expected = [
        "getopt=$(getopt --options=o: --longoptions=inc: -- \"$@\") || exit",
        "eval set -- $getopt",
        "while true; do",
        "  case \"$1\" in",
        "  -o)",
        "    out=\"$2\"",
        "    shift",
        "    shift",
        "    ;;",
        "  --inc)",
        "    inc+=(\"$2\")",
        "    shift",
        "    shift",
        "    ;;",
        "  --)",
        "    shift",
        "    break",
        "    ;;",
        "  *)",
        "    exit 1",
        "    ;;",
        "  esac",
        "done",
        "shift",
        "[ -n \"$1\" ] && rest=(\"$@\")",
        "set --",
    ]
    .join("\n");
    assert_eq!(script, expected);
}

#[test]
fn param_invocations_check_their_arguments() {
    assert_eq!(
        ParamCli::parse_parts(false, Some("-v"), default_of(Type::Bool, Some(0)), Some("h")).err(),
        Some(InvocationError::ParserNotFound)
    );
    assert_eq!(
        ParamCli::parse_parts(true, None, default_of(Type::Bool, Some(0)), Some("h")).err(),
        Some(InvocationError::OptionNotLiteral)
    );
    assert_eq!(
        ParamCli::parse_parts(true, Some("a|b"), default_of(Type::Bool, Some(0)), Some("h")).err(),
        Some(InvocationError::OptionNotValid)
    );
    assert_eq!(
        ParamCli::parse_parts(true, Some("-v"), default_of(Type::Bool, Some(0)), None).err(),
        Some(InvocationError::TextNotLiteral)
    );
    let p = ParamCli::parse_parts(true, Some("-v|--verbose"), default_of(Type::Bool, Some(0)), Some("Be loud")).ok().unwrap();
    assert_eq!(p.kind, ParamKind::Optional(vec!['v'], vec!["verbose".to_string()], false));
    assert_eq!(p.help, "Be loud");
    assert_eq!(p.name, "");
    assert_eq!(InvocationError::ParserNotFound.message(), "Expected parser object");
    assert_eq!(InvocationError::OptionNotValid.message(), "Expected option string");
    assert_eq!(InvocationError::TextNotLiteral.message(), "Expected literal string");
}

#[test]
fn declared_parameters_join_their_parser() {
    let mut parser = ParserCli::parse_parts(Some("About")).ok().unwrap();
    assert_eq!(ParserCli::parse_parts(None).err(), Some(InvocationError::TextNotLiteral));
    let mut cli = ParamCli { default: None };
    assert_eq!(cli.get_type(), Type::Null);
    let p = ParamCli::parse_parts(true, Some("n"), default_of(Type::Int, Some(3)), Some("count")).ok().unwrap();
    cli.declare(&mut parser, p);
    assert_eq!(cli.get_type(), Type::Int);
    GetoptCli::attach(&mut parser);
    let script = parser.translate("x", Some("x"), "\t");
    assert!(script.starts_with("getopt=$(getopt --options= --longoptions=help -- x) || exit"));
    assert_eq!(ParserCli {}.get_type(), Type::Null);
    assert_eq!(GetoptCli {}.get_type(), Type::Null);
    assert_eq!(DocumentationModule::<()>::document(&cli, &()), "");
}
