use kdotool::commands::{
    capabilities, Axis, ErrorKind, GlobalAction, StateOp, Step, WindowAction, WindowProperty,
};
use kdotool::parser::{
    next_maybe_num, parse_window_ref, positional, to_window_id, try_get_number, Parser, Token,
    WindowRef,
};
use kdotool::script::{generate_script, parse_pipeline, CompileError, Globals, NamedStep};
use kdotool::text::{parse_i32, parse_u32, push_escaped, push_int};

const AUTO_OUTPUT: &str = "output_result(window_stack[i].internalId);";

fn args(words: &[&str]) -> Vec<String> {
    words.iter().map(|w| w.to_string()).collect()
}

fn globals(kde5: bool) -> Globals {
    Globals {
        marker: "kdotool-test".to_string(),
        cmdline: "kdotool search x".to_string(),
        debug: false,
        kde5,
        script_name: String::new(),
        shortcut: String::new(),
    }
}

fn compile(words: &[&str]) -> Result<String, CompileError> {
    generate_script(&globals(false), args(words))
}

fn steps(words: &[&str]) -> Vec<NamedStep> {
    parse_pipeline(capabilities(false), args(words)).unwrap()
}

fn fails(words: &[&str]) -> CompileError {
    match compile(words) {
        Ok(program) => panic!("compiled unexpectedly: {program}"),
        Err(e) => e,
    }
}

#[test]
fn relative_move_differs_only_by_addend() {
    let plain = compile(&["windowmove", "50", "50"]).unwrap();
    let relative = compile(&["windowmove", "--relative", "10", "10"]).unwrap();
    assert!(plain.contains("q.x = 50; q.y = 50; "));
    assert!(relative.contains("q.x = w.x + 10; q.y = w.y + 10; "));
    let same = compile(&["windowmove", "--relative", "50", "50"]).unwrap();
    assert_eq!(same.replace("w.x + ", "").replace("w.y + ", ""), plain);
}

#[test]
fn windowsize_percent_and_unchanged() {
    let program = compile(&["windowsize", "50%", "y"]).unwrap();
    assert!(program.contains("q.width = workspace.virtualScreenSize.width * 50 / 100; w.frameGeometry = q;"));
    assert!(!program.contains("q.height"));
    let s = steps(&["windowsize", "%2", "-10", "y"]);
    match &s[0].step {
        Step::OnWindow { target: WindowRef::StackIndex(2), action, .. } => {
            assert_eq!(*action, WindowAction::Size { width: Axis::Absolute(-10), height: Axis::Unchanged });
        }
        other => panic!("unexpected step {other:?}"),
    }
    let e = fails(&["windowsize", "-10", "x"]);
    assert_eq!((e.kind, e.subject.as_str()), (ErrorKind::InvalidValue, "x"));
}

#[test]
fn geometry_values_round_trip() {
    let s = steps(&["windowmove", "-5", "+7%"]);
    match &s[0].step {
        Step::OnWindow { action: WindowAction::Move { relative: false, x, y }, .. } => {
            assert_eq!(*x, Axis::Absolute(-5));
            assert_eq!(*y, Axis::Percent(7));
        }
        other => panic!("unexpected step {other:?}"),
    }
    let program = compile(&["windowmove", "-5", "+7%"]).unwrap();
    assert!(program.contains("q.x = -5; q.y = workspace.virtualScreenSize.height * 7 / 100; "));
    let s = steps(&["windowmove", "x", "y"]);
    match &s[0].step {
        Step::OnWindow { action: WindowAction::Move { x, y, .. }, .. } => {
            assert_eq!(*x, Axis::Unchanged);
            assert_eq!(*y, Axis::Unchanged);
        }
        other => panic!("unexpected step {other:?}"),
    }
}

#[test]
fn search_defaults_to_all_five_filters_with_or() {
    let s = steps(&["search", "foo"]);
    match &s[0].step {
        Step::Search { query, pattern } => {
            assert!(query.match_class && query.match_classname && query.match_role);
            assert!(query.match_name && query.match_id);
            assert!(!query.match_all);
            assert_eq!(pattern, "foo");
        }
        other => panic!("unexpected step {other:?}"),
    }
    let program = compile(&["search", "foo"]).unwrap();
    assert!(program.contains(
        "if (!(false || w.resourceClass.search(re) >= 0 || w.resourceName.search(re) >= 0 || w.windowRole.search(re) >= 0 || w.caption.search(re) >= 0 || String(w.internalId).search(re) >= 0)) continue;"
    ));
}

#[test]
fn search_with_class_and_role_only() {
    let s = steps(&["search", "--class", "--role", "foo"]);
    match &s[0].step {
        Step::Search { query, pattern } => {
            assert!(query.match_class && query.match_role);
            assert!(!query.match_classname && !query.match_name && !query.match_id);
            assert_eq!(pattern, "foo");
        }
        other => panic!("unexpected step {other:?}"),
    }
    let program = compile(&["search", "--class", "--role", "foo"]).unwrap();
    assert!(program.contains(
        "if (!(false || w.resourceClass.search(re) >= 0 || w.windowRole.search(re) >= 0)) continue;"
    ));
}

#[test]
fn search_filters_are_anded() {
    let program =
        compile(&["search", "--all", "-C", "--pid", "42", "-D", "2", "--limit=3", "term"]).unwrap();
    assert!(program.contains("var re = new RegExp(\"term\", \"\");"));
    assert!(program.contains("if (!(true && w.resourceClass.search(re) >= 0"));
    assert!(program.contains("if (w.pid != 42) continue;"));
    assert!(program.contains("return d.x11DesktopNumber == 2; })) continue;"));
    assert!(program.contains("if (window_stack.length >= 3) break;"));
    let unbounded = compile(&["search", "--limit", "0", "term"]).unwrap();
    assert!(!unbounded.contains("window_stack.length >= "));
}

#[test]
fn search_screen_on_each_variant() {
    let old = generate_script(&globals(true), args(&["search", "-s", "1", "t"])).unwrap();
    assert!(old.contains("if (w.screen != 1) continue;"));
    assert!(old.contains("workspace.clientList()"));
    let new = compile(&["search", "-s", "1", "t"]).unwrap();
    assert!(new.contains("output_error(\"search --screen unsupported in KDE 6\");"));
}

#[test]
fn current_desktop_compiles_to_sentinel() {
    let s = steps(&["set_desktop_for_window", "current_desktop"]);
    match &s[0].step {
        Step::OnWindow { action, .. } => assert_eq!(*action, WindowAction::SetDesktop(-1)),
        other => panic!("unexpected step {other:?}"),
    }
    let s = steps(&["set_desktop_for_window", "%1", "CURRENT_DESKTOP"]);
    match &s[0].step {
        Step::OnWindow { action, .. } => assert_eq!(*action, WindowAction::SetDesktop(-1)),
        other => panic!("unexpected step {other:?}"),
    }
    let program = generate_script(&globals(true), args(&["set_desktop_for_window", "current_desktop"])).unwrap();
    assert!(program.contains("w.desktop = -1;"));
    let e = fails(&["set_desktop_for_window", "-3"]);
    assert_eq!(e.kind, ErrorKind::InvalidValue);
    assert_eq!(e.subject, "-3");
}

#[test]
fn negative_stack_index_counts_from_end() {
    match parse_window_ref("%-1") {
        Some(WindowRef::StackIndex(n)) => assert_eq!(n, -1),
        other => panic!("unexpected reference {other:?}"),
    }
    let program = compile(&["getactivewindow", "windowclose", "%-1"]).unwrap();
    assert!(program.contains("var k = window_stack.length - 1;"));
    assert!(!program.contains("window_stack[-1"));
    let first = compile(&["getactivewindow", "windowclose"]).unwrap();
    assert!(first.contains("var k = 0;"));
}

#[test]
fn auto_output_follows_only_queries() {
    let closing = compile(&["search", "foo", "windowclose"]).unwrap();
    assert!(!closing.contains(AUTO_OUTPUT));
    let searching = compile(&["search", "foo"]).unwrap();
    assert!(searching.contains(AUTO_OUTPUT));
    let active = compile(&["getactivewindow"]).unwrap();
    assert!(active.contains(AUTO_OUTPUT));
    let loading = compile(&["search", "a", "savewindowstack", "s", "windowclose", "loadwindowstack", "s"]).unwrap();
    assert!(loading.contains(AUTO_OUTPUT));
    assert!(loading.contains("saved_stacks[\"s\"] = window_stack;"));
}

#[test]
fn search_then_activate_end_to_end() {
    let program = compile(&["search", "--class", "Firefox", "windowactivate"]).unwrap();
    assert!(program.contains("var re = new RegExp(\"Firefox\", \"i\");"));
    assert!(program.contains("if (!(false || w.resourceClass.search(re) >= 0)) continue;"));
    assert!(program.contains("var k = 0;"));
    assert!(program.contains("var w = window_stack[k];\n            activate_window(w);"));
    assert!(!program.contains(AUTO_OUTPUT));
    assert!(program.starts_with("\nprint(\"kdotool-test START\");"));
    assert!(program.contains("run();\n"));
    assert!(program.ends_with("print(\"kdotool-test FINISH\");\n"));
}

#[test]
fn unknown_command_yields_no_program() {
    let e = fails(&["foobar"]);
    assert_eq!(e.kind, ErrorKind::UnknownCommand);
    assert_eq!(e.subject, "foobar");
    assert_eq!(e.command, "foobar");
    let later = fails(&["getactivewindow", "foobar"]);
    assert_eq!(later.kind, ErrorKind::UnknownCommand);
    assert_eq!(later.subject, "foobar");
}

#[test]
fn each_error_kind() {
    let e = fails(&["windowmove", "10"]);
    assert_eq!((e.kind, e.subject.as_str()), (ErrorKind::MissingArgument, "y"));
    let e = fails(&["windowmove"]);
    assert_eq!((e.kind, e.subject.as_str()), (ErrorKind::MissingArgument, "x"));
    let e = fails(&["windowsize", "abc", "10"]);
    assert_eq!((e.kind, e.subject.as_str()), (ErrorKind::InvalidValue, "abc"));
    let e = fails(&["windowstate", "--add", "sticky"]);
    assert_eq!((e.kind, e.subject.as_str()), (ErrorKind::UnsupportedProperty, "sticky"));
    let e = generate_script(&globals(true), args(&["getmouselocation"])).unwrap_err();
    assert_eq!(e.kind, ErrorKind::UnsupportedOnVariant);
    let e = fails(&["windowclose", "--force"]);
    assert_eq!((e.kind, e.subject.as_str()), (ErrorKind::UnexpectedOption, "--force"));
    let e = fails(&["search", "--pid"]);
    assert_eq!((e.kind, e.subject.as_str()), (ErrorKind::MissingOptionValue, "--pid"));
    let e = fails(&["search", "--class=x"]);
    assert_eq!((e.kind, e.subject.as_str()), (ErrorKind::UnexpectedOptionValue, "--class"));
    let e = fails(&["savewindowstack"]);
    assert_eq!((e.kind, e.subject.as_str()), (ErrorKind::MissingArgument, "name"));
    let e = fails(&["set_desktop"]);
    assert_eq!((e.kind, e.subject.as_str()), (ErrorKind::MissingArgument, "desktop_id"));
    let e = fails(&["set_num_desktops", "x"]);
    assert_eq!((e.kind, e.subject.as_str()), (ErrorKind::InvalidValue, "x"));
    assert_eq!(e.message(), "in command 'set_num_desktops': invalid value 'x'");
}

#[test]
fn windowstate_changes_in_order() {
    let program = compile(&["windowstate", "--add", "ABOVE", "--remove=Below", "--toggle", "fullscreen", "%@"]).unwrap();
    assert!(program.contains("w.keepAbove = true; w.keepBelow = false; w.fullScreen = !w.fullScreen; "));
    assert!(program.contains("for (var i = 0; i < window_stack.length; i++) {"));
    let s = steps(&["windowstate", "--toggle", "Shaded"]);
    match &s[0].step {
        Step::OnWindow { changes, .. } => {
            assert_eq!(changes.len(), 1);
            assert_eq!(changes[0].op, StateOp::Toggle);
            assert_eq!(changes[0].property, WindowProperty::Shaded);
        }
        other => panic!("unexpected step {other:?}"),
    }
}

#[test]
fn explicit_window_id_and_globals() {
    let program = compile(&["getwindowname", "{abc-123}", "get_desktop", "set_desktop", "2"]).unwrap();
    assert!(program.contains("if (w.internalId == \"{abc-123}\") {\n            output_result(w.caption);"));
    assert!(program.contains("output_result(workspace.currentDesktop.x11DesktopNumber);"));
    assert!(program.contains("if (desktops[j].x11DesktopNumber == 2) { workspace.currentDesktop = desktops[j]; break; } }"));
    let s = steps(&["set_num_desktops", "-4", "getmouselocation", "--shell"]);
    assert_eq!(s.len(), 2);
    match (&s[0].step, &s[1].step) {
        (Step::Global(GlobalAction::SetNumDesktops(n)), Step::Global(GlobalAction::GetMouseLocation { shell })) => {
            assert_eq!(*n, -4);
            assert!(*shell);
        }
        other => panic!("unexpected steps {other:?}"),
    }
}

#[test]
fn variants_differ_in_capabilities() {
    let old = generate_script(&globals(true), args(&["windowraise", "set_num_desktops", "3"])).unwrap();
    assert!(old.contains("output_error(\"windowraise unsupported in KDE 5\");"));
    assert!(old.contains("workspace.desktops = 3;"));
    let new = compile(&["windowraise", "set_num_desktops", "3"]).unwrap();
    assert!(new.contains("workspace.raiseWindow(w);"));
    assert!(new.contains("output_error(\"set_num_desktops unsupported in KDE 6\");"));
}

#[test]
fn shortcut_epilogue_and_escaping() {
    let mut g = globals(false);
    g.shortcut = "Meta+F".to_string();
    g.debug = true;
    g.cmdline = "kdotool search \"a b\"".to_string();
    let program = generate_script(&g, args(&["search", "a\\.b\""])).unwrap();
    assert!(program.contains("registerShortcut(\"kdotool-test\", \"kdotool search \\\"a b\\\"\", \"Meta+F\", run);"));
    assert!(!program.contains("\nrun();"));
    assert!(program.contains("print(\"kdotool-test DEBUG\", message);"));
    assert!(program.contains("new RegExp(\"a\\\\.b\\\"\", \"i\")"));
    g.script_name = "mine".to_string();
    let named = generate_script(&g, args(&["getactivewindow"])).unwrap();
    assert!(named.contains("registerShortcut(\"mine\","));
}

#[test]
fn empty_pipeline_is_only_the_frame() {
    let program = compile(&[]).unwrap();
    assert!(program.contains("function run() {"));
    assert!(!program.contains("STEP"));
}

#[test]
fn numbers_read_like_std() {
    assert_eq!(parse_i32("42"), Some(42));
    assert_eq!(parse_i32("+7"), Some(7));
    assert_eq!(parse_i32("-2147483648"), Some(i32::MIN));
    assert_eq!(parse_i32("2147483648"), None);
    assert_eq!(parse_i32("99999999999999999999"), None);
    assert_eq!(parse_i32(""), None);
    assert_eq!(parse_i32("-"), None);
    assert_eq!(parse_i32("1x"), None);
    assert_eq!(parse_u32("4294967295"), Some(u32::MAX));
    assert_eq!(parse_u32("-0"), None);
    assert_eq!(parse_u32("+0"), Some(0));
    let mut out = String::new();
    push_int(&mut out, -1234);
    push_int(&mut out, 0);
    push_int(&mut out, i64::MIN);
    assert_eq!(out, format!("-12340{}", i64::MIN));
    let mut e = String::new();
    push_escaped(&mut e, "a\"b\\c\nd");
    assert_eq!(e, "a\\\"b\\\\c\\nd");
}

#[test]
fn token_reader_and_window_ids() {
    let mut p = Parser::new(args(&["-5", "--pid=9", "-p31", "x"]));
    assert_eq!(try_get_number(&mut p), Some("-5".to_string()));
    assert_eq!(try_get_number(&mut p), None);
    match next_maybe_num(&mut p) {
        Some(Token::Opt { name, inline }) => {
            assert_eq!(name, "--pid");
            assert_eq!(inline, Some("9".to_string()));
        }
        other => panic!("unexpected token {other:?}"),
    }
    match next_maybe_num(&mut p) {
        Some(Token::Opt { name, inline }) => {
            assert_eq!(name, "-p");
            assert_eq!(inline, Some("31".to_string()));
        }
        other => panic!("unexpected token {other:?}"),
    }
    match next_maybe_num(&mut p) {
        Some(Token::Value(v)) => assert_eq!(v, "x"),
        other => panic!("unexpected token {other:?}"),
    }
    assert!(next_maybe_num(&mut p).is_none());
    assert_eq!(to_window_id("%@"), Some("%@".to_string()));
    assert_eq!(to_window_id("%3"), Some("%3".to_string()));
    assert_eq!(to_window_id("{x}"), Some("{x}".to_string()));
    assert_eq!(to_window_id("%abc"), None);
    assert_eq!(to_window_id("windowclose"), None);
    assert!(matches!(parse_window_ref("%@"), Some(WindowRef::StackAll)));
    assert!(matches!(parse_window_ref("{x}"), Some(WindowRef::ExplicitId(_))));
}

#[test]
fn positional_reads_a_required_number() {
    let mut p = Parser::new(args(&["-12", "abc"]));
    assert_eq!(positional(&mut p, "n").unwrap(), -12);
    let e = positional(&mut p, "n").unwrap_err();
    assert_eq!((e.kind, e.subject.as_str()), (ErrorKind::InvalidValue, "abc"));
    let e = positional(&mut p, "n").unwrap_err();
    assert_eq!((e.kind, e.subject.as_str()), (ErrorKind::MissingArgument, "n"));
}
