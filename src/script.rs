//! The pipeline compiler: splits the whole argument vector into steps and
//! frames their fragments with the fixed prologue and epilogue.
use vstd::prelude::*;
use vstd::seq_lib::lemma_concat_associative;
use crate::commands::{
    capabilities, capabilities_of, is_query, Capabilities, ErrorKind, Step, StepView,
};
use crate::parser::{
    is_option_text, option_name, texts, window_ref_of, Parser,
};
use crate::step::{
    apply_flag, apply_param, collect, generate_step, option_value_at, parse_step,
    search_collect, CollectedView,
};
use crate::commands::{
    command_of, property_of, schema_of, search_flag_of, search_param_of, window_option_of,
    Schema, SearchQuery, StateChange, WindowOption,
};
use crate::templates::{push_step, step_text};
use crate::text::{escaped, lower_of, push_escaped};

verus! {

/// What the prologue and epilogue are made of.
#[derive(Debug)]
pub struct Globals {
    /// Tags every message that the script prints.
    pub marker: String,
    /// The command line, for a registered shortcut.
    pub cmdline: String,
    pub debug: bool,
    /// The older runtime variant.
    pub kde5: bool,
    /// The name a shortcut is registered under; the marker if empty.
    pub script_name: String,
    /// Register the script under this shortcut instead of running it.
    pub shortcut: String,
}

pub struct GlobalsView {
    pub marker: Seq<char>,
    pub cmdline: Seq<char>,
    pub debug: bool,
    pub kde5: bool,
    pub script_name: Seq<char>,
    pub shortcut: Seq<char>,
}

impl View for Globals {
    type V = GlobalsView;

    open spec fn view(&self) -> GlobalsView {
        GlobalsView {
            marker: self.marker@,
            cmdline: self.cmdline@,
            debug: self.debug,
            kde5: self.kde5,
            script_name: self.script_name@,
            shortcut: self.shortcut@,
        }
    }
}

/// The helpers through which steps reach the runtime's windows.
pub open spec fn shims_text(caps: Capabilities) -> Seq<char> {
    if caps.legacy_api {
        "function window_list() {\n    return workspace.clientList();\n}\n\nfunction active_window() {\n    return workspace.activeClient;\n}\n\nfunction activate_window(w) {\n    workspace.activeClient = w;\n}\n\n"@
    } else {
        "function window_list() {\n    return workspace.windowList();\n}\n\nfunction active_window() {\n    return workspace.activeWindow;\n}\n\nfunction activate_window(w) {\n    workspace.activeWindow = w;\n}\n\n"@
    }
}

/// The prologue: the output helpers, the runtime shims, and the opening of
/// the program with its empty window stack.
pub open spec fn header_text(g: GlobalsView) -> Seq<char> {
    let m = escaped(g.marker);
    "\nprint(\""@ + m + " START\");\n\nfunction output_debug(message) {\n"@ + (if g.debug {
        "    print(\""@ + m + " DEBUG\", message);\n"@
    } else {
        Seq::empty()
    }) + "}\n\nfunction output_error(message) {\n    print(\""@ + m
        + " ERROR\", message);\n}\n\nfunction output_result(message) {\n    print(\""@ + m
        + " RESULT\", message);\n}\n\n"@ + shims_text(capabilities_of(g.kde5))
        + "function run() {\n    var window_stack = [];\n    var saved_stacks = {};\n"@
}

/// The epilogue: closes the program, then runs it at once, or registers it
/// under the shortcut instead.
pub open spec fn footer_text(g: GlobalsView) -> Seq<char> {
    "}\n\n"@ + (if g.shortcut.len() > 0 {
        "registerShortcut(\""@ + escaped(
            if g.script_name.len() > 0 {
                g.script_name
            } else {
                g.marker
            },
        ) + "\", \""@ + escaped(g.cmdline) + "\", \""@ + escaped(g.shortcut) + "\", run);\n"@
    } else {
        "run();\n"@
    }) + "\nprint(\""@ + escaped(g.marker) + " FINISH\");\n"@
}

/// Prints the id of every window on the stack.
pub open spec fn auto_output() -> Seq<char> {
    "    for (var i = 0; i < window_stack.length; ++i) {\n        output_result(window_stack[i].internalId);\n    }\n"@
}

fn push_header(out: &mut String, g: &Globals)
    ensures
        final(out)@ == old(out)@ + header_text(g@),
{
    out.append("\nprint(\"");
    push_escaped(out, g.marker.as_str());
    out.append(" START\");\n\nfunction output_debug(message) {\n");
    if g.debug {
        out.append("    print(\"");
        push_escaped(out, g.marker.as_str());
        out.append(" DEBUG\", message);\n");
    }
    out.append("}\n\nfunction output_error(message) {\n    print(\"");
    push_escaped(out, g.marker.as_str());
    out.append(" ERROR\", message);\n}\n\nfunction output_result(message) {\n    print(\"");
    push_escaped(out, g.marker.as_str());
    out.append(" RESULT\", message);\n}\n\n");
    if g.kde5 {
        out.append(
            "function window_list() {\n    return workspace.clientList();\n}\n\nfunction active_window() {\n    return workspace.activeClient;\n}\n\nfunction activate_window(w) {\n    workspace.activeClient = w;\n}\n\n",
        );
    } else {
        out.append(
            "function window_list() {\n    return workspace.windowList();\n}\n\nfunction active_window() {\n    return workspace.activeWindow;\n}\n\nfunction activate_window(w) {\n    workspace.activeWindow = w;\n}\n\n",
        );
    }
    out.append("function run() {\n    var window_stack = [];\n    var saved_stacks = {};\n");
    assert(out@ =~= old(out)@ + header_text(g@));
}

fn push_footer(out: &mut String, g: &Globals)
    ensures
        final(out)@ == old(out)@ + footer_text(g@),
{
    out.append("}\n\n");
    if g.shortcut.as_str().unicode_len() > 0 {
        out.append("registerShortcut(\"");
        if g.script_name.as_str().unicode_len() > 0 {
            push_escaped(out, g.script_name.as_str());
        } else {
            push_escaped(out, g.marker.as_str());
        }
        out.append("\", \"");
        push_escaped(out, g.cmdline.as_str());
        out.append("\", \"");
        push_escaped(out, g.shortcut.as_str());
        out.append("\", run);\n");
    } else {
        out.append("run();\n");
    }
    out.append("\nprint(\"");
    push_escaped(out, g.marker.as_str());
    out.append(" FINISH\");\n");
    assert(out@ =~= old(out)@ + footer_text(g@));
}

/// A compiled step with the command name it was written with.
#[derive(Debug)]
pub struct NamedStep {
    pub name: String,
    pub step: Step,
}

pub struct NamedStepView {
    pub name: Seq<char>,
    pub step: StepView,
}

impl View for NamedStep {
    type V = NamedStepView;

    open spec fn view(&self) -> NamedStepView {
        NamedStepView { name: self.name@, step: self.step@ }
    }
}

pub open spec fn steps_view(steps: Seq<NamedStep>) -> Seq<NamedStepView> {
    steps.map_values(|s: NamedStep| s@)
}

/// Why a pipeline did not compile: the command it failed in, the kind of
/// failure, and the text it is about.
#[derive(Debug)]
pub struct CompileError {
    pub command: String,
    pub kind: ErrorKind,
    pub subject: String,
}

pub struct CompileErrorView {
    pub command: Seq<char>,
    pub kind: ErrorKind,
    pub subject: Seq<char>,
}

impl View for CompileError {
    type V = CompileErrorView;

    open spec fn view(&self) -> CompileErrorView {
        CompileErrorView { command: self.command@, kind: self.kind, subject: self.subject@ }
    }
}

/// How a kind of failure opens its message.
pub open spec fn kind_text(k: ErrorKind) -> Seq<char> {
    match k {
        ErrorKind::UnknownCommand => "unknown command '"@,
        ErrorKind::MissingArgument => "missing argument '"@,
        ErrorKind::InvalidValue => "invalid value '"@,
        ErrorKind::UnsupportedProperty => "unsupported property '"@,
        ErrorKind::UnsupportedOnVariant => "not supported on this runtime: '"@,
        ErrorKind::UnexpectedOption => "unexpected option '"@,
        ErrorKind::MissingOptionValue => "missing value for option '"@,
        ErrorKind::UnexpectedOptionValue => "unexpected value for option '"@,
    }
}

fn kind_str(k: ErrorKind) -> (r: &'static str)
    ensures
        r@ == kind_text(k),
{
    match k {
        ErrorKind::UnknownCommand => "unknown command '",
        ErrorKind::MissingArgument => "missing argument '",
        ErrorKind::InvalidValue => "invalid value '",
        ErrorKind::UnsupportedProperty => "unsupported property '",
        ErrorKind::UnsupportedOnVariant => "not supported on this runtime: '",
        ErrorKind::UnexpectedOption => "unexpected option '",
        ErrorKind::MissingOptionValue => "missing value for option '",
        ErrorKind::UnexpectedOptionValue => "unexpected value for option '",
    }
}

impl CompileError {
    /// The error as one line of text, naming the command it occurred in.
    pub fn message(&self) -> (r: String)
        ensures
            r@ == "in command '"@ + self.command@ + "': "@ + kind_text(self.kind) + self.subject@
                + "'"@,
    {
        let mut m = String::new();
        m.append("in command '");
        m.append(self.command.as_str());
        m.append("': ");
        m.append(kind_str(self.kind));
        m.append(self.subject.as_str());
        m.append("'");
        assert(m@ =~= "in command '"@ + self.command@ + "': "@ + kind_text(self.kind)
            + self.subject@ + "'"@);
        m
    }
}

/// The steps of the pipeline that starts at `pos`, each command read where
/// the one before it stopped, or the first failure with its command.
pub open spec fn pipeline_from(caps: Capabilities, args: Seq<Seq<char>>, pos: int) -> Result<
    Seq<NamedStepView>,
    CompileErrorView,
>
    decreases args.len() - pos,
{
    if pos < 0 || pos >= args.len() {
        Ok(Seq::empty())
    } else {
        match parse_step(caps, args, pos) {
            Err(f) => Err(CompileErrorView { command: args[pos], kind: f.kind, subject: f.subject }),
            Ok((s, end)) => {
                let named = NamedStepView { name: args[pos], step: s };
                if pos < end <= args.len() {
                    match pipeline_from(caps, args, end) {
                        Ok(rest) => Ok(seq![named] + rest),
                        Err(e) => Err(e),
                    }
                } else {
                    Ok(seq![named])
                }
            },
        }
    }
}

/// The steps of a whole argument vector, whose first item is a command.
pub open spec fn pipeline_of(caps: Capabilities, args: Seq<Seq<char>>) -> Result<
    Seq<NamedStepView>,
    CompileErrorView,
> {
    pipeline_from(caps, args, 0)
}

/// The fragments of the steps, in order.
pub open spec fn steps_text(caps: Capabilities, steps: Seq<NamedStepView>) -> Seq<char>
    decreases steps.len(),
{
    if steps.len() == 0 {
        Seq::empty()
    } else {
        steps_text(caps, steps.drop_last()) + step_text(caps, steps.last().name, steps.last().step)
    }
}

/// Whether the last step is query-like.
pub open spec fn ends_with_query(steps: Seq<NamedStepView>) -> bool {
    steps.len() > 0 && is_query(steps.last().step)
}

/// The whole program: prologue, one fragment per step, the auto-output
/// fragment when the last step is query-like, and the epilogue.
pub open spec fn program_text(g: GlobalsView, steps: Seq<NamedStepView>) -> Seq<char> {
    header_text(g) + steps_text(capabilities_of(g.kde5), steps) + (if ends_with_query(steps) {
        auto_output()
    } else {
        Seq::empty()
    }) + footer_text(g)
}

proof fn lemma_collect_bounds(sc: Schema, args: Seq<Seq<char>>, pos: int, c: CollectedView)
    requires
        0 <= pos <= args.len(),
    ensures
        collect(sc, args, pos, c) matches Ok((_, end)) ==> pos <= end <= args.len(),
    decreases args.len() - pos,
{
    if pos < args.len() {
        let s = args[pos];
        if is_option_text(s) {
            match window_option_of(sc, option_name(s)) {
                Some(WindowOption::Relative) => {
                    lemma_collect_bounds(sc, args, pos + 1, CollectedView { relative: true, ..c });
                },
                Some(WindowOption::Shell) => {
                    lemma_collect_bounds(sc, args, pos + 1, CollectedView { shell: true, ..c });
                },
                Some(WindowOption::Change(op)) => {
                    if let Ok((v, next)) = option_value_at(args, pos) {
                        if let Some(p) = property_of(lower_of(v)) {
                            if pos < next <= args.len() {
                                lemma_collect_bounds(
                                    sc,
                                    args,
                                    next,
                                    CollectedView {
                                        changes: c.changes.push(StateChange { op, property: p }),
                                        ..c
                                    },
                                );
                            }
                        }
                    }
                },
                None => {},
            }
        } else if sc.window && c.window is None && c.positionals.len() == 0 && window_ref_of(
            s,
        ) is Some {
            lemma_collect_bounds(sc, args, pos + 1, CollectedView { window: window_ref_of(s), ..c });
        } else if c.positionals.len() < sc.positional {
            lemma_collect_bounds(
                sc,
                args,
                pos + 1,
                CollectedView { positionals: c.positionals.push(s), ..c },
            );
        }
    }
}

proof fn lemma_search_bounds(
    args: Seq<Seq<char>>,
    pos: int,
    q: SearchQuery,
    pattern: Option<Seq<char>>,
)
    requires
        0 <= pos <= args.len(),
    ensures
        search_collect(args, pos, q, pattern) matches Ok((_, _, end)) ==> pos <= end
            <= args.len(),
    decreases args.len() - pos,
{
    if pos < args.len() {
        let s = args[pos];
        if is_option_text(s) {
            let name = option_name(s);
            match search_flag_of(name) {
                Some(f) => {
                    lemma_search_bounds(args, pos + 1, apply_flag(q, f), pattern);
                },
                None => {
                    if let Some(p) = search_param_of(name) {
                        if let Ok((v, next)) = option_value_at(args, pos) {
                            if let Ok(q2) = apply_param(q, p, v) {
                                if pos < next <= args.len() {
                                    lemma_search_bounds(args, next, q2, pattern);
                                }
                            }
                        }
                    }
                },
            }
        } else if pattern is None {
            lemma_search_bounds(args, pos + 1, q, Some(s));
        }
    }
}

/// A step reads at least its command name, and stays within the arguments.
pub proof fn lemma_step_advances(caps: Capabilities, args: Seq<Seq<char>>, pos: int)
    requires
        0 <= pos < args.len(),
    ensures
        parse_step(caps, args, pos) matches Ok((_, end)) ==> pos < end <= args.len(),
{
    match command_of(args[pos]) {
        Some(crate::commands::Command::Search) => {
            lemma_search_bounds(args, pos + 1, crate::step::blank_query(), None);
        },
        Some(cmd) => {
            lemma_collect_bounds(schema_of(cmd), args, pos + 1, crate::step::nothing_collected());
        },
        None => {},
    }
}

/// Splits the arguments into compiled steps, as [`pipeline_of`] says.
pub fn parse_pipeline(caps: Capabilities, args: Vec<String>) -> (r: Result<
    Vec<NamedStep>,
    CompileError,
>)
    ensures
        match pipeline_of(caps, texts(args@)) {
            Ok(steps) => r is Ok && steps_view(r->Ok_0@) == steps,
            Err(e) => r is Err && r->Err_0@ == e,
        },
{
    let ghost items = texts(args@);
    let mut p = Parser::new(args);
    let mut steps: Vec<NamedStep> = Vec::new();
    proof {
        match pipeline_from(caps, items, 0) {
            Ok(rest) => {
                assert(steps_view(steps@) + rest =~= rest);
            },
            Err(_) => {},
        }
    }
    while p.pos < p.args.len()
        invariant
            p.items() == items,
            items == texts(args@),
            pipeline_from(caps, items, 0) == (match pipeline_from(caps, items, p.pos as int) {
                Ok(rest) => Ok(steps_view(steps@) + rest),
                Err(e) => Err(e),
            }),
        decreases items.len() - p.pos,
    {
        let at = p.pos;
        let name = p.args[at].clone();
        assert(name@ == items[at as int]);
        match generate_step(caps, &mut p) {
            Ok(step) => {
                proof {
                    lemma_step_advances(caps, items, at as int);
                }
                let ghost before = steps_view(steps@);
                let ghost named = NamedStepView { name: name@, step: step@ };
                steps.push(NamedStep { name, step });
                proof {
                    assert(steps_view(steps@) =~= before.push(named));
                    match pipeline_from(caps, items, p.pos as int) {
                        Ok(rest) => {
                            assert(before + (seq![named] + rest) =~= steps_view(steps@) + rest);
                        },
                        Err(_) => {},
                    }
                }
            },
            Err(f) => {
                proof {
                    assert(parse_step(caps, items, at as int) == Err::<(StepView, int), _>(f@));
                }
                return Err(CompileError { command: name, kind: f.kind, subject: f.subject });
            },
        }
    }
    proof {
        assert(steps_view(steps@) + Seq::<NamedStepView>::empty() =~= steps_view(steps@));
    }
    Ok(steps)
}

/// Renders the program of a list of steps, as [`program_text`] says.
pub fn render_program(g: &Globals, steps: &Vec<NamedStep>) -> (r: String)
    ensures
        r@ == program_text(g@, steps_view(steps@)),
{
    let caps = capabilities(g.kde5);
    let ghost all = steps_view(steps@);
    let mut out = String::new();
    push_header(&mut out, g);
    let ghost head = out@;
    let mut i: usize = 0;
    assert(all.subrange(0, 0) =~= Seq::<NamedStepView>::empty());
    assert(head + Seq::<char>::empty() =~= head);
    while i < steps.len()
        invariant
            0 <= i <= steps@.len(),
            all == steps_view(steps@),
            caps == capabilities_of(g.kde5),
            out@ == head + steps_text(caps, all.subrange(0, i as int)),
        decreases steps@.len() - i,
    {
        let ghost before = out@;
        push_step(&mut out, caps, steps[i].name.as_str(), &steps[i].step);
        proof {
            let done = all.subrange(0, i + 1);
            assert(done.drop_last() =~= all.subrange(0, i as int));
            assert(done.last() == steps@[i as int]@);
            lemma_concat_associative(
                head,
                steps_text(caps, all.subrange(0, i as int)),
                step_text(caps, done.last().name, done.last().step),
            );
        }
        i = i + 1;
    }
    assert(all.subrange(0, i as int) =~= all);
    let ghost body = out@;
    let n = steps.len();
    if n > 0 && steps[n - 1].step.is_query() {
        out.append(
            "    for (var i = 0; i < window_stack.length; ++i) {\n        output_result(window_stack[i].internalId);\n    }\n",
        );
    }
    assert(out@ =~= body + (if ends_with_query(all) {
        auto_output()
    } else {
        Seq::empty()
    }));
    push_footer(&mut out, g);
    out
}

/// Compiles a pipeline into one program: its steps framed by the prologue
/// and the epilogue. On the first failure nothing of the program is
/// returned.
pub fn generate_script(g: &Globals, args: Vec<String>) -> (r: Result<String, CompileError>)
    ensures
        match pipeline_of(capabilities_of(g.kde5), texts(args@)) {
            Ok(steps) => r is Ok && r->Ok_0@ == program_text(g@, steps),
            Err(e) => r is Err && r->Err_0@ == e,
        },
{
    let steps = parse_pipeline(capabilities(g.kde5), args)?;
    Ok(render_program(g, &steps))
}

} // verus!
