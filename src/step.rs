//! The step compiler: reads the arguments that belong to one command and
//! builds its typed step record.
use vstd::prelude::*;
use crate::commands::{
    command_of, lookup_command, schema, failure, lookup_property, lookup_search_flag,
    lookup_search_param, lookup_window_option, property_of, schema_of, search_flag_of,
    search_param_of, window_option_of, Axis, Capabilities, Command, ErrorKind, Failure,
    FailureView, GlobalAction, Schema, SearchFlag, SearchParam, SearchQuery, StateChange,
    Step, StepView, WindowAction, WindowOption,
};
use crate::parser::{
    is_option, is_option_text, opt_view, option_inline, option_name, option_parts,
    parse_window_ref, texts, window_ref_of, Parser, WindowRef, WindowRefView,
};
use crate::text::{i32_of, lower_of, lowercase, parse_i32, parse_u32, same_text, u32_of};

verus! {

/// What the generic commands have read so far.
pub struct Collected {
    pub window: Option<WindowRef>,
    pub positionals: Vec<String>,
    pub relative: bool,
    pub changes: Vec<StateChange>,
    pub shell: bool,
}

/// The mathematical form of [`Collected`].
pub struct CollectedView {
    pub window: Option<WindowRefView>,
    pub positionals: Seq<Seq<char>>,
    pub relative: bool,
    pub changes: Seq<StateChange>,
    pub shell: bool,
}

pub open spec fn window_view(w: Option<WindowRef>) -> Option<WindowRefView> {
    match w {
        Some(r) => Some(r@),
        None => None,
    }
}

impl View for Collected {
    type V = CollectedView;

    open spec fn view(&self) -> CollectedView {
        CollectedView {
            window: window_view(self.window),
            positionals: texts(self.positionals@),
            relative: self.relative,
            changes: self.changes@,
            shell: self.shell,
        }
    }
}

pub open spec fn nothing_collected() -> CollectedView {
    CollectedView {
        window: None,
        positionals: Seq::empty(),
        relative: false,
        changes: Seq::empty(),
        shell: false,
    }
}

/// The value of the option at `pos`: its inline value, or else the next
/// argument whatever it looks like. Also the position after it.
pub open spec fn option_value_at(args: Seq<Seq<char>>, pos: int) -> Result<(Seq<char>, int), FailureView> {
    match option_inline(args[pos]) {
        Some(v) => Ok((v, pos + 1)),
        None => if pos + 1 < args.len() {
            Ok((args[pos + 1], pos + 2))
        } else {
            Err(failure(ErrorKind::MissingOptionValue, option_name(args[pos])))
        },
    }
}

/// Reads the arguments of a generic command from `pos` on: the options its
/// schema names, a window reference first if it takes one, and up to its
/// number of positional values. Stops before the first value it has no room
/// for, which names the next command, and returns that position.
pub open spec fn collect(sc: Schema, args: Seq<Seq<char>>, pos: int, c: CollectedView) -> Result<
    (CollectedView, int),
    FailureView,
>
    decreases args.len() - pos,
{
    if pos < 0 || pos >= args.len() {
        Ok((c, pos))
    } else {
        let s = args[pos];
        if is_option_text(s) {
            let name = option_name(s);
            match window_option_of(sc, name) {
                Some(WindowOption::Relative) => if option_inline(s) is Some {
                    Err(failure(ErrorKind::UnexpectedOptionValue, name))
                } else {
                    collect(sc, args, pos + 1, CollectedView { relative: true, ..c })
                },
                Some(WindowOption::Shell) => if option_inline(s) is Some {
                    Err(failure(ErrorKind::UnexpectedOptionValue, name))
                } else {
                    collect(sc, args, pos + 1, CollectedView { shell: true, ..c })
                },
                Some(WindowOption::Change(op)) => match option_value_at(args, pos) {
                    Ok((v, next)) => match property_of(lower_of(v)) {
                        Some(p) => if pos < next <= args.len() {
                            collect(
                                sc,
                                args,
                                next,
                                CollectedView {
                                    changes: c.changes.push(StateChange { op, property: p }),
                                    ..c
                                },
                            )
                        } else {
                            Ok((c, pos))
                        },
                        None => Err(failure(ErrorKind::UnsupportedProperty, lower_of(v))),
                    },
                    Err(e) => Err(e),
                },
                None => Err(failure(ErrorKind::UnexpectedOption, name)),
            }
        } else if sc.window && c.window is None && c.positionals.len() == 0 && window_ref_of(
            s,
        ) is Some {
            collect(sc, args, pos + 1, CollectedView { window: window_ref_of(s), ..c })
        } else if c.positionals.len() < sc.positional {
            collect(sc, args, pos + 1, CollectedView { positionals: c.positionals.push(s), ..c })
        } else {
            Ok((c, pos))
        }
    }
}

/// Takes the value of the option at `at` (already split into `name` and
/// `inline`) and moves past it.
fn take_option_value(p: &mut Parser, at: usize, name: String, inline: Option<String>) -> (r: Result<
    String,
    Failure,
>)
    requires
        at < old(p).args@.len(),
        is_option_text(old(p).items()[at as int]),
        name@ == option_name(old(p).items()[at as int]),
        opt_view(inline) == option_inline(old(p).items()[at as int]),
    ensures
        final(p).args == old(p).args,
        match option_value_at(old(p).items(), at as int) {
            Ok((v, next)) => r is Ok && r->Ok_0@ == v && final(p).pos == next,
            Err(e) => r is Err && r->Err_0@ == e,
        },
{
    let n = p.args.len();
    match inline {
        Some(v) => {
            p.pos = at + 1;
            Ok(v)
        },
        None => {
            if at + 1 < n {
                p.pos = at + 2;
                Ok(p.args[at + 1].clone())
            } else {
                Err(Failure { kind: ErrorKind::MissingOptionValue, subject: name })
            }
        },
    }
}

/// Reads the arguments of a generic command, as [`collect`] says.
pub fn collect_args(sc: Schema, p: &mut Parser) -> (r: Result<Collected, Failure>)
    ensures
        final(p).args == old(p).args,
        match collect(sc, old(p).items(), old(p).pos as int, nothing_collected()) {
            Ok((c, end)) => r is Ok && r->Ok_0@ == c && final(p).pos == end,
            Err(e) => r is Err && r->Err_0@ == e,
        },
{
    let mut c = Collected {
        window: None,
        positionals: Vec::new(),
        relative: false,
        changes: Vec::new(),
        shell: false,
    };
    assert(c@ == nothing_collected()) by {
        assert(texts(c.positionals@) =~= Seq::<Seq<char>>::empty());
    }
    while p.pos < p.args.len()
        invariant
            p.args == old(p).args,
            collect(sc, old(p).items(), old(p).pos as int, nothing_collected()) == collect(
                sc,
                p.items(),
                p.pos as int,
                c@,
            ),
        ensures
            p.args == old(p).args,
            collect(sc, old(p).items(), old(p).pos as int, nothing_collected()) == Ok::<
                (CollectedView, int),
                FailureView,
            >((c@, p.pos as int)),
        decreases p.args@.len() - p.pos,
    {
        let at = p.pos;
        let ghost items = p.items();
        if is_option(p.args[at].as_str()) {
            let (name, inline) = option_parts(p.args[at].as_str());
            match lookup_window_option(sc, name.as_str()) {
                Some(WindowOption::Relative) => {
                    if inline.is_some() {
                        return Err(Failure { kind: ErrorKind::UnexpectedOptionValue, subject: name });
                    }
                    c.relative = true;
                    p.pos = at + 1;
                },
                Some(WindowOption::Shell) => {
                    if inline.is_some() {
                        return Err(Failure { kind: ErrorKind::UnexpectedOptionValue, subject: name });
                    }
                    c.shell = true;
                    p.pos = at + 1;
                },
                Some(WindowOption::Change(op)) => {
                    let v = take_option_value(p, at, name, inline)?;
                    let key = lowercase(v.as_str());
                    match lookup_property(key.as_str()) {
                        Some(property) => {
                            c.changes.push(StateChange { op, property });
                        },
                        None => {
                            return Err(Failure { kind: ErrorKind::UnsupportedProperty, subject: key });
                        },
                    }
                },
                None => {
                    return Err(Failure { kind: ErrorKind::UnexpectedOption, subject: name });
                },
            }
        } else {
            let ghost before = c@;
            if sc.window && c.window.is_none() && c.positionals.len() == 0 {
                if let Some(w) = parse_window_ref(p.args[at].as_str()) {
                    c.window = Some(w);
                    p.pos = at + 1;
                    assert(c@ == CollectedView { window: window_ref_of(items[at as int]), ..before });
                    continue;
                }
            }
            if c.positionals.len() < sc.positional {
                let v = p.args[at].clone();
                c.positionals.push(v);
                p.pos = at + 1;
                assert(texts(c.positionals@) =~= before.positionals.push(items[at as int]));
            } else {
                break;
            }
        }
    }
    Ok(c)
}

/// The query that `search` starts from.
pub open spec fn blank_query() -> SearchQuery {
    SearchQuery {
        match_class: false,
        match_classname: false,
        match_role: false,
        match_name: false,
        match_id: false,
        pid: None,
        desktop: None,
        screen: None,
        limit: 0,
        match_all: false,
        match_case: false,
    }
}

pub open spec fn apply_flag(q: SearchQuery, f: SearchFlag) -> SearchQuery {
    match f {
        SearchFlag::CaseSensitive => SearchQuery { match_case: true, ..q },
        SearchFlag::Class => SearchQuery { match_class: true, ..q },
        SearchFlag::ClassName => SearchQuery { match_classname: true, ..q },
        SearchFlag::Role => SearchQuery { match_role: true, ..q },
        SearchFlag::Title => SearchQuery { match_name: true, ..q },
        SearchFlag::Id => SearchQuery { match_id: true, ..q },
        SearchFlag::All => SearchQuery { match_all: true, ..q },
        SearchFlag::Any => SearchQuery { match_all: false, ..q },
    }
}

/// Sets a numeric search option from its text.
pub open spec fn apply_param(q: SearchQuery, p: SearchParam, v: Seq<char>) -> Result<
    SearchQuery,
    FailureView,
> {
    match p {
        SearchParam::Limit => match u32_of(v) {
            Some(n) => Ok(SearchQuery { limit: n, ..q }),
            None => Err(failure(ErrorKind::InvalidValue, v)),
        },
        _ => match i32_of(v) {
            Some(n) => Ok(
                match p {
                    SearchParam::Pid => SearchQuery { pid: Some(n), ..q },
                    SearchParam::Desktop => SearchQuery { desktop: Some(n), ..q },
                    _ => SearchQuery { screen: Some(n), ..q },
                },
            ),
            None => Err(failure(ErrorKind::InvalidValue, v)),
        },
    }
}

/// Whether any name filter was asked for.
pub open spec fn has_name_filter(q: SearchQuery) -> bool {
    q.match_class || q.match_classname || q.match_role || q.match_name || q.match_id
}

/// With no name filter asked for, all five of them apply.
pub open spec fn with_default_filters(q: SearchQuery) -> SearchQuery {
    if has_name_filter(q) {
        q
    } else {
        SearchQuery {
            match_class: true,
            match_classname: true,
            match_role: true,
            match_name: true,
            match_id: true,
            ..q
        }
    }
}

/// Reads the arguments of `search` from `pos` on: its options, and the
/// pattern as the first value. Stops before a second value.
pub open spec fn search_collect(
    args: Seq<Seq<char>>,
    pos: int,
    q: SearchQuery,
    pattern: Option<Seq<char>>,
) -> Result<(SearchQuery, Option<Seq<char>>, int), FailureView>
    decreases args.len() - pos,
{
    if pos < 0 || pos >= args.len() {
        Ok((q, pattern, pos))
    } else {
        let s = args[pos];
        if is_option_text(s) {
            let name = option_name(s);
            match search_flag_of(name) {
                Some(f) => if option_inline(s) is Some {
                    Err(failure(ErrorKind::UnexpectedOptionValue, name))
                } else {
                    search_collect(args, pos + 1, apply_flag(q, f), pattern)
                },
                None => match search_param_of(name) {
                    Some(p) => match option_value_at(args, pos) {
                        Ok((v, next)) => match apply_param(q, p, v) {
                            Ok(q2) => if pos < next <= args.len() {
                                search_collect(args, next, q2, pattern)
                            } else {
                                Ok((q, pattern, pos))
                            },
                            Err(e) => Err(e),
                        },
                        Err(e) => Err(e),
                    },
                    None => Err(failure(ErrorKind::UnexpectedOption, name)),
                },
            }
        } else if pattern is None {
            search_collect(args, pos + 1, q, Some(s))
        } else {
            Ok((q, pattern, pos))
        }
    }
}

fn set_flag(q: &mut SearchQuery, f: SearchFlag)
    ensures
        *final(q) == apply_flag(*old(q), f),
{
    match f {
        SearchFlag::CaseSensitive => q.match_case = true,
        SearchFlag::Class => q.match_class = true,
        SearchFlag::ClassName => q.match_classname = true,
        SearchFlag::Role => q.match_role = true,
        SearchFlag::Title => q.match_name = true,
        SearchFlag::Id => q.match_id = true,
        SearchFlag::All => q.match_all = true,
        SearchFlag::Any => q.match_all = false,
    }
}

fn set_param(q: &mut SearchQuery, p: SearchParam, v: &str) -> (r: Result<(), Failure>)
    ensures
        match apply_param(*old(q), p, v@) {
            Ok(q2) => r is Ok && *final(q) == q2,
            Err(e) => r is Err && r->Err_0@ == e,
        },
{
    let bad = Failure { kind: ErrorKind::InvalidValue, subject: v.to_owned() };
    match p {
        SearchParam::Limit => match parse_u32(v) {
            Some(n) => {
                q.limit = n;
                Ok(())
            },
            None => Err(bad),
        },
        _ => match parse_i32(v) {
            Some(n) => {
                match p {
                    SearchParam::Pid => q.pid = Some(n),
                    SearchParam::Desktop => q.desktop = Some(n),
                    _ => q.screen = Some(n),
                }
                Ok(())
            },
            None => Err(bad),
        },
    }
}

/// The options and pattern of a `search` step, read as [`search_collect`]
/// says from the reader's position.
pub fn step_search(p: &mut Parser) -> (r: Result<(SearchQuery, Option<String>), Failure>)
    ensures
        final(p).args == old(p).args,
        match search_collect(old(p).items(), old(p).pos as int, blank_query(), None) {
            Ok((q, pattern, end)) => r is Ok && r->Ok_0.0 == q && opt_view(r->Ok_0.1) == pattern
                && final(p).pos == end,
            Err(e) => r is Err && r->Err_0@ == e,
        },
{
    let mut q = SearchQuery {
        match_class: false,
        match_classname: false,
        match_role: false,
        match_name: false,
        match_id: false,
        pid: None,
        desktop: None,
        screen: None,
        limit: 0,
        match_all: false,
        match_case: false,
    };
    let mut pattern: Option<String> = None;
    while p.pos < p.args.len()
        invariant
            p.args == old(p).args,
            search_collect(old(p).items(), old(p).pos as int, blank_query(), None)
                == search_collect(p.items(), p.pos as int, q, opt_view(pattern)),
        ensures
            p.args == old(p).args,
            search_collect(old(p).items(), old(p).pos as int, blank_query(), None) == Ok::<
                (SearchQuery, Option<Seq<char>>, int),
                FailureView,
            >((q, opt_view(pattern), p.pos as int)),
        decreases p.args@.len() - p.pos,
    {
        let at = p.pos;
        if is_option(p.args[at].as_str()) {
            let (name, inline) = option_parts(p.args[at].as_str());
            match lookup_search_flag(name.as_str()) {
                Some(f) => {
                    if inline.is_some() {
                        return Err(Failure { kind: ErrorKind::UnexpectedOptionValue, subject: name });
                    }
                    set_flag(&mut q, f);
                    p.pos = at + 1;
                },
                None => match lookup_search_param(name.as_str()) {
                    Some(param) => {
                        let v = take_option_value(p, at, name, inline)?;
                        set_param(&mut q, param, v.as_str())?;
                    },
                    None => {
                        return Err(Failure { kind: ErrorKind::UnexpectedOption, subject: name });
                    },
                },
            }
        } else if pattern.is_none() {
            pattern = Some(p.args[at].clone());
            p.pos = at + 1;
        } else {
            break;
        }
    }
    Ok((q, pattern))
}

/// The geometry value that a text denotes: the axis letter itself for
/// "unchanged", a number followed by `%` for a percentage, or a number.
pub open spec fn axis_of(s: Seq<char>, letter: char) -> Option<Axis> {
    if s == seq![letter] {
        Some(Axis::Unchanged)
    } else if s.len() > 0 && s.last() == '%' {
        match i32_of(s.drop_last()) {
            Some(n) => Some(Axis::Percent(n)),
            None => None,
        }
    } else {
        match i32_of(s) {
            Some(n) => Some(Axis::Absolute(n)),
            None => None,
        }
    }
}

/// Reads one geometry value.
pub fn parse_axis(s: &str, letter: char) -> (r: Option<Axis>)
    ensures
        r == axis_of(s@, letter),
{
    let n = s.unicode_len();
    if n == 1 && s.get_char(0) == letter {
        assert(s@ =~= seq![letter]);
        return Some(Axis::Unchanged);
    }
    assert(s@ != seq![letter]);
    if n > 0 && s.get_char(n - 1) == '%' {
        assert(s@.drop_last() =~= s@.subrange(0, n - 1));
        match parse_i32(s.substring_char(0, n - 1)) {
            Some(v) => Some(Axis::Percent(v)),
            None => None,
        }
    } else {
        match parse_i32(s) {
            Some(v) => Some(Axis::Absolute(v)),
            None => None,
        }
    }
}

/// The desktop that `set_desktop_for_window` is given: the word
/// `current_desktop` in any case stands for -1, the window's own desktop;
/// otherwise a number that is not negative.
pub open spec fn desktop_of(s: Seq<char>) -> Option<i32> {
    if lower_of(s) == "current_desktop"@ {
        Some(-1i32)
    } else {
        match i32_of(s) {
            Some(n) => if n >= 0 {
                Some(n)
            } else {
                None
            },
            None => None,
        }
    }
}

/// Reads the desktop of `set_desktop_for_window`.
pub fn parse_desktop(s: &str) -> (r: Option<i32>)
    ensures
        r == desktop_of(s@),
{
    let lower = lowercase(s);
    if same_text(lower.as_str(), "current_desktop") {
        return Some(-1);
    }
    match parse_i32(s) {
        Some(n) => if n >= 0 {
            Some(n)
        } else {
            None
        },
        None => None,
    }
}

/// The two geometry values of `windowmove` and `windowsize`.
pub open spec fn geometry_of(p: Seq<Seq<char>>) -> Result<(Axis, Axis), FailureView> {
    if p.len() < 1 {
        Err(failure(ErrorKind::MissingArgument, "x"@))
    } else if p.len() < 2 {
        Err(failure(ErrorKind::MissingArgument, "y"@))
    } else {
        match axis_of(p[0], 'x') {
            None => Err(failure(ErrorKind::InvalidValue, p[0])),
            Some(x) => match axis_of(p[1], 'y') {
                None => Err(failure(ErrorKind::InvalidValue, p[1])),
                Some(y) => Ok((x, y)),
            },
        }
    }
}

/// A required integer argument.
pub open spec fn number_arg(p: Seq<Seq<char>>, name: Seq<char>) -> Result<i32, FailureView> {
    if p.len() < 1 {
        Err(failure(ErrorKind::MissingArgument, name))
    } else {
        match i32_of(p[0]) {
            Some(n) => Ok(n),
            None => Err(failure(ErrorKind::InvalidValue, p[0])),
        }
    }
}

pub open spec fn on_window(c: CollectedView, action: WindowAction) -> StepView {
    StepView::OnWindow {
        target: match c.window {
            Some(w) => w,
            None => WindowRefView::StackIndex(1),
        },
        action,
        changes: if action == WindowAction::State {
            c.changes
        } else {
            Seq::empty()
        },
    }
}

/// The step that a generic command makes of what it read.
pub open spec fn build_step(cmd: Command, c: CollectedView) -> Result<StepView, FailureView> {
    let p = c.positionals;
    match cmd {
        Command::Search => Ok(
            StepView::Search { query: with_default_filters(blank_query()), pattern: Seq::empty() },
        ),
        Command::GetActiveWindow => Ok(StepView::GetActiveWindow),
        Command::SaveWindowStack => if p.len() > 0 {
            Ok(StepView::SaveStack(p[0]))
        } else {
            Err(failure(ErrorKind::MissingArgument, "name"@))
        },
        Command::LoadWindowStack => if p.len() > 0 {
            Ok(StepView::LoadStack(p[0]))
        } else {
            Err(failure(ErrorKind::MissingArgument, "name"@))
        },
        Command::GetWindowName => Ok(on_window(c, WindowAction::GetName)),
        Command::GetWindowClassName => Ok(on_window(c, WindowAction::GetClassName)),
        Command::GetWindowGeometry => Ok(on_window(c, WindowAction::GetGeometry)),
        Command::GetWindowId => Ok(on_window(c, WindowAction::GetId)),
        Command::GetWindowPid => Ok(on_window(c, WindowAction::GetPid)),
        Command::WindowActivate => Ok(on_window(c, WindowAction::Activate)),
        Command::WindowRaise => Ok(on_window(c, WindowAction::Raise)),
        Command::WindowMinimize => Ok(on_window(c, WindowAction::Minimize)),
        Command::WindowClose => Ok(on_window(c, WindowAction::Close)),
        Command::WindowSize => match geometry_of(p) {
            Ok((w, h)) => Ok(on_window(c, WindowAction::Size { width: w, height: h })),
            Err(e) => Err(e),
        },
        Command::WindowMove => match geometry_of(p) {
            Ok((x, y)) => Ok(on_window(c, WindowAction::Move { relative: c.relative, x, y })),
            Err(e) => Err(e),
        },
        Command::WindowState => Ok(on_window(c, WindowAction::State)),
        Command::GetDesktopForWindow => Ok(on_window(c, WindowAction::GetDesktop)),
        Command::SetDesktopForWindow => if p.len() < 1 {
            Err(failure(ErrorKind::MissingArgument, "desktop_id"@))
        } else {
            match desktop_of(p[0]) {
                Some(d) => Ok(on_window(c, WindowAction::SetDesktop(d))),
                None => Err(failure(ErrorKind::InvalidValue, p[0])),
            }
        },
        Command::GetDesktop => Ok(StepView::Global(GlobalAction::GetDesktop)),
        Command::SetDesktop => match number_arg(p, "desktop_id"@) {
            Ok(n) => Ok(StepView::Global(GlobalAction::SetDesktop(n))),
            Err(e) => Err(e),
        },
        Command::GetNumDesktops => Ok(StepView::Global(GlobalAction::GetNumDesktops)),
        Command::SetNumDesktops => match number_arg(p, "num"@) {
            Ok(n) => Ok(StepView::Global(GlobalAction::SetNumDesktops(n))),
            Err(e) => Err(e),
        },
        Command::GetMouseLocation => Ok(
            StepView::Global(GlobalAction::GetMouseLocation { shell: c.shell }),
        ),
    }
}

/// How one step reads: the command named at `pos`, then its arguments.
/// Gives the step and the position of the next command.
pub open spec fn parse_step(caps: Capabilities, args: Seq<Seq<char>>, pos: int) -> Result<
    (StepView, int),
    FailureView,
> {
    let name = args[pos];
    match command_of(name) {
        None => Err(failure(ErrorKind::UnknownCommand, name)),
        Some(Command::Search) => match search_collect(args, pos + 1, blank_query(), None) {
            Ok((q, pattern, end)) => Ok(
                (
                    StepView::Search {
                        query: with_default_filters(q),
                        pattern: match pattern {
                            Some(t) => t,
                            None => Seq::empty(),
                        },
                    },
                    end,
                ),
            ),
            Err(e) => Err(e),
        },
        Some(cmd) => if cmd == Command::GetMouseLocation && !caps.mouse_location {
            Err(failure(ErrorKind::UnsupportedOnVariant, name))
        } else {
            match collect(schema_of(cmd), args, pos + 1, nothing_collected()) {
                Ok((c, end)) => match build_step(cmd, c) {
                    Ok(s) => Ok((s, end)),
                    Err(e) => Err(e),
                },
                Err(e) => Err(e),
            }
        },
    }
}

/// With no name filter asked for, all five of them apply.
pub fn default_filters(q: SearchQuery) -> (r: SearchQuery)
    ensures
        r == with_default_filters(q),
{
    if q.match_class || q.match_classname || q.match_role || q.match_name || q.match_id {
        q
    } else {
        SearchQuery {
            match_class: true,
            match_classname: true,
            match_role: true,
            match_name: true,
            match_id: true,
            ..q
        }
    }
}

fn target_of(w: Option<WindowRef>) -> (r: WindowRef)
    ensures
        r@ == match window_view(w) {
            Some(t) => t,
            None => WindowRefView::StackIndex(1),
        },
{
    match w {
        Some(t) => t,
        None => WindowRef::StackIndex(1),
    }
}

fn window_step(c: Collected, action: WindowAction) -> (r: Step)
    ensures
        r@ == on_window(c@, action),
{
    let target = target_of(c.window);
    if action == WindowAction::State {
        Step::OnWindow { target, action, changes: c.changes }
    } else {
        let changes: Vec<StateChange> = Vec::new();
        assert(changes@ =~= Seq::<StateChange>::empty());
        Step::OnWindow { target, action, changes }
    }
}

fn missing(name: &str) -> (r: Failure)
    ensures
        r@ == failure(ErrorKind::MissingArgument, name@),
{
    Failure { kind: ErrorKind::MissingArgument, subject: name.to_owned() }
}

fn invalid(value: &String) -> (r: Failure)
    ensures
        r@ == failure(ErrorKind::InvalidValue, value@),
{
    Failure { kind: ErrorKind::InvalidValue, subject: value.clone() }
}

fn geometry(p: &Vec<String>) -> (r: Result<(Axis, Axis), Failure>)
    ensures
        match geometry_of(texts(p@)) {
            Ok(xy) => r is Ok && r->Ok_0 == xy,
            Err(e) => r is Err && r->Err_0@ == e,
        },
{
    if p.len() < 1 {
        return Err(missing("x"));
    }
    if p.len() < 2 {
        return Err(missing("y"));
    }
    let x = match parse_axis(p[0].as_str(), 'x') {
        Some(x) => x,
        None => return Err(invalid(&p[0])),
    };
    let y = match parse_axis(p[1].as_str(), 'y') {
        Some(y) => y,
        None => return Err(invalid(&p[1])),
    };
    Ok((x, y))
}

fn number(p: &Vec<String>, name: &str) -> (r: Result<i32, Failure>)
    ensures
        match number_arg(texts(p@), name@) {
            Ok(n) => r == Ok::<i32, Failure>(n),
            Err(e) => r is Err && r->Err_0@ == e,
        },
{
    if p.len() < 1 {
        return Err(missing(name));
    }
    match parse_i32(p[0].as_str()) {
        Some(n) => Ok(n),
        None => Err(invalid(&p[0])),
    }
}

/// Builds the step of a generic command from what it read, as
/// [`build_step`] says.
pub fn build(cmd: Command, c: Collected) -> (r: Result<Step, Failure>)
    ensures
        match build_step(cmd, c@) {
            Ok(s) => r is Ok && r->Ok_0@ == s,
            Err(e) => r is Err && r->Err_0@ == e,
        },
{
    match cmd {
        Command::Search => {
            let q = default_filters(SearchQuery {
                match_class: false,
                match_classname: false,
                match_role: false,
                match_name: false,
                match_id: false,
                pid: None,
                desktop: None,
                screen: None,
                limit: 0,
                match_all: false,
                match_case: false,
            });
            Ok(Step::Search { query: q, pattern: String::new() })
        },
        Command::GetActiveWindow => Ok(Step::GetActiveWindow),
        Command::SaveWindowStack | Command::LoadWindowStack => {
            if c.positionals.len() < 1 {
                return Err(missing("name"));
            }
            let name = c.positionals[0].clone();
            if cmd == Command::SaveWindowStack {
                Ok(Step::SaveStack(name))
            } else {
                Ok(Step::LoadStack(name))
            }
        },
        Command::GetWindowName => Ok(window_step(c, WindowAction::GetName)),
        Command::GetWindowClassName => Ok(window_step(c, WindowAction::GetClassName)),
        Command::GetWindowGeometry => Ok(window_step(c, WindowAction::GetGeometry)),
        Command::GetWindowId => Ok(window_step(c, WindowAction::GetId)),
        Command::GetWindowPid => Ok(window_step(c, WindowAction::GetPid)),
        Command::WindowActivate => Ok(window_step(c, WindowAction::Activate)),
        Command::WindowRaise => Ok(window_step(c, WindowAction::Raise)),
        Command::WindowMinimize => Ok(window_step(c, WindowAction::Minimize)),
        Command::WindowClose => Ok(window_step(c, WindowAction::Close)),
        Command::WindowSize => {
            let (width, height) = geometry(&c.positionals)?;
            Ok(window_step(c, WindowAction::Size { width, height }))
        },
        Command::WindowMove => {
            let (x, y) = geometry(&c.positionals)?;
            let relative = c.relative;
            Ok(window_step(c, WindowAction::Move { relative, x, y }))
        },
        Command::WindowState => Ok(window_step(c, WindowAction::State)),
        Command::GetDesktopForWindow => Ok(window_step(c, WindowAction::GetDesktop)),
        Command::SetDesktopForWindow => {
            if c.positionals.len() < 1 {
                return Err(missing("desktop_id"));
            }
            match parse_desktop(c.positionals[0].as_str()) {
                Some(d) => Ok(window_step(c, WindowAction::SetDesktop(d))),
                None => Err(invalid(&c.positionals[0])),
            }
        },
        Command::GetDesktop => Ok(Step::Global(GlobalAction::GetDesktop)),
        Command::SetDesktop => {
            let n = number(&c.positionals, "desktop_id")?;
            Ok(Step::Global(GlobalAction::SetDesktop(n)))
        },
        Command::GetNumDesktops => Ok(Step::Global(GlobalAction::GetNumDesktops)),
        Command::SetNumDesktops => {
            let n = number(&c.positionals, "num")?;
            Ok(Step::Global(GlobalAction::SetNumDesktops(n)))
        },
        Command::GetMouseLocation => Ok(
            Step::Global(GlobalAction::GetMouseLocation { shell: c.shell }),
        ),
    }
}

/// Compiles the command at the reader's position with the arguments that
/// belong to it, as [`parse_step`] says, and leaves the reader at the next
/// command.
pub fn generate_step(caps: Capabilities, p: &mut Parser) -> (r: Result<Step, Failure>)
    requires
        old(p).pos < old(p).args@.len(),
    ensures
        final(p).args == old(p).args,
        match parse_step(caps, old(p).items(), old(p).pos as int) {
            Ok((s, end)) => r is Ok && r->Ok_0@ == s && final(p).pos == end,
            Err(e) => r is Err && r->Err_0@ == e,
        },
{
    let at = p.pos;
    let name = p.args[at].clone();
    assert(p.args.len() <= usize::MAX);
    p.pos = at + 1;
    match lookup_command(name.as_str()) {
        None => Err(Failure { kind: ErrorKind::UnknownCommand, subject: name }),
        Some(Command::Search) => {
            let (q, pattern) = step_search(p)?;
            let query = default_filters(q);
            let pattern = match pattern {
                Some(t) => t,
                None => String::new(),
            };
            Ok(Step::Search { query, pattern })
        },
        Some(cmd) => {
            if cmd == Command::GetMouseLocation && !caps.mouse_location {
                return Err(Failure { kind: ErrorKind::UnsupportedOnVariant, subject: name });
            }
            let c = collect_args(schema(cmd), p)?;
            build(cmd, c)
        },
    }
}

} // verus!
