//! The command registry: the commands, their typed step records, the option
//! names they accept, and the capabilities of the two runtime variants.
use vstd::prelude::*;
use crate::parser::{WindowRef, WindowRefView};
use crate::text::same_text;

verus! {

/// The kinds of failure that stop a compilation.
#[derive(Clone, Copy, Debug, PartialEq, Eq, Structural)]
pub enum ErrorKind {
    UnknownCommand,
    MissingArgument,
    InvalidValue,
    UnsupportedProperty,
    UnsupportedOnVariant,
    UnexpectedOption,
    MissingOptionValue,
    UnexpectedOptionValue,
}

/// A failure inside one step: its kind and the text it is about.
#[derive(Debug)]
pub struct Failure {
    pub kind: ErrorKind,
    pub subject: String,
}

/// The mathematical form of a failure.
pub struct FailureView {
    pub kind: ErrorKind,
    pub subject: Seq<char>,
}

impl View for Failure {
    type V = FailureView;

    open spec fn view(&self) -> FailureView {
        FailureView { kind: self.kind, subject: self.subject@ }
    }
}

pub open spec fn failure(kind: ErrorKind, subject: Seq<char>) -> FailureView {
    FailureView { kind, subject }
}

/// What the two runtime variants can do, resolved once per compilation.
#[derive(Clone, Copy, Debug, PartialEq, Eq, Structural)]
pub struct Capabilities {
    /// Windows are "clients", desktops are numbers.
    pub legacy_api: bool,
    /// A window can be raised.
    pub raise_window: bool,
    /// A window knows its screen.
    pub window_screen: bool,
    /// The number of desktops can be set.
    pub set_num_desktops: bool,
    /// The mouse location can be read.
    pub mouse_location: bool,
}

/// The capabilities of the older variant (`kde5`) or of the newer one.
pub open spec fn capabilities_of(kde5: bool) -> Capabilities {
    Capabilities {
        legacy_api: kde5,
        raise_window: !kde5,
        window_screen: kde5,
        set_num_desktops: kde5,
        mouse_location: !kde5,
    }
}

pub fn capabilities(kde5: bool) -> (r: Capabilities)
    ensures
        r == capabilities_of(kde5),
{
    Capabilities {
        legacy_api: kde5,
        raise_window: !kde5,
        window_screen: kde5,
        set_num_desktops: kde5,
        mouse_location: !kde5,
    }
}

/// Every command that a pipeline may hold.
#[derive(Clone, Copy, Debug, PartialEq, Eq, Structural)]
pub enum Command {
    Search,
    GetActiveWindow,
    SaveWindowStack,
    LoadWindowStack,
    GetWindowName,
    GetWindowClassName,
    GetWindowGeometry,
    GetWindowId,
    GetWindowPid,
    WindowActivate,
    WindowRaise,
    WindowMinimize,
    WindowClose,
    WindowSize,
    WindowMove,
    WindowState,
    GetDesktopForWindow,
    SetDesktopForWindow,
    GetDesktop,
    SetDesktop,
    GetNumDesktops,
    SetNumDesktops,
    GetMouseLocation,
}

/// The command that a name denotes.
pub open spec fn command_of(name: Seq<char>) -> Option<Command> {
    if name == "search"@ {
        Some(Command::Search)
    } else if name == "getactivewindow"@ {
        Some(Command::GetActiveWindow)
    } else if name == "savewindowstack"@ {
        Some(Command::SaveWindowStack)
    } else if name == "loadwindowstack"@ {
        Some(Command::LoadWindowStack)
    } else if name == "getwindowname"@ {
        Some(Command::GetWindowName)
    } else if name == "getwindowclassname"@ {
        Some(Command::GetWindowClassName)
    } else if name == "getwindowgeometry"@ {
        Some(Command::GetWindowGeometry)
    } else if name == "getwindowid"@ {
        Some(Command::GetWindowId)
    } else if name == "getwindowpid"@ {
        Some(Command::GetWindowPid)
    } else if name == "windowactivate"@ {
        Some(Command::WindowActivate)
    } else if name == "windowraise"@ {
        Some(Command::WindowRaise)
    } else if name == "windowminimize"@ {
        Some(Command::WindowMinimize)
    } else if name == "windowclose"@ {
        Some(Command::WindowClose)
    } else if name == "windowsize"@ {
        Some(Command::WindowSize)
    } else if name == "windowmove"@ {
        Some(Command::WindowMove)
    } else if name == "windowstate"@ {
        Some(Command::WindowState)
    } else if name == "get_desktop_for_window"@ {
        Some(Command::GetDesktopForWindow)
    } else if name == "set_desktop_for_window"@ {
        Some(Command::SetDesktopForWindow)
    } else if name == "get_desktop"@ {
        Some(Command::GetDesktop)
    } else if name == "set_desktop"@ {
        Some(Command::SetDesktop)
    } else if name == "get_num_desktops"@ {
        Some(Command::GetNumDesktops)
    } else if name == "set_num_desktops"@ {
        Some(Command::SetNumDesktops)
    } else if name == "getmouselocation"@ {
        Some(Command::GetMouseLocation)
    } else {
        None
    }
}

/// Looks a command up by name.
pub fn lookup_command(name: &str) -> (r: Option<Command>)
    ensures
        r == command_of(name@),
{
    if same_text(name, "search") {
        Some(Command::Search)
    } else if same_text(name, "getactivewindow") {
        Some(Command::GetActiveWindow)
    } else if same_text(name, "savewindowstack") {
        Some(Command::SaveWindowStack)
    } else if same_text(name, "loadwindowstack") {
        Some(Command::LoadWindowStack)
    } else if same_text(name, "getwindowname") {
        Some(Command::GetWindowName)
    } else if same_text(name, "getwindowclassname") {
        Some(Command::GetWindowClassName)
    } else if same_text(name, "getwindowgeometry") {
        Some(Command::GetWindowGeometry)
    } else if same_text(name, "getwindowid") {
        Some(Command::GetWindowId)
    } else if same_text(name, "getwindowpid") {
        Some(Command::GetWindowPid)
    } else if same_text(name, "windowactivate") {
        Some(Command::WindowActivate)
    } else if same_text(name, "windowraise") {
        Some(Command::WindowRaise)
    } else if same_text(name, "windowminimize") {
        Some(Command::WindowMinimize)
    } else if same_text(name, "windowclose") {
        Some(Command::WindowClose)
    } else if same_text(name, "windowsize") {
        Some(Command::WindowSize)
    } else if same_text(name, "windowmove") {
        Some(Command::WindowMove)
    } else if same_text(name, "windowstate") {
        Some(Command::WindowState)
    } else if same_text(name, "get_desktop_for_window") {
        Some(Command::GetDesktopForWindow)
    } else if same_text(name, "set_desktop_for_window") {
        Some(Command::SetDesktopForWindow)
    } else if same_text(name, "get_desktop") {
        Some(Command::GetDesktop)
    } else if same_text(name, "set_desktop") {
        Some(Command::SetDesktop)
    } else if same_text(name, "get_num_desktops") {
        Some(Command::GetNumDesktops)
    } else if same_text(name, "set_num_desktops") {
        Some(Command::SetNumDesktops)
    } else if same_text(name, "getmouselocation") {
        Some(Command::GetMouseLocation)
    } else {
        None
    }
}

/// Whether a command acts on one resolved window.
pub open spec fn is_window_command(c: Command) -> bool {
    match c {
        Command::GetWindowName | Command::GetWindowClassName | Command::GetWindowGeometry
        | Command::GetWindowId | Command::GetWindowPid | Command::WindowActivate
        | Command::WindowRaise | Command::WindowMinimize | Command::WindowClose
        | Command::WindowSize | Command::WindowMove | Command::WindowState
        | Command::GetDesktopForWindow | Command::SetDesktopForWindow => true,
        _ => false,
    }
}

/// What a command accepts after its name, besides `search`'s own options.
#[derive(Clone, Copy, Debug, PartialEq, Eq, Structural)]
pub struct Schema {
    /// A window reference may come first.
    pub window: bool,
    /// The number of positional values.
    pub positional: usize,
    /// `--relative` is accepted.
    pub relative: bool,
    /// `--add`, `--remove` and `--toggle` are accepted.
    pub state_ops: bool,
    /// `--shell` is accepted.
    pub shell: bool,
}

pub open spec fn schema_of(c: Command) -> Schema {
    Schema {
        window: is_window_command(c),
        positional: match c {
            Command::SaveWindowStack | Command::LoadWindowStack | Command::SetDesktopForWindow
            | Command::SetDesktop | Command::SetNumDesktops => 1,
            Command::WindowSize | Command::WindowMove => 2,
            _ => 0,
        },
        relative: c == Command::WindowMove,
        state_ops: c == Command::WindowState,
        shell: c == Command::GetMouseLocation,
    }
}

pub fn schema(c: Command) -> (r: Schema)
    ensures
        r == schema_of(c),
{
    let window = match c {
        Command::GetWindowName | Command::GetWindowClassName | Command::GetWindowGeometry
        | Command::GetWindowId | Command::GetWindowPid | Command::WindowActivate
        | Command::WindowRaise | Command::WindowMinimize | Command::WindowClose
        | Command::WindowSize | Command::WindowMove | Command::WindowState
        | Command::GetDesktopForWindow | Command::SetDesktopForWindow => true,
        _ => false,
    };
    let positional: usize = match c {
        Command::SaveWindowStack | Command::LoadWindowStack | Command::SetDesktopForWindow
        | Command::SetDesktop | Command::SetNumDesktops => 1,
        Command::WindowSize | Command::WindowMove => 2,
        _ => 0,
    };
    Schema {
        window,
        positional,
        relative: c == Command::WindowMove,
        state_ops: c == Command::WindowState,
        shell: c == Command::GetMouseLocation,
    }
}

/// A state change that `windowstate` applies.
#[derive(Clone, Copy, Debug, PartialEq, Eq, Structural)]
pub enum StateOp {
    Add,
    Remove,
    Toggle,
}

/// The window properties that `windowstate` can change.
#[derive(Clone, Copy, Debug, PartialEq, Eq, Structural)]
pub enum WindowProperty {
    Above,
    Below,
    SkipTaskbar,
    SkipPager,
    FullScreen,
    Shaded,
    DemandsAttention,
}

#[derive(Clone, Copy, Debug, PartialEq, Eq, Structural)]
pub struct StateChange {
    pub op: StateOp,
    pub property: WindowProperty,
}

/// The property that a (lowercase) property name denotes.
pub open spec fn property_of(key: Seq<char>) -> Option<WindowProperty> {
    if key == "above"@ {
        Some(WindowProperty::Above)
    } else if key == "below"@ {
        Some(WindowProperty::Below)
    } else if key == "skip_taskbar"@ {
        Some(WindowProperty::SkipTaskbar)
    } else if key == "skip_pager"@ {
        Some(WindowProperty::SkipPager)
    } else if key == "fullscreen"@ {
        Some(WindowProperty::FullScreen)
    } else if key == "shaded"@ {
        Some(WindowProperty::Shaded)
    } else if key == "demands_attention"@ {
        Some(WindowProperty::DemandsAttention)
    } else {
        None
    }
}

pub fn lookup_property(key: &str) -> (r: Option<WindowProperty>)
    ensures
        r == property_of(key@),
{
    if same_text(key, "above") {
        Some(WindowProperty::Above)
    } else if same_text(key, "below") {
        Some(WindowProperty::Below)
    } else if same_text(key, "skip_taskbar") {
        Some(WindowProperty::SkipTaskbar)
    } else if same_text(key, "skip_pager") {
        Some(WindowProperty::SkipPager)
    } else if same_text(key, "fullscreen") {
        Some(WindowProperty::FullScreen)
    } else if same_text(key, "shaded") {
        Some(WindowProperty::Shaded)
    } else if same_text(key, "demands_attention") {
        Some(WindowProperty::DemandsAttention)
    } else {
        None
    }
}

/// The options of the generic commands.
#[derive(Clone, Copy, Debug, PartialEq, Eq, Structural)]
pub enum WindowOption {
    Relative,
    Shell,
    Change(StateOp),
}

/// The generic option that a name denotes under a schema.
pub open spec fn window_option_of(s: Schema, name: Seq<char>) -> Option<WindowOption> {
    if s.relative && name == "--relative"@ {
        Some(WindowOption::Relative)
    } else if s.shell && name == "--shell"@ {
        Some(WindowOption::Shell)
    } else if s.state_ops && name == "--add"@ {
        Some(WindowOption::Change(StateOp::Add))
    } else if s.state_ops && name == "--remove"@ {
        Some(WindowOption::Change(StateOp::Remove))
    } else if s.state_ops && name == "--toggle"@ {
        Some(WindowOption::Change(StateOp::Toggle))
    } else {
        None
    }
}

pub fn lookup_window_option(s: Schema, name: &str) -> (r: Option<WindowOption>)
    ensures
        r == window_option_of(s, name@),
{
    if s.relative && same_text(name, "--relative") {
        Some(WindowOption::Relative)
    } else if s.shell && same_text(name, "--shell") {
        Some(WindowOption::Shell)
    } else if s.state_ops && same_text(name, "--add") {
        Some(WindowOption::Change(StateOp::Add))
    } else if s.state_ops && same_text(name, "--remove") {
        Some(WindowOption::Change(StateOp::Remove))
    } else if s.state_ops && same_text(name, "--toggle") {
        Some(WindowOption::Change(StateOp::Toggle))
    } else {
        None
    }
}

/// The flags of `search`.
#[derive(Clone, Copy, Debug, PartialEq, Eq, Structural)]
pub enum SearchFlag {
    CaseSensitive,
    Class,
    ClassName,
    Role,
    Title,
    Id,
    All,
    Any,
}

/// The options of `search` that take a number.
#[derive(Clone, Copy, Debug, PartialEq, Eq, Structural)]
pub enum SearchParam {
    Pid,
    Desktop,
    Screen,
    Limit,
}

pub open spec fn search_flag_of(name: Seq<char>) -> Option<SearchFlag> {
    if name == "-C"@ || name == "--case-sensitive"@ {
        Some(SearchFlag::CaseSensitive)
    } else if name == "-c"@ || name == "--class"@ {
        Some(SearchFlag::Class)
    } else if name == "-n"@ || name == "--classname"@ {
        Some(SearchFlag::ClassName)
    } else if name == "-r"@ || name == "--role"@ {
        Some(SearchFlag::Role)
    } else if name == "-t"@ || name == "--title"@ || name == "--name"@ {
        Some(SearchFlag::Title)
    } else if name == "--id"@ {
        Some(SearchFlag::Id)
    } else if name == "-a"@ || name == "--all"@ {
        Some(SearchFlag::All)
    } else if name == "--any"@ {
        Some(SearchFlag::Any)
    } else {
        None
    }
}

pub fn lookup_search_flag(name: &str) -> (r: Option<SearchFlag>)
    ensures
        r == search_flag_of(name@),
{
    if same_text(name, "-C") || same_text(name, "--case-sensitive") {
        Some(SearchFlag::CaseSensitive)
    } else if same_text(name, "-c") || same_text(name, "--class") {
        Some(SearchFlag::Class)
    } else if same_text(name, "-n") || same_text(name, "--classname") {
        Some(SearchFlag::ClassName)
    } else if same_text(name, "-r") || same_text(name, "--role") {
        Some(SearchFlag::Role)
    } else if same_text(name, "-t") || same_text(name, "--title") || same_text(name, "--name") {
        Some(SearchFlag::Title)
    } else if same_text(name, "--id") {
        Some(SearchFlag::Id)
    } else if same_text(name, "-a") || same_text(name, "--all") {
        Some(SearchFlag::All)
    } else if same_text(name, "--any") {
        Some(SearchFlag::Any)
    } else {
        None
    }
}

pub open spec fn search_param_of(name: Seq<char>) -> Option<SearchParam> {
    if name == "-p"@ || name == "--pid"@ {
        Some(SearchParam::Pid)
    } else if name == "-D"@ || name == "--desktop"@ {
        Some(SearchParam::Desktop)
    } else if name == "-s"@ || name == "--screen"@ {
        Some(SearchParam::Screen)
    } else if name == "-l"@ || name == "--limit"@ {
        Some(SearchParam::Limit)
    } else {
        None
    }
}

pub fn lookup_search_param(name: &str) -> (r: Option<SearchParam>)
    ensures
        r == search_param_of(name@),
{
    if same_text(name, "-p") || same_text(name, "--pid") {
        Some(SearchParam::Pid)
    } else if same_text(name, "-D") || same_text(name, "--desktop") {
        Some(SearchParam::Desktop)
    } else if same_text(name, "-s") || same_text(name, "--screen") {
        Some(SearchParam::Screen)
    } else if same_text(name, "-l") || same_text(name, "--limit") {
        Some(SearchParam::Limit)
    } else {
        None
    }
}

/// One geometry value of `windowmove` or `windowsize`.
#[derive(Clone, Copy, Debug, PartialEq, Eq, Structural)]
pub enum Axis {
    /// Leave this coordinate as it is (`x` or `y`).
    Unchanged,
    /// An absolute number of pixels.
    Absolute(i32),
    /// A percentage of the screen's extent (`50%`).
    Percent(i32),
}

/// The search predicate of a `search` step, without its pattern.
#[derive(Clone, Copy, Debug, PartialEq, Eq, Structural)]
pub struct SearchQuery {
    pub match_class: bool,
    pub match_classname: bool,
    pub match_role: bool,
    pub match_name: bool,
    pub match_id: bool,
    pub pid: Option<i32>,
    pub desktop: Option<i32>,
    pub screen: Option<i32>,
    /// At most this many windows; 0 for no bound.
    pub limit: u32,
    /// Name filters are combined with "and" rather than "or".
    pub match_all: bool,
    pub match_case: bool,
}

/// What a window-targeted step does to its window.
#[derive(Clone, Copy, Debug, PartialEq, Eq, Structural)]
pub enum WindowAction {
    GetName,
    GetClassName,
    GetGeometry,
    GetId,
    GetPid,
    Activate,
    Raise,
    Minimize,
    Close,
    Size { width: Axis, height: Axis },
    Move { relative: bool, x: Axis, y: Axis },
    /// The state changes are held by the step.
    State,
    GetDesktop,
    /// The desktop number, or -1 for the window's current desktop.
    SetDesktop(i32),
}

/// What a global step does.
#[derive(Clone, Copy, Debug, PartialEq, Eq, Structural)]
pub enum GlobalAction {
    GetDesktop,
    SetDesktop(i32),
    GetNumDesktops,
    SetNumDesktops(i32),
    GetMouseLocation { shell: bool },
}

/// One compiled command.
#[derive(Debug)]
pub enum Step {
    Search { query: SearchQuery, pattern: String },
    GetActiveWindow,
    SaveStack(String),
    LoadStack(String),
    OnWindow { target: WindowRef, action: WindowAction, changes: Vec<StateChange> },
    Global(GlobalAction),
}

/// The mathematical form of a step.
pub enum StepView {
    Search { query: SearchQuery, pattern: Seq<char> },
    GetActiveWindow,
    SaveStack(Seq<char>),
    LoadStack(Seq<char>),
    OnWindow { target: WindowRefView, action: WindowAction, changes: Seq<StateChange> },
    Global(GlobalAction),
}

impl View for Step {
    type V = StepView;

    open spec fn view(&self) -> StepView {
        match self {
            Step::Search { query, pattern } => StepView::Search { query: *query, pattern: pattern@ },
            Step::GetActiveWindow => StepView::GetActiveWindow,
            Step::SaveStack(n) => StepView::SaveStack(n@),
            Step::LoadStack(n) => StepView::LoadStack(n@),
            Step::OnWindow { target, action, changes } => StepView::OnWindow {
                target: target@,
                action: *action,
                changes: changes@,
            },
            Step::Global(g) => StepView::Global(*g),
        }
    }
}

/// A query-like step repopulates the window stack.
pub open spec fn is_query(s: StepView) -> bool {
    match s {
        StepView::Search { .. } | StepView::GetActiveWindow | StepView::LoadStack(_) => true,
        StepView::Global(GlobalAction::GetMouseLocation { .. }) => true,
        _ => false,
    }
}

impl Step {
    /// Whether the step repopulates the window stack.
    pub fn is_query(&self) -> (r: bool)
        ensures
            r == is_query(self@),
    {
        match self {
            Step::Search { .. } | Step::GetActiveWindow | Step::LoadStack(_) => true,
            Step::Global(GlobalAction::GetMouseLocation { .. }) => true,
            _ => false,
        }
    }
}

} // verus!
