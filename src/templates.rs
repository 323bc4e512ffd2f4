//! The code fragments of the generated script, one spec function per
//! fragment and a function that appends exactly that text.
use vstd::prelude::*;
use crate::commands::{
    Axis, Capabilities, GlobalAction, SearchQuery, StateChange, StateOp, Step, StepView,
    WindowAction, WindowProperty,
};
use crate::parser::{WindowRef, WindowRefView};
use crate::text::{escaped, int_text, push_escaped, push_int};
use vstd::seq_lib::lemma_concat_associative;

verus! {

/// The debug line that opens every step.
pub open spec fn debug_line(name: Seq<char>) -> Seq<char> {
    "\n    output_debug(\"STEP "@ + escaped(name) + "\");\n"@
}

fn push_debug_line(out: &mut String, name: &str)
    ensures
        final(out)@ == old(out)@ + debug_line(name@),
{
    out.append("\n    output_debug(\"STEP ");
    push_escaped(out, name);
    out.append("\");\n");
    assert(out@ =~= old(out)@ + debug_line(name@));
}

/// The index into the stack array that `%n` selects at run time: counted
/// from 1, or from the end for a negative `n`.
pub open spec fn index_expr(n: i32) -> Seq<char> {
    if n < 0 {
        "window_stack.length - "@ + int_text(-(n as int))
    } else {
        int_text(n - 1)
    }
}

fn push_index_expr(out: &mut String, n: i32)
    ensures
        final(out)@ == old(out)@ + index_expr(n),
{
    if n < 0 {
        out.append("window_stack.length - ");
        push_int(out, -(n as i64));
        assert(out@ =~= old(out)@ + index_expr(n));
    } else {
        push_int(out, n as i64 - 1);
    }
}

/// The frame that runs `action` on the window(s) that `target` selects,
/// with the window bound to `w`.
pub open spec fn target_text(target: WindowRefView, action: Seq<char>) -> Seq<char> {
    match target {
        WindowRefView::StackAll => "    for (var i = 0; i < window_stack.length; i++) {\n        var w = window_stack[i];\n        "@
            + action + "\n    }\n"@,
        WindowRefView::StackIndex(n) => "    if (window_stack.length > 0) {\n        var k = "@
            + index_expr(n) + ";\n        if (k < 0 || k >= window_stack.length) {\n            output_error(\"Invalid window stack selection '"@
            + int_text(n as int) + "' (out of range)\");\n        } else {\n            var w = window_stack[k];\n            "@
            + action + "\n        }\n    }\n"@,
        WindowRefView::ExplicitId(id) => "    var t = window_list();\n    for (var i = 0; i < t.length; i++) {\n        var w = t[i];\n        if (w.internalId == \""@
            + escaped(id) + "\") {\n            "@ + action
            + "\n            break;\n        }\n    }\n"@,
    }
}

fn push_target(out: &mut String, target: &WindowRef, action: &str)
    ensures
        final(out)@ == old(out)@ + target_text(target@, action@),
{
    match target {
        WindowRef::StackAll => {
            out.append(
                "    for (var i = 0; i < window_stack.length; i++) {\n        var w = window_stack[i];\n        ",
            );
            out.append(action);
            out.append("\n    }\n");
        },
        WindowRef::StackIndex(n) => {
            out.append("    if (window_stack.length > 0) {\n        var k = ");
            push_index_expr(out, *n);
            out.append(
                ";\n        if (k < 0 || k >= window_stack.length) {\n            output_error(\"Invalid window stack selection '",
            );
            push_int(out, *n as i64);
            out.append(
                "' (out of range)\");\n        } else {\n            var w = window_stack[k];\n            ",
            );
            out.append(action);
            out.append("\n        }\n    }\n");
        },
        WindowRef::ExplicitId(id) => {
            out.append(
                "    var t = window_list();\n    for (var i = 0; i < t.length; i++) {\n        var w = t[i];\n        if (w.internalId == \"",
            );
            push_escaped(out, id.as_str());
            out.append("\") {\n            ");
            out.append(action);
            out.append("\n            break;\n        }\n    }\n");
        },
    }
    assert(out@ =~= old(out)@ + target_text(target@, action@));
}

/// The value that one geometry field is set to.
pub open spec fn axis_value(a: Axis, extent: Seq<char>) -> Seq<char> {
    match a {
        Axis::Percent(p) => "workspace.virtualScreenSize."@ + extent + " * "@ + int_text(p as int)
            + " / 100"@,
        Axis::Absolute(v) => int_text(v as int),
        Axis::Unchanged => Seq::empty(),
    }
}

/// The statement that sets one geometry field, with the window's own
/// coordinate added first when `addend` is given. Nothing for an unchanged
/// field.
pub open spec fn axis_line(field: Seq<char>, addend: Option<Seq<char>>, a: Axis, extent: Seq<char>) -> Seq<char> {
    if a == Axis::Unchanged {
        Seq::empty()
    } else {
        "q."@ + field + " = "@ + (match addend {
            Some(t) => t + " + "@,
            None => Seq::empty(),
        }) + axis_value(a, extent) + "; "@
    }
}

fn push_axis_line(out: &mut String, field: &str, addend: Option<&str>, a: Axis, extent: &str)
    ensures
        final(out)@ == old(out)@ + axis_line(
            field@,
            match addend {
                Some(t) => Some(t@),
                None => None,
            },
            a,
            extent@,
        ),
{
    if a == Axis::Unchanged {
        assert(out@ =~= old(out)@ + Seq::<char>::empty());
        return;
    }
    out.append("q.");
    out.append(field);
    out.append(" = ");
    if let Some(t) = addend {
        out.append(t);
        out.append(" + ");
    }
    match a {
        Axis::Percent(p) => {
            out.append("workspace.virtualScreenSize.");
            out.append(extent);
            out.append(" * ");
            push_int(out, p as i64);
            out.append(" / 100");
        },
        Axis::Absolute(v) => push_int(out, v as i64),
        Axis::Unchanged => {},
    }
    out.append("; ");
    assert(out@ =~= old(out)@ + axis_line(
        field@,
        match addend {
            Some(t) => Some(t@),
            None => None,
        },
        a,
        extent@,
    ));
}

/// The geometry statements of `windowmove` and `windowsize`.
pub open spec fn geometry_text(a: Seq<char>, b: Seq<char>) -> Seq<char> {
    "var q = Object.assign({}, w.frameGeometry); "@ + a + b + "w.frameGeometry = q;"@
}

/// The coordinate added to a relative move of `x` (or `y`).
pub open spec fn move_addend(relative: bool, coord: Seq<char>) -> Option<Seq<char>> {
    if relative {
        Some("w."@ + coord)
    } else {
        None
    }
}

/// The script property that a window property is.
pub open spec fn property_text(p: WindowProperty) -> Seq<char> {
    match p {
        WindowProperty::Above => "keepAbove"@,
        WindowProperty::Below => "keepBelow"@,
        WindowProperty::SkipTaskbar => "skipTaskbar"@,
        WindowProperty::SkipPager => "skipPager"@,
        WindowProperty::FullScreen => "fullScreen"@,
        WindowProperty::Shaded => "shade"@,
        WindowProperty::DemandsAttention => "demandsAttention"@,
    }
}

fn property_str(p: WindowProperty) -> (r: &'static str)
    ensures
        r@ == property_text(p),
{
    match p {
        WindowProperty::Above => "keepAbove",
        WindowProperty::Below => "keepBelow",
        WindowProperty::SkipTaskbar => "skipTaskbar",
        WindowProperty::SkipPager => "skipPager",
        WindowProperty::FullScreen => "fullScreen",
        WindowProperty::Shaded => "shade",
        WindowProperty::DemandsAttention => "demandsAttention",
    }
}

/// The statement of one state change.
pub open spec fn change_text(c: StateChange) -> Seq<char> {
    let p = property_text(c.property);
    match c.op {
        StateOp::Add => "w."@ + p + " = true; "@,
        StateOp::Remove => "w."@ + p + " = false; "@,
        StateOp::Toggle => "w."@ + p + " = !w."@ + p + "; "@,
    }
}

/// The statements of the state changes, in the order they were given.
pub open spec fn changes_text(cs: Seq<StateChange>) -> Seq<char>
    decreases cs.len(),
{
    if cs.len() == 0 {
        Seq::empty()
    } else {
        changes_text(cs.drop_last()) + change_text(cs.last())
    }
}

fn push_changes(out: &mut String, cs: &Vec<StateChange>)
    ensures
        final(out)@ == old(out)@ + changes_text(cs@),
{
    let mut i: usize = 0;
    while i < cs.len()
        invariant
            0 <= i <= cs@.len(),
            out@ == old(out)@ + changes_text(cs@.subrange(0, i as int)),
        decreases cs@.len() - i,
    {
        let c = cs[i];
        let ghost before = out@;
        let p = property_str(c.property);
        out.append("w.");
        out.append(p);
        match c.op {
            StateOp::Add => out.append(" = true; "),
            StateOp::Remove => out.append(" = false; "),
            StateOp::Toggle => {
                out.append(" = !w.");
                out.append(p);
                out.append("; ");
            },
        }
        proof {
            assert(out@ =~= before + change_text(c));
            assert(cs@.subrange(0, i + 1).drop_last() =~= cs@.subrange(0, i as int));
            assert(out@ =~= old(out)@ + changes_text(cs@.subrange(0, i + 1)));
        }
        i = i + 1;
    }
    assert(cs@.subrange(0, i as int) =~= cs@);
}

/// Moving a window to a numbered desktop.
pub open spec fn set_desktop_text(caps: Capabilities, subject: Seq<char>, d: i32) -> Seq<char> {
    if caps.legacy_api {
        subject + ".desktop = "@ + int_text(d as int) + ";"@
    } else {
        "var desktops = workspace.desktops; for (var j = 0; j < desktops.length; j++) { if (desktops[j].x11DesktopNumber == "@
            + int_text(d as int) + ") { "@ + subject + ".desktops = [desktops[j]]; break; } }"@
    }
}

/// The statements that a window action runs on `w`.
pub open spec fn action_text(caps: Capabilities, a: WindowAction, changes: Seq<StateChange>) -> Seq<
    char,
> {
    match a {
        WindowAction::GetName => "output_result(w.caption);"@,
        WindowAction::GetClassName => "output_result(w.resourceClass);"@,
        WindowAction::GetGeometry => "output_result(\"Window \" + w.internalId); output_result(\"  Position: \" + w.x + \",\" + w.y"@
            + (if caps.window_screen {
            " + \" (screen: \" + w.screen + \")\""@
        } else {
            Seq::empty()
        }) + "); output_result(\"  Geometry: \" + w.width + \"x\" + w.height);"@,
        WindowAction::GetId => "output_result(w.internalId);"@,
        WindowAction::GetPid => "output_result(w.pid);"@,
        WindowAction::Activate => "activate_window(w);"@,
        WindowAction::Raise => if caps.raise_window {
            "workspace.raiseWindow(w);"@
        } else {
            "output_error(\"windowraise unsupported in KDE 5\");"@
        },
        WindowAction::Minimize => "w.minimized = true;"@,
        WindowAction::Close => "w.closeWindow();"@,
        WindowAction::Size { width, height } => geometry_text(
            axis_line("width"@, None, width, "width"@),
            axis_line("height"@, None, height, "height"@),
        ),
        WindowAction::Move { relative, x, y } => geometry_text(
            axis_line("x"@, move_addend(relative, "x"@), x, "width"@),
            axis_line("y"@, move_addend(relative, "y"@), y, "height"@),
        ),
        WindowAction::State => changes_text(changes),
        WindowAction::GetDesktop => if caps.legacy_api {
            "output_result(w.desktop);"@
        } else {
            "output_result(w.desktops[0].x11DesktopNumber);"@
        },
        WindowAction::SetDesktop(d) => set_desktop_text(caps, "w"@, d),
    }
}

fn push_set_desktop(out: &mut String, caps: Capabilities, subject: &str, d: i32)
    ensures
        final(out)@ == old(out)@ + set_desktop_text(caps, subject@, d),
{
    if caps.legacy_api {
        out.append(subject);
        out.append(".desktop = ");
        push_int(out, d as i64);
        out.append(";");
    } else {
        out.append(
            "var desktops = workspace.desktops; for (var j = 0; j < desktops.length; j++) { if (desktops[j].x11DesktopNumber == ",
        );
        push_int(out, d as i64);
        out.append(") { ");
        out.append(subject);
        out.append(".desktops = [desktops[j]]; break; } }");
    }
    assert(out@ =~= old(out)@ + set_desktop_text(caps, subject@, d));
}

fn push_action(out: &mut String, caps: Capabilities, a: WindowAction, changes: &Vec<StateChange>)
    ensures
        final(out)@ == old(out)@ + action_text(caps, a, changes@),
{
    match a {
        WindowAction::GetName => out.append("output_result(w.caption);"),
        WindowAction::GetClassName => out.append("output_result(w.resourceClass);"),
        WindowAction::GetGeometry => {
            out.append(
                "output_result(\"Window \" + w.internalId); output_result(\"  Position: \" + w.x + \",\" + w.y",
            );
            if caps.window_screen {
                out.append(" + \" (screen: \" + w.screen + \")\"");
            }
            out.append("); output_result(\"  Geometry: \" + w.width + \"x\" + w.height);");
        },
        WindowAction::GetId => out.append("output_result(w.internalId);"),
        WindowAction::GetPid => out.append("output_result(w.pid);"),
        WindowAction::Activate => out.append("activate_window(w);"),
        WindowAction::Raise => {
            if caps.raise_window {
                out.append("workspace.raiseWindow(w);");
            } else {
                out.append("output_error(\"windowraise unsupported in KDE 5\");");
            }
        },
        WindowAction::Minimize => out.append("w.minimized = true;"),
        WindowAction::Close => out.append("w.closeWindow();"),
        WindowAction::Size { width, height } => {
            out.append("var q = Object.assign({}, w.frameGeometry); ");
            push_axis_line(out, "width", None, width, "width");
            push_axis_line(out, "height", None, height, "height");
            out.append("w.frameGeometry = q;");
        },
        WindowAction::Move { relative, x, y } => {
            out.append("var q = Object.assign({}, w.frameGeometry); ");
            push_axis_line(out, "x", if relative { Some("w.x") } else { None }, x, "width");
            push_axis_line(out, "y", if relative { Some("w.y") } else { None }, y, "height");
            out.append("w.frameGeometry = q;");
            proof {
                reveal_strlit("w.x");
                reveal_strlit("w.y");
                reveal_strlit("w.");
                reveal_strlit("x");
                reveal_strlit("y");
            }
        },
        WindowAction::State => push_changes(out, changes),
        WindowAction::GetDesktop => {
            if caps.legacy_api {
                out.append("output_result(w.desktop);");
            } else {
                out.append("output_result(w.desktops[0].x11DesktopNumber);");
            }
        },
        WindowAction::SetDesktop(d) => push_set_desktop(out, caps, "w", d),
    }
    assert(out@ =~= old(out)@ + action_text(caps, a, changes@));
}

/// The statements of a global action.
pub open spec fn global_text(caps: Capabilities, g: GlobalAction) -> Seq<char> {
    match g {
        GlobalAction::GetDesktop => if caps.legacy_api {
            "output_result(workspace.currentDesktop);"@
        } else {
            "output_result(workspace.currentDesktop.x11DesktopNumber);"@
        },
        GlobalAction::SetDesktop(n) => if caps.legacy_api {
            "workspace.currentDesktop = "@ + int_text(n as int) + ";"@
        } else {
            "var desktops = workspace.desktops; for (var j = 0; j < desktops.length; j++) { if (desktops[j].x11DesktopNumber == "@
                + int_text(n as int) + ") { workspace.currentDesktop = desktops[j]; break; } }"@
        },
        GlobalAction::GetNumDesktops => if caps.legacy_api {
            "output_result(workspace.desktops);"@
        } else {
            "output_result(workspace.desktops.length);"@
        },
        GlobalAction::SetNumDesktops(n) => if caps.set_num_desktops {
            "workspace.desktops = "@ + int_text(n as int) + ";"@
        } else {
            "output_error(\"set_num_desktops unsupported in KDE 6\");"@
        },
        GlobalAction::GetMouseLocation { shell } => "var p = workspace.cursorPos; var t = window_list(); window_stack = []; for (var i = t.length - 1; i >= 0; i--) { var w = t[i]; if (p.x >= w.x && p.x < w.x + w.width && p.y >= w.y && p.y < w.y + w.height) { window_stack = [w]; break; } } var id = window_stack.length > 0 ? window_stack[0].internalId : \"\"; "@
            + if shell {
            "output_result(\"X=\" + p.x); output_result(\"Y=\" + p.y); output_result(\"WINDOW=\" + id);"@
        } else {
            "output_result(\"x:\" + p.x + \" y:\" + p.y + \" window:\" + id);"@
        },
    }
}

fn push_global(out: &mut String, caps: Capabilities, g: GlobalAction)
    ensures
        final(out)@ == old(out)@ + global_text(caps, g),
{
    match g {
        GlobalAction::GetDesktop => {
            if caps.legacy_api {
                out.append("output_result(workspace.currentDesktop);");
            } else {
                out.append("output_result(workspace.currentDesktop.x11DesktopNumber);");
            }
        },
        GlobalAction::SetDesktop(n) => {
            if caps.legacy_api {
                out.append("workspace.currentDesktop = ");
                push_int(out, n as i64);
                out.append(";");
            } else {
                out.append(
                    "var desktops = workspace.desktops; for (var j = 0; j < desktops.length; j++) { if (desktops[j].x11DesktopNumber == ",
                );
                push_int(out, n as i64);
                out.append(") { workspace.currentDesktop = desktops[j]; break; } }");
            }
        },
        GlobalAction::GetNumDesktops => {
            if caps.legacy_api {
                out.append("output_result(workspace.desktops);");
            } else {
                out.append("output_result(workspace.desktops.length);");
            }
        },
        GlobalAction::SetNumDesktops(n) => {
            if caps.set_num_desktops {
                out.append("workspace.desktops = ");
                push_int(out, n as i64);
                out.append(";");
            } else {
                out.append("output_error(\"set_num_desktops unsupported in KDE 6\");");
            }
        },
        GlobalAction::GetMouseLocation { shell } => {
            out.append(
                "var p = workspace.cursorPos; var t = window_list(); window_stack = []; for (var i = t.length - 1; i >= 0; i--) { var w = t[i]; if (p.x >= w.x && p.x < w.x + w.width && p.y >= w.y && p.y < w.y + w.height) { window_stack = [w]; break; } } var id = window_stack.length > 0 ? window_stack[0].internalId : \"\"; ",
            );
            if shell {
                out.append(
                    "output_result(\"X=\" + p.x); output_result(\"Y=\" + p.y); output_result(\"WINDOW=\" + id);",
                );
            } else {
                out.append("output_result(\"x:\" + p.x + \" y:\" + p.y + \" window:\" + id);");
            }
        },
    }
    assert(out@ =~= old(out)@ + global_text(caps, g));
}

/// One name filter of a search, joined to the ones before it.
pub open spec fn name_filter(on: bool, all: bool, test: Seq<char>) -> Seq<char> {
    if on {
        (if all {
            " && "@
        } else {
            " || "@
        }) + test
    } else {
        Seq::empty()
    }
}

/// The name filters of a search, combined with "and" or "or".
pub open spec fn name_filters(q: SearchQuery) -> Seq<char> {
    (if q.match_all {
        "true"@
    } else {
        "false"@
    }) + name_filter(q.match_class, q.match_all, "w.resourceClass.search(re) >= 0"@) + name_filter(
        q.match_classname,
        q.match_all,
        "w.resourceName.search(re) >= 0"@,
    ) + name_filter(q.match_role, q.match_all, "w.windowRole.search(re) >= 0"@) + name_filter(
        q.match_name,
        q.match_all,
        "w.caption.search(re) >= 0"@,
    ) + name_filter(q.match_id, q.match_all, "String(w.internalId).search(re) >= 0"@)
}

fn push_name_filter(out: &mut String, on: bool, all: bool, test: &str)
    ensures
        final(out)@ == old(out)@ + name_filter(on, all, test@),
{
    if on {
        if all {
            out.append(" && ");
        } else {
            out.append(" || ");
        }
        out.append(test);
    }
    assert(out@ =~= old(out)@ + name_filter(on, all, test@));
}

/// The process filter of a search.
pub open spec fn pid_filter(q: SearchQuery) -> Seq<char> {
    match q.pid {
        Some(pid) => "        if (w.pid != "@ + int_text(pid as int) + ") continue;\n"@,
        None => Seq::empty(),
    }
}

/// The desktop filter of a search.
pub open spec fn desktop_filter(caps: Capabilities, q: SearchQuery) -> Seq<char> {
    match q.desktop {
        Some(d) => if caps.legacy_api {
            "        if (w.desktop != "@ + int_text(d as int) + ") continue;\n"@
        } else {
            "        if (!w.desktops.some(function (d) { return d.x11DesktopNumber == "@ + int_text(
                d as int,
            ) + "; })) continue;\n"@
        },
        None => Seq::empty(),
    }
}

/// The screen filter of a search, where windows know their screen.
pub open spec fn screen_filter(caps: Capabilities, q: SearchQuery) -> Seq<char> {
    match q.screen {
        Some(s) => if caps.window_screen {
            "        if (w.screen != "@ + int_text(s as int) + ") continue;\n"@
        } else {
            Seq::empty()
        },
        None => Seq::empty(),
    }
}

/// What opens a `search` step, up to its name filters.
pub open spec fn search_intro(caps: Capabilities, q: SearchQuery, pattern: Seq<char>) -> Seq<char> {
    (if q.screen is Some && !caps.window_screen {
        "    output_error(\"search --screen unsupported in KDE 6\");\n"@
    } else {
        Seq::empty()
    }) + "    var re = new RegExp(\""@ + escaped(pattern) + "\", \""@ + (if q.match_case {
        Seq::empty()
    } else {
        "i"@
    }) + "\");\n    var t = window_list();\n    window_stack = [];\n    for (var i = 0; i < t.length; i++) {\n        var w = t[i];\n        if (!("@
}

/// What closes a `search` step after its name filters: the filters that
/// apply whatever the combinator (process, desktop, screen), and the limit.
pub open spec fn search_tail(caps: Capabilities, q: SearchQuery) -> Seq<char> {
    ")) continue;\n"@ + pid_filter(q) + desktop_filter(caps, q) + screen_filter(caps, q)
        + "        window_stack.push(w);\n"@ + (if q.limit > 0 {
        "        if (window_stack.length >= "@ + int_text(q.limit as int) + ") break;\n"@
    } else {
        Seq::empty()
    }) + "    }\n"@
}

/// A `search` step: fills the stack with the matching windows.
pub open spec fn search_text(caps: Capabilities, q: SearchQuery, pattern: Seq<char>) -> Seq<char> {
    search_intro(caps, q, pattern) + name_filters(q) + search_tail(caps, q)
}

fn push_pid_filter(out: &mut String, q: SearchQuery)
    ensures
        final(out)@ == old(out)@ + pid_filter(q),
{
    if let Some(pid) = q.pid {
        out.append("        if (w.pid != ");
        push_int(out, pid as i64);
        out.append(") continue;\n");
    }
    assert(out@ =~= old(out)@ + pid_filter(q));
}

fn push_desktop_filter(out: &mut String, caps: Capabilities, q: SearchQuery)
    ensures
        final(out)@ == old(out)@ + desktop_filter(caps, q),
{
    if let Some(d) = q.desktop {
        if caps.legacy_api {
            out.append("        if (w.desktop != ");
            push_int(out, d as i64);
            out.append(") continue;\n");
        } else {
            out.append(
                "        if (!w.desktops.some(function (d) { return d.x11DesktopNumber == ",
            );
            push_int(out, d as i64);
            out.append("; })) continue;\n");
        }
    }
    assert(out@ =~= old(out)@ + desktop_filter(caps, q));
}

fn push_screen_filter(out: &mut String, caps: Capabilities, q: SearchQuery)
    ensures
        final(out)@ == old(out)@ + screen_filter(caps, q),
{
    if let Some(s) = q.screen {
        if caps.window_screen {
            out.append("        if (w.screen != ");
            push_int(out, s as i64);
            out.append(") continue;\n");
        }
    }
    assert(out@ =~= old(out)@ + screen_filter(caps, q));
}

fn push_search_intro(out: &mut String, caps: Capabilities, q: SearchQuery, pattern: &str)
    ensures
        final(out)@ == old(out)@ + search_intro(caps, q, pattern@),
{
    if q.screen.is_some() && !caps.window_screen {
        out.append("    output_error(\"search --screen unsupported in KDE 6\");\n");
    }
    out.append("    var re = new RegExp(\"");
    push_escaped(out, pattern);
    out.append("\", \"");
    if !q.match_case {
        out.append("i");
    }
    out.append(
        "\");\n    var t = window_list();\n    window_stack = [];\n    for (var i = 0; i < t.length; i++) {\n        var w = t[i];\n        if (!(",
    );
    assert(out@ =~= old(out)@ + search_intro(caps, q, pattern@));
}

fn push_name_filters(out: &mut String, q: SearchQuery)
    ensures
        final(out)@ == old(out)@ + name_filters(q),
{
    if q.match_all {
        out.append("true");
    } else {
        out.append("false");
    }
    let ghost s0 = out@;
    push_name_filter(out, q.match_class, q.match_all, "w.resourceClass.search(re) >= 0");
    let ghost s1 = out@;
    push_name_filter(out, q.match_classname, q.match_all, "w.resourceName.search(re) >= 0");
    let ghost s2 = out@;
    push_name_filter(out, q.match_role, q.match_all, "w.windowRole.search(re) >= 0");
    let ghost s3 = out@;
    push_name_filter(out, q.match_name, q.match_all, "w.caption.search(re) >= 0");
    let ghost s4 = out@;
    push_name_filter(out, q.match_id, q.match_all, "String(w.internalId).search(re) >= 0");
    proof {
        let head = if q.match_all { "true"@ } else { "false"@ };
        let f1 = name_filter(q.match_class, q.match_all, "w.resourceClass.search(re) >= 0"@);
        let f2 = name_filter(q.match_classname, q.match_all, "w.resourceName.search(re) >= 0"@);
        let f3 = name_filter(q.match_role, q.match_all, "w.windowRole.search(re) >= 0"@);
        let f4 = name_filter(q.match_name, q.match_all, "w.caption.search(re) >= 0"@);
        let f5 = name_filter(q.match_id, q.match_all, "String(w.internalId).search(re) >= 0"@);
        let o = old(out)@;
        lemma_concat_associative(o, head, f1);
        lemma_concat_associative(o, head + f1, f2);
        lemma_concat_associative(o, head + f1 + f2, f3);
        lemma_concat_associative(o, head + f1 + f2 + f3, f4);
        lemma_concat_associative(o, head + f1 + f2 + f3 + f4, f5);
    }
}

fn push_search_tail(out: &mut String, caps: Capabilities, q: SearchQuery)
    ensures
        final(out)@ == old(out)@ + search_tail(caps, q),
{
    out.append(")) continue;\n");
    push_pid_filter(out, q);
    push_desktop_filter(out, caps, q);
    push_screen_filter(out, caps, q);
    out.append("        window_stack.push(w);\n");
    if q.limit > 0 {
        out.append("        if (window_stack.length >= ");
        push_int(out, q.limit as i64);
        out.append(") break;\n");
    }
    out.append("    }\n");
    assert(out@ =~= old(out)@ + search_tail(caps, q));
}

fn push_search(out: &mut String, caps: Capabilities, q: SearchQuery, pattern: &str)
    ensures
        final(out)@ == old(out)@ + search_text(caps, q, pattern@),
{
    push_search_intro(out, caps, q, pattern);
    push_name_filters(out, q);
    push_search_tail(out, caps, q);
    assert(out@ =~= old(out)@ + search_text(caps, q, pattern@));
}

/// The fragment of one step; `name` is the command as it was written.
pub open spec fn step_text(caps: Capabilities, name: Seq<char>, s: StepView) -> Seq<char> {
    debug_line(name) + match s {
        StepView::Search { query, pattern } => search_text(caps, query, pattern),
        StepView::GetActiveWindow => "    window_stack = [active_window()];\n"@,
        StepView::SaveStack(n) => "    saved_stacks[\""@ + escaped(n) + "\"] = window_stack;\n"@,
        StepView::LoadStack(n) => "    window_stack = saved_stacks[\""@ + escaped(n)
            + "\"] || [];\n"@,
        StepView::OnWindow { target, action, changes } => target_text(
            target,
            action_text(caps, action, changes),
        ),
        StepView::Global(g) => "    "@ + global_text(caps, g) + "\n"@,
    }
}

/// Appends the fragment of one step.
pub fn push_step(out: &mut String, caps: Capabilities, name: &str, s: &Step)
    ensures
        final(out)@ == old(out)@ + step_text(caps, name@, s@),
{
    push_debug_line(out, name);
    let ghost mid = out@;
    match s {
        Step::Search { query, pattern } => push_search(out, caps, *query, pattern.as_str()),
        Step::GetActiveWindow => out.append("    window_stack = [active_window()];\n"),
        Step::SaveStack(n) => {
            out.append("    saved_stacks[\"");
            push_escaped(out, n.as_str());
            out.append("\"] = window_stack;\n");
        },
        Step::LoadStack(n) => {
            out.append("    window_stack = saved_stacks[\"");
            push_escaped(out, n.as_str());
            out.append("\"] || [];\n");
        },
        Step::OnWindow { target, action, changes } => {
            let mut a = String::new();
            push_action(&mut a, caps, *action, changes);
            assert(a@ =~= action_text(caps, *action, changes@));
            push_target(out, target, a.as_str());
        },
        Step::Global(g) => {
            out.append("    ");
            push_global(out, caps, *g);
            out.append("\n");
        },
    }
    assert(out@ =~= old(out)@ + step_text(caps, name@, s@));
}

} // verus!
