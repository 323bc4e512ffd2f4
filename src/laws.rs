//! What holds of every compilation, stated over the spec functions that the
//! compiler's contracts use, and proved.
use vstd::prelude::*;
use crate::commands::{
    capabilities_of, command_of, Axis, Capabilities, Command, ErrorKind,
    SearchQuery, StateChange, StepView, WindowAction,
};
use crate::parser::{window_ref_of, WindowRefView};
use crate::script::{
    auto_output, ends_with_query, footer_text, header_text, pipeline_of, program_text,
    steps_text, CompileErrorView, GlobalsView, NamedStepView,
};
use crate::step::{axis_of, build_step, desktop_of, has_name_filter, on_window, with_default_filters, CollectedView};
use crate::templates::{action_text, axis_line, axis_value, geometry_text, index_expr, move_addend};
use crate::text::{i32_of, int_text, is_digit, lemma_i32_text_round_trip, lower_of, nat_text};

verus! {

/// A geometry value survives compilation: an absolute or percentage value
/// read from text is written into its own slot of the fragment as a number
/// that reads back as the same value, and an unchanged axis writes nothing.
pub proof fn law_geometry_round_trip(t: Seq<char>, letter: char, field: Seq<char>, extent: Seq<char>)
    requires
        axis_of(t, letter) is Some,
    ensures
        ({
            let a = axis_of(t, letter)->0;
            match a {
                Axis::Unchanged => axis_line(field, None, a, extent).len() == 0,
                Axis::Absolute(v) => axis_line(field, None, a, extent) == "q."@ + field + " = "@
                    + int_text(v as int) + "; "@ && i32_of(int_text(v as int)) == Some(v),
                Axis::Percent(p) => axis_line(field, None, a, extent) == "q."@ + field + " = "@
                    + ("workspace.virtualScreenSize."@ + extent + " * "@) + int_text(p as int)
                    + " / 100"@ + "; "@ && i32_of(int_text(p as int)) == Some(p),
            }
        }),
{
    let a = axis_of(t, letter)->0;
    match a {
        Axis::Unchanged => {},
        Axis::Absolute(v) => {
            lemma_i32_text_round_trip(v);
            assert(axis_line(field, None, a, extent) =~= "q."@ + field + " = "@ + int_text(v as int)
                + "; "@);
        },
        Axis::Percent(p) => {
            lemma_i32_text_round_trip(p);
            assert(axis_line(field, None, a, extent) =~= "q."@ + field + " = "@ + (
            "workspace.virtualScreenSize."@ + extent + " * "@) + int_text(p as int) + " / 100"@
                + "; "@);
        },
    }
}

/// The addend of one axis of a relative move: the window's own coordinate,
/// where the axis is set at all.
pub open spec fn addend_term(a: Axis, coord: Seq<char>) -> Seq<char> {
    if a == Axis::Unchanged {
        Seq::empty()
    } else {
        "w."@ + coord + " + "@
    }
}

/// A relative move compiles to the fragment of the same absolute move with
/// the window's current coordinate added before each value that is set, and
/// differs from it in nothing else.
pub proof fn law_relative_move_adds_only_addends(caps: Capabilities, x: Axis, y: Axis, cs: Seq<StateChange>)
    ensures
        exists|hx: Seq<char>, tx: Seq<char>, hy: Seq<char>, ty: Seq<char>|
            {
                &&& action_text(caps, WindowAction::Move { relative: false, x, y }, cs)
                    == geometry_text(hx + tx, hy + ty)
                &&& action_text(caps, WindowAction::Move { relative: true, x, y }, cs)
                    == geometry_text(hx + addend_term(x, "x"@) + tx, hy + addend_term(y, "y"@) + ty)
            },
{
    let (hx, tx) = axis_parts("x"@, x, "width"@);
    let (hy, ty) = axis_parts("y"@, y, "height"@);
    lemma_axis_parts("x"@, x, "width"@);
    lemma_axis_parts("y"@, y, "height"@);
    assert(action_text(caps, WindowAction::Move { relative: false, x, y }, cs) == geometry_text(
        hx + tx,
        hy + ty,
    ));
    assert(action_text(caps, WindowAction::Move { relative: true, x, y }, cs) == geometry_text(
        hx + addend_term(x, "x"@) + tx,
        hy + addend_term(y, "y"@) + ty,
    ));
}

/// An axis line cut where the addend of a relative move goes.
pub open spec fn axis_parts(coord: Seq<char>, a: Axis, extent: Seq<char>) -> (Seq<char>, Seq<char>) {
    if a == Axis::Unchanged {
        (Seq::empty(), Seq::empty())
    } else {
        ("q."@ + coord + " = "@, axis_value(a, extent) + "; "@)
    }
}

proof fn lemma_axis_parts(coord: Seq<char>, a: Axis, extent: Seq<char>)
    ensures
        axis_line(coord, None, a, extent) == axis_parts(coord, a, extent).0 + axis_parts(
            coord,
            a,
            extent,
        ).1,
        axis_line(coord, move_addend(true, coord), a, extent) == axis_parts(coord, a, extent).0
            + addend_term(a, coord) + axis_parts(coord, a, extent).1,
{
    let (h, t) = axis_parts(coord, a, extent);
    if a == Axis::Unchanged {
        assert(h + t =~= Seq::<char>::empty());
        assert(h + addend_term(a, coord) + t =~= Seq::<char>::empty());
    } else {
        assert(axis_line(coord, None, a, extent) =~= h + t);
        assert(axis_line(coord, move_addend(true, coord), a, extent) =~= h + addend_term(a, coord)
            + t);
    }
}

/// A search with no name filter asked for matches on all five names
/// (class, class name, role, title, id) and keeps its combinator, "or"
/// unless `--all` was given; one with some name filters keeps exactly those.
pub proof fn law_search_default_filters(q: SearchQuery)
    ensures
        !has_name_filter(q) ==> {
            let d = with_default_filters(q);
            &&& d.match_class && d.match_classname && d.match_role && d.match_name
                && d.match_id
            &&& d.match_all == q.match_all
            &&& d.pid == q.pid && d.desktop == q.desktop && d.screen == q.screen
            &&& d.limit == q.limit && d.match_case == q.match_case
        },
        has_name_filter(q) ==> with_default_filters(q) == q,
{
}

/// `current_desktop`, in any case, compiles to the reserved desktop -1, the
/// window's own desktop, on the window that the step targets.
pub proof fn law_current_desktop_sentinel(c: CollectedView)
    requires
        c.positionals.len() >= 1,
        lower_of(c.positionals[0]) == "current_desktop"@,
    ensures
        desktop_of(c.positionals[0]) == Some(-1i32),
        build_step(Command::SetDesktopForWindow, c) == Ok::<StepView, crate::commands::FailureView>(
            on_window(c, WindowAction::SetDesktop(-1i32)),
        ),
{
}

/// A stack reference counted from the end (`%-n`) selects at run time by
/// the stack's length: the index written is the length minus `n`, with `n`
/// written without a sign, never the negative number itself.
pub proof fn law_stack_index_from_end(s: Seq<char>)
    requires
        window_ref_of(s) matches Some(WindowRefView::StackIndex(n)) && n < 0,
    ensures
        ({
            let n = window_ref_of(s)->0->StackIndex_0;
            &&& index_expr(n) == "window_stack.length - "@ + int_text(-(n as int))
            &&& int_text(-(n as int)) == nat_text((-(n as int)) as nat)
            &&& is_digit(int_text(-(n as int))[0])
        }),
{
    let n = window_ref_of(s)->0->StackIndex_0;
    let m = (-(n as int)) as nat;
    lemma_nat_text_first_digit(m);
}

proof fn lemma_nat_text_first_digit(n: nat)
    ensures
        nat_text(n).len() > 0,
        is_digit(nat_text(n)[0]),
    decreases n,
{
    if n >= 10 {
        lemma_nat_text_first_digit(n / 10);
        assert(nat_text(n)[0] == nat_text(n / 10)[0]);
    } else {
        let d = n as int;
        assert(is_digit(crate::text::digit_char(d)));
    }
}

/// The auto-output fragment follows the steps exactly when the last step
/// is query-like: never after a window action such as `windowclose`, always
/// after `search` or `getactivewindow`.
pub proof fn law_auto_output_after_query(g: GlobalsView, steps: Seq<NamedStepView>)
    ensures
        ends_with_query(steps) ==> program_text(g, steps) == header_text(g) + steps_text(
            capabilities_of(g.kde5),
            steps,
        ) + auto_output() + footer_text(g),
        !ends_with_query(steps) ==> program_text(g, steps) == header_text(g) + steps_text(
            capabilities_of(g.kde5),
            steps,
        ) + footer_text(g),
        steps.len() > 0 && steps.last().step is OnWindow ==> !ends_with_query(steps),
        steps.len() > 0 && (steps.last().step is Search || steps.last().step is GetActiveWindow)
            ==> ends_with_query(steps),
{
    let body = header_text(g) + steps_text(capabilities_of(g.kde5), steps);
    assert(body + Seq::<char>::empty() =~= body);
}

/// A pipeline whose first command is unknown fails with `UnknownCommand`
/// on that name, so no program at all comes of it.
pub proof fn law_unknown_command(caps: Capabilities, args: Seq<Seq<char>>)
    requires
        args.len() > 0,
        command_of(args[0]) is None,
    ensures
        pipeline_of(caps, args) == Err::<Seq<NamedStepView>, CompileErrorView>(
            CompileErrorView { command: args[0], kind: ErrorKind::UnknownCommand, subject: args[0] },
        ),
{
}

} // verus!
