//! The token reader over the argument vector, and the window-reference
//! resolver.
use vstd::prelude::*;
use crate::commands::{failure, ErrorKind, Failure};
use crate::text::{i32_of, is_digit, parse_i32};

verus! {

/// An argument that names an option: a dash, then anything but a digit
/// (`-c`, `--class`, `--pid=5`). A dash before a digit starts a number.
pub open spec fn is_option_text(s: Seq<char>) -> bool {
    s.len() >= 2 && s[0] == '-' && !is_digit(s[1])
}

/// An argument that is a negative number's text rather than an option.
pub open spec fn is_number_text(s: Seq<char>) -> bool {
    s.len() >= 2 && s[0] == '-' && is_digit(s[1])
}

/// The position of the first `=` at or after `i`, or the length.
pub open spec fn find_eq(s: Seq<char>, i: int) -> int
    decreases s.len() - i,
{
    if i >= s.len() {
        s.len() as int
    } else if s[i] == '=' {
        i
    } else {
        find_eq(s, i + 1)
    }
}

/// Whether the option is long (`--name`).
pub open spec fn is_long_option(s: Seq<char>) -> bool {
    s[1] == '-'
}

/// The option's name with its dashes: `--pid` of `--pid=42`, `-p` of `-p42`.
pub open spec fn option_name(s: Seq<char>) -> Seq<char> {
    if is_long_option(s) {
        s.subrange(0, find_eq(s, 2))
    } else {
        s.subrange(0, 2)
    }
}

/// The value written inside the option's own argument, if any: what follows
/// the first `=` of a long option, or what follows the letter of a short one.
pub open spec fn option_inline(s: Seq<char>) -> Option<Seq<char>> {
    if is_long_option(s) {
        let e = find_eq(s, 2);
        if e < s.len() {
            Some(s.subrange(e + 1, s.len() as int))
        } else {
            None
        }
    } else if s.len() > 2 {
        Some(s.subrange(2, s.len() as int))
    } else {
        None
    }
}

/// One token of the argument vector.
#[derive(Debug)]
pub enum Token {
    Opt { name: String, inline: Option<String> },
    Value(String),
}

/// The mathematical form of a token.
pub enum TokenView {
    Opt { name: Seq<char>, inline: Option<Seq<char>> },
    Value(Seq<char>),
}

pub open spec fn opt_view(o: Option<String>) -> Option<Seq<char>> {
    match o {
        Some(s) => Some(s@),
        None => None,
    }
}

impl View for Token {
    type V = TokenView;

    open spec fn view(&self) -> TokenView {
        match self {
            Token::Opt { name, inline } => TokenView::Opt { name: name@, inline: opt_view(*inline) },
            Token::Value(v) => TokenView::Value(v@),
        }
    }
}

/// How one argument reads as a token.
pub open spec fn token_of(s: Seq<char>) -> TokenView {
    if is_option_text(s) {
        TokenView::Opt { name: option_name(s), inline: option_inline(s) }
    } else {
        TokenView::Value(s)
    }
}

/// The arguments as texts.
pub open spec fn texts(args: Seq<String>) -> Seq<Seq<char>> {
    args.map_values(|s: String| s@)
}

/// The token reader: the argument vector and the position of the next
/// argument to read.
pub struct Parser {
    pub args: Vec<String>,
    pub pos: usize,
}

impl Parser {
    /// The arguments as texts.
    pub open spec fn items(&self) -> Seq<Seq<char>> {
        texts(self.args@)
    }

    /// A reader positioned at the first argument.
    pub fn new(args: Vec<String>) -> (r: Parser)
        ensures
            r.args@ == args@,
            r.pos == 0,
    {
        Parser { args, pos: 0 }
    }
}

proof fn lemma_find_eq_skip(s: Seq<char>, k: int, i: int)
    requires
        0 <= k <= i <= s.len(),
        forall|j: int| k <= j < i ==> s[j] != '=',
    ensures
        find_eq(s, k) == find_eq(s, i),
    decreases i - k,
{
    if k < i {
        lemma_find_eq_skip(s, k + 1, i);
    }
}

/// Splits an option argument into its name and inline value.
pub fn option_parts(s: &str) -> (r: (String, Option<String>))
    requires
        is_option_text(s@),
    ensures
        r.0@ == option_name(s@),
        opt_view(r.1) == option_inline(s@),
{
    let n = s.unicode_len();
    if s.get_char(1) == '-' {
        let mut i: usize = 2;
        while i < n && s.get_char(i) != '='
            invariant
                n == s@.len(),
                2 <= i <= n,
                forall|j: int| 2 <= j < i ==> s@[j] != '=',
            decreases n - i,
        {
            i = i + 1;
        }
        proof {
            lemma_find_eq_skip(s@, 2, i as int);
        }
        let name = s.substring_char(0, i).to_owned();
        if i < n {
            (name, Some(s.substring_char(i + 1, n).to_owned()))
        } else {
            (name, None)
        }
    } else {
        let name = s.substring_char(0, 2).to_owned();
        if n > 2 {
            (name, Some(s.substring_char(2, n).to_owned()))
        } else {
            (name, None)
        }
    }
}

/// Whether the argument reads as an option.
pub fn is_option(s: &str) -> (r: bool)
    ensures
        r == is_option_text(s@),
{
    if s.unicode_len() < 2 || s.get_char(0) != '-' {
        return false;
    }
    let c = s.get_char(1);
    !('0' <= c && c <= '9')
}

/// Reads one argument as a token.
pub fn read_token(s: &str) -> (r: Token)
    ensures
        r@ == token_of(s@),
{
    if is_option(s) {
        let (name, inline) = option_parts(s);
        Token::Opt { name, inline }
    } else {
        Token::Value(s.to_owned())
    }
}

/// Takes the next argument when it is a negative number's text (`-5`), so
/// that it is read as a value and not as an option.
pub fn try_get_number(parser: &mut Parser) -> (r: Option<String>)
    ensures
        final(parser).args == old(parser).args,
        ({
            let at = old(parser).pos as int;
            let items = old(parser).items();
            if at < items.len() && is_number_text(items[at]) {
                r is Some && r->0@ == items[at] && final(parser).pos == at + 1
            } else {
                r is None && final(parser).pos == at
            }
        }),
{
    if parser.pos < parser.args.len() {
        let s = parser.args[parser.pos].as_str();
        if s.unicode_len() >= 2 && s.get_char(0) == '-' {
            let c = s.get_char(1);
            if '0' <= c && c <= '9' {
                let v = s.to_owned();
                parser.pos = parser.pos + 1;
                return Some(v);
            }
        }
    }
    None
}

/// Reads the next token, taking a negative number's text as a value.
pub fn next_maybe_num(parser: &mut Parser) -> (r: Option<Token>)
    ensures
        final(parser).args == old(parser).args,
        ({
            let at = old(parser).pos as int;
            let items = old(parser).items();
            if at < items.len() {
                r is Some && r->0@ == token_of(items[at]) && final(parser).pos == at + 1
            } else {
                r is None && final(parser).pos == at
            }
        }),
{
    if let Some(number) = try_get_number(parser) {
        return Some(Token::Value(number));
    }
    if parser.pos < parser.args.len() {
        let t = read_token(parser.args[parser.pos].as_str());
        parser.pos = parser.pos + 1;
        Some(t)
    } else {
        None
    }
}

/// Takes the next argument, whatever it looks like, as a required signed
/// number named `name`.
pub fn positional(parser: &mut Parser, name: &str) -> (r: Result<i32, Failure>)
    ensures
        final(parser).args == old(parser).args,
        ({
            let at = old(parser).pos as int;
            let items = old(parser).items();
            if at < items.len() {
                &&& final(parser).pos == at + 1
                &&& match i32_of(items[at]) {
                    Some(n) => r == Ok::<i32, Failure>(n),
                    None => r is Err && r->Err_0@ == failure(ErrorKind::InvalidValue, items[at]),
                }
            } else {
                &&& final(parser).pos == at
                &&& r is Err && r->Err_0@ == failure(ErrorKind::MissingArgument, name@)
            }
        }),
{
    if parser.pos < parser.args.len() {
        let at = parser.pos;
        parser.pos = at + 1;
        let text = parser.args[at].as_str();
        match parse_i32(text) {
            Some(n) => Ok(n),
            None => Err(Failure { kind: ErrorKind::InvalidValue, subject: text.to_owned() }),
        }
    } else {
        Err(Failure { kind: ErrorKind::MissingArgument, subject: name.to_owned() })
    }
}

/// Which window a command acts on.
#[derive(Debug)]
pub enum WindowRef {
    /// Every window of the stack (`%@`).
    StackAll,
    /// One item of the stack, counted from 1; a negative index counts from
    /// the end (`%N`).
    StackIndex(i32),
    /// A window named by its id (`{...}`).
    ExplicitId(String),
}

/// The mathematical form of a window reference.
pub enum WindowRefView {
    StackAll,
    StackIndex(i32),
    ExplicitId(Seq<char>),
}

impl View for WindowRef {
    type V = WindowRefView;

    open spec fn view(&self) -> WindowRefView {
        match self {
            WindowRef::StackAll => WindowRefView::StackAll,
            WindowRef::StackIndex(i) => WindowRefView::StackIndex(*i),
            WindowRef::ExplicitId(s) => WindowRefView::ExplicitId(s@),
        }
    }
}

/// The window reference that a token designates, if it designates one.
pub open spec fn window_ref_of(s: Seq<char>) -> Option<WindowRefView> {
    if s == seq!['%', '@'] {
        Some(WindowRefView::StackAll)
    } else if s.len() > 0 && s[0] == '%' && i32_of(s.subrange(1, s.len() as int)) is Some {
        Some(WindowRefView::StackIndex(i32_of(s.subrange(1, s.len() as int))->0))
    } else if s.len() > 0 && s[0] == '{' {
        Some(WindowRefView::ExplicitId(s))
    } else {
        None
    }
}

/// Resolves a token into a window reference.
pub fn parse_window_ref(s: &str) -> (r: Option<WindowRef>)
    ensures
        match r {
            Some(w) => window_ref_of(s@) == Some(w@),
            None => window_ref_of(s@) is None,
        },
{
    let n = s.unicode_len();
    if n == 0 {
        return None;
    }
    let c = s.get_char(0);
    if c == '%' {
        if n == 2 && s.get_char(1) == '@' {
            assert(s@ =~= seq!['%', '@']);
            return Some(WindowRef::StackAll);
        }
        assert(s@ != seq!['%', '@']);
        match parse_i32(s.substring_char(1, n)) {
            Some(i) => Some(WindowRef::StackIndex(i)),
            None => None,
        }
    } else if c == '{' {
        Some(WindowRef::ExplicitId(s.to_owned()))
    } else {
        None
    }
}

/// The token itself when it designates a window (`%@`, `%N` or `{...}`).
pub fn to_window_id(s: &str) -> (r: Option<String>)
    ensures
        match r {
            Some(id) => window_ref_of(s@) is Some && id@ == s@,
            None => window_ref_of(s@) is None,
        },
{
    match parse_window_ref(s) {
        Some(_) => Some(s.to_owned()),
        None => None,
    }
}

} // verus!
