//! What the supervisor prints: one report for each step, rendered as lines.

use vstd::prelude::*;
use vstd::string::StringExecFns;

verus! {

/// What a step of the supervisor has to say.
#[derive(Clone, Copy, Debug, PartialEq, Eq, Structural)]
pub enum Report {
    /// Nothing to print.
    Silent,
    /// The exported functions were called: `foo` returned `foo`, and `bar`
    /// returned the value in `bar`, or is not defined where that is `None`.
    Tick { generation: u32, foo: i32, bar: Option<i32> },
    /// The backing file changed and the library is about to be reloaded.
    Reloading,
}

/// The character of one decimal digit.
pub open spec fn digit(d: int) -> char
    recommends
        0 <= d < 10,
{
    seq!['0', '1', '2', '3', '4', '5', '6', '7', '8', '9'][d]
}

/// The decimal digits of a natural number, most significant first, without
/// leading zeros.
pub open spec fn digits(n: nat) -> Seq<char>
    decreases n,
{
    if n < 10 {
        seq![digit(n as int)]
    } else {
        digits(n / 10).push(digit((n % 10) as int))
    }
}

/// An integer in decimal, with a minus sign in front where it is negative.
pub open spec fn decimal(v: int) -> Seq<char> {
    if v < 0 {
        seq!['-'] + digits((-v) as nat)
    } else {
        digits(v as nat)
    }
}

/// What the `Debug` form of a string holds, where the string holds `text`:
/// the text between double quotes, with escapes.
pub uninterp spec fn debug_quoted(text: Seq<char>) -> Seq<char>;

/// The line that shows what `foo` returned.
pub open spec fn foo_line(generation: u32, value: i32) -> Seq<char> {
    "["@ + decimal(generation as int) + "] foo() -> "@ + decimal(value as int)
}

/// The line that shows what `bar` returned.
pub open spec fn bar_line(generation: u32, value: i32) -> Seq<char> {
    "["@ + decimal(generation as int) + "] bar() -> "@ + decimal(value as int)
}

/// The line that notes that the library has no `bar`.
pub open spec fn bar_undefined_line(generation: u32) -> Seq<char> {
    "["@ + decimal(generation as int) + "] bar() is not defined"@
}

/// The line that announces a reload, given the quoted path.
pub open spec fn reloading_line(quoted_path: Seq<char>) -> Seq<char> {
    "Reloading "@ + quoted_path
}

impl Report {
    /// The lines of this report, in the order in which they are printed,
    /// where the library's path in quoted form is `quoted_path`.
    pub open spec fn text(self, quoted_path: Seq<char>) -> Seq<Seq<char>> {
        match self {
            Report::Silent => seq![],
            Report::Tick { generation, foo, bar } => seq![
                foo_line(generation, foo),
                match bar {
                    Some(value) => bar_line(generation, value),
                    None => bar_undefined_line(generation),
                },
            ],
            Report::Reloading => seq![reloading_line(quoted_path)],
        }
    }
}

/// Formats a string with `{:?}`, as std's `Debug` for `str` does. Nothing is
/// proved of it; the contract only names the result, which depends on the
/// text alone.
#[verifier::external_body]
fn quote(text: &str) -> (quoted: String)
    ensures
        quoted@ == debug_quoted(text@),
{
    format!("{:?}", text)
}

fn digit_str(d: u64) -> (s: &'static str)
    requires
        d < 10,
    ensures
        s@ == seq![digit(d as int)],
{
    proof {
        reveal_strlit("0");
        reveal_strlit("1");
        reveal_strlit("2");
        reveal_strlit("3");
        reveal_strlit("4");
        reveal_strlit("5");
        reveal_strlit("6");
        reveal_strlit("7");
        reveal_strlit("8");
        reveal_strlit("9");
    }
    let s = if d == 0 {
        "0"
    } else if d == 1 {
        "1"
    } else if d == 2 {
        "2"
    } else if d == 3 {
        "3"
    } else if d == 4 {
        "4"
    } else if d == 5 {
        "5"
    } else if d == 6 {
        "6"
    } else if d == 7 {
        "7"
    } else if d == 8 {
        "8"
    } else {
        "9"
    };
    assert(s@ =~= seq![digit(d as int)]);
    s
}

fn append_digits(out: &mut String, n: u64)
    ensures
        final(out)@ == old(out)@ + digits(n as nat),
    decreases n,
{
    if n >= 10 {
        append_digits(out, n / 10);
    }
    out.append(digit_str(n % 10));
    proof {
        if n >= 10 {
            assert(final(out)@ =~= old(out)@ + digits(n as nat));
        }
    }
}

/// Appends `v` in decimal to `out`.
pub fn append_decimal(out: &mut String, v: i64)
    ensures
        final(out)@ == old(out)@ + decimal(v as int),
{
    if v < 0 {
        proof {
            reveal_strlit("-");
        }
        out.append("-");
        let magnitude: u64 = if v == i64::MIN {
            9_223_372_036_854_775_808u64
        } else {
            (-v) as u64
        };
        append_digits(out, magnitude);
        assert(final(out)@ =~= old(out)@ + decimal(v as int));
    } else {
        append_digits(out, v as u64);
    }
}

/// `v` in decimal.
pub fn decimal_string(v: i64) -> (s: String)
    ensures
        s@ == decimal(v as int),
{
    let mut s = String::new();
    append_decimal(&mut s, v);
    assert(s@ =~= decimal(v as int));
    s
}

fn tagged_line(generation: u32, rest: &str) -> (line: String)
    ensures
        line@ == "["@ + decimal(generation as int) + rest@,
{
    let mut line = String::from_str("[");
    append_decimal(&mut line, generation as i64);
    line.append(rest);
    line
}

/// Renders the line that shows what `foo` returned.
pub fn render_foo(generation: u32, value: i32) -> (line: String)
    ensures
        line@ == foo_line(generation, value),
{
    let mut line = tagged_line(generation, "] foo() -> ");
    append_decimal(&mut line, value as i64);
    line
}

/// Renders the line that shows what `bar` returned.
pub fn render_bar(generation: u32, value: i32) -> (line: String)
    ensures
        line@ == bar_line(generation, value),
{
    let mut line = tagged_line(generation, "] bar() -> ");
    append_decimal(&mut line, value as i64);
    line
}

/// Renders the line that notes that the library has no `bar`.
pub fn render_bar_undefined(generation: u32) -> (line: String)
    ensures
        line@ == bar_undefined_line(generation),
{
    tagged_line(generation, "] bar() is not defined")
}

/// Renders the line that announces a reload, from the path in quoted form.
pub fn render_reloading(quoted_path: &str) -> (line: String)
    ensures
        line@ == reloading_line(quoted_path@),
{
    let mut line = String::from_str("Reloading ");
    line.append(quoted_path);
    line
}

impl Report {
    /// Renders this report from the path in quoted form.
    pub fn render(&self, quoted_path: &str) -> (lines: Vec<String>)
        ensures
            lines.deep_view() == self.text(quoted_path@),
    {
        let mut lines: Vec<String> = Vec::new();
        match self {
            Report::Silent => {},
            Report::Tick { generation, foo, bar } => {
                lines.push(render_foo(*generation, *foo));
                match bar {
                    Some(value) => lines.push(render_bar(*generation, *value)),
                    None => lines.push(render_bar_undefined(*generation)),
                }
            },
            Report::Reloading => {
                lines.push(render_reloading(quoted_path));
            },
        }
        assert(lines.deep_view() =~= self.text(quoted_path@));
        lines
    }

    /// The lines to print for this report, where the library was loaded from
    /// `path`. A reload is announced with the path as `{:?}` shows it.
    pub fn lines(&self, path: &str) -> (lines: Vec<String>)
        ensures
            lines.deep_view() == self.text(debug_quoted(path@)),
    {
        let quoted = quote(path);
        self.render(quoted.as_str())
    }
}

} // verus!
