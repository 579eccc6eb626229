//! Rendering diagnostics with a source-code snippet.
//!
//! `ErrorReporter` keeps the source split into lines and renders an error
//! report: the stage, the message, the position, and a window of up to
//! three source lines with a caret under the offending column.  The
//! rendered text is pinned, character for character, by `report_text`;
//! printing it is left to the caller.

use vstd::prelude::*;

use crate::text::{chars_to_string, dec_digits, push_chars, push_str_chars, push_usize_text};

verus! {

/// `n` spaces.
pub open spec fn spaces(n: nat) -> Seq<char>
    decreases n,
{
    if n == 0 {
        Seq::empty()
    } else {
        spaces((n - 1) as nat).push(' ')
    }
}

/// The decimal digits of `n`, right-aligned to a width of four.
pub open spec fn pad4(n: nat) -> Seq<char> {
    let d = dec_digits(n);
    if d.len() < 4 {
        spaces((4 - d.len()) as nat) + d
    } else {
        d
    }
}

/// One quoted source line of the context window: the right-aligned line
/// number, the marker (`>` on the error line), and the line's text.
pub open spec fn line_entry(lines: Seq<Seq<char>>, i: int, err: int) -> Seq<char> {
    pad4((i + 1) as nat) + " "@ + (if i == err {
        ">"@
    } else {
        " "@
    }) + " | "@ + lines[i] + "\n"@
}

/// The caret line under the error column.
pub open spec fn caret_line(column: nat) -> Seq<char> {
    spaces((7 + column - 1) as nat) + "  ^"@ + "\n"@
}

/// The whole rendered report for an error of `stage` with `message` at the
/// 1-based `line` and `column`, over the split source `lines`.
pub open spec fn report_text(
    lines: Seq<Seq<char>>,
    stage: Seq<char>,
    message: Seq<char>,
    line: nat,
    column: nat,
) -> Seq<char> {
    let head = "\n"@ + "\u{274c}"@ + " "@ + stage + " Error:"@ + "\n"@ + "  "@ + message + "\n"@
        + "  at line "@ + dec_digits(line) + ", col "@ + dec_digits(column) + "\n"@;
    if line == 0 || line > lines.len() {
        head + "  (Source location unavailable)"@ + "\n"@
    } else {
        let idx = line - 1;
        let before = if idx > 0 {
            line_entry(lines, idx - 1, idx)
        } else {
            Seq::empty()
        };
        let after = if idx + 1 <= lines.len() - 1 {
            line_entry(lines, idx + 1, idx)
        } else {
            Seq::empty()
        };
        head + "\n"@ + before + line_entry(lines, idx, idx) + caret_line(column) + after + "\n"@
    }
}

/// A line with a trailing carriage return removed.
pub open spec fn chomp_cr(l: Seq<char>) -> Seq<char> {
    if l.len() > 0 && l.last() == '\r' {
        l.drop_last()
    } else {
        l
    }
}

/// One step of the line split: a newline closes the open line (dropping a
/// carriage return just before it); any other character extends it.
pub open spec fn split_lines_step(acc: (Seq<Seq<char>>, Seq<char>), c: char) -> (
    Seq<Seq<char>>,
    Seq<char>,
) {
    if c == '\n' {
        (acc.0.push(chomp_cr(acc.1)), Seq::empty())
    } else {
        (acc.0, acc.1.push(c))
    }
}

/// The closed lines and the still-open line after reading all of `s`.
pub open spec fn split_lines_iter(s: Seq<char>) -> (Seq<Seq<char>>, Seq<char>)
    decreases s.len(),
{
    if s.len() == 0 {
        (Seq::empty(), Seq::empty())
    } else {
        split_lines_step(split_lines_iter(s.drop_last()), s.last())
    }
}

/// The source split into lines, as `str::lines` does it: lines end at a
/// newline, a carriage return immediately before the newline is dropped,
/// and a last line without a newline is kept.
pub open spec fn split_lines(s: Seq<char>) -> Seq<Seq<char>> {
    let r = split_lines_iter(s);
    if r.1.len() > 0 {
        r.0.push(r.1)
    } else {
        r.0
    }
}

/// Renders diagnostics over one source text.
pub struct ErrorReporter {
    lines: Vec<Vec<char>>,
}

impl View for ErrorReporter {
    type V = Seq<Seq<char>>;

    closed spec fn view(&self) -> Seq<Seq<char>> {
        self.lines@.map_values(|l: Vec<char>| l@)
    }
}

/// Appends `n` spaces to `out`.
fn push_spaces(out: &mut Vec<char>, n: usize)
    ensures
        final(out)@ == old(out)@ + spaces(n as nat),
{
    let mut k: usize = 0;
    proof {
        assert(old(out)@ + spaces(0) =~= old(out)@);
    }
    while k < n
        invariant
            k <= n,
            out@ == old(out)@ + spaces(k as nat),
        decreases n - k,
    {
        out.push(' ');
        k = k + 1;
        proof {
            assert(out@ =~= old(out)@ + spaces(k as nat));
        }
    }
}

/// Appends the decimal digits of `n`, right-aligned to a width of four.
fn push_pad4(out: &mut Vec<char>, n: usize)
    ensures
        final(out)@ == old(out)@ + pad4(n as nat),
{
    let mut digits: Vec<char> = Vec::new();
    push_usize_text(&mut digits, n);
    if digits.len() < 4 {
        push_spaces(out, 4 - digits.len());
    }
    push_chars(out, &digits);
    proof {
        assert(final(out)@ =~= old(out)@ + pad4(n as nat));
    }
}

impl ErrorReporter {
    /// Splits the source into lines, as `str::lines` does: lines end at a
    /// newline, a carriage return before the newline is dropped, and a last
    /// line without a newline is kept.
    pub fn new(source: &str) -> (r: ErrorReporter)
        ensures
            r@ == split_lines(source@),
    {
        let n: usize = source.unicode_len();
        let mut lines: Vec<Vec<char>> = Vec::new();
        let mut buf: Vec<char> = Vec::new();
        let mut i: usize = 0;
        while i < n
            invariant
                i <= n,
                n == source@.len(),
                (lines@.map_values(|l: Vec<char>| l@), buf@) == split_lines_iter(
                    source@.subrange(0, i as int),
                ),
            decreases n - i,
        {
            let c = source.get_char(i);
            proof {
                assert(source@.subrange(0, (i + 1) as int).drop_last() =~= source@.subrange(
                    0,
                    i as int,
                ));
                assert(source@.subrange(0, (i + 1) as int).last() == source@[i as int]);
            }
            if c == '\n' {
                if buf.len() > 0 && buf[buf.len() - 1] == '\r' {
                    buf.pop();
                }
                let ghost before = lines@;
                lines.push(buf);
                buf = Vec::new();
                proof {
                    assert(lines@.map_values(|l: Vec<char>| l@) =~= before.map_values(
                        |l: Vec<char>| l@,
                    ).push(lines@.last()@));
                }
            } else {
                buf.push(c);
            }
            i = i + 1;
        }
        proof {
            assert(source@.subrange(0, n as int) =~= source@);
        }
        if buf.len() > 0 {
            lines.push(buf);
            proof {
                assert(lines@.map_values(|l: Vec<char>| l@) =~= split_lines(source@));
            }
        }
        ErrorReporter { lines }
    }

    /// Renders an error report with its source context.  The text is
    /// exactly `report_text` over the reporter's lines.
    pub fn report(&self, stage: &str, message: &str, line: usize, column: usize) -> (r: String)
        requires
            column <= usize::MAX - 7,
        ensures
            r@ == report_text(self@, stage@, message@, line as nat, column as nat),
    {
        let mut out: Vec<char> = Vec::new();
        push_str_chars(&mut out, "\n");
        push_str_chars(&mut out, "\u{274c}");
        push_str_chars(&mut out, " ");
        push_str_chars(&mut out, stage);
        push_str_chars(&mut out, " Error:");
        push_str_chars(&mut out, "\n");
        push_str_chars(&mut out, "  ");
        push_str_chars(&mut out, message);
        push_str_chars(&mut out, "\n");
        push_str_chars(&mut out, "  at line ");
        push_usize_text(&mut out, line);
        push_str_chars(&mut out, ", col ");
        push_usize_text(&mut out, column);
        push_str_chars(&mut out, "\n");
        if line == 0 || line > self.lines.len() {
            push_str_chars(&mut out, "  (Source location unavailable)");
            push_str_chars(&mut out, "\n");
            proof {
                assert(out@ =~= report_text(
                    self@,
                    stage@,
                    message@,
                    line as nat,
                    column as nat,
                ));
            }
            return chars_to_string(&out);
        }
        let idx: usize = line - 1;
        push_str_chars(&mut out, "\n");
        if idx > 0 {
            self.push_line_entry(&mut out, idx - 1, idx);
        }
        self.push_line_entry(&mut out, idx, idx);
        push_spaces(&mut out, 7 + column - 1);
        push_str_chars(&mut out, "  ^");
        push_str_chars(&mut out, "\n");
        if idx + 1 <= self.lines.len() - 1 {
            self.push_line_entry(&mut out, idx + 1, idx);
        }
        push_str_chars(&mut out, "\n");
        proof {
            assert(out@ =~= report_text(self@, stage@, message@, line as nat, column as nat));
        }
        chars_to_string(&out)
    }

    /// Appends one context line.
    fn push_line_entry(&self, out: &mut Vec<char>, i: usize, err: usize)
        requires
            i < self@.len(),
            i < usize::MAX,
        ensures
            final(out)@ == old(out)@ + line_entry(self@, i as int, err as int),
    {
        push_pad4(out, i + 1);
        push_str_chars(out, " ");
        if i == err {
            push_str_chars(out, ">");
        } else {
            push_str_chars(out, " ");
        }
        push_str_chars(out, " | ");
        push_chars(out, &self.lines[i]);
        push_str_chars(out, "\n");
        proof {
            assert(final(out)@ =~= old(out)@ + line_entry(self@, i as int, err as int));
        }
    }

    /// Renders a lexical-stage report.
    pub fn report_lexical(&self, message: &str, line: usize, column: usize) -> (r: String)
        requires
            column <= usize::MAX - 7,
        ensures
            r@ == report_text(self@, "Lexical"@, message@, line as nat, column as nat),
    {
        self.report("Lexical", message, line, column)
    }

    /// Renders a syntax-stage report.
    pub fn report_syntax(&self, message: &str, line: usize, column: usize) -> (r: String)
        requires
            column <= usize::MAX - 7,
        ensures
            r@ == report_text(self@, "Syntax"@, message@, line as nat, column as nat),
    {
        self.report("Syntax", message, line, column)
    }

    /// Renders a scope-stage report.
    pub fn report_scope(&self, message: &str, line: usize, column: usize) -> (r: String)
        requires
            column <= usize::MAX - 7,
        ensures
            r@ == report_text(self@, "Scope"@, message@, line as nat, column as nat),
    {
        self.report("Scope", message, line, column)
    }

    /// Renders a type-stage report.
    pub fn report_type(&self, message: &str, line: usize, column: usize) -> (r: String)
        requires
            column <= usize::MAX - 7,
        ensures
            r@ == report_text(self@, "Type"@, message@, line as nat, column as nat),
    {
        self.report("Type", message, line, column)
    }
}

} // verus!
