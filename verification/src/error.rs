//! The structured syntax-error reporter. A parse failure carries a 1-based
//! line number, a 0-based column, a message, and optionally the exact source
//! text of the offending line. With a source line it renders a detailed,
//! caret-annotated block; without one, a brief two-part message. The two
//! message templates are pure functions from their positional fields to text.

use crate::text::{decimal_string, decimal_text, pointer_string, pointer_text};
use vstd::prelude::*;
use vstd::string::*;

verus! {

/// The words every syntax-error message opens with.
pub open spec fn error_prefix() -> Seq<char> {
    seq![
        'T',
        'h',
        'e',
        'r',
        'e',
        ' ',
        'i',
        's',
        ' ',
        'a',
        ' ',
        's',
        'y',
        'n',
        't',
        'a',
        'x',
        ' ',
        'e',
        'r',
        'r',
        'o',
        'r',
        ' ',
        'a',
        't',
        ' ',
        'l',
        'i',
        'n',
        'e',
        ' ',
    ]
}

/// The detailed syntax-error template, over its four positional fields: the
/// line number, the verbatim source line, the caret pointer line, and the
/// message, each on a line of its own after the opening summary.
pub open spec fn detailed_template(
    line: Seq<char>,
    query_line: Seq<char>,
    pointer: Seq<char>,
    message: Seq<char>,
) -> Seq<char> {
    error_prefix() + line + seq![':', '\n'] + query_line + seq!['\n'] + pointer + seq!['\n']
        + message
}

/// The brief syntax-error template, over its two positional fields: the line
/// number and the message.
pub open spec fn brief_template(line: Seq<char>, message: Seq<char>) -> Seq<char> {
    error_prefix() + line + seq![':', '\n'] + message
}

/// Fills the detailed syntax-error template.
pub fn format_detailed(line: &str, query_line: &str, pointer: &str, message: &str) -> (r: String)
    ensures
        r@ == detailed_template(line@, query_line@, pointer@, message@),
{
    let mut out = "There is a syntax error at line ".to_owned();
    out.append(line);
    out.append(":\n");
    out.append(query_line);
    out.append("\n");
    out.append(pointer);
    out.append("\n");
    out.append(message);
    proof {
        reveal_strlit("There is a syntax error at line ");
        reveal_strlit(":\n");
        reveal_strlit("\n");
        assert(out@ =~= detailed_template(line@, query_line@, pointer@, message@));
    }
    out
}

/// Fills the brief syntax-error template.
pub fn format_brief(line: &str, message: &str) -> (r: String)
    ensures
        r@ == brief_template(line@, message@),
{
    let mut out = "There is a syntax error at line ".to_owned();
    out.append(line);
    out.append(":\n");
    out.append(message);
    proof {
        reveal_strlit("There is a syntax error at line ");
        reveal_strlit(":\n");
        assert(out@ =~= brief_template(line@, message@));
    }
    out
}

/// A syntax error reported by the external scanner: a terminal, display-only
/// carrier for a failure already determined there. The caller guarantees that
/// the column lies within the captured line when one is present; an
/// out-of-range column simply renders a caret past the line's visible end.
#[derive(Debug, Clone)]
pub struct SyntaxError {
    pub query_line: Option<String>,
    pub line: usize,
    pub char_position_in_line: usize,
    pub message: String,
}

/// The rendered text of a syntax error: the detailed form when the offending
/// source line was captured, the brief form otherwise.
pub open spec fn error_text(e: SyntaxError) -> Seq<char> {
    match e.query_line {
        Option::Some(q) => detailed_template(
            decimal_text(e.line as nat),
            q@,
            pointer_text(e.char_position_in_line as nat),
            e.message@,
        ),
        Option::None => brief_template(decimal_text(e.line as nat), e.message@),
    }
}

impl SyntaxError {
    /// Renders this error for display, exactly as [`error_text`] describes.
    pub fn to_string(&self) -> (r: String)
        ensures
            r@ == error_text(*self),
    {
        let line_text = decimal_string(self.line);
        match &self.query_line {
            Option::Some(q) => {
                let pointer = pointer_string(self.char_position_in_line);
                format_detailed(
                    line_text.as_str(),
                    q.as_str(),
                    pointer.as_str(),
                    self.message.as_str(),
                )
            },
            Option::None => format_brief(line_text.as_str(), self.message.as_str()),
        }
    }
}

} // verus!
