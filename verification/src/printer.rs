//! The line sink: what becomes of a record once a tracer has formed it.

use vstd::prelude::*;
use vstd::string::StringExecFns;

verus! {

/// The texts of a list of lines.
pub open spec fn texts(lines: Seq<String>) -> Seq<Seq<char>> {
    lines.map_values(|line: String| line@)
}

/// The text of a line that may be absent.
pub open spec fn text_of(line: Option<String>) -> Option<Seq<char>> {
    match line {
        Some(line) => Some(line@),
        None => None,
    }
}

/// Adding a line to a list adds its text to the texts.
pub proof fn lemma_texts_push(lines: Seq<String>, line: String)
    ensures
        texts(lines.push(line)) == texts(lines).push(line@),
{
    assert(texts(lines.push(line)) =~= texts(lines).push(line@));
}

/// A sink of lines. It forms the line that a record or a diagnostic message
/// becomes, if any; writing that line out is left to the host.
pub trait Printer {
    /// The line that a record becomes.
    spec fn record_line(&self, input: Seq<char>) -> Option<Seq<char>>;

    /// The line that a diagnostic message becomes.
    spec fn debug_line(&self, input: Seq<char>) -> Option<Seq<char>>;

    fn print(&self, input: &str) -> (line: Option<String>)
        ensures
            text_of(line) == self.record_line(input@),
    ;

    fn debug(&self, input: &str) -> (line: Option<String>)
        ensures
            text_of(line) == self.debug_line(input@),
    ;
}

/// The sink that drops everything.
#[derive(Clone, Copy, Debug)]
pub struct DiscardPrinter {}

impl Printer for DiscardPrinter {
    open spec fn record_line(&self, input: Seq<char>) -> Option<Seq<char>> {
        None
    }

    open spec fn debug_line(&self, input: Seq<char>) -> Option<Seq<char>> {
        None
    }

    fn print(&self, input: &str) -> (line: Option<String>) {
        None
    }

    fn debug(&self, input: &str) -> (line: Option<String>) {
        None
    }
}

/// The sink for a console: each record becomes a line tagged `DMLOG`, each
/// diagnostic message a line tagged `DMDEBUG`.
#[derive(Clone, Copy, Debug)]
pub struct IoPrinter {}

impl Printer for IoPrinter {
    open spec fn record_line(&self, input: Seq<char>) -> Option<Seq<char>> {
        Some("DMLOG "@ + input)
    }

    open spec fn debug_line(&self, input: Seq<char>) -> Option<Seq<char>> {
        Some("DMDEBUG "@ + input)
    }

    fn print(&self, input: &str) -> (line: Option<String>) {
        let mut line = String::from_str("DMLOG ");
        line.append(input);
        Some(line)
    }

    /// Diagnostic messages carry a tag of their own, so that a reader that does
    /// not know them can pass over them.
    fn debug(&self, input: &str) -> (line: Option<String>) {
        let mut line = String::from_str("DMDEBUG ");
        line.append(input);
        Some(line)
    }
}

/// The sink that a context and all the tracers it makes have in common.
#[derive(Clone, Copy, Debug)]
pub enum SharedPrinter {
    Io(IoPrinter),
    Discard(DiscardPrinter),
}

/// No line, or the one line.
pub open spec fn as_lines(line: Option<Seq<char>>) -> Seq<Seq<char>> {
    match line {
        Some(line) => seq![line],
        None => Seq::empty(),
    }
}

impl SharedPrinter {
    /// The lines, none or one, that the sink writes for a record.
    pub open spec fn lines(&self, record: Seq<char>) -> Seq<Seq<char>> {
        match *self {
            SharedPrinter::Io(printer) => as_lines(printer.record_line(record)),
            SharedPrinter::Discard(printer) => as_lines(printer.record_line(record)),
        }
    }

    /// The lines, none or one, that the sink writes for a diagnostic message.
    pub open spec fn debug_lines(&self, message: Seq<char>) -> Seq<Seq<char>> {
        match *self {
            SharedPrinter::Io(printer) => as_lines(printer.debug_line(message)),
            SharedPrinter::Discard(printer) => as_lines(printer.debug_line(message)),
        }
    }

    /// Hands a record to the sink and adds what it writes to `out`.
    pub fn print(&self, out: &mut Vec<String>, record: &str)
        ensures
            texts(final(out)@) == texts(old(out)@) + self.lines(record@),
    {
        let line = match self {
            SharedPrinter::Io(printer) => printer.print(record),
            SharedPrinter::Discard(printer) => printer.print(record),
        };
        match line {
            Some(line) => {
                proof {
                    lemma_texts_push(out@, line);
                }
                out.push(line);
                assert(texts(out@) =~= texts(old(out)@) + self.lines(record@));
            },
            None => {
                assert(texts(out@) =~= texts(old(out)@) + self.lines(record@));
            },
        }
    }

    /// Hands a diagnostic message to the sink and adds what it writes to `out`.
    pub fn debug(&self, out: &mut Vec<String>, message: &str)
        ensures
            texts(final(out)@) == texts(old(out)@) + self.debug_lines(message@),
    {
        let line = match self {
            SharedPrinter::Io(printer) => printer.debug(message),
            SharedPrinter::Discard(printer) => printer.debug(message),
        };
        match line {
            Some(line) => {
                proof {
                    lemma_texts_push(out@, line);
                }
                out.push(line);
                assert(texts(out@) =~= texts(old(out)@) + self.debug_lines(message@));
            },
            None => {
                assert(texts(out@) =~= texts(old(out)@) + self.debug_lines(message@));
            },
        }
    }
}

} // verus!
