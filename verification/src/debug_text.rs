//! Debug representations: a capability trait for values that can render
//! themselves as diagnostic text, with verified renderers for integers,
//! characters and tuples.

use vstd::prelude::*;
use vstd::string::StringExecFns;

verus! {

/// The decimal digit character for `d` (`d < 10`).
pub open spec fn digit_char(d: nat) -> char {
    if d == 0 {
        '0'
    } else if d == 1 {
        '1'
    } else if d == 2 {
        '2'
    } else if d == 3 {
        '3'
    } else if d == 4 {
        '4'
    } else if d == 5 {
        '5'
    } else if d == 6 {
        '6'
    } else if d == 7 {
        '7'
    } else if d == 8 {
        '8'
    } else {
        '9'
    }
}

/// The decimal digits of `n`, most significant first, with no sign and no
/// leading zero except for `n == 0` itself.
pub open spec fn decimal_digits(n: nat) -> Seq<char>
    decreases n,
{
    if n < 10 {
        seq![digit_char(n)]
    } else {
        decimal_digits(n / 10).push(digit_char(n % 10))
    }
}

/// The debug text of a signed integer: its decimal digits, preceded by a
/// minus sign when it is negative.
pub open spec fn int_repr(n: int) -> Seq<char> {
    if n >= 0 {
        decimal_digits(n as nat)
    } else {
        seq!['-'] + decimal_digits((-n) as nat)
    }
}

/// A value with a well-defined, human-readable debug representation.
///
/// `debug_repr` is the representation itself, as a sequence of characters;
/// `debug_text` renders exactly that sequence, with nothing added before or
/// after it.
pub trait DebugText {
    /// The debug representation of the value.
    spec fn debug_repr(&self) -> Seq<char>;

    /// Renders the debug representation.
    fn debug_text(&self) -> (r: String)
        ensures
            r@ == self.debug_repr(),
    ;
}

/// Appends the decimal digits of `n` to `buf`.
fn push_decimal(buf: &mut String, n: u32)
    ensures
        final(buf)@ == old(buf)@ + decimal_digits(n as nat),
    decreases n,
{
    if n >= 10 {
        push_decimal(buf, n / 10);
    }
    let d: u32 = n % 10;
    match d {
        0 => buf.append("0"),
        1 => buf.append("1"),
        2 => buf.append("2"),
        3 => buf.append("3"),
        4 => buf.append("4"),
        5 => buf.append("5"),
        6 => buf.append("6"),
        7 => buf.append("7"),
        8 => buf.append("8"),
        _ => buf.append("9"),
    }
    proof {
        reveal_strlit("0");
        reveal_strlit("1");
        reveal_strlit("2");
        reveal_strlit("3");
        reveal_strlit("4");
        reveal_strlit("5");
        reveal_strlit("6");
        reveal_strlit("7");
        reveal_strlit("8");
        reveal_strlit("9");
        assert(buf@ =~= old(buf)@ + decimal_digits(n as nat));
    }
}

/// The escape of a single character inside quoted debug text: the common
/// control and quoting characters take a backslash escape, every other
/// character stands for itself.
pub open spec fn escaped_char(c: char) -> Seq<char> {
    if c == '\\' {
        seq!['\\', '\\']
    } else if c == '\'' {
        seq!['\\', '\'']
    } else if c == '\n' {
        seq!['\\', 'n']
    } else if c == '\r' {
        seq!['\\', 'r']
    } else if c == '\t' {
        seq!['\\', 't']
    } else {
        seq![c]
    }
}

/// The debug text of a character: its escape between single quotes.
pub open spec fn char_repr(c: char) -> Seq<char> {
    seq!['\''] + escaped_char(c) + seq!['\'']
}

/// Relies on `String::push`: appends the given character to the end of this
/// `String`.
#[verifier::external_body]
fn push_char(buf: &mut String, c: char)
    ensures
        final(buf)@ == old(buf)@ + seq![c],
{
    buf.push(c);
}

impl DebugText for char {
    open spec fn debug_repr(&self) -> Seq<char> {
        char_repr(*self)
    }

    fn debug_text(&self) -> (r: String)
        ensures
            r@ == self.debug_repr(),
    {
        let c = *self;
        let mut s = String::new();
        s.append("'");
        if c == '\\' {
            s.append("\\\\");
            proof {
                reveal_strlit("\\\\");
            }
        } else if c == '\'' {
            s.append("\\'");
            proof {
                reveal_strlit("\\'");
            }
        } else if c == '\n' {
            s.append("\\n");
            proof {
                reveal_strlit("\\n");
            }
        } else if c == '\r' {
            s.append("\\r");
            proof {
                reveal_strlit("\\r");
            }
        } else if c == '\t' {
            s.append("\\t");
            proof {
                reveal_strlit("\\t");
            }
        } else {
            push_char(&mut s, c);
        }
        s.append("'");
        proof {
            reveal_strlit("'");
            assert(s@ =~= char_repr(c));
        }
        s
    }
}

impl DebugText for i32 {
    open spec fn debug_repr(&self) -> Seq<char> {
        int_repr(*self as int)
    }

    fn debug_text(&self) -> (r: String)
        ensures
            r@ == self.debug_repr(),
    {
        let mut s = String::new();
        if *self < 0 {
            s.append("-");
            let m: u32 = ((-(*self as i64)) as u64) as u32;
            push_decimal(&mut s, m);
            proof {
                reveal_strlit("-");
                assert(s@ =~= int_repr(*self as int));
            }
        } else {
            push_decimal(&mut s, *self as u32);
            proof {
                assert(s@ =~= int_repr(*self as int));
            }
        }
        s
    }
}

/// The comma-and-space separator between the elements of a tuple's debug
/// text.
pub open spec fn tuple_sep() -> Seq<char> {
    seq![',', ' ']
}

impl<A: DebugText, B: DebugText> DebugText for (A, B) {
    open spec fn debug_repr(&self) -> Seq<char> {
        seq!['('] + self.0.debug_repr() + tuple_sep() + self.1.debug_repr() + seq![')']
    }

    fn debug_text(&self) -> (r: String)
        ensures
            r@ == self.debug_repr(),
    {
        let mut s = String::new();
        s.append("(");
        let a = self.0.debug_text();
        s.append(a.as_str());
        s.append(", ");
        let b = self.1.debug_text();
        s.append(b.as_str());
        s.append(")");
        proof {
            reveal_strlit("(");
            reveal_strlit(", ");
            reveal_strlit(")");
            assert(s@ =~= self.debug_repr());
        }
        s
    }
}

impl<A: DebugText, B: DebugText, C: DebugText> DebugText for (A, B, C) {
    open spec fn debug_repr(&self) -> Seq<char> {
        seq!['('] + self.0.debug_repr() + tuple_sep() + self.1.debug_repr() + tuple_sep()
            + self.2.debug_repr() + seq![')']
    }

    fn debug_text(&self) -> (r: String)
        ensures
            r@ == self.debug_repr(),
    {
        let mut s = String::new();
        s.append("(");
        let a = self.0.debug_text();
        s.append(a.as_str());
        s.append(", ");
        let b = self.1.debug_text();
        s.append(b.as_str());
        s.append(", ");
        let c = self.2.debug_text();
        s.append(c.as_str());
        s.append(")");
        proof {
            reveal_strlit("(");
            reveal_strlit(", ");
            reveal_strlit(")");
            assert(s@ =~= self.debug_repr());
        }
        s
    }
}

} // verus!
