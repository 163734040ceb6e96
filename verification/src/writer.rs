//! The chainable append operations on a string buffer.

use vstd::prelude::*;
use vstd::string::StringExecFns;

use crate::debug_text::DebugText;

verus! {

/// The content of a buffer after a plain append: the old content with the
/// appended text at its end, nothing else changed.
pub open spec fn write_effect(buf: Seq<char>, s: Seq<char>) -> Seq<char> {
    buf + s
}

/// Extension trait that appends a string slice to a buffer and hands the
/// buffer back for chaining.
pub trait WriteStringExt: View<V = Seq<char>> + Sized {
    /// Appends `s` verbatim at the end of the buffer; returns the buffer
    /// itself so further appends can be chained.
    fn write(&mut self, s: &str) -> (r: &mut Self)
        ensures
            r@ == write_effect(old(self)@, s@),
            *final(self) == *final(r),
    ;
}

impl WriteStringExt for String {
    fn write(&mut self, s: &str) -> (r: &mut String)
        ensures
            r@ == write_effect(old(self)@, s@),
            *final(self) == *final(r),
    {
        self.append(s);
        self
    }
}

/// The single newline character that the line-oriented helpers append.
pub open spec fn newline() -> Seq<char> {
    seq!['\n']
}

/// The content of a buffer after a line append: the old content, then the
/// appended text, then exactly one newline.
pub open spec fn writeln_effect(buf: Seq<char>, s: Seq<char>) -> Seq<char> {
    buf + s + newline()
}

/// Extension trait that appends a string slice plus a newline to a buffer
/// and hands the buffer back for chaining.
pub trait WriteLnStringExt: View<V = Seq<char>> + Sized {
    /// Appends `s` and then a single `'\n'` at the end of the buffer;
    /// returns the buffer itself so further appends can be chained.
    fn writeln(&mut self, s: &str) -> (r: &mut Self)
        ensures
            r@ == writeln_effect(old(self)@, s@),
            *final(self) == *final(r),
    ;
}

impl WriteLnStringExt for String {
    fn writeln(&mut self, s: &str) -> (r: &mut String)
        ensures
            r@ == writeln_effect(old(self)@, s@),
            *final(self) == *final(r),
    {
        self.append(s);
        self.append("\n");
        proof {
            reveal_strlit("\n");
            assert(self@ =~= writeln_effect(old(self)@, s@));
        }
        self
    }
}

/// Extension trait that appends the debug representation of a value to a
/// buffer and hands the buffer back for chaining.
pub trait WriteDebugStringExt<T>: View<V = Seq<char>> + Sized where T: DebugText {
    /// Appends exactly the debug representation of `t` at the end of the
    /// buffer, with nothing added before or after it; returns the buffer
    /// itself so further appends can be chained.
    fn write_debug(&mut self, t: T) -> (r: &mut String)
        ensures
            r@ == write_effect(old(self)@, t.debug_repr()),
            final(self)@ == final(r)@,
    ;
}

impl<T> WriteDebugStringExt<T> for String where T: DebugText {
    fn write_debug(&mut self, t: T) -> (r: &mut String)
        ensures
            r@ == write_effect(old(self)@, t.debug_repr()),
            *final(self) == *final(r),
    {
        let text = t.debug_text();
        self.append(text.as_str());
        self
    }
}

/// Extension trait that appends the debug representation of a value plus a
/// newline to a buffer and hands the buffer back for chaining.
pub trait WriteLnDebugStringExt<T>: View<V = Seq<char>> + Sized where T: DebugText {
    /// Appends the debug representation of `t` and then a single `'\n'` at
    /// the end of the buffer; returns the buffer itself so further appends
    /// can be chained.
    fn writeln_debug(&mut self, t: T) -> (r: &mut String)
        ensures
            r@ == writeln_effect(old(self)@, t.debug_repr()),
            final(self)@ == final(r)@,
    ;
}

impl<T> WriteLnDebugStringExt<T> for String where T: DebugText {
    fn writeln_debug(&mut self, t: T) -> (r: &mut String)
        ensures
            r@ == writeln_effect(old(self)@, t.debug_repr()),
            *final(self) == *final(r),
    {
        let text = t.debug_text();
        self.append(text.as_str());
        self.append("\n");
        proof {
            reveal_strlit("\n");
            assert(self@ =~= writeln_effect(old(self)@, t.debug_repr()));
        }
        self
    }
}

/// Law: two plain appends in a row put the first text and then the second
/// at the end of the buffer, with no separator between them — the same as
/// one append of their concatenation.
pub proof fn lemma_write_write(buf: Seq<char>, a: Seq<char>, b: Seq<char>)
    ensures
        write_effect(write_effect(buf, a), b) == write_effect(buf, a + b),
{
    assert(write_effect(write_effect(buf, a), b) =~= write_effect(buf, a + b));
}

/// Law: two line appends in a row put the first text, a newline, the second
/// text and a newline at the end of the buffer, in that order.
pub proof fn lemma_writeln_writeln(buf: Seq<char>, a: Seq<char>, b: Seq<char>)
    ensures
        writeln_effect(writeln_effect(buf, a), b) == write_effect(
            buf,
            a + newline() + b + newline(),
        ),
{
    assert(writeln_effect(writeln_effect(buf, a), b) =~= write_effect(
        buf,
        a + newline() + b + newline(),
    ));
}

/// The concatenation of a sequence of text pieces, in order.
pub open spec fn concat_all(pieces: Seq<Seq<char>>) -> Seq<char>
    decreases pieces.len(),
{
    if pieces.len() == 0 {
        Seq::empty()
    } else {
        pieces.first() + concat_all(pieces.drop_first())
    }
}

/// The content of a buffer after appending a sequence of text pieces one
/// call at a time, in order.
pub open spec fn write_all(buf: Seq<char>, pieces: Seq<Seq<char>>) -> Seq<char>
    decreases pieces.len(),
{
    if pieces.len() == 0 {
        buf
    } else {
        write_all(write_effect(buf, pieces.first()), pieces.drop_first())
    }
}

/// Law: chaining is associative in effect. Appending any number of pieces
/// through sequential calls leaves the same buffer content as a single
/// append of the concatenation of the same pieces in the same order.
pub proof fn lemma_chain_associative(buf: Seq<char>, pieces: Seq<Seq<char>>)
    ensures
        write_all(buf, pieces) == write_effect(buf, concat_all(pieces)),
    decreases pieces.len(),
{
    if pieces.len() == 0 {
        assert(write_all(buf, pieces) =~= write_effect(buf, concat_all(pieces)));
    } else {
        lemma_chain_associative(write_effect(buf, pieces.first()), pieces.drop_first());
        assert(write_all(buf, pieces) =~= write_effect(buf, concat_all(pieces)));
    }
}

} // verus!
