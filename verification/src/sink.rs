//! Capacity-bounded, allocation-free text sink.
//!
//! A fixed byte buffer plus a write cursor. A write either fully commits —
//! the fragment lands at the cursor and the cursor advances — or fully
//! rejects, leaving buffer and cursor untouched. A fragment commits exactly
//! when it is strictly shorter than the space left: an exact fit is rejected
//! by design, and that boundary is part of the observable behaviour.

use vstd::prelude::*;

verus! {

/// Capacity-bounded text sink: a fixed byte buffer plus a write cursor.
pub struct Cursor {
    pub buf: Vec<u8>,
    pub pos: usize,
}

/// The two bytes rendered after the fault text: a newline and a NUL
/// terminator.
pub open spec fn message_tail() -> Seq<u8> {
    seq![10u8, 0u8]
}

/// `n` zero bytes.
pub open spec fn zeroes(n: int) -> Seq<u8> {
    Seq::new(n as nat, |i: int| 0u8)
}

/// The cursor position after the fault text and its two-byte tail have been
/// offered, in that order and stopping at the first rejection, to a sink of
/// capacity `cap` whose cursor starts at zero.
pub open spec fn render_pos(msg: Seq<u8>, cap: int) -> int {
    if msg.len() + 2 < cap {
        (msg.len() + 2) as int
    } else if msg.len() < cap {
        msg.len() as int
    } else {
        0
    }
}

/// The whole buffer after the render: the fragments that committed, then
/// zeroes to the end of the buffer.
pub open spec fn render_contents(msg: Seq<u8>, cap: int) -> Seq<u8> {
    if msg.len() + 2 < cap {
        msg + message_tail() + zeroes(cap - msg.len() - 2)
    } else if msg.len() < cap {
        msg + zeroes(cap - msg.len())
    } else {
        zeroes(cap)
    }
}

/// After the render, every byte from the final cursor to the end of the
/// buffer is zero: no stale text from an earlier fault survives past the new
/// boundary.
pub proof fn lemma_rendered_tail_is_zero(msg: Seq<u8>, cap: int)
    requires
        cap >= 0,
    ensures
        render_contents(msg, cap).len() == cap,
        forall|i: int| render_pos(msg, cap) <= i < cap ==> render_contents(msg, cap)[i] == 0,
{
    assert forall|i: int| render_pos(msg, cap) <= i < cap implies render_contents(msg, cap)[i]
        == 0 by {
        if msg.len() + 2 < cap {
            assert(render_contents(msg, cap)[i] == zeroes(cap - msg.len() - 2)[i - msg.len() - 2]);
        } else if msg.len() < cap {
            assert(render_contents(msg, cap)[i] == zeroes(cap - msg.len())[i - msg.len()]);
        }
    }
}

impl Cursor {
    /// The cursor never passes the end of the buffer.
    pub open spec fn wf(self) -> bool {
        self.pos <= self.buf.len()
    }

    /// A fresh sink over the given buffer, cursor at the start.
    pub fn new(buf: Vec<u8>) -> (c: Cursor)
        ensures
            c.buf == buf,
            c.pos == 0,
            c.wf(),
    {
        Cursor { buf, pos: 0 }
    }

    /// Append one fragment. The write commits in full — the bytes land at
    /// `[pos, pos + len)` and the cursor advances by exactly `len` — iff the
    /// fragment is strictly shorter than the space left (an exact fit is
    /// rejected by design). On rejection, buffer and cursor are exactly as
    /// before the call.
    pub fn append(&mut self, fragment: &[u8]) -> (ok: bool)
        requires
            old(self).wf(),
        ensures
            final(self).wf(),
            ok == (fragment@.len() < old(self).buf.len() - old(self).pos),
            final(self).buf.len() == old(self).buf.len(),
            ok ==> final(self).pos == old(self).pos + fragment@.len(),
            ok ==> final(self).buf@ == old(self).buf@.subrange(0, old(self).pos as int)
                + fragment@ + old(self).buf@.subrange(
                old(self).pos + fragment@.len(),
                old(self).buf@.len() as int,
            ),
            ok ==> final(self).buf@.subrange(
                old(self).pos as int,
                old(self).pos + fragment@.len(),
            ) == fragment@,
            ok ==> forall|j: int|
                0 <= j < fragment@.len() ==> final(self).buf@[old(self).pos + j] == fragment@[j],
            ok ==> forall|i: int| 0 <= i < old(self).pos ==> final(self).buf@[i] == old(
                self,
            ).buf@[i],
            ok ==> forall|i: int|
                old(self).pos + fragment@.len() <= i < old(self).buf.len() ==> final(self).buf@[i]
                    == old(self).buf@[i],
            !ok ==> *final(self) == *old(self),
    {
        let len = fragment.len();
        if len < self.buf.len() - self.pos {
            let mut i: usize = 0;
            while i < len
                invariant
                    i <= len,
                    len == fragment@.len(),
                    self.pos == old(self).pos,
                    self.buf.len() == old(self).buf.len(),
                    self.pos + len < self.buf.len(),
                    forall|j: int| 0 <= j < i ==> self.buf@[self.pos + j] == fragment@[j],
                    forall|j: int| 0 <= j < self.pos ==> self.buf@[j] == old(self).buf@[j],
                    forall|j: int|
                        self.pos + len <= j < self.buf.len() ==> self.buf@[j] == old(self).buf@[j],
                decreases len - i,
            {
                let idx: usize = self.pos + i;
                let b: u8 = fragment[i];
                self.buf[idx] = b;
                i = i + 1;
            }
            self.pos = self.pos + len;
            proof {
                assert(self.buf@.subrange(old(self).pos as int, old(self).pos + fragment@.len())
                    =~= fragment@);
            }
            true
        } else {
            false
        }
    }

    /// Render the fault text into a fresh sink: offer the text, then — only
    /// if it committed — the newline/NUL tail, stopping at the first rejected
    /// fragment; then zero everything from the cursor to the end of the
    /// buffer. A rejection only truncates the text; the render always
    /// completes.
    pub fn render(&mut self, message: &[u8])
        requires
            old(self).wf(),
            old(self).pos == 0,
        ensures
            final(self).wf(),
            final(self).buf.len() == old(self).buf.len(),
            final(self).pos == render_pos(message@, old(self).buf.len() as int),
            final(self).buf@ == render_contents(message@, old(self).buf.len() as int),
    {
        let ghost cap = self.buf.len() as int;
        let committed = self.append(message);
        if committed {
            let mut tail: Vec<u8> = Vec::new();
            tail.push(10u8);
            tail.push(0u8);
            proof {
                assert(tail@ =~= message_tail());
            }
            let _ = self.append(tail.as_slice());
        }
        let ghost before_zero = *self;
        self.zero_tail();
        proof {
            assert(self.buf@ =~= render_contents(message@, cap)) by {
                assert forall|i: int| 0 <= i < cap implies self.buf@[i] == render_contents(
                    message@,
                    cap,
                )[i] by {
                    lemma_rendered_tail_is_zero(message@, cap);
                    if i < before_zero.pos {
                        assert(self.buf@[i] == before_zero.buf@[i]);
                    }
                }
            }
        }
    }

    /// Zero every byte from the cursor to the end of the buffer; the cursor
    /// and the bytes before it are untouched.
    pub fn zero_tail(&mut self)
        requires
            old(self).wf(),
        ensures
            final(self).wf(),
            final(self).pos == old(self).pos,
            final(self).buf.len() == old(self).buf.len(),
            forall|i: int| 0 <= i < old(self).pos ==> final(self).buf@[i] == old(self).buf@[i],
            forall|i: int|
                old(self).pos <= i < old(self).buf.len() ==> final(self).buf@[i] == 0,
    {
        let mut i: usize = self.pos;
        while i < self.buf.len()
            invariant
                old(self).wf(),
                self.pos == old(self).pos,
                self.buf.len() == old(self).buf.len(),
                self.pos <= i <= self.buf.len(),
                forall|j: int| 0 <= j < self.pos ==> self.buf@[j] == old(self).buf@[j],
                forall|j: int| i <= j < self.buf.len() ==> self.buf@[j] == old(self).buf@[j],
                forall|j: int| self.pos <= j < i ==> self.buf@[j] == 0,
            decreases self.buf.len() - i,
        {
            self.buf[i] = 0u8;
            i = i + 1;
        }
    }
}

} // verus!
