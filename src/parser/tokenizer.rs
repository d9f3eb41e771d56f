//! The lexer: a cursor over the characters of a source text.

use crate::text::{chars_of, is_whitespace, trim_start};
use vstd::prelude::*;

verus! {

/// A cursor over the characters of a source text.
#[derive(Debug)]
pub struct Lexer {
    chars: Vec<char>,
    eof_returned: bool,
    line_number: usize,
    pos: usize,
}

impl Lexer {
    /// Whether the cursor lies within the text.
    pub closed spec fn wf(&self) -> bool {
        self.pos <= self.chars@.len()
    }

    /// The characters not read yet.
    pub closed spec fn remaining(&self) -> Seq<char> {
        self.chars@.skip(self.pos as int)
    }

    /// How many characters have been read.
    pub closed spec fn position(&self) -> nat {
        self.pos as nat
    }

    /// The line the cursor is on, counted from one.
    pub closed spec fn line(&self) -> nat {
        self.line_number as nat
    }

    /// Whether the end of input has been reported.
    pub closed spec fn eof_reported(&self) -> bool {
        self.eof_returned
    }

    /// A lexer at the start of `input`.
    pub fn init(input: &str) -> (r: Lexer)
        ensures
            r.wf(),
            r.remaining() == input@,
            r.position() == 0,
            r.line() == 1,
            !r.eof_reported(),
    {
        let chars = chars_of(input);
        let r = Lexer { chars, eof_returned: false, line_number: 1, pos: 0 };
        assert(r.chars@.skip(0) =~= input@);
        r
    }

    /// The next character, without reading it.
    pub fn peek(&self) -> (r: Option<&char>)
        requires
            self.wf(),
        ensures
            match r {
                Some(c) => self.remaining().len() > 0 && *c == self.remaining()[0],
                None => self.remaining().len() == 0,
            },
    {
        if self.pos < self.chars.len() {
            Some(&self.chars[self.pos])
        } else {
            None
        }
    }

    /// Reads the next character.
    pub fn advance(&mut self) -> (r: Option<char>)
        requires
            old(self).wf(),
        ensures
            final(self).wf(),
            final(self).line() == old(self).line(),
            final(self).eof_reported() == old(self).eof_reported(),
            match r {
                Some(c) => {
                    &&& old(self).remaining().len() > 0
                    &&& c == old(self).remaining()[0]
                    &&& final(self).remaining() == old(self).remaining().drop_first()
                    &&& final(self).position() == old(self).position() + 1
                },
                None => {
                    &&& old(self).remaining().len() == 0
                    &&& final(self).remaining() == old(self).remaining()
                    &&& final(self).position() == old(self).position()
                },
            },
    {
        if self.pos < self.chars.len() {
            let c = self.chars[self.pos];
            self.pos = self.pos + 1;
            assert(self.chars@.skip(self.pos as int) =~= old(self).remaining().drop_first());
            Some(c)
        } else {
            None
        }
    }

    /// Reads past any white space.
    pub fn skip_whitespaces(&mut self)
        requires
            old(self).wf(),
        ensures
            final(self).wf(),
            final(self).remaining() == trim_start(old(self).remaining()),
            final(self).position() == old(self).position() + old(self).remaining().len()
                - final(self).remaining().len(),
            final(self).line() == old(self).line(),
            final(self).eof_reported() == old(self).eof_reported(),
    {
        loop
            invariant
                self.wf(),
                self.position() + self.remaining().len() == old(self).position() + old(
                    self,
                ).remaining().len(),
                trim_start(self.remaining()) == trim_start(old(self).remaining()),
                self.line() == old(self).line(),
                self.eof_reported() == old(self).eof_reported(),
            ensures
                self.wf(),
                self.position() + self.remaining().len() == old(self).position() + old(
                    self,
                ).remaining().len(),
                self.remaining() == trim_start(old(self).remaining()),
                self.line() == old(self).line(),
                self.eof_reported() == old(self).eof_reported(),
            decreases self.remaining().len(),
        {
            match self.peek() {
                Some(c) => {
                    if is_whitespace(*c) {
                        self.advance();
                    } else {
                        break;
                    }
                },
                None => break,
            }
        }
    }
}

} // verus!
