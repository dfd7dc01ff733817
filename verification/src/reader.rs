//! A mutable, forward-only cursor over an `Input`.

use crate::input::Input;
use vstd::prelude::*;

verus! {

/// The sole error value: not enough bytes remained to satisfy a read.
#[derive(Clone, Copy, Debug, PartialEq, Eq, Structural)]
pub struct EndOfInput;

/// A read-only, forward-only cursor into the data in an `Input`.
///
/// The remaining region only ever shrinks; a failed read leaves the cursor
/// exactly as it was, and no method panics.
#[derive(Debug)]
pub struct Reader<'a> {
    input: Input<'a>,
}

impl<'a> View for Reader<'a> {
    type V = Seq<u8>;

    closed spec fn view(&self) -> Seq<u8> {
        self.input@
    }
}

impl<'a> Reader<'a> {
    /// Constructs a new `Reader` over `input`. Prefer `Input::read_all`,
    /// which also checks that every byte was consumed.
    pub fn new(input: Input<'a>) -> (reader: Self)
        ensures
            reader@ == input@,
    {
        Self { input }
    }

    /// Returns `true` iff the cursor has consumed the whole input.
    pub fn at_end(&self) -> (b: bool)
        ensures
            b <==> self@.len() == 0,
    {
        self.input.is_empty()
    }

    /// Returns `true` iff at least one byte remains and the next byte equals
    /// `b`; never consumes anything.
    pub fn peek(&self, b: u8) -> (r: bool)
        ensures
            r <==> (self@.len() > 0 && self@[0] == b),
    {
        match self.input.first() {
            Some(first) => *first == b,
            None => false,
        }
    }

    /// Consumes and returns the next input byte, or fails with `EndOfInput`
    /// if the cursor is already at the end; on failure the cursor is
    /// unchanged.
    pub fn read_byte(&mut self) -> (r: Result<u8, EndOfInput>)
        ensures
            old(self)@.len() > 0 ==> (r matches Ok(b) && b == old(self)@[0] && final(self)@ == old(
                self,
            )@.skip(1)),
            old(self)@.len() == 0 ==> (r matches Err(e) && e == EndOfInput && final(self)@ == old(
                self,
            )@),
    {
        match self.input.split_first() {
            Some((head, tail)) => {
                self.input = tail;
                Ok(head)
            },
            None => Err(EndOfInput),
        }
    }

    /// Consumes the next `num_bytes` bytes, returning them as an `Input`, or
    /// fails with `EndOfInput` if fewer than `num_bytes` bytes remain; on
    /// failure the cursor is unchanged. Requesting zero bytes always
    /// succeeds, even at the end.
    pub fn read_bytes(&mut self, num_bytes: usize) -> (r: Result<Input<'a>, EndOfInput>)
        ensures
            num_bytes <= old(self)@.len() ==> (r matches Ok(taken) && taken@ == old(self)@.take(
                num_bytes as int,
            ) && final(self)@ == old(self)@.skip(num_bytes as int)),
            num_bytes > old(self)@.len() ==> (r matches Err(e) && e == EndOfInput && final(self)@
                == old(self)@),
    {
        match self.input.split_at(num_bytes) {
            Some((before, after)) => {
                self.input = after;
                Ok(before)
            },
            None => Err(EndOfInput),
        }
    }

    /// Consumes and returns all remaining bytes as an `Input`; always
    /// succeeds, returning an empty `Input` when already at the end.
    pub fn read_bytes_to_end(&mut self) -> (r: Input<'a>)
        ensures
            r@ == old(self)@,
            final(self)@.len() == 0,
    {
        let rest = self.input;
        self.input = Input::empty();
        rest
    }

    /// Runs `read` against this same cursor and, on success, returns the
    /// exact sub-`Input` the run consumed together with `read`'s result; a
    /// failure of `read` propagates unchanged. Relies on the remaining
    /// region only ever shrinking, which the precondition demands of `read`
    /// and every method of this cursor guarantees.
    pub fn read_partial<F, R, E>(&mut self, read: F) -> (r: Result<(Input<'a>, R), E>) where F:
        FnOnce(&mut Reader<'a>) -> Result<R, E>
        requires
            forall|m: &mut Reader<'a>| (*m)@ == old(self)@ ==> call_requires(read, (m,)),
            forall|m: &mut Reader<'a>, out: Result<R, E>|
                (*m)@ == old(self)@ && #[trigger] call_ensures(read, (m,), out) ==> final(m)@.len()
                    <= (*m)@.len(),
        ensures
            final(self)@.len() <= old(self)@.len(),
            (r matches Ok(p) ==> (p.0@ == old(self)@.take(
                old(self)@.len() - final(self)@.len(),
            ))),
            (r matches Ok(p) ==> exists|m: &mut Reader<'a>, res: R|
                p.1 == res && (*m)@ == old(self)@ && final(m)@ == final(self)@
                    && #[trigger] call_ensures(read, (m,), Ok::<R, E>(res))),
            (r matches Err(e) ==> exists|m: &mut Reader<'a>, err: E|
                e == err && (*m)@ == old(self)@ && final(m)@ == final(self)@
                    && #[trigger] call_ensures(read, (m,), Err::<R, E>(err))),
    {
        let original = self.input;
        let mut inner = Reader { input: original };
        let result = read(&mut inner);
        self.input = inner.input;
        match result {
            Ok(v) => {
                let amount_read = original.len() - self.input.len();
                match original.split_at(amount_read) {
                    Some((before, _)) => Ok((before, v)),
                    None => vstd::pervasive::unreached(),
                }
            },
            Err(e) => Err(e),
        }
    }

    /// Skips `num_bytes` bytes of the input, or fails with `EndOfInput` if
    /// fewer than `num_bytes` bytes remain; on failure the cursor is
    /// unchanged.
    pub fn skip(&mut self, num_bytes: usize) -> (r: Result<(), EndOfInput>)
        ensures
            num_bytes <= old(self)@.len() ==> (r matches Ok(u) && final(self)@ == old(self)@.skip(
                num_bytes as int,
            )),
            num_bytes > old(self)@.len() ==> (r matches Err(e) && e == EndOfInput && final(self)@
                == old(self)@),
    {
        match self.read_bytes(num_bytes) {
            Ok(_) => Ok(()),
            Err(e) => Err(e),
        }
    }

    /// Skips the cursor to the end of the input.
    pub fn skip_to_end(&mut self)
        ensures
            final(self)@.len() == 0,
    {
        let _ = self.read_bytes_to_end();
    }
}

} // verus!
