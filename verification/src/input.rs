//! An immutable, copyable handle over a checked byte view.

use crate::no_panic::Slice;
use crate::reader::Reader;
use vstd::prelude::*;

verus! {

/// An immutable view over a borrowed byte region holding untrusted data.
///
/// No method of `Input` panics; "mutation" operations return new `Input`
/// values over sub-ranges instead of mutating in place.
#[derive(Clone, Copy, Debug)]
pub struct Input<'a> {
    value: Slice<'a>,
}

impl<'a> View for Input<'a> {
    type V = Seq<u8>;

    closed spec fn view(&self) -> Seq<u8> {
        self.value@
    }
}

impl<'a> Input<'a> {
    /// Constructs a new `Input` over the given bytes; succeeds for regions of
    /// any length, including zero.
    pub fn from(bytes: &'a [u8]) -> (input: Self)
        ensures
            input@ == bytes@,
    {
        Self { value: Slice::new(bytes) }
    }

    /// Returns `true` iff the input holds no bytes.
    pub fn is_empty(&self) -> (b: bool)
        ensures
            b <==> self@.len() == 0,
    {
        self.value.is_empty()
    }

    /// Returns the length of the input.
    pub fn len(&self) -> (n: usize)
        ensures
            n == self@.len(),
    {
        self.value.len()
    }

    /// Calls `read` with a fresh `Reader` over this input, then checks that
    /// `read` consumed every byte. A successful result is accepted only for a
    /// fully-consuming run; a run that succeeds but leaves bytes unconsumed
    /// yields `incomplete_read` instead, and a failure of `read` itself
    /// propagates unchanged. This structurally rules out undetected trailing
    /// garbage.
    pub fn read_all<F, R, E>(&self, incomplete_read: E, read: F) -> (result: Result<
        R,
        E,
    >) where F: FnOnce(&mut Reader<'a>) -> Result<R, E>
        requires
            forall|m: &mut Reader<'a>| (*m)@ == self@ ==> call_requires(read, (m,)),
        ensures
            // `Ok(v)` arises only from a run of `read` that returned `Ok(v)`
            // and consumed every byte.
            (result matches Ok(v) ==> exists|m: &mut Reader<'a>|
                (*m)@ == self@ && final(m)@.len() == 0 && #[trigger] call_ensures(
                    read,
                    (m,),
                    Ok::<R, E>(v),
                )),
            // `Err(e)` arises only from a run of `read` that returned `Err(e)`
            // itself, or — with `e` the supplied `incomplete_read` value — from
            // a run that returned `Ok` but left at least one byte unconsumed.
            (result matches Err(e) ==> ((exists|m: &mut Reader<'a>|
                (*m)@ == self@ && #[trigger] call_ensures(read, (m,), Err::<R, E>(e))) || (e
                == incomplete_read && exists|m: &mut Reader<'a>, v: R|
                (*m)@ == self@ && final(m)@.len() > 0 && #[trigger] call_ensures(
                    read,
                    (m,),
                    Ok::<R, E>(v),
                )))),
    {
        let mut reader = Reader::new(*self);
        let result = read(&mut reader);
        match result {
            Ok(v) => {
                if reader.at_end() {
                    Ok(v)
                } else {
                    Err(incomplete_read)
                }
            },
            Err(e) => Err(e),
        }
    }

    /// Returns the first byte of the input, or `None` if it is empty.
    pub fn first(&self) -> (r: Option<&u8>)
        ensures
            self@.len() > 0 ==> r == Some(&self@[0]),
            self@.len() == 0 ==> r is None,
    {
        self.value.get(0)
    }

    /// Returns the first byte and an `Input` over the rest of the bytes, or
    /// `None` if the input is empty.
    pub fn split_first(&self) -> (r: Option<(u8, Self)>)
        ensures
            self@.len() > 0 ==> (r matches Some(p) && p.0 == self@[0] && p.1@ == self@.skip(1)),
            self@.len() == 0 ==> r is None,
    {
        match (self.value.get(0), self.value.subslice(1usize..self.value.len())) {
            (Some(head), Some(tail)) => Some((*head, Self { value: tail })),
            _ => None,
        }
    }

    /// Splits the input into the bytes before and from position `i`, or
    /// returns `None` if `i` is out of bounds. Both `i == 0` and
    /// `i == self.len()` are valid split points.
    pub fn split_at(&self, i: usize) -> (r: Option<(Self, Self)>)
        ensures
            i <= self@.len() ==> (r matches Some(p) && p.0@ == self@.take(i as int) && p.1@
                == self@.skip(i as int)),
            i > self@.len() ==> r is None,
    {
        match (self.value.subslice(0usize..i), self.value.subslice(i..self.value.len())) {
            (Some(before), Some(after)) => Some((Self { value: before }, Self { value: after })),
            _ => None,
        }
    }

    /// Exposes the raw underlying region so the bytes can be handed to code
    /// outside this framework; doing so forfeits the consumption guarantees.
    pub fn as_slice_less_safe(&self) -> (r: &'a [u8])
        ensures
            r@ == self@,
    {
        self.value.as_slice_less_safe()
    }

    /// The diagnostic rendering of the input's bytes, per
    /// `Slice::to_debug_string`: a total, deterministic function of the byte
    /// content alone.
    pub fn to_debug_string(&self) -> (r: String)
        ensures
            r@ == crate::no_panic::ascii_chars(crate::no_panic::debug_render(self@)),
    {
        self.value.to_debug_string()
    }
}

impl<'a> PartialEq for Input<'a> {
    /// Equality is byte-content equality, independent of any cursor state or
    /// borrowed-region identity.
    fn eq(&self, other: &Self) -> (r: bool) {
        crate::no_panic::bytes_eq(self.value.as_slice_less_safe(), other.value.as_slice_less_safe())
    }
}

impl<'a> vstd::std_specs::cmp::PartialEqSpecImpl for Input<'a> {
    open spec fn obeys_eq_spec() -> bool {
        true
    }

    open spec fn eq_spec(&self, other: &Self) -> bool {
        self@ == other@
    }
}

impl<'a> Eq for Input<'a> {

}

impl<'a> PartialEq<[u8]> for Input<'a> {
    /// An `Input` equals a raw byte region iff their contents are equal.
    fn eq(&self, other: &[u8]) -> (r: bool) {
        crate::no_panic::bytes_eq(self.value.as_slice_less_safe(), other)
    }
}

impl<'a> vstd::std_specs::cmp::PartialEqSpecImpl<[u8]> for Input<'a> {
    open spec fn obeys_eq_spec() -> bool {
        true
    }

    open spec fn eq_spec(&self, other: &[u8]) -> bool {
        self@ == other@
    }
}

impl PartialEq<Input<'_>> for [u8] {
    /// A raw byte region equals an `Input` iff their contents are equal.
    fn eq(&self, other: &Input<'_>) -> (r: bool) {
        crate::no_panic::bytes_eq(self, other.value.as_slice_less_safe())
    }
}

impl vstd::std_specs::cmp::PartialEqSpecImpl<Input<'_>> for [u8] {
    open spec fn obeys_eq_spec() -> bool {
        true
    }

    open spec fn eq_spec(&self, other: &Input<'_>) -> bool {
        self@ == other@
    }
}

impl<'a> From<&'a [u8]> for Input<'a> {
    /// Wraps the bytes exactly as `Input::from` does.
    fn from(value: &'a [u8]) -> (input: Self) {
        Self { value: Slice::new(value) }
    }
}

impl<'a> vstd::std_specs::convert::FromSpecImpl<&'a [u8]> for Input<'a> {
    open spec fn obeys_from_spec() -> bool {
        true
    }

    closed spec fn from_spec(value: &'a [u8]) -> Self {
        Input { value: Slice::new_spec(value) }
    }
}

/// Law: `read_all` is consumption-exact on the success side. If every run of
/// `read` over the bytes `bytes` returns `Ok(expected)` and drains the whole
/// cursor, then any outcome that `read_all`'s contract allows is exactly
/// `Ok(expected)`.
pub proof fn lemma_read_all_complete<'a, F, R, E>(
    bytes: Seq<u8>,
    incomplete_read: E,
    read: F,
    result: Result<R, E>,
    expected: R,
) where F: FnOnce(&mut Reader<'a>) -> Result<R, E>
    requires
        forall|m: &mut Reader<'a>, out: Result<R, E>|
            (*m)@ == bytes && #[trigger] call_ensures(read, (m,), out) ==> out == Ok::<R, E>(
                expected,
            ) && final(m)@.len() == 0,
        // `result` is an outcome that `read_all`'s contract over `bytes` allows:
        (result matches Ok(v) ==> exists|m: &mut Reader<'a>|
            (*m)@ == bytes && final(m)@.len() == 0 && #[trigger] call_ensures(
                read,
                (m,),
                Ok::<R, E>(v),
            )),
        (result matches Err(e) ==> ((exists|m: &mut Reader<'a>|
            (*m)@ == bytes && #[trigger] call_ensures(read, (m,), Err::<R, E>(e))) || (e
            == incomplete_read && exists|m: &mut Reader<'a>, v: R|
            (*m)@ == bytes && final(m)@.len() > 0 && #[trigger] call_ensures(
                read,
                (m,),
                Ok::<R, E>(v),
            )))),
    ensures
        result == Ok::<R, E>(expected),
{
}

/// Law: `read_all` is consumption-exact on the failure side. If every run of
/// `read` over the bytes `bytes` succeeds but leaves at least one byte
/// unconsumed, then any outcome that `read_all`'s contract allows is exactly
/// the supplied `incomplete_read` error, and the run's success value is
/// discarded.
pub proof fn lemma_read_all_incomplete<'a, F, R, E>(
    bytes: Seq<u8>,
    incomplete_read: E,
    read: F,
    result: Result<R, E>,
) where F: FnOnce(&mut Reader<'a>) -> Result<R, E>
    requires
        forall|m: &mut Reader<'a>, out: Result<R, E>|
            (*m)@ == bytes && #[trigger] call_ensures(read, (m,), out) ==> out is Ok
                && final(m)@.len() > 0,
        // `result` is an outcome that `read_all`'s contract over `bytes` allows:
        (result matches Ok(v) ==> exists|m: &mut Reader<'a>|
            (*m)@ == bytes && final(m)@.len() == 0 && #[trigger] call_ensures(
                read,
                (m,),
                Ok::<R, E>(v),
            )),
        (result matches Err(e) ==> ((exists|m: &mut Reader<'a>|
            (*m)@ == bytes && #[trigger] call_ensures(read, (m,), Err::<R, E>(e))) || (e
            == incomplete_read && exists|m: &mut Reader<'a>, v: R|
            (*m)@ == bytes && final(m)@.len() > 0 && #[trigger] call_ensures(
                read,
                (m,),
                Ok::<R, E>(v),
            )))),
    ensures
        result matches Err(e) && e == incomplete_read,
{
}

impl Input<'static> {
    /// The zero-length `Input`, usable as a default with no buffer behind it.
    pub fn empty() -> (input: Self)
        ensures
            input@ == Seq::<u8>::empty(),
    {
        Self { value: Slice::new(&[]) }
    }
}

} // verus!
