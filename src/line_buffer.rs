use vstd::prelude::*;

verus! {

/// Capacity of the console's command line, in characters.
pub const LINE_CAPACITY: usize = 64;

#[verifier::external_type_specification]
#[verifier::external_body]
pub struct ExHeaplessString<const N: usize>(heapless::String<N>);

/// The characters held by a command-line buffer.
pub uninterp spec fn line_chars(s: heapless::String<64>) -> Seq<char>;

/// Every character is ASCII, so the buffer holds one byte per character.
pub open spec fn all_ascii(s: Seq<char>) -> bool {
    forall|i: int| 0 <= i < s.len() ==> (s[i] as u32) < 128
}

/// Relies on heapless::String::new: an empty buffer.
#[verifier::external_body]
pub(crate) fn line_new() -> (r: heapless::String<64>)
    ensures
        line_chars(r) == Seq::<char>::empty(),
{
    heapless::String::new()
}

/// Relies on heapless::String::push: an ASCII character takes one byte and is
/// appended when fewer than 64 bytes are in use; otherwise `Err` and no change.
#[verifier::external_body]
pub(crate) fn line_push(s: &mut heapless::String<64>, c: char) -> (r: Result<(), ()>)
    requires
        (c as u32) < 128,
        all_ascii(line_chars(*old(s))),
    ensures
        line_chars(*old(s)).len() < LINE_CAPACITY ==> r is Ok && line_chars(*final(s))
            == line_chars(*old(s)).push(c),
        line_chars(*old(s)).len() >= LINE_CAPACITY ==> r is Err && line_chars(*final(s))
            == line_chars(*old(s)),
{
    s.push(c)
}

/// Relies on heapless::String::pop: removes and returns the last character.
#[verifier::external_body]
pub(crate) fn line_pop(s: &mut heapless::String<64>) -> (r: Option<char>)
    ensures
        line_chars(*old(s)).len() == 0 ==> r is None && line_chars(*final(s)) == line_chars(
            *old(s),
        ),
        line_chars(*old(s)).len() > 0 ==> r == Some(line_chars(*old(s)).last()) && line_chars(
            *final(s),
        ) == line_chars(*old(s)).drop_last(),
{
    s.pop()
}

/// Relies on heapless::String::clear: the buffer becomes empty.
#[verifier::external_body]
pub(crate) fn line_clear(s: &mut heapless::String<64>)
    ensures
        line_chars(*final(s)) == Seq::<char>::empty(),
{
    s.clear()
}

/// Relies on heapless::String::as_str: a view of the characters held.
#[verifier::external_body]
pub(crate) fn line_as_str(s: &heapless::String<64>) -> (r: &str)
    ensures
        r@ == line_chars(*s),
{
    s.as_str()
}

} // verus!
