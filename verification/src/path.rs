//! Device names as the system wants them: prefixed, in UTF-16, and
//! terminated by a zero.

use vstd::prelude::*;

verus! {

/// The UTF-16 code units of one character: the character itself below
/// U+10000, and a high and a low surrogate for the rest.
pub open spec fn utf16_of_char(c: char) -> Seq<u16> {
    let code = c as u32;
    if code < 0x1_0000 {
        seq![code as u16]
    } else {
        seq![
            (0xD800 + (code - 0x1_0000) / 0x400) as u16,
            (0xDC00 + (code - 0x1_0000) % 0x400) as u16,
        ]
    }
}

/// The UTF-16 encoding of a string: the code units of its characters, one
/// after another.
pub open spec fn utf16_of(s: Seq<char>) -> Seq<u16>
    decreases s.len(),
{
    if s.len() == 0 {
        Seq::<u16>::empty()
    } else {
        utf16_of(s.drop_last()) + utf16_of_char(s.last())
    }
}

/// `\\.\`, the prefix that names the system's device namespace.
pub open spec fn device_prefix() -> Seq<u16> {
    seq![0x5Cu16, 0x5Cu16, 0x2Eu16, 0x5Cu16]
}

/// The path under which the device `name` is opened: the device prefix,
/// the name in UTF-16, and a terminating zero.
pub open spec fn wide_device_path(name: Seq<char>) -> Seq<u16> {
    device_prefix() + utf16_of(name) + seq![0u16]
}

/// Appends the UTF-16 code units of `c` to `units`.
pub fn push_utf16(units: &mut Vec<u16>, c: char)
    ensures
        final(units)@ == old(units)@ + utf16_of_char(c),
{
    let code: u32 = c as u32;
    if code < 0x1_0000 {
        units.push(code as u16);
    } else {
        let rest: u32 = code - 0x1_0000;
        units.push((0xD800 + rest / 0x400) as u16);
        units.push((0xDC00 + rest % 0x400) as u16);
    }
    assert(final(units)@ =~= old(units)@ + utf16_of_char(c));
}

/// Builds the path under which the device `name` is opened. The prefix is
/// added whatever the name holds.
pub fn device_path(name: &str) -> (path: Vec<u16>)
    ensures
        path@ == wide_device_path(name@),
{
    let mut path: Vec<u16> = Vec::new();
    path.push(0x5C);
    path.push(0x5C);
    path.push(0x2E);
    path.push(0x5C);
    assert(path@ =~= device_prefix());
    let len: usize = name.unicode_len();
    let mut i: usize = 0;
    while i < len
        invariant
            i <= len,
            len == name@.len(),
            path@ == device_prefix() + utf16_of(name@.take(i as int)),
        decreases len - i,
    {
        let c = name.get_char(i);
        push_utf16(&mut path, c);
        proof {
            let next = name@.take(i + 1);
            assert(next.drop_last() =~= name@.take(i as int));
            assert(next.last() == c);
            assert(path@ =~= device_prefix() + utf16_of(next));
        }
        i += 1;
    }
    assert(name@.take(len as int) =~= name@);
    path.push(0);
    path
}

} // verus!
