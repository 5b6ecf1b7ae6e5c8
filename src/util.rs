use vstd::prelude::*;

verus! {

/// The UTF-16 code units that encode one character: one unit for a character
/// of the basic multilingual plane, a surrogate pair for any other.
pub open spec fn utf16_units(c: char) -> Seq<u16> {
    let v = c as u32;
    if v < 0x10000 {
        seq![v as u16]
    } else {
        let w = (v - 0x10000) as u32;
        seq![(0xD800 + w / 0x400) as u16, (0xDC00 + w % 0x400) as u16]
    }
}

/// The UTF-16 encoding of a sequence of characters.
pub open spec fn utf16_of(s: Seq<char>) -> Seq<u16>
    decreases s.len(),
{
    if s.len() == 0 {
        Seq::empty()
    } else {
        utf16_of(s.drop_last()) + utf16_units(s.last())
    }
}

/// The UTF-16 encoding of a sequence of characters, closed by a NUL unit, as
/// the wide-string arguments of the platform's API expect it.
pub open spec fn wide_str_of(s: Seq<char>) -> Seq<u16> {
    utf16_of(s).push(0u16)
}

/// Appends the UTF-16 units of `c` to `out`.
fn push_utf16_units(out: &mut Vec<u16>, c: char)
    ensures
        final(out)@ == old(out)@ + utf16_units(c),
{
    let v: u32 = c as u32;
    if v < 0x10000 {
        out.push(v as u16);
    } else {
        let w: u32 = v - 0x10000;
        out.push((0xD800 + w / 0x400) as u16);
        out.push((0xDC00 + w % 0x400) as u16);
    }
    assert(final(out)@ =~= old(out)@ + utf16_units(c));
}

/// Encodes `source` as UTF-16 and closes it with a NUL unit.
pub fn utf16_to_vec(source: &str) -> (r: Vec<u16>)
    ensures
        r@ == wide_str_of(source@),
{
    broadcast use vstd::string::axiom_spec_iter;

    let mut out: Vec<u16> = Vec::new();
    for c in it: source.chars()
        invariant
            it.seq() == source@,
            out@ == utf16_of(it.seq().take(it.index() as int)),
    {
        proof {
            assert(it.seq().take(it.index() + 1).drop_last() =~= it.seq().take(it.index() as int));
        }
        push_utf16_units(&mut out, c);
    }
    assert(source@.take(source@.len() as int) =~= source@);
    out.push(0u16);
    out
}

/// What `std::path::Path::join` makes of a base path and a path to join to it,
/// by the separator rules of the target platform.
pub uninterp spec fn joined_path(base: Seq<char>, rel: Seq<char>) -> Seq<char>;

/// Relies on `std::path::Path::join`: `rel` joined to `base` (or `rel` alone
/// where it is absolute), as text.
#[verifier::external_body]
fn join_path(base: &str, rel: &str) -> (r: String)
    ensures
        r@ == joined_path(base@, rel@),
{
    std::path::Path::new(base).join(rel).to_string_lossy().into_owned()
}

/// The path `s` taken relative to the directory `current_dir`.
pub fn get_relative_file_path(current_dir: &str, s: &str) -> (r: String)
    ensures
        r@ == joined_path(current_dir@, s@),
{
    join_path(current_dir, s)
}

/// The path `s` taken relative to `current_dir`, as a NUL-terminated UTF-16
/// string.
pub fn path_to_wide_str(current_dir: &str, s: &str) -> (r: Vec<u16>)
    ensures
        r@ == wide_str_of(joined_path(current_dir@, s@)),
{
    let path = get_relative_file_path(current_dir, s);
    utf16_to_vec(path.as_str())
}

} // verus!
