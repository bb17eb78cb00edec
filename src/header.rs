//! The header line of a geometry file, which carries a serialized name.
use vstd::prelude::*;
use vstd::string::StringSliceAdditionalSpecFns;
use vstd::utf8::is_char_boundary;

verus! {

/// The byte that marks a header line as carrying a name.
pub const NAME_MARKER: u8 = 35;

/// The serialized name on a header line: what follows the leading `#`, when
/// the line starts with it and something follows it.
pub open spec fn header_payload(line: Seq<u8>) -> Option<Seq<u8>> {
    if line.len() >= 2 && line[0] == NAME_MARKER && is_char_boundary(line, 1) {
        Some(line.subrange(1, line.len() as int))
    } else {
        None
    }
}

/// The text after the leading `#` of a header line, or `None` when the line
/// does not start with `#` or holds nothing after it.
pub fn name_source(first_line: &str) -> (r: Option<&str>)
    ensures
        r is Some <==> header_payload(first_line.spec_bytes()) is Some,
        r is Some ==> r->0.spec_bytes() == header_payload(first_line.spec_bytes())->0,
{
    let bytes = first_line.as_bytes();
    if bytes.len() >= 2 && bytes[0] == NAME_MARKER && first_line.is_char_boundary(1) {
        let (_, rest) = first_line.split_at(1);
        Some(rest)
    } else {
        None
    }
}

} // verus!
