//! The names that the library gives to directories and files.
//!
//! ```text
//! <root>/.new/<unique>/name          the experiment's name
//! <root>/.new/<unique>/start-time    when it was started
//! <root>/<name>-<start-time>-<hex>/  the published experiment
//! ```

use vstd::prelude::*;
use vstd::string::StringExecFns;

verus! {

/// The name of the staging area, directly under the storage root.
pub open spec fn spec_staging_directory() -> Seq<char> {
    ".new"@
}

/// The name of the record, in a context, that holds the experiment's name.
pub open spec fn spec_name_record() -> Seq<char> {
    "name"@
}

/// The name of the record, in a context, that holds the start time.
pub open spec fn spec_start_time_record() -> Seq<char> {
    "start-time"@
}

/// The sixteen digits of lower-case hexadecimal, in order.
pub open spec fn hex_digits() -> Seq<char> {
    seq!['0', '1', '2', '3', '4', '5', '6', '7', '8', '9', 'a', 'b', 'c', 'd', 'e', 'f']
}

/// Lower-case hexadecimal: two digits for each byte, the high half first.
pub open spec fn hex_lower(bytes: Seq<u8>) -> Seq<char> {
    Seq::new(
        2 * bytes.len(),
        |i: int|
            if i % 2 == 0 {
                hex_digits()[bytes[i / 2] as int / 16]
            } else {
                hex_digits()[bytes[i / 2] as int % 16]
            },
    )
}

/// The name under which a context is published: the experiment's name, its
/// start time and the suffix in hexadecimal, with a hyphen between them.
pub open spec fn spec_destination_name(
    name: Seq<char>,
    start_time: Seq<char>,
    code: Seq<u8>,
) -> Seq<char> {
    name + seq!['-'] + start_time + seq!['-'] + hex_lower(code)
}

/// The name of the staging area, directly under the storage root.
pub fn staging_directory() -> (text: String)
    ensures
        text@ == spec_staging_directory(),
{
    String::from_str(".new")
}

/// The name of the record that holds the experiment's name.
pub fn name_record() -> (text: String)
    ensures
        text@ == spec_name_record(),
{
    String::from_str("name")
}

/// The name of the record that holds the start time.
pub fn start_time_record() -> (text: String)
    ensures
        text@ == spec_start_time_record(),
{
    String::from_str("start-time")
}

/// Calls `data_encoding::HEXLOWER.encode` on the four bytes. Not proved
/// here: that the result is the bytes in lower-case hexadecimal, two digits
/// for each byte with the high half first, over the digits
/// `0123456789abcdef`. `encode` panics only on inputs beyond
/// `usize::MAX / 512` bytes; this one has four.
#[verifier::external_body]
fn encode_suffix(code: &[u8; 4]) -> (text: String)
    ensures
        text@ == hex_lower(code@),
{
    data_encoding::HEXLOWER.encode(&code[..])
}

/// The name under which a context is published, for the given suffix.
pub fn destination_name(name: &String, start_time: &String, code: &[u8; 4]) -> (text: String)
    ensures
        text@ == spec_destination_name(name@, start_time@, code@),
{
    let hex = encode_suffix(code);
    let mut text = name.clone();
    proof {
        reveal_strlit("-");
        assert("-"@ =~= seq!['-']);
    }
    text.append("-");
    text.append(start_time.as_str());
    text.append("-");
    text.append(hex.as_str());
    text
}

/// A published name begins with the experiment's name, and is longer than
/// the name and the start time together by exactly ten characters: two
/// hyphens and eight hexadecimal digits.
pub proof fn lemma_destination_name_length(name: Seq<char>, start_time: Seq<char>, code: Seq<u8>)
    requires
        code.len() == 4,
    ensures
        spec_destination_name(name, start_time, code).len() == name.len() + start_time.len() + 10,
        spec_destination_name(name, start_time, code).subrange(0, name.len() as int) == name,
{
    assert(spec_destination_name(name, start_time, code).subrange(0, name.len() as int) =~= name);
}

} // verus!
