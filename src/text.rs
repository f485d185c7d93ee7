use vstd::prelude::*;
use vstd::utf8::*;

verus! {

/// Whether the UTF-8 encoding of `s` holds a zero byte, which a native C string
/// cannot carry.
pub open spec fn spec_has_nul(s: Seq<char>) -> bool {
    encode_utf8(s).contains(0u8)
}

/// The text that reaches the native facility for `s`: the text itself, or the
/// empty string where it cannot be represented as a C string.
pub open spec fn spec_native_text(s: Seq<char>) -> Seq<char> {
    if spec_has_nul(s) {
        Seq::empty()
    } else {
        s
    }
}

/// The name `"<path>::<label>"`.
pub open spec fn spec_qualified_name(path: Seq<char>, label: Seq<char>) -> Seq<char> {
    path + "::"@ + label
}

/// Whether `s` holds a NUL character anywhere.
pub fn has_interior_nul(s: &str) -> (r: bool)
    ensures
        r == spec_has_nul(s@),
{
    let bytes = s.as_bytes();
    let mut i: usize = 0;
    while i < bytes.len()
        invariant
            0 <= i <= bytes@.len(),
            bytes@ == encode_utf8(s@),
            forall|j: int| 0 <= j < i ==> bytes@[j] != 0u8,
        decreases bytes@.len() - i,
    {
        if bytes[i] == 0u8 {
            assert(bytes@[i as int] == 0u8);
            return true;
        }
        i = i + 1;
    }
    false
}

/// Converts `s` to the text handed to the native facility. Emission is best-effort:
/// a string that cannot be represented natively becomes the empty string rather
/// than an error.
pub fn native_text(s: &str) -> (r: String)
    ensures
        r@ == spec_native_text(s@),
{
    if has_interior_nul(s) {
        String::new()
    } else {
        String::from_str(s)
    }
}

/// Builds the name `"<path>::<label>"` used for signposts raised at a call site.
pub fn qualified_name(path: &str, label: &str) -> (r: String)
    ensures
        r@ == spec_qualified_name(path@, label@),
{
    let mut name = String::from_str(path);
    name.append("::");
    name.append(label);
    name
}

fn bytes_equal(a: &[u8], b: &[u8]) -> (r: bool)
    ensures
        r == (a@ == b@),
{
    if a.len() != b.len() {
        return false;
    }
    let mut i: usize = 0;
    while i < a.len()
        invariant
            0 <= i <= a@.len(),
            a@.len() == b@.len(),
            forall|j: int| 0 <= j < i ==> a@[j] == b@[j],
        decreases a@.len() - i,
    {
        if a[i] != b[i] {
            return false;
        }
        i = i + 1;
    }
    assert(a@ =~= b@);
    true
}

/// Whether a structured-logging field is the one whose value becomes the
/// signpost message.
pub fn is_message_field(field_name: &str) -> (r: bool)
    ensures
        r == (field_name@ == "message"@),
{
    let expected = "message";
    let same = bytes_equal(field_name.as_bytes(), expected.as_bytes());
    proof {
        encode_utf8_decode_utf8(field_name@);
        encode_utf8_decode_utf8(expected@);
    }
    same
}

} // verus!
