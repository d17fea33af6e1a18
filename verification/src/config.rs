//! Identifiers and the handle on an application file. The file's bytes are
//! read and written by the process edge; the library only keeps the path and
//! the identity of what it names.

use vstd::prelude::*;

verus! {

/// A lowercase hexadecimal digit, as the hyphenated identifier encoding
/// emits between its hyphens.
pub open spec fn is_lower_hex_digit(c: char) -> bool {
    ('0' as u32 <= c as u32 && c as u32 <= '9' as u32) || ('a' as u32 <= c as u32 && c as u32
        <= 'f' as u32)
}

/// Position `i` of an identifier's text holds what the hyphenated encoding
/// puts there: a hyphen at 8, 13, 18 and 23, a lowercase hexadecimal digit
/// everywhere else.
pub open spec fn id_char_ok(s: Seq<char>, i: int) -> bool {
    if i == 8 || i == 13 || i == 18 || i == 23 {
        s[i] == '-'
    } else {
        is_lower_hex_digit(s[i])
    }
}

/// The shape every freshly drawn identifier's text has.
pub open spec fn is_hyphenated_id(s: Seq<char>) -> bool {
    &&& s.len() == 36
    &&& forall|i: int| 0 <= i < 36 ==> #[trigger] id_char_ok(s, i)
}

/// Relies on `uuid::Uuid::new_v4` and `Display` for `Uuid`: the value is
/// random; its text form is the hyphenated encoding — 36 characters, hyphens
/// at positions 8, 13, 18 and 23, lowercase hexadecimal digits elsewhere.
/// The draw aborts rather than returning if the operating system cannot
/// supply randomness.
#[verifier::external_body]
fn fresh_v4_hyphenated() -> (r: String)
    ensures
        is_hyphenated_id(r@),
{
    uuid::Uuid::new_v4().to_string()
}

/// An identifier for a stored request or file.
#[derive(Clone, Debug, Hash, PartialEq, Eq)]
pub struct UUID {
    pub value: String,
}

impl UUID {
    /// A freshly drawn identifier. Nothing relates two draws; only the shape
    /// of the text is known. The draw aborts rather than returning if the
    /// operating system cannot supply randomness.
    pub fn new() -> (r: Self)
        ensures
            is_hyphenated_id(r.value@),
            r.value@.len() == 36,
    {
        UUID { value: fresh_v4_hyphenated() }
    }

    pub fn from(value: String) -> (r: Self)
        ensures
            r.value == value,
    {
        UUID { value }
    }
}

/// A file of the application, held as its path. Opening, reading and saving
/// are the persistence collaborator's work at the process edge; the library
/// only carries the path to hand over.
#[derive(Clone, Debug)]
pub struct AppFile {
    path: String,
}

impl AppFile {
    /// The path this handle stands for.
    pub closed spec fn path_spec(&self) -> Seq<char> {
        self.path@
    }

    pub fn init(path: String) -> (r: Self)
        ensures
            r.path_spec() == path@,
    {
        Self { path }
    }

    /// Hands the path out for the collaborator that opens the file.
    pub fn get_path(&self) -> (r: &String)
        ensures
            r@ == self.path_spec(),
    {
        &self.path
    }
}

} // verus!
