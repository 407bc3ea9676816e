use vstd::prelude::*;
use vstd::string::StringExecFns;

verus! {

/// Whether `c` has the Unicode `White_Space` property.
pub open spec fn is_whitespace_spec(c: char) -> bool {
    let n = c as u32;
    (0x9 <= n && n <= 0xD) || n == 0x20 || n == 0x85 || n == 0xA0 || n == 0x1680
        || (0x2000 <= n && n <= 0x200A) || n == 0x2028 || n == 0x2029 || n == 0x202F
        || n == 0x205F || n == 0x3000
}

/// Whether `c` is a control character (general category `Cc`).
pub open spec fn is_control_spec(c: char) -> bool {
    let n = c as u32;
    n <= 0x1F || (0x7F <= n && n <= 0x9F)
}

/// Characters that delimit a symbol in source text, besides whitespace.
pub open spec fn is_delimiter_spec(c: char) -> bool {
    c == ':' || c == ';' || c == '(' || c == ')' || c == '{' || c == '}' || c == ','
}

/// The alphabet that names are written in.
pub open spec fn is_valid_symbol_char_spec(c: char) -> bool {
    !is_whitespace_spec(c) && !is_control_spec(c) && !is_delimiter_spec(c)
}

/// A valid name: non-empty, over the symbol alphabet.
pub open spec fn is_valid_symbol_string_spec(s: Seq<char>) -> bool {
    s.len() > 0 && forall|i: int| 0 <= i < s.len() ==> is_valid_symbol_char_spec(#[trigger] s[i])
}

/// Unicode whitespace test.
pub fn is_whitespace(c: char) -> (r: bool)
    ensures
        r == is_whitespace_spec(c),
{
    let n = c as u32;
    (0x9 <= n && n <= 0xD) || n == 0x20 || n == 0x85 || n == 0xA0 || n == 0x1680
        || (0x2000 <= n && n <= 0x200A) || n == 0x2028 || n == 0x2029 || n == 0x202F
        || n == 0x205F || n == 0x3000
}

/// Control character test.
pub fn is_control(c: char) -> (r: bool)
    ensures
        r == is_control_spec(c),
{
    let n = c as u32;
    n <= 0x1F || (0x7F <= n && n <= 0x9F)
}

/// Delimiter test.
pub fn is_delimiter(c: char) -> (r: bool)
    ensures
        r == is_delimiter_spec(c),
{
    c == ':' || c == ';' || c == '(' || c == ')' || c == '{' || c == '}' || c == ','
}

/// Whether `c` may occur in a name.
pub fn is_valid_symbol_char(c: char) -> (r: bool)
    ensures
        r == is_valid_symbol_char_spec(c),
{
    !is_whitespace(c) && !is_control(c) && !is_delimiter(c)
}

/// Whether `s` is a valid name.
pub fn is_valid_symbol_string(s: &Vec<char>) -> (r: bool)
    ensures
        r == is_valid_symbol_string_spec(s@),
{
    if s.len() == 0 {
        return false;
    }
    let mut i: usize = 0;
    while i < s.len()
        invariant
            i <= s@.len(),
            forall|k: int| 0 <= k < i ==> is_valid_symbol_char_spec(#[trigger] s@[k]),
        decreases s.len() - i,
    {
        if !is_valid_symbol_char(s[i]) {
            return false;
        }
        i = i + 1;
    }
    true
}

/// An identifier. Names compare by their text; the empty name stands for an
/// anonymous binder.
#[derive(Debug)]
pub struct Name {
    pub text: String,
}

impl View for Name {
    type V = Seq<char>;

    open spec fn view(&self) -> Seq<char> {
        self.text@
    }
}

impl Name {
    /// A name with the given text.
    pub fn new(s: &str) -> (r: Name)
        ensures
            r@ == s@,
    {
        Name { text: String::from_str(s) }
    }

    /// A name with the given text.
    pub fn from_string(text: String) -> (r: Name)
        ensures
            r@ == text@,
    {
        Name { text }
    }

    /// The text of the name.
    pub fn as_str(&self) -> (r: &str)
        ensures
            r@ == self@,
    {
        self.text.as_str()
    }

    /// Whether the name is the anonymous one.
    pub fn is_empty(&self) -> (r: bool)
        ensures
            r == (self@.len() == 0),
    {
        self.text.as_str().unicode_len() == 0
    }
}

impl Clone for Name {
    fn clone(&self) -> (r: Self)
        ensures
            r@ == self@,
    {
        Name { text: self.text.clone() }
    }
}

impl PartialEq for Name {
    fn eq(&self, other: &Self) -> (r: bool)
        ensures
            r == (self@ == other@),
    {
        self.text == other.text
    }
}

impl vstd::std_specs::cmp::PartialEqSpecImpl for Name {
    open spec fn obeys_eq_spec() -> bool {
        true
    }

    open spec fn eq_spec(&self, other: &Name) -> bool {
        self@ == other@
    }
}

impl Eq for Name {
}

} // verus!
