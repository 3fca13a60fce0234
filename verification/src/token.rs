//! The token that names a request.
//!
//! A token is a string of ASCII letters, ASCII digits and underscores. One is
//! made of a text that is checked character by character, or generated: the
//! prefix `ashpd_` and ten random letters or digits.

use rand::Rng;
use vstd::prelude::*;

verus! {

/// Whether `c` is an ASCII letter or an ASCII digit.
pub open spec fn is_alphanumeric(c: char) -> bool {
    ('a' <= c && c <= 'z') || ('A' <= c && c <= 'Z') || ('0' <= c && c <= '9')
}

/// Whether `c` may occur in a handle token: an ASCII letter, an ASCII digit or
/// the underscore.
pub open spec fn is_token_char(c: char) -> bool {
    is_alphanumeric(c) || c == '_'
}

/// Whether every character of `s` may occur in a handle token.
pub open spec fn is_token(s: Seq<char>) -> bool {
    forall|i: int| 0 <= i < s.len() ==> is_token_char(#[trigger] s[i])
}

/// Whether position `i` holds the first character of `s` that may not occur in
/// a handle token.
pub open spec fn is_first_invalid(s: Seq<char>, i: int) -> bool {
    &&& 0 <= i < s.len()
    &&& !is_token_char(s[i])
    &&& is_token(s.subrange(0, i))
}

/// The prefix of every generated token.
pub open spec fn generated_prefix() -> Seq<char> {
    seq!['a', 's', 'h', 'p', 'd', '_']
}

/// The number of random characters in a generated token.
pub const GENERATED_SUFFIX_LEN: usize = 10;

/// Whether `s` has the shape of a generated token: the prefix `ashpd_`, then
/// exactly ten ASCII letters or digits.
pub open spec fn is_generated(s: Seq<char>) -> bool {
    &&& s.len() == generated_prefix().len() + GENERATED_SUFFIX_LEN
    &&& s.subrange(0, generated_prefix().len() as int) == generated_prefix()
    &&& forall|i: int| generated_prefix().len() <= i < s.len() ==> is_alphanumeric(#[trigger] s[i])
}

/// Whether `s` can name a member on the bus: one to 255 token characters, the
/// first of them no digit.
pub open spec fn is_member_name(s: Seq<char>) -> bool {
    &&& 1 <= s.len() <= 255
    &&& is_token(s)
    &&& !('0' <= s[0] && s[0] <= '9')
}

/// Every generated token can name a member on the bus.
pub proof fn lemma_generated_is_member_name(s: Seq<char>)
    requires
        is_generated(s),
    ensures
        is_member_name(s),
{
}

/// The character that made a string unfit as a handle token.
#[derive(Debug, Clone, Copy, PartialEq, Eq, Structural)]
pub struct HandleInvalidCharacter(pub char);

/// `String::push` of the standard library: the character is appended and
/// nothing else changes.
pub assume_specification[ String::push ](s: &mut String, c: char)
    ensures
        final(s)@ == old(s)@.push(c),
;

impl HandleInvalidCharacter {
    /// The text `Invalid Character `, followed by the character.
    pub fn to_string(&self) -> (text: String)
        ensures
            text@ == "Invalid Character "@.push(self.0),
    {
        let mut text = String::from_str("Invalid Character ");
        text.push(self.0);
        text
    }
}

/// Executable form of [`is_token_char`].
pub fn check_token_char(c: char) -> (ok: bool)
    ensures
        ok == is_token_char(c),
{
    ('a' <= c && c <= 'z') || ('A' <= c && c <= 'Z') || ('0' <= c && c <= '9') || c == '_'
}

/// Looks for the first character of `value` that may not occur in a handle
/// token.
pub fn find_invalid(value: &str) -> (r: Option<char>)
    ensures
        r is None <==> is_token(value@),
        r matches Some(c) ==> exists|i: int| is_first_invalid(value@, i) && value@[i] == c,
{
    for c in it: value.chars()
        invariant
            is_token(value@.subrange(0, it.index() as int)),
            it.seq() == value@,
    {
        if !check_token_char(c) {
            return Some(c);
        }
    }
    assert(value@.subrange(0, value@.len() as int) =~= value@);
    None
}

/// A token that names one request: a string of ASCII letters, ASCII digits and
/// underscores.
#[derive(Debug)]
pub struct HandleToken(String);

impl View for HandleToken {
    type V = Seq<char>;

    closed spec fn view(&self) -> Seq<char> {
        self.0@
    }
}

impl HandleToken {
    #[verifier::type_invariant]
    closed spec fn well_formed(&self) -> bool {
        is_token(self.0@)
    }

    /// The token's text, which consists of token characters only.
    pub fn as_str(&self) -> (s: &str)
        ensures
            s@ == self@,
            is_token(s@),
    {
        proof {
            use_type_invariant(self);
        }
        self.0.as_str()
    }
}

impl PartialEq for HandleToken {
    /// Tokens are equal where their texts are.
    fn eq(&self, other: &Self) -> (equal: bool) {
        self.0 == other.0
    }
}

impl Eq for HandleToken {}

impl vstd::std_specs::cmp::PartialEqSpecImpl for HandleToken {
    open spec fn obeys_eq_spec() -> bool {
        true
    }

    open spec fn eq_spec(&self, other: &Self) -> bool {
        self@ == other@
    }
}

impl TryFrom<&str> for HandleToken {
    type Error = HandleInvalidCharacter;

    /// Accepts `value` if every character of it may occur in a handle token,
    /// and otherwise names the first character that may not.
    fn try_from(value: &str) -> (r: Result<Self, Self::Error>)
        ensures
            r is Ok <==> is_token(value@),
            r matches Ok(token) ==> token@ == value@,
            r matches Err(e) ==> exists|i: int| is_first_invalid(value@, i) && value@[i] == e.0,
    {
        match find_invalid(value) {
            Some(c) => Err(HandleInvalidCharacter(c)),
            None => Ok(HandleToken(String::from_str(value))),
        }
    }
}

/// `try_from` states its outcome itself, over the text of the token: a spec
/// function cannot build the token that it returns.
impl vstd::std_specs::convert::TryFromSpecImpl<&str> for HandleToken {
    open spec fn obeys_try_from_spec() -> bool {
        false
    }

    open spec fn try_from_spec(value: &str) -> Result<Self, HandleInvalidCharacter> {
        arbitrary()
    }
}

impl TryFrom<String> for HandleToken {
    type Error = HandleInvalidCharacter;

    /// As for a `&str`.
    fn try_from(value: String) -> (r: Result<Self, Self::Error>)
        ensures
            r is Ok <==> is_token(value@),
            r matches Ok(token) ==> token@ == value@,
            r matches Err(e) ==> exists|i: int| is_first_invalid(value@, i) && value@[i] == e.0,
    {
        HandleToken::try_from(value.as_str())
    }
}

/// As for a `&str`: `try_from` states its outcome itself.
impl vstd::std_specs::convert::TryFromSpecImpl<String> for HandleToken {
    open spec fn obeys_try_from_spec() -> bool {
        false
    }

    open spec fn try_from_spec(value: String) -> Result<Self, HandleInvalidCharacter> {
        arbitrary()
    }
}

/// `zbus::names::OwnedMemberName`: a string that the bus takes as the name of
/// a member.
#[verifier::external_type_specification]
#[verifier::external_body]
pub struct ExOwnedMemberName(zbus::names::OwnedMemberName);

/// `zbus::names::Error`: why a string is no name on the bus.
#[verifier::external_type_specification]
#[verifier::external_body]
pub struct ExNamesError(zbus::names::Error);

/// `OwnedMemberName::try_from` on a `&str`. It accepts a text of one to 255
/// bytes that holds only ASCII letters, ASCII digits and underscores and does
/// not begin with a digit, and no other.
#[verifier::external_body]
fn owned_member_name(text: &str) -> (name: Result<zbus::names::OwnedMemberName, zbus::names::Error>)
    ensures
        name is Ok <==> is_member_name(text@),
{
    zbus::names::OwnedMemberName::try_from(text)
}

impl HandleToken {
    /// The token as the bus takes it: the member name of the same text, or
    /// `None` where the token cannot name a member.
    pub fn member_name(&self) -> (name: Option<zbus::names::OwnedMemberName>)
        ensures
            name is Some <==> is_member_name(self@),
    {
        match owned_member_name(self.as_str()) {
            Ok(name) => Some(name),
            Err(_) => None,
        }
    }
}

/// `rand::rngs::ThreadRng`: a handle to the random number generator of the
/// current thread.
#[verifier::external_type_specification]
#[verifier::external_body]
pub struct ExThreadRng(rand::rngs::ThreadRng);

/// `rand::thread_rng` hands out the generator of the current thread, which
/// the system seeds at its first use; it panics if the system cannot. Nothing
/// is claimed of the generator.
pub assume_specification[ rand::thread_rng ]() -> (rng: rand::rngs::ThreadRng)
;

/// One draw of `rand::Rng::sample` with `rand::distributions::Alphanumeric`,
/// which picks among the ASCII letters and digits: whatever is drawn is one
/// of them.
#[verifier::external_body]
fn sample_alphanumeric(rng: &mut rand::rngs::ThreadRng) -> (c: char)
    ensures
        is_alphanumeric(c),
{
    char::from(rng.sample(rand::distributions::Alphanumeric))
}

impl HandleToken {
    /// The token that the prefix `ashpd_` and `suffix` make, if every
    /// character of `suffix` may occur in a handle token; otherwise the first
    /// character of `suffix` that may not.
    pub fn with_suffix(suffix: &str) -> (r: Result<Self, HandleInvalidCharacter>)
        ensures
            r is Ok <==> is_token(suffix@),
            r matches Ok(token) ==> token@ == generated_prefix() + suffix@,
            r matches Err(e) ==> exists|i: int| is_first_invalid(suffix@, i) && suffix@[i] == e.0,
    {
        match find_invalid(suffix) {
            Some(c) => Err(HandleInvalidCharacter(c)),
            None => {
                let mut text = String::from_str("ashpd_");
                text.append(suffix);
                proof {
                    reveal_strlit("ashpd_");
                }
                Ok(HandleToken(text))
            },
        }
    }

    /// A fresh token: `ashpd_`, then ten characters drawn from `rng`. Such a
    /// token can always name a member on the bus.
    pub fn generate(rng: &mut rand::rngs::ThreadRng) -> (token: Self)
        ensures
            is_generated(token@),
            is_member_name(token@),
    {
        let mut suffix = String::new();
        for n in 0..GENERATED_SUFFIX_LEN
            invariant
                suffix@.len() == n,
                forall|i: int| 0 <= i < suffix@.len() ==> is_alphanumeric(#[trigger] suffix@[i]),
        {
            suffix.push(sample_alphanumeric(rng));
        }
        let token = HandleToken::with_suffix(suffix.as_str()).unwrap();
        proof {
            assert(token@.subrange(0, generated_prefix().len() as int) =~= generated_prefix());
            lemma_generated_is_member_name(token@);
        }
        token
    }
}

impl Default for HandleToken {
    /// A fresh token, drawn from the generator of the current thread.
    fn default() -> (token: Self)
        ensures
            is_generated(token@),
            is_member_name(token@),
    {
        let mut rng = rand::thread_rng();
        HandleToken::generate(&mut rng)
    }
}

} // verus!
