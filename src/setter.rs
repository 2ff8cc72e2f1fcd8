use vstd::prelude::*;
use vstd::string::{StrSliceExecFns, StringExecFns};
use crate::error::GlassError;

verus! {

/// What `char::to_uppercase` yields for a character, collected into a string.
pub uninterp spec fn upper_of(c: char) -> Seq<char>;

/// Relies on `char::to_uppercase`: the uppercase mapping of one character,
/// which may be several characters long.
#[verifier::external_body]
fn uppercase_char(c: char) -> (r: String)
    ensures
        r@ == upper_of(c),
{
    c.to_uppercase().collect::<String>()
}

/// The private setter form of a property: `set_` + key + `:`.
pub open spec fn private_setter(key: Seq<char>) -> Seq<char> {
    "set_"@ + key + ":"@
}

/// The public setter form of a property whose first character, uppercased,
/// reads `first_upper`: `set` + that + the rest of the key + `:`.
pub open spec fn public_setter(first_upper: Seq<char>, key: Seq<char>) -> Seq<char> {
    "set"@ + first_upper + key.drop_first() + ":"@
}

/// The message of the error for a property that no setter form accepts.
pub open spec fn unknown_property_message(key: Seq<char>) -> Seq<char> {
    "Property '"@ + key + "' not found or not accessible"@
}

/// The private setter name for `key`, tried first.
pub fn private_setter_name(key: &str) -> (r: String)
    ensures
        r@ == private_setter(key@),
{
    let mut name = String::from_str("set_");
    name.append(key);
    name.append(":");
    name
}

/// The public setter name for `key`, given the uppercase form of its first
/// character.
pub fn public_setter_name_from(first_upper: &str, key: &str) -> (r: String)
    requires
        key@.len() > 0,
    ensures
        r@ == public_setter(first_upper@, key@),
{
    let n = key.unicode_len();
    let rest = key.substring_char(1, n);
    assert(rest@ =~= key@.drop_first());
    let mut name = String::from_str("set");
    name.append(first_upper);
    name.append(rest);
    name.append(":");
    assert(name@ =~= public_setter(first_upper@, key@));
    name
}

/// The public setter name for `key`: its first character uppercased.
pub fn public_setter_name(key: &str) -> (r: String)
    requires
        key@.len() > 0,
    ensures
        r@ == public_setter(upper_of(key@[0]), key@),
{
    let first = uppercase_char(key.get_char(0));
    public_setter_name_from(first.as_str(), key)
}

/// Which setter form a surface accepted.
#[derive(Debug, Clone, Copy, PartialEq, Eq)]
pub enum SetterForm {
    Private,
    Public,
}

/// A request to set an integer property on a live surface. The toolkit
/// layer asks the surface whether it responds to each selector, and
/// `resolve` decides from the answers.
#[derive(Debug)]
pub struct PropertyRequest {
    /// The native handle of the surface.
    pub view: usize,
    /// The logical property name.
    pub key: String,
    /// The value to store.
    pub value: i64,
    /// The private setter selector, which takes precedence.
    pub private_selector: String,
    /// The public setter selector, tried when the private one is absent.
    pub public_selector: String,
}

impl PropertyRequest {
    /// The request for property `key` of surface `view`.
    pub fn new(view: usize, key: &str, value: i64) -> (r: PropertyRequest)
        requires
            key@.len() > 0,
        ensures
            r.view == view,
            r.key@ == key@,
            r.value == value,
            r.private_selector@ == private_setter(key@),
            r.public_selector@ == public_setter(upper_of(key@[0]), key@),
    {
        PropertyRequest {
            view,
            key: String::from_str(key),
            value,
            private_selector: private_setter_name(key),
            public_selector: public_setter_name(key),
        }
    }

    /// Decides which setter carries the value: the private form wins when
    /// the surface responds to it, the public form comes next, and a
    /// property that neither form reaches is an error.
    pub fn resolve(&self, private_responds: bool, public_responds: bool) -> (r: Result<SetterForm, GlassError>)
        ensures
            private_responds ==> r == Ok::<SetterForm, GlassError>(SetterForm::Private),
            !private_responds && public_responds ==> r == Ok::<SetterForm, GlassError>(SetterForm::Public),
            !private_responds && !public_responds ==> (r matches Err(GlassError::RuntimeError(m))
                && m@ == unknown_property_message(self.key@)),
    {
        if private_responds {
            Ok(SetterForm::Private)
        } else if public_responds {
            Ok(SetterForm::Public)
        } else {
            let mut m = String::from_str("Property '");
            m.append(self.key.as_str());
            m.append("' not found or not accessible");
            Err(GlassError::RuntimeError(m))
        }
    }
}

} // verus!
