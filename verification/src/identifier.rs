//! [`Identifier`] and [`DocumentReference`] — EN 16931 §6.5.6 and §6.5.7.
//!
//! An identifier has three components: content, scheme and scheme version.
//! The scheme is optional in the type so that a document missing one can be
//! loaded and reported (BR-62 … BR-65). A document reference has one
//! component only, by construction.

use vstd::prelude::*;

use crate::codes::guard::{CodeError, CodeList, check_outcome};
use crate::text::{blank, chars_of, is_blank_str, push_str, string_of};

verus! {

/// The text of an optional string.
pub open spec fn opt_view(s: Option<String>) -> Option<Seq<char>> {
    match s {
        Some(t) => Some(t@),
        None => None,
    }
}

/// An owned copy of `s`.
pub fn owned(s: &str) -> (r: String)
    ensures
        r@ == s@,
{
    string_of(&chars_of(s))
}

/// An identifier — EN 16931-1 §6.5.6 `Identifier. Type`: content, scheme and
/// scheme version.
#[derive(Debug, PartialEq, Eq, PartialOrd, Ord, Hash)]
pub struct Identifier {
    content: String,
    scheme: Option<String>,
    scheme_version: Option<String>,
}

impl Clone for Identifier {
    /// The same identifier.
    fn clone(&self) -> (r: Identifier)
        ensures
            r == *self,
    {
        Identifier {
            content: self.content.clone(),
            scheme: self.scheme.clone(),
            scheme_version: self.scheme_version.clone(),
        }
    }
}

impl View for Identifier {
    type V = (Seq<char>, Option<Seq<char>>, Option<Seq<char>>);

    closed spec fn view(&self) -> (Seq<char>, Option<Seq<char>>, Option<Seq<char>>) {
        (self.content@, opt_view(self.scheme), opt_view(self.scheme_version))
    }
}

/// The rendering of an identifier: `scheme:content`, or the content alone.
pub open spec fn identifier_text(v: (Seq<char>, Option<Seq<char>>, Option<Seq<char>>)) -> Seq<
    char,
> {
    match v.1 {
        Some(s) => s + seq![':'] + v.0,
        None => v.0,
    }
}

impl Identifier {
    /// An identifier with no scheme.
    pub fn new(content: &str) -> (r: Identifier)
        ensures
            r@ == (content@, None::<Seq<char>>, None::<Seq<char>>),
    {
        Identifier { content: owned(content), scheme: None, scheme_version: None }
    }

    /// An identifier with a scheme. The scheme is not checked; see
    /// [`Identifier::eas`] for one that is.
    pub fn schemed(content: &str, scheme: &str) -> (r: Identifier)
        ensures
            r@ == (content@, Some(scheme@), None::<Seq<char>>),
    {
        Identifier { content: owned(content), scheme: Some(owned(scheme)), scheme_version: None }
    }

    /// An electronic address (BT-34 / BT-49) whose scheme is checked against
    /// the EAS code list `schemes`, as `BR-CL-25` will check it.
    pub fn eas(content: &str, scheme: &str, schemes: &CodeList) -> (r: Result<
        Identifier,
        CodeError,
    >)
        requires
            schemes.wf(),
        ensures
            r is Ok <==> crate::codes::lists_text(schemes.values@, scheme@),
            r matches Ok(id) ==> id@ == (content@, Some(scheme@), None::<Seq<char>>),
            r matches Err(e) ==> check_outcome(
                schemes.values@,
                schemes.tracks_withdrawals,
                schemes.terms,
                schemes.name,
                schemes.rule,
                scheme@,
                Err(e),
            ),
    {
        match schemes.check(scheme) {
            Ok(code) => Ok(Identifier::schemed(content, code.as_str())),
            Err(e) => Err(e),
        }
    }

    /// Set the scheme version — the component most often forgotten.
    pub fn with_scheme_version(self, version: &str) -> (r: Identifier)
        ensures
            r@ == (self@.0, self@.1, Some(version@)),
    {
        Identifier {
            content: self.content,
            scheme: self.scheme,
            scheme_version: Some(owned(version)),
        }
    }

    /// The content.
    pub fn content(&self) -> (r: &str)
        ensures
            r@ == self@.0,
    {
        self.content.as_str()
    }

    /// The scheme, if any.
    pub fn scheme(&self) -> (r: Option<&str>)
        ensures
            match r {
                Some(s) => self@.1 == Some(s@),
                None => self@.1 is None,
            },
    {
        match &self.scheme {
            Some(s) => Some(s.as_str()),
            None => None,
        }
    }

    /// The scheme version, if any.
    pub fn scheme_version(&self) -> (r: Option<&str>)
        ensures
            match r {
                Some(s) => self@.2 == Some(s@),
                None => self@.2 is None,
            },
    {
        match &self.scheme_version {
            Some(s) => Some(s.as_str()),
            None => None,
        }
    }

    /// Whether the content is empty or whitespace only.
    pub fn is_blank(&self) -> (b: bool)
        ensures
            b == blank(self@.0),
    {
        is_blank_str(self.content.as_str())
    }

    /// `scheme:content`, or the content alone.
    pub fn to_string(&self) -> (r: String)
        ensures
            r@ == identifier_text(self@),
    {
        let mut out: Vec<char> = Vec::new();
        match &self.scheme {
            Some(s) => {
                push_str(&mut out, s.as_str());
                out.push(':');
            },
            None => {},
        }
        push_str(&mut out, self.content.as_str());
        let r = string_of(&out);
        assert(r@ =~= identifier_text(self@));
        r
    }
}

/// A document reference — EN 16931-1 §6.5.7: one component, no scheme.
#[derive(Debug, PartialEq, Eq, PartialOrd, Ord, Hash)]
pub struct DocumentReference(String);

impl Clone for DocumentReference {
    /// The same reference.
    fn clone(&self) -> (r: DocumentReference)
        ensures
            r == *self,
    {
        DocumentReference(self.0.clone())
    }
}

impl View for DocumentReference {
    type V = Seq<char>;

    closed spec fn view(&self) -> Seq<char> {
        self.0@
    }
}

impl DocumentReference {
    /// A reference.
    pub fn new(content: &str) -> (r: DocumentReference)
        ensures
            r@ == content@,
    {
        DocumentReference(owned(content))
    }

    /// The reference.
    pub fn as_str(&self) -> (r: &str)
        ensures
            r@ == self@,
    {
        self.0.as_str()
    }

    /// Whether the reference is empty or whitespace only.
    pub fn is_blank(&self) -> (b: bool)
        ensures
            b == blank(self@),
    {
        is_blank_str(self.0.as_str())
    }

    /// The reference, as written.
    pub fn to_string(&self) -> (r: String)
        ensures
            r@ == self@,
    {
        owned(self.0.as_str())
    }
}

} // verus!
