//! The Atom person construct: a required name with optional URI and email,
//! and its XML form: `<name>`, then `<uri>` if present, then `<email>` if
//! present.

use crate::xml;
use vstd::prelude::*;
use vstd::string::StringExecFns;

verus! {

/// The mathematical value of a person: its three fields as character
/// sequences.
pub ghost struct PersonView {
    pub name: Seq<char>,
    pub uri: Option<Seq<char>>,
    pub email: Option<Seq<char>>,
}

/// The XML a person contributes inside its wrapping element: a `<name>`
/// element always, then `<uri>` and `<email>` when present, in that order.
pub open spec fn spec_person_xml(p: PersonView) -> Seq<char> {
    xml::spec_element("name"@, Seq::empty(), p.name) + xml::spec_opt_text_element("uri"@, p.uri)
        + xml::spec_opt_text_element("email"@, p.email)
}

/// An Atom person construct: an author or contributor.
#[derive(Debug, Clone)]
pub struct Person {
    name: String,
    uri: Option<String>,
    email: Option<String>,
}

impl View for Person {
    type V = PersonView;

    closed spec fn view(&self) -> PersonView {
        PersonView { name: self.name@, uri: self.uri.deep_view(), email: self.email.deep_view() }
    }
}

impl DeepView for Person {
    type V = PersonView;

    open spec fn deep_view(&self) -> PersonView {
        self@
    }
}

impl Person {
    /// A person with the given name and no optional fields.
    pub fn new(name: &str) -> (r: Person)
        ensures
            r@.name == name@,
            r@.uri is None,
            r@.email is None,
    {
        Person { name: name.to_owned(), uri: None, email: None }
    }

    /// The same person with the URI set.
    pub fn uri(self, uri: &str) -> (r: Person)
        ensures
            r@.name == self@.name,
            r@.uri == Some(uri@),
            r@.email == self@.email,
    {
        Person { uri: Some(uri.to_owned()), ..self }
    }

    /// The same person with the email set.
    pub fn email(self, email: &str) -> (r: Person)
        ensures
            r@.name == self@.name,
            r@.uri == self@.uri,
            r@.email == Some(email@),
    {
        Person { email: Some(email.to_owned()), ..self }
    }

    /// Appends this person's XML to `out`.
    pub fn write_xml(&self, out: &mut String)
        ensures
            final(out)@ == old(out)@ + spec_person_xml(self@),
    {
        let attrs = xml::no_attrs();
        let t = xml::text_element("name", &attrs, self.name.as_str());
        out.append(t.as_str());
        let t = xml::opt_text_element("uri", &self.uri);
        out.append(t.as_str());
        let t = xml::opt_text_element("email", &self.email);
        out.append(t.as_str());
        proof {
            assert(out@ =~= old(out)@ + spec_person_xml(self@));
        }
    }
}

} // verus!
