//! The Atom generator construct: a name as text content, with optional
//! `uri` and `version` attributes, in that order.

use crate::xml;
use vstd::prelude::*;
use vstd::string::StringExecFns;

verus! {

/// The mathematical value of a generator.
pub ghost struct GeneratorView {
    pub uri: Option<Seq<char>>,
    pub version: Option<Seq<char>>,
    pub name: Seq<char>,
}

/// The attributes of the `<generator>` tag: `uri` if present, then
/// `version` if present.
pub open spec fn spec_generator_attrs(g: GeneratorView) -> Seq<(Seq<char>, Seq<char>)> {
    (match g.uri {
        Some(u) => seq![("uri"@, u)],
        None => Seq::empty(),
    }) + (match g.version {
        Some(v) => seq![("version"@, v)],
        None => Seq::empty(),
    })
}

/// The `<generator ...>name</generator>` element.
pub open spec fn spec_generator_xml(g: GeneratorView) -> Seq<char> {
    xml::spec_element("generator"@, spec_generator_attrs(g), g.name)
}

/// The Atom generator construct: the software that produced the feed.
#[derive(Debug, Clone)]
pub struct Generator {
    uri: Option<String>,
    version: Option<String>,
    name: String,
}

impl View for Generator {
    type V = GeneratorView;

    closed spec fn view(&self) -> GeneratorView {
        GeneratorView {
            uri: self.uri.deep_view(),
            version: self.version.deep_view(),
            name: self.name@,
        }
    }
}

impl DeepView for Generator {
    type V = GeneratorView;

    open spec fn deep_view(&self) -> GeneratorView {
        self@
    }
}

impl Generator {
    /// A generator with the given name and no attributes.
    pub fn new(name: &str) -> (r: Generator)
        ensures
            r@.name == name@,
            r@.uri is None,
            r@.version is None,
    {
        Generator { name: name.to_owned(), uri: None, version: None }
    }

    /// The same generator with the `uri` attribute set.
    pub fn uri(self, uri: &str) -> (r: Generator)
        ensures
            r@.name == self@.name,
            r@.uri == Some(uri@),
            r@.version == self@.version,
    {
        Generator { uri: Some(uri.to_owned()), ..self }
    }

    /// The same generator with the `version` attribute set.
    pub fn version(self, version: &str) -> (r: Generator)
        ensures
            r@.name == self@.name,
            r@.uri == self@.uri,
            r@.version == Some(version@),
    {
        Generator { version: Some(version.to_owned()), ..self }
    }

    /// Appends this generator's XML to `out`.
    pub fn write_xml(&self, out: &mut String)
        ensures
            final(out)@ == old(out)@ + spec_generator_xml(self@),
    {
        let mut attrs: Vec<(String, String)> = Vec::new();
        if let Some(u) = &self.uri {
            attrs.push(("uri".to_owned(), u.clone()));
        }
        if let Some(v) = &self.version {
            attrs.push(("version".to_owned(), v.clone()));
        }
        proof {
            assert(xml::attr_views(attrs@) =~= spec_generator_attrs(self@));
        }
        let t = xml::text_element("generator", &attrs, self.name.as_str());
        out.append(t.as_str());
        proof {
            assert(out@ =~= old(out)@ + spec_generator_xml(self@));
        }
    }
}

} // verus!
