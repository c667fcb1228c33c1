//! The XML text layer: spec functions that say, character for character, what
//! each kind of XML node looks like, and trusted wrappers that produce those
//! nodes through the `quick_xml` writer.
//!
//! The wrappers are the only trusted code in the crate. Each one writes a
//! single event into a fresh in-memory `quick_xml` writer and hands the bytes
//! back as a `String`; its contract states the exact text that the writer
//! emits for that event, escaping included.

use crate::timestamp::{Timestamp, TimestampView, spec_rfc3339};
use vstd::prelude::*;
use vstd::string::StringExecFns;

verus! {

/// The characters that never survive text escaping as themselves.
pub open spec fn is_text_special(c: char) -> bool {
    c == '<' || c == '>' || c == '&' || c == '\'' || c == '"' || c == '\r'
}

/// Replacement `quick_xml` makes for one character of text content
/// (its `escape` function): `<`, `>`, `&`, `'`, `"` and carriage return
/// become character references; everything else passes through.
pub open spec fn text_escape_char(c: char) -> Seq<char> {
    if c == '<' {
        seq!['&', 'l', 't', ';']
    } else if c == '>' {
        seq!['&', 'g', 't', ';']
    } else if c == '&' {
        seq!['&', 'a', 'm', 'p', ';']
    } else if c == '\'' {
        seq!['&', 'a', 'p', 'o', 's', ';']
    } else if c == '"' {
        seq!['&', 'q', 'u', 'o', 't', ';']
    } else if c == '\r' {
        seq!['&', '#', '1', '3', ';']
    } else {
        seq![c]
    }
}

/// Replacement `quick_xml` makes for one character of an attribute value
/// (its `escape_attribute` function): as for text, with newline and tab
/// also turned into character references.
pub open spec fn attr_escape_char(c: char) -> Seq<char> {
    if c == '\n' {
        seq!['&', '#', '1', '0', ';']
    } else if c == '\t' {
        seq!['&', '#', '9', ';']
    } else {
        text_escape_char(c)
    }
}

/// Text content as it appears in the document: every character escaped.
pub open spec fn escape_text(s: Seq<char>) -> Seq<char>
    decreases s.len(),
{
    if s.len() == 0 {
        Seq::empty()
    } else {
        text_escape_char(s[0]) + escape_text(s.skip(1))
    }
}

/// An attribute value as it appears in the document: every character escaped.
pub open spec fn escape_attr(s: Seq<char>) -> Seq<char>
    decreases s.len(),
{
    if s.len() == 0 {
        Seq::empty()
    } else {
        attr_escape_char(s[0]) + escape_attr(s.skip(1))
    }
}

/// One attribute as written inside a tag: a space, the key, `="`, the escaped
/// value, and a closing quote.
pub open spec fn spec_attr(k: Seq<char>, v: Seq<char>) -> Seq<char> {
    seq![' '] + k + seq!['=', '"'] + escape_attr(v) + seq!['"']
}

/// A list of attributes, in order.
pub open spec fn spec_attrs(attrs: Seq<(Seq<char>, Seq<char>)>) -> Seq<char>
    decreases attrs.len(),
{
    if attrs.len() == 0 {
        Seq::empty()
    } else {
        spec_attrs(attrs.drop_last()) + spec_attr(attrs.last().0, attrs.last().1)
    }
}

/// The views of an attribute vector's keys and values.
pub open spec fn attr_views(attrs: Seq<(String, String)>) -> Seq<(Seq<char>, Seq<char>)> {
    attrs.map_values(|p: (String, String)| (p.0@, p.1@))
}

/// The XML declaration this library always emits.
pub open spec fn spec_xml_decl() -> Seq<char> {
    seq!['<', '?', 'x', 'm', 'l', ' ', 'v', 'e', 'r', 's', 'i', 'o', 'n', '=', '"', '1', '.', '0',
        '"', ' ', 'e', 'n', 'c', 'o', 'd', 'i', 'n', 'g', '=', '"', 'u', 't', 'f', '-', '8', '"',
        '?', '>']
}

/// A start tag: `<name attrs>`.
pub open spec fn spec_start_tag(name: Seq<char>, attrs: Seq<(Seq<char>, Seq<char>)>) -> Seq<char> {
    seq!['<'] + name + spec_attrs(attrs) + seq!['>']
}

/// A self-closing tag: `<name attrs/>`.
pub open spec fn spec_empty_tag(name: Seq<char>, attrs: Seq<(Seq<char>, Seq<char>)>) -> Seq<char> {
    seq!['<'] + name + spec_attrs(attrs) + seq!['/', '>']
}

/// An end tag: `</name>`.
pub open spec fn spec_end_tag(name: Seq<char>) -> Seq<char> {
    seq!['<', '/'] + name + seq!['>']
}

/// An element holding escaped text: `<name attrs>text</name>`.
pub open spec fn spec_element(
    name: Seq<char>,
    attrs: Seq<(Seq<char>, Seq<char>)>,
    text: Seq<char>,
) -> Seq<char> {
    spec_start_tag(name, attrs) + escape_text(text) + spec_end_tag(name)
}

/// Relies on `quick_xml::Writer::write_event` with `Event::Decl` of
/// `BytesDecl::new("1.0", Some("utf-8"), None)`: the writer emits the
/// declaration content wrapped in `<?` and `?>`.
#[verifier::external_body]
pub(crate) fn xml_decl() -> (r: String)
    ensures
        r@ == spec_xml_decl(),
{
    let mut w = quick_xml::Writer::new(Vec::new());
    let decl = quick_xml::events::BytesDecl::new("1.0", Some("utf-8"), None);
    w.write_event(quick_xml::events::Event::Decl(decl)).unwrap();
    String::from_utf8(w.into_inner()).unwrap()
}

/// Relies on `quick_xml::Writer::write_event` with `Event::Start`:
/// the writer emits `<`, the tag content, `>`; `BytesStart::extend_attributes`
/// appends ` key="value"` per attribute, the value escaped by
/// `quick_xml::escape::escape_attribute`.
#[verifier::external_body]
pub(crate) fn start_tag(name: &str, attrs: &Vec<(String, String)>) -> (r: String)
    ensures
        r@ == spec_start_tag(name@, attr_views(attrs@)),
{
    let mut tag = quick_xml::events::BytesStart::new(name);
    tag.extend_attributes(attrs.iter().map(|a| (a.0.as_str(), a.1.as_str())));
    let mut w = quick_xml::Writer::new(Vec::new());
    w.write_event(quick_xml::events::Event::Start(tag)).unwrap();
    String::from_utf8(w.into_inner()).unwrap()
}

/// Relies on `quick_xml::Writer::write_event` with `Event::Empty`: as for a
/// start tag, but closed with `/>` (the writer's default configuration puts
/// no space before the slash).
#[verifier::external_body]
pub(crate) fn empty_tag(name: &str, attrs: &Vec<(String, String)>) -> (r: String)
    ensures
        r@ == spec_empty_tag(name@, attr_views(attrs@)),
{
    let mut tag = quick_xml::events::BytesStart::new(name);
    tag.extend_attributes(attrs.iter().map(|a| (a.0.as_str(), a.1.as_str())));
    let mut w = quick_xml::Writer::new(Vec::new());
    w.write_event(quick_xml::events::Event::Empty(tag)).unwrap();
    String::from_utf8(w.into_inner()).unwrap()
}

/// Relies on `quick_xml::Writer::write_event` with `Event::End`: the writer
/// emits `</`, the name, `>`.
#[verifier::external_body]
pub(crate) fn end_tag(name: &str) -> (r: String)
    ensures
        r@ == spec_end_tag(name@),
{
    let mut w = quick_xml::Writer::new(Vec::new());
    let end = quick_xml::events::BytesEnd::new(name);
    w.write_event(quick_xml::events::Event::End(end)).unwrap();
    String::from_utf8(w.into_inner()).unwrap()
}

/// Relies on `quick_xml::Writer::write_event` with `Event::Text` of
/// `BytesText::new`, which escapes the content with
/// `quick_xml::escape::escape`; the writer emits the escaped bytes as they
/// stand.
#[verifier::external_body]
pub(crate) fn text_node(s: &str) -> (r: String)
    ensures
        r@ == escape_text(s@),
{
    let mut w = quick_xml::Writer::new(Vec::new());
    let text = quick_xml::events::BytesText::new(s);
    w.write_event(quick_xml::events::Event::Text(text)).unwrap();
    String::from_utf8(w.into_inner()).unwrap()
}

/// A complete element with text content, composed from the three events the
/// underlying writer sees: start tag, escaped text, end tag.
pub(crate) fn text_element(name: &str, attrs: &Vec<(String, String)>, text: &str) -> (r: String)
    ensures
        r@ == spec_element(name@, attr_views(attrs@), text@),
{
    let mut r = start_tag(name, attrs);
    let t = text_node(text);
    r.append(t.as_str());
    let e = end_tag(name);
    r.append(e.as_str());
    r
}

/// An empty attribute list.
pub(crate) fn no_attrs() -> (r: Vec<(String, String)>)
    ensures
        attr_views(r@) == Seq::<(Seq<char>, Seq<char>)>::empty(),
{
    let r: Vec<(String, String)> = Vec::new();
    proof {
        assert(attr_views(r@) =~= Seq::<(Seq<char>, Seq<char>)>::empty());
    }
    r
}

/// An optional attribute-free element with escaped text content: present
/// fields become one element, absent fields become nothing.
pub open spec fn spec_opt_text_element(name: Seq<char>, o: Option<Seq<char>>) -> Seq<char> {
    match o {
        Some(t) => spec_element(name, Seq::empty(), t),
        None => Seq::empty(),
    }
}

/// Emits `spec_opt_text_element` for an optional string field.
pub(crate) fn opt_text_element(name: &str, o: &Option<String>) -> (r: String)
    ensures
        r@ == spec_opt_text_element(name@, o.deep_view()),
{
    match o {
        Some(t) => {
            let attrs = no_attrs();
            text_element(name, &attrs, t.as_str())
        },
        None => String::new(),
    }
}

/// An optional element holding an RFC 3339 timestamp as escaped text.
pub open spec fn spec_opt_timestamp_element(
    name: Seq<char>,
    o: Option<TimestampView>,
) -> Seq<char> {
    match o {
        Some(t) => spec_element(name, Seq::empty(), spec_rfc3339(t)),
        None => Seq::empty(),
    }
}

/// Emits `spec_opt_timestamp_element` for an optional timestamp field.
pub(crate) fn opt_timestamp_element(name: &str, o: &Option<Timestamp>) -> (r: String)
    ensures
        r@ == spec_opt_timestamp_element(name@, o.deep_view()),
{
    match o {
        Some(t) => {
            let attrs = no_attrs();
            let text = t.rfc3339();
            text_element(name, &attrs, text.as_str())
        },
        None => String::new(),
    }
}

} // verus!
