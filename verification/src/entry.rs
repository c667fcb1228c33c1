//! The Atom entry: one syndicated item, and its XML block
//! `<entry>...</entry>` with the fixed emission order: title, link,
//! published, updated, id, authors, contributors, categories, summary,
//! content.

use crate::person::{Person, PersonView, spec_person_xml};
use crate::timestamp::{Timestamp, TimestampView};
use crate::xml;
use vstd::prelude::*;
use vstd::seq_lib::lemma_concat_associative;
use vstd::string::StringExecFns;

verus! {

/// The mathematical value of an entry.
pub ghost struct EntryView {
    pub title: Seq<char>,
    pub uri: Option<Seq<char>>,
    pub published: Option<TimestampView>,
    pub updated: Option<TimestampView>,
    pub id: Option<Seq<char>>,
    pub categories: Seq<Seq<char>>,
    pub authors: Seq<PersonView>,
    pub contributors: Seq<PersonView>,
    pub content: Option<Seq<char>>,
    pub summary: Option<Seq<char>>,
}

/// The optional alternate link of an entry: a self-closing `<link>` with
/// `href`, `rel`, `type` and `title` attributes, in that order; the entry's
/// own title is repeated as the `title` attribute.
pub open spec fn spec_entry_link(uri: Option<Seq<char>>, title: Seq<char>) -> Seq<char> {
    match uri {
        Some(u) => xml::spec_empty_tag(
            "link"@,
            seq![("href"@, u), ("rel"@, "alternate"@), ("type"@, "text/html"@), ("title"@, title)],
        ),
        None => Seq::empty(),
    }
}

/// One person wrapped in the element the caller opens around it
/// (`<author>` or `<contributor>`).
pub open spec fn spec_wrapped_person(tag: Seq<char>, p: PersonView) -> Seq<char> {
    xml::spec_start_tag(tag, Seq::empty()) + spec_person_xml(p) + xml::spec_end_tag(tag)
}

/// A list of wrapped persons, in list order.
pub open spec fn spec_persons_xml(tag: Seq<char>, s: Seq<PersonView>) -> Seq<char>
    decreases s.len(),
{
    if s.len() == 0 {
        Seq::empty()
    } else {
        spec_persons_xml(tag, s.drop_last()) + spec_wrapped_person(tag, s.last())
    }
}

/// One category: a self-closing `<category>` with a `term` attribute.
pub open spec fn spec_category_xml(c: Seq<char>) -> Seq<char> {
    xml::spec_empty_tag("category"@, seq![("term"@, c)])
}

/// A list of categories, in list order.
pub open spec fn spec_categories_xml(s: Seq<Seq<char>>) -> Seq<char>
    decreases s.len(),
{
    if s.len() == 0 {
        Seq::empty()
    } else {
        spec_categories_xml(s.drop_last()) + spec_category_xml(s.last())
    }
}

/// An optional element carrying the `type="html"` attribute
/// (`<summary>` and `<content>`).
pub open spec fn spec_opt_html_element(name: Seq<char>, o: Option<Seq<char>>) -> Seq<char> {
    match o {
        Some(t) => xml::spec_element(name, seq![("type"@, "html"@)], t),
        None => Seq::empty(),
    }
}

/// The whole `<entry>...</entry>` block, in the required emission order.
pub open spec fn spec_entry_xml(e: EntryView) -> Seq<char> {
    xml::spec_start_tag("entry"@, Seq::empty()) + xml::spec_element(
        "title"@,
        Seq::empty(),
        e.title,
    ) + spec_entry_link(e.uri, e.title) + xml::spec_opt_timestamp_element("published"@, e.published)
        + xml::spec_opt_timestamp_element("updated"@, e.updated) + xml::spec_opt_text_element(
        "id"@,
        e.id,
    ) + spec_persons_xml("author"@, e.authors) + spec_persons_xml("contributor"@, e.contributors)
        + spec_categories_xml(e.categories) + spec_opt_html_element("summary"@, e.summary)
        + spec_opt_html_element("content"@, e.content) + xml::spec_end_tag("entry"@)
}

/// One Atom entry: a required title, optional metadata, and ordered lists
/// of authors, contributors and category terms.
#[derive(Debug, Clone)]
pub struct AtomEntry {
    title: String,
    uri: Option<String>,
    published: Option<Timestamp>,
    updated: Option<Timestamp>,
    id: Option<String>,
    categories: Vec<String>,
    authors: Vec<Person>,
    contributors: Vec<Person>,
    content: Option<String>,
    summary: Option<String>,
}

impl View for AtomEntry {
    type V = EntryView;

    closed spec fn view(&self) -> EntryView {
        EntryView {
            title: self.title@,
            uri: self.uri.deep_view(),
            published: self.published.deep_view(),
            updated: self.updated.deep_view(),
            id: self.id.deep_view(),
            categories: self.categories.deep_view(),
            authors: self.authors.deep_view(),
            contributors: self.contributors.deep_view(),
            content: self.content.deep_view(),
            summary: self.summary.deep_view(),
        }
    }
}

impl DeepView for AtomEntry {
    type V = EntryView;

    open spec fn deep_view(&self) -> EntryView {
        self@
    }
}

impl AtomEntry {
    /// An entry with the given title and every optional field absent.
    pub fn new(title: &str) -> (r: AtomEntry)
        ensures
            r@ == (EntryView {
                title: title@,
                uri: None,
                published: None,
                updated: None,
                id: None,
                categories: Seq::empty(),
                authors: Seq::empty(),
                contributors: Seq::empty(),
                content: None,
                summary: None,
            }),
    {
        let r = AtomEntry {
            title: title.to_owned(),
            uri: None,
            published: None,
            updated: None,
            id: None,
            categories: Vec::new(),
            authors: Vec::new(),
            contributors: Vec::new(),
            content: None,
            summary: None,
        };
        proof {
            assert(r@.categories =~= Seq::<Seq<char>>::empty());
            assert(r@.authors =~= Seq::<PersonView>::empty());
            assert(r@.contributors =~= Seq::<PersonView>::empty());
        }
        r
    }

    /// The same entry with the alternate link URI set.
    pub fn uri(self, uri: &str) -> (r: AtomEntry)
        ensures
            r@ == (EntryView { uri: Some(uri@), ..self@ }),
    {
        AtomEntry { uri: Some(uri.to_owned()), ..self }
    }

    /// The same entry with the id set.
    pub fn id(self, id: &str) -> (r: AtomEntry)
        ensures
            r@ == (EntryView { id: Some(id@), ..self@ }),
    {
        AtomEntry { id: Some(id.to_owned()), ..self }
    }

    /// The same entry with the published timestamp set.
    pub fn published(self, published: Timestamp) -> (r: AtomEntry)
        ensures
            r@ == (EntryView { published: Some(published@), ..self@ }),
    {
        AtomEntry { published: Some(published), ..self }
    }

    /// The same entry with the updated timestamp set.
    pub fn updated(self, updated: Timestamp) -> (r: AtomEntry)
        ensures
            r@ == (EntryView { updated: Some(updated@), ..self@ }),
    {
        AtomEntry { updated: Some(updated), ..self }
    }

    /// The same entry with the category terms replaced.
    pub fn categories(self, categories: Vec<String>) -> (r: AtomEntry)
        ensures
            r@ == (EntryView { categories: categories.deep_view(), ..self@ }),
    {
        AtomEntry { categories, ..self }
    }

    /// The same entry with the author list replaced.
    pub fn authors(self, authors: Vec<Person>) -> (r: AtomEntry)
        ensures
            r@ == (EntryView { authors: authors.deep_view(), ..self@ }),
    {
        AtomEntry { authors, ..self }
    }

    /// The same entry with the contributor list replaced.
    pub fn contributors(self, contributors: Vec<Person>) -> (r: AtomEntry)
        ensures
            r@ == (EntryView { contributors: contributors.deep_view(), ..self@ }),
    {
        AtomEntry { contributors, ..self }
    }

    /// The same entry with the content set (treated as HTML-typed text).
    pub fn content(self, content: &str) -> (r: AtomEntry)
        ensures
            r@ == (EntryView { content: Some(content@), ..self@ }),
    {
        AtomEntry { content: Some(content.to_owned()), ..self }
    }

    /// The same entry with the summary set (treated as HTML-typed text).
    pub fn summary(self, summary: &str) -> (r: AtomEntry)
        ensures
            r@ == (EntryView { summary: Some(summary@), ..self@ }),
    {
        AtomEntry { summary: Some(summary.to_owned()), ..self }
    }

    /// Appends this entry's XML block to `out`.
    pub fn write_xml(&self, out: &mut String)
        ensures
            final(out)@ == old(out)@ + spec_entry_xml(self@),
    {
        let ghost o0 = out@;
        let attrs0 = xml::no_attrs();
        let t = xml::start_tag("entry", &attrs0);
        out.append(t.as_str());
        let ghost mut p = t@;
        let t = xml::text_element("title", &attrs0, self.title.as_str());
        out.append(t.as_str());
        proof {
            lemma_concat_associative(o0, p, t@);
            p = p + t@;
        }
        let t = entry_link_piece(&self.uri, &self.title);
        out.append(t.as_str());
        proof {
            lemma_concat_associative(o0, p, t@);
            p = p + t@;
        }
        let t = xml::opt_timestamp_element("published", &self.published);
        out.append(t.as_str());
        proof {
            lemma_concat_associative(o0, p, t@);
            p = p + t@;
        }
        let t = xml::opt_timestamp_element("updated", &self.updated);
        out.append(t.as_str());
        proof {
            lemma_concat_associative(o0, p, t@);
            p = p + t@;
        }
        let t = xml::opt_text_element("id", &self.id);
        out.append(t.as_str());
        proof {
            lemma_concat_associative(o0, p, t@);
            p = p + t@;
        }
        write_persons("author", &self.authors, out);
        proof {
            lemma_concat_associative(o0, p, spec_persons_xml("author"@, self.authors.deep_view()));
            p = p + spec_persons_xml("author"@, self.authors.deep_view());
        }
        write_persons("contributor", &self.contributors, out);
        proof {
            lemma_concat_associative(
                o0,
                p,
                spec_persons_xml("contributor"@, self.contributors.deep_view()),
            );
            p = p + spec_persons_xml("contributor"@, self.contributors.deep_view());
        }
        write_categories(&self.categories, out);
        proof {
            lemma_concat_associative(o0, p, spec_categories_xml(self.categories.deep_view()));
            p = p + spec_categories_xml(self.categories.deep_view());
        }
        let t = opt_html_element("summary", &self.summary);
        out.append(t.as_str());
        proof {
            lemma_concat_associative(o0, p, t@);
            p = p + t@;
        }
        let t = opt_html_element("content", &self.content);
        out.append(t.as_str());
        proof {
            lemma_concat_associative(o0, p, t@);
            p = p + t@;
        }
        let t = xml::end_tag("entry");
        out.append(t.as_str());
        proof {
            lemma_concat_associative(o0, p, t@);
            p = p + t@;
            assert(p == spec_entry_xml(self@));
        }
    }
}

/// Emits `spec_entry_link` for an optional alternate link URI.
fn entry_link_piece(uri: &Option<String>, title: &String) -> (r: String)
    ensures
        r@ == spec_entry_link(uri.deep_view(), title@),
{
    match uri {
        Some(u) => {
            let mut attrs: Vec<(String, String)> = Vec::new();
            attrs.push(("href".to_owned(), u.clone()));
            attrs.push(("rel".to_owned(), "alternate".to_owned()));
            attrs.push(("type".to_owned(), "text/html".to_owned()));
            attrs.push(("title".to_owned(), title.clone()));
            proof {
                assert(xml::attr_views(attrs@) =~= seq![
                    ("href"@, u@),
                    ("rel"@, "alternate"@),
                    ("type"@, "text/html"@),
                    ("title"@, title@),
                ]);
            }
            xml::empty_tag("link", &attrs)
        },
        None => String::new(),
    }
}

/// Appends each person of `v`, wrapped in `tag`, in list order.
fn write_persons(tag: &str, v: &Vec<Person>, out: &mut String)
    ensures
        final(out)@ == old(out)@ + spec_persons_xml(tag@, v.deep_view()),
{
    let attrs0 = xml::no_attrs();
    let mut i: usize = 0;
    while i < v.len()
        invariant
            i <= v.len(),
            out@ == old(out)@ + spec_persons_xml(tag@, v.deep_view().take(i as int)),
            xml::attr_views(attrs0@) == Seq::<(Seq<char>, Seq<char>)>::empty(),
        decreases v.len() - i,
    {
        let t = xml::start_tag(tag, &attrs0);
        out.append(t.as_str());
        let p = &v[i];
        p.write_xml(out);
        let t = xml::end_tag(tag);
        out.append(t.as_str());
        proof {
            let s = v.deep_view();
            assert(s.take(i as int + 1).drop_last() =~= s.take(i as int));
            assert(s.take(i as int + 1).last() == s[i as int]);
            assert(out@ =~= old(out)@ + spec_persons_xml(tag@, s.take(i as int + 1)));
        }
        i = i + 1;
    }
    proof {
        assert(v.deep_view().take(v.len() as int) =~= v.deep_view());
    }
}

/// Appends one `<category term="..."/>` per term, in list order.
fn write_categories(v: &Vec<String>, out: &mut String)
    ensures
        final(out)@ == old(out)@ + spec_categories_xml(v.deep_view()),
{
    let mut i: usize = 0;
    while i < v.len()
        invariant
            i <= v.len(),
            out@ == old(out)@ + spec_categories_xml(v.deep_view().take(i as int)),
        decreases v.len() - i,
    {
        let c = &v[i];
        let mut attrs: Vec<(String, String)> = Vec::new();
        attrs.push(("term".to_owned(), c.clone()));
        proof {
            assert(xml::attr_views(attrs@) =~= seq![("term"@, c@)]);
        }
        let t = xml::empty_tag("category", &attrs);
        out.append(t.as_str());
        proof {
            let s = v.deep_view();
            assert(s.take(i as int + 1).drop_last() =~= s.take(i as int));
            assert(s.take(i as int + 1).last() == s[i as int]);
            assert(out@ =~= old(out)@ + spec_categories_xml(s.take(i as int + 1)));
        }
        i = i + 1;
    }
    proof {
        assert(v.deep_view().take(v.len() as int) =~= v.deep_view());
    }
}

/// Emits `spec_opt_html_element` for an optional HTML-typed text field.
fn opt_html_element(name: &str, o: &Option<String>) -> (r: String)
    ensures
        r@ == spec_opt_html_element(name@, o.deep_view()),
{
    match o {
        Some(t) => {
            let mut attrs: Vec<(String, String)> = Vec::new();
            attrs.push(("type".to_owned(), "html".to_owned()));
            proof {
                assert(xml::attr_views(attrs@) =~= seq![("type"@, "html"@)]);
            }
            xml::text_element(name, &attrs, t.as_str())
        },
        None => String::new(),
    }
}

} // verus!
