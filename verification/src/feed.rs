//! The Atom feed: its metadata, its entries, the fluent builder, and the
//! serializer that emits the whole document in the required order:
//! declaration, `<feed>` with the Atom namespace, generator, self link,
//! alternate link, published, updated, id, title, subtitle, entries,
//! `</feed>`.

use crate::entry::{AtomEntry, EntryView, spec_entry_xml};
use crate::generator::{Generator, GeneratorView, spec_generator_xml};
use crate::timestamp::{Timestamp, TimestampView};
use crate::xml;
use vstd::prelude::*;
use vstd::seq_lib::lemma_concat_associative;
use vstd::string::StringExecFns;

verus! {

/// The mathematical value of a feed.
pub ghost struct FeedView {
    pub generator: Option<GeneratorView>,
    pub published: Option<TimestampView>,
    pub updated: Option<TimestampView>,
    pub uri: Option<Seq<char>>,
    pub self_uri: Option<Seq<char>>,
    pub id: Option<Seq<char>>,
    pub title: Seq<char>,
    pub subtitle: Option<Seq<char>>,
    pub rights: Option<Seq<char>>,
    pub entries: Seq<EntryView>,
}

/// The one attribute of the `<feed>` tag: the Atom namespace.
pub open spec fn spec_feed_attrs() -> Seq<(Seq<char>, Seq<char>)> {
    seq![("xmlns"@, "http://www.w3.org/2005/Atom"@)]
}

/// The optional `<generator>` element.
pub open spec fn spec_opt_generator_xml(o: Option<GeneratorView>) -> Seq<char> {
    match o {
        Some(g) => spec_generator_xml(g),
        None => Seq::empty(),
    }
}

/// The optional self link: `<link href="..." rel="self"
/// type="application/atom+xml"/>`.
pub open spec fn spec_self_link_xml(o: Option<Seq<char>>) -> Seq<char> {
    match o {
        Some(u) => xml::spec_empty_tag(
            "link"@,
            seq![("href"@, u), ("rel"@, "self"@), ("type"@, "application/atom+xml"@)],
        ),
        None => Seq::empty(),
    }
}

/// The optional alternate link: `<link href="..." rel="alternate"
/// type="text/html"/>`.
pub open spec fn spec_alternate_link_xml(o: Option<Seq<char>>) -> Seq<char> {
    match o {
        Some(u) => xml::spec_empty_tag(
            "link"@,
            seq![("href"@, u), ("rel"@, "alternate"@), ("type"@, "text/html"@)],
        ),
        None => Seq::empty(),
    }
}

/// All entry blocks, in list order.
pub open spec fn spec_entries_xml(s: Seq<EntryView>) -> Seq<char>
    decreases s.len(),
{
    if s.len() == 0 {
        Seq::empty()
    } else {
        spec_entries_xml(s.drop_last()) + spec_entry_xml(s.last())
    }
}

/// Everything the document holds before the entry blocks.
pub open spec fn spec_feed_prefix_xml(f: FeedView) -> Seq<char> {
    xml::spec_xml_decl() + xml::spec_start_tag("feed"@, spec_feed_attrs())
        + spec_opt_generator_xml(f.generator) + spec_self_link_xml(f.self_uri)
        + spec_alternate_link_xml(f.uri) + xml::spec_opt_timestamp_element(
        "published"@,
        f.published,
    ) + xml::spec_opt_timestamp_element("updated"@, f.updated) + xml::spec_opt_text_element(
        "id"@,
        f.id,
    ) + xml::spec_element("title"@, Seq::empty(), f.title) + xml::spec_opt_text_element(
        "subtitle"@,
        f.subtitle,
    )
}

/// The entire document: prefix, entry blocks, closing tag. The `rights`
/// field contributes nothing; the serializer emits no element for it.
pub open spec fn spec_feed_xml(f: FeedView) -> Seq<char> {
    spec_feed_prefix_xml(f) + spec_entries_xml(f.entries) + xml::spec_end_tag("feed"@)
}

/// An Atom feed: a required title, optional metadata, and an ordered list
/// of entries. Built once through `AtomFeedBuilder`; immutable afterwards.
#[derive(Debug, Clone)]
pub struct AtomFeed {
    generator: Option<Generator>,
    published: Option<Timestamp>,
    updated: Option<Timestamp>,
    uri: Option<String>,
    self_uri: Option<String>,
    id: Option<String>,
    title: String,
    subtitle: Option<String>,
    rights: Option<String>,
    entries: Vec<AtomEntry>,
}

impl View for AtomFeed {
    type V = FeedView;

    closed spec fn view(&self) -> FeedView {
        FeedView {
            generator: self.generator.deep_view(),
            published: self.published.deep_view(),
            updated: self.updated.deep_view(),
            uri: self.uri.deep_view(),
            self_uri: self.self_uri.deep_view(),
            id: self.id.deep_view(),
            title: self.title@,
            subtitle: self.subtitle.deep_view(),
            rights: self.rights.deep_view(),
            entries: self.entries.deep_view(),
        }
    }
}

impl AtomFeed {
    /// Serializes the feed to a complete Atom XML document and returns it;
    /// a caller that owns a byte sink writes the returned text to it.
    pub fn write_to(&self) -> (r: String)
        ensures
            r@ == spec_feed_xml(self@),
    {
        let mut out = String::new();
        self.write_xml(&mut out);
        proof {
            assert(out@ =~= spec_feed_xml(self@));
        }
        out
    }

    /// Appends the whole document to `out`, in the required order.
    pub fn write_xml(&self, out: &mut String)
        ensures
            final(out)@ == old(out)@ + spec_feed_xml(self@),
    {
        let ghost o0 = out@;
        let t = xml::xml_decl();
        out.append(t.as_str());
        let ghost mut p = t@;
        let mut attrs: Vec<(String, String)> = Vec::new();
        attrs.push(("xmlns".to_owned(), "http://www.w3.org/2005/Atom".to_owned()));
        proof {
            assert(xml::attr_views(attrs@) =~= spec_feed_attrs());
        }
        let t = xml::start_tag("feed", &attrs);
        out.append(t.as_str());
        proof {
            lemma_concat_associative(o0, p, t@);
            p = p + t@;
        }
        let t = generator_piece(&self.generator);
        out.append(t.as_str());
        proof {
            lemma_concat_associative(o0, p, t@);
            p = p + t@;
        }
        let t = self_link_piece(&self.self_uri);
        out.append(t.as_str());
        proof {
            lemma_concat_associative(o0, p, t@);
            p = p + t@;
        }
        let t = alternate_link_piece(&self.uri);
        out.append(t.as_str());
        proof {
            lemma_concat_associative(o0, p, t@);
            p = p + t@;
        }
        let t = xml::opt_timestamp_element("published", &self.published);
        out.append(t.as_str());
        proof {
            lemma_concat_associative(o0, p, t@);
            p = p + t@;
        }
        let t = xml::opt_timestamp_element("updated", &self.updated);
        out.append(t.as_str());
        proof {
            lemma_concat_associative(o0, p, t@);
            p = p + t@;
        }
        let t = xml::opt_text_element("id", &self.id);
        out.append(t.as_str());
        proof {
            lemma_concat_associative(o0, p, t@);
            p = p + t@;
        }
        let attrs0 = xml::no_attrs();
        let t = xml::text_element("title", &attrs0, self.title.as_str());
        out.append(t.as_str());
        proof {
            lemma_concat_associative(o0, p, t@);
            p = p + t@;
        }
        let t = xml::opt_text_element("subtitle", &self.subtitle);
        out.append(t.as_str());
        proof {
            lemma_concat_associative(o0, p, t@);
            p = p + t@;
            assert(p == spec_feed_prefix_xml(self@));
        }
        write_entries(&self.entries, out);
        proof {
            lemma_concat_associative(o0, p, spec_entries_xml(self.entries.deep_view()));
            p = p + spec_entries_xml(self.entries.deep_view());
        }
        let t = xml::end_tag("feed");
        out.append(t.as_str());
        proof {
            lemma_concat_associative(o0, p, t@);
            p = p + t@;
            assert(p == spec_feed_xml(self@));
        }
    }
}

/// Emits `spec_opt_generator_xml` for an optional generator.
fn generator_piece(g: &Option<Generator>) -> (r: String)
    ensures
        r@ == spec_opt_generator_xml(g.deep_view()),
{
    match g {
        Some(generator) => {
            let mut s = String::new();
            generator.write_xml(&mut s);
            proof {
                assert(s@ =~= spec_generator_xml(generator@));
            }
            s
        },
        None => String::new(),
    }
}

/// Emits `spec_self_link_xml` for an optional self link URI.
fn self_link_piece(uri: &Option<String>) -> (r: String)
    ensures
        r@ == spec_self_link_xml(uri.deep_view()),
{
    match uri {
        Some(u) => {
            let mut attrs: Vec<(String, String)> = Vec::new();
            attrs.push(("href".to_owned(), u.clone()));
            attrs.push(("rel".to_owned(), "self".to_owned()));
            attrs.push(("type".to_owned(), "application/atom+xml".to_owned()));
            proof {
                assert(xml::attr_views(attrs@) =~= seq![
                    ("href"@, u@),
                    ("rel"@, "self"@),
                    ("type"@, "application/atom+xml"@),
                ]);
            }
            xml::empty_tag("link", &attrs)
        },
        None => String::new(),
    }
}

/// Emits `spec_alternate_link_xml` for an optional alternate link URI.
fn alternate_link_piece(uri: &Option<String>) -> (r: String)
    ensures
        r@ == spec_alternate_link_xml(uri.deep_view()),
{
    match uri {
        Some(u) => {
            let mut attrs: Vec<(String, String)> = Vec::new();
            attrs.push(("href".to_owned(), u.clone()));
            attrs.push(("rel".to_owned(), "alternate".to_owned()));
            attrs.push(("type".to_owned(), "text/html".to_owned()));
            proof {
                assert(xml::attr_views(attrs@) =~= seq![
                    ("href"@, u@),
                    ("rel"@, "alternate"@),
                    ("type"@, "text/html"@),
                ]);
            }
            xml::empty_tag("link", &attrs)
        },
        None => String::new(),
    }
}

/// Appends each entry's block, in list order.
fn write_entries(v: &Vec<AtomEntry>, out: &mut String)
    ensures
        final(out)@ == old(out)@ + spec_entries_xml(v.deep_view()),
{
    let mut i: usize = 0;
    while i < v.len()
        invariant
            i <= v.len(),
            out@ == old(out)@ + spec_entries_xml(v.deep_view().take(i as int)),
        decreases v.len() - i,
    {
        let e = &v[i];
        e.write_xml(out);
        proof {
            let s = v.deep_view();
            lemma_concat_associative(
                old(out)@,
                spec_entries_xml(s.take(i as int)),
                spec_entry_xml(s[i as int]),
            );
            assert(s.take(i as int + 1).drop_last() =~= s.take(i as int));
            assert(s.take(i as int + 1).last() == s[i as int]);
            assert(out@ == old(out)@ + spec_entries_xml(s.take(i as int + 1)));
        }
        i = i + 1;
    }
    proof {
        assert(v.deep_view().take(v.len() as int) =~= v.deep_view());
    }
}

/// The fluent feed builder: every setter consumes the builder and returns
/// it updated; `build` yields the immutable feed. No call can fail.
pub struct AtomFeedBuilder(AtomFeed);

impl View for AtomFeedBuilder {
    type V = FeedView;

    closed spec fn view(&self) -> FeedView {
        self.0@
    }
}

impl AtomFeedBuilder {
    /// A builder holding a feed with only the title set.
    pub fn new(title: &str) -> (r: AtomFeedBuilder)
        ensures
            r@ == (FeedView {
                generator: None,
                published: None,
                updated: None,
                uri: None,
                self_uri: None,
                id: None,
                title: title@,
                subtitle: None,
                rights: None,
                entries: Seq::empty(),
            }),
    {
        let f = AtomFeed {
            title: title.to_owned(),
            generator: None,
            uri: None,
            self_uri: None,
            published: None,
            updated: None,
            id: None,
            subtitle: None,
            rights: None,
            entries: Vec::new(),
        };
        proof {
            assert(f@.entries =~= Seq::<EntryView>::empty());
        }
        AtomFeedBuilder(f)
    }

    /// Sets the generator.
    pub fn generator(self, generator: Generator) -> (r: AtomFeedBuilder)
        ensures
            r@ == (FeedView { generator: Some(generator@), ..self@ }),
    {
        AtomFeedBuilder(AtomFeed { generator: Some(generator), ..self.0 })
    }

    /// Sets the alternate link URI.
    pub fn uri(self, uri: &str) -> (r: AtomFeedBuilder)
        ensures
            r@ == (FeedView { uri: Some(uri@), ..self@ }),
    {
        AtomFeedBuilder(AtomFeed { uri: Some(uri.to_owned()), ..self.0 })
    }

    /// Sets the self link URI.
    pub fn self_uri(self, uri: &str) -> (r: AtomFeedBuilder)
        ensures
            r@ == (FeedView { self_uri: Some(uri@), ..self@ }),
    {
        AtomFeedBuilder(AtomFeed { self_uri: Some(uri.to_owned()), ..self.0 })
    }

    /// Sets the id.
    pub fn id(self, id: &str) -> (r: AtomFeedBuilder)
        ensures
            r@ == (FeedView { id: Some(id@), ..self@ }),
    {
        AtomFeedBuilder(AtomFeed { id: Some(id.to_owned()), ..self.0 })
    }

    /// Sets the subtitle.
    pub fn subtitle(self, subtitle: &str) -> (r: AtomFeedBuilder)
        ensures
            r@ == (FeedView { subtitle: Some(subtitle@), ..self@ }),
    {
        AtomFeedBuilder(AtomFeed { subtitle: Some(subtitle.to_owned()), ..self.0 })
    }

    /// Sets the rights text. The serializer emits no element for it; the
    /// field is carried so the value survives in the model.
    pub fn rights(self, rights: &str) -> (r: AtomFeedBuilder)
        ensures
            r@ == (FeedView { rights: Some(rights@), ..self@ }),
    {
        AtomFeedBuilder(AtomFeed { rights: Some(rights.to_owned()), ..self.0 })
    }

    /// Sets the published timestamp.
    pub fn published(self, published: Timestamp) -> (r: AtomFeedBuilder)
        ensures
            r@ == (FeedView { published: Some(published@), ..self@ }),
    {
        AtomFeedBuilder(AtomFeed { published: Some(published), ..self.0 })
    }

    /// Sets the updated timestamp.
    pub fn updated(self, updated: Timestamp) -> (r: AtomFeedBuilder)
        ensures
            r@ == (FeedView { updated: Some(updated@), ..self@ }),
    {
        AtomFeedBuilder(AtomFeed { updated: Some(updated), ..self.0 })
    }

    /// Replaces the entry list.
    pub fn entries(self, entries: Vec<AtomEntry>) -> (r: AtomFeedBuilder)
        ensures
            r@ == (FeedView { entries: entries.deep_view(), ..self@ }),
    {
        AtomFeedBuilder(AtomFeed { entries, ..self.0 })
    }

    /// Finalizes the builder into an immutable feed.
    pub fn build(self) -> (r: AtomFeed)
        ensures
            r@ == self@,
    {
        self.0
    }
}

} // verus!
