use atom_feed::{AtomEntry, AtomFeedBuilder, Generator, Person, Timestamp};

const DECL: &str = "<?xml version=\"1.0\" encoding=\"utf-8\"?>";
const FEED_OPEN: &str = "<feed xmlns=\"http://www.w3.org/2005/Atom\">";

#[test]
fn minimal_feed_document() {
    let feed = AtomFeedBuilder::new("Example").build();
    let out = feed.write_to();
    let expected = format!("{}{}<title>Example</title></feed>", DECL, FEED_OPEN);
    assert_eq!(out, expected);
}

#[test]
fn rights_is_not_serialized() {
    let feed = AtomFeedBuilder::new("Example").rights("all reserved").build();
    let out = feed.write_to();
    let expected = format!("{}{}<title>Example</title></feed>", DECL, FEED_OPEN);
    assert_eq!(out, expected);
}

#[test]
fn end_to_end_fixed_document() {
    let entry = AtomEntry::new("Hello").authors(vec![Person::new("Alice")]);
    let feed = AtomFeedBuilder::new("Test Feed")
        .id("urn:test:1")
        .entries(vec![entry])
        .build();
    let out = feed.write_to();
    let expected = format!(
        "{}{}<id>urn:test:1</id><title>Test Feed</title>\
         <entry><title>Hello</title><author><name>Alice</name></author></entry></feed>",
        DECL, FEED_OPEN
    );
    assert_eq!(out, expected);
}

#[test]
fn entries_appear_in_supplied_order() {
    let entries = vec![
        AtomEntry::new("first"),
        AtomEntry::new("second"),
        AtomEntry::new("third"),
    ];
    let feed = AtomFeedBuilder::new("Ordered").entries(entries).build();
    let out = feed.write_to();
    assert_eq!(out.matches("<entry>").count(), 3);
    assert_eq!(out.matches("</entry>").count(), 3);
    let a = out.find("<title>first</title>").unwrap();
    let b = out.find("<title>second</title>").unwrap();
    let c = out.find("<title>third</title>").unwrap();
    assert!(a < b && b < c);
}

#[test]
fn special_characters_are_escaped_in_text() {
    let feed = AtomFeedBuilder::new("a<b&c\"d").build();
    let out = feed.write_to();
    assert!(out.contains("<title>a&lt;b&amp;c&quot;d</title>"));
    assert!(!out.contains("a<b"));
    assert!(!out.contains("c\"d"));
}

#[test]
fn more_escapes_in_text_content() {
    let entry = AtomEntry::new("e").summary("x>y").content("it's");
    let feed = AtomFeedBuilder::new("t").entries(vec![entry]).build();
    let out = feed.write_to();
    assert!(out.contains("<summary type=\"html\">x&gt;y</summary>"));
    assert!(out.contains("<content type=\"html\">it&apos;s</content>"));
}

#[test]
fn attribute_values_are_escaped() {
    let entry = AtomEntry::new("e").categories(vec![String::from("a\"b&c")]);
    let feed = AtomFeedBuilder::new("t").entries(vec![entry]).build();
    let out = feed.write_to();
    assert!(out.contains("<category term=\"a&quot;b&amp;c\"/>"));
}

#[test]
fn serialization_is_idempotent() {
    let entry = AtomEntry::new("Hello")
        .id("urn:e:1")
        .uri("http://example.org/hello")
        .summary("s");
    let feed = AtomFeedBuilder::new("Feed")
        .id("urn:f:1")
        .self_uri("http://example.org/feed.xml")
        .entries(vec![entry])
        .build();
    let first = feed.write_to();
    let second = feed.write_to();
    assert_eq!(first, second);
}

#[test]
fn non_utc_offset_is_preserved_verbatim() {
    let ts = Timestamp::new(2023, 1, 15, 10, 30, 0, 330);
    let feed = AtomFeedBuilder::new("t").published(ts).build();
    let out = feed.write_to();
    assert!(out.contains("<published>2023-01-15T10:30:00+05:30</published>"));
    assert!(!out.contains("Z</published>"));
}

#[test]
fn negative_and_zero_offsets_render() {
    let minus = Timestamp::new(2020, 12, 31, 23, 59, 59, -300);
    assert_eq!(minus.rfc3339(), "2020-12-31T23:59:59-05:00");
    let utc = Timestamp::new(2023, 1, 15, 10, 30, 0, 0);
    assert_eq!(utc.rfc3339(), "2023-01-15T10:30:00+00:00");
}

#[test]
fn rfc3339_pads_every_field() {
    let ts = Timestamp::new(7, 3, 4, 5, 6, 7, 90);
    assert_eq!(ts.rfc3339(), "0007-03-04T05:06:07+01:30");
}

#[test]
fn self_link_precedes_alternate_link() {
    let feed = AtomFeedBuilder::new("t")
        .self_uri("http://example.org/feed.xml")
        .uri("http://example.org/")
        .build();
    let out = feed.write_to();
    let self_link =
        "<link href=\"http://example.org/feed.xml\" rel=\"self\" type=\"application/atom+xml\"/>";
    let alt_link = "<link href=\"http://example.org/\" rel=\"alternate\" type=\"text/html\"/>";
    let i = out.find(self_link).unwrap();
    let j = out.find(alt_link).unwrap();
    assert!(i < j);
    assert!(out.contains(&format!("{}{}", self_link, alt_link)));
}

#[test]
fn feed_emission_order_is_fixed() {
    let ts = Timestamp::new(2023, 5, 1, 0, 0, 0, 0);
    let entry = AtomEntry::new("e");
    let feed = AtomFeedBuilder::new("The Title")
        .generator(Generator::new("gen"))
        .self_uri("http://example.org/feed.xml")
        .uri("http://example.org/")
        .published(ts)
        .updated(ts)
        .id("urn:f:1")
        .subtitle("sub")
        .entries(vec![entry])
        .build();
    let out = feed.write_to();
    let expected = format!(
        "{}{}<generator>gen</generator>\
         <link href=\"http://example.org/feed.xml\" rel=\"self\" type=\"application/atom+xml\"/>\
         <link href=\"http://example.org/\" rel=\"alternate\" type=\"text/html\"/>\
         <published>2023-05-01T00:00:00+00:00</published>\
         <updated>2023-05-01T00:00:00+00:00</updated>\
         <id>urn:f:1</id><title>The Title</title><subtitle>sub</subtitle>\
         <entry><title>e</title></entry></feed>",
        DECL, FEED_OPEN
    );
    assert_eq!(out, expected);
}

#[test]
fn generator_attributes_in_order() {
    let feed = AtomFeedBuilder::new("t")
        .generator(Generator::new("gen").uri("http://g.example").version("1.2"))
        .build();
    let out = feed.write_to();
    assert!(out.contains("<generator uri=\"http://g.example\" version=\"1.2\">gen</generator>"));
}

#[test]
fn entry_block_order_is_fixed() {
    let ts = Timestamp::new(2024, 2, 3, 4, 5, 6, 60);
    let author = Person::new("Alice").uri("http://a.example").email("a@example.org");
    let contributor = Person::new("Bob");
    let entry = AtomEntry::new("Hello & Co")
        .uri("http://example.org/hello")
        .published(ts)
        .updated(ts)
        .id("urn:e:1")
        .categories(vec![String::from("news"), String::from("tech")])
        .authors(vec![author])
        .contributors(vec![contributor])
        .summary("the summary")
        .content("the content");
    let feed = AtomFeedBuilder::new("t").entries(vec![entry]).build();
    let out = feed.write_to();
    let expected_entry = "<entry><title>Hello &amp; Co</title>\
         <link href=\"http://example.org/hello\" rel=\"alternate\" type=\"text/html\" title=\"Hello &amp; Co\"/>\
         <published>2024-02-03T04:05:06+01:00</published>\
         <updated>2024-02-03T04:05:06+01:00</updated>\
         <id>urn:e:1</id>\
         <author><name>Alice</name><uri>http://a.example</uri><email>a@example.org</email></author>\
         <contributor><name>Bob</name></contributor>\
         <category term=\"news\"/><category term=\"tech\"/>\
         <summary type=\"html\">the summary</summary>\
         <content type=\"html\">the content</content></entry>";
    assert!(out.contains(expected_entry));
}

#[test]
fn multiple_authors_keep_order() {
    let entry = AtomEntry::new("e").authors(vec![Person::new("One"), Person::new("Two")]);
    let feed = AtomFeedBuilder::new("t").entries(vec![entry]).build();
    let out = feed.write_to();
    assert!(out.contains(
        "<author><name>One</name></author><author><name>Two</name></author>"
    ));
}
