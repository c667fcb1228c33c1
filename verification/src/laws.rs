//! Document-level laws of the serializer, stated and proved over the same
//! specification functions that the executable contracts use.

use crate::entry::{EntryView, spec_entry_xml};
use crate::feed::{
    FeedView, spec_alternate_link_xml, spec_entries_xml, spec_feed_attrs, spec_feed_prefix_xml,
    spec_feed_xml, spec_opt_generator_xml, spec_self_link_xml,
};
use crate::timestamp::{TimestampView, spec_offset, spec_rfc3339};
use crate::xml;
use vstd::prelude::*;

verus! {

/// Serialization is deterministic: two documents of the same feed value are
/// identical. The executable serializer ensures its output equals
/// `spec_feed_xml` of the feed's view, so any two runs agree.
pub proof fn lemma_serialization_deterministic(f: FeedView, a: Seq<char>, b: Seq<char>)
    requires
        a == spec_feed_xml(f),
        b == spec_feed_xml(f),
    ensures
        a == b,
{
}

/// The document decomposes around its entry blocks: everything before them,
/// the blocks in list order, and the closing `</feed>` tag.
pub proof fn lemma_feed_entries_segment(f: FeedView)
    ensures
        spec_feed_xml(f) == spec_feed_prefix_xml(f) + spec_entries_xml(f.entries)
            + xml::spec_end_tag("feed"@),
{
}

/// Appending an entry to the list appends exactly its block to the entry
/// segment: a feed with N entries carries N blocks, in the supplied order.
pub proof fn lemma_entries_in_order(s: Seq<EntryView>, e: EntryView)
    ensures
        spec_entries_xml(s.push(e)) == spec_entries_xml(s) + spec_entry_xml(e),
{
    assert(s.push(e).drop_last() =~= s);
    assert(s.push(e).last() == e);
}

/// Every entry block opens with `<entry>` and closes with `</entry>`.
pub proof fn lemma_entry_block_delimited(e: EntryView)
    ensures
        spec_entry_xml(e).len() >= 15,
        spec_entry_xml(e).take(7) == seq!['<', 'e', 'n', 't', 'r', 'y', '>'],
        spec_entry_xml(e).skip(spec_entry_xml(e).len() - 8) == seq![
            '<',
            '/',
            'e',
            'n',
            't',
            'r',
            'y',
            '>',
        ],
{
    reveal_strlit("entry");
    let x = spec_entry_xml(e);
    assert(xml::spec_start_tag("entry"@, Seq::empty()) =~= seq!['<', 'e', 'n', 't', 'r', 'y', '>']);
    assert(xml::spec_end_tag("entry"@) =~= seq!['<', '/', 'e', 'n', 't', 'r', 'y', '>']);
    assert(x.take(7) =~= seq!['<', 'e', 'n', 't', 'r', 'y', '>']);
    assert(x.skip(x.len() - 8) =~= seq!['<', '/', 'e', 'n', 't', 'r', 'y', '>']);
}

/// A feed with nothing set beyond the title serializes to exactly the
/// declaration, the `<feed>` tag with the Atom namespace, the `<title>`
/// element, and `</feed>`: no optional element appears.
pub proof fn lemma_minimal_feed(f: FeedView)
    requires
        f.generator is None,
        f.published is None,
        f.updated is None,
        f.uri is None,
        f.self_uri is None,
        f.id is None,
        f.subtitle is None,
        f.entries == Seq::<EntryView>::empty(),
    ensures
        spec_feed_xml(f) == xml::spec_xml_decl() + xml::spec_start_tag("feed"@, spec_feed_attrs())
            + xml::spec_element("title"@, Seq::empty(), f.title) + xml::spec_end_tag("feed"@),
{
    assert(spec_feed_xml(f) =~= xml::spec_xml_decl() + xml::spec_start_tag(
        "feed"@,
        spec_feed_attrs(),
    ) + xml::spec_element("title"@, Seq::empty(), f.title) + xml::spec_end_tag("feed"@));
}

/// Everything a document holds before its links: declaration, `<feed>` tag,
/// optional generator.
pub open spec fn spec_feed_head(f: FeedView) -> Seq<char> {
    xml::spec_xml_decl() + xml::spec_start_tag("feed"@, spec_feed_attrs()) + spec_opt_generator_xml(
        f.generator,
    )
}

/// Everything a document holds after its links.
pub open spec fn spec_feed_tail(f: FeedView) -> Seq<char> {
    xml::spec_opt_timestamp_element("published"@, f.published) + xml::spec_opt_timestamp_element(
        "updated"@,
        f.updated,
    ) + xml::spec_opt_text_element("id"@, f.id) + xml::spec_element(
        "title"@,
        Seq::empty(),
        f.title,
    ) + xml::spec_opt_text_element("subtitle"@, f.subtitle) + spec_entries_xml(f.entries)
        + xml::spec_end_tag("feed"@)
}

/// When both link URIs are set, the document is the head, then the self
/// link, then immediately the alternate link, then the tail: the self link
/// always precedes the alternate link.
pub proof fn lemma_self_link_before_alternate(f: FeedView)
    requires
        f.self_uri is Some,
        f.uri is Some,
    ensures
        spec_feed_xml(f) == spec_feed_head(f) + spec_self_link_xml(f.self_uri)
            + spec_alternate_link_xml(f.uri) + spec_feed_tail(f),
{
    assert(spec_feed_xml(f) =~= spec_feed_head(f) + spec_self_link_xml(f.self_uri)
        + spec_alternate_link_xml(f.uri) + spec_feed_tail(f));
}

/// Reading escaped text back: each escape sequence becomes its character,
/// everything else passes through unchanged.
pub open spec fn unescape_text(s: Seq<char>) -> Seq<char>
    decreases s.len(),
{
    if s.len() == 0 {
        Seq::empty()
    } else if s.len() >= 5 && s.take(5) == seq!['&', 'a', 'm', 'p', ';'] {
        seq!['&'] + unescape_text(s.skip(5))
    } else if s.len() >= 6 && s.take(6) == seq!['&', 'a', 'p', 'o', 's', ';'] {
        seq!['\''] + unescape_text(s.skip(6))
    } else if s.len() >= 6 && s.take(6) == seq!['&', 'q', 'u', 'o', 't', ';'] {
        seq!['"'] + unescape_text(s.skip(6))
    } else if s.len() >= 4 && s.take(4) == seq!['&', 'l', 't', ';'] {
        seq!['<'] + unescape_text(s.skip(4))
    } else if s.len() >= 4 && s.take(4) == seq!['&', 'g', 't', ';'] {
        seq!['>'] + unescape_text(s.skip(4))
    } else if s.len() >= 5 && s.take(5) == seq!['&', '#', '1', '3', ';'] {
        seq!['\r'] + unescape_text(s.skip(5))
    } else {
        seq![s[0]] + unescape_text(s.skip(1))
    }
}

/// Escaping loses nothing: unescaping the escaped text gives back the
/// original, for every input. In particular `<`, `&` and `"` in a title
/// survive the round trip.
pub proof fn lemma_escape_round_trip(s: Seq<char>)
    ensures
        unescape_text(xml::escape_text(s)) == s,
    decreases s.len(),
{
    if s.len() == 0 {
    } else {
        let c = s[0];
        let h = xml::text_escape_char(c);
        let t = xml::escape_text(s.skip(1));
        let x = xml::escape_text(s);
        assert(x == h + t);
        lemma_escape_round_trip(s.skip(1));
        if c == '&' {
            assert(x.take(5) =~= seq!['&', 'a', 'm', 'p', ';']);
            assert(x.skip(5) =~= t);
            assert(seq!['&'] + s.skip(1) =~= s);
        } else if c == '\'' {
            assert(x[2] == 'p');
            assert(x.take(6) =~= seq!['&', 'a', 'p', 'o', 's', ';']);
            assert(x.skip(6) =~= t);
            assert(seq!['\''] + s.skip(1) =~= s);
        } else if c == '"' {
            assert(x[1] == 'q');
            assert(x.take(6) =~= seq!['&', 'q', 'u', 'o', 't', ';']);
            assert(x.skip(6) =~= t);
            assert(seq!['"'] + s.skip(1) =~= s);
        } else if c == '<' {
            assert(x[1] == 'l');
            assert(x.take(4) =~= seq!['&', 'l', 't', ';']);
            assert(x.skip(4) =~= t);
            assert(seq!['<'] + s.skip(1) =~= s);
        } else if c == '>' {
            assert(x[1] == 'g');
            assert(x.take(4) =~= seq!['&', 'g', 't', ';']);
            assert(x.skip(4) =~= t);
            assert(seq!['>'] + s.skip(1) =~= s);
        } else if c == '\r' {
            assert(x[1] == '#');
            assert(x.take(5) =~= seq!['&', '#', '1', '3', ';']);
            assert(x.skip(5) =~= t);
            assert(seq!['\r'] + s.skip(1) =~= s);
        } else {
            assert(x[0] == c);
            assert(x.skip(1) =~= t);
            assert(seq![c] + s.skip(1) =~= s);
        }
    }
}

/// Escaped text never carries a raw `<`, `>`, `"` or `'`: those characters
/// appear only inside escape sequences, as their references.
pub proof fn lemma_escape_no_raw_specials(s: Seq<char>)
    ensures
        forall|i: int|
            0 <= i < xml::escape_text(s).len() ==> {
                let c = #[trigger] xml::escape_text(s)[i];
                c != '<' && c != '>' && c != '"' && c != '\''
            },
    decreases s.len(),
{
    if s.len() == 0 {
    } else {
        lemma_escape_no_raw_specials(s.skip(1));
        let h = xml::text_escape_char(s[0]);
        let t = xml::escape_text(s.skip(1));
        assert(xml::escape_text(s) == h + t);
        assert forall|i: int| 0 <= i < xml::escape_text(s).len() implies {
            let c = #[trigger] xml::escape_text(s)[i];
            c != '<' && c != '>' && c != '"' && c != '\''
        } by {
            if i < h.len() {
                assert(xml::escape_text(s)[i] == h[i]);
            } else {
                assert(xml::escape_text(s)[i] == t[i - h.len()]);
            }
        }
    }
}

/// Text in which no character is special is left exactly as it is by
/// escaping.
pub proof fn lemma_escape_plain_text_identity(s: Seq<char>)
    requires
        forall|i: int| 0 <= i < s.len() ==> !xml::is_text_special(#[trigger] s[i]),
    ensures
        xml::escape_text(s) == s,
    decreases s.len(),
{
    if s.len() == 0 {
        assert(xml::escape_text(s) =~= s);
    } else {
        lemma_escape_plain_text_identity(s.skip(1));
        assert(!xml::is_text_special(s[0]));
        assert(xml::text_escape_char(s[0]) == seq![s[0]]);
        assert(seq![s[0]] + s.skip(1) =~= s);
    }
}

/// No character of an RFC 3339 rendering is special to XML: it is all
/// digits, `-`, `T`, `:` and a sign.
pub proof fn lemma_rfc3339_chars_plain(t: TimestampView)
    ensures
        forall|i: int|
            0 <= i < spec_rfc3339(t).len() ==> !xml::is_text_special(#[trigger] spec_rfc3339(t)[i]),
{
    assert forall|i: int| 0 <= i < spec_rfc3339(t).len() implies !xml::is_text_special(
        #[trigger] spec_rfc3339(t)[i],
    ) by {
        assert(forall|d: int| !xml::is_text_special(#[trigger] crate::timestamp::spec_digit(d)));
    }
}

/// Timestamp fidelity: the serializer writes an RFC 3339 string through the
/// text escaper unchanged, and its last six characters are exactly the
/// rendered offset: a non-UTC offset such as `+05:30` appears verbatim,
/// never normalized.
pub proof fn lemma_timestamp_offset_verbatim(t: TimestampView)
    ensures
        xml::escape_text(spec_rfc3339(t)) == spec_rfc3339(t),
        spec_rfc3339(t).len() == 25,
        spec_rfc3339(t).skip(19) == spec_offset(t.offset_minutes),
{
    lemma_rfc3339_chars_plain(t);
    lemma_escape_plain_text_identity(spec_rfc3339(t));
    assert(spec_rfc3339(t).skip(19) =~= spec_offset(t.offset_minutes));
}

} // verus!
