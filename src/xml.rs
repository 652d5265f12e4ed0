use vstd::prelude::*;
use vstd::utf8::{decode_utf8, valid_utf8};
use crate::config::{all_wf, valid_timestamp, ChannelDetails, Episode};
use crate::error::CliError;
use crate::format::{
    decimal, format_rfc822, markdown_html_of, markdown_to_html, now_timestamp, rfc822_of,
    to_decimal,
};

verus! {

/// One event of an XML document, as the writer receives it.
pub enum XmlNode {
    /// The declaration `<?xml version="1.0" encoding="UTF-8"?>`.
    Decl,
    /// An opening tag, with its attributes in order.
    Start(Seq<char>, Seq<(Seq<char>, Seq<char>)>),
    /// A closing tag.
    End(Seq<char>),
    /// Character data, unescaped.
    Text(Seq<char>),
    /// A self-closing tag, with its attributes in order.
    Empty(Seq<char>, Seq<(Seq<char>, Seq<char>)>),
}

#[verifier::external_type_specification]
#[verifier::external_body]
#[verifier::reject_recursive_types(W)]
pub struct ExWriter<W>(quick_xml::Writer<W>);

/// The events written so far into a quick_xml writer.
pub uninterp spec fn xml_written(w: quick_xml::Writer<Vec<u8>>) -> Seq<XmlNode>;

/// The bytes that quick_xml's writer, indenting by four spaces, emits for a
/// sequence of events, escaping text and attribute values.
pub uninterp spec fn xml_bytes_of(events: Seq<XmlNode>) -> Seq<u8>;

/// The attributes of a tag as character sequences.
pub open spec fn attrs_view(attrs: Seq<(&str, &str)>) -> Seq<(Seq<char>, Seq<char>)> {
    attrs.map_values(|p: (&str, &str)| (p.0@, p.1@))
}

/// Relies on `quick_xml::Writer::new_with_indent` over an empty `Vec<u8>`,
/// indenting by four spaces: nothing is written yet.
#[verifier::external_body]
fn new_writer() -> (r: quick_xml::Writer<Vec<u8>>)
    ensures
        xml_written(r) == Seq::<XmlNode>::empty(),
{
    quick_xml::Writer::new_with_indent(Vec::new(), b' ', 4)
}

/// Relies on `quick_xml::Writer::write_event` with `Event::Decl` of version
/// 1.0 and encoding UTF-8; writing into a `Vec<u8>` does not fail.
#[verifier::external_body]
fn write_decl(w: &mut quick_xml::Writer<Vec<u8>>)
    ensures
        xml_written(*final(w)) == xml_written(*old(w)).push(XmlNode::Decl),
{
    let decl = quick_xml::events::BytesDecl::new("1.0", Some("UTF-8"), None);
    w.write_event(quick_xml::events::Event::Decl(decl)).ok();
}

/// Relies on `quick_xml::Writer::write_event` with `Event::Start`; writing
/// into a `Vec<u8>` does not fail.
#[verifier::external_body]
fn write_start(w: &mut quick_xml::Writer<Vec<u8>>, name: &str, attrs: &Vec<(&str, &str)>)
    ensures
        xml_written(*final(w)) == xml_written(*old(w)).push(
            XmlNode::Start(name@, attrs_view(attrs@)),
        ),
{
    let start = quick_xml::events::BytesStart::new(name).with_attributes(attrs.iter().copied());
    w.write_event(quick_xml::events::Event::Start(start)).ok();
}

/// Relies on `quick_xml::Writer::write_event` with `Event::End`; writing
/// into a `Vec<u8>` does not fail.
#[verifier::external_body]
fn write_end(w: &mut quick_xml::Writer<Vec<u8>>, name: &str)
    ensures
        xml_written(*final(w)) == xml_written(*old(w)).push(XmlNode::End(name@)),
{
    w.write_event(quick_xml::events::Event::End(quick_xml::events::BytesEnd::new(name))).ok();
}

/// Relies on `quick_xml::Writer::write_event` with `Event::Text` built by
/// `BytesText::new`, which escapes the text; writing into a `Vec<u8>` does not fail.
#[verifier::external_body]
fn write_text(w: &mut quick_xml::Writer<Vec<u8>>, text: &str)
    ensures
        xml_written(*final(w)) == xml_written(*old(w)).push(XmlNode::Text(text@)),
{
    w.write_event(quick_xml::events::Event::Text(quick_xml::events::BytesText::new(text))).ok();
}

/// Relies on `quick_xml::Writer::write_event` with `Event::Empty`; writing
/// into a `Vec<u8>` does not fail.
#[verifier::external_body]
fn write_empty(w: &mut quick_xml::Writer<Vec<u8>>, name: &str, attrs: &Vec<(&str, &str)>)
    ensures
        xml_written(*final(w)) == xml_written(*old(w)).push(
            XmlNode::Empty(name@, attrs_view(attrs@)),
        ),
{
    let empty = quick_xml::events::BytesStart::new(name).with_attributes(attrs.iter().copied());
    w.write_event(quick_xml::events::Event::Empty(empty)).ok();
}

/// Relies on `quick_xml::Writer::into_inner`: the bytes written.
#[verifier::external_body]
fn writer_bytes(w: quick_xml::Writer<Vec<u8>>) -> (r: Vec<u8>)
    ensures
        r@ == xml_bytes_of(xml_written(w)),
{
    w.into_inner()
}

/// Relies on `String::from_utf8`: the text of the bytes where they are UTF-8.
#[verifier::external_body]
fn string_from_utf8(bytes: Vec<u8>) -> (r: Result<String, std::string::FromUtf8Error>)
    ensures
        r is Ok <==> valid_utf8(bytes@),
        r matches Ok(s) ==> s@ == decode_utf8(bytes@),
{
    String::from_utf8(bytes)
}

/// An element that holds only `text`.
pub open spec fn text_element(name: Seq<char>, text: Seq<char>) -> Seq<XmlNode> {
    seq![XmlNode::Start(name, seq![]), XmlNode::Text(text), XmlNode::End(name)]
}

/// The namespaces and version on the root element.
pub open spec fn rss_attrs() -> Seq<(Seq<char>, Seq<char>)> {
    seq![
        ("xmlns:itunes"@, "http://www.itunes.com/dtds/podcast-1.0.dtd"@),
        ("xmlns:content"@, "http://purl.org/rss/1.0/modules/content/"@),
        ("version"@, "2.0"@),
    ]
}

/// An optional link element.
pub open spec fn link_element(link: Option<String>) -> Seq<XmlNode> {
    match link {
        Some(l) => text_element("link"@, l@),
        None => seq![],
    }
}

/// The channel's elements from its title to its publish date.
pub open spec fn channel_intro(c: ChannelDetails, now: int) -> Seq<XmlNode> {
    text_element("title"@, c.title@)
        + text_element("description"@, markdown_html_of(c.title@))
        + link_element(c.link)
        + text_element("language"@, "en-us"@)
        + text_element("copyright"@, "Copyright 2022"@)
        + text_element("lastBuildDate"@, rfc822_of(now))
        + text_element("pubDate"@, rfc822_of(now))
}

/// The channel's elements from the docs link to its category.
pub open spec fn channel_itunes(c: ChannelDetails) -> Seq<XmlNode> {
    text_element("docs"@, "http://blogs.law.harvard.edu/tech/rss"@)
        + text_element("webMaster"@, c.owner.email@)
        + text_element("itunes:type"@, "Serial"@)
        + text_element("itunes:author"@, c.owner.email@)
        + text_element("itunes:subtitle"@, c.subtitle@)
        + text_element("itunes:summary"@, markdown_html_of(c.summary@))
        + seq![XmlNode::Start("itunes:owner"@, seq![])]
        + text_element("itunes:name"@, c.owner.name@)
        + text_element("itunes:email"@, c.owner.email@)
        + seq![XmlNode::End("itunes:owner"@)]
        + text_element("itunes:explicit"@, if c.explicit { "Yes"@ } else { "No"@ })
        + seq![
            XmlNode::Empty("itunes:image"@, seq![("href"@, c.image@)]),
            XmlNode::Empty("itunes:category"@, seq![("text"@, "Fiction"@)]),
        ]
}

/// The declaration, the opening tags and the channel's own elements.
pub open spec fn feed_head(c: ChannelDetails, now: int) -> Seq<XmlNode> {
    seq![XmlNode::Decl, XmlNode::Start("rss"@, rss_attrs()), XmlNode::Start("channel"@, seq![])]
        + channel_intro(c, now) + channel_itunes(c)
}

/// The closing tags of the channel and of the root.
pub open spec fn feed_tail() -> Seq<XmlNode> {
    seq![XmlNode::End("channel"@), XmlNode::End("rss"@)]
}

/// The enclosure of an episode: its media's URL and byte count, as MPEG audio.
pub open spec fn enclosure_element(e: Episode) -> XmlNode {
    XmlNode::Empty(
        "enclosure"@,
        seq![
            ("url"@, e.media.url@),
            ("length"@, decimal(e.media.bytes as nat)),
            ("type"@, "audio/mpeg"@),
        ],
    )
}

/// The elements of an item up to its enclosure.
pub open spec fn item_intro(e: Episode) -> Seq<XmlNode> {
    text_element("title"@, e.title@)
        + text_element("itunes:subtitle"@, e.summary@)
        + link_element(e.link)
        + text_element("guid"@, e.id@)
        + seq![enclosure_element(e)]
}

/// The elements of an item after its enclosure.
pub open spec fn item_details(e: Episode) -> Seq<XmlNode> {
    text_element("pubDate"@, rfc822_of(e.released_at as int))
        + text_element("description"@, markdown_html_of(e.description@))
        + text_element("itunes:summary"@, markdown_html_of(e.description@))
        + text_element("itunes:duration"@, decimal(e.media.duration as nat))
        + text_element("itunes:season"@, decimal(e.season as nat))
        + text_element("itunes:episode"@, decimal(e.episode_number as nat))
        + seq![XmlNode::Empty("itunes:image"@, seq![("href"@, e.image@)])]
        + text_element("itunes:title"@, e.title@)
}

/// The `item` element of one episode.
pub open spec fn item_events(e: Episode) -> Seq<XmlNode> {
    seq![XmlNode::Start("item"@, seq![])] + item_intro(e) + item_details(e)
        + seq![XmlNode::End("item"@)]
}

/// The `item` elements of the episodes, in their order.
pub open spec fn items_events(eps: Seq<Episode>) -> Seq<XmlNode>
    decreases eps.len(),
{
    if eps.len() == 0 {
        seq![]
    } else {
        items_events(eps.drop_last()) + item_events(eps.last())
    }
}

/// The events of the feed of channel `c` with episodes `eps`, built at time `now`.
pub open spec fn feed_events(c: ChannelDetails, eps: Seq<Episode>, now: int) -> Seq<XmlNode> {
    feed_head(c, now) + items_events(eps) + feed_tail()
}

/// The bytes of that feed.
pub open spec fn feed_bytes(c: ChannelDetails, eps: Seq<Episode>, now: int) -> Seq<u8> {
    xml_bytes_of(feed_events(c, eps, now))
}

fn write_text_element(w: &mut quick_xml::Writer<Vec<u8>>, name: &str, text: &str)
    ensures
        xml_written(*final(w)) == xml_written(*old(w)) + text_element(name@, text@),
{
    let none: Vec<(&str, &str)> = Vec::new();
    write_start(w, name, &none);
    write_text(w, text);
    write_end(w, name);
    assert(attrs_view(none@) =~= seq![]);
    assert(xml_written(*w) =~= xml_written(*old(w)) + text_element(name@, text@));
}

fn write_link(w: &mut quick_xml::Writer<Vec<u8>>, link: &Option<String>)
    ensures
        xml_written(*final(w)) == xml_written(*old(w)) + link_element(*link),
{
    match link {
        Some(l) => write_text_element(w, "link", l.as_str()),
        None => {
            assert(xml_written(*w) =~= xml_written(*w) + link_element(*link));
        },
    }
}

fn write_channel_intro(w: &mut quick_xml::Writer<Vec<u8>>, c: &ChannelDetails, now: i64)
    requires
        valid_timestamp(now as int),
    ensures
        xml_written(*final(w)) == xml_written(*old(w)) + channel_intro(*c, now as int),
{
    write_text_element(w, "title", c.title.as_str());
    let description = markdown_to_html(c.title.as_str());
    write_text_element(w, "description", description.as_str());
    write_link(w, &c.link);
    write_text_element(w, "language", "en-us");
    write_text_element(w, "copyright", "Copyright 2022");
    let built = format_rfc822(now);
    write_text_element(w, "lastBuildDate", built.as_str());
    write_text_element(w, "pubDate", built.as_str());
    assert(xml_written(*w) =~= xml_written(*old(w)) + channel_intro(*c, now as int));
}

fn write_channel_itunes(w: &mut quick_xml::Writer<Vec<u8>>, c: &ChannelDetails)
    ensures
        xml_written(*final(w)) == xml_written(*old(w)) + channel_itunes(*c),
{
    let none: Vec<(&str, &str)> = Vec::new();
    write_text_element(w, "docs", "http://blogs.law.harvard.edu/tech/rss");
    write_text_element(w, "webMaster", c.owner.email.as_str());
    write_text_element(w, "itunes:type", "Serial");
    write_text_element(w, "itunes:author", c.owner.email.as_str());
    write_text_element(w, "itunes:subtitle", c.subtitle.as_str());
    let summary = markdown_to_html(c.summary.as_str());
    write_text_element(w, "itunes:summary", summary.as_str());
    write_start(w, "itunes:owner", &none);
    write_text_element(w, "itunes:name", c.owner.name.as_str());
    write_text_element(w, "itunes:email", c.owner.email.as_str());
    write_end(w, "itunes:owner");
    write_text_element(w, "itunes:explicit", if c.explicit { "Yes" } else { "No" });
    let image = vec![("href", c.image.as_str())];
    write_empty(w, "itunes:image", &image);
    let category = vec![("text", "Fiction")];
    write_empty(w, "itunes:category", &category);
    assert(attrs_view(none@) =~= seq![]);
    assert(attrs_view(image@) =~= seq![("href"@, c.image@)]);
    assert(attrs_view(category@) =~= seq![("text"@, "Fiction"@)]);
    assert(xml_written(*w) =~= xml_written(*old(w)) + channel_itunes(*c));
}

fn write_item_intro(w: &mut quick_xml::Writer<Vec<u8>>, e: &Episode)
    ensures
        xml_written(*final(w)) == xml_written(*old(w)) + item_intro(*e),
{
    write_text_element(w, "title", e.title.as_str());
    write_text_element(w, "itunes:subtitle", e.summary.as_str());
    write_link(w, &e.link);
    write_text_element(w, "guid", e.id.as_str());
    let length = to_decimal(e.media.bytes);
    let enclosure = vec![
        ("url", e.media.url.as_str()),
        ("length", length.as_str()),
        ("type", "audio/mpeg"),
    ];
    write_empty(w, "enclosure", &enclosure);
    assert(attrs_view(enclosure@) =~= seq![
        ("url"@, e.media.url@),
        ("length"@, decimal(e.media.bytes as nat)),
        ("type"@, "audio/mpeg"@),
    ]);
    assert(xml_written(*w) =~= xml_written(*old(w)) + item_intro(*e));
}

fn write_item_details(w: &mut quick_xml::Writer<Vec<u8>>, e: &Episode)
    requires
        e.wf(),
    ensures
        xml_written(*final(w)) == xml_written(*old(w)) + item_details(*e),
{
    let published = format_rfc822(e.released_at);
    write_text_element(w, "pubDate", published.as_str());
    let description = markdown_to_html(e.description.as_str());
    write_text_element(w, "description", description.as_str());
    write_text_element(w, "itunes:summary", description.as_str());
    let duration = to_decimal(e.media.duration);
    write_text_element(w, "itunes:duration", duration.as_str());
    let season = to_decimal(e.season);
    write_text_element(w, "itunes:season", season.as_str());
    let number = to_decimal(e.episode_number);
    write_text_element(w, "itunes:episode", number.as_str());
    let image = vec![("href", e.image.as_str())];
    write_empty(w, "itunes:image", &image);
    write_text_element(w, "itunes:title", e.title.as_str());
    assert(attrs_view(image@) =~= seq![("href"@, e.image@)]);
    assert(xml_written(*w) =~= xml_written(*old(w)) + item_details(*e));
}

fn write_item(w: &mut quick_xml::Writer<Vec<u8>>, e: &Episode)
    requires
        e.wf(),
    ensures
        xml_written(*final(w)) == xml_written(*old(w)) + item_events(*e),
{
    let none: Vec<(&str, &str)> = Vec::new();
    write_start(w, "item", &none);
    write_item_intro(w, e);
    write_item_details(w, e);
    write_end(w, "item");
    assert(attrs_view(none@) =~= seq![]);
    assert(xml_written(*w) =~= xml_written(*old(w)) + item_events(*e));
}

/// The feed document of `channel_details` with `episodes`, built at time `now`
/// (seconds since the Unix epoch): the text of `feed_bytes`, or an encoding
/// error exactly where those bytes are not UTF-8.
pub fn render_podcast_xml(channel_details: &ChannelDetails, episodes: &Vec<Episode>, now: i64) -> (r:
    Result<String, CliError>)
    requires
        valid_timestamp(now as int),
        all_wf(episodes@),
    ensures
        match r {
            Ok(s) => valid_utf8(feed_bytes(*channel_details, episodes@, now as int)) && s@
                == decode_utf8(feed_bytes(*channel_details, episodes@, now as int)),
            Err(e) => !valid_utf8(feed_bytes(*channel_details, episodes@, now as int))
                && e is XmlError,
        },
{
    let mut w = new_writer();
    write_decl(&mut w);
    let rss = vec![
        ("xmlns:itunes", "http://www.itunes.com/dtds/podcast-1.0.dtd"),
        ("xmlns:content", "http://purl.org/rss/1.0/modules/content/"),
        ("version", "2.0"),
    ];
    write_start(&mut w, "rss", &rss);
    let none: Vec<(&str, &str)> = Vec::new();
    write_start(&mut w, "channel", &none);
    write_channel_intro(&mut w, channel_details, now);
    write_channel_itunes(&mut w, channel_details);
    assert(attrs_view(rss@) =~= rss_attrs());
    assert(attrs_view(none@) =~= seq![]);
    let ghost head = feed_head(*channel_details, now as int);
    assert(xml_written(w) =~= head);
    let mut i: usize = 0;
    while i < episodes.len()
        invariant
            i <= episodes@.len(),
            all_wf(episodes@),
            xml_written(w) == head + items_events(episodes@.take(i as int)),
        decreases episodes@.len() - i,
    {
        let ghost before = xml_written(w);
        write_item(&mut w, &episodes[i]);
        proof {
            let prefix = episodes@.take(i as int + 1);
            assert(prefix.drop_last() =~= episodes@.take(i as int));
            assert(prefix.last() == episodes@[i as int]);
            assert(xml_written(w) =~= head + items_events(prefix));
        }
        i = i + 1;
    }
    assert(episodes@.take(i as int) =~= episodes@);
    write_end(&mut w, "channel");
    write_end(&mut w, "rss");
    assert(xml_written(w) =~= feed_events(*channel_details, episodes@, now as int));
    let bytes = writer_bytes(w);
    match string_from_utf8(bytes) {
        Ok(s) => Ok(s),
        Err(e) => Err(CliError::XmlError(e)),
    }
}

/// The feed document of `channel_details` with `episodes`, built now: for
/// some representable time `now`, what `render_podcast_xml` gives for it.
pub fn generate_podcast_xml(channel_details: ChannelDetails, episodes: Vec<Episode>) -> (r: Result<
    String,
    CliError,
>)
    requires
        all_wf(episodes@),
    ensures
        exists|now: int|
            valid_timestamp(now) && match r {
                Ok(s) => valid_utf8(feed_bytes(channel_details, episodes@, now)) && s@
                    == decode_utf8(feed_bytes(channel_details, episodes@, now)),
                Err(e) => !valid_utf8(feed_bytes(channel_details, episodes@, now))
                    && e is XmlError,
            },
{
    let now = now_timestamp();
    render_podcast_xml(&channel_details, &episodes, now)
}


/// The number of opening tags named `name` among the events.
pub open spec fn count_starts(evs: Seq<XmlNode>, name: Seq<char>) -> nat
    decreases evs.len(),
{
    if evs.len() == 0 {
        0
    } else {
        count_starts(evs.drop_last(), name) + match evs.last() {
            XmlNode::Start(n, _) => if n == name { 1nat } else { 0nat },
            _ => 0nat,
        }
    }
}

proof fn lemma_count_concat(a: Seq<XmlNode>, b: Seq<XmlNode>, name: Seq<char>)
    ensures
        count_starts(a + b, name) == count_starts(a, name) + count_starts(b, name),
    decreases b.len(),
{
    if b.len() == 0 {
        assert(a + b =~= a);
    } else {
        lemma_count_concat(a, b.drop_last(), name);
        assert((a + b).drop_last() =~= a + b.drop_last());
    }
}

proof fn lemma_count_one(x: XmlNode, name: Seq<char>)
    ensures
        count_starts(seq![x], name) == match x {
            XmlNode::Start(n, _) => if n == name { 1nat } else { 0nat },
            _ => 0nat,
        },
{
    assert(seq![x].drop_last() =~= Seq::<XmlNode>::empty());
    assert(count_starts(Seq::<XmlNode>::empty(), name) == 0);
}

proof fn lemma_count_text_element(n: Seq<char>, t: Seq<char>, name: Seq<char>)
    ensures
        count_starts(text_element(n, t), name) == if n == name { 1nat } else { 0nat },
{
    let s = XmlNode::Start(n, seq![]);
    let x = XmlNode::Text(t);
    let e = XmlNode::End(n);
    assert(text_element(n, t) =~= seq![s] + seq![x] + seq![e]);
    lemma_count_one(s, name);
    lemma_count_one(x, name);
    lemma_count_one(e, name);
    lemma_count_concat(seq![s], seq![x], name);
    lemma_count_concat(seq![s] + seq![x], seq![e], name);
}

proof fn lemma_count_two(x: XmlNode, y: XmlNode, name: Seq<char>)
    ensures
        count_starts(seq![x, y], name) == count_starts(seq![x], name) + count_starts(seq![y], name),
{
    assert(seq![x, y] =~= seq![x] + seq![y]);
    lemma_count_concat(seq![x], seq![y], name);
}

proof fn lemma_no_item_in_link(link: Option<String>)
    ensures
        count_starts(link_element(link), "item"@) == 0,
{
    reveal_strlit("item");
    reveal_strlit("link");
    assert("link"@.len() != "item"@.len() || "link"@[0] != "item"@[0]);
    match link {
        Some(l) => {
            assert("link"@.len() != "item"@.len() || "link"@[0] != "item"@[0]);
            lemma_count_text_element("link"@, l@, "item"@);
        },
        None => {
            assert(count_starts(Seq::<XmlNode>::empty(), "item"@) == 0);
        },
    }
}

proof fn lemma_no_item_in_head(c: ChannelDetails, now: int)
    ensures
        count_starts(feed_head(c, now), "item"@) == 0,
{
    let item = "item"@;
    reveal_strlit("item");
    reveal_strlit("rss");
    assert("rss"@.len() != "item"@.len() || "rss"@[0] != "item"@[0]);
    reveal_strlit("channel");
    assert("channel"@.len() != "item"@.len() || "channel"@[0] != "item"@[0]);
    reveal_strlit("title");
    assert("title"@.len() != "item"@.len() || "title"@[0] != "item"@[0]);
    reveal_strlit("description");
    assert("description"@.len() != "item"@.len() || "description"@[0] != "item"@[0]);
    reveal_strlit("language");
    assert("language"@.len() != "item"@.len() || "language"@[0] != "item"@[0]);
    reveal_strlit("copyright");
    assert("copyright"@.len() != "item"@.len() || "copyright"@[0] != "item"@[0]);
    reveal_strlit("lastBuildDate");
    assert("lastBuildDate"@.len() != "item"@.len() || "lastBuildDate"@[0] != "item"@[0]);
    reveal_strlit("pubDate");
    assert("pubDate"@.len() != "item"@.len() || "pubDate"@[0] != "item"@[0]);
    reveal_strlit("docs");
    assert("docs"@.len() != "item"@.len() || "docs"@[0] != "item"@[0]);
    reveal_strlit("webMaster");
    assert("webMaster"@.len() != "item"@.len() || "webMaster"@[0] != "item"@[0]);
    reveal_strlit("itunes:type");
    assert("itunes:type"@.len() != "item"@.len() || "itunes:type"@[0] != "item"@[0]);
    reveal_strlit("itunes:author");
    assert("itunes:author"@.len() != "item"@.len() || "itunes:author"@[0] != "item"@[0]);
    reveal_strlit("itunes:subtitle");
    assert("itunes:subtitle"@.len() != "item"@.len() || "itunes:subtitle"@[0] != "item"@[0]);
    reveal_strlit("itunes:summary");
    assert("itunes:summary"@.len() != "item"@.len() || "itunes:summary"@[0] != "item"@[0]);
    reveal_strlit("itunes:owner");
    assert("itunes:owner"@.len() != "item"@.len() || "itunes:owner"@[0] != "item"@[0]);
    reveal_strlit("itunes:name");
    assert("itunes:name"@.len() != "item"@.len() || "itunes:name"@[0] != "item"@[0]);
    reveal_strlit("itunes:email");
    assert("itunes:email"@.len() != "item"@.len() || "itunes:email"@[0] != "item"@[0]);
    reveal_strlit("itunes:explicit");
    assert("itunes:explicit"@.len() != "item"@.len() || "itunes:explicit"@[0] != "item"@[0]);
    let opening = seq![XmlNode::Decl, XmlNode::Start("rss"@, rss_attrs()), XmlNode::Start("channel"@, seq![])];
    assert(opening =~= seq![XmlNode::Decl] + seq![XmlNode::Start("rss"@, rss_attrs())]
        + seq![XmlNode::Start("channel"@, seq![])]);
    lemma_count_one(XmlNode::Decl, item);
    lemma_count_one(XmlNode::Start("rss"@, rss_attrs()), item);
    lemma_count_one(XmlNode::Start("channel"@, seq![]), item);
    lemma_count_concat(seq![XmlNode::Decl], seq![XmlNode::Start("rss"@, rss_attrs())], item);
    lemma_count_concat(seq![XmlNode::Decl] + seq![XmlNode::Start("rss"@, rss_attrs())],
        seq![XmlNode::Start("channel"@, seq![])], item);

    let t1 = text_element("title"@, c.title@);
    let t2 = text_element("description"@, markdown_html_of(c.title@));
    let t3 = link_element(c.link);
    let t4 = text_element("language"@, "en-us"@);
    let t5 = text_element("copyright"@, "Copyright 2022"@);
    let t6 = text_element("lastBuildDate"@, rfc822_of(now));
    let t7 = text_element("pubDate"@, rfc822_of(now));
    lemma_count_text_element("title"@, c.title@, item);
    lemma_count_text_element("description"@, markdown_html_of(c.title@), item);
    lemma_no_item_in_link(c.link);
    lemma_count_text_element("language"@, "en-us"@, item);
    lemma_count_text_element("copyright"@, "Copyright 2022"@, item);
    lemma_count_text_element("lastBuildDate"@, rfc822_of(now), item);
    lemma_count_text_element("pubDate"@, rfc822_of(now), item);
    lemma_count_concat(t1, t2, item);
    lemma_count_concat(t1 + t2, t3, item);
    lemma_count_concat(t1 + t2 + t3, t4, item);
    lemma_count_concat(t1 + t2 + t3 + t4, t5, item);
    lemma_count_concat(t1 + t2 + t3 + t4 + t5, t6, item);
    lemma_count_concat(t1 + t2 + t3 + t4 + t5 + t6, t7, item);

    let email = c.owner.email@;
    let u1 = text_element("docs"@, "http://blogs.law.harvard.edu/tech/rss"@);
    let u2 = text_element("webMaster"@, email);
    let u3 = text_element("itunes:type"@, "Serial"@);
    let u4 = text_element("itunes:author"@, email);
    let u5 = text_element("itunes:subtitle"@, c.subtitle@);
    let u6 = text_element("itunes:summary"@, markdown_html_of(c.summary@));
    let u7 = seq![XmlNode::Start("itunes:owner"@, seq![])];
    let u8 = text_element("itunes:name"@, c.owner.name@);
    let u9 = text_element("itunes:email"@, email);
    let u10 = seq![XmlNode::End("itunes:owner"@)];
    let explicit: Seq<char> = if c.explicit { "Yes"@ } else { "No"@ };
    let u11 = text_element("itunes:explicit"@, explicit);
    let img = XmlNode::Empty("itunes:image"@, seq![("href"@, c.image@)]);
    let cat = XmlNode::Empty("itunes:category"@, seq![("text"@, "Fiction"@)]);
    let u12 = seq![img, cat];
    lemma_count_text_element("docs"@, "http://blogs.law.harvard.edu/tech/rss"@, item);
    lemma_count_text_element("webMaster"@, email, item);
    lemma_count_text_element("itunes:type"@, "Serial"@, item);
    lemma_count_text_element("itunes:author"@, email, item);
    lemma_count_text_element("itunes:subtitle"@, c.subtitle@, item);
    lemma_count_text_element("itunes:summary"@, markdown_html_of(c.summary@), item);
    lemma_count_one(XmlNode::Start("itunes:owner"@, seq![]), item);
    lemma_count_text_element("itunes:name"@, c.owner.name@, item);
    lemma_count_text_element("itunes:email"@, email, item);
    lemma_count_one(XmlNode::End("itunes:owner"@), item);
    lemma_count_text_element("itunes:explicit"@, explicit, item);
    lemma_count_one(img, item);
    lemma_count_one(cat, item);
    lemma_count_two(img, cat, item);
    lemma_count_concat(u1, u2, item);
    lemma_count_concat(u1 + u2, u3, item);
    lemma_count_concat(u1 + u2 + u3, u4, item);
    lemma_count_concat(u1 + u2 + u3 + u4, u5, item);
    lemma_count_concat(u1 + u2 + u3 + u4 + u5, u6, item);
    lemma_count_concat(u1 + u2 + u3 + u4 + u5 + u6, u7, item);
    lemma_count_concat(u1 + u2 + u3 + u4 + u5 + u6 + u7, u8, item);
    lemma_count_concat(u1 + u2 + u3 + u4 + u5 + u6 + u7 + u8, u9, item);
    lemma_count_concat(u1 + u2 + u3 + u4 + u5 + u6 + u7 + u8 + u9, u10, item);
    lemma_count_concat(u1 + u2 + u3 + u4 + u5 + u6 + u7 + u8 + u9 + u10, u11, item);
    lemma_count_concat(u1 + u2 + u3 + u4 + u5 + u6 + u7 + u8 + u9 + u10 + u11, u12, item);

    lemma_count_concat(opening, channel_intro(c, now), item);
    lemma_count_concat(opening + channel_intro(c, now), channel_itunes(c), item);
}

proof fn lemma_one_item(e: Episode)
    ensures
        count_starts(item_events(e), "item"@) == 1,
{
    let item = "item"@;
    reveal_strlit("item");
    reveal_strlit("title");
    assert("title"@.len() != "item"@.len() || "title"@[0] != "item"@[0]);
    reveal_strlit("itunes:subtitle");
    assert("itunes:subtitle"@.len() != "item"@.len() || "itunes:subtitle"@[0] != "item"@[0]);
    reveal_strlit("guid");
    assert("guid"@.len() != "item"@.len() || "guid"@[0] != "item"@[0]);
    reveal_strlit("pubDate");
    assert("pubDate"@.len() != "item"@.len() || "pubDate"@[0] != "item"@[0]);
    reveal_strlit("description");
    assert("description"@.len() != "item"@.len() || "description"@[0] != "item"@[0]);
    reveal_strlit("itunes:summary");
    assert("itunes:summary"@.len() != "item"@.len() || "itunes:summary"@[0] != "item"@[0]);
    reveal_strlit("itunes:duration");
    assert("itunes:duration"@.len() != "item"@.len() || "itunes:duration"@[0] != "item"@[0]);
    reveal_strlit("itunes:season");
    assert("itunes:season"@.len() != "item"@.len() || "itunes:season"@[0] != "item"@[0]);
    reveal_strlit("itunes:episode");
    assert("itunes:episode"@.len() != "item"@.len() || "itunes:episode"@[0] != "item"@[0]);
    reveal_strlit("itunes:title");
    assert("itunes:title"@.len() != "item"@.len() || "itunes:title"@[0] != "item"@[0]);
    let a1 = text_element("title"@, e.title@);
    let a2 = text_element("itunes:subtitle"@, e.summary@);
    let a3 = link_element(e.link);
    let a4 = text_element("guid"@, e.id@);
    let a5 = seq![enclosure_element(e)];
    lemma_count_text_element("title"@, e.title@, item);
    lemma_count_text_element("itunes:subtitle"@, e.summary@, item);
    lemma_no_item_in_link(e.link);
    lemma_count_text_element("guid"@, e.id@, item);
    lemma_count_one(enclosure_element(e), item);
    lemma_count_concat(a1, a2, item);
    lemma_count_concat(a1 + a2, a3, item);
    lemma_count_concat(a1 + a2 + a3, a4, item);
    lemma_count_concat(a1 + a2 + a3 + a4, a5, item);

    let b1 = text_element("pubDate"@, rfc822_of(e.released_at as int));
    let b2 = text_element("description"@, markdown_html_of(e.description@));
    let b3 = text_element("itunes:summary"@, markdown_html_of(e.description@));
    let b4 = text_element("itunes:duration"@, decimal(e.media.duration as nat));
    let b5 = text_element("itunes:season"@, decimal(e.season as nat));
    let b6 = text_element("itunes:episode"@, decimal(e.episode_number as nat));
    let img = XmlNode::Empty("itunes:image"@, seq![("href"@, e.image@)]);
    let b7 = seq![img];
    let b8 = text_element("itunes:title"@, e.title@);
    lemma_count_text_element("pubDate"@, rfc822_of(e.released_at as int), item);
    lemma_count_text_element("description"@, markdown_html_of(e.description@), item);
    lemma_count_text_element("itunes:summary"@, markdown_html_of(e.description@), item);
    lemma_count_text_element("itunes:duration"@, decimal(e.media.duration as nat), item);
    lemma_count_text_element("itunes:season"@, decimal(e.season as nat), item);
    lemma_count_text_element("itunes:episode"@, decimal(e.episode_number as nat), item);
    lemma_count_one(img, item);
    lemma_count_text_element("itunes:title"@, e.title@, item);
    lemma_count_concat(b1, b2, item);
    lemma_count_concat(b1 + b2, b3, item);
    lemma_count_concat(b1 + b2 + b3, b4, item);
    lemma_count_concat(b1 + b2 + b3 + b4, b5, item);
    lemma_count_concat(b1 + b2 + b3 + b4 + b5, b6, item);
    lemma_count_concat(b1 + b2 + b3 + b4 + b5 + b6, b7, item);
    lemma_count_concat(b1 + b2 + b3 + b4 + b5 + b6 + b7, b8, item);

    let open = seq![XmlNode::Start(item, seq![])];
    let close = seq![XmlNode::End(item)];
    lemma_count_one(XmlNode::Start(item, seq![]), item);
    lemma_count_one(XmlNode::End(item), item);
    lemma_count_concat(open, item_intro(e), item);
    lemma_count_concat(open + item_intro(e), item_details(e), item);
    lemma_count_concat(open + item_intro(e) + item_details(e), close, item);
}

proof fn lemma_items_count(eps: Seq<Episode>)
    ensures
        count_starts(items_events(eps), "item"@) == eps.len(),
    decreases eps.len(),
{
    if eps.len() > 0 {
        lemma_items_count(eps.drop_last());
        lemma_one_item(eps.last());
        lemma_count_concat(items_events(eps.drop_last()), item_events(eps.last()), "item"@);
    }
}

proof fn lemma_items_concat(a: Seq<Episode>, b: Seq<Episode>)
    ensures
        items_events(a + b) == items_events(a) + items_events(b),
    decreases b.len(),
{
    if b.len() == 0 {
        assert(a + b =~= a);
        assert(items_events(a) + items_events(b) =~= items_events(a));
    } else {
        lemma_items_concat(a, b.drop_last());
        assert((a + b).drop_last() =~= a + b.drop_last());
        assert((a + b).last() == b.last());
        assert(items_events(a + b) =~= items_events(a) + items_events(b));
    }
}

/// The feed holds exactly one `item` element per episode, and the item of
/// each episode stands after those of the episodes before it and before
/// those of the episodes after it.
pub proof fn lemma_feed_items_in_order(c: ChannelDetails, eps: Seq<Episode>, now: int, i: int)
    requires
        0 <= i < eps.len(),
    ensures
        count_starts(feed_events(c, eps, now), "item"@) == eps.len(),
        feed_events(c, eps, now) == feed_head(c, now) + items_events(eps.take(i))
            + item_events(eps[i]) + items_events(eps.skip(i + 1)) + feed_tail(),
{
    reveal_strlit("item");
    reveal_strlit("channel");
    assert("channel"@.len() != "item"@.len() || "channel"@[0] != "item"@[0]);
    reveal_strlit("rss");
    assert("rss"@.len() != "item"@.len() || "rss"@[0] != "item"@[0]);
    lemma_no_item_in_head(c, now);
    lemma_items_count(eps);
    lemma_count_two(XmlNode::End("channel"@), XmlNode::End("rss"@), "item"@);
    lemma_count_one(XmlNode::End("channel"@), "item"@);
    lemma_count_one(XmlNode::End("rss"@), "item"@);
    lemma_count_concat(feed_head(c, now), items_events(eps), "item"@);
    lemma_count_concat(feed_head(c, now) + items_events(eps), feed_tail(), "item"@);
    let one = seq![eps[i]];
    assert(one.drop_last() =~= Seq::<Episode>::empty());
    assert(items_events(Seq::<Episode>::empty()) == Seq::<XmlNode>::empty());
    assert(one.last() == eps[i]);
    assert(items_events(one) =~= item_events(eps[i]));
    assert(eps =~= eps.take(i) + one + eps.skip(i + 1));
    lemma_items_concat(eps.take(i), one);
    lemma_items_concat(eps.take(i) + one, eps.skip(i + 1));
    assert(feed_events(c, eps, now) =~= feed_head(c, now) + items_events(eps.take(i))
        + item_events(eps[i]) + items_events(eps.skip(i + 1)) + feed_tail());
}

/// Each episode's item carries an enclosure with its media's URL, its byte
/// count in decimal, and the MPEG audio type.
pub proof fn lemma_item_enclosure(e: Episode)
    ensures
        item_events(e).contains(enclosure_element(e)),
{
    let k = 1 + item_intro(e).len() - 1;
    assert(item_events(e)[k] == enclosure_element(e));
}


/// The stack of open tags after the events, starting from `open`; `None`
/// where a closing tag does not match the innermost open one.
pub open spec fn open_tags(evs: Seq<XmlNode>, open: Seq<Seq<char>>) -> Option<Seq<Seq<char>>>
    decreases evs.len(),
{
    if evs.len() == 0 {
        Some(open)
    } else {
        match open_tags(evs.drop_last(), open) {
            None => None,
            Some(st) => match evs.last() {
                XmlNode::Start(n, _) => Some(st.push(n)),
                XmlNode::End(n) => if st.len() > 0 && st.last() == n {
                    Some(st.drop_last())
                } else {
                    None
                },
                _ => Some(st),
            },
        }
    }
}

/// The events close every tag they open, in order, whatever is open around them.
pub open spec fn balanced(evs: Seq<XmlNode>) -> bool {
    forall|open: Seq<Seq<char>>| #[trigger] open_tags(evs, open) == Some(open)
}

proof fn lemma_open_tags_concat(a: Seq<XmlNode>, b: Seq<XmlNode>, open: Seq<Seq<char>>)
    ensures
        open_tags(a + b, open) == match open_tags(a, open) {
            Some(st) => open_tags(b, st),
            None => None,
        },
    decreases b.len(),
{
    if b.len() == 0 {
        assert(a + b =~= a);
        match open_tags(a, open) {
            Some(st) => { assert(open_tags(b, st) == Some(st)); },
            None => {},
        }
    } else {
        lemma_open_tags_concat(a, b.drop_last(), open);
        assert((a + b).drop_last() =~= a + b.drop_last());
        assert((a + b).last() == b.last());
    }
}

proof fn lemma_balanced_concat(a: Seq<XmlNode>, b: Seq<XmlNode>)
    requires
        balanced(a),
        balanced(b),
    ensures
        balanced(a + b),
{
    assert forall|open: Seq<Seq<char>>| #[trigger] open_tags(a + b, open) == Some(open) by {
        lemma_open_tags_concat(a, b, open);
        assert(open_tags(a, open) == Some(open));
        assert(open_tags(b, open) == Some(open));
    }
}

proof fn lemma_open_tags_one(x: XmlNode, open: Seq<Seq<char>>)
    ensures
        open_tags(seq![x], open) == match x {
            XmlNode::Start(n, _) => Some(open.push(n)),
            XmlNode::End(n) => if open.len() > 0 && open.last() == n {
                Some(open.drop_last())
            } else {
                None
            },
            _ => Some(open),
        },
{
    assert(seq![x].drop_last() =~= Seq::<XmlNode>::empty());
    assert(open_tags(Seq::<XmlNode>::empty(), open) == Some(open));
}

proof fn lemma_balanced_leaf(x: XmlNode)
    requires
        x is Decl || x is Text || x is Empty,
    ensures
        balanced(seq![x]),
{
    assert forall|open: Seq<Seq<char>>| #[trigger] open_tags(seq![x], open) == Some(open) by {
        lemma_open_tags_one(x, open);
    }
}

proof fn lemma_balanced_wrap(n: Seq<char>, attrs: Seq<(Seq<char>, Seq<char>)>, inner: Seq<XmlNode>)
    requires
        balanced(inner),
    ensures
        balanced(seq![XmlNode::Start(n, attrs)] + inner + seq![XmlNode::End(n)]),
{
    let s = seq![XmlNode::Start(n, attrs)];
    let e = seq![XmlNode::End(n)];
    assert forall|open: Seq<Seq<char>>| #[trigger] open_tags(s + inner + e, open) == Some(open) by {
        lemma_open_tags_one(XmlNode::Start(n, attrs), open);
        lemma_open_tags_concat(s, inner, open);
        assert(open_tags(inner, open.push(n)) == Some(open.push(n)));
        lemma_open_tags_concat(s + inner, e, open);
        lemma_open_tags_one(XmlNode::End(n), open.push(n));
        assert(open.push(n).drop_last() =~= open);
    }
}

proof fn lemma_balanced_text_element(n: Seq<char>, t: Seq<char>)
    ensures
        balanced(text_element(n, t)),
{
    lemma_balanced_leaf(XmlNode::Text(t));
    lemma_balanced_wrap(n, seq![], seq![XmlNode::Text(t)]);
    assert(text_element(n, t) =~= seq![XmlNode::Start(n, seq![])] + seq![XmlNode::Text(t)]
        + seq![XmlNode::End(n)]);
}

proof fn lemma_balanced_link(link: Option<String>)
    ensures
        balanced(link_element(link)),
{
    match link {
        Some(l) => lemma_balanced_text_element("link"@, l@),
        None => {
            assert forall|open: Seq<Seq<char>>| #[trigger] open_tags(link_element(link), open)
                == Some(open) by {
                assert(open_tags(Seq::<XmlNode>::empty(), open) == Some(open));
            }
        },
    }
}

proof fn lemma_balanced_channel(c: ChannelDetails, now: int)
    ensures
        balanced(channel_intro(c, now) + channel_itunes(c)),
{
    let t1 = text_element("title"@, c.title@);
    let t2 = text_element("description"@, markdown_html_of(c.title@));
    let t3 = link_element(c.link);
    let t4 = text_element("language"@, "en-us"@);
    let t5 = text_element("copyright"@, "Copyright 2022"@);
    let t6 = text_element("lastBuildDate"@, rfc822_of(now));
    let t7 = text_element("pubDate"@, rfc822_of(now));
    lemma_balanced_text_element("title"@, c.title@);
    lemma_balanced_text_element("description"@, markdown_html_of(c.title@));
    lemma_balanced_link(c.link);
    lemma_balanced_text_element("language"@, "en-us"@);
    lemma_balanced_text_element("copyright"@, "Copyright 2022"@);
    lemma_balanced_text_element("lastBuildDate"@, rfc822_of(now));
    lemma_balanced_text_element("pubDate"@, rfc822_of(now));
    lemma_balanced_concat(t1, t2);
    lemma_balanced_concat(t1 + t2, t3);
    lemma_balanced_concat(t1 + t2 + t3, t4);
    lemma_balanced_concat(t1 + t2 + t3 + t4, t5);
    lemma_balanced_concat(t1 + t2 + t3 + t4 + t5, t6);
    lemma_balanced_concat(t1 + t2 + t3 + t4 + t5 + t6, t7);

    let email = c.owner.email@;
    let u1 = text_element("docs"@, "http://blogs.law.harvard.edu/tech/rss"@);
    let u2 = text_element("webMaster"@, email);
    let u3 = text_element("itunes:type"@, "Serial"@);
    let u4 = text_element("itunes:author"@, email);
    let u5 = text_element("itunes:subtitle"@, c.subtitle@);
    let u6 = text_element("itunes:summary"@, markdown_html_of(c.summary@));
    let owner_inner = text_element("itunes:name"@, c.owner.name@) + text_element("itunes:email"@, email);
    let owner = seq![XmlNode::Start("itunes:owner"@, seq![])] + owner_inner
        + seq![XmlNode::End("itunes:owner"@)];
    let explicit: Seq<char> = if c.explicit { "Yes"@ } else { "No"@ };
    let u11 = text_element("itunes:explicit"@, explicit);
    let img = XmlNode::Empty("itunes:image"@, seq![("href"@, c.image@)]);
    let cat = XmlNode::Empty("itunes:category"@, seq![("text"@, "Fiction"@)]);
    lemma_balanced_text_element("docs"@, "http://blogs.law.harvard.edu/tech/rss"@);
    lemma_balanced_text_element("webMaster"@, email);
    lemma_balanced_text_element("itunes:type"@, "Serial"@);
    lemma_balanced_text_element("itunes:author"@, email);
    lemma_balanced_text_element("itunes:subtitle"@, c.subtitle@);
    lemma_balanced_text_element("itunes:summary"@, markdown_html_of(c.summary@));
    lemma_balanced_text_element("itunes:name"@, c.owner.name@);
    lemma_balanced_text_element("itunes:email"@, email);
    lemma_balanced_concat(text_element("itunes:name"@, c.owner.name@), text_element("itunes:email"@, email));
    lemma_balanced_wrap("itunes:owner"@, seq![], owner_inner);
    lemma_balanced_text_element("itunes:explicit"@, explicit);
    lemma_balanced_leaf(img);
    lemma_balanced_leaf(cat);
    lemma_balanced_concat(seq![img], seq![cat]);
    assert(seq![img, cat] =~= seq![img] + seq![cat]);
    let u12 = seq![img, cat];
    lemma_balanced_concat(u1, u2);
    lemma_balanced_concat(u1 + u2, u3);
    lemma_balanced_concat(u1 + u2 + u3, u4);
    lemma_balanced_concat(u1 + u2 + u3 + u4, u5);
    lemma_balanced_concat(u1 + u2 + u3 + u4 + u5, u6);
    lemma_balanced_concat(u1 + u2 + u3 + u4 + u5 + u6, owner);
    lemma_balanced_concat(u1 + u2 + u3 + u4 + u5 + u6 + owner, u11);
    lemma_balanced_concat(u1 + u2 + u3 + u4 + u5 + u6 + owner + u11, u12);
    assert(channel_itunes(c) =~= u1 + u2 + u3 + u4 + u5 + u6 + owner + u11 + u12);
    lemma_balanced_concat(channel_intro(c, now), channel_itunes(c));
}

proof fn lemma_balanced_item(e: Episode)
    ensures
        balanced(item_events(e)),
{
    let a1 = text_element("title"@, e.title@);
    let a2 = text_element("itunes:subtitle"@, e.summary@);
    let a3 = link_element(e.link);
    let a4 = text_element("guid"@, e.id@);
    let a5 = seq![enclosure_element(e)];
    lemma_balanced_text_element("title"@, e.title@);
    lemma_balanced_text_element("itunes:subtitle"@, e.summary@);
    lemma_balanced_link(e.link);
    lemma_balanced_text_element("guid"@, e.id@);
    lemma_balanced_leaf(enclosure_element(e));
    lemma_balanced_concat(a1, a2);
    lemma_balanced_concat(a1 + a2, a3);
    lemma_balanced_concat(a1 + a2 + a3, a4);
    lemma_balanced_concat(a1 + a2 + a3 + a4, a5);

    let b1 = text_element("pubDate"@, rfc822_of(e.released_at as int));
    let b2 = text_element("description"@, markdown_html_of(e.description@));
    let b3 = text_element("itunes:summary"@, markdown_html_of(e.description@));
    let b4 = text_element("itunes:duration"@, decimal(e.media.duration as nat));
    let b5 = text_element("itunes:season"@, decimal(e.season as nat));
    let b6 = text_element("itunes:episode"@, decimal(e.episode_number as nat));
    let img = XmlNode::Empty("itunes:image"@, seq![("href"@, e.image@)]);
    let b7 = seq![img];
    let b8 = text_element("itunes:title"@, e.title@);
    lemma_balanced_text_element("pubDate"@, rfc822_of(e.released_at as int));
    lemma_balanced_text_element("description"@, markdown_html_of(e.description@));
    lemma_balanced_text_element("itunes:summary"@, markdown_html_of(e.description@));
    lemma_balanced_text_element("itunes:duration"@, decimal(e.media.duration as nat));
    lemma_balanced_text_element("itunes:season"@, decimal(e.season as nat));
    lemma_balanced_text_element("itunes:episode"@, decimal(e.episode_number as nat));
    lemma_balanced_leaf(img);
    lemma_balanced_text_element("itunes:title"@, e.title@);
    lemma_balanced_concat(b1, b2);
    lemma_balanced_concat(b1 + b2, b3);
    lemma_balanced_concat(b1 + b2 + b3, b4);
    lemma_balanced_concat(b1 + b2 + b3 + b4, b5);
    lemma_balanced_concat(b1 + b2 + b3 + b4 + b5, b6);
    lemma_balanced_concat(b1 + b2 + b3 + b4 + b5 + b6, b7);
    lemma_balanced_concat(b1 + b2 + b3 + b4 + b5 + b6 + b7, b8);
    lemma_balanced_concat(item_intro(e), item_details(e));
    lemma_balanced_wrap("item"@, seq![], item_intro(e) + item_details(e));
    assert(item_events(e) =~= seq![XmlNode::Start("item"@, seq![])] + (item_intro(e)
        + item_details(e)) + seq![XmlNode::End("item"@)]);
}

proof fn lemma_balanced_items(eps: Seq<Episode>)
    ensures
        balanced(items_events(eps)),
    decreases eps.len(),
{
    if eps.len() == 0 {
        assert forall|open: Seq<Seq<char>>| #[trigger] open_tags(items_events(eps), open)
            == Some(open) by {
            assert(open_tags(Seq::<XmlNode>::empty(), open) == Some(open));
        }
    } else {
        lemma_balanced_items(eps.drop_last());
        lemma_balanced_item(eps.last());
        lemma_balanced_concat(items_events(eps.drop_last()), item_events(eps.last()));
    }
}

/// The feed starts with the XML declaration, and its tags nest: the root
/// `rss` element holds one `channel` element, and every tag opened inside
/// is closed, innermost first.
pub proof fn lemma_feed_well_formed(c: ChannelDetails, eps: Seq<Episode>, now: int)
    ensures
        feed_events(c, eps, now)[0] is Decl,
        open_tags(feed_events(c, eps, now), seq![]) == Some(Seq::<Seq<char>>::empty()),
{
    let rss = XmlNode::Start("rss"@, rss_attrs());
    let chan = XmlNode::Start("channel"@, seq![]);
    let body = channel_intro(c, now) + channel_itunes(c) + items_events(eps);
    lemma_balanced_channel(c, now);
    lemma_balanced_items(eps);
    lemma_balanced_concat(channel_intro(c, now) + channel_itunes(c), items_events(eps));
    lemma_balanced_wrap("channel"@, seq![], body);
    let inner = seq![chan] + body + seq![XmlNode::End("channel"@)];
    lemma_balanced_wrap("rss"@, rss_attrs(), inner);
    lemma_balanced_leaf(XmlNode::Decl);
    lemma_balanced_concat(seq![XmlNode::Decl], seq![rss] + inner + seq![XmlNode::End("rss"@)]);
    assert(feed_events(c, eps, now) =~= seq![XmlNode::Decl] + (seq![rss] + inner
        + seq![XmlNode::End("rss"@)]));
    assert(open_tags(feed_events(c, eps, now), seq![]) == Some(Seq::<Seq<char>>::empty()));
}

} // verus!
