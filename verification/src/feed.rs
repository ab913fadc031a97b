//! Feed source adapter: from the text of a feed to a channel and its items.

use vstd::prelude::*;
use crate::text::opt_chars;

verus! {

/// One entry of a feed, as the feed gives it.
#[derive(Debug)]
pub struct ParsedItem {
    pub title: Option<String>,
    pub link: Option<String>,
    pub source: Option<String>,
    pub enclosure: Option<String>,
    pub description: Option<String>,
    pub guid: Option<String>,
    pub pub_date: Option<String>,
}

/// The mathematical value of a feed entry.
pub struct ParsedItemView {
    pub title: Option<Seq<char>>,
    pub link: Option<Seq<char>>,
    pub source: Option<Seq<char>>,
    pub enclosure: Option<Seq<char>>,
    pub description: Option<Seq<char>>,
    pub guid: Option<Seq<char>>,
    pub pub_date: Option<Seq<char>>,
}

impl View for ParsedItem {
    type V = ParsedItemView;

    open spec fn view(&self) -> ParsedItemView {
        ParsedItemView {
            title: opt_chars(self.title),
            link: opt_chars(self.link),
            source: opt_chars(self.source),
            enclosure: opt_chars(self.enclosure),
            description: opt_chars(self.description),
            guid: opt_chars(self.guid),
            pub_date: opt_chars(self.pub_date),
        }
    }
}

impl DeepView for ParsedItem {
    type V = ParsedItemView;

    open spec fn deep_view(&self) -> ParsedItemView {
        self@
    }
}

/// A parsed feed: the channel's metadata and its entries in feed order.
#[derive(Debug)]
pub struct ParsedChannel {
    pub title: String,
    pub link: String,
    pub description: String,
    pub items: Vec<ParsedItem>,
}

/// The mathematical value of a parsed feed.
pub struct ParsedChannelView {
    pub title: Seq<char>,
    pub link: Seq<char>,
    pub description: Seq<char>,
    pub items: Seq<ParsedItemView>,
}

impl View for ParsedChannel {
    type V = ParsedChannelView;

    open spec fn view(&self) -> ParsedChannelView {
        ParsedChannelView {
            title: self.title@,
            link: self.link@,
            description: self.description@,
            items: self.items.deep_view(),
        }
    }
}

/// A piece of markup, as the XML reader meets it.
#[derive(Debug, Clone, Copy, PartialEq, Eq, Structural)]
pub enum Tag {
    /// A start tag. An empty element counts as a start tag and an end tag.
    Open,
    /// An end tag.
    Close,
    /// Text, a comment, a declaration or any other piece that is no tag.
    Other,
}

/// The most start tags that a feed may have open at once.
pub const NESTING_LIMIT: usize = 128;

/// The pieces of markup that the XML reader finds in a text, in order, up
/// to the end of the text or to the first piece that it refuses.
pub uninterp spec fn xml_tags(text: Seq<char>) -> Seq<Tag>;

/// Runs a `quick_xml::Reader`, made by `from_reader` over the bytes of
/// `text` and set to expand empty elements, and calls `read_event_into`
/// until it gives `Eof` or an error. Each event before that is handed out as
/// the kind of tag it is. The reader is a loop over the bytes and keeps no
/// state but its own, so the outcome depends on the text alone; the contract
/// names it `xml_tags(text)`.
#[verifier::external_body]
fn read_tags(text: &str) -> (r: Vec<Tag>)
    ensures
        r@ == xml_tags(text@),
{
    let mut reader = quick_xml::Reader::from_reader(text.as_bytes());
    reader.config_mut().expand_empty_elements = true;
    let (mut buf, mut tags) = (Vec::new(), Vec::new());
    loop {
        match reader.read_event_into(&mut buf) {
            Ok(quick_xml::events::Event::Start(_)) => tags.push(Tag::Open),
            Ok(quick_xml::events::Event::End(_)) => tags.push(Tag::Close),
            Ok(quick_xml::events::Event::Eof) | Err(_) => return tags,
            Ok(_) => tags.push(Tag::Other),
        }
        buf.clear();
    }
}

/// The number of start tags that are open after the given pieces. An end
/// tag that closes nothing is passed over, so that the count never falls
/// short.
pub open spec fn depth_after(tags: Seq<Tag>) -> nat
    decreases tags.len(),
{
    if tags.len() == 0 {
        0
    } else {
        let before = depth_after(tags.drop_last());
        match tags.last() {
            Tag::Open => before + 1,
            Tag::Close => if before > 0 {
                (before - 1) as nat
            } else {
                0
            },
            Tag::Other => before,
        }
    }
}

/// The largest number of start tags that are open at once among the given
/// pieces.
pub open spec fn deepest(tags: Seq<Tag>) -> nat
    decreases tags.len(),
{
    if tags.len() == 0 {
        0
    } else {
        let so_far = deepest(tags.drop_last());
        if depth_after(tags) > so_far {
            depth_after(tags)
        } else {
            so_far
        }
    }
}

/// The largest number of start tags that a text has open at once.
pub open spec fn open_tags(text: Seq<char>) -> int {
    deepest(xml_tags(text)) as int
}

/// Decides whether a text has at most `limit` start tags open at once.
pub fn nesting_within(text: &str, limit: usize) -> (r: bool)
    ensures
        r == (open_tags(text@) <= limit),
{
    let tags = read_tags(text);
    let mut depth: usize = 0;
    let mut most: usize = 0;
    let mut i: usize = 0;
    while i < tags.len()
        invariant
            i <= tags.len(),
            depth <= i,
            depth == depth_after(tags@.take(i as int)),
            most == deepest(tags@.take(i as int)),
        decreases tags.len() - i,
    {
        assert(tags@.take(i + 1).drop_last() == tags@.take(i as int));
        match tags[i] {
            Tag::Open => {
                depth = depth + 1;
            },
            Tag::Close => {
                if depth > 0 {
                    depth = depth - 1;
                }
            },
            Tag::Other => {},
        }
        if depth > most {
            most = depth;
        }
        i += 1;
    }
    assert(tags@.take(i as int) == tags@);
    most <= limit
}

/// What the RSS reader makes of a document: the channel it holds, or nothing
/// where the document is not a feed.
pub uninterp spec fn rss_document(text: Seq<char>) -> Option<ParsedChannelView>;

/// Runs `rss::Channel::from_str` on `text`. The reader's answer depends on
/// the text alone; the contract names it `rss_document(text)` and claims only
/// that the channel handed back carries the title, link, description and, entry
/// by entry, the fields that the reader produced.
///
/// The reader calls itself once for each start tag that is open inside an
/// element with a prefix, over the same `quick_xml` reader that `read_tags`
/// runs. The texts that nest deeper than `NESTING_LIMIT` are left out.
#[verifier::external_body]
fn read_document(text: &str) -> (r: Option<ParsedChannel>)
    requires
        open_tags(text@) <= NESTING_LIMIT,
    ensures
        match r {
            Some(c) => rss_document(text@) == Some(c@),
            None => rss_document(text@) is None,
        },
{
    let c = text.parse::<rss::Channel>().ok()?;
    let items = c.items.into_iter().map(|i| ParsedItem {
        title: i.title,
        link: i.link,
        source: i.source.map(|s| s.url),
        enclosure: i.enclosure.map(|e| e.url),
        description: i.description,
        guid: i.guid.map(|g| g.value),
        pub_date: i.pub_date,
    }).collect();
    Some(ParsedChannel { title: c.title, link: c.link, description: c.description, items })
}

/// The single failure of the adapter: the feed could not be had. Transport
/// and format failures are not told apart.
#[derive(Debug, Clone, Copy, PartialEq, Eq, Structural)]
pub struct FetchError;

/// The feed that a text is taken for: what the RSS reader makes of it, and
/// nothing where the text nests deeper than `NESTING_LIMIT`.
pub open spec fn feed_in(text: Seq<char>) -> Option<ParsedChannelView> {
    if open_tags(text) <= NESTING_LIMIT {
        rss_document(text)
    } else {
        None
    }
}

/// Parses the body of a feed.
///
/// Succeeds exactly when the text has at most `NESTING_LIMIT` start tags
/// open at once and the RSS reader accepts it, and then returns the channel
/// that the reader found. A text that nests deeper is refused unread.
pub fn parse_feed(text: &str) -> (r: Result<ParsedChannel, FetchError>)
    ensures
        match r {
            Ok(c) => open_tags(text@) <= NESTING_LIMIT && rss_document(text@) == Some(c@),
            Err(_) => open_tags(text@) > NESTING_LIMIT || rss_document(text@) is None,
        },
        match r {
            Ok(c) => feed_in(text@) == Some(c@),
            Err(_) => feed_in(text@) is None,
        },
{
    if !nesting_within(text, NESTING_LIMIT) {
        return Err(FetchError);
    }
    match read_document(text) {
        Some(c) => Ok(c),
        None => Err(FetchError),
    }
}

} // verus!
