use vstd::prelude::*;
use crate::errors::NewsError;

verus! {

/// One item of a parsed channel. Any subset of the three fields may be
/// absent, per the feed format's own optionality rules.
#[derive(Debug)]
pub struct FeedItem {
    pub title: Option<String>,
    pub description: Option<String>,
    pub link: Option<String>,
}

/// The mathematical value of a feed item: each field as an optional
/// character sequence.
pub struct ItemFields {
    pub title: Option<Seq<char>>,
    pub description: Option<Seq<char>>,
    pub link: Option<Seq<char>>,
}

impl View for FeedItem {
    type V = ItemFields;

    open spec fn view(&self) -> ItemFields {
        ItemFields {
            title: match self.title {
                Some(t) => Some(t@),
                None => None,
            },
            description: match self.description {
                Some(d) => Some(d@),
                None => None,
            },
            link: match self.link {
                Some(l) => Some(l@),
                None => None,
            },
        }
    }
}

/// The items of a sequence of feed items, as mathematical values.
pub open spec fn item_fields_of(items: Seq<FeedItem>) -> Seq<ItemFields> {
    items.map_values(|i: FeedItem| i@)
}

/// What parsing a byte sequence as a syndication feed document yields:
/// the items of its channel in document order, or nothing when the bytes
/// are not a well-formed feed.
pub uninterp spec fn parsed_channel(doc: Seq<u8>) -> Option<Seq<ItemFields>>;

/// Relies on rss::Channel::read_from to parse the bytes as an RSS
/// document, on rss::Channel::into_items for the channel's items in
/// document order, and on the public title, description and link fields
/// of rss::Item.
#[verifier::external_body]
fn read_channel_items(doc: &[u8]) -> (r: Option<Vec<FeedItem>>)
    ensures
        match r {
            Some(items) => parsed_channel(doc@) == Some(item_fields_of(items@)),
            None => parsed_channel(doc@) is None,
        },
{
    match rss::Channel::read_from(doc) {
        Ok(channel) => Some(
            channel.into_items().into_iter().map(
                |i| FeedItem { title: i.title, description: i.description, link: i.link },
            ).collect(),
        ),
        Err(_) => None,
    }
}

/// Parse a raw feed document into its channel's items, in document order.
/// Fails with `ParseError` exactly when the bytes are not a well-formed
/// feed, and then no items come out of the document at all.
pub fn parse(doc: &[u8]) -> (r: Result<Vec<FeedItem>, NewsError>)
    ensures
        match r {
            Ok(items) => parsed_channel(doc@) == Some(item_fields_of(items@)),
            Err(e) => e == NewsError::ParseError && parsed_channel(doc@) is None,
        },
{
    match read_channel_items(doc) {
        Some(items) => Ok(items),
        None => Err(NewsError::ParseError),
    }
}

} // verus!
