use vstd::prelude::*;
use crate::errors::NewsError;
use crate::feed::FeedItem;
use crate::feed::ItemFields;
use crate::feed::item_fields_of;

verus! {

/// A display record: the simplified (title, description, link) triple that
/// is printed for one feed item. All fields are always present as text.
#[derive(Debug)]
pub struct News {
    pub title: String,
    pub description: String,
    pub link: String,
}

/// The mathematical value of a display record.
pub struct NewsFields {
    pub title: Seq<char>,
    pub description: Seq<char>,
    pub link: Seq<char>,
}

impl View for News {
    type V = NewsFields;

    open spec fn view(&self) -> NewsFields {
        NewsFields { title: self.title@, description: self.description@, link: self.link@ }
    }
}

/// The fixed text substituted for an absent description.
pub open spec fn fallback_description() -> Seq<char> {
    "No description"@
}

/// The fixed text substituted for an absent link.
pub open spec fn fallback_link() -> Seq<char> {
    "No link for this news"@
}

/// Every item of the channel carries a title.
pub open spec fn all_titled(items: Seq<ItemFields>) -> bool {
    forall|k: int| 0 <= k < items.len() ==> items[k].title is Some
}

/// The display record projected from one titled item: the title verbatim,
/// and each of description and link verbatim when present, else its
/// fixed fallback text.
pub open spec fn record_of(item: ItemFields) -> NewsFields {
    NewsFields {
        title: item.title->0,
        description: match item.description {
            Some(d) => d,
            None => fallback_description(),
        },
        link: match item.link {
            Some(l) => l,
            None => fallback_link(),
        },
    }
}

/// The records projected from a channel's items, one per item, in order.
pub open spec fn projected(items: Seq<ItemFields>) -> Seq<NewsFields> {
    items.map_values(|i: ItemFields| record_of(i))
}

/// The records a sequence of `News` values stands for.
pub open spec fn news_fields_of(records: Seq<News>) -> Seq<NewsFields> {
    records.map_values(|n: News| n@)
}

/// Map each feed item to a display record, preserving order: the title is
/// taken verbatim, and an absent description or link is replaced by its
/// fixed fallback text. An item without a title aborts the whole run with
/// `MissingTitleError` (the strict policy: no record is produced at all).
pub fn project(items: &Vec<FeedItem>) -> (r: Result<Vec<News>, NewsError>)
    ensures
        match r {
            Ok(records) => all_titled(item_fields_of(items@)) && news_fields_of(records@)
                == projected(item_fields_of(items@)),
            Err(e) => e == NewsError::MissingTitleError && !all_titled(item_fields_of(items@)),
        },
{
    let mut out: Vec<News> = Vec::new();
    let n = items.len();
    let mut i: usize = 0;
    while i < n
        invariant
            n == items@.len(),
            i <= n,
            out@.len() == i,
            forall|k: int| 0 <= k < i ==> items@[k]@.title is Some,
            forall|k: int| 0 <= k < i ==> out@[k]@ == record_of(items@[k]@),
        decreases n - i,
    {
        let item = &items[i];
        match &item.title {
            Some(t) => {
                let title = t.clone();
                let description = match &item.description {
                    Some(d) => d.clone(),
                    None => String::from_str("No description"),
                };
                let link = match &item.link {
                    Some(l) => l.clone(),
                    None => String::from_str("No link for this news"),
                };
                out.push(News { title, description, link });
            },
            None => {
                proof {
                    assert(item_fields_of(items@)[i as int].title is None);
                }
                return Err(NewsError::MissingTitleError);
            },
        }
        i += 1;
    }
    proof {
        assert(news_fields_of(out@) =~= projected(item_fields_of(items@)));
    }
    Ok(out)
}

/// A channel of titled items projects to exactly as many records as it has
/// items, in the same relative order: the record at each position comes
/// from the item at that position.
pub proof fn lemma_projection_preserves_order(items: Seq<ItemFields>)
    ensures
        projected(items).len() == items.len(),
        forall|k: int| 0 <= k < items.len() ==> projected(items)[k] == record_of(items[k]),
{
}

/// An item lacking a description projects to the fixed fallback text
/// "No description"; one lacking a link, to "No link for this news".
pub proof fn lemma_missing_fields_fall_back(items: Seq<ItemFields>, k: int)
    requires
        0 <= k < items.len(),
    ensures
        items[k].description is None ==> projected(items)[k].description
            == fallback_description(),
        items[k].link is None ==> projected(items)[k].link == fallback_link(),
{
}

} // verus!
