//! The episode set of a feed: which entries become episodes, and in what
//! order.

use vstd::prelude::*;
use crate::date::{PubDate, published_opt};
use crate::entity::channel_item::{Model, ModelView};
use crate::error::PersistenceError;
use crate::feed::{ParsedItem, ParsedItemView};
use crate::text::{clone_opt, opt_eq};

verus! {

/// Whether an entry carries a non-empty enclosure URL. Only such entries can
/// become episodes.
pub open spec fn has_enclosure(item: ParsedItemView) -> bool {
    item.enclosure matches Some(url) && url.len() > 0
}

/// Whether `item` becomes an episode when it follows the entries `earlier`:
/// it has an enclosure, and none of the earlier entries has the same one.
pub open spec fn is_new(earlier: Seq<ParsedItemView>, item: ParsedItemView) -> bool {
    has_enclosure(item) && forall|j: int|
        0 <= j < earlier.len() ==> (#[trigger] earlier[j]).enclosure != item.enclosure
}

/// The episode row that an entry becomes at rank `rank` of channel
/// `channel_id`, whose feed was fetched from `url`.
pub open spec fn episode_of(channel_id: i32, url: Seq<char>, rank: int, item: ParsedItemView)
    -> ModelView {
    ModelView {
        ordering: rank as i32,
        channel_id,
        title: item.title,
        link: Some(url),
        source: item.source,
        enclosure: item.enclosure->0,
        description: item.description,
        guid: item.guid,
        pub_date: published_opt(item.pub_date),
    }
}

/// The episode set of a feed: its entries in feed order, without those that
/// lack an enclosure and without those that repeat an earlier enclosure,
/// ranked 1, 2, 3, and so on.
pub open spec fn episodes_of(channel_id: i32, url: Seq<char>, items: Seq<ParsedItemView>) -> Seq<
    ModelView,
>
    decreases items.len(),
{
    if items.len() == 0 {
        Seq::empty()
    } else {
        let head = episodes_of(channel_id, url, items.drop_last());
        if is_new(items.drop_last(), items.last()) {
            head.push(episode_of(channel_id, url, head.len() as int + 1, items.last()))
        } else {
            head
        }
    }
}

/// A longer feed has at least as many episodes as any of its prefixes.
pub proof fn lemma_episodes_grow(channel_id: i32, url: Seq<char>, items: Seq<ParsedItemView>, n: int)
    requires
        0 <= n <= items.len(),
    ensures
        episodes_of(channel_id, url, items.take(n)).len() <= episodes_of(
            channel_id,
            url,
            items,
        ).len(),
    decreases items.len() - n,
{
    if n < items.len() {
        lemma_episodes_grow(channel_id, url, items, n + 1);
        assert(items.take(n + 1).drop_last() == items.take(n));
    } else {
        assert(items.take(n) == items);
    }
}

/// For each episode of a feed, the index of the entry it was made from.
pub open spec fn origins(items: Seq<ParsedItemView>) -> Seq<int>
    decreases items.len(),
{
    if items.len() == 0 {
        Seq::empty()
    } else {
        let head = origins(items.drop_last());
        if is_new(items.drop_last(), items.last()) {
            head.push(items.len() - 1)
        } else {
            head
        }
    }
}

/// Whether entry `i` of a feed is the first entry with its enclosure.
pub open spec fn is_first(items: Seq<ParsedItemView>, i: int) -> bool {
    0 <= i < items.len() && is_new(items.take(i), items[i])
}

/// The episodes of a feed are its first entries, one for one and in feed
/// order: episode `n` is made from entry `origins(items)[n]` at rank `n + 1`,
/// the origins ascend, each is a first entry, and no first entry is left out.
pub proof fn lemma_origins(channel_id: i32, url: Seq<char>, items: Seq<ParsedItemView>)
    ensures
        origins(items).len() == episodes_of(channel_id, url, items).len(),
        forall|n: int|
            0 <= n < origins(items).len() ==> is_first(items, #[trigger] origins(items)[n]),
        forall|n: int|
            0 <= n < origins(items).len() ==> #[trigger] episodes_of(channel_id, url, items)[n]
                == episode_of(channel_id, url, n + 1, items[origins(items)[n]]),
        forall|m: int, n: int|
            0 <= m < n < origins(items).len() ==> #[trigger] origins(items)[m]
                < #[trigger] origins(items)[n],
        forall|i: int| is_first(items, i) ==> #[trigger] origins(items).contains(i),
    decreases items.len(),
{
    if items.len() > 0 {
        let front = items.drop_last();
        let last = items.len() - 1;
        lemma_origins(channel_id, url, front);
        assert(items.take(last) == front);
        assert forall|n: int| 0 <= n < origins(front).len() implies is_first(
            items,
            #[trigger] origins(front)[n],
        ) && items[origins(front)[n]] == front[origins(front)[n]] by {
            let i = origins(front)[n];
            assert(is_first(front, i));
            assert(front.take(i) == items.take(i));
        }
        assert forall|i: int| is_first(items, i) implies #[trigger] origins(items).contains(i) by {
            if i < last {
                assert(front.take(i) == items.take(i));
                assert(front[i] == items[i]);
                assert(is_first(front, i));
                assert(origins(front).contains(i));
                let n = choose|n: int| 0 <= n < origins(front).len() && origins(front)[n] == i;
                assert(origins(items)[n] == i);
            } else {
                assert(origins(items)[origins(front).len() as int] == i);
            }
        }
    }
}

/// In every feed, an entry's enclosure is first carried at or before that
/// entry.
pub proof fn lemma_first_occurrence(items: Seq<ParsedItemView>, i: int) -> (j: int)
    requires
        0 <= i < items.len(),
        has_enclosure(items[i]),
    ensures
        0 <= j <= i,
        is_first(items, j),
        items[j].enclosure == items[i].enclosure,
    decreases i,
{
    if exists|k: int| 0 <= k < i && (#[trigger] items[k]).enclosure == items[i].enclosure {
        let k = choose|k: int| 0 <= k < i && (#[trigger] items[k]).enclosure == items[i].enclosure;
        lemma_first_occurrence(items, k)
    } else {
        assert forall|k: int| 0 <= k < items.take(i).len() implies (#[trigger] items.take(
            i,
        )[k]).enclosure != items[i].enclosure by {
            assert(items.take(i)[k] == items[k]);
        }
        i
    }
}

/// Every enclosure of the feed has a row: for each entry with a non-empty
/// enclosure URL, the episode set holds a row with that URL.
pub proof fn law_every_enclosure_has_a_row(
    channel_id: i32,
    url: Seq<char>,
    items: Seq<ParsedItemView>,
    i: int,
) -> (n: int)
    requires
        0 <= i < items.len(),
        has_enclosure(items[i]),
    ensures
        0 <= n < episodes_of(channel_id, url, items).len(),
        episodes_of(channel_id, url, items)[n].enclosure == items[i].enclosure->0,
{
    lemma_origins(channel_id, url, items);
    let j = lemma_first_occurrence(items, i);
    assert(origins(items).contains(j));
    choose|n: int| 0 <= n < origins(items).len() && origins(items)[n] == j
}

/// Every row comes from the feed: row `n` is made, at rank `n + 1`, from an
/// entry that is the first of the feed to carry its non-empty enclosure URL.
pub proof fn law_rows_come_from_feed(
    channel_id: i32,
    url: Seq<char>,
    items: Seq<ParsedItemView>,
    n: int,
) -> (i: int)
    requires
        0 <= n < episodes_of(channel_id, url, items).len(),
    ensures
        0 <= i < items.len(),
        has_enclosure(items[i]),
        i == first_index(items, items[i].enclosure->0),
        episodes_of(channel_id, url, items)[n] == episode_of(channel_id, url, n + 1, items[i]),
{
    lemma_origins(channel_id, url, items);
    let i = origins(items)[n];
    assert(is_first(items, i));
    lemma_first_index(items, i);
    i
}

/// No enclosure URL has two rows.
pub proof fn law_rows_are_distinct(
    channel_id: i32,
    url: Seq<char>,
    items: Seq<ParsedItemView>,
    m: int,
    n: int,
)
    requires
        0 <= m < n < episodes_of(channel_id, url, items).len(),
    ensures
        episodes_of(channel_id, url, items)[m].enclosure != episodes_of(
            channel_id,
            url,
            items,
        )[n].enclosure,
        first_index(items, episodes_of(channel_id, url, items)[m].enclosure) < first_index(
            items,
            episodes_of(channel_id, url, items)[n].enclosure,
        ),
{
    lemma_origins(channel_id, url, items);
    let i = origins(items)[m];
    let j = origins(items)[n];
    assert(is_first(items, i));
    assert(is_first(items, j));
    assert(i < j);
    assert(items.take(j)[i] == items[i]);
    lemma_first_index(items, i);
    lemma_first_index(items, j);
}

/// The ranks are the dense sequence 1, 2, 3, and so on, in row order, and
/// every row carries the channel's id.
pub proof fn law_ranks_are_dense(
    channel_id: i32,
    url: Seq<char>,
    items: Seq<ParsedItemView>,
    n: int,
)
    requires
        0 <= n < episodes_of(channel_id, url, items).len(),
        n < i32::MAX,
    ensures
        episodes_of(channel_id, url, items)[n].ordering == n + 1,
        episodes_of(channel_id, url, items)[n].channel_id == channel_id,
{
    lemma_origins(channel_id, url, items);
}

/// The index of the first entry of a feed that carries enclosure `url`.
pub open spec fn first_index(items: Seq<ParsedItemView>, url: Seq<char>) -> int {
    choose|i: int|
        0 <= i < items.len() && (#[trigger] items[i]).enclosure == Some(url) && forall|k: int|
            0 <= k < i ==> (#[trigger] items[k]).enclosure != Some(url)
}

/// A first entry is the first index of its own enclosure.
pub proof fn lemma_first_index(items: Seq<ParsedItemView>, i: int)
    requires
        is_first(items, i),
    ensures
        first_index(items, items[i].enclosure->0) == i,
{
    let url = items[i].enclosure->0;
    assert forall|k: int| 0 <= k < i implies (#[trigger] items[k]).enclosure != Some(url) by {
        assert(items.take(i)[k] == items[k]);
    }
    let j = first_index(items, url);
    if j < i {
        assert(items.take(i)[j] == items[j]);
    }
}

fn carries_enclosure(item: &ParsedItem) -> (r: bool)
    ensures
        r == has_enclosure(item@),
{
    match &item.enclosure {
        Some(url) => !url.as_str().is_empty(),
        None => false,
    }
}

fn seen_before(items: &Vec<ParsedItem>, k: usize) -> (r: bool)
    requires
        k < items.len(),
    ensures
        r == exists|j: int| 0 <= j < k && (#[trigger] items[j])@.enclosure == items[k as int]@.enclosure,
{
    let mut j: usize = 0;
    while j < k
        invariant
            j <= k < items.len(),
            forall|m: int| 0 <= m < j ==> (#[trigger] items[m])@.enclosure != items[k as int]@.enclosure,
        decreases k - j,
    {
        if opt_eq(&items[j].enclosure, &items[k].enclosure) {
            return true;
        }
        j += 1;
    }
    false
}

fn episode(channel_id: i32, podcast_url: &str, rank: i32, item: &ParsedItem) -> (r: Model)
    requires
        has_enclosure(item@),
    ensures
        r@ == episode_of(channel_id, podcast_url@, rank as int, item@),
{
    let pub_date = match &item.pub_date {
        Some(text) => PubDate::parse(text.as_str()),
        None => None,
    };
    let enclosure = match &item.enclosure {
        Some(url) => url.clone(),
        None => String::new(),
    };
    Model {
        ordering: rank,
        channel_id,
        title: clone_opt(&item.title),
        link: Some(podcast_url.to_owned()),
        source: clone_opt(&item.source),
        enclosure,
        description: clone_opt(&item.description),
        guid: clone_opt(&item.guid),
        pub_date,
    }
}

/// Derives the episode rows of channel `channel_id` from the entries of its
/// feed.
///
/// Fails, with `OutOfRange`, exactly when the feed has more episodes than
/// there are ranks.
pub fn episodes(channel_id: i32, podcast_url: &str, items: &Vec<ParsedItem>) -> (r: Result<
    Vec<Model>,
    PersistenceError,
>)
    ensures
        match r {
            Ok(rows) => rows.deep_view() == episodes_of(
                channel_id,
                podcast_url@,
                items.deep_view(),
            ) && rows.len() <= i32::MAX,
            Err(e) => e == PersistenceError::OutOfRange && episodes_of(
                channel_id,
                podcast_url@,
                items.deep_view(),
            ).len() > i32::MAX,
        },
{
    let ghost all = items.deep_view();
    let mut rows: Vec<Model> = Vec::new();
    let mut i: usize = 0;
    while i < items.len()
        invariant
            i <= items.len(),
            all == items.deep_view(),
            rows.deep_view() == episodes_of(channel_id, podcast_url@, all.take(i as int)),
            rows.len() <= i32::MAX,
        decreases items.len() - i,
    {
        let item = &items[i];
        let fresh = carries_enclosure(item) && !seen_before(items, i);
        proof {
            assert(all.take(i + 1).drop_last() == all.take(i as int));
            assert(all.take(i + 1).last() == item@);
            assert(fresh == is_new(all.take(i as int), item@)) by {
                if exists|j: int| 0 <= j < i && (#[trigger] items[j])@.enclosure == item@.enclosure {
                    let j = choose|j: int| 0 <= j < i && (#[trigger] items[j])@.enclosure == item@.enclosure;
                    assert(all.take(i as int)[j].enclosure == item@.enclosure);
                } else {
                    assert forall|j: int| 0 <= j < all.take(i as int).len() implies (
                    #[trigger] all.take(i as int)[j]).enclosure != item@.enclosure by {
                        assert(items[j]@.enclosure != item@.enclosure);
                    }
                }
            }
        }
        if fresh {
            if rows.len() >= i32::MAX as usize {
                proof {
                    lemma_episodes_grow(channel_id, podcast_url@, all, i + 1);
                }
                return Err(PersistenceError::OutOfRange);
            }
            let rank = (rows.len() + 1) as i32;
            let ghost before = rows.deep_view();
            rows.push(episode(channel_id, podcast_url, rank, item));
            assert(rows.deep_view() == before.push(
                episode_of(channel_id, podcast_url@, before.len() as int + 1, item@),
            ));
        }
        i += 1;
    }
    assert(all.take(i as int) == all);
    Ok(rows)
}

} // verus!
