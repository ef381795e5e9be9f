//! The price history of a game: from the entries of the service's answer to
//! the points that are shown.

use vstd::prelude::*;

verus! {

/// One entry of the service's answer, as far as it is read: when the price
/// was recorded, as text; the price, where the entry has a deal; the name of
/// the shop. `P` is the type of a price.
#[derive(Debug, PartialEq)]
pub struct PriceHistoryItem<P> {
    pub timestamp: String,
    pub deal: Option<P>,
    pub shop_name: String,
}

/// One point of the price history: when, as seconds since the start of
/// 1970 in UTC, at which price, in which shop.
#[derive(Debug, PartialEq)]
pub struct PriceHistoryPoint<P> {
    pub timestamp: i64,
    pub price: P,
    pub shop_name: String,
}

/// What chrono's RFC 3339 parser makes of `text`: the instant that it
/// reads, in whole seconds since the start of 1970 in UTC, or `None` where
/// it rejects `text`.
pub uninterp spec fn rfc3339_seconds(text: Seq<char>) -> Option<i64>;

/// Reads `text` as an RFC 3339 date and time.
///
/// Trusted: the body hands `text` to `chrono::DateTime::parse_from_rfc3339`
/// and, where that accepts it, takes the seconds of the instant from
/// `chrono::DateTime::timestamp`. Both depend on `text` alone, and neither
/// panics. The contract claims only that the outcome is the value that
/// `rfc3339_seconds` names; nothing is claimed of which texts are accepted.
#[verifier::external_body]
fn parse_rfc3339_seconds(text: &str) -> (seconds: Option<i64>)
    ensures
        seconds == rfc3339_seconds(text@),
{
    match chrono::DateTime::parse_from_rfc3339(text) {
        Ok(instant) => Some(instant.timestamp()),
        Err(_) => None,
    }
}

/// The point that an entry gives, where `seconds` is what its timestamp
/// denotes: an entry without a deal, or with a timestamp that denotes
/// nothing, gives none.
pub open spec fn history_point<P>(item: PriceHistoryItem<P>, seconds: Option<i64>) -> Option<
    PriceHistoryPoint<P>,
> {
    match (item.deal, seconds) {
        (Some(price), Some(timestamp)) => Some(
            PriceHistoryPoint { timestamp, price, shop_name: item.shop_name },
        ),
        _ => None,
    }
}

/// The points that the entries give, in the order of the entries.
pub open spec fn history_points<P>(items: Seq<PriceHistoryItem<P>>) -> Seq<PriceHistoryPoint<P>>
    decreases items.len(),
{
    if items.len() == 0 {
        Seq::empty()
    } else {
        let before = history_points(items.drop_last());
        match history_point(items.last(), rfc3339_seconds(items.last().timestamp@)) {
            Some(point) => before.push(point),
            None => before,
        }
    }
}

/// Makes the point of an entry, given what its timestamp denotes.
pub fn to_history_point<P>(item: PriceHistoryItem<P>, seconds: Option<i64>) -> (point: Option<
    PriceHistoryPoint<P>,
>)
    ensures
        point == history_point(item, seconds),
{
    match (item.deal, seconds) {
        (Some(price), Some(timestamp)) => Some(
            PriceHistoryPoint { timestamp, price, shop_name: item.shop_name },
        ),
        _ => None,
    }
}

/// Turns the entries of an answer into the points of the price history:
/// the entries with a deal and a timestamp that is an RFC 3339 date and
/// time, in their order; the others are left out.
pub fn price_history_points<P>(items: Vec<PriceHistoryItem<P>>) -> (points: Vec<
    PriceHistoryPoint<P>,
>)
    ensures
        points@ == history_points(items@),
{
    let ghost entries = items@;
    let mut points: Vec<PriceHistoryPoint<P>> = Vec::new();
    for item in iter: items
        invariant
            iter.seq() == entries,
            points@ == history_points(entries.take(iter.index() as int)),
    {
        assert(entries.take(iter.index() + 1).drop_last() =~= entries.take(iter.index() as int));
        let seconds: Option<i64> = parse_rfc3339_seconds(item.timestamp.as_str());
        if let Some(point) = to_history_point(item, seconds) {
            points.push(point);
        }
    }
    assert(entries.take(entries.len() as int) =~= entries);
    points
}

} // verus!
