//! What the library promises: relations between what goes in and what comes out, proved of the
//! functions by which their contracts are stated.
pub mod bilibili_pages;
pub mod bilibili_posts;
pub mod bilibili_titles;
pub mod bilibili_video;
pub mod captions;
pub mod download;
pub mod files;
pub mod json;
pub mod login;
pub mod messages;
pub mod missing;
pub mod model;
pub mod names;
pub mod netease;
pub mod pictures;
pub mod pixiv;
pub mod preparation;
pub mod routing;
pub mod sending;
pub mod settings;
pub mod text;
pub mod x;
pub mod youtube;

use vstd::prelude::*;

verus! {

/// Whether numbers below `n` are named in order, none of them twice.
pub open spec fn in_order(places: Seq<int>, n: int) -> bool {
    &&& forall|i: int| 0 <= i < places.len() ==> 0 <= #[trigger] places[i] < n
    &&& forall|i: int, j: int|
        0 <= i < j < places.len() ==> #[trigger] places[i] < #[trigger] places[j]
}

/// One more number, larger than those before, keeps the order.
pub proof fn lemma_in_order_push(places: Seq<int>, n: int)
    requires
        in_order(places, n),
        0 <= n,
    ensures
        in_order(places, n + 1),
        in_order(places.push(n), n + 1),
{
}

/// Where every number below `n` is named, each is named at its own place.
pub proof fn lemma_in_order_all(places: Seq<int>, n: int)
    requires
        in_order(places, n),
        0 <= n,
        forall|k: int| 0 <= k < n ==> places.contains(k),
    ensures
        places.len() == n,
        forall|i: int| 0 <= i < n ==> places[i] == i,
    decreases n,
{
    if n > 0 {
        assert(places.contains(n - 1));
        let at = choose|at: int| 0 <= at < places.len() && places[at] == n - 1;
        assert(at == places.len() - 1) by {
            if at < places.len() - 1 {
                assert(places[at] < places[places.len() - 1]);
            }
        }
        let fewer = places.drop_last();
        assert forall|k: int| 0 <= k < n - 1 implies fewer.contains(k) by {
            assert(places.contains(k));
            let p = choose|p: int| 0 <= p < places.len() && places[p] == k;
            assert(p != places.len() - 1);
            assert(fewer[p] == k);
        }
        assert forall|i: int| 0 <= i < fewer.len() implies 0 <= #[trigger] fewer[i] < n - 1 by {
            assert(places[i] < places[places.len() - 1]);
        }
        lemma_in_order_all(fewer, n - 1);
        assert forall|i: int| 0 <= i < n implies places[i] == i by {
            if i < n - 1 {
                assert(fewer[i] == places[i]);
            }
        }
    } else {
        if places.len() > 0 {
            assert(0 <= places[0] && places[0] < n);
        }
    }
}

} // verus!
