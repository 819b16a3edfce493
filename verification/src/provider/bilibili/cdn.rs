//! The order in which the addresses of a file are tried.
use vstd::prelude::*;

use crate::config::{BilibiliCdnPreference, CdnView};
use crate::outside::{rewrite_cdn_host, url_with_host};
use crate::text::{
    add_distinct, distinct_of, lemma_distinct, lemma_texts_empty, lemma_texts_push, texts,
};

use super::BilibiliProvider;

verus! {

/// All addresses of a file in the order that a preference asks for: a mirror goes first, on the
/// default port, and the addresses that the API gave follow.
pub open spec fn preferred(cdn: CdnView, primary: Seq<char>, backups: Seq<Seq<char>>) -> Seq<
    Seq<char>,
> {
    match cdn {
        CdnView::BaseUrl => seq![primary] + backups,
        CdnView::BackupUrl => backups + seq![primary],
        CdnView::Mirror(host) => match url_with_host(primary, host, None) {
            Some(mirrored) => seq![mirrored] + (seq![primary] + backups),
            None => seq![primary] + backups,
        },
    }
}

/// The addresses in the order in which they are tried, none of them twice.
pub open spec fn ordered(cdn: CdnView, primary: Seq<char>, backups: Seq<Seq<char>>) -> Seq<
    Seq<char>,
> {
    let all = preferred(cdn, primary, backups);
    distinct_of(all, all.len() as int)
}

/// Whatever the preference, the address that the API gave and all its backup addresses are
/// tried, no address is tried twice, and none is tried first but that which is preferred.
pub proof fn law_all_addresses_tried(cdn: CdnView, primary: Seq<char>, backups: Seq<Seq<char>>)
    ensures
        ordered(cdn, primary, backups).no_duplicates(),
        ordered(cdn, primary, backups).contains(primary),
        forall|i: int|
            0 <= i < backups.len() ==> ordered(cdn, primary, backups).contains(
                #[trigger] backups[i],
            ),
        ordered(cdn, primary, backups).len() > 0,
        ordered(cdn, primary, backups)[0] == preferred(cdn, primary, backups)[0],
{
    let all = preferred(cdn, primary, backups);
    lemma_distinct(all, all.len() as int);
    let at: int = match cdn {
        CdnView::BaseUrl => 0,
        CdnView::BackupUrl => backups.len() as int,
        CdnView::Mirror(host) => if url_with_host(primary, host, None) is Some {
            1
        } else {
            0
        },
    };
    assert(all[at] == primary);
    assert forall|i: int| 0 <= i < backups.len() implies ordered(
        cdn,
        primary,
        backups,
    ).contains(#[trigger] backups[i]) by {
        let k: int = match cdn {
            CdnView::BackupUrl => i,
            _ => at + 1 + i,
        };
        assert(all[k] == backups[i]);
    }
}

impl BilibiliProvider {
    /// Orders the addresses of a file: the one that is tried first, and the others.
    pub fn order_media_urls(&self, primary: String, backups: &Vec<String>) -> (r: (
        String,
        Vec<String>,
    ))
        ensures
            seq![r.0@] + texts(r.1@) == ordered(self.cdn@, primary@, texts(backups@)),
    {
        broadcast use {lemma_texts_push, lemma_texts_empty};

        let ghost all = preferred(self.cdn@, primary@, texts(backups@));
        let mut out: Vec<String> = Vec::new();
        let ghost mut n: int = 0;
        match self.cdn {
            BilibiliCdnPreference::BaseUrl => {
                add_distinct(&mut out, primary.clone(), Ghost(all), Ghost(n));
                proof {
                    n = 1;
                }
            },
            BilibiliCdnPreference::BackupUrl => {},
            BilibiliCdnPreference::Mirror(host) => {
                match rewrite_cdn_host(primary.as_str(), host, None) {
                    Some(mirrored) => {
                        add_distinct(&mut out, mirrored, Ghost(all), Ghost(n));
                        proof {
                            n = 1;
                        }
                    },
                    None => {},
                }
                add_distinct(&mut out, primary.clone(), Ghost(all), Ghost(n));
                proof {
                    n = n + 1;
                }
            },
        }
        let mut i: usize = 0;
        let ghost first = n;
        while i < backups.len()
            invariant
                i <= backups@.len(),
                first + backups@.len() <= all.len(),
                0 <= first,
                n == first + i,
                texts(out@) == distinct_of(all, n),
                forall|j: int|
                    0 <= j < backups@.len() ==> #[trigger] all[first + j] == backups@[j]@,
            decreases backups.len() - i,
        {
            assert(all[first + i as int] == backups@[i as int]@);
            add_distinct(&mut out, backups[i].clone(), Ghost(all), Ghost(n));
            proof {
                n = n + 1;
            }
            i += 1;
        }
        match self.cdn {
            BilibiliCdnPreference::BackupUrl => {
                add_distinct(&mut out, primary, Ghost(all), Ghost(n));
                proof {
                    n = n + 1;
                }
            },
            _ => {},
        }
        assert(n == all.len());
        proof {
            lemma_distinct(all, n);
            assert(texts(out@).len() == out@.len());
        }
        let ghost whole = texts(out@);
        let selected = out.remove(0);
        assert(seq![selected@] + texts(out@) =~= whole);
        (selected, out)
    }
}

} // verus!
