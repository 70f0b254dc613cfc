use vstd::prelude::*;
use crate::blog::{BlogPost, BlogPostStatus};

verus! {

broadcast use vstd::seq_lib::group_to_multiset_ensures;

/// The posts of `posts` that are published, in their order.
pub open spec fn published_only(posts: Seq<BlogPost>) -> Seq<BlogPost>
    decreases posts.len(),
{
    if posts.len() == 0 {
        Seq::empty()
    } else if posts.last().status is Published {
        published_only(posts.drop_last()).push(posts.last())
    } else {
        published_only(posts.drop_last())
    }
}

/// The time a post is listed by: its publication time, or the least time
/// there is for a post without one.
pub open spec fn listing_time(p: BlogPost) -> int {
    match p.status {
        BlogPostStatus::Published(t) => t as int,
        BlogPostStatus::Unpublished => i64::MIN as int,
    }
}

/// `a` may be listed before `b`: it was published earlier, or at the same
/// time with an id that is not larger.
pub open spec fn listed_no_later(a: BlogPost, b: BlogPost) -> bool {
    listing_time(a) < listing_time(b) || (listing_time(a) == listing_time(b) && a.id <= b.id)
}

pub open spec fn sorted_for_listing(s: Seq<BlogPost>) -> bool {
    forall|i: int, j: int| 0 <= i < j < s.len() ==> listed_no_later(#[trigger] s[i], #[trigger] s[j])
}

proof fn lemma_insert_to_multiset(s: Seq<BlogPost>, j: int, p: BlogPost)
    requires
        0 <= j <= s.len(),
    ensures
        s.insert(j, p).to_multiset() =~= s.to_multiset().insert(p),
{
    let t = s.insert(j, p);
    assert(t.remove(j) =~= s);
    assert(t[j] == p);
    assert(t.contains(p));
}

/// `a` strictly precedes `b` in a listing.
fn listed_before(a: &BlogPost, b: &BlogPost) -> (r: bool)
    ensures
        r == !listed_no_later(*b, *a),
{
    let ta = match a.published_at() {
        Some(t) => t,
        None => i64::MIN,
    };
    let tb = match b.published_at() {
        Some(t) => t,
        None => i64::MIN,
    };
    ta < tb || (ta == tb && a.id < b.id)
}

/// The published posts among `posts`, in ascending order of publication time;
/// posts published at the same second are ordered by id, so that a listing
/// does not depend on the order in which storage returned them.
pub fn published_posts(posts: Vec<BlogPost>) -> (r: Vec<BlogPost>)
    ensures
        r@.to_multiset() == published_only(posts@).to_multiset(),
        r@.len() == published_only(posts@).len(),
        forall|i: int| 0 <= i < r@.len() ==> (#[trigger] r@[i]).status is Published,
        sorted_for_listing(r@),
{
    let ghost all = posts@;
    let mut rest = posts;
    let mut out: Vec<BlogPost> = Vec::new();
    let ghost mut k: int = 0;
    while rest.len() > 0
        invariant
            0 <= k <= all.len(),
            rest@ == all.subrange(k, all.len() as int),
            out@.to_multiset() == published_only(all.subrange(0, k)).to_multiset(),
            forall|i: int| 0 <= i < out@.len() ==> (#[trigger] out@[i]).status is Published,
            sorted_for_listing(out@),
        decreases rest@.len(),
    {
        assert(k < all.len());
        let p = rest.remove(0);
        proof {
            assert(all.subrange(0, k + 1).drop_last() =~= all.subrange(0, k));
            assert(all[k] == p);
            assert(all.subrange(k + 1, all.len() as int) =~= rest@);
        }
        if p.is_published() {
            let mut j: usize = 0;
            while j < out.len() && !listed_before(&p, &out[j])
                invariant
                    j <= out@.len(),
                    forall|i: int| 0 <= i < j ==> listed_no_later(#[trigger] out@[i], p),
                decreases out@.len() - j,
            {
                j = j + 1;
            }
            let ghost old_out = out@;
            out.insert(j, p);
            proof {
                lemma_insert_to_multiset(old_out, j as int, p);
                assert forall|a: int, b: int| 0 <= a < b < out@.len() implies listed_no_later(
                    #[trigger] out@[a],
                    #[trigger] out@[b],
                ) by {
                    if b < j {
                        assert(out@[a] == old_out[a] && out@[b] == old_out[b]);
                    } else if b == j {
                        assert(out@[a] == old_out[a]);
                    } else if a == j {
                        assert(out@[b] == old_out[b - 1]);
                        if b - 1 > j {
                            assert(listed_no_later(old_out[j as int], old_out[b - 1]));
                        }
                    } else if a < j {
                        assert(out@[a] == old_out[a] && out@[b] == old_out[b - 1]);
                    } else {
                        assert(out@[a] == old_out[a - 1] && out@[b] == old_out[b - 1]);
                    }
                }
                assert forall|i: int| 0 <= i < out@.len() implies (#[trigger] out@[i]).status is Published by {
                    if i < j {
                        assert(out@[i] == old_out[i]);
                    } else if i > j {
                        assert(out@[i] == old_out[i - 1]);
                    }
                }
            }
        }
        proof {
            k = k + 1;
        }
    }
    proof {
        assert(all.subrange(0, k) =~= all);
        assert(out@.to_multiset().len() == published_only(all).to_multiset().len());
    }
    out
}

} // verus!
