//! The shape of a track's top-tags feed and the extraction of the few
//! lowest-scoring tags from it, as the engine's alternative tag source reads
//! them.

use vstd::prelude::*;

use crate::models::Tag as DomainTag;

verus! {

broadcast use vstd::seq_lib::group_to_multiset_ensures;

/// A track's top-tags feed.
#[derive(Debug)]
pub struct TrackTagsResponse {
    pub track_tags: TrackTags,
}

/// The tag list of the feed, with its subject attribution.
#[derive(Debug)]
pub struct TrackTags {
    pub tags: Vec<Tag>,
    pub attr: Attr,
}

/// One tag of the feed: a vote count, the tag's name, and its page.
#[derive(Debug)]
pub struct Tag {
    pub count: i64,
    pub name: String,
    pub url: String,
}

impl Clone for Tag {
    fn clone(&self) -> (r: Self)
        ensures
            r == *self,
    {
        Tag { count: self.count, name: self.name.clone(), url: self.url.clone() }
    }
}

/// Which artist and track the feed is about.
#[derive(Debug)]
pub struct Attr {
    pub artist: String,
    pub track: String,
}

/// Non-decreasing vote counts.
pub open spec fn sorted_by_count(s: Seq<Tag>) -> bool {
    forall|i: int, j: int| 0 <= i <= j < s.len() ==> s[i].count <= s[j].count
}

/// `sorted` rearranges `of` into non-decreasing vote counts.
pub open spec fn count_sorted_perm(sorted: Seq<Tag>, of: Seq<Tag>) -> bool {
    sorted.to_multiset() == of.to_multiset() && sorted_by_count(sorted)
}

/// How many tags an extraction keeps: at most three.
pub open spec fn keep_count(n: nat) -> nat {
    if n < 3 {
        n
    } else {
        3
    }
}

/// The domain tags a response reduces to: the (at most) three
/// lowest-scoring feed tags, by name, in count order.
pub fn extract_tags(tt: TrackTagsResponse) -> (r: Vec<DomainTag>)
    ensures
        r@.len() == keep_count(tt.track_tags.tags@.len()),
        exists|sorted: Seq<Tag>|
            {
                &&& #[trigger] count_sorted_perm(sorted, tt.track_tags.tags@)
                &&& forall|i: int|
                    0 <= i < r@.len() ==> r@[i].id == sorted[i].name
            },
{
    let ghost orig = tt.track_tags.tags@;
    let sorted = sort_tags_by_count(tt.track_tags.tags);
    let ghost sorted_v = sorted@;
    proof {
        assert(sorted@.to_multiset().len() == orig.to_multiset().len());
        assert(sorted@.len() == orig.len());
    }
    let limit = if sorted.len() < 3 {
        sorted.len()
    } else {
        3
    };
    let mut r: Vec<DomainTag> = Vec::new();
    let mut i: usize = 0;
    while i < limit
        invariant
            i <= limit,
            limit <= sorted@.len(),
            sorted@ == sorted_v,
            r@.len() == i,
            forall|j: int| 0 <= j < i ==> r@[j].id == sorted_v[j].name,
        decreases limit - i,
    {
        r.push(DomainTag { id: sorted[i].name.clone() });
        i = i + 1;
    }
    proof {
        assert(count_sorted_perm(sorted_v, orig));
    }
    r
}

/// Sort the feed tags into non-decreasing vote counts (selection sort; ties
/// may land in any order).
fn sort_tags_by_count(input: Vec<Tag>) -> (r: Vec<Tag>)
    ensures
        count_sorted_perm(r@, input@),
{
    let ghost orig = input@;
    let mut rest = input;
    let mut out: Vec<Tag> = Vec::new();
    while rest.len() > 0
        invariant
            out@.to_multiset().add(rest@.to_multiset()) =~= orig.to_multiset(),
            sorted_by_count(out@),
            forall|i: int, j: int|
                0 <= i < out@.len() && 0 <= j < rest@.len() ==> out@[i].count <= rest@[j].count,
        decreases rest.len(),
    {
        let mut min_i: usize = 0;
        let mut k: usize = 1;
        while k < rest.len()
            invariant
                rest.len() > 0,
                min_i < k <= rest.len(),
                forall|j: int| 0 <= j < k ==> rest@[min_i as int].count <= rest@[j].count,
            decreases rest.len() - k,
        {
            if rest[k].count < rest[min_i].count {
                min_i = k;
            }
            k = k + 1;
        }
        let ghost rest_before = rest@;
        let t = rest.remove(min_i);
        proof {
            assert(rest@.to_multiset() =~= rest_before.to_multiset().remove(t));
            assert(forall|j: int|
                0 <= j < rest@.len() ==> #[trigger] rest@[j].count >= t.count) by {
                assert(forall|j: int|
                    0 <= j < rest@.len() ==> rest@[j] == if j < min_i {
                        rest_before[j]
                    } else {
                        rest_before[j + 1]
                    });
            }
        }
        out.push(t);
        proof {
            assert(out@.to_multiset().add(rest@.to_multiset()) =~= orig.to_multiset());
        }
    }
    proof {
        assert(rest@.to_multiset().len() == 0);
        assert(out@.to_multiset() =~= orig.to_multiset());
    }
    out
}

} // verus!
