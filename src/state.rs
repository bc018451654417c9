use crate::feeds::{carried_over, merged_posts, recorded_read, Feed, Post};
use vstd::prelude::*;

verus! {

/// The durable form of a post: its id and read flag.
#[derive(Debug, Clone)]
pub struct PersistedPost {
    pub id: String,
    pub read: bool,
}

/// The durable form of a feed: its url and the durable form of its posts.
#[derive(Debug, Clone)]
pub struct PersistedFeed {
    pub url: String,
    pub posts: Vec<PersistedPost>,
}

/// `r` is what is stored of `f`.
pub open spec fn persists(r: PersistedFeed, f: Feed) -> bool {
    &&& r.url@ == f.url@
    &&& r.posts@.len() == f.posts@.len()
    &&& forall|i: int|
        0 <= i < r.posts@.len() ==> (#[trigger] r.posts@[i]).id@ == f.posts@[i].id@
            && r.posts@[i].read == f.posts@[i].read
}

/// `f` is the feed restored from `r`: url, ids and read flags as stored, every display
/// field empty until the next fetch fills it.
pub open spec fn restores(f: Feed, r: PersistedFeed) -> bool {
    &&& f.url@ == r.url@
    &&& f.title@ == Seq::<char>::empty()
    &&& f.id@ == Seq::<char>::empty()
    &&& f.posts@.len() == r.posts@.len()
    &&& forall|i: int|
        0 <= i < f.posts@.len() ==> {
            &&& (#[trigger] f.posts@[i]).id@ == r.posts@[i].id@
            &&& f.posts@[i].read == r.posts@[i].read
            &&& f.posts@[i].title@ == Seq::<char>::empty()
            &&& f.posts@[i].content@ == Seq::<char>::empty()
            &&& f.posts@[i].link is None
            &&& f.posts@[i].date@ == Seq::<char>::empty()
        }
}

fn persist_feed(f: &Feed) -> (r: PersistedFeed)
    ensures
        persists(r, *f),
{
    let mut posts: Vec<PersistedPost> = Vec::new();
    let mut i: usize = 0;
    while i < f.posts.len()
        invariant
            i <= f.posts@.len(),
            posts@.len() == i,
            forall|j: int|
                0 <= j < i ==> (#[trigger] posts@[j]).id@ == f.posts@[j].id@ && posts@[j].read
                    == f.posts@[j].read,
        decreases f.posts@.len() - i,
    {
        posts.push(PersistedPost { id: f.posts[i].id.clone(), read: f.posts[i].read });
        i = i + 1;
    }
    PersistedFeed { url: f.url.clone(), posts }
}

/// The durable form of the whole collection, feed by feed in order.
pub fn persisted_form(feeds: &Vec<Feed>) -> (r: Vec<PersistedFeed>)
    ensures
        r@.len() == feeds@.len(),
        forall|i: int| 0 <= i < r@.len() ==> persists(#[trigger] r@[i], feeds@[i]),
{
    let mut r: Vec<PersistedFeed> = Vec::new();
    let mut i: usize = 0;
    while i < feeds.len()
        invariant
            i <= feeds@.len(),
            r@.len() == i,
            forall|j: int| 0 <= j < i ==> persists(#[trigger] r@[j], feeds@[j]),
        decreases feeds@.len() - i,
    {
        r.push(persist_feed(&feeds[i]));
        i = i + 1;
    }
    r
}

fn restore_feed(r: PersistedFeed) -> (f: Feed)
    ensures
        restores(f, r),
{
    let ghost stored = r;
    let PersistedFeed { url, posts: stored_posts } = r;
    let mut rest = stored_posts;
    let mut posts: Vec<Post> = Vec::new();
    let n = rest.len();
    while rest.len() > 0
        invariant
            n == stored.posts@.len(),
            posts@.len() + rest@.len() == n,
            rest@ == stored.posts@.subrange(posts@.len() as int, n as int),
            forall|j: int|
                0 <= j < posts@.len() ==> {
                    &&& (#[trigger] posts@[j]).id@ == stored.posts@[j].id@
                    &&& posts@[j].read == stored.posts@[j].read
                    &&& posts@[j].title@ == Seq::<char>::empty()
                    &&& posts@[j].content@ == Seq::<char>::empty()
                    &&& posts@[j].link is None
                    &&& posts@[j].date@ == Seq::<char>::empty()
                },
        decreases rest@.len(),
    {
        let p = rest.remove(0);
        posts.push(
            Post {
                id: p.id,
                read: p.read,
                title: String::new(),
                content: String::new(),
                link: None,
                date: String::new(),
            },
        );
        assert(rest@ =~= stored.posts@.subrange(posts@.len() as int, n as int));
    }
    Feed { title: String::new(), url, posts, id: String::new() }
}

/// The collection restored from its durable form, feed by feed in order.
pub fn restore_feeds(records: Vec<PersistedFeed>) -> (r: Vec<Feed>)
    ensures
        r@.len() == records@.len(),
        forall|i: int| 0 <= i < r@.len() ==> restores(#[trigger] r@[i], records@[i]),
{
    let ghost stored = records@;
    let mut rest = records;
    let mut r: Vec<Feed> = Vec::new();
    let n = rest.len();
    while rest.len() > 0
        invariant
            n == stored.len(),
            r@.len() + rest@.len() == n,
            rest@ == stored.subrange(r@.len() as int, n as int),
            forall|j: int| 0 <= j < r@.len() ==> restores(#[trigger] r@[j], stored[j]),
        decreases rest@.len(),
    {
        let rec = rest.remove(0);
        r.push(restore_feed(rec));
        assert(rest@ =~= stored.subrange(r@.len() as int, n as int));
    }
    r
}

proof fn lemma_same_flags_same_record(a: Seq<Post>, b: Seq<Post>, id: Seq<char>)
    requires
        a.len() == b.len(),
        forall|i: int| 0 <= i < a.len() ==> (#[trigger] a[i]).id@ == b[i].id@ && a[i].read == b[i].read,
    ensures
        recorded_read(a, id) == recorded_read(b, id),
    decreases a.len(),
{
    if a.len() > 0 {
        lemma_same_flags_same_record(a.drop_last(), b.drop_last(), id);
    }
}

/// Storing a feed and restoring it loses no read flag: a fetch merged into the restored
/// feed yields the same posts as one merged into the feed that was stored.
pub proof fn lemma_restored_merge_agrees(f: Feed, stored: PersistedFeed, g: Feed, fetched: Feed)
    requires
        persists(stored, f),
        restores(g, stored),
    ensures
        merged_posts(fetched.posts@, g.posts@) == merged_posts(fetched.posts@, f.posts@),
{
    assert forall|i: int| 0 <= i < g.posts@.len() implies (#[trigger] g.posts@[i]).id@ == f.posts@[i].id@
        && g.posts@[i].read == f.posts@[i].read by {
        assert(stored.posts@[i].id@ == f.posts@[i].id@);
    }
    assert forall|k: int| 0 <= k < fetched.posts@.len() implies carried_over(fetched.posts@[k], g.posts@)
        == carried_over(fetched.posts@[k], f.posts@) by {
        lemma_same_flags_same_record(g.posts@, f.posts@, fetched.posts@[k].id@);
    }
    assert(merged_posts(fetched.posts@, g.posts@) =~= merged_posts(fetched.posts@, f.posts@));
}

} // verus!
