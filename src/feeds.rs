use vstd::prelude::*;

verus! {

/// One entry of a feed. `read` is the only field that survives a re-fetch.
#[derive(Debug, Clone)]
pub struct Post {
    pub id: String,
    pub read: bool,
    pub title: String,
    pub content: String,
    pub link: Option<String>,
    pub date: String,
}

/// A subscribed source; `url` is the key that matches it across fetches.
#[derive(Debug, Clone)]
pub struct Feed {
    pub title: String,
    pub url: String,
    pub posts: Vec<Post>,
    pub id: String,
}

pub type Feeds = Vec<Feed>;

/// Number of posts in `posts` that are not read.
pub open spec fn unread_count(posts: Seq<Post>) -> nat
    decreases posts.len(),
{
    if posts.len() == 0 {
        0
    } else {
        unread_count(posts.drop_last()) + if posts.last().read { 0nat } else { 1nat }
    }
}

/// The read flag recorded for `id` in `posts`; where an id occurs more than once,
/// the last occurrence wins.
pub open spec fn recorded_read(posts: Seq<Post>, id: Seq<char>) -> Option<bool>
    decreases posts.len(),
{
    if posts.len() == 0 {
        None
    } else if posts.last().id@ == id {
        Some(posts.last().read)
    } else {
        recorded_read(posts.drop_last(), id)
    }
}

/// A freshly fetched post, with the read flag carried over from `prior` when its id
/// was known there, and unread otherwise.
pub open spec fn carried_over(p: Post, prior: Seq<Post>) -> Post {
    Post {
        id: p.id,
        read: match recorded_read(prior, p.id@) {
            Some(r) => r,
            None => false,
        },
        title: p.title,
        content: p.content,
        link: p.link,
        date: p.date,
    }
}

/// The posts of a merge: the fetched ones, in fetched order, each with its carried flag.
pub open spec fn merged_posts(fetched: Seq<Post>, prior: Seq<Post>) -> Seq<Post> {
    fetched.map_values(|p: Post| carried_over(p, prior))
}

/// `after` is `before` merged with `fetched`.
pub open spec fn is_merge_of(after: Feed, before: Feed, fetched: Feed) -> bool {
    &&& after.title@ == fetched.title@
    &&& after.url@ == fetched.url@
    &&& after.id@ == before.id@
    &&& after.posts@ == merged_posts(fetched.posts@, before.posts@)
}

impl Feed {
    pub fn total_unread(&self) -> (r: usize)
        ensures
            r == unread_count(self.posts@),
    {
        let mut count: usize = 0;
        let mut i: usize = 0;
        while i < self.posts.len()
            invariant
                i <= self.posts@.len(),
                count == unread_count(self.posts@.subrange(0, i as int)),
                count <= i,
            decreases self.posts@.len() - i,
        {
            assert(self.posts@.subrange(0, i + 1).drop_last() =~= self.posts@.subrange(0, i as int));
            if !self.posts[i].read {
                count = count + 1;
            }
            i = i + 1;
        }
        assert(self.posts@.subrange(0, i as int) =~= self.posts@);
        count
    }
}

impl Post {
    pub fn mark_as_read(&mut self)
        ensures
            final(self).read,
            final(self).id == old(self).id,
            final(self).title == old(self).title,
            final(self).content == old(self).content,
            final(self).link == old(self).link,
            final(self).date == old(self).date,
    {
        self.read = true;
    }

    pub fn mark_as_unread(&mut self)
        ensures
            !final(self).read,
            final(self).id == old(self).id,
            final(self).title == old(self).title,
            final(self).content == old(self).content,
            final(self).link == old(self).link,
            final(self).date == old(self).date,
    {
        self.read = false;
    }
}

/// The read flag last recorded for `id` among `posts`, if any.
fn lookup_read(posts: &Vec<Post>, id: &String) -> (r: Option<bool>)
    ensures
        r == recorded_read(posts@, id@),
{
    let mut i: usize = posts.len();
    assert(posts@.subrange(0, i as int) =~= posts@);
    while i > 0
        invariant
            i <= posts@.len(),
            recorded_read(posts@, id@) == recorded_read(posts@.subrange(0, i as int), id@),
        decreases i,
    {
        let ghost prefix = posts@.subrange(0, i as int);
        assert(prefix.drop_last() =~= posts@.subrange(0, i - 1));
        if posts[i - 1].id == *id {
            return Some(posts[i - 1].read);
        }
        i = i - 1;
    }
    assert(posts@.subrange(0, 0) =~= Seq::<Post>::empty());
    None
}

/// Merges a freshly fetched version of a feed into the known one: title and url
/// come from the fetch, the posts are the fetched ones in fetched order, each post
/// whose id was known keeps its recorded read flag, and every other post is unread.
pub fn merge_fetched_feed(existing: &mut Feed, fetched: Feed)
    ensures
        is_merge_of(*final(existing), *old(existing), fetched),
{
    let ghost prior = existing.posts@;
    let ghost fetched_posts = fetched.posts@;
    let Feed { title, url, posts: fetched_list, id: _ } = fetched;
    let mut rest = fetched_list;
    let mut out: Vec<Post> = Vec::new();
    let n = rest.len();
    while rest.len() > 0
        invariant
            n == fetched_posts.len(),
            existing.posts@ == prior,
            out@.len() + rest@.len() == n,
            rest@ == fetched_posts.subrange(out@.len() as int, n as int),
            forall|j: int| 0 <= j < out@.len() ==> out@[j] == carried_over(fetched_posts[j], prior),
        decreases rest@.len(),
    {
        let ghost k = out@.len();
        let mut p = rest.remove(0);
        assert(p == fetched_posts[k as int]);
        match lookup_read(&existing.posts, &p.id) {
            Some(r) => {
                p.read = r;
            },
            None => {
                p.read = false;
            },
        }
        out.push(p);
        assert(rest@ =~= fetched_posts.subrange(out@.len() as int, n as int));
    }
    existing.title = title;
    existing.url = url;
    existing.posts = out;
    assert(existing.posts@ =~= merged_posts(fetched_posts, prior));
}

/// `i` is the first position in `feeds` whose url is `url`.
pub open spec fn first_with_url(feeds: Seq<Feed>, url: Seq<char>, i: int) -> bool {
    &&& 0 <= i < feeds.len()
    &&& feeds[i].url@ == url
    &&& forall|j: int| 0 <= j < i ==> feeds[j].url@ != url
}

/// Takes one fetched feed into the live collection: it is merged into the first feed
/// with the same url, or appended when there is none. Returns whether the collection
/// now holds exactly one feed, in which case that feed becomes the focused one.
pub fn ingest_feed(feeds: &mut Vec<Feed>, fetched: Feed) -> (only_one: bool)
    ensures
        only_one == (final(feeds)@.len() == 1),
        forall|i: int| first_with_url(old(feeds)@, fetched.url@, i) ==> {
            &&& final(feeds)@.len() == old(feeds)@.len()
            &&& is_merge_of(final(feeds)@[i], old(feeds)@[i], fetched)
            &&& forall|j: int| 0 <= j < old(feeds)@.len() && j != i ==> final(feeds)@[j] == old(feeds)@[j]
        },
        (forall|j: int| 0 <= j < old(feeds)@.len() ==> old(feeds)@[j].url@ != fetched.url@)
            ==> final(feeds)@ == old(feeds)@.push(fetched),
{
    let mut i: usize = 0;
    while i < feeds.len() && feeds[i].url != fetched.url
        invariant
            i <= feeds@.len(),
            forall|j: int| 0 <= j < i ==> feeds@[j].url@ != fetched.url@,
        decreases feeds@.len() - i,
    {
        i = i + 1;
    }
    if i < feeds.len() {
        let ghost before = feeds@;
        let mut existing = feeds.remove(i);
        merge_fetched_feed(&mut existing, fetched);
        feeds.insert(i, existing);
        assert forall|k: int| first_with_url(before, fetched.url@, k) implies k == i by {
            if k < i {
            } else if k > i {
                assert(before[i as int].url@ == fetched.url@);
            }
        }
    } else {
        feeds.push(fetched);
    }
    feeds.len() == 1
}

proof fn lemma_recorded_read_last(posts: Seq<Post>, j: int)
    requires
        0 <= j < posts.len(),
        forall|k: int| j < k < posts.len() ==> posts[k].id@ != posts[j].id@,
    ensures
        recorded_read(posts, posts[j].id@) == Some(posts[j].read),
    decreases posts.len(),
{
    if j < posts.len() - 1 {
        let shorter = posts.drop_last();
        lemma_recorded_read_last(shorter, j);
    }
}

proof fn lemma_recorded_read_absent(posts: Seq<Post>, id: Seq<char>)
    requires
        forall|k: int| 0 <= k < posts.len() ==> posts[k].id@ != id,
    ensures
        recorded_read(posts, id) is None,
    decreases posts.len(),
{
    if posts.len() > 0 {
        lemma_recorded_read_absent(posts.drop_last(), id);
    }
}

/// A merged post whose id the known feed held keeps the read flag that the known feed
/// recorded for that id (its last post with that id, should the id repeat).
pub proof fn lemma_merge_preserves_read(before: Feed, fetched: Feed, after: Feed, i: int, j: int)
    requires
        is_merge_of(after, before, fetched),
        0 <= i < fetched.posts@.len(),
        0 <= j < before.posts@.len(),
        before.posts@[j].id@ == fetched.posts@[i].id@,
        forall|k: int| j < k < before.posts@.len() ==> before.posts@[k].id@ != before.posts@[j].id@,
    ensures
        after.posts@[i].id@ == fetched.posts@[i].id@,
        after.posts@[i].read == before.posts@[j].read,
{
    lemma_recorded_read_last(before.posts@, j);
}

/// A merged post whose id the known feed never held is unread.
pub proof fn lemma_merge_new_post_unread(before: Feed, fetched: Feed, after: Feed, i: int)
    requires
        is_merge_of(after, before, fetched),
        0 <= i < fetched.posts@.len(),
        forall|k: int| 0 <= k < before.posts@.len() ==> before.posts@[k].id@ != fetched.posts@[i].id@,
    ensures
        after.posts@[i].id@ == fetched.posts@[i].id@,
        !after.posts@[i].read,
{
    lemma_recorded_read_absent(before.posts@, fetched.posts@[i].id@);
}

proof fn lemma_recorded_read_found(posts: Seq<Post>, j: int)
    requires
        0 <= j < posts.len(),
    ensures
        recorded_read(posts, posts[j].id@) is Some,
    decreases posts.len(),
{
    if posts.last().id@ != posts[j].id@ {
        let shorter = posts.drop_last();
        assert(shorter[j] == posts[j]);
        lemma_recorded_read_found(shorter, j);
    }
}

proof fn lemma_recorded_read_of_merge(fetched: Seq<Post>, prior: Seq<Post>, id: Seq<char>)
    ensures
        recorded_read(merged_posts(fetched, prior), id) == match recorded_read(fetched, id) {
            None => None,
            Some(_) => match recorded_read(prior, id) {
                Some(r) => Some(r),
                None => Some(false),
            },
        },
    decreases fetched.len(),
{
    if fetched.len() > 0 {
        let shorter = fetched.drop_last();
        assert(merged_posts(fetched, prior).drop_last() =~= merged_posts(shorter, prior));
        lemma_recorded_read_of_merge(shorter, prior, id);
    }
}

/// Merging the same fetch a second time changes nothing.
pub proof fn lemma_merge_idempotent(before: Feed, fetched: Feed, once: Feed, twice: Feed)
    requires
        is_merge_of(once, before, fetched),
        is_merge_of(twice, once, fetched),
    ensures
        twice.title@ == once.title@,
        twice.url@ == once.url@,
        twice.id@ == once.id@,
        twice.posts@ == once.posts@,
{
    let f = fetched.posts@;
    let e = before.posts@;
    assert forall|k: int| 0 <= k < f.len() implies carried_over(f[k], once.posts@) == carried_over(f[k], e) by {
        lemma_recorded_read_of_merge(f, e, f[k].id@);
        lemma_recorded_read_found(f, k);
    }
    assert(twice.posts@ =~= once.posts@);
}

} // verus!
