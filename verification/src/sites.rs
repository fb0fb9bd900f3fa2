use vstd::prelude::*;
use vstd::string::StringExecFns;
use crate::cache::SelectorCache;
use crate::error::Error;
use crate::facebook::Group;
use crate::facebook::mobile::Mobile;
use crate::facebook::mobile::fb_owns;
use crate::facebook::mobile::og_opt;
use crate::facebook::mobile::og_or;
use crate::facebook::mobile::posts_extracted;
use crate::fetch::ProxyConfig;
use crate::text::has_id;
use crate::text::id_capture_of;

verus! {

/// The uniform aggregate every backend normalises into.
#[derive(Debug)]
pub struct User {
    pub id: String,
    pub name: String,
    pub description: Option<String>,
    pub url: String,
    pub image: Option<String>,
    pub posts: Vec<Post>,
}

/// One post of the uniform shape; `url` is the post's absolute permalink.
#[derive(Debug)]
pub struct Post {
    pub id: String,
    pub name: String,
    pub url: String,
    pub message: String,
    pub created_time: String,
}

/// One site-specific scraper.  A closed set of variants dispatched through
/// `owns`/`fetch_aggregate`, so per-site logic stays substitutable without
/// touching the dispatch layer.
pub enum Backend {
    FacebookMobile(Mobile),
}

/// The uniform posts are the converted scraped posts, entry by entry: same
/// fields, with `url` carrying the absolute permalink.
pub open spec fn posts_correspond(
    gposts: Seq<crate::facebook::Post>,
    uposts: Seq<Post>,
) -> bool {
    &&& uposts.len() == gposts.len()
    &&& forall|t: int|
        0 <= t < gposts.len() ==> {
            &&& (#[trigger] uposts[t]).id == gposts[t].id
            &&& uposts[t].name == gposts[t].name
            &&& uposts[t].url == gposts[t].permalink_url
            &&& uposts[t].message == gposts[t].message
            &&& uposts[t].created_time == gposts[t].created_time
        }
}

impl Backend {
    /// This backend's page walk explains the aggregate: some page text and
    /// normalised dates yield exactly these posts (complete, in document
    /// order) and this header with its fallbacks, as `Mobile::parse_group`
    /// states them.
    pub open spec fn explains(self, u: User, id: Seq<char>) -> bool {
        match self {
            Backend::FacebookMobile(_) => exists|
                page: Seq<char>,
                nd: Seq<Option<Seq<char>>>,
                gposts: Seq<crate::facebook::Post>,
            |
                {
                    &&& #[trigger] posts_extracted(page, nd, gposts)
                    &&& posts_correspond(gposts, u.posts@)
                    &&& u.name@ == og_or(page, "title"@, id)
                    &&& u.description.deep_view() == og_opt(page, "description"@)
                    &&& u.url@ == og_or(page, "url"@, "https://mobile.facebook.com/"@ + id)
                    &&& u.image.deep_view() == og_opt(page, "image"@)
                },
        }
    }

    /// Which identifier, if any, this backend recognises in an input.
    pub open spec fn owns_spec(self, input: Seq<char>) -> Option<Seq<char>> {
        match self {
            Backend::FacebookMobile(_) => fb_owns(input),
        }
    }

    /// Pure, side-effect-free ownership check: the canonical per-site
    /// identifier extracted from the input, if this backend recognises it.
    pub fn owns(&self, input: &str) -> (r: Option<String>)
        ensures
            match r {
                Some(id) => self.owns_spec(input@) == Some(id@),
                None => self.owns_spec(input@) is None,
            },
    {
        match self {
            Backend::FacebookMobile(m) => m.owns(input),
        }
    }

    /// Fetch and assemble the aggregate for an identifier this backend owns.
    pub fn fetch_aggregate(
        &self,
        cache: &mut SelectorCache,
        proxy: &ProxyConfig,
        id: &str,
    ) -> (r: Result<User, Error>)
        requires
            old(cache).wf(),
        ensures
            final(cache).wf(),
            r matches Ok(u) ==> u.id@ == id@ && self.explains(u, id@) && (forall|t: int|
                0 <= t < u.posts@.len() ==> (#[trigger] u.posts@[t].id@.len() > 0 && has_id(
                    u.posts@[t].url@,
                ) && id_capture_of(u.posts@[t].url@, u.posts@[t].id@))),
    {
        match self {
            Backend::FacebookMobile(m) => {
                let group = match m.group(cache, proxy, id) {
                    Ok(g) => g,
                    Err(e) => {
                        return Err(e);
                    },
                };
                let ghost gposts = group.posts@;
                proof {
                    let (page, nd) = choose|page: Seq<char>, nd: Seq<Option<Seq<char>>>|
                        {
                            &&& #[trigger] posts_extracted(page, nd, gposts)
                            &&& group.name@ == og_or(page, "title"@, id@)
                            &&& group.description.deep_view() == og_opt(page, "description"@)
                            &&& group.url@ == og_or(page, "url"@, "https://mobile.facebook.com/"@
                                + id@)
                            &&& group.image.deep_view() == og_opt(page, "image"@)
                        };
                    assert(posts_extracted(page, nd, gposts));
                }
                let user = user_from_group(group);
                proof {
                    assert(posts_correspond(gposts, user.posts@));
                }
                Ok(user)
            },
        }
    }
}

/// Convert a scraped group into the uniform user shape: the top-level fields
/// carry over unchanged and each post's `url` is its absolute permalink.
pub fn user_from_group(g: Group) -> (u: User)
    ensures
        u.id == g.id,
        u.name == g.name,
        u.description == g.description,
        u.url == g.url,
        u.image == g.image,
        u.posts@.len() == g.posts@.len(),
        forall|t: int|
            0 <= t < g.posts@.len() ==> {
                &&& (#[trigger] u.posts@[t]).id == g.posts@[t].id
                &&& u.posts@[t].name == g.posts@[t].name
                &&& u.posts@[t].url == g.posts@[t].permalink_url
                &&& u.posts@[t].message == g.posts@[t].message
                &&& u.posts@[t].created_time == g.posts@[t].created_time
            },
{
    let mut posts: Vec<Post> = Vec::new();
    let mut t: usize = 0;
    while t < g.posts.len()
        invariant
            t <= g.posts@.len(),
            posts@.len() == t,
            forall|q: int|
                0 <= q < t ==> {
                    &&& (#[trigger] posts@[q]).id == g.posts@[q].id
                    &&& posts@[q].name == g.posts@[q].name
                    &&& posts@[q].url == g.posts@[q].permalink_url
                    &&& posts@[q].message == g.posts@[q].message
                    &&& posts@[q].created_time == g.posts@[q].created_time
                },
        decreases g.posts@.len() - t,
    {
        let p = &g.posts[t];
        posts.push(
            Post {
                id: p.id.clone(),
                name: p.name.clone(),
                url: p.permalink_url.clone(),
                message: p.message.clone(),
                created_time: p.created_time.clone(),
            },
        );
        t += 1;
    }
    User {
        id: g.id,
        name: g.name,
        description: g.description,
        url: g.url,
        image: g.image,
        posts,
    }
}

/// Dispatch scan from entry `i`: the first backend, in registration order,
/// whose ownership check claims the input.
pub open spec fn find_from(
    entries: Seq<(String, Backend)>,
    input: Seq<char>,
    i: int,
) -> Option<(Seq<char>, Seq<char>)>
    decreases entries.len() - i,
{
    if i < 0 || i >= entries.len() {
        None
    } else {
        match entries[i].1.owns_spec(input) {
            Some(id) => Some((entries[i].0@, id)),
            None => find_from(entries, input, i + 1),
        }
    }
}

/// What `Sites::find` returns: the name of the first owning backend and the
/// identifier it extracts, or nothing when no backend claims the input.
pub open spec fn find_spec(entries: Seq<(String, Backend)>, input: Seq<char>) -> Option<
    (Seq<char>, Seq<char>),
> {
    find_from(entries, input, 0)
}

/// The registry: every backend keyed by name, in a fixed registration order,
/// built once at startup and read-only thereafter.
pub struct Sites {
    pub entries: Vec<(String, Backend)>,
}

impl Sites {
    /// The default registry, in its fixed registration order.
    pub fn new() -> (r: Self)
        ensures
            r.entries@.len() == 1,
            r.entries@[0].0@ == "facebook"@,
            r.entries@[0].1 is FacebookMobile,
    {
        let mut entries: Vec<(String, Backend)> = Vec::new();
        entries.push((String::from_str("facebook"), Backend::FacebookMobile(Mobile::new())));
        Sites { entries }
    }

    /// The first backend, in registration order, that recognises the input,
    /// together with the identifier it extracts; earlier-registered wins on
    /// ambiguous inputs.
    pub fn find(&self, account: &str) -> (r: Option<(String, String)>)
        ensures
            match r {
                Some(found) => find_spec(self.entries@, account@) == Some((found.0@, found.1@)),
                None => find_spec(self.entries@, account@) is None,
            },
    {
        let mut i: usize = 0;
        while i < self.entries.len()
            invariant
                i <= self.entries@.len(),
                find_spec(self.entries@, account@) == find_from(self.entries@, account@, i as int),
            decreases self.entries@.len() - i,
        {
            match self.entries[i].1.owns(account) {
                Some(id) => {
                    let name = self.entries[i].0.clone();
                    return Some((name, id));
                },
                None => {},
            }
            i += 1;
        }
        None
    }

    /// Fetch through the backend registered under `name`; a name under which
    /// nothing is registered yields `NotFound` without any network work and
    /// with the cache untouched.  A successful aggregate is explained by the
    /// backend registered under that name.
    pub fn fetch(
        &self,
        cache: &mut SelectorCache,
        proxy: &ProxyConfig,
        name: &str,
        id: &str,
    ) -> (r: Result<User, Error>)
        requires
            old(cache).wf(),
        ensures
            final(cache).wf(),
            (forall|k: int|
                0 <= k < self.entries@.len() ==> (#[trigger] self.entries@[k].0@) != name@) ==> (r
                == Err::<User, Error>(Error::NotFound) && *final(cache) == *old(cache)),
            r matches Ok(u) ==> u.id@ == id@ && (exists|k: int|
                0 <= k < self.entries@.len() && (#[trigger] self.entries@[k].0@) == name@
                    && self.entries@[k].1.explains(u, id@)) && (forall|t: int|
                0 <= t < u.posts@.len() ==> (#[trigger] u.posts@[t].id@.len() > 0 && has_id(
                    u.posts@[t].url@,
                ) && id_capture_of(u.posts@[t].url@, u.posts@[t].id@))),
    {
        let key = String::from_str(name);
        let mut i: usize = 0;
        while i < self.entries.len()
            invariant
                cache.wf(),
                cache == old(cache),
                key@ == name@,
                i <= self.entries@.len(),
                forall|k: int| 0 <= k < i ==> (#[trigger] self.entries@[k].0@) != name@,
            decreases self.entries@.len() - i,
        {
            if self.entries[i].0 == key {
                let r = self.entries[i].1.fetch_aggregate(cache, proxy, id);
                match &r {
                    Ok(u) => {
                        proof {
                            assert(self.entries@[i as int].0@ == name@);
                            assert(self.entries@[i as int].1.explains(*u, id@));
                        }
                    },
                    Err(_) => {},
                }
                return r;
            }
            i += 1;
        }
        Err(Error::NotFound)
    }
}

/// Law: dispatch is first-registered-wins.  If the backend at `k` owns the
/// input and no earlier-registered one does, `find` names entry `k`; in
/// particular, of two backends with overlapping ownership the earlier one
/// wins, however specific the later one's match is.
pub proof fn lemma_find_first_registered(
    entries: Seq<(String, Backend)>,
    input: Seq<char>,
    k: int,
)
    requires
        0 <= k < entries.len(),
        entries[k].1.owns_spec(input) is Some,
        forall|j: int| 0 <= j < k ==> (#[trigger] entries[j].1.owns_spec(input)) is None,
    ensures
        find_spec(entries, input) matches Some(found) && found.0 == entries[k].0@ && Some(found.1)
            == entries[k].1.owns_spec(input),
{
    lemma_find_first_from(entries, input, 0, k);
}

proof fn lemma_find_first_from(entries: Seq<(String, Backend)>, input: Seq<char>, i: int, k: int)
    requires
        0 <= i <= k < entries.len(),
        entries[k].1.owns_spec(input) is Some,
        forall|j: int| 0 <= j < k ==> (#[trigger] entries[j].1.owns_spec(input)) is None,
    ensures
        find_from(entries, input, i) matches Some(found) && found.0 == entries[k].0@ && Some(
            found.1,
        ) == entries[k].1.owns_spec(input),
    decreases k - i,
{
    if i < k {
        lemma_find_first_from(entries, input, i + 1, k);
    }
}

} // verus!
