use vstd::prelude::*;
use vstd::string::StrSliceExecFns;
use vstd::string::StringExecFns;
use crate::cache::SelectorCache;
use crate::date::date_parser_safe;
use crate::date::parse_date;
use crate::dom::css_ok;
use crate::dom::doc_inner_attrs;
use crate::dom::doc_inner_htmls;
use crate::dom::inner_attrs_of;
use crate::dom::inner_fragments_of;
use crate::dom::match_count_of;
use crate::error::Error;
use crate::extract::og;
use crate::extract::og_of;
use crate::extract::og_selector_seq;
use crate::fetch::fetch;
use crate::fetch::Method;
use crate::fetch::ProxyConfig;
use crate::text::extract_id_from_permalink;
use crate::text::has_id;
use crate::text::id_capture_of;
use crate::text::lemma_id_capture_nonempty;
use crate::text::pat_at;
use crate::text::pat_match_at;
use crate::text::rewrite_bare_path;
use crate::text::rewrite_bare_path_seq;
use crate::text::rewrite_href_seq;
use crate::text::rewrite_hrs_seq;
use crate::text::rewrite_relative_href;
use super::Group;
use super::Post;

verus! {

/// The base address every relative reference is rewritten under.
pub open spec fn base_url_seq() -> Seq<char> {
    "https://mobile.facebook.com"@
}

// ---------------------------------------------------------------------------
// Ownership: which inputs this backend claims, and the id it extracts
// ---------------------------------------------------------------------------

/// The identifier that follows the domain marker: the characters from `i` up
/// to the first `'?'` or the end of the string.
pub open spec fn fb_id_from(s: Seq<char>, i: int) -> Seq<char>
    decreases s.len() - i,
{
    if i < 0 || i >= s.len() {
        Seq::empty()
    } else if s[i] == '?' {
        Seq::empty()
    } else {
        seq![s[i]] + fb_id_from(s, i + 1)
    }
}

/// Ownership scan from index `i`: the id after the first occurrence of
/// `"facebook.com/"`, provided it is non-empty.
pub open spec fn fb_owns_from(s: Seq<char>, i: int) -> Option<Seq<char>>
    decreases s.len() - i,
{
    if i < 0 || i + 13 > s.len() {
        None
    } else if pat_at(s, "facebook.com/"@, i) {
        if fb_id_from(s, i + 13).len() > 0 {
            Some(fb_id_from(s, i + 13))
        } else {
            None
        }
    } else {
        fb_owns_from(s, i + 1)
    }
}

/// Whether the mobile backend owns an input, and the id it recovers from it.
pub open spec fn fb_owns(s: Seq<char>) -> Option<Seq<char>> {
    fb_owns_from(s, 0)
}

proof fn lemma_fb_id_range(s: Seq<char>, a: int, e: int)
    requires
        0 <= a <= e <= s.len(),
        forall|q: int| a <= q < e ==> s[q] != '?',
        e == s.len() || s[e] == '?',
    ensures
        fb_id_from(s, a) == s.subrange(a, e),
    decreases e - a,
{
    if a == e {
        assert(s.subrange(a, e) =~= Seq::<char>::empty());
    } else {
        lemma_fb_id_range(s, a + 1, e);
        assert(seq![s[a]] + s.subrange(a + 1, e) =~= s.subrange(a, e));
    }
}

// ---------------------------------------------------------------------------
// The page walk, as functions of the page text
// ---------------------------------------------------------------------------

/// The selector that locates a post container.
pub open spec fn article_sel() -> Seq<char> {
    "div[data-ft]"@
}

/// The selector for a post's title fragment, inside its container.
pub open spec fn title_sel() -> Seq<char> {
    "h3"@
}

/// The selector for a post's message fragment, inside its container.
pub open spec fn message_sel() -> Seq<char> {
    "div > div > span"@
}

/// The selector for a post's raw date fragment, inside its container.
pub open spec fn date_sel() -> Seq<char> {
    "abbr"@
}

/// The selector for a post's permalink element, inside its container.
pub open spec fn link_sel() -> Seq<char> {
    "div:last-child > div:last-child > a:last-child"@
}

/// The raw title fragment of post container `t` of the page.
pub open spec fn title_frag(page: Seq<char>, t: int) -> Option<Seq<char>> {
    inner_fragments_of(page, article_sel(), title_sel())[t]
}

/// The raw message fragment of post container `t` of the page.
pub open spec fn message_frag(page: Seq<char>, t: int) -> Option<Seq<char>> {
    inner_fragments_of(page, article_sel(), message_sel())[t]
}

/// The raw date fragment of post container `t` of the page.
pub open spec fn date_frag(page: Seq<char>, t: int) -> Option<Seq<char>> {
    inner_fragments_of(page, article_sel(), date_sel())[t]
}

/// The raw permalink href of post container `t`: absent when the container
/// has no permalink element, and the empty string when the element carries
/// no href attribute, as the page walk defaults it.
pub open spec fn href_frag(page: Seq<char>, t: int) -> Option<Seq<char>> {
    match inner_attrs_of(page, article_sel(), link_sel(), "href"@)[t] {
        Some(a) => match a {
            Some(v) => Some(v),
            None => Some(Seq::<char>::empty()),
        },
        None => None,
    }
}

/// The Open-Graph value used for a top-level field, with its fallback: the
/// lookup result when the selector is valid and the tag is present, the
/// fallback otherwise.
pub open spec fn og_or(page: Seq<char>, name: Seq<char>, fallback: Seq<char>) -> Seq<char> {
    if css_ok(og_selector_seq(name)) {
        match og_of(page, name) {
            Some(v) => v,
            None => fallback,
        }
    } else {
        fallback
    }
}

/// The Open-Graph value of an optional top-level field: present exactly when
/// the selector is valid and the lookup finds a content attribute.
pub open spec fn og_opt(page: Seq<char>, name: Seq<char>) -> Option<Seq<char>> {
    if css_ok(og_selector_seq(name)) {
        og_of(page, name)
    } else {
        None
    }
}

/// Post container `t` yields a post, given its normalised date `d`: all
/// four fragments are present and an identifier is recoverable from the
/// rewritten permalink.
pub open spec fn container_yields(page: Seq<char>, t: int, d: Option<Seq<char>>) -> bool {
    &&& title_frag(page, t) is Some
    &&& message_frag(page, t) is Some
    &&& d is Some
    &&& href_frag(page, t) matches Some(h) && has_id(rewrite_bare_path_seq(h, base_url_seq()))
}

/// The post that container `t` yields, given its normalised date `d`.
pub open spec fn container_post(page: Seq<char>, t: int, d: Option<Seq<char>>, p: Post) -> bool {
    &&& title_frag(page, t) matches Some(tf) && p.name@ == rewrite_href_seq(tf, base_url_seq())
    &&& message_frag(page, t) matches Some(mf) && p.message@ == rewrite_href_seq(
        mf,
        base_url_seq(),
    )
    &&& d matches Some(ct) && p.created_time@ == ct
    &&& href_frag(page, t) matches Some(h) && p.permalink_url@ == rewrite_bare_path_seq(
        h,
        base_url_seq(),
    )
    &&& id_capture_of(p.permalink_url@, p.id@)
}

/// `posts[k..]` are exactly the posts of containers `[t, nd.len())`, in
/// document order: each yielding container contributes one post, each other
/// container none, and nothing else is in the list.
pub open spec fn posts_from(
    page: Seq<char>,
    nd: Seq<Option<Seq<char>>>,
    posts: Seq<Post>,
    t: int,
    k: int,
) -> bool
    decreases nd.len() - t,
{
    if t < 0 || t >= nd.len() {
        k == posts.len()
    } else if container_yields(page, t, nd[t]) {
        &&& 0 <= k < posts.len()
        &&& container_post(page, t, nd[t], posts[k])
        &&& posts_from(page, nd, posts, t + 1, k + 1)
    } else {
        posts_from(page, nd, posts, t + 1, k)
    }
}

/// `posts` are exactly the recoverable posts of the page's post containers,
/// complete and in document order, where `nd` are the containers' normalised
/// dates — one per container, present exactly when the raw date fragment is.
pub open spec fn posts_extracted(
    page: Seq<char>,
    nd: Seq<Option<Seq<char>>>,
    posts: Seq<Post>,
) -> bool {
    &&& nd.len() == match_count_of(page, article_sel())
    &&& (forall|q: int|
        0 <= q < nd.len() ==> ((#[trigger] nd[q]) is Some <==> date_frag(page, q) is Some))
    &&& posts_from(page, nd, posts, 0, 0)
}

proof fn lemma_posts_from_push(
    page: Seq<char>,
    nd: Seq<Option<Seq<char>>>,
    posts: Seq<Post>,
    d: Option<Seq<char>>,
    p: Option<Post>,
    t: int,
    k: int,
)
    requires
        0 <= t <= nd.len(),
        0 <= k <= posts.len(),
        posts_from(page, nd, posts, t, k),
        match p {
            Some(p0) => container_yields(page, nd.len() as int, d) && container_post(
                page,
                nd.len() as int,
                d,
                p0,
            ),
            None => !container_yields(page, nd.len() as int, d),
        },
    ensures
        posts_from(
            page,
            nd.push(d),
            match p {
                Some(p0) => posts.push(p0),
                None => posts,
            },
            t,
            k,
        ),
    decreases nd.len() - t,
{
    let nd2 = nd.push(d);
    let posts2 = match p {
        Some(p0) => posts.push(p0),
        None => posts,
    };
    if t >= nd.len() {
        assert(nd2[t] == d);
        match p {
            Some(p0) => {
                assert(posts2[k] == p0);
                assert(posts_from(page, nd2, posts2, t + 1, k + 1));
            },
            None => {
                assert(posts_from(page, nd2, posts2, t + 1, k));
            },
        }
    } else {
        assert(nd2[t] == nd[t]);
        if container_yields(page, t, nd[t]) {
            lemma_posts_from_push(page, nd, posts, d, p, t + 1, k + 1);
            assert(posts2[k] == posts[k]);
        } else {
            lemma_posts_from_push(page, nd, posts, d, p, t + 1, k);
        }
    }
}

/// The mobile-HTML backend: scrapes the mobile site's rendered pages.
pub struct Mobile {}

impl Mobile {
    pub fn new() -> (r: Self) {
        Mobile {  }
    }

    /// Decide ownership of an input: the first occurrence of
    /// `"facebook.com/"` yields the identifier that follows it, up to a
    /// `'?'` or the end; an empty identifier does not claim the input.
    pub fn owns(&self, input: &str) -> (r: Option<String>)
        ensures
            match r {
                Some(id) => fb_owns(input@) == Some(id@),
                None => fb_owns(input@) is None,
            },
    {
        let n: usize = input.unicode_len();
        let m: usize = "facebook.com/".unicode_len();
        proof {
            reveal_strlit("facebook.com/");
            assert(m == 13);
        }
        let mut i: usize = 0;
        while n - i >= 13 && i < n
            invariant
                n == input@.len(),
                m == 13,
                m == "facebook.com/"@.len(),
                i <= n,
                fb_owns(input@) == fb_owns_from(input@, i as int),
            decreases n - i,
        {
            if pat_match_at(input, n, i, "facebook.com/", m) {
                let mut e: usize = i + 13;
                while e < n
                    invariant_except_break
                        n == input@.len(),
                        i + 13 <= e <= n,
                        forall|q: int| i + 13 <= q < e ==> input@[q] != '?',
                    ensures
                        i + 13 <= e <= n,
                        forall|q: int| i + 13 <= q < e ==> input@[q] != '?',
                        e == n || input@[e as int] == '?',
                    decreases n - e,
                {
                    if input.get_char(e) == '?' {
                        break ;
                    }
                    e += 1;
                }
                proof {
                    lemma_fb_id_range(input@, i as int + 13, e as int);
                }
                if e == i + 13 {
                    return None;
                }
                let id = String::from_str(input.substring_char(i + 13, e));
                return Some(id);
            }
            i += 1;
        }
        None
    }

    /// Rewrite every relative href in a fragment under the mobile base URL.
    pub fn rewrite_href(&self, contents: &str) -> (r: String)
        ensures
            r@ == rewrite_href_seq(contents@, base_url_seq()),
    {
        rewrite_relative_href(contents, "https://mobile.facebook.com")
    }

    /// Rewrite a permalink-shaped string: every `/` gets the base prefix.
    pub fn rewrite_url(&self, contents: &str) -> (r: String)
        ensures
            r@ == rewrite_bare_path_seq(contents@, base_url_seq()),
    {
        rewrite_bare_path(contents, "https://mobile.facebook.com")
    }

    /// Open-Graph lookup on a page (see `extract::og`): exactly the `og_of`
    /// lookup of the page text, with `Extraction` exactly on an invalid
    /// selector and `NotFound` exactly when the tag or its content is absent.
    pub fn og(page: &str, name: &str) -> (r: Result<String, Error>)
        ensures
            r == Err::<String, Error>(Error::Extraction) <==> !css_ok(og_selector_seq(name@)),
            css_ok(og_selector_seq(name@)) ==> match r {
                Ok(c) => og_of(page@, name@) == Some(c@),
                Err(e) => e == Error::NotFound && og_of(page@, name@) is None,
            },
    {
        og(page, name)
    }

    /// The mobile profile address fetched for an identifier.
    pub fn profile_url(id: &str) -> (r: String)
        ensures
            r@ == "https://mobile.facebook.com/"@ + id@,
    {
        let mut url = String::from_str("https://mobile.facebook.com/");
        url.append(id);
        url
    }

    /// Fetch the mobile page for an identifier, at the address
    /// `profile_url` builds.  A non-success status is `NotFound`, an
    /// unreachable host `Transport`; nothing else can fail.
    pub fn get(&self, proxy: &ProxyConfig, id: &str) -> (r: Result<String, Error>)
        ensures
            r matches Err(e) ==> e == Error::NotFound || e == Error::Transport,
    {
        let url = Self::profile_url(id);
        fetch(Method::Get, url.as_str(), None, proxy)
    }

    /// Normalise a date fragment (see `date::parse_date`): rewrite the
    /// `"<N> hrs"` idiom, then try the natural-language parser; best-effort.
    /// Where the parser is not consulted, the result is exactly the
    /// rewritten fragment.
    pub fn parse_date(text: &str) -> (r: String)
        ensures
            !date_parser_safe(rewrite_hrs_seq(text@)) ==> r@ == rewrite_hrs_seq(text@),
    {
        parse_date(text)
    }

    /// Assemble one post from its four extracted fragments, or skip it.
    /// The post exists exactly when all four fragments are present and an
    /// identifier can be recovered from the rewritten permalink; the name
    /// and message fragments get their relative hrefs rewritten, the
    /// normalised date is kept verbatim, and the identifier is the capture
    /// of the first `"&id="` in the permalink — never empty.
    pub fn extract_post(
        &self,
        name: Option<String>,
        message: Option<String>,
        created_time: Option<String>,
        href: Option<String>,
    ) -> (r: Option<Post>)
        ensures
            match r {
                Some(p) => {
                    &&& name matches Some(nf) && p.name@ == rewrite_href_seq(nf@, base_url_seq())
                    &&& message matches Some(mf) && p.message@ == rewrite_href_seq(
                        mf@,
                        base_url_seq(),
                    )
                    &&& created_time matches Some(ct) && p.created_time@ == ct@
                    &&& href matches Some(h) && p.permalink_url@ == rewrite_bare_path_seq(
                        h@,
                        base_url_seq(),
                    )
                    &&& has_id(p.permalink_url@)
                    &&& id_capture_of(p.permalink_url@, p.id@)
                    &&& p.id@.len() > 0
                },
                None => {
                    ||| name is None
                    ||| message is None
                    ||| created_time is None
                    ||| href is None
                    ||| (href matches Some(h) && !has_id(
                        rewrite_bare_path_seq(h@, base_url_seq()),
                    ))
                },
            },
    {
        let name_frag = match name {
            Some(nf) => nf,
            None => {
                return None;
            },
        };
        let message_frag = match message {
            Some(mf) => mf,
            None => {
                return None;
            },
        };
        let created = match created_time {
            Some(ct) => ct,
            None => {
                return None;
            },
        };
        let href_raw = match href {
            Some(h) => h,
            None => {
                return None;
            },
        };
        let post_name = self.rewrite_href(name_frag.as_str());
        let post_message = self.rewrite_href(message_frag.as_str());
        let permalink = self.rewrite_url(href_raw.as_str());
        let id = match extract_id_from_permalink(permalink.as_str()) {
            Ok(id) => id,
            Err(_) => {
                return None;
            },
        };
        Some(
            Post {
                id,
                name: post_name,
                permalink_url: permalink,
                message: post_message,
                created_time: created,
            },
        )
    }

    /// Assemble the aggregate's top-level fields: the title falls back to
    /// the identifier and the url to the constructed profile address when
    /// Open-Graph metadata is absent; description and image stay optional;
    /// posts start empty.
    pub fn group_header(
        id: &str,
        title: Option<String>,
        description: Option<String>,
        url: Option<String>,
        image: Option<String>,
    ) -> (g: Group)
        ensures
            g.id@ == id@,
            g.name@ == match title {
                Some(t) => t@,
                None => id@,
            },
            g.description == description,
            g.url@ == match url {
                Some(u) => u@,
                None => "https://mobile.facebook.com/"@ + id@,
            },
            g.image == image,
            g.posts@.len() == 0,
    {
        let name = match title {
            Some(t) => t,
            None => String::from_str(id),
        };
        let the_url = match url {
            Some(u) => u,
            None => Self::profile_url(id),
        };
        Group {
            id: String::from_str(id),
            name,
            description,
            url: the_url,
            image,
            posts: Vec::new(),
        }
    }

    /// Compile the four per-container selectors up front, before any
    /// container is walked, so that an invalid one fails the page rather
    /// than a single post.
    fn warm_selectors(&self, cache: &mut SelectorCache) -> (r: Result<(), Error>)
        requires
            old(cache).wf(),
        ensures
            final(cache).wf(),
            r is Ok <==> (css_ok("h3"@) && css_ok("div > div > span"@) && css_ok("abbr"@) && css_ok(
                "div:last-child > div:last-child > a:last-child"@,
            )),
            r matches Err(e) ==> e == Error::Extraction,
    {
        if let Err(e) = cache.get_or_compile("h3") {
            return Err(e);
        }
        if let Err(e) = cache.get_or_compile("div > div > span") {
            return Err(e);
        }
        if let Err(e) = cache.get_or_compile("abbr") {
            return Err(e);
        }
        if let Err(e) = cache.get_or_compile("div:last-child > div:last-child > a:last-child") {
            return Err(e);
        }
        Ok(())
    }

    /// Parse a fetched page and assemble the group aggregate.  The top-level
    /// fields are exactly the page's Open-Graph values with their fallbacks;
    /// the post list holds exactly the recoverable posts of the page's post
    /// containers, complete and in document order, each assembled as in
    /// `extract_post` (the normalised dates depend on the clock, so they are
    /// existential).  A malformed container is skipped, never failing the
    /// page; `Err(Extraction)` exactly when one of the fixed selectors is
    /// not valid CSS.
    pub fn parse_group(&self, cache: &mut SelectorCache, id: &str, contents: &str) -> (r: Result<
        Group,
        Error,
    >)
        requires
            old(cache).wf(),
        ensures
            final(cache).wf(),
            r matches Err(e) ==> e == Error::Extraction,
            r is Err <==> !(css_ok(article_sel()) && css_ok(title_sel()) && css_ok(message_sel())
                && css_ok(date_sel()) && css_ok(link_sel())),
            r matches Ok(g) ==> {
                &&& g.id@ == id@
                &&& g.name@ == og_or(contents@, "title"@, id@)
                &&& g.description.deep_view() == og_opt(contents@, "description"@)
                &&& g.url@ == og_or(contents@, "url"@, "https://mobile.facebook.com/"@ + id@)
                &&& g.image.deep_view() == og_opt(contents@, "image"@)
                &&& (forall|t: int|
                    0 <= t < g.posts@.len() ==> (#[trigger] g.posts@[t].id@.len() > 0 && has_id(
                        g.posts@[t].permalink_url@,
                    ) && id_capture_of(g.posts@[t].permalink_url@, g.posts@[t].id@)))
                &&& exists|nd: Seq<Option<Seq<char>>>| posts_extracted(contents@, nd, g.posts@)
            },
    {
        let title = match Self::og(contents, "title") {
            Ok(v) => Some(v),
            Err(_) => None,
        };
        let description = match Self::og(contents, "description") {
            Ok(v) => Some(v),
            Err(_) => None,
        };
        let url = match Self::og(contents, "url") {
            Ok(v) => Some(v),
            Err(_) => None,
        };
        let image = match Self::og(contents, "image") {
            Ok(v) => Some(v),
            Err(_) => None,
        };
        let mut group = Self::group_header(id, title, description, url, image);
        if let Err(e) = cache.get_or_compile("div[data-ft]") {
            return Err(e);
        }
        if let Err(e) = self.warm_selectors(cache) {
            return Err(e);
        }
        let titles = match doc_inner_htmls(contents, "div[data-ft]", "h3") {
            Some(v) => v,
            None => {
                return Err(Error::Extraction);
            },
        };
        let messages = match doc_inner_htmls(contents, "div[data-ft]", "div > div > span") {
            Some(v) => v,
            None => {
                return Err(Error::Extraction);
            },
        };
        let dates_raw = match doc_inner_htmls(contents, "div[data-ft]", "abbr") {
            Some(v) => v,
            None => {
                return Err(Error::Extraction);
            },
        };
        let links = match doc_inner_attrs(
            contents,
            "div[data-ft]",
            "div:last-child > div:last-child > a:last-child",
            "href",
        ) {
            Some(v) => v,
            None => {
                return Err(Error::Extraction);
            },
        };
        let n: usize = titles.len();
        let ghost mut nd: Seq<Option<Seq<char>>> = Seq::empty();
        let mut t: usize = 0;
        while t < n
            invariant
                n == titles@.len(),
                titles@.len() == match_count_of(contents@, article_sel()),
                titles.deep_view() == inner_fragments_of(contents@, article_sel(), title_sel()),
                messages@.len() == n,
                messages.deep_view() == inner_fragments_of(contents@, article_sel(), message_sel()),
                dates_raw@.len() == n,
                dates_raw.deep_view() == inner_fragments_of(contents@, article_sel(), date_sel()),
                links@.len() == n,
                links.deep_view() == inner_attrs_of(contents@, article_sel(), link_sel(), "href"@),
                t <= n,
                nd.len() == t,
                forall|q: int|
                    0 <= q < t ==> ((#[trigger] nd[q]) is Some <==> date_frag(contents@, q)
                        is Some),
                group.id@ == id@,
                group.name@ == og_or(contents@, "title"@, id@),
                group.description.deep_view() == og_opt(contents@, "description"@),
                group.url@ == og_or(contents@, "url"@, "https://mobile.facebook.com/"@ + id@),
                group.image.deep_view() == og_opt(contents@, "image"@),
                forall|u: int|
                    0 <= u < group.posts@.len() ==> (#[trigger] group.posts@[u].id@.len() > 0
                        && has_id(group.posts@[u].permalink_url@) && id_capture_of(
                        group.posts@[u].permalink_url@,
                        group.posts@[u].id@,
                    )),
                posts_from(contents@, nd, group.posts@, 0, 0),
            decreases n - t,
        {
            let name_frag: Option<String> = match &titles[t] {
                Some(x) => Some(x.clone()),
                None => None,
            };
            let message_frag: Option<String> = match &messages[t] {
                Some(x) => Some(x.clone()),
                None => None,
            };
            let date_norm: Option<String> = match &dates_raw[t] {
                Some(x) => Some(Self::parse_date(x.as_str())),
                None => None,
            };
            let href_raw: Option<String> = match &links[t] {
                Some(a) => match a {
                    Some(v) => Some(v.clone()),
                    None => Some(String::new()),
                },
                None => None,
            };
            let ghost d = date_norm.deep_view();
            proof {
                assert(titles.deep_view()[t as int] == titles@[t as int].deep_view());
                assert(messages.deep_view()[t as int] == messages@[t as int].deep_view());
                assert(dates_raw.deep_view()[t as int] == dates_raw@[t as int].deep_view());
                assert(links.deep_view()[t as int] == links@[t as int].deep_view());
                assert(name_frag.deep_view() == title_frag(contents@, t as int));
                assert(message_frag.deep_view() == crate::facebook::mobile::message_frag(contents@, t as int));
                assert(d is Some <==> date_frag(contents@, t as int) is Some);
                assert(href_raw.deep_view() == href_frag(contents@, t as int));
            }
            let post = self.extract_post(name_frag, message_frag, date_norm, href_raw);
            let ghost old_nd = nd;
            let ghost old_posts = group.posts@;
            proof {
                nd = nd.push(d);
            }
            match post {
                Some(p) => {
                    proof {
                        assert(container_yields(contents@, old_nd.len() as int, d));
                        assert(container_post(contents@, old_nd.len() as int, d, p));
                        lemma_posts_from_push(contents@, old_nd, old_posts, d, Some(p), 0, 0);
                        lemma_id_capture_nonempty(p.permalink_url@, p.id@);
                    }
                    group.posts.push(p);
                },
                None => {
                    proof {
                        assert(!container_yields(contents@, old_nd.len() as int, d));
                        lemma_posts_from_push(contents@, old_nd, old_posts, d, None::<Post>, 0, 0);
                    }
                },
            }
            t += 1;
        }
        proof {
            assert(posts_extracted(contents@, nd, group.posts@));
        }
        Ok(group)
    }

    /// Fetch the mobile page for an identifier and extract its timeline:
    /// some page text explains the aggregate exactly as in `parse_group`.
    pub fn group(&self, cache: &mut SelectorCache, proxy: &ProxyConfig, id: &str) -> (r: Result<
        Group,
        Error,
    >)
        requires
            old(cache).wf(),
        ensures
            final(cache).wf(),
            r matches Err(e) ==> e == Error::NotFound || e == Error::Transport || e
                == Error::Extraction,
            r == Err::<Group, Error>(Error::Extraction) ==> !(css_ok(article_sel()) && css_ok(
                title_sel(),
            ) && css_ok(message_sel()) && css_ok(date_sel()) && css_ok(link_sel())),
            r matches Ok(g) ==> {
                &&& g.id@ == id@
                &&& (forall|t: int|
                    0 <= t < g.posts@.len() ==> (#[trigger] g.posts@[t].id@.len() > 0 && has_id(
                        g.posts@[t].permalink_url@,
                    ) && id_capture_of(g.posts@[t].permalink_url@, g.posts@[t].id@)))
                &&& exists|page: Seq<char>, nd: Seq<Option<Seq<char>>>|
                    {
                        &&& #[trigger] posts_extracted(page, nd, g.posts@)
                        &&& g.name@ == og_or(page, "title"@, id@)
                        &&& g.description.deep_view() == og_opt(page, "description"@)
                        &&& g.url@ == og_or(page, "url"@, "https://mobile.facebook.com/"@ + id@)
                        &&& g.image.deep_view() == og_opt(page, "image"@)
                    }
            },
    {
        let contents = match self.get(proxy, id) {
            Ok(c) => c,
            Err(e) => {
                return Err(e);
            },
        };
        let r = self.parse_group(cache, id, contents.as_str());
        match &r {
            Ok(g) => {
                proof {
                    let ndw = choose|nd: Seq<Option<Seq<char>>>|
                        posts_extracted(contents@, nd, g.posts@);
                    assert(posts_extracted(contents@, ndw, g.posts@));
                }
            },
            Err(_) => {},
        }
        r
    }
}

} // verus!
