//! Records of the collection endpoints, their request addresses, and the
//! paginator that gathers every item of a collection.
use vstd::prelude::*;
use crate::decimal::{int_decimal, push_int};

verus! {

/// Page size the paginator asks for.
pub const PAGE_SIZE: i32 = 36;

/// One saved collection of the user.
#[derive(Debug, Default, Clone, PartialEq, Eq)]
pub struct FavObj {
    pub mlid: i64,
    pub fid: i64,
    pub attr: i32,
    pub title: String,
    pub fav_state: i32,
    pub media_count: i32,
}

/// The user's collections.
#[derive(Debug, Default, Clone, PartialEq, Eq)]
pub struct FavData {
    pub count: i32,
    pub list: Vec<FavObj>,
}

/// Reply to a collection listing.
#[derive(Debug, Default, Clone, PartialEq, Eq)]
pub struct FavResp {
    pub code: i32,
    pub message: String,
    pub ttl: i32,
    pub data: FavData,
}

/// Uploader of an item.
#[derive(Debug, Default, Clone, PartialEq, Eq)]
pub struct MediaUpperObj {
    pub mid: i64,
    pub name: String,
    pub face: String,
}

/// One item of a collection.
#[derive(Debug, Default, Clone, PartialEq, Eq)]
pub struct MediaObj {
    pub id: i64,
    pub mtype: i32,
    pub title: String,
    pub cover: String,
    pub page: i32,
    pub duration: i32,
    pub attr: i32,
    pub bv_id: String,
    pub bvid: String,
    pub upper: MediaUpperObj,
}

/// One page of a collection's items.
#[derive(Debug, Default, Clone, PartialEq, Eq)]
pub struct MediaData {
    pub info: FavObj,
    pub has_more: bool,
    pub medias: Vec<MediaObj>,
}

/// Reply to an item listing.
#[derive(Debug, Default, Clone, PartialEq, Eq)]
pub struct MediaResp {
    pub code: i32,
    pub message: String,
    pub ttl: i32,
    pub data: MediaData,
}

/// `&name=` followed by the decimal text of `v`, or by `default` when `v` is absent.
pub open spec fn int_param(name: Seq<char>, v: Option<i32>, default: Seq<char>) -> Seq<char> {
    "&"@ + name + "="@ + match v {
        Some(x) => int_decimal(x as int),
        None => default,
    }
}

/// `&name=` followed by `v`, or by `default` when `v` is absent.
pub open spec fn text_param(name: Seq<char>, v: Option<String>, default: Seq<char>) -> Seq<char> {
    "&"@ + name + "="@ + match v {
        Some(x) => x@,
        None => default,
    }
}

/// Address listing the collections of user `mid`.
pub open spec fn list_all_url_spec(
    mid: i32,
    mltype: Option<i32>,
    rid: Option<i32>,
    web_location: Option<String>,
) -> Seq<char> {
    "https://api.bilibili.com/x/v3/fav/folder/created/list-all?up_mid="@ + int_decimal(mid as int)
        + match mltype {
        Some(v) => "&type="@ + int_decimal(v as int),
        None => Seq::empty(),
    } + match rid {
        Some(v) => "&rid="@ + int_decimal(v as int),
        None => Seq::empty(),
    } + text_param("web_location"@, web_location, "333.1387"@)
}

/// Address listing one page of the items of collection `media_id`.
pub open spec fn media_list_url_spec(
    media_id: Seq<char>,
    tid: Option<i32>,
    keyword: Option<String>,
    order: Option<String>,
    mtype: Option<i32>,
    pn: Option<i32>,
    ps: Option<i32>,
    platform: Option<String>,
) -> Seq<char> {
    "https://api.bilibili.com/x/v3/fav/resource/list?media_id="@ + media_id + int_param(
        "pn"@,
        pn,
        "1"@,
    ) + int_param("ps"@, ps, "36"@) + int_param("tid"@, tid, "0"@) + text_param(
        "keyword"@,
        keyword,
        Seq::empty(),
    ) + text_param("order"@, order, "mtime"@) + int_param("type"@, mtype, "0"@) + text_param(
        "platform"@,
        platform,
        "web"@,
    ) + "&web_location=333.1387"@
}

fn push_int_param(url: &mut String, name: &str, v: Option<i32>, default: &str)
    ensures
        final(url)@ == old(url)@ + int_param(name@, v, default@),
{
    url.append("&");
    url.append(name);
    url.append("=");
    match v {
        Some(x) => push_int(url, x as i64),
        None => url.append(default),
    }
    assert(final(url)@ =~= old(url)@ + int_param(name@, v, default@));
}

fn push_text_param(url: &mut String, name: &str, v: Option<String>, default: &str)
    ensures
        final(url)@ == old(url)@ + text_param(name@, v, default@),
{
    url.append("&");
    url.append(name);
    url.append("=");
    match v {
        Some(x) => url.append(x.as_str()),
        None => url.append(default),
    }
    assert(final(url)@ =~= old(url)@ + text_param(name@, v, default@));
}

/// Address listing the collections of user `mid`, with the optional type and
/// region filters; the page location defaults to `333.1387`.
pub fn list_all_url(
    mid: i32,
    mltype: Option<i32>,
    rid: Option<i32>,
    web_location: Option<String>,
) -> (r: String)
    ensures
        r@ == list_all_url_spec(mid, mltype, rid, web_location),
{
    let mut url = String::from_str(
        "https://api.bilibili.com/x/v3/fav/folder/created/list-all?up_mid=",
    );
    push_int(&mut url, mid as i64);
    let ghost base = url@;
    if let Some(v) = mltype {
        url.append("&type=");
        push_int(&mut url, v as i64);
    }
    let ghost with_type = url@;
    assert(with_type =~= base + match mltype {
        Some(v) => "&type="@ + int_decimal(v as int),
        None => Seq::empty(),
    });
    if let Some(v) = rid {
        url.append("&rid=");
        push_int(&mut url, v as i64);
    }
    let ghost with_rid = url@;
    assert(with_rid =~= with_type + match rid {
        Some(v) => "&rid="@ + int_decimal(v as int),
        None => Seq::empty(),
    });
    push_text_param(&mut url, "web_location", web_location, "333.1387");
    assert(url@ =~= list_all_url_spec(mid, mltype, rid, web_location));
    url
}

/// Address listing one page of the items of collection `media_id`. Absent
/// parameters take their defaults: page 1 of 36 items, type filter 0, empty
/// keyword, ordering `mtime`, platform `web`.
pub fn media_list_url(
    media_id: &str,
    tid: Option<i32>,
    keyword: Option<String>,
    order: Option<String>,
    mtype: Option<i32>,
    pn: Option<i32>,
    ps: Option<i32>,
    platform: Option<String>,
) -> (r: String)
    ensures
        r@ == media_list_url_spec(media_id@, tid, keyword, order, mtype, pn, ps, platform),
{
    let mut url = String::from_str("https://api.bilibili.com/x/v3/fav/resource/list?media_id=");
    url.append(media_id);
    push_int_param(&mut url, "pn", pn, "1");
    push_int_param(&mut url, "ps", ps, "36");
    push_int_param(&mut url, "tid", tid, "0");
    push_text_param(&mut url, "keyword", keyword, "");
    push_text_param(&mut url, "order", order, "mtime");
    push_int_param(&mut url, "type", mtype, "0");
    push_text_param(&mut url, "platform", platform, "web");
    url.append("&web_location=333.1387");
    proof {
        reveal_strlit("");
    }
    assert(url@ =~= media_list_url_spec(media_id@, tid, keyword, order, mtype, pn, ps, platform));
    url
}

/// A page of a collection could not be had.
#[derive(Debug, Clone, Copy, PartialEq, Eq, Structural)]
pub struct PaginationError {
    /// Number of the page whose request failed.
    pub page: i32,
}

/// Gathers every item of one collection, a page at a time.
///
/// The owner asks [`Paginator::next_request`] for the address of the next page,
/// fetches it, and hands the page to [`Paginator::on_page`], or reports a failed
/// request with [`Paginator::on_error`], until no request is left.
#[derive(Debug, Clone)]
pub struct Paginator {
    pub media_id: String,
    /// Number of the page requested last, or to be requested next.
    pub next_page: i32,
    /// Items of the pages received, in page order.
    pub items: Vec<MediaObj>,
    /// The `has_more` flag of the last page received (`true` before any).
    pub has_more: bool,
    pub error: Option<PaginationError>,
    pub finished: bool,
}

/// What a paginator has gathered when it ends.
pub struct PageRun {
    pub items: Seq<MediaObj>,
    pub has_more: bool,
    pub error: Option<PaginationError>,
    /// Number of the last page requested.
    pub last_page: int,
}

/// What a paginator gathers from a server that answers page `k + 1` with
/// `replies[k]`, starting at page `k + 1` (`None`, or no reply, is a failed
/// request).
pub open spec fn run_from(replies: Seq<Option<MediaData>>, k: nat) -> PageRun
    decreases replies.len() - k,
{
    if k >= replies.len() || replies[k as int] is None {
        PageRun {
            items: Seq::empty(),
            has_more: true,
            error: Some(PaginationError { page: (k + 1) as i32 }),
            last_page: (k + 1) as int,
        }
    } else {
        let d = replies[k as int].unwrap();
        if !d.has_more || k + 1 >= i32::MAX {
            PageRun { items: d.medias@, has_more: d.has_more, error: None, last_page: (k + 1) as int }
        } else {
            let rest = run_from(replies, k + 1);
            PageRun { items: d.medias@ + rest.items, ..rest }
        }
    }
}

impl Paginator {
    pub open spec fn wf(&self) -> bool {
        &&& 1 <= self.next_page
        &&& !self.finished ==> self.has_more && self.error is None
    }

    /// A paginator at the first page of collection `media_id`.
    pub fn new(media_id: String) -> (r: Paginator)
        ensures
            r.wf(),
            r.media_id@ == media_id@,
            r.next_page == 1,
            r.items@.len() == 0,
            r.has_more,
            r.error is None,
            !r.finished,
    {
        Paginator {
            media_id,
            next_page: 1,
            items: Vec::new(),
            has_more: true,
            error: None,
            finished: false,
        }
    }

    /// Address of the next page to fetch, or `None` once the paginator ended.
    /// Pages hold 36 items, most recently changed first.
    pub fn next_request(&self) -> (r: Option<String>)
        ensures
            self.finished ==> r is None,
            !self.finished ==> (r matches Some(u) && u@ == media_list_url_spec(
                self.media_id@,
                None,
                None,
                None,
                None,
                Some(self.next_page),
                Some(PAGE_SIZE),
                None,
            )),
    {
        if self.finished {
            None
        } else {
            Some(
                media_list_url(
                    self.media_id.as_str(),
                    None,
                    None,
                    None,
                    None,
                    Some(self.next_page),
                    Some(PAGE_SIZE),
                    None,
                ),
            )
        }
    }

    /// Takes the page just fetched: its items follow those gathered so far.
    /// The paginator ends when the page says no more follow, or when the next
    /// page number would not fit.
    pub fn on_page(&mut self, page: MediaData)
        requires
            old(self).wf(),
            !old(self).finished,
        ensures
            final(self).wf(),
            final(self).items@ == old(self).items@ + page.medias@,
            final(self).has_more == page.has_more,
            final(self).error is None,
            final(self).finished == (!page.has_more || old(self).next_page == i32::MAX),
            final(self).next_page as int == if final(self).finished {
                old(self).next_page as int
            } else {
                old(self).next_page + 1
            },
            final(self).media_id@ == old(self).media_id@,
    {
        let mut page = page;
        self.items.append(&mut page.medias);
        self.has_more = page.has_more;
        if !page.has_more || self.next_page == i32::MAX {
            self.finished = true;
        } else {
            self.next_page = self.next_page + 1;
        }
    }

    /// The request for the next page failed: the paginator ends, keeping the
    /// items gathered so far and the last `has_more` flag seen.
    pub fn on_error(&mut self)
        requires
            old(self).wf(),
            !old(self).finished,
        ensures
            final(self).wf(),
            final(self).items@ == old(self).items@,
            final(self).has_more == old(self).has_more,
            final(self).error == Some(PaginationError { page: old(self).next_page }),
            final(self).finished,
            final(self).next_page == old(self).next_page,
            final(self).media_id@ == old(self).media_id@,
    {
        self.error = Some(PaginationError { page: self.next_page });
        self.finished = true;
    }
}

/// Runs a paginator for collection `media_id` against a server that answers
/// page `k + 1` with `replies[k]` (`None` is a failed request, and so is a page
/// past the end of `replies`).
pub fn collect_pages(media_id: String, replies: Vec<Option<MediaData>>) -> (r: Paginator)
    ensures
        r.finished,
        r.media_id@ == media_id@,
        r.items@ == run_from(replies@, 0).items,
        r.has_more == run_from(replies@, 0).has_more,
        r.error == run_from(replies@, 0).error,
        r.next_page == run_from(replies@, 0).last_page,
{
    let ghost all = replies@;
    let mut rest = replies;
    let mut p = Paginator::new(media_id);
    while !p.finished
        invariant
            p.wf(),
            p.media_id@ == media_id@,
            !p.finished ==> {
                &&& rest@ == all.subrange((p.next_page - 1) as int, all.len() as int)
                &&& p.next_page - 1 <= all.len()
                &&& p.items@ + run_from(all, (p.next_page - 1) as nat).items == run_from(all, 0).items
                &&& run_from(all, (p.next_page - 1) as nat).has_more == run_from(all, 0).has_more
                &&& run_from(all, (p.next_page - 1) as nat).error == run_from(all, 0).error
                &&& run_from(all, (p.next_page - 1) as nat).last_page == run_from(all, 0).last_page
            },
            p.finished ==> {
                &&& p.items@ == run_from(all, 0).items
                &&& p.has_more == run_from(all, 0).has_more
                &&& p.error == run_from(all, 0).error
                &&& p.next_page == run_from(all, 0).last_page
            },
        decreases i32::MAX - p.next_page + (if p.finished { 0int } else { 1int }),
    {
        let ghost k: nat = (p.next_page - 1) as nat;
        let ghost before = p.items@;
        let reply = if rest.len() > 0 {
            rest.remove(0)
        } else {
            None
        };
        match reply {
            Some(page) => {
                assert(all[k as int] == Some(page));
                let ghost medias = page.medias@;
                p.on_page(page);
                proof {
                    if !p.finished {
                        let tail = run_from(all, k + 1);
                        assert(run_from(all, k).items == medias + tail.items);
                        assert(before + (medias + tail.items) =~= (before + medias) + tail.items);
                        assert(rest@ =~= all.subrange((p.next_page - 1) as int, all.len() as int));
                    } else {
                        assert(run_from(all, k).items == medias);
                    }
                }
            },
            None => {
                assert(k >= all.len() || all[k as int] is None);
                assert(run_from(all, k).items =~= Seq::<MediaObj>::empty());
                assert(before + Seq::<MediaObj>::empty() =~= before);
                p.on_error();
            },
        }
    }
    p
}

/// The items of pages `k + 1` to `n`, concatenated in page order.
pub open spec fn pages_items(replies: Seq<Option<MediaData>>, k: nat, n: nat) -> Seq<MediaObj>
    decreases n - k,
{
    if k >= n {
        Seq::empty()
    } else {
        replies[k as int].unwrap().medias@ + pages_items(replies, k + 1, n)
    }
}

/// Against a server whose pages `1` to `n` all answer, each but the last with
/// `has_more`, the paginator gathers the items of all `n` pages in page order,
/// requests exactly those pages, and ends without error and with `has_more` off.
pub proof fn lemma_all_pages_gathered(replies: Seq<Option<MediaData>>, n: nat)
    requires
        1 <= n <= replies.len(),
        n < i32::MAX,
        forall|i: int| 0 <= i < n ==> #[trigger] replies[i] is Some,
        forall|i: int| 0 <= i < n - 1 ==> #[trigger] replies[i].unwrap().has_more,
        !replies[n - 1].unwrap().has_more,
    ensures
        run_from(replies, 0).items == pages_items(replies, 0, n),
        run_from(replies, 0).error is None,
        !run_from(replies, 0).has_more,
        run_from(replies, 0).last_page == n,
{
    lemma_gathered_from(replies, n, 0);
}

proof fn lemma_gathered_from(replies: Seq<Option<MediaData>>, n: nat, k: nat)
    requires
        1 <= n <= replies.len(),
        n < i32::MAX,
        k < n,
        forall|i: int| 0 <= i < n ==> #[trigger] replies[i] is Some,
        forall|i: int| 0 <= i < n - 1 ==> #[trigger] replies[i].unwrap().has_more,
        !replies[n - 1].unwrap().has_more,
    ensures
        run_from(replies, k).items == pages_items(replies, k, n),
        run_from(replies, k).error is None,
        !run_from(replies, k).has_more,
        run_from(replies, k).last_page == n,
    decreases n - k,
{
    assert(replies[k as int] is Some);
    if k + 1 < n {
        assert(replies[k as int].unwrap().has_more);
        lemma_gathered_from(replies, n, k + 1);
    } else {
        assert(pages_items(replies, k + 1, n) == Seq::<MediaObj>::empty());
        assert(replies[k as int].unwrap().medias@ + Seq::<MediaObj>::empty()
            =~= replies[k as int].unwrap().medias@);
    }
}

/// When the request for page `j + 1` fails after pages `1` to `j` answered with
/// `has_more`, the paginator keeps exactly the items of pages `1` to `j`,
/// reports the failed page, requests no later page, and leaves `has_more` on.
pub proof fn lemma_failure_keeps_earlier_pages(replies: Seq<Option<MediaData>>, j: nat)
    requires
        j < replies.len(),
        j + 1 < i32::MAX,
        replies[j as int] is None,
        forall|i: int| 0 <= i < j ==> #[trigger] replies[i] is Some,
        forall|i: int| 0 <= i < j ==> #[trigger] replies[i].unwrap().has_more,
    ensures
        run_from(replies, 0).items == pages_items(replies, 0, j),
        run_from(replies, 0).error == Some(PaginationError { page: (j + 1) as i32 }),
        run_from(replies, 0).has_more,
        run_from(replies, 0).last_page == j + 1,
{
    lemma_failure_from(replies, j, 0);
}

proof fn lemma_failure_from(replies: Seq<Option<MediaData>>, j: nat, k: nat)
    requires
        j < replies.len(),
        j + 1 < i32::MAX,
        k <= j,
        replies[j as int] is None,
        forall|i: int| 0 <= i < j ==> #[trigger] replies[i] is Some,
        forall|i: int| 0 <= i < j ==> #[trigger] replies[i].unwrap().has_more,
    ensures
        run_from(replies, k).items == pages_items(replies, k, j),
        run_from(replies, k).error == Some(PaginationError { page: (j + 1) as i32 }),
        run_from(replies, k).has_more,
        run_from(replies, k).last_page == j + 1,
    decreases j - k,
{
    if k < j {
        assert(replies[k as int] is Some);
        assert(replies[k as int].unwrap().has_more);
        lemma_failure_from(replies, j, k + 1);
    }
}

/// Running the paginator twice against the same replies gathers the same
/// items, in the same order, with the same ending.
pub proof fn lemma_collect_deterministic(a: Seq<Option<MediaData>>, b: Seq<Option<MediaData>>)
    requires
        a == b,
    ensures
        run_from(a, 0).items == run_from(b, 0).items,
        run_from(a, 0).has_more == run_from(b, 0).has_more,
        run_from(a, 0).error == run_from(b, 0).error,
        run_from(a, 0).last_page == run_from(b, 0).last_page,
{
}

} // verus!
