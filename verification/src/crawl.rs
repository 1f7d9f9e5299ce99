//! Crawling a CKAN portal and downloading its resources: which pages are
//! requested, what a package is stored as, which resources are kept, and the
//! checks a download must pass before it is loaded.
use vstd::prelude::*;
use vstd::string::*;

use crate::errors::OpenEyesError;
use crate::ingest::{id_prefix, id_prefix_on_boundary, json_list_text, make_table_name};
use crate::models::{CkanGroup, CkanOrganization, CkanPackage, CkanResource, CkanTag};
use crate::text::{
    concat2, decimal, escape_sql, json_string_list, sql_escape, str_equal, u64_to_decimal,
};

verus! {

// ---------------------------------------------------------------------------
// Resource formats
// ---------------------------------------------------------------------------

/// Whether every character of a text is ASCII.
pub open spec fn all_ascii(s: Seq<char>) -> bool {
    forall|i: int| 0 <= i < s.len() ==> (#[trigger] s[i] as u32) < 128
}

/// An ASCII character in upper case: `a`..`z` become `A`..`Z`, every other
/// character stays.
pub open spec fn ascii_upper(c: char) -> char {
    if 'a' <= c && c <= 'z' {
        ((c as int) - 32) as char
    } else {
        c
    }
}

/// What `str::to_uppercase` returns for a text that is not all ASCII (the
/// Unicode upper-case mapping, which may change its length).
pub uninterp spec fn non_ascii_uppercase(s: Seq<char>) -> Seq<char>;

/// What `str::to_uppercase` returns: an all-ASCII text with its lower-case
/// letters raised, any other text as `non_ascii_uppercase` names.
pub open spec fn to_uppercase(s: Seq<char>) -> Seq<char> {
    if all_ascii(s) {
        s.map_values(|c: char| ascii_upper(c))
    } else {
        non_ascii_uppercase(s)
    }
}

/// Calls `str::to_uppercase`. Its documentation maps each character to its
/// Unicode upper case; within ASCII that raises `a`..`z` to `A`..`Z` and
/// keeps everything else. For a text that is not all ASCII the result is the
/// one named by `non_ascii_uppercase`.
#[verifier::external_body]
pub(crate) fn uppercase(s: &str) -> (r: String)
    ensures
        r@ == (if all_ascii(s@) {
            s@.map_values(|c: char| ascii_upper(c))
        } else {
            non_ascii_uppercase(s@)
        }),
{
    s.to_uppercase()
}

/// `s.rsplit(sep).next()`: the text after the last `sep` (all of `s` when it
/// holds none).
pub open spec fn last_segment(s: Seq<char>, sep: char) -> Seq<char>
    decreases s.len(),
{
    if s.len() == 0 {
        s
    } else if s.last() == sep {
        Seq::empty()
    } else {
        last_segment(s.drop_last(), sep).push(s.last())
    }
}

/// The format a resource is filed under: the upper-cased text after the last
/// `/` of its declared format (so `text/csv` is `CSV`).
pub open spec fn normalized_format(format: Seq<char>) -> Seq<char> {
    to_uppercase(last_segment(format, '/'))
}

fn after_last_slash<'a>(s: &'a str) -> (r: &'a str)
    ensures
        r@ == last_segment(s@, '/'),
{
    let n = s.unicode_len();
    let mut start: usize = 0;
    let mut i: usize = 0;
    assert(s@.subrange(0, 0) =~= Seq::<char>::empty());
    assert(s@.subrange(0, 0) =~= s@.subrange(0, 0));
    while i < n
        invariant
            n == s@.len(),
            start <= i <= n,
            last_segment(s@.subrange(0, i as int), '/') == s@.subrange(start as int, i as int),
        decreases n - i,
    {
        assert(s@.subrange(0, i as int + 1).drop_last() =~= s@.subrange(0, i as int));
        if s.get_char(i) == '/' {
            start = i + 1;
            assert(s@.subrange(start as int, i as int + 1) =~= Seq::<char>::empty());
        } else {
            assert(s@.subrange(start as int, i as int + 1) =~= s@.subrange(
                start as int,
                i as int,
            ).push(s@[i as int]));
        }
        i = i + 1;
    }
    assert(s@.subrange(0, n as int) =~= s@);
    s.substring_char(start, n)
}

/// The format a resource is filed under.
pub fn normalize_format(format: &str) -> (r: String)
    ensures
        r@ == normalized_format(format@),
{
    uppercase(after_last_slash(format))
}

/// Whether a normalized format is one of the allowed ones (compared in upper
/// case).
pub open spec fn format_allowed(fmt: Seq<char>, allowed: Seq<Seq<char>>) -> bool {
    exists|i: int| 0 <= i < allowed.len() && to_uppercase(allowed[i]) == fmt
}

/// Whether a normalized format is one of the allowed ones.
pub fn is_format_allowed(fmt: &str, allowed: &Vec<String>) -> (b: bool)
    ensures
        b == format_allowed(fmt@, allowed.deep_view()),
{
    let mut i: usize = 0;
    while i < allowed.len()
        invariant
            i <= allowed@.len(),
            forall|k: int| 0 <= k < i ==> to_uppercase(#[trigger] allowed.deep_view()[k]) != fmt@,
        decreases allowed@.len() - i,
    {
        let u = uppercase(allowed[i].as_str());
        if str_equal(u.as_str(), fmt) {
            assert(to_uppercase(allowed.deep_view()[i as int]) == fmt@);
            return true;
        }
        i = i + 1;
    }
    false
}

// ---------------------------------------------------------------------------
// Storing a package
// ---------------------------------------------------------------------------

/// An optional text, or `default` where it is absent.
pub open spec fn text_or(o: Option<String>, default: Seq<char>) -> Seq<char> {
    match o {
        Some(s) => s@,
        None => default,
    }
}

/// The organization a package is filed under: its title, else its name;
/// empty when the package names none.
pub open spec fn organization_text(o: Option<CkanOrganization>) -> Seq<char> {
    match o {
        Some(x) => text_or(x.title, x.name@),
        None => Seq::empty(),
    }
}

/// The names of a package's groups (its categories).
pub open spec fn group_names(g: Option<Vec<CkanGroup>>) -> Seq<Seq<char>> {
    match g {
        Some(v) => v@.map_values(|x: CkanGroup| x.name@),
        None => Seq::empty(),
    }
}

/// The names of a package's tags.
pub open spec fn tag_names(t: Option<Vec<CkanTag>>) -> Seq<Seq<char>> {
    match t {
        Some(v) => v@.map_values(|x: CkanTag| x.name@),
        None => Seq::empty(),
    }
}

/// The statement that inserts or replaces a dataset row.
pub open spec fn dataset_upsert_sql(
    id: Seq<char>,
    title: Seq<char>,
    desc: Seq<char>,
    org: Seq<char>,
    cats: Seq<char>,
    tags: Seq<char>,
    license: Seq<char>,
    url: Seq<char>,
    created: Seq<char>,
    modified: Seq<char>,
) -> Seq<char> {
    "INSERT OR REPLACE INTO oe_datasets (id, title, title_de, description, description_de, organization, categories, tags, license, ckan_url, created_at, modified_at)\n        VALUES ('"@
        + sql_escape(id) + "', '"@ + sql_escape(title) + "', '"@ + sql_escape(title) + "', '"@
        + sql_escape(desc) + "', '"@ + sql_escape(desc) + "', '"@ + sql_escape(org) + "', '"@
        + sql_escape(cats) + "', '"@ + sql_escape(tags) + "', '"@ + sql_escape(license) + "', '"@
        + sql_escape(url) + "',\n                CASE WHEN '"@ + sql_escape(created)
        + "' = '' THEN NULL ELSE '"@ + sql_escape(created) + "' END,\n                CASE WHEN '"@
        + sql_escape(modified) + "' = '' THEN NULL ELSE '"@ + sql_escape(modified) + "' END)"@
}

/// The dataset statement of a package: a missing title reads `Untitled`,
/// other missing texts are empty, and categories and tags are stored as JSON
/// lists of names.
pub open spec fn package_dataset_sql(pkg: CkanPackage) -> Seq<char> {
    dataset_upsert_sql(
        pkg.id@,
        text_or(pkg.title, "Untitled"@),
        text_or(pkg.notes, Seq::empty()),
        organization_text(pkg.organization),
        json_string_list(group_names(pkg.groups)),
        json_string_list(tag_names(pkg.tags)),
        text_or(pkg.license_title, Seq::empty()),
        text_or(pkg.url, Seq::empty()),
        text_or(pkg.metadata_created, Seq::empty()),
        text_or(pkg.metadata_modified, Seq::empty()),
    )
}

/// The statement that inserts or replaces a pending resource row.
pub open spec fn resource_insert_sql(
    id: Seq<char>,
    dataset_id: Seq<char>,
    name: Seq<char>,
    fmt: Seq<char>,
    url: Seq<char>,
) -> Seq<char> {
    "INSERT OR REPLACE INTO oe_resources (id, dataset_id, name, format, url, download_status)\n                VALUES ('"@
        + sql_escape(id) + "', '"@ + sql_escape(dataset_id) + "', '"@ + sql_escape(name) + "', '"@
        + sql_escape(fmt) + "', '"@ + sql_escape(url) + "', 'pending')"@
}

/// The resource statements of a package, in order: one for each resource
/// whose normalized format is allowed.
pub open spec fn package_resource_sqls(
    resources: Seq<CkanResource>,
    dataset_id: Seq<char>,
    allowed: Seq<Seq<char>>,
) -> Seq<Seq<char>>
    decreases resources.len(),
{
    if resources.len() == 0 {
        Seq::empty()
    } else {
        let prev = package_resource_sqls(resources.drop_last(), dataset_id, allowed);
        let r = resources.last();
        let fmt = normalized_format(text_or(r.format, Seq::empty()));
        if format_allowed(fmt, allowed) {
            prev.push(
                resource_insert_sql(r.id@, dataset_id, text_or(r.name, Seq::empty()), fmt, r.url@),
            )
        } else {
            prev
        }
    }
}

/// Whether a resource is kept: its normalized format is one of the allowed.
pub open spec fn resource_kept(r: CkanResource, allowed: Seq<Seq<char>>) -> bool {
    format_allowed(normalized_format(text_or(r.format, Seq::empty())), allowed)
}

/// The pending-row statement of a kept resource of a dataset.
pub open spec fn resource_statement(r: CkanResource, dataset_id: Seq<char>) -> Seq<char> {
    resource_insert_sql(
        r.id@,
        dataset_id,
        text_or(r.name, Seq::empty()),
        normalized_format(text_or(r.format, Seq::empty())),
        r.url@,
    )
}

/// Every resource of an allowed format is stored as pending, and no other:
/// the resource statements are those of the kept resources, one each, in the
/// package's order, so there are as many as there are kept resources.
pub proof fn lemma_package_keeps_allowed_resources(
    resources: Seq<CkanResource>,
    dataset_id: Seq<char>,
    allowed: Seq<Seq<char>>,
)
    ensures
        package_resource_sqls(resources, dataset_id, allowed) == resources.filter(
            |r: CkanResource| resource_kept(r, allowed),
        ).map_values(|r: CkanResource| resource_statement(r, dataset_id)),
        package_resource_sqls(resources, dataset_id, allowed).len() == resources.filter(
            |r: CkanResource| resource_kept(r, allowed),
        ).len(),
    decreases resources.len(),
{
    reveal(Seq::filter);
    let kept = |r: CkanResource| resource_kept(r, allowed);
    let stmt = |r: CkanResource| resource_statement(r, dataset_id);
    if resources.len() == 0 {
        assert(resources.filter(kept) =~= Seq::<CkanResource>::empty());
        assert(resources.filter(kept).map_values(stmt) =~= Seq::<Seq<char>>::empty());
    } else {
        let p = resources.drop_last();
        lemma_package_keeps_allowed_resources(p, dataset_id, allowed);
        let x = resources.last();
        let fp = p.filter(kept);
        if kept(x) {
            assert(resources.filter(kept) == fp.push(x));
            assert(fp.push(x).map_values(stmt) =~= fp.map_values(stmt).push(stmt(x)));
        } else {
            assert(resources.filter(kept) == fp);
        }
    }
}

/// The statements that store a package: the dataset row first, then the
/// kept resources.
pub struct PackageStatements {
    pub dataset_sql: String,
    pub resource_sqls: Vec<String>,
}

fn text_or_default(o: &Option<String>, default: &str) -> (r: String)
    ensures
        r@ == text_or(*o, default@),
{
    match o {
        Some(s) => s.clone(),
        None => default.to_owned(),
    }
}

fn append_escaped(r: &mut String, lit: &str, value: &str)
    ensures
        final(r)@ == old(r)@ + lit@ + sql_escape(value@),
{
    r.append(lit);
    r.append(escape_sql(value).as_str());
}

fn names_of_groups(g: &Option<Vec<CkanGroup>>) -> (r: Vec<String>)
    ensures
        r.deep_view() == group_names(*g),
{
    let mut r: Vec<String> = Vec::new();
    match g {
        Some(v) => {
            let mut i: usize = 0;
            while i < v.len()
                invariant
                    i <= v@.len(),
                    r.deep_view() =~= v@.subrange(0, i as int).map_values(|x: CkanGroup| x.name@),
                decreases v@.len() - i,
            {
                let ghost before = r.deep_view();
                let x = v[i].name.clone();
                r.push(x);
                assert(r.deep_view() =~= before.push(x@));
                assert(v@.subrange(0, i as int + 1).map_values(|x: CkanGroup| x.name@) =~= v@.subrange(
                    0,
                    i as int,
                ).map_values(|x: CkanGroup| x.name@).push(v@[i as int].name@));
                i = i + 1;
            }
            assert(v@.subrange(0, v@.len() as int) =~= v@);
        },
        None => {},
    }
    r
}

fn names_of_tags(t: &Option<Vec<CkanTag>>) -> (r: Vec<String>)
    ensures
        r.deep_view() == tag_names(*t),
{
    let mut r: Vec<String> = Vec::new();
    match t {
        Some(v) => {
            let mut i: usize = 0;
            while i < v.len()
                invariant
                    i <= v@.len(),
                    r.deep_view() =~= v@.subrange(0, i as int).map_values(|x: CkanTag| x.name@),
                decreases v@.len() - i,
            {
                let ghost before = r.deep_view();
                let x = v[i].name.clone();
                r.push(x);
                assert(r.deep_view() =~= before.push(x@));
                assert(v@.subrange(0, i as int + 1).map_values(|x: CkanTag| x.name@) =~= v@.subrange(
                    0,
                    i as int,
                ).map_values(|x: CkanTag| x.name@).push(v@[i as int].name@));
                i = i + 1;
            }
            assert(v@.subrange(0, v@.len() as int) =~= v@);
        },
        None => {},
    }
    r
}

/// The dataset statement of a package.
pub fn dataset_statement(pkg: &CkanPackage) -> (r: String)
    ensures
        r@ == package_dataset_sql(*pkg),
{
    let title = text_or_default(&pkg.title, "Untitled");
    let desc = text_or_default(&pkg.notes, "");
    let org = match &pkg.organization {
        Some(o) => text_or_default(&o.title, o.name.as_str()),
        None => String::new(),
    };
    let cats = json_list_text(&names_of_groups(&pkg.groups));
    let tags = json_list_text(&names_of_tags(&pkg.tags));
    let license = text_or_default(&pkg.license_title, "");
    let url = text_or_default(&pkg.url, "");
    let created = text_or_default(&pkg.metadata_created, "");
    let modified = text_or_default(&pkg.metadata_modified, "");
    proof {
        reveal_strlit("");
    }
    let mut r = String::new();
    append_escaped(
        &mut r,
        "INSERT OR REPLACE INTO oe_datasets (id, title, title_de, description, description_de, organization, categories, tags, license, ckan_url, created_at, modified_at)\n        VALUES ('",
        pkg.id.as_str(),
    );
    append_escaped(&mut r, "', '", title.as_str());
    append_escaped(&mut r, "', '", title.as_str());
    append_escaped(&mut r, "', '", desc.as_str());
    append_escaped(&mut r, "', '", desc.as_str());
    append_escaped(&mut r, "', '", org.as_str());
    append_escaped(&mut r, "', '", cats.as_str());
    append_escaped(&mut r, "', '", tags.as_str());
    append_escaped(&mut r, "', '", license.as_str());
    append_escaped(&mut r, "', '", url.as_str());
    append_escaped(&mut r, "',\n                CASE WHEN '", created.as_str());
    append_escaped(&mut r, "' = '' THEN NULL ELSE '", created.as_str());
    append_escaped(&mut r, "' END,\n                CASE WHEN '", modified.as_str());
    append_escaped(&mut r, "' = '' THEN NULL ELSE '", modified.as_str());
    r.append("' END)");
    assert(r@ =~= package_dataset_sql(*pkg));
    r
}

/// The statements that store a package: its dataset row, then one pending
/// row for each resource whose format is allowed.
pub fn package_statements(pkg: &CkanPackage, allowed_formats: &Vec<String>) -> (r: PackageStatements)
    ensures
        r.dataset_sql@ == package_dataset_sql(*pkg),
        r.resource_sqls.deep_view() == match pkg.resources {
            Some(v) => package_resource_sqls(v@, pkg.id@, allowed_formats.deep_view()),
            None => Seq::empty(),
        },
{
    let dataset_sql = dataset_statement(pkg);
    let mut resource_sqls: Vec<String> = Vec::new();
    match &pkg.resources {
        Some(v) => {
            let mut i: usize = 0;
            assert(v@.subrange(0, 0) =~= Seq::<CkanResource>::empty());
            while i < v.len()
                invariant
                    i <= v@.len(),
                    resource_sqls.deep_view() == package_resource_sqls(
                        v@.subrange(0, i as int),
                        pkg.id@,
                        allowed_formats.deep_view(),
                    ),
                decreases v@.len() - i,
            {
                let res = &v[i];
                assert(v@.subrange(0, i as int + 1).drop_last() =~= v@.subrange(0, i as int));
                assert(v@.subrange(0, i as int + 1).last() == *res);
                proof {
                    reveal_strlit("");
                }
                let raw_fmt = text_or_default(&res.format, "");
                assert(raw_fmt@ == text_or(res.format, Seq::empty()));
                let fmt = normalize_format(raw_fmt.as_str());
                if is_format_allowed(fmt.as_str(), allowed_formats) {
                    let name = text_or_default(&res.name, "");
                    assert(name@ == text_or(res.name, Seq::empty()));
                    let mut s = String::new();
                    append_escaped(
                        &mut s,
                        "INSERT OR REPLACE INTO oe_resources (id, dataset_id, name, format, url, download_status)\n                VALUES ('",
                        res.id.as_str(),
                    );
                    append_escaped(&mut s, "', '", pkg.id.as_str());
                    append_escaped(&mut s, "', '", name.as_str());
                    append_escaped(&mut s, "', '", fmt.as_str());
                    append_escaped(&mut s, "', '", res.url.as_str());
                    s.append("', 'pending')");
                    assert(s@ =~= resource_insert_sql(
                        res.id@,
                        pkg.id@,
                        text_or(res.name, Seq::empty()),
                        fmt@,
                        res.url@,
                    ));
                    let ghost before = resource_sqls.deep_view();
                    resource_sqls.push(s);
                    assert(resource_sqls.deep_view() =~= before.push(s@));
                }
                i = i + 1;
            }
            assert(v@.subrange(0, v@.len() as int) =~= v@);
        },
        None => {
            assert(resource_sqls.deep_view() =~= Seq::<Seq<char>>::empty());
        },
    }
    PackageStatements { dataset_sql, resource_sqls }
}

// ---------------------------------------------------------------------------
// Paging through the catalogue
// ---------------------------------------------------------------------------

/// Number of packages asked for per page.
pub const CRAWL_PAGE_SIZE: u64 = 100;

/// Progress of a crawl: the offset of the next page, the most packages to
/// crawl, how many were stored, and whether the crawl has stopped.
#[derive(Debug, Clone, Copy, PartialEq, Eq, Structural)]
pub struct CrawlState {
    pub offset: u64,
    pub limit: u64,
    pub total_inserted: u64,
    pub finished: bool,
}

/// What the portal answered to one page request.
#[derive(Debug, Clone, Copy, PartialEq, Eq, Structural)]
pub enum PageReply {
    /// The portal answered with an unsuccessful HTTP status.
    Refused,
    /// The portal's answer: its `success` flag, how many packages the page
    /// held, and how many of them were stored.
    Received { success: bool, results: u64, stored: u64 },
}

/// The next page to request, as (rows, start): none once the crawl has
/// stopped or reached its limit; otherwise a full page, or what is left up
/// to the limit.
pub open spec fn page_request(s: CrawlState) -> Option<(u64, u64)> {
    if s.finished || s.offset >= s.limit {
        None
    } else if CRAWL_PAGE_SIZE < s.limit - s.offset {
        Some((CRAWL_PAGE_SIZE, s.offset))
    } else {
        Some(((s.limit - s.offset) as u64, s.offset))
    }
}

/// Whether a reply can be recorded: no more packages stored than received,
/// and the offset stays a `u64`.
pub open spec fn reply_fits(s: CrawlState, reply: PageReply) -> bool {
    reply matches PageReply::Received { success, results, stored } ==> stored <= results
        && s.offset + results <= u64::MAX
}

/// The crawl after the portal's answer to the last page: it stops on a
/// refusal, an unsuccessful or empty page, or a page shorter than a full
/// one; otherwise the offset moves past the page and its stored packages are
/// counted.
pub open spec fn page_recorded(s: CrawlState, reply: PageReply) -> CrawlState {
    match reply {
        PageReply::Refused => CrawlState { finished: true, ..s },
        PageReply::Received { success, results, stored } => if !success || results == 0 {
            CrawlState { finished: true, ..s }
        } else {
            CrawlState {
                offset: (s.offset + results) as u64,
                limit: s.limit,
                total_inserted: (s.total_inserted + stored) as u64,
                finished: s.finished || results < CRAWL_PAGE_SIZE,
            }
        },
    }
}

impl CrawlState {
    /// Well-formedness: no more packages were stored than were received.
    pub open spec fn wf(&self) -> bool {
        self.total_inserted <= self.offset
    }

    /// A crawl of at most `max_datasets` packages, capped by the configured
    /// `config_max`.
    pub fn start(max_datasets: u64, config_max: u64) -> (r: CrawlState)
        ensures
            r.wf(),
            r.offset == 0,
            r.total_inserted == 0,
            !r.finished,
            r.limit == if max_datasets < config_max {
                max_datasets
            } else {
                config_max
            },
    {
        let limit = if max_datasets < config_max {
            max_datasets
        } else {
            config_max
        };
        CrawlState { offset: 0, limit, total_inserted: 0, finished: false }
    }

    /// The next page to request, as (rows, start).
    pub fn next_page(&self) -> (r: Option<(u64, u64)>)
        ensures
            r == page_request(*self),
    {
        if self.finished || self.offset >= self.limit {
            None
        } else {
            let left = self.limit - self.offset;
            let rows = if CRAWL_PAGE_SIZE < left {
                CRAWL_PAGE_SIZE
            } else {
                left
            };
            Some((rows, self.offset))
        }
    }

    /// Takes in the portal's answer to the last page.
    pub fn record_page(&mut self, reply: PageReply)
        requires
            old(self).wf(),
            reply_fits(*old(self), reply),
        ensures
            *final(self) == page_recorded(*old(self), reply),
    {
        match reply {
            PageReply::Refused => {
                self.finished = true;
            },
            PageReply::Received { success, results, stored } => {
                if !success || results == 0 {
                    self.finished = true;
                } else {
                    self.total_inserted = self.total_inserted + stored;
                    self.offset = self.offset + results;
                    if results < CRAWL_PAGE_SIZE {
                        self.finished = true;
                    }
                }
            },
        }
    }
}

/// A requested page starts where the crawl stands, asks for between one and
/// a full page of packages, and never reaches past the limit.
pub proof fn lemma_page_request_in_limit(s: CrawlState)
    ensures
        match page_request(s) {
            None => s.finished || s.offset >= s.limit,
            Some((rows, start)) => {
                &&& !s.finished
                &&& start == s.offset
                &&& 1 <= rows <= CRAWL_PAGE_SIZE
                &&& start + rows <= s.limit
            },
        },
{
}

/// A crawl asks for every package at most once: each page starts where the
/// previous one ended, a crawl that goes on has moved forward, and no more
/// packages are stored than were received.
pub proof fn lemma_crawl_progress(s: CrawlState, reply: PageReply)
    requires
        s.wf(),
        reply_fits(s, reply),
    ensures
        page_recorded(s, reply).wf(),
        page_recorded(s, reply).limit == s.limit,
        !page_recorded(s, reply).finished ==> page_recorded(s, reply).offset > s.offset,
        match reply {
            PageReply::Received { success, results, stored } => success && results > 0
                ==> page_recorded(s, reply).offset == s.offset + results,
            PageReply::Refused => page_recorded(s, reply).offset == s.offset,
        },
{
}

/// A crawl stores no more packages than it was limited to, as long as the
/// portal answers each page with no more packages than it asked for.
pub proof fn lemma_crawl_within_limit(s: CrawlState, reply: PageReply)
    requires
        s.wf(),
        s.offset <= s.limit,
        page_request(s) is Some,
        reply_fits(s, reply),
        match page_request(s) {
            Some((rows, _)) => reply matches PageReply::Received { success, results, stored }
                ==> results <= rows,
            None => true,
        },
    ensures
        page_recorded(s, reply).offset <= page_recorded(s, reply).limit,
        page_recorded(s, reply).total_inserted <= page_recorded(s, reply).limit,
{
}

/// The address of one page of the portal's package search.
pub fn page_url(base_url: &str, rows: u64, start: u64) -> (r: String)
    ensures
        r@ == base_url@ + "/package_search?rows="@ + decimal(rows as nat) + "&start="@ + decimal(
            start as nat,
        ),
{
    let mut r = concat2(base_url, "/package_search?rows=");
    r.append(u64_to_decimal(rows).as_str());
    r.append("&start=");
    r.append(u64_to_decimal(start).as_str());
    r
}

// ---------------------------------------------------------------------------
// Downloading resources
// ---------------------------------------------------------------------------

/// The query for the resources still to be loaded.
pub const PENDING_RESOURCES_SQL: &'static str =
    "SELECT id, dataset_id, format, url FROM oe_resources WHERE download_status = 'pending'";

/// A resource row waiting to be loaded (missing texts read as empty).
pub struct PendingResource {
    pub id: String,
    pub dataset_id: String,
    pub format: String,
    pub url: String,
}

/// The table a pending resource is loaded into; `None` for a row without an
/// id or a URL, which is passed over.
pub fn load_target(r: &PendingResource) -> (t: Option<String>)
    requires
        r.id@.len() > 0 && r.url@.len() > 0 ==> id_prefix_on_boundary(r.dataset_id@)
            && id_prefix_on_boundary(r.id@),
    ensures
        match t {
            None => r.id@.len() == 0 || r.url@.len() == 0,
            Some(name) => r.id@.len() > 0 && r.url@.len() > 0 && name@ == "data_"@ + id_prefix(
                r.dataset_id@,
            ) + "_"@ + id_prefix(r.id@),
        },
{
    if r.id.as_str().is_empty() || r.url.as_str().is_empty() {
        None
    } else {
        Some(make_table_name(r.dataset_id.as_str(), r.id.as_str()))
    }
}

/// Bytes in a mebibyte.
pub const MIB: u64 = 1048576;

/// A declared length passes when it is at most the size limit; otherwise
/// the resource is refused, naming its size in whole MiB and the limit.
pub fn check_declared_size(len: Option<u64>, max_size_mb: u64) -> (r: Result<(), OpenEyesError>)
    requires
        max_size_mb * MIB <= u64::MAX,
    ensures
        match len {
            Some(n) => if n > max_size_mb * MIB {
                r matches Err(OpenEyesError::Ingestion(m)) && m@ == "Resource too large: "@
                    + decimal((n / MIB) as nat) + " MB (max "@ + decimal(max_size_mb as nat)
                    + " MB)"@
            } else {
                r is Ok
            },
            None => r is Ok,
        },
{
    match len {
        Some(n) => {
            if n > max_size_mb * MIB {
                let mut m = concat2("Resource too large: ", u64_to_decimal(n / MIB).as_str());
                m.append(" MB (max ");
                m.append(u64_to_decimal(max_size_mb).as_str());
                m.append(" MB)");
                Err(OpenEyesError::Ingestion(m))
            } else {
                Ok(())
            }
        },
        None => Ok(()),
    }
}

/// A download passes when its HTTP status was a success; otherwise it fails
/// naming the status.
pub fn check_download_status(success: bool, status: &str) -> (r: Result<(), OpenEyesError>)
    ensures
        success ==> r is Ok,
        !success ==> (r matches Err(OpenEyesError::Ingestion(m)) && m@ == "Download failed: HTTP "@
            + status@),
{
    if success {
        Ok(())
    } else {
        Err(OpenEyesError::Ingestion(concat2("Download failed: HTTP ", status)))
    }
}

/// A downloaded body passes when it is at most the size limit.
pub fn check_body_size(len: u64, max_size_mb: u64) -> (r: Result<(), OpenEyesError>)
    requires
        max_size_mb * MIB <= u64::MAX,
    ensures
        len <= max_size_mb * MIB ==> r is Ok,
        len > max_size_mb * MIB ==> (r matches Err(OpenEyesError::Ingestion(m)) && m@
            == "Resource too large"@),
{
    if len > max_size_mb * MIB {
        Err(OpenEyesError::Ingestion("Resource too large".to_owned()))
    } else {
        Ok(())
    }
}

/// How a downloaded resource is read.
#[derive(Debug, Clone, Copy, PartialEq, Eq, Structural)]
pub enum LoadFormat {
    Csv,
    Json,
}

/// How a resource of the declared format is read: CSV or JSON by its
/// normalized format; any other format is refused, naming the declared one.
pub fn load_format(format: &str) -> (r: Result<LoadFormat, OpenEyesError>)
    ensures
        normalized_format(format@) == "CSV"@ ==> r == Ok::<LoadFormat, OpenEyesError>(LoadFormat::Csv),
        normalized_format(format@) != "CSV"@ && normalized_format(format@) == "JSON"@ ==> r == Ok::<
            LoadFormat,
            OpenEyesError,
        >(LoadFormat::Json),
        normalized_format(format@) != "CSV"@ && normalized_format(format@) != "JSON"@ ==> (r matches Err(
            OpenEyesError::Ingestion(m),
        ) && m@ == "Unsupported format: "@ + format@),
{
    let f = normalize_format(format);
    if str_equal(f.as_str(), "CSV") {
        Ok(LoadFormat::Csv)
    } else if str_equal(f.as_str(), "JSON") {
        Ok(LoadFormat::Json)
    } else {
        Err(OpenEyesError::Ingestion(concat2("Unsupported format: ", format)))
    }
}

} // verus!
