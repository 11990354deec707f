//! Request and response types of the market-metadata endpoints, and the
//! verified path and query-string assembly their transport stamps onto the
//! wire. The HTTP transport itself lives outside the library.

use vstd::prelude::*;
use vstd::string::{StringExecFns, StringSliceAdditionalSpecFns};

use crate::encode::{ascii_seq, dec_digits, u64_dec_string};

verus! {

/// Filters for listing teams.
#[derive(Debug, Clone)]
pub struct ListTeamsRequest {
    pub limit: Option<u32>,
    pub offset: Option<u32>,
    /// Comma-separated list of fields to order by.
    pub order: Option<String>,
    pub ascending: Option<bool>,
    pub league: Option<Vec<String>>,
    pub name: Option<Vec<String>>,
    pub abbreviation: Option<Vec<String>>,
}

impl Default for ListTeamsRequest {
    fn default() -> (r: Self)
        ensures
            r.limit is None,
            r.offset is None,
            r.order is None,
            r.ascending is None,
            r.league is None,
            r.name is None,
            r.abbreviation is None,
    {
        ListTeamsRequest {
            limit: None,
            offset: None,
            order: None,
            ascending: None,
            league: None,
            name: None,
            abbreviation: None,
        }
    }
}

/// One sport's metadata.
#[derive(Debug, Clone, PartialEq, Eq)]
pub struct Sport {
    pub sport: String,
    pub image: String,
    pub resolution: String,
    pub ordering: String,
    pub tags: String,
    pub series: String,
}

/// The market types the sports endpoints know.
#[derive(Debug, Clone, PartialEq, Eq)]
pub struct SportsMarketTypesResponse {
    pub market_types: Vec<String>,
}

/// Filters for listing tags.
#[derive(Debug, Clone)]
pub struct TagsRequest {
    pub limit: Option<u64>,
    pub offset: Option<u64>,
    /// Comma-separated list of fields to order by.
    pub order: Option<String>,
    pub ascending: Option<bool>,
    pub include_template: Option<bool>,
    pub is_carousel: Option<bool>,
}

impl Default for TagsRequest {
    fn default() -> (r: Self)
        ensures
            r.limit is None,
            r.offset is None,
            r.order is None,
            r.ascending is None,
            r.include_template is None,
            r.is_carousel is None,
    {
        TagsRequest {
            limit: None,
            offset: None,
            order: None,
            ascending: None,
            include_template: None,
            is_carousel: None,
        }
    }
}

/// One tag-to-tag relationship record.
#[derive(Debug, Clone, PartialEq, Eq)]
pub struct TagRelationship {
    pub id: String,
    pub tag_id: Option<i64>,
    pub related_tag_id: Option<u64>,
    pub rank: Option<u64>,
}

/// Which related tags to include.
#[derive(Debug, Clone, Copy, PartialEq, Eq, Structural)]
pub enum RelatedTagsStatus {
    Active,
    Closed,
    All,
}

/// Related-tags lookup by numeric tag id.
#[derive(Debug, Clone)]
pub struct RelatedTagsByIdRequest {
    pub id: u64,
    pub omit_empty: Option<bool>,
    pub status: Option<RelatedTagsStatus>,
}

impl RelatedTagsByIdRequest {
    pub fn new(id: u64) -> (r: Self)
        ensures
            r.id == id,
            r.omit_empty is None,
            r.status is None,
    {
        RelatedTagsByIdRequest { id, omit_empty: None, status: None }
    }
}

/// Related-tags lookup by tag slug.
#[derive(Debug, Clone)]
pub struct RelatedTagsBySlugRequest {
    pub slug: String,
    pub omit_empty: Option<bool>,
    pub status: Option<RelatedTagsStatus>,
}

impl RelatedTagsBySlugRequest {
    pub fn new(slug: String) -> (r: Self)
        ensures
            r.slug == slug,
            r.omit_empty is None,
            r.status is None,
    {
        RelatedTagsBySlugRequest { slug, omit_empty: None, status: None }
    }
}

/// The wire spelling of a status filter.
pub open spec fn status_str(s: RelatedTagsStatus) -> Seq<char> {
    match s {
        RelatedTagsStatus::Active => "active"@,
        RelatedTagsStatus::Closed => "closed"@,
        RelatedTagsStatus::All => "all"@,
    }
}

/// The wire spelling of a boolean query value.
pub open spec fn bool_str(b: bool) -> Seq<char> {
    if b {
        "true"@
    } else {
        "false"@
    }
}

/// The query pairs a numeric option contributes.
pub open spec fn u64_pairs(name: Seq<char>, v: Option<u64>) -> Seq<(Seq<char>, Seq<char>)> {
    match v {
        Some(x) => seq![(name, ascii_seq(dec_digits(x as nat)))],
        None => Seq::empty(),
    }
}

/// The query pairs a boolean option contributes.
pub open spec fn bool_pairs(name: Seq<char>, v: Option<bool>) -> Seq<(Seq<char>, Seq<char>)> {
    match v {
        Some(b) => seq![(name, bool_str(b))],
        None => Seq::empty(),
    }
}

/// The query pairs a string option contributes.
pub open spec fn str_pairs(name: Seq<char>, v: Option<String>) -> Seq<(Seq<char>, Seq<char>)> {
    match v {
        Some(s) => seq![(name, s@)],
        None => Seq::empty(),
    }
}

/// The query pairs a list option contributes: one pair per element.
pub open spec fn list_pairs(name: Seq<char>, v: Option<Vec<String>>) -> Seq<
    (Seq<char>, Seq<char>),
> {
    match v {
        Some(xs) => Seq::new(xs@.len(), |i: int| (name, xs@[i]@)),
        None => Seq::empty(),
    }
}

/// The query pairs a status option contributes.
pub open spec fn status_pairs(name: Seq<char>, v: Option<RelatedTagsStatus>) -> Seq<
    (Seq<char>, Seq<char>),
> {
    match v {
        Some(s) => seq![(name, status_str(s))],
        None => Seq::empty(),
    }
}

/// The full query of a teams listing, fields in declared order.
pub open spec fn list_teams_query(r: ListTeamsRequest) -> Seq<(Seq<char>, Seq<char>)> {
    u64_pairs("limit"@, opt_u32_as_u64(r.limit)) + u64_pairs("offset"@, opt_u32_as_u64(r.offset))
        + str_pairs("order"@, r.order) + bool_pairs("ascending"@, r.ascending) + list_pairs(
        "league"@,
        r.league,
    ) + list_pairs("name"@, r.name) + list_pairs("abbreviation"@, r.abbreviation)
}

pub open spec fn opt_u32_as_u64(v: Option<u32>) -> Option<u64> {
    match v {
        Some(x) => Some(x as u64),
        None => None,
    }
}

/// The full query of a tags listing, fields in declared order.
pub open spec fn tags_query(r: TagsRequest) -> Seq<(Seq<char>, Seq<char>)> {
    u64_pairs("limit"@, r.limit) + u64_pairs("offset"@, r.offset) + str_pairs("order"@, r.order)
        + bool_pairs("ascending"@, r.ascending) + bool_pairs(
        "include_template"@,
        r.include_template,
    ) + bool_pairs("is_carousel"@, r.is_carousel)
}

/// The query of a related-tags lookup: the id or slug rides in the path,
/// only the filters become parameters.
pub open spec fn related_tags_query(
    omit_empty: Option<bool>,
    status: Option<RelatedTagsStatus>,
) -> Seq<(Seq<char>, Seq<char>)> {
    bool_pairs("omit_empty"@, omit_empty) + status_pairs("status"@, status)
}

fn push_pair(out: &mut Vec<(String, String)>, name: &str, value: String)
    ensures
        final(out).deep_view() == old(out).deep_view().push((name@, value@)),
{
    let ghost pre = out.deep_view();
    out.push((String::from_str(name), value));
    proof {
        assert(out.deep_view() =~= pre.push((name@, value@)));
    }
}

fn push_u64_pair(out: &mut Vec<(String, String)>, name: &str, v: &Option<u64>)
    ensures
        final(out).deep_view() == old(out).deep_view() + u64_pairs(name@, *v),
{
    let ghost pre = out.deep_view();
    match v {
        Some(x) => {
            push_pair(out, name, u64_dec_string(*x));
            proof {
                assert(out.deep_view() =~= pre + u64_pairs(name@, *v));
            }
        },
        None => {
            proof {
                assert(out.deep_view() =~= pre + u64_pairs(name@, *v));
            }
        },
    }
}

fn push_u32_pair(out: &mut Vec<(String, String)>, name: &str, v: &Option<u32>)
    ensures
        final(out).deep_view() == old(out).deep_view() + u64_pairs(name@, opt_u32_as_u64(*v)),
{
    let ghost pre = out.deep_view();
    match v {
        Some(x) => {
            push_pair(out, name, u64_dec_string(*x as u64));
            proof {
                assert(out.deep_view() =~= pre + u64_pairs(name@, opt_u32_as_u64(*v)));
            }
        },
        None => {
            proof {
                assert(out.deep_view() =~= pre + u64_pairs(name@, opt_u32_as_u64(*v)));
            }
        },
    }
}

fn push_bool_pair(out: &mut Vec<(String, String)>, name: &str, v: &Option<bool>)
    ensures
        final(out).deep_view() == old(out).deep_view() + bool_pairs(name@, *v),
{
    let ghost pre = out.deep_view();
    match v {
        Some(b) => {
            let s = if *b {
                String::from_str("true")
            } else {
                String::from_str("false")
            };
            push_pair(out, name, s);
            proof {
                assert(out.deep_view() =~= pre + bool_pairs(name@, *v));
            }
        },
        None => {
            proof {
                assert(out.deep_view() =~= pre + bool_pairs(name@, *v));
            }
        },
    }
}

fn push_str_pair(out: &mut Vec<(String, String)>, name: &str, v: &Option<String>)
    ensures
        final(out).deep_view() == old(out).deep_view() + str_pairs(name@, *v),
{
    let ghost pre = out.deep_view();
    match v {
        Some(s) => {
            push_pair(out, name, s.clone());
            proof {
                assert(out.deep_view() =~= pre + str_pairs(name@, *v));
            }
        },
        None => {
            proof {
                assert(out.deep_view() =~= pre + str_pairs(name@, *v));
            }
        },
    }
}

fn push_list_pairs(out: &mut Vec<(String, String)>, name: &str, v: &Option<Vec<String>>)
    ensures
        final(out).deep_view() == old(out).deep_view() + list_pairs(name@, *v),
{
    let ghost pre = out.deep_view();
    match v {
        Some(xs) => {
            let len = xs.len();
            let mut i: usize = 0;
            while i < len
                invariant
                    len == xs@.len(),
                    i <= len,
                    out.deep_view() == pre + list_pairs(name@, Some(*xs)).take(i as int),
                decreases len - i,
            {
                let ghost mid = out.deep_view();
                push_pair(out, name, xs[i].clone());
                proof {
                    assert(mid.push((name@, xs@[i as int]@)) =~= pre + list_pairs(
                        name@,
                        Some(*xs),
                    ).take(i + 1));
                }
                i += 1;
            }
            proof {
                assert(pre + list_pairs(name@, Some(*xs)).take(len as int) =~= pre + list_pairs(
                    name@,
                    *v,
                ));
            }
        },
        None => {
            proof {
                assert(out.deep_view() =~= pre + list_pairs(name@, *v));
            }
        },
    }
}

fn push_status_pair(out: &mut Vec<(String, String)>, name: &str, v: &Option<RelatedTagsStatus>)
    ensures
        final(out).deep_view() == old(out).deep_view() + status_pairs(name@, *v),
{
    let ghost pre = out.deep_view();
    match v {
        Some(s) => {
            let word = match s {
                RelatedTagsStatus::Active => String::from_str("active"),
                RelatedTagsStatus::Closed => String::from_str("closed"),
                RelatedTagsStatus::All => String::from_str("all"),
            };
            push_pair(out, name, word);
            proof {
                assert(out.deep_view() =~= pre + status_pairs(name@, *v));
            }
        },
        None => {
            proof {
                assert(out.deep_view() =~= pre + status_pairs(name@, *v));
            }
        },
    }
}

impl ListTeamsRequest {
    /// The query parameters this request puts on the wire, fields in
    /// declared order; an absent field contributes none, a list one pair
    /// per element.
    pub fn query_pairs(&self) -> (r: Vec<(String, String)>)
        ensures
            r.deep_view() == list_teams_query(*self),
    {
        let mut out: Vec<(String, String)> = Vec::new();
        push_u32_pair(&mut out, "limit", &self.limit);
        push_u32_pair(&mut out, "offset", &self.offset);
        push_str_pair(&mut out, "order", &self.order);
        push_bool_pair(&mut out, "ascending", &self.ascending);
        push_list_pairs(&mut out, "league", &self.league);
        push_list_pairs(&mut out, "name", &self.name);
        push_list_pairs(&mut out, "abbreviation", &self.abbreviation);
        proof {
            assert(out.deep_view() =~= list_teams_query(*self));
        }
        out
    }
}

impl TagsRequest {
    /// The query parameters this request puts on the wire, fields in
    /// declared order; an absent field contributes none.
    pub fn query_pairs(&self) -> (r: Vec<(String, String)>)
        ensures
            r.deep_view() == tags_query(*self),
    {
        let mut out: Vec<(String, String)> = Vec::new();
        push_u64_pair(&mut out, "limit", &self.limit);
        push_u64_pair(&mut out, "offset", &self.offset);
        push_str_pair(&mut out, "order", &self.order);
        push_bool_pair(&mut out, "ascending", &self.ascending);
        push_bool_pair(&mut out, "include_template", &self.include_template);
        push_bool_pair(&mut out, "is_carousel", &self.is_carousel);
        proof {
            assert(out.deep_view() =~= tags_query(*self));
        }
        out
    }
}

impl RelatedTagsByIdRequest {
    /// The filter parameters; the id itself rides in the path.
    pub fn query_pairs(&self) -> (r: Vec<(String, String)>)
        ensures
            r.deep_view() == related_tags_query(self.omit_empty, self.status),
    {
        let mut out: Vec<(String, String)> = Vec::new();
        push_bool_pair(&mut out, "omit_empty", &self.omit_empty);
        push_status_pair(&mut out, "status", &self.status);
        proof {
            assert(out.deep_view() =~= related_tags_query(self.omit_empty, self.status));
        }
        out
    }
}

impl RelatedTagsBySlugRequest {
    /// The filter parameters; the slug itself rides in the path.
    pub fn query_pairs(&self) -> (r: Vec<(String, String)>)
        ensures
            r.deep_view() == related_tags_query(self.omit_empty, self.status),
    {
        let mut out: Vec<(String, String)> = Vec::new();
        push_bool_pair(&mut out, "omit_empty", &self.omit_empty);
        push_status_pair(&mut out, "status", &self.status);
        proof {
            assert(out.deep_view() =~= related_tags_query(self.omit_empty, self.status));
        }
        out
    }
}

/// The relative path of a tag lookup by id: `tags/` then the decimal id.
pub open spec fn tag_by_id_path_spec(id: u64) -> Seq<char> {
    "tags/"@ + ascii_seq(dec_digits(id as nat))
}

pub fn tag_by_id_path(id: u64) -> (r: String)
    ensures
        r@ == tag_by_id_path_spec(id),
{
    let mut s = String::from_str("tags/");
    let d = u64_dec_string(id);
    s.append(d.as_str());
    s
}

/// The relative path of a tag lookup by slug.
pub open spec fn tag_by_slug_path_spec(slug: Seq<char>) -> Seq<char> {
    "tags/slug/"@ + slug
}

pub fn tag_by_slug_path(slug: &str) -> (r: String)
    ensures
        r@ == tag_by_slug_path_spec(slug@),
{
    let mut s = String::from_str("tags/slug/");
    s.append(slug);
    s
}

/// The relative path of a tag-relationships lookup by id.
pub open spec fn tag_relationships_by_id_path_spec(id: u64) -> Seq<char> {
    "tags/"@ + ascii_seq(dec_digits(id as nat)) + "/related-tags"@
}

pub fn tag_relationships_by_id_path(id: u64) -> (r: String)
    ensures
        r@ == tag_relationships_by_id_path_spec(id),
{
    let mut s = tag_by_id_path(id);
    s.append("/related-tags");
    s
}

/// The relative path of a tag-relationships lookup by slug.
pub open spec fn tag_relationships_by_slug_path_spec(slug: Seq<char>) -> Seq<char> {
    "tags/slug/"@ + slug + "/related-tags"@
}

pub fn tag_relationships_by_slug_path(slug: &str) -> (r: String)
    ensures
        r@ == tag_relationships_by_slug_path_spec(slug@),
{
    let mut s = tag_by_slug_path(slug);
    s.append("/related-tags");
    s
}

/// The relative path of a related-tags expansion by id.
pub open spec fn related_tags_by_id_path_spec(id: u64) -> Seq<char> {
    "tags/"@ + ascii_seq(dec_digits(id as nat)) + "/related-tags/tags"@
}

pub fn related_tags_by_id_path(id: u64) -> (r: String)
    ensures
        r@ == related_tags_by_id_path_spec(id),
{
    let mut s = tag_relationships_by_id_path(id);
    s.append("/tags");
    proof {
        reveal_strlit("/related-tags");
        reveal_strlit("/related-tags/tags");
        reveal_strlit("/tags");
        assert("/related-tags"@ + "/tags"@ =~= "/related-tags/tags"@);
        assert(s@ =~= related_tags_by_id_path_spec(id));
    }
    s
}

/// The relative path of a related-tags expansion by slug.
pub open spec fn related_tags_by_slug_path_spec(slug: Seq<char>) -> Seq<char> {
    "tags/slug/"@ + slug + "/related-tags/tags"@
}

pub fn related_tags_by_slug_path(slug: &str) -> (r: String)
    ensures
        r@ == related_tags_by_slug_path_spec(slug@),
{
    let mut s = tag_relationships_by_slug_path(slug);
    s.append("/tags");
    proof {
        reveal_strlit("/related-tags");
        reveal_strlit("/related-tags/tags");
        reveal_strlit("/tags");
        assert("/related-tags"@ + "/tags"@ =~= "/related-tags/tags"@);
        assert(s@ =~= related_tags_by_slug_path_spec(slug@));
    }
    s
}

} // verus!
