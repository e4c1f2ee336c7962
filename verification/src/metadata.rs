//! The metadata service: content records, their text rendering, and the
//! generation of sample content.

use fake::Fake;
use rand::Rng;
use std::collections::HashSet;
use vstd::prelude::*;

use crate::config::AppConfig;
use crate::text::{
    all_digits, bracketed, debug_str, decimal, decimal_reads_back, decimal_value, join, lemma_join_push, lower_word, push_decimal,
    push_signed_decimal, quoted, signed_decimal,
};
use crate::time::{earliest_utc_second, latest_utc_second, utc_now, Timestamp};

verus! {

/// Who published a piece of content.
#[derive(Clone, Debug)]
pub struct Publisher {
    pub id: u32,
    pub name: String,
    pub avatar: String,
}

/// A piece of content with its statistics.
#[derive(Clone, Debug)]
pub struct Content {
    pub id: u32,
    pub name: String,
    pub description: String,
    pub publishers: Vec<Publisher>,
    pub url: String,
    pub image: String,
    pub typ: i32,
    pub created_at: Option<Timestamp>,
    pub views: u32,
    pub likes: u32,
    pub dislikes: u32,
}

/// A request for the content with the given id.
#[derive(Clone, Copy, Debug, PartialEq, Eq, Structural)]
pub struct MaterializeRequest {
    pub id: u32,
}

/// A list of contents rendered as a message body.
pub struct Tpl<'a>(pub &'a [Content]);

/// The metadata service.
pub struct MetadataService {
    config: AppConfig,
}

/// The address used for the URL and the image of sample content.
pub const CONTENT_PLACEHOLDER: &'static str = "https://placehold.co/600x300";

/// The address used for the avatar of sample publishers.
pub const AVATAR_PLACEHOLDER: &'static str = "https://placehold.co/500x500";

// ----- rendering -----

/// `Timestamp { seconds: .., nanos: .. }`, as the derived `Debug` writes it.
pub open spec fn timestamp_debug(t: Timestamp) -> Seq<char> {
    "Timestamp { seconds: "@ + signed_decimal(t.seconds as int) + ", nanos: "@ + signed_decimal(
        t.nanos as int,
    ) + " }"@
}

/// `Some(..)` or `None` around a timestamp.
pub open spec fn optional_timestamp_debug(t: Option<Timestamp>) -> Seq<char> {
    match t {
        Some(t) => "Some("@ + timestamp_debug(t) + ")"@,
        None => "None"@,
    }
}

/// `Publisher { id: .., name: "..", avatar: ".." }`.
pub open spec fn publisher_debug(p: Publisher) -> Seq<char> {
    "Publisher { id: "@ + decimal(p.id as nat) + ", name: "@ + debug_str(p.name@) + ", avatar: "@
        + debug_str(p.avatar@) + " }"@
}

/// The rendering of a list of publishers.
pub open spec fn publishers_debug(ps: Seq<Publisher>) -> Seq<char> {
    bracketed(ps.map_values(|p: Publisher| publisher_debug(p)))
}

/// The start of a content's rendering, up to its publishers.
pub open spec fn content_head(c: Content) -> Seq<char> {
    "Content { id: "@ + decimal(c.id as nat) + ", name: "@ + debug_str(c.name@)
        + ", description: "@ + debug_str(c.description@) + ", publishers: "@
}

/// The addresses and the kind of a content's rendering.
pub open spec fn content_links(c: Content) -> Seq<char> {
    ", url: "@ + debug_str(c.url@) + ", image: "@ + debug_str(c.image@) + ", typ: "@
        + signed_decimal(c.typ as int)
}

/// The end of a content's rendering: creation time and statistics.
pub open spec fn content_stats(c: Content) -> Seq<char> {
    ", created_at: "@ + optional_timestamp_debug(c.created_at) + ", views: "@ + decimal(
        c.views as nat,
    ) + ", likes: "@ + decimal(c.likes as nat) + ", dislikes: "@ + decimal(c.dislikes as nat)
        + " }"@
}

/// `Content { id: .., name: .., .. }`, every field in declaration order,
/// as the derived `Debug` writes it.
pub open spec fn content_debug(c: Content) -> Seq<char> {
    content_head(c) + publishers_debug(c.publishers@) + content_links(c) + content_stats(c)
}

/// The rendering of a list of contents.
pub open spec fn contents_debug(cs: Seq<Content>) -> Seq<char> {
    bracketed(cs.map_values(|c: Content| content_debug(c)))
}

/// A publisher is rendered as `Publisher { .. }` around its fields, each
/// written as its name, `: ` and its value, separated by `, `.
pub proof fn publisher_lists_its_fields(p: Publisher)
    ensures
        publisher_debug(p) == "Publisher { "@ + join(
            seq![
                "id: "@ + decimal(p.id as nat),
                "name: "@ + debug_str(p.name@),
                "avatar: "@ + debug_str(p.avatar@),
            ],
            ", "@,
        ) + " }"@,
{
    reveal_strlit("Timestamp { seconds: ");
    reveal_strlit(", nanos: ");
    reveal_strlit(" }");
    reveal_strlit("Some(");
    reveal_strlit(")");
    reveal_strlit("None");
    reveal_strlit("Publisher { id: ");
    reveal_strlit(", name: ");
    reveal_strlit(", avatar: ");
    reveal_strlit("Content { id: ");
    reveal_strlit(", description: ");
    reveal_strlit(", publishers: ");
    reveal_strlit(", url: ");
    reveal_strlit(", image: ");
    reveal_strlit(", typ: ");
    reveal_strlit(", created_at: ");
    reveal_strlit(", views: ");
    reveal_strlit(", likes: ");
    reveal_strlit(", dislikes: ");
    reveal_strlit("Content { ");
    reveal_strlit("Publisher { ");
    reveal_strlit("id: ");
    reveal_strlit("name: ");
    reveal_strlit("description: ");
    reveal_strlit("publishers: ");
    reveal_strlit("url: ");
    reveal_strlit("image: ");
    reveal_strlit("typ: ");
    reveal_strlit("created_at: ");
    reveal_strlit("views: ");
    reveal_strlit("likes: ");
    reveal_strlit("dislikes: ");
    reveal_strlit("avatar: ");
    reveal_strlit("Some(Timestamp { seconds: ");
    reveal_strlit("nanos: ");
    reveal_strlit(" })");
    reveal_strlit(", ");
    let fields = seq![
        "id: "@ + decimal(p.id as nat),
        "name: "@ + debug_str(p.name@),
        "avatar: "@ + debug_str(p.avatar@),
    ];
    reveal_with_fuel(join, 4);
    assert(fields.drop_last().drop_last() =~= seq![fields[0]]);
    assert(fields.drop_last() =~= seq![fields[0], fields[1]]);
    assert(publisher_debug(p) =~= "Publisher { "@ + join(fields, ", "@) + " }"@);
}

/// The fields of a content in declaration order, each written as its
/// name, `: ` and its value.
pub open spec fn content_fields(c: Content) -> Seq<Seq<char>> {
    seq![
        "id: "@ + decimal(c.id as nat),
        "name: "@ + debug_str(c.name@),
        "description: "@ + debug_str(c.description@),
        "publishers: "@ + bracketed(c.publishers@.map_values(|p: Publisher| publisher_debug(p))),
        "url: "@ + debug_str(c.url@),
        "image: "@ + debug_str(c.image@),
        "typ: "@ + signed_decimal(c.typ as int),
        "created_at: "@ + created_at_text(c.created_at),
        "views: "@ + decimal(c.views as nat),
        "likes: "@ + decimal(c.likes as nat),
        "dislikes: "@ + decimal(c.dislikes as nat),
    ]
}

/// After its first `at` characters, `field` is made of decimal digits only,
/// and they read back as `n`.
pub open spec fn numeral_after(field: Seq<char>, at: int, n: nat) -> bool {
    &&& 0 <= at < field.len()
    &&& all_digits(field.skip(at))
    &&& decimal_value(field.skip(at)) == n
}

/// Joining eleven texts puts the separator between each two neighbours.
proof fn join_eleven(f: Seq<Seq<char>>, sep: Seq<char>)
    requires
        f.len() == 11,
    ensures
        join(f, sep) == f[0] + sep + f[1] + sep + f[2] + sep + f[3] + sep + f[4] + sep + f[5] + sep
            + f[6] + sep + f[7] + sep + f[8] + sep + f[9] + sep + f[10],
{
    join_take_is_prefix(f, sep, 11);
    assert(f.take(11) =~= f);
    assert(join_prefix(f, sep, 11) == f[0] + sep + f[1] + sep + f[2] + sep + f[3] + sep + f[4] + sep
        + f[5] + sep + f[6] + sep + f[7] + sep + f[8] + sep + f[9] + sep + f[10]) by {
        reveal_with_fuel(join_prefix, 12);
    }
}

/// Joining the first `k` texts gives them, each but the first preceded by
/// the separator.
proof fn join_take_is_prefix(f: Seq<Seq<char>>, sep: Seq<char>, k: int)
    requires
        1 <= k <= f.len(),
    ensures
        join(f.take(k), sep) == join_prefix(f, sep, k),
    decreases k,
{
    if k == 1 {
        assert(f.take(1).drop_last() =~= Seq::<Seq<char>>::empty());
        assert(f.take(1)[0] == f[0]);
    } else {
        join_take_is_prefix(f, sep, k - 1);
        lemma_join_push(f.take(k - 1), sep, f[k - 1]);
        assert(f.take(k - 1).push(f[k - 1]) =~= f.take(k));
    }
}

/// The first `k` texts, each but the first preceded by the separator.
spec fn join_prefix(f: Seq<Seq<char>>, sep: Seq<char>, k: int) -> Seq<char>
    decreases k,
{
    if k <= 1 {
        f[0]
    } else {
        join_prefix(f, sep, k - 1) + sep + f[k - 1]
    }
}

proof fn head_lists_its_fields(c: Content)
    ensures
        content_head(c) == "Content { "@ + ("id: "@ + decimal(c.id as nat)) + ", "@ + ("name: "@
            + debug_str(c.name@)) + ", "@ + ("description: "@ + debug_str(c.description@)) + ", "@
            + "publishers: "@,
{
    reveal_strlit("Content { id: ");
    reveal_strlit(", name: ");
    reveal_strlit(", description: ");
    reveal_strlit(", publishers: ");
    reveal_strlit("Content { ");
    reveal_strlit("id: ");
    reveal_strlit("name: ");
    reveal_strlit("description: ");
    reveal_strlit("publishers: ");
    reveal_strlit(", ");
    assert(content_head(c) =~= "Content { "@ + ("id: "@ + decimal(c.id as nat)) + ", "@ + ("name: "@
        + debug_str(c.name@)) + ", "@ + ("description: "@ + debug_str(c.description@)) + ", "@
        + "publishers: "@);
}

proof fn links_list_their_fields(c: Content)
    ensures
        content_links(c) == ", "@ + ("url: "@ + debug_str(c.url@)) + ", "@ + ("image: "@ + debug_str(
            c.image@,
        )) + ", "@ + ("typ: "@ + signed_decimal(c.typ as int)),
{
    reveal_strlit(", url: ");
    reveal_strlit(", image: ");
    reveal_strlit(", typ: ");
    reveal_strlit("url: ");
    reveal_strlit("image: ");
    reveal_strlit("typ: ");
    reveal_strlit(", ");
    assert(content_links(c) =~= ", "@ + ("url: "@ + debug_str(c.url@)) + ", "@ + ("image: "@
        + debug_str(c.image@)) + ", "@ + ("typ: "@ + signed_decimal(c.typ as int)));
}

/// The text after `created_at: `: `None`, or the instant as
/// `Some(Timestamp { seconds: .., nanos: .. })`.
pub open spec fn created_at_text(t: Option<Timestamp>) -> Seq<char> {
    match t {
        Some(t) => "Some(Timestamp { seconds: "@ + signed_decimal(t.seconds as int) + ", "@
            + "nanos: "@ + signed_decimal(t.nanos as int) + " })"@,
        None => "None"@,
    }
}

proof fn created_at_text_is_rendering(t: Option<Timestamp>)
    ensures
        optional_timestamp_debug(t) == created_at_text(t),
{
    reveal_strlit("Some(");
    reveal_strlit("Timestamp { seconds: ");
    reveal_strlit(", nanos: ");
    reveal_strlit(" }");
    reveal_strlit(")");
    reveal_strlit("Some(Timestamp { seconds: ");
    reveal_strlit(", ");
    reveal_strlit("nanos: ");
    reveal_strlit(" })");
    match t {
        Some(x) => {
            assert(optional_timestamp_debug(t) =~= created_at_text(t));
        },
        None => {},
    }
}

proof fn stats_list_their_fields(c: Content)
    ensures
        content_stats(c) == ", "@ + ("created_at: "@ + created_at_text(c.created_at)) + ", "@ + (
        "views: "@ + decimal(c.views as nat)) + ", "@ + ("likes: "@ + decimal(c.likes as nat)) + ", "@
            + ("dislikes: "@ + decimal(c.dislikes as nat)) + " }"@,
{
    created_at_text_is_rendering(c.created_at);
    reveal_strlit(", created_at: ");
    reveal_strlit(", views: ");
    reveal_strlit(", likes: ");
    reveal_strlit(", dislikes: ");
    reveal_strlit("created_at: ");
    reveal_strlit("views: ");
    reveal_strlit("likes: ");
    reveal_strlit("dislikes: ");
    reveal_strlit(", ");
    assert(content_stats(c) =~= ", "@ + ("created_at: "@ + created_at_text(c.created_at)) + ", "@ + (
    "views: "@ + decimal(c.views as nat)) + ", "@ + ("likes: "@ + decimal(c.likes as nat)) + ", "@
        + ("dislikes: "@ + decimal(c.dislikes as nat)) + " }"@);
}

/// Joining eleven texts, grouped as a content's rendering groups its fields.
proof fn join_eleven_grouped(f: Seq<Seq<char>>, sep: Seq<char>)
    requires
        f.len() == 11,
    ensures
        join(f, sep) == (f[0] + sep + f[1] + sep + f[2] + sep) + f[3] + (sep + f[4] + sep + f[5] + sep
            + f[6]) + (sep + f[7] + sep + f[8] + sep + f[9] + sep + f[10]),
{
    join_eleven(f, sep);
    assert(f[0] + sep + f[1] + sep + f[2] + sep + f[3] + sep + f[4] + sep + f[5] + sep + f[6] + sep
        + f[7] + sep + f[8] + sep + f[9] + sep + f[10] =~= (f[0] + sep + f[1] + sep + f[2] + sep)
        + f[3] + (sep + f[4] + sep + f[5] + sep + f[6]) + (sep + f[7] + sep + f[8] + sep + f[9] + sep
        + f[10]));
}

proof fn regroup(c: Seq<char>, g1: Seq<char>, p: Seq<char>, pubs: Seq<char>, g2: Seq<char>, g3: Seq<char>, e: Seq<char>)
    ensures
        c + (g1 + (p + pubs) + g2 + g3) + e == (c + g1 + p) + pubs + g2 + (g3 + e),
{
    assert(c + (g1 + (p + pubs) + g2 + g3) + e =~= (c + g1 + p) + pubs + g2 + (g3 + e));
}

/// A content is rendered as `Content { .. }` around all its fields in
/// declaration order, each written as its name, `: ` and its value
/// unchanged, separated by `, `; the digits after `id: `, `views: `,
/// `likes: ` and `dislikes: ` read back as the whole number they stand for.
pub proof fn content_lists_its_fields(c: Content)
    ensures
        content_debug(c) == "Content { "@ + join(content_fields(c), ", "@) + " }"@,
        numeral_after(content_fields(c)[0], 4, c.id as nat),
        numeral_after(content_fields(c)[8], 7, c.views as nat),
        numeral_after(content_fields(c)[9], 7, c.likes as nat),
        numeral_after(content_fields(c)[10], 10, c.dislikes as nat),
{
    let f = content_fields(c);
    reveal_strlit("id: ");
    reveal_strlit("views: ");
    reveal_strlit("likes: ");
    reveal_strlit("dislikes: ");
    decimal_reads_back(c.id as nat);
    decimal_reads_back(c.views as nat);
    decimal_reads_back(c.likes as nat);
    decimal_reads_back(c.dislikes as nat);
    assert(f[0].skip(4) =~= decimal(c.id as nat));
    assert(f[8].skip(7) =~= decimal(c.views as nat));
    assert(f[9].skip(7) =~= decimal(c.likes as nat));
    assert(f[10].skip(10) =~= decimal(c.dislikes as nat));
    let sep = ", "@;
    join_eleven_grouped(f, sep);
    head_lists_its_fields(c);
    links_list_their_fields(c);
    stats_list_their_fields(c);
    let g1 = f[0] + sep + f[1] + sep + f[2] + sep;
    let p = "publishers: "@;
    let pubs = publishers_debug(c.publishers@);
    let g2 = sep + f[4] + sep + f[5] + sep + f[6];
    let g3 = sep + f[7] + sep + f[8] + sep + f[9] + sep + f[10];
    let e = " }"@;
    assert(content_head(c) =~= "Content { "@ + g1 + p);
    assert(f[3] == p + pubs);
    assert(content_links(c) == g2);
    assert(content_stats(c) =~= g3 + e);
    regroup("Content { "@, g1, p, pubs, g2, g3, e);
}

/// A list of contents renders each content once and in order: no content
/// gives `[]`, one content `[` its rendering `]`, and one more content adds
/// `, ` and its rendering before the closing bracket.
pub proof fn contents_listed_once_in_order(cs: Seq<Content>, c: Content)
    ensures
        contents_debug(Seq::empty()) == seq!['[', ']'],
        contents_debug(seq![c]) == seq!['['] + content_debug(c) + seq![']'],
        cs.len() > 0 ==> contents_debug(cs.push(c)) == contents_debug(cs).drop_last() + seq![
            ',',
            ' ',
        ] + content_debug(c) + seq![']'],
{
    let f = |x: Content| content_debug(x);
    assert(Seq::<Content>::empty().map_values(f) =~= Seq::<Seq<char>>::empty());
    assert(contents_debug(Seq::empty()) =~= seq!['[', ']']);
    assert(seq![c].map_values(f) =~= seq![content_debug(c)]);
    assert(contents_debug(seq![c]) =~= seq!['['] + content_debug(c) + seq![']']);
    if cs.len() > 0 {
        let items = cs.map_values(f);
        assert(cs.push(c).map_values(f) =~= items.push(content_debug(c)));
        lemma_join_push(items, seq![',', ' '], content_debug(c));
        assert(contents_debug(cs).drop_last() =~= seq!['['] + join(items, seq![',', ' ']));
        assert(contents_debug(cs.push(c)) =~= contents_debug(cs).drop_last() + seq![',', ' ']
            + content_debug(c) + seq![']']);
    }
}

fn push_timestamp_debug(out: &mut String, t: Timestamp)
    ensures
        final(out)@ == old(out)@ + timestamp_debug(t),
{
    let ghost start = out@;
    out.append("Timestamp { seconds: ");
    push_signed_decimal(out, t.seconds);
    out.append(", nanos: ");
    push_signed_decimal(out, t.nanos as i64);
    out.append(" }");
    assert(out@ =~= start + timestamp_debug(t));
}

fn push_publisher_debug(out: &mut String, p: &Publisher)
    ensures
        final(out)@ == old(out)@ + publisher_debug(*p),
{
    let ghost start = out@;
    out.append("Publisher { id: ");
    push_decimal(out, p.id as u64);
    out.append(", name: ");
    out.append(quoted(p.name.as_str()).as_str());
    out.append(", avatar: ");
    out.append(quoted(p.avatar.as_str()).as_str());
    out.append(" }");
    assert(out@ =~= start + publisher_debug(*p));
}

fn push_publishers_debug(out: &mut String, ps: &Vec<Publisher>)
    ensures
        final(out)@ == old(out)@ + publishers_debug(ps@),
{
    let ghost start = out@;
    let ghost items = ps@.map_values(|p: Publisher| publisher_debug(p));
    proof {
        reveal_strlit("[");
        reveal_strlit("]");
        reveal_strlit(", ");
    }
    out.append("[");
    let mut i: usize = 0;
    while i < ps.len()
        invariant
            0 <= i <= ps.len(),
            items == ps@.map_values(|p: Publisher| publisher_debug(p)),
            out@ == start + seq!['['] + join(items.take(i as int), seq![',', ' ']),
        decreases ps.len() - i,
    {
        if i > 0 {
            proof { reveal_strlit(", "); }
            out.append(", ");
        }
        push_publisher_debug(out, &ps[i]);
        proof {
            lemma_join_push(items.take(i as int), seq![',', ' '], items[i as int]);
            assert(items.take(i as int).push(items[i as int]) =~= items.take(i + 1));
            assert(out@ =~= start + seq!['['] + join(items.take(i + 1), seq![',', ' ']));
        }
        i = i + 1;
    }
    assert(items.take(ps.len() as int) =~= items);
    out.append("]");
    assert(out@ =~= start + publishers_debug(ps@));
}

fn push_content_head(out: &mut String, c: &Content)
    ensures
        final(out)@ == old(out)@ + content_head(*c),
{
    let ghost start = out@;
    out.append("Content { id: ");
    push_decimal(out, c.id as u64);
    out.append(", name: ");
    out.append(quoted(c.name.as_str()).as_str());
    out.append(", description: ");
    out.append(quoted(c.description.as_str()).as_str());
    out.append(", publishers: ");
    assert(out@ =~= start + content_head(*c));
}

fn push_content_links(out: &mut String, c: &Content)
    ensures
        final(out)@ == old(out)@ + content_links(*c),
{
    let ghost start = out@;
    out.append(", url: ");
    out.append(quoted(c.url.as_str()).as_str());
    out.append(", image: ");
    out.append(quoted(c.image.as_str()).as_str());
    out.append(", typ: ");
    push_signed_decimal(out, c.typ as i64);
    assert(out@ =~= start + content_links(*c));
}

fn push_content_stats(out: &mut String, c: &Content)
    ensures
        final(out)@ == old(out)@ + content_stats(*c),
{
    let ghost start = out@;
    out.append(", created_at: ");
    let ghost mid = out@;
    match c.created_at {
        Some(t) => {
            out.append("Some(");
            push_timestamp_debug(out, t);
            out.append(")");
        },
        None => {
            out.append("None");
        },
    }
    assert(out@ =~= mid + optional_timestamp_debug(c.created_at));
    out.append(", views: ");
    push_decimal(out, c.views as u64);
    out.append(", likes: ");
    push_decimal(out, c.likes as u64);
    out.append(", dislikes: ");
    push_decimal(out, c.dislikes as u64);
    out.append(" }");
    assert(out@ =~= start + content_stats(*c));
}

fn push_content_debug(out: &mut String, c: &Content)
    ensures
        final(out)@ == old(out)@ + content_debug(*c),
{
    let ghost start = out@;
    push_content_head(out, c);
    push_publishers_debug(out, &c.publishers);
    push_content_links(out, c);
    push_content_stats(out, c);
    assert(out@ =~= start + content_debug(*c));
}

impl Content {
    /// The content as a message body: `Content: ` and its rendering.
    pub fn to_body(&self) -> (body: String)
        ensures
            body@ == "Content: "@ + content_debug(*self),
    {
        let mut body = String::from_str("Content: ");
        push_content_debug(&mut body, self);
        body
    }
}

impl<'a> Tpl<'a> {
    /// The contents as a message body: `Tpl: ` and the rendering of the list.
    pub fn to_body(&self) -> (body: String)
        ensures
            body@ == "Tpl: "@ + contents_debug(self.0@),
    {
        let contents = self.0;
        let ghost start = "Tpl: "@;
        let ghost items = contents@.map_values(|c: Content| content_debug(c));
        let mut body = String::from_str("Tpl: ");
        proof {
            reveal_strlit("[");
            reveal_strlit("]");
            reveal_strlit(", ");
        }
        body.append("[");
        let mut i: usize = 0;
        while i < contents.len()
            invariant
                0 <= i <= contents@.len(),
                items == contents@.map_values(|c: Content| content_debug(c)),
                body@ == start + seq!['['] + join(items.take(i as int), seq![',', ' ']),
            decreases contents@.len() - i,
        {
            if i > 0 {
                proof { reveal_strlit(", "); }
                body.append(", ");
            }
            push_content_debug(&mut body, &contents[i]);
            proof {
                lemma_join_push(items.take(i as int), seq![',', ' '], items[i as int]);
                assert(items.take(i as int).push(items[i as int]) =~= items.take(i + 1));
                assert(body@ =~= start + seq!['['] + join(items.take(i + 1), seq![',', ' ']));
            }
            i = i + 1;
        }
        assert(items.take(contents@.len() as int) =~= items);
        body.append("]");
        assert(body@ =~= "Tpl: "@ + contents_debug(self.0@));
        body
    }
}

impl MetadataService {
    /// The configuration the service was made with.
    pub closed spec fn configuration(&self) -> AppConfig {
        self.config
    }

    /// A service that keeps `config`.
    pub fn new(config: AppConfig) -> (svc: Self)
        ensures
            svc.configuration() == config,
    {
        MetadataService { config }
    }
}

// ----- sample content -----

/// Trusted: `rand::Rng::gen_range(lo..hi)` on `rand::thread_rng()`. rand's
/// documentation promises a value in the half-open range and panics on an
/// empty one; which value comes out is chance.
#[verifier::external_body]
fn random_in(lo: u32, hi: u32) -> (n: u32)
    requires
        lo < hi,
    ensures
        lo <= n < hi,
{
    rand::thread_rng().gen_range(lo..hi)
}

/// Trusted: `fake::Fake::fake` on the range `lo..hi` of `u32`; fake's
/// source draws it with `gen_range`, so the value lies in the range.
#[verifier::external_body]
fn fake_in(lo: u32, hi: u32) -> (n: u32)
    requires
        lo < hi,
    ensures
        lo <= n < hi,
{
    (lo..hi).fake::<u32>()
}

/// A person's name as fake writes it: a non-empty first name, a space and a
/// non-empty last name.
pub open spec fn sample_name(s: Seq<char>) -> bool {
    exists|first: Seq<char>, last: Seq<char>|
        #![trigger first + " "@ + last]
        first.len() > 0 && last.len() > 0 && s == first + " "@ + last
}

/// Trusted: `fake::faker::name::en::Name().fake()`. fake's source fills
/// the template `{FirstName} {LastName}` from its English lists, whose
/// entries are all non-empty and hold no braces; which name is chance.
#[verifier::external_body]
fn fake_name() -> (name: String)
    ensures
        sample_name(name@),
{
    fake::faker::name::en::Name().fake::<String>()
}

/// Every one of the words is a lower-case word.
pub open spec fn lorem_words(words: Seq<Seq<char>>) -> bool {
    forall|i: int| 0 <= i < words.len() ==> lower_word(#[trigger] words[i])
}

/// A sample sentence: from `min_words` up to (not including) `max_words`
/// lower-case words, joined by single spaces and closed by a full stop.
pub open spec fn sample_sentence(s: Seq<char>, min_words: int, max_words: int) -> bool {
    exists|words: Seq<Seq<char>>|
        #[trigger] lorem_words(words) && min_words <= words.len() < max_words && s == join(
            words,
            " "@,
        ) + "."@
}

/// Trusted: `fake::faker::lorem::en::Sentence(min..max).fake()`. fake's
/// source draws the word count with `gen_range(min..max)`, picks each word
/// from its lorem list (all of them lower-case ASCII letters, none empty),
/// joins them with single spaces and adds `.`; which words is chance.
#[verifier::external_body]
fn fake_sentence(min_words: usize, max_words: usize) -> (s: String)
    requires
        min_words < max_words,
    ensures
        sample_sentence(s@, min_words as int, max_words as int),
{
    fake::faker::lorem::en::Sentence(min_words..max_words).fake::<String>()
}

/// Trusted: `fake::Faker.fake::<i32>()`, any `i32`.
#[verifier::external_body]
fn fake_kind() -> i32 {
    fake::Faker.fake::<i32>()
}

/// Trusted: `fake::faker::chrono::en::DateTimeBetween(start, end).fake()`
/// on `chrono::DateTime<Utc>`, the instants converted with
/// `DateTime::from_timestamp` (which accepts every whole second that chrono
/// represents with nanoseconds below one billion). fake's source adds to
/// `start` a whole number of minutes drawn from `0..(end - start)` in
/// minutes, so the result keeps `start`'s nanoseconds, lies a multiple of
/// sixty seconds after `start` and before `end`; the range must not be
/// empty.
#[verifier::external_body]
fn fake_between(start: Timestamp, end: Timestamp) -> (t: Timestamp)
    requires
        earliest_utc_second() <= start.seconds,
        start.seconds + 61 <= end.seconds,
        end.seconds <= latest_utc_second(),
        0 <= start.nanos < 1_000_000_000,
        0 <= end.nanos < 1_000_000_000,
    ensures
        start.seconds <= t.seconds < end.seconds,
        (t.seconds - start.seconds) % 60 == 0,
        t.nanos == start.nanos,
{
    let from = chrono::DateTime::from_timestamp(start.seconds, start.nanos as u32).unwrap();
    let to = chrono::DateTime::from_timestamp(end.seconds, end.nanos as u32).unwrap();
    let picked: chrono::DateTime<chrono::Utc> = fake::faker::chrono::en::DateTimeBetween(from, to).fake();
    Timestamp { seconds: picked.timestamp(), nanos: picked.timestamp_subsec_nanos() as i32 }
}

/// `days` whole days before `now`.
fn before(now: Timestamp, days: u32) -> (t: Timestamp)
    requires
        days <= 365,
        earliest_utc_second() + 86400 * 365 <= now.seconds <= latest_utc_second(),
    ensures
        t.seconds == now.seconds - 86400 * days,
        t.nanos == now.nanos,
{
    Timestamp { seconds: now.seconds - 86400 * (days as i64), nanos: now.nanos }
}

/// The span that a creation time is drawn from: the 365 days that end at
/// the clock reading `now`. The clock reading must lie within chrono's
/// range, a year after its start.
pub fn creation_window(now: Timestamp) -> (window: (Timestamp, Timestamp))
    requires
        earliest_utc_second() + 86400 * 365 <= now.seconds <= latest_utc_second(),
    ensures
        window.0 == (Timestamp { seconds: (now.seconds - 86400 * 365) as i64, nanos: now.nanos }),
        window.1 == now,
{
    (before(now, 365), before(now, 0))
}

/// `t` lies within the 365 days before the clock reading `now`, a whole
/// number of minutes after their start, with the reading's nanoseconds.
pub open spec fn within_year_before(t: Timestamp, now: Timestamp) -> bool {
    &&& 0 <= now.seconds <= latest_utc_second()
    &&& 0 <= now.nanos < 1_000_000_000
    &&& now.seconds - 86400 * 365 <= t.seconds < now.seconds
    &&& (t.seconds - (now.seconds - 86400 * 365)) % 60 == 0
    &&& t.nanos == now.nanos
}

/// A creation time within the year before now, on a whole minute after
/// the start of that year.
fn created_at() -> (t: Option<Timestamp>)
    ensures
        t matches Some(t) && 0 <= t.nanos < 1_000_000_000,
        t matches Some(t) && exists|now: Timestamp| #[trigger] within_year_before(t, now),
{
    let now = utc_now();
    let (start, end) = creation_window(now);
    let t = fake_between(start, end);
    assert(within_year_before(t, now));
    Some(t)
}

/// A sample publisher: an id in `10000..2000000`, a first and last name
/// and the placeholder avatar.
pub open spec fn sample_publisher(p: Publisher) -> bool {
    &&& 10000 <= p.id < 2000000
    &&& sample_name(p.name@)
    &&& p.avatar@ == AVATAR_PLACEHOLDER@
}

/// Sample content for `id`: a name, a sentence of three to six words, one
/// to eight sample publishers, the placeholder URL and image, a creation
/// time within the year before a clock reading, and statistics in fixed
/// ranges.
pub open spec fn sample_content(c: Content, id: u32) -> bool {
    &&& c.id == id
    &&& sample_name(c.name@)
    &&& sample_sentence(c.description@, 3, 7)
    &&& 1 <= c.publishers@.len() <= 8
    &&& forall|i: int| 0 <= i < c.publishers@.len() ==> sample_publisher(#[trigger] c.publishers@[i])
    &&& c.url@ == CONTENT_PLACEHOLDER@
    &&& c.image@ == CONTENT_PLACEHOLDER@
    &&& c.created_at matches Some(t) && 0 <= t.nanos < 1_000_000_000 && exists|now: Timestamp|
        #[trigger] within_year_before(t, now)
    &&& 123432 <= c.views < 10000000
    &&& 1234 <= c.likes < 100000
    &&& 123 <= c.dislikes < 10000
}

impl Publisher {
    /// A sample publisher: an id in `10000..2000000`, a random name and the
    /// placeholder avatar.
    pub fn new() -> (p: Self)
        ensures
            sample_publisher(p),
    {
        Publisher {
            id: fake_in(10000, 2000000),
            name: fake_name(),
            avatar: String::from_str(AVATAR_PLACEHOLDER),
        }
    }
}

impl Content {
    /// Sample content with the given id: between one and eight sample
    /// publishers, the placeholder URL and image, a creation time within
    /// the last year and statistics in fixed ranges.
    pub fn materialize(id: u32) -> (c: Self)
        ensures
            sample_content(c, id),
    {
        let name = fake_name();
        let description = fake_sentence(3, 7);
        let count = random_in(2, 10);
        let mut publishers: Vec<Publisher> = Vec::new();
        let mut k: u32 = 1;
        while k < count
            invariant
                1 <= k <= count,
                count < 10,
                publishers@.len() == k - 1,
                forall|i: int| 0 <= i < publishers@.len() ==> sample_publisher(#[trigger] publishers@[i]),
            decreases count - k,
        {
            publishers.push(Publisher::new());
            k = k + 1;
        }
        let typ = fake_kind();
        let created = created_at();
        let views = random_in(123432, 10000000);
        let likes = random_in(1234, 100000);
        let dislikes = random_in(123, 10000);
        Content {
            id,
            name,
            description,
            publishers,
            url: String::from_str(CONTENT_PLACEHOLDER),
            image: String::from_str(CONTENT_PLACEHOLDER),
            typ,
            created_at: created,
            views,
            likes,
            dislikes,
        }
    }
}

impl MetadataService {
    /// The answer to the next item of a request stream: `None` once the
    /// stream has ended or failed, else sample content for the requested id.
    pub fn answer_next<E>(&self, item: Option<Result<MaterializeRequest, E>>) -> (res: Option<
        Content,
    >)
        ensures
            match item {
                Some(Ok(req)) => res matches Some(c) && sample_content(c, req.id),
                _ => res is None,
            },
    {
        match item {
            Some(Ok(req)) => Some(Content::materialize(req.id)),
            _ => None,
        }
    }
}

/// The ids that a request stream is answered for: one per item, in order,
/// up to the first item that is an error (the content answering each
/// carries that id, by `answer_next`).
pub open spec fn answered_ids<E>(items: Seq<Result<MaterializeRequest, E>>) -> Seq<u32>
    decreases items.len(),
{
    if items.len() == 0 {
        Seq::empty()
    } else {
        match items[0] {
            Ok(req) => seq![req.id] + answered_ids(items.drop_first()),
            Err(_) => Seq::empty(),
        }
    }
}

/// The requests as stream items that are all successes.
pub open spec fn all_ok_requests<E>(reqs: Seq<MaterializeRequest>) -> Seq<
    Result<MaterializeRequest, E>,
> {
    reqs.map_values(|r: MaterializeRequest| Ok::<MaterializeRequest, E>(r))
}

/// A stream of requests without errors is answered once per request, in
/// order, each with content of the requested id.
pub proof fn every_request_is_materialized_once<E>(reqs: Seq<MaterializeRequest>)
    ensures
        answered_ids(all_ok_requests::<E>(reqs)) == reqs.map_values(|r: MaterializeRequest| r.id),
    decreases reqs.len(),
{
    let items = all_ok_requests::<E>(reqs);
    if reqs.len() > 0 {
        let rest = reqs.drop_first();
        every_request_is_materialized_once::<E>(rest);
        assert(items.drop_first() =~= all_ok_requests::<E>(rest));
        assert(answered_ids(items) =~= reqs.map_values(|r: MaterializeRequest| r.id));
    } else {
        assert(answered_ids(items) =~= reqs.map_values(|r: MaterializeRequest| r.id));
    }
}

/// `reqs` holds a request for `id`.
pub open spec fn requested(reqs: Seq<MaterializeRequest>, id: u32) -> bool {
    exists|i: int| 0 <= i < reqs.len() && (#[trigger] reqs[i]).id == id
}

impl MaterializeRequest {
    /// One request per distinct id of `ids`, in the order of first
    /// occurrence.
    pub fn new_with_ids(ids: &[u32]) -> (reqs: Vec<MaterializeRequest>)
        ensures
            forall|id: u32| requested(reqs@, id) <==> ids@.contains(id),
            forall|i: int, j: int|
                0 <= i < j < reqs@.len() ==> (#[trigger] reqs@[i]).id != (#[trigger] reqs@[j]).id,
    {
        broadcast use vstd::std_specs::hash::group_hash_axioms;
        let mut seen: HashSet<u32> = HashSet::new();
        let mut reqs: Vec<MaterializeRequest> = Vec::new();
        let mut i: usize = 0;
        while i < ids.len()
            invariant
                0 <= i <= ids@.len(),
                forall|id: u32| seen@.contains(id) <==> requested(reqs@, id),
                forall|id: u32| requested(reqs@, id) <==> ids@.take(i as int).contains(id),
                forall|a: int, b: int|
                    0 <= a < b < reqs@.len() ==> (#[trigger] reqs@[a]).id != (#[trigger] reqs@[b]).id,
            decreases ids@.len() - i,
        {
            let id = ids[i];
            let ghost old_reqs = reqs@;
            let fresh = seen.insert(id);
            if fresh {
                reqs.push(MaterializeRequest { id });
            }
            proof {
                let prev = ids@.take(i as int);
                let next = ids@.take(i + 1);
                assert(next =~= prev.push(id));
                assert forall|x: u32| requested(reqs@, x) <==> next.contains(x) by {
                    if requested(reqs@, x) {
                        let k = choose|k: int| 0 <= k < reqs@.len() && (#[trigger] reqs@[k]).id == x;
                        if k < old_reqs.len() {
                            assert(old_reqs[k].id == x);
                            assert(requested(old_reqs, x));
                            let m = choose|m: int| 0 <= m < prev.len() && prev[m] == x;
                            assert(next[m] == x);
                        } else {
                            assert(next[i as int] == x);
                        }
                    }
                    if next.contains(x) {
                        let m = choose|m: int| 0 <= m < next.len() && next[m] == x;
                        if m < i {
                            assert(prev[m] == x);
                            assert(prev.contains(x));
                            assert(requested(old_reqs, x));
                            let k = choose|k: int| 0 <= k < old_reqs.len() && (#[trigger] old_reqs[k]).id == x;
                            assert(reqs@[k].id == x);
                        } else if fresh {
                            assert(reqs@[old_reqs.len() as int].id == x);
                        } else {
                            assert(requested(old_reqs, x));
                            let k = choose|k: int| 0 <= k < old_reqs.len() && (#[trigger] old_reqs[k]).id == x;
                            assert(reqs@[k].id == x);
                        }
                    }
                }
                assert forall|x: u32| seen@.contains(x) <==> requested(reqs@, x) by {
                    if requested(reqs@, x) && !requested(old_reqs, x) {
                        assert(x == id);
                    }
                    if requested(old_reqs, x) {
                        let k = choose|k: int| 0 <= k < old_reqs.len() && (#[trigger] old_reqs[k]).id == x;
                        assert(reqs@[k].id == x);
                    }
                    if fresh && x == id {
                        assert(reqs@[old_reqs.len() as int].id == x);
                    }
                }
            }
            i = i + 1;
        }
        assert(ids@.take(ids@.len() as int) =~= ids@);
        reqs
    }
}

} // verus!
