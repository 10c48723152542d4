//! Merging the answers of the local MetaTube service. A search gives hits from several
//! providers; each hit, and then each provider's detail page, adds what it knows: the
//! longest title, the first year, rating and cover, every new actor and genre, and a
//! runtime only from providers whose runtimes can be trusted. The caller makes the
//! requests and hands each answer to the merge in turn.

use vstd::prelude::*;
use vstd::string::{StringExecFns, StringSliceAdditionalSpecFns};
use vstd::utf8::{decode_utf8, encode_utf8, is_char_boundary};
use crate::error::{CommandError, SCRAPE_FAILED};
use crate::json_reply::{
    json_error, json_error_of, json_int, json_int_of, json_len, json_len_of, json_null, json_null_of, json_text,
    json_text_of, item_pointer, item_pointer_exec, text_list, text_list_of,
};
use crate::text::{chars_eq, chars_of, contains, contains_exec, parse_i32, parse_i32_exec, string_of, trim, trim_exec};

verus! {

/// One hit of a MetaTube search, with the fields the merge reads.
#[derive(Debug)]
pub struct MetatubeHit {
    pub provider: Option<String>,
    pub id: Option<String>,
    pub title: Option<String>,
    pub release_date: Option<String>,
    pub score: Option<u64>,
    pub cover_url: Option<String>,
    pub thumb_url: Option<String>,
    pub actors: Vec<String>,
}

/// A provider's detail page for one movie, with the fields the merge reads. Ratings are
/// carried as bit patterns.
#[derive(Debug)]
pub struct MetatubeInfo {
    pub runtime: Option<i64>,
    pub duration: Option<i64>,
    pub actors: Vec<String>,
    pub genres: Vec<String>,
    pub big_cover_url: Option<String>,
    pub cover_url: Option<String>,
    pub score: Option<u64>,
}

/// What the merge knows so far.
pub struct MetatubeMerge {
    pub title: String,
    pub poster: Option<String>,
    pub year: Option<i32>,
    pub rating: Option<u64>,
    pub runtime: Option<i32>,
    pub actors: Vec<String>,
    pub genres: Vec<String>,
    pub sources: Vec<String>,
}

/// The merge as values.
pub struct MergeView {
    pub title: Seq<char>,
    pub poster: Option<Seq<char>>,
    pub year: Option<i32>,
    pub rating: Option<u64>,
    pub runtime: Option<i32>,
    pub actors: Seq<Seq<char>>,
    pub genres: Seq<Seq<char>>,
    pub sources: Seq<Seq<char>>,
}

/// The view of an optional string.
pub open spec fn opt_view(o: Option<String>) -> Option<Seq<char>> {
    match o {
        Some(s) => Some(s@),
        None => None,
    }
}

/// The view of a vector of strings.
pub open spec fn strs(v: Seq<String>) -> Seq<Seq<char>> {
    Seq::new(v.len(), |i: int| v[i]@)
}

impl MetatubeMerge {
    /// The merge as values.
    pub open spec fn view(&self) -> MergeView {
        MergeView {
            title: self.title@,
            poster: opt_view(self.poster),
            year: self.year,
            rating: self.rating,
            runtime: self.runtime,
            actors: strs(self.actors@),
            genres: strs(self.genres@),
            sources: strs(self.sources@),
        }
    }
}

/// `list` with each item, trimmed, appended unless it is already there.
pub open spec fn add_new(list: Seq<Seq<char>>, items: Seq<Seq<char>>) -> Seq<Seq<char>>
    decreases items.len(),
{
    if items.len() == 0 {
        list
    } else {
        let l = add_new(list, items.drop_last());
        let t = trim(items.last());
        if l.contains(t) { l } else { l.push(t) }
    }
}

/// No text occurs twice.
pub open spec fn no_dups(s: Seq<Seq<char>>) -> bool {
    forall|i: int, j: int| 0 <= i < j < s.len() ==> s[i] != s[j]
}

/// Adding keeps what was there, in place, and adds no duplicate.
pub proof fn law_add_new(list: Seq<Seq<char>>, items: Seq<Seq<char>>)
    ensures
        add_new(list, items).len() >= list.len(),
        add_new(list, items).take(list.len() as int) == list,
        no_dups(list) ==> no_dups(add_new(list, items)),
        forall|k: int| 0 <= k < items.len() ==> add_new(list, items).contains(trim(#[trigger] items[k])),
    decreases items.len(),
{
    if items.len() > 0 {
        law_add_new(list, items.drop_last());
        let l = add_new(list, items.drop_last());
        let t = trim(items.last());
        if !l.contains(t) {
            assert(l.push(t).take(list.len() as int) =~= l.take(list.len() as int));
            assert forall|k: int| 0 <= k < items.len() implies l.push(t).contains(trim(#[trigger] items[k])) by {
                if k < items.len() - 1 {
                    assert(items.drop_last()[k] == items[k]);
                    let w = choose|w: int| 0 <= w < l.len() && l[w] == trim(items[k]);
                    assert(l.push(t)[w] == trim(items[k]));
                } else {
                    assert(l.push(t)[l.len() as int] == t);
                }
            }
        } else {
            assert forall|k: int| 0 <= k < items.len() implies l.contains(trim(#[trigger] items[k])) by {
                if k < items.len() - 1 {
                    assert(items.drop_last()[k] == items[k]);
                }
            }
        }
    }
}

fn list_has(list: &Vec<String>, t: &Vec<char>) -> (b: bool)
    ensures
        b == strs(list@).contains(t@),
{
    let mut k: usize = 0;
    while k < list.len()
        invariant
            k <= list@.len(),
            forall|m: int| 0 <= m < k ==> strs(list@)[m] != t@,
        decreases list@.len() - k,
    {
        let c = chars_of(list[k].as_str());
        if chars_eq(&c, t) {
            assert(strs(list@)[k as int] == t@);
            return true;
        }
        k += 1;
    }
    false
}

/// Appends each item, trimmed, unless already present; says whether anything was added.
fn add_new_exec(list: &mut Vec<String>, items: &Vec<String>) -> (added: bool)
    ensures
        strs(final(list)@) == add_new(strs(old(list)@), strs(items@)),
        added == (strs(final(list)@).len() > strs(old(list)@).len()),
{
    let ghost start = strs(list@);
    let start_len = list.len();
    let n = items.len();
    for k in 0..n
        invariant
            n == items@.len(),
            strs(list@) == add_new(start, strs(items@).take(k as int)),
            strs(list@).len() >= start.len(),
    {
        let ghost prev = strs(items@).take(k as int);
        assert(strs(items@).take(k + 1).drop_last() =~= prev);
        assert(strs(items@).take(k + 1).last() == items@[k as int]@);
        let c = chars_of(items[k].as_str());
        let t = trim_exec(&c);
        if !list_has(list, &t) {
            let ghost before = strs(list@);
            list.push(string_of(&t));
            assert(strs(list@) =~= before.push(t@));
        }
        proof { law_add_new(start, strs(items@).take(k + 1)); }
    }
    assert(strs(items@).take(n as int) =~= strs(items@));
    list.len() > start_len
}

/// The number of bytes of the UTF-8 encoding of `s` (`str::len`).
pub open spec fn byte_len(s: Seq<char>) -> int {
    encode_utf8(s).len() as int
}

/// The first four bytes of a release date can be cut off (`&d[..4]` does not panic).
pub open spec fn year_cut_ok(d: Seq<char>) -> bool {
    encode_utf8(d).len() >= 4 && is_char_boundary(encode_utf8(d), 4)
}

/// The year read from the first four bytes of a release date, if they parse.
pub open spec fn year_of(d: Seq<char>) -> Option<i32> {
    match parse_i32(decode_utf8(encode_utf8(d).take(4))) {
        Some(v) => Some(v as i32),
        None => None,
    }
}

/// The first of two optional values that is present.
pub open spec fn first_some<T>(a: Option<T>, b: Option<T>) -> Option<T> {
    match a {
        Some(x) => Some(x),
        None => b,
    }
}

/// The merge after one search hit: a longer title (by bytes) replaces the title; the
/// first year, rating and cover (else thumbnail) are kept once found; new actors are added.
pub open spec fn after_hit(m: MergeView, h: MetatubeHit) -> MergeView {
    let t = match opt_view(h.title) { Some(t) => t, None => "-"@ };
    MergeView {
        title: if byte_len(t) > byte_len(m.title) { t } else { m.title },
        year: if m.year is None {
            match opt_view(h.release_date) { Some(d) => year_of(d), None => None }
        } else {
            m.year
        },
        rating: if m.rating is None { h.score } else { m.rating },
        poster: if m.poster is None { first_some(opt_view(h.cover_url), opt_view(h.thumb_url)) } else { m.poster },
        actors: add_new(m.actors, strs(h.actors@)),
        ..m
    }
}

/// A hit can be merged: if the year is still unknown, its release date can be cut.
pub open spec fn hit_ok(m: MergeView, h: MetatubeHit) -> bool {
    m.year is None && h.release_date is Some ==> year_cut_ok(h.release_date->0@)
}

/// The provider a hit names, `metatube` when it names none.
pub open spec fn hit_provider(h: MetatubeHit) -> Seq<char> {
    match opt_view(h.provider) { Some(p) => p, None => "metatube"@ }
}

/// Whether a hit's detail page is fetched: it names a provider and an id, both non-empty.
pub open spec fn wants_detail(h: MetatubeHit) -> bool {
    hit_provider(h).len() > 0 && (match opt_view(h.id) { Some(i) => i.len() > 0, None => false })
}

/// A runtime in minutes: values above 1000 are taken as seconds; at most 600.
pub open spec fn normalized(raw: int) -> int {
    let m = if raw > 1000 { raw / 60 } else { raw };
    if m > 600 { 600 } else { m }
}

/// The runtime a detail page reports, normalized (0 when it reports none).
pub open spec fn info_runtime(info: MetatubeInfo) -> int {
    normalized(match first_some(info.runtime, info.duration) { Some(r) => r as int, None => 0 })
}

/// Whether a detail page's runtime replaces the known one: the provider is trusted, the
/// runtime lies in 30..=300 minutes and exceeds the known one.
pub open spec fn takes_runtime(m: MergeView, info: MetatubeInfo, reliable: bool) -> bool {
    reliable && 30 <= info_runtime(info) <= 300
        && info_runtime(info) > (match m.runtime { Some(r) => r as int, None => 0 })
}

/// Whether the known cover may be replaced: there is none, or it is a thumbnail.
pub open spec fn poster_replaceable(p: Option<Seq<char>>) -> bool {
    match p { Some(x) => contains(x, "thumb"@), None => true }
}

/// The cover a detail page offers in place of a replaceable one: its big cover when
/// present (if empty, nothing), else its cover when non-empty.
pub open spec fn offered_cover(info: MetatubeInfo) -> Option<Seq<char>> {
    match opt_view(info.big_cover_url) {
        Some(b) => if b.len() > 0 { Some(b) } else { None },
        None => match opt_view(info.cover_url) {
            Some(c) => if c.len() > 0 { Some(c) } else { None },
            None => None,
        },
    }
}

/// Whether a detail page changes the cover.
pub open spec fn takes_cover(m: MergeView, info: MetatubeInfo) -> bool {
    poster_replaceable(m.poster) && offered_cover(info) is Some
}

/// The merge after a detail page, before its provider is recorded.
pub open spec fn absorb_info(m: MergeView, info: MetatubeInfo, reliable: bool) -> MergeView {
    MergeView {
        runtime: if takes_runtime(m, info, reliable) { Some(info_runtime(info) as i32) } else { m.runtime },
        actors: add_new(m.actors, strs(info.actors@)),
        genres: add_new(m.genres, strs(info.genres@)),
        poster: if takes_cover(m, info) { offered_cover(info) } else { m.poster },
        rating: if m.rating is None { info.score } else { m.rating },
        ..m
    }
}

/// Whether a detail page added anything.
pub open spec fn contributed(m: MergeView, info: MetatubeInfo, reliable: bool) -> bool {
    let n = absorb_info(m, info, reliable);
    takes_runtime(m, info, reliable) || n.actors.len() > m.actors.len() || n.genres.len() > m.genres.len()
        || takes_cover(m, info) || (m.rating is None && info.score is Some)
}

/// The providers whose runtimes are trusted on the search's detail pages.
pub open spec fn trusted_provider(p: Seq<char>) -> bool {
    p == "FANZA"@ || p == "JavBus"@ || p == "JAV321"@
}

/// The merge after the detail page of a hit's provider: its additions, and the provider
/// recorded as a source when it added anything.
pub open spec fn after_detail(m: MergeView, provider: Seq<char>, info: MetatubeInfo) -> MergeView {
    let reliable = trusted_provider(provider);
    let n = absorb_info(m, info, reliable);
    MergeView {
        sources: if contributed(m, info, reliable) { m.sources.push(provider) } else { m.sources },
        ..n
    }
}

/// A detail page's runtime counts only from the providers FANZA, JavBus and JAV321: from
/// one of them, a reported runtime of 30 to 300 minutes above the known one becomes the
/// merge's runtime and the provider is recorded as a source; from any other provider the
/// known runtime stays.
pub proof fn law_detail_runtime_trusted(m: MergeView, provider: Seq<char>, info: MetatubeInfo, r: i64)
    ensures
        (provider == "FANZA"@ || provider == "JavBus"@ || provider == "JAV321"@) && info.runtime == Some(r)
            && 30 <= r <= 300 && r > (match m.runtime { Some(x) => x as int, None => 0 }) ==> {
            &&& after_detail(m, provider, info).runtime == Some(r as i32)
            &&& after_detail(m, provider, info).sources == m.sources.push(provider)
        },
        !(provider == "FANZA"@ || provider == "JavBus"@ || provider == "JAV321"@)
            ==> after_detail(m, provider, info).runtime == m.runtime,
{
}

/// The merge after a fallback provider's page: its additions (its runtime is trusted),
/// and the provider recorded as a source.
pub open spec fn after_fallback(m: MergeView, provider: Seq<char>, info: MetatubeInfo) -> MergeView {
    let n = absorb_info(m, info, true);
    MergeView { sources: m.sources.push(provider), ..n }
}

/// The merge of a search for `query`, before any hit.
pub open spec fn start(query: Seq<char>) -> MergeView {
    MergeView {
        title: query,
        poster: None,
        year: None,
        rating: None,
        runtime: None,
        actors: Seq::empty(),
        genres: Seq::empty(),
        sources: Seq::empty(),
    }
}

fn opt_clone(o: &Option<String>) -> (r: Option<String>)
    ensures
        opt_view(r) == opt_view(*o),
{
    match o {
        Some(s) => Some(s.clone()),
        None => None,
    }
}

fn chars_has(s: &String, w: &str) -> (b: bool)
    ensures
        b == contains(s@, w@),
{
    let a = chars_of(s.as_str());
    let b = chars_of(w);
    contains_exec(&a, &b)
}

fn eq_lit(s: &String, w: &str) -> (b: bool)
    ensures
        b == (s@ == w@),
{
    let a = chars_of(s.as_str());
    let b = chars_of(w);
    chars_eq(&a, &b)
}

impl MetatubeMerge {
    /// The merge of a search for `query`, before any hit.
    pub fn new(query: &str) -> (m: Self)
        ensures
            m.view() == start(query@),
    {
        let m = MetatubeMerge {
            title: query.to_owned(),
            poster: None,
            year: None,
            rating: None,
            runtime: None,
            actors: Vec::new(),
            genres: Vec::new(),
            sources: Vec::new(),
        };
        assert(m.view().actors =~= Seq::<Seq<char>>::empty());
        assert(m.view().genres =~= Seq::<Seq<char>>::empty());
        assert(m.view().sources =~= Seq::<Seq<char>>::empty());
        m
    }

    /// Adds what one search hit knows.
    pub fn absorb_hit(&mut self, h: &MetatubeHit)
        requires
            hit_ok(old(self).view(), *h),
        ensures
            final(self).view() == after_hit(old(self).view(), *h),
    {
        broadcast use vstd::utf8::encode_utf8_valid_utf8;
        proof { reveal_strlit("-"); }
        let t = match &h.title { Some(t) => t.clone(), None => String::from_str("-") };
        if t.as_str().as_bytes().len() > self.title.as_str().as_bytes().len() {
            self.title = t;
        }
        if self.year.is_none() {
            match &h.release_date {
                Some(d) => {
                    let ds = d.as_str();
                    let head = crate::text::byte_slice(ds, 0, 4);
                    proof {
                        crate::text::lemma_slice_view(ds, head, 0, 4);
                        assert(encode_utf8(d@).subrange(0, 4) =~= encode_utf8(d@).take(4));
                    }
                    let hc = chars_of(head);
                    self.year = match parse_i32_exec(&hc) { Some(v) => Some(v), None => None };
                },
                None => {},
            }
        }
        if self.rating.is_none() {
            self.rating = h.score;
        }
        if self.poster.is_none() {
            self.poster = match &h.cover_url {
                Some(c) => Some(c.clone()),
                None => opt_clone(&h.thumb_url),
            };
        }
        add_new_exec(&mut self.actors, &h.actors);
    }

    fn absorb_info(&mut self, info: &MetatubeInfo, reliable: bool) -> (added: bool)
        ensures
            final(self).view() == absorb_info(old(self).view(), *info, reliable),
            added == contributed(old(self).view(), *info, reliable),
    {
        let ghost m = self.view();
        let raw: i64 = match info.runtime {
            Some(r) => r,
            None => match info.duration { Some(r) => r, None => 0 },
        };
        let rt = normalize_runtime(raw);
        let best: i64 = match self.runtime { Some(r) => r as i64, None => 0 };
        let took_runtime = reliable && 30 <= rt && rt <= 300 && rt > best;
        if took_runtime {
            self.runtime = Some(rt as i32);
        }
        let new_actors = add_new_exec(&mut self.actors, &info.actors);
        let new_genres = add_new_exec(&mut self.genres, &info.genres);
        let replaceable = match &self.poster { Some(p) => chars_has(p, "thumb"), None => true };
        let mut took_cover = false;
        if replaceable {
            match &info.big_cover_url {
                Some(b) => {
                    if !b.as_str().is_empty() {
                        self.poster = Some(b.clone());
                        took_cover = true;
                    }
                },
                None => match &info.cover_url {
                    Some(c) => {
                        if !c.as_str().is_empty() {
                            self.poster = Some(c.clone());
                            took_cover = true;
                        }
                    },
                    None => {},
                },
            }
        }
        let took_rating = self.rating.is_none() && info.score.is_some();
        if self.rating.is_none() {
            self.rating = info.score;
        }
        took_runtime || new_actors || new_genres || took_cover || took_rating
    }

    /// Adds what the detail page of a hit's provider knows; records the provider as a
    /// source when it added anything.
    pub fn absorb_detail(&mut self, provider: &String, info: &MetatubeInfo)
        ensures
            final(self).view() == after_detail(old(self).view(), provider@, *info),
    {
        let reliable = eq_lit(provider, "FANZA") || eq_lit(provider, "JavBus") || eq_lit(provider, "JAV321");
        let added = self.absorb_info(info, reliable);
        if added {
            let ghost before = strs(self.sources@);
            self.sources.push(provider.clone());
            assert(strs(self.sources@) =~= before.push(provider@));
        }
    }

    /// Adds what a fallback provider's page knows, and records the provider.
    pub fn absorb_fallback(&mut self, provider: &String, info: &MetatubeInfo)
        ensures
            final(self).view() == after_fallback(old(self).view(), provider@, *info),
    {
        self.absorb_info(info, true);
        let ghost before = strs(self.sources@);
        self.sources.push(provider.clone());
        assert(strs(self.sources@) =~= before.push(provider@));
    }
}

/// A runtime in minutes: values above 1000 are taken as seconds; at most 600.
pub fn normalize_runtime(raw: i64) -> (r: i64)
    ensures
        r == normalized(raw as int),
{
    let m = if raw > 1000 { raw / 60 } else { raw };
    if m > 600 { 600 } else { m }
}

/// The merge found something: a title other than the query, an actor, or a cover.
pub open spec fn found_data(m: MergeView, query: Seq<char>) -> bool {
    !(m.title == query && m.actors.len() == 0 && m.poster is None)
}

/// The genres that are not blacklisted, in order.
pub open spec fn kept_genres(genres: Seq<Seq<char>>, blacklist: Seq<Seq<char>>) -> Seq<Seq<char>> {
    genres.filter(|g: Seq<char>| !blacklist.contains(g))
}

/// Filtering a list without duplicates leaves none.
proof fn lemma_filter_no_dups(s: Seq<Seq<char>>, p: spec_fn(Seq<char>) -> bool)
    requires
        no_dups(s),
    ensures
        no_dups(s.filter(p)),
    decreases s.len(),
{
    reveal(Seq::filter);
    if s.len() > 0 {
        let d = s.drop_last();
        let x = s.last();
        assert(no_dups(d));
        lemma_filter_no_dups(d, p);
        if p(x) {
            assert forall|e: Seq<char>| d.filter(p).contains(e) implies e != x by {
                d.lemma_filter_contains_rev(p, e);
                let k = choose|k: int| 0 <= k < d.len() && d[k] == e;
                assert(s[k] == e && s[s.len() - 1] == x);
            }
            let f = d.filter(p);
            assert forall|i: int, j: int| 0 <= i < j < f.push(x).len() implies f.push(x)[i] != f.push(x)[j] by {
                if j == f.len() {
                    assert(f.contains(f[i]));
                }
            }
        }
    }
}

/// A list as an answer field: absent when empty.
pub open spec fn list_field(o: Option<Vec<String>>, items: Seq<Seq<char>>) -> bool {
    if items.len() == 0 { o is None } else { o is Some && strs(o->0@) == items }
}

/// Whether a fallback provider is still to be asked: no recorded source mentions it.
pub open spec fn fallback_needed(m: MergeView, provider: Seq<char>) -> bool {
    !(exists|i: int| 0 <= i < m.sources.len() && contains(#[trigger] m.sources[i], provider))
}

/// The merge is sound: no actor or genre occurs twice, and a known runtime lies in
/// 30..=300 minutes.
pub open spec fn merge_wf(m: MergeView) -> bool {
    &&& no_dups(m.actors)
    &&& no_dups(m.genres)
    &&& (m.runtime matches Some(r) ==> 30 <= r <= 300)
}

/// Every step of a merge keeps it sound, and keeps the actors, genres and sources already
/// known, in place.
pub proof fn law_merge_steps(m: MergeView, h: MetatubeHit, provider: Seq<char>, info: MetatubeInfo)
    requires
        merge_wf(m),
    ensures
        merge_wf(after_hit(m, h)),
        merge_wf(after_detail(m, provider, info)),
        merge_wf(after_fallback(m, provider, info)),
        after_hit(m, h).actors.take(m.actors.len() as int) == m.actors,
        after_detail(m, provider, info).actors.take(m.actors.len() as int) == m.actors,
        after_detail(m, provider, info).genres.take(m.genres.len() as int) == m.genres,
        after_fallback(m, provider, info).sources == m.sources.push(provider),
{
    law_add_new(m.actors, strs(h.actors@));
    law_add_new(m.actors, strs(info.actors@));
    law_add_new(m.genres, strs(info.genres@));
}

/// The merge of a search for `query` starts sound.
pub proof fn law_merge_start(query: Seq<char>)
    ensures
        merge_wf(start(query)),
{
}

impl MetatubeMerge {
    /// Whether the merge found anything for `query`; if not, the scrape fails.
    pub fn has_data(&self, query: &str) -> (b: bool)
        ensures
            b == found_data(self.view(), query@),
    {
        let t = chars_of(self.title.as_str());
        let q = chars_of(query);
        !(chars_eq(&t, &q) && self.actors.len() == 0 && self.poster.is_none())
    }

    /// Whether a fallback provider is still to be asked.
    pub fn needs_fallback(&self, provider: &str) -> (b: bool)
        ensures
            b == fallback_needed(self.view(), provider@),
    {
        let p = chars_of(provider);
        let mut k: usize = 0;
        while k < self.sources.len()
            invariant
                k <= self.sources@.len(),
                p@ == provider@,
                forall|i: int| 0 <= i < k ==> !contains(#[trigger] strs(self.sources@)[i], provider@),
            decreases self.sources@.len() - k,
        {
            let s = chars_of(self.sources[k].as_str());
            if contains_exec(&s, &p) {
                assert(contains(strs(self.sources@)[k as int], provider@));
                assert(self.view().sources[k as int] == strs(self.sources@)[k as int]);
                assert(contains(self.view().sources[k as int], provider@));
                return false;
            }
            k += 1;
        }
        true
    }

    /// The answer of the merge: source `metatube(<sources joined by ",">)`, score 65, the
    /// genres that are not blacklisted; empty lists become absent fields.
    pub fn finish(self, blacklist: &Vec<String>) -> (r: crate::scrape::ScrapeResult)
        ensures
            r.source@ == "metatube("@ + crate::text::join(self.view().sources, ","@) + ")"@,
            r.title@ == self.view().title,
            r.year == self.view().year,
            opt_view(r.poster_url) == self.view().poster,
            r.backdrop_url is None,
            r.overview is None,
            r.rating == self.view().rating,
            r.runtime == self.view().runtime,
            r.director is None,
            list_field(r.genre, kept_genres(self.view().genres, strs(blacklist@))),
            list_field(r.actors, self.view().actors),
            r.score == 65,
            merge_wf(self.view()) ==> {
                &&& r.runtime matches Some(x) ==> 30 <= x <= 300
                &&& r.actors matches Some(a) ==> no_dups(strs(a@))
                &&& r.genre matches Some(g) ==> no_dups(strs(g@))
            },
    {
        let ghost m = self.view();
        let ghost bl = strs(blacklist@);
        let ghost keep = |g: Seq<char>| !bl.contains(g);
        proof {
            if merge_wf(m) {
                lemma_filter_no_dups(m.genres, keep);
            }
        }
        let mut parts: Vec<Vec<char>> = Vec::new();
        for k in 0..self.sources.len()
            invariant
                crate::text::char_seqs(parts@) == strs(self.sources@).take(k as int),
        {
            let ghost before = crate::text::char_seqs(parts@);
            parts.push(chars_of(self.sources[k].as_str()));
            assert(crate::text::char_seqs(parts@) =~= before.push(self.sources@[k as int]@));
            assert(strs(self.sources@).take(k + 1) =~= strs(self.sources@).take(k as int).push(self.sources@[k as int]@));
        }
        assert(strs(self.sources@).take(self.sources@.len() as int) =~= strs(self.sources@));
        let joined = crate::text::join_exec(&parts, &chars_of(","));
        let mut src = chars_of("metatube(");
        crate::text::extend_chars(&mut src, &joined);
        crate::text::extend_chars(&mut src, &chars_of(")"));

        let mut kept: Vec<String> = Vec::new();
        proof {
            reveal(Seq::filter);
            assert(strs(self.genres@).take(0).filter(keep) =~= Seq::<Seq<char>>::empty());
        }
        for k in 0..self.genres.len()
            invariant
                bl == strs(blacklist@),
                keep == (|g: Seq<char>| !bl.contains(g)),
                strs(kept@) == strs(self.genres@).take(k as int).filter(keep),
        {
            let g = chars_of(self.genres[k].as_str());
            let ghost gv = self.genres@[k as int]@;
            assert(strs(self.genres@).take(k + 1) =~= strs(self.genres@).take(k as int).push(gv));
            proof { strs(self.genres@).take(k as int).lemma_filter_push(gv, keep); }
            if !list_has(blacklist, &g) {
                let ghost before = strs(kept@);
                kept.push(self.genres[k].clone());
                assert(strs(kept@) =~= before.push(gv));
            }
        }
        assert(strs(self.genres@).take(self.genres@.len() as int) =~= strs(self.genres@));
        let genre = if kept.len() == 0 { None } else { Some(kept) };
        let actors = if self.actors.len() == 0 { None } else { Some(self.actors) };
        crate::scrape::ScrapeResult {
            source: string_of(&src),
            title: self.title,
            year: self.year,
            poster_url: self.poster,
            backdrop_url: None,
            overview: None,
            rating: self.rating,
            runtime: self.runtime,
            director: None,
            genre,
            actors,
            score: 65,
        }
    }
}

/// The providers asked directly after a search, in order, when no source so far
/// mentions them.
pub fn fallback_providers() -> (r: Vec<String>)
    ensures
        strs(r@) == seq!["FANZA"@, "JAV321"@, "MGS"@],
{
    let mut r: Vec<String> = Vec::new();
    r.push(String::from_str("FANZA"));
    r.push(String::from_str("JAV321"));
    r.push(String::from_str("MGS"));
    assert(strs(r@) =~= seq!["FANZA"@, "JAV321"@, "MGS"@]);
    r
}

/// The address of the local MetaTube service.
pub fn base_url() -> (r: String)
    ensures
        r@ == "http://127.0.0.1:9588"@,
{
    String::from_str("http://127.0.0.1:9588")
}

/// The search address for `query`.
pub fn search_url(base: &str, query: &str) -> (r: String)
    ensures
        r@ == base@ + "/v1/movies/search?q="@ + crate::url_encoding::encode_chars(query@) + "&fallback=true"@,
{
    let e = crate::url_encoding::encode(query);
    String::from_str(base).concat("/v1/movies/search?q=").concat(e.as_str()).concat("&fallback=true")
}

/// The address of a provider's page for a movie id.
pub fn detail_url(base: &str, provider: &str, id: &str) -> (r: String)
    ensures
        r@ == base@ + "/v1/movies/"@ + provider@ + "/"@ + id@,
{
    String::from_str(base).concat("/v1/movies/").concat(provider).concat("/").concat(id)
}

/// The movie code a fallback provider is asked for: the query trimmed, in lower case,
/// without `-`, `_` or spaces.
pub fn fallback_code(query: &str) -> (r: String)
    ensures
        r@ == crate::text::strip_separators(crate::text::str_lower(trim(query@))),
{
    let t = trim_exec(&chars_of(query));
    let ts = string_of(&t);
    let low = crate::text::lower_string(ts.as_str());
    string_of(&crate::text::strip_separators_exec(&chars_of(low.as_str())))
}

/// The pointer to field `field` of search hit `k`.
pub open spec fn hit_field(k: nat, field: Seq<char>) -> Seq<char> {
    item_pointer("/data"@, k) + "/"@ + field
}

/// Hit `k` of a search reply as read: its provider, id, title, release date, covers and
/// string actors, and the score the caller read for it.
pub open spec fn hit_read(body: Seq<char>, k: nat, score: Option<u64>, h: MetatubeHit) -> bool {
    &&& opt_view(h.provider) == json_text_of(body, hit_field(k, "provider"@))
    &&& opt_view(h.id) == json_text_of(body, hit_field(k, "id"@))
    &&& opt_view(h.title) == json_text_of(body, hit_field(k, "title"@))
    &&& opt_view(h.release_date) == json_text_of(body, hit_field(k, "release_date"@))
    &&& opt_view(h.cover_url) == json_text_of(body, hit_field(k, "cover_url"@))
    &&& opt_view(h.thumb_url) == json_text_of(body, hit_field(k, "thumb_url"@))
    &&& strs(h.actors@) == text_list_of(body, hit_field(k, "actors"@))
    &&& h.score == score
}

/// The score given for hit `k`: the `k`-th of `scores`, none past their end.
pub open spec fn score_at(scores: Seq<Option<u64>>, k: int) -> Option<u64> {
    if 0 <= k < scores.len() { scores[k] } else { None }
}

fn text_at(body: &str, prefix: &str, k: usize, field: &str) -> (r: Option<String>)
    ensures
        opt_view(r) == json_text_of(body@, item_pointer(prefix@, k as nat) + "/"@ + field@),
{
    let p = item_pointer_exec(prefix, k).concat("/").concat(field);
    json_text(body, p.as_str())
}

fn hit_of(body: &str, k: usize, score: Option<u64>) -> (h: MetatubeHit)
    ensures
        hit_read(body@, k as nat, score, h),
{
    let actors_ptr = item_pointer_exec("/data", k).concat("/").concat("actors");
    MetatubeHit {
        provider: text_at(body, "/data", k, "provider"),
        id: text_at(body, "/data", k, "id"),
        title: text_at(body, "/data", k, "title"),
        release_date: text_at(body, "/data", k, "release_date"),
        score,
        cover_url: text_at(body, "/data", k, "cover_url"),
        thumb_url: text_at(body, "/data", k, "thumb_url"),
        actors: text_list(body, actors_ptr.as_str()),
    }
}

/// The hits of a MetaTube search reply. A reply that is not JSON fails with
/// `MetaTube JSON: <error>`; one with an error message fails with `MetaTube: <message>`;
/// one without a data list fails with `MetaTube 返回格式异常`, and one with an empty list
/// with `MetaTube 无结果`. Otherwise each element of the list is a hit, with the score the
/// caller read for it from `scores`.
pub fn metatube_search_hits(body: &str, scores: &Vec<Option<u64>>) -> (r: Result<Vec<MetatubeHit>, CommandError>)
    ensures
        json_error_of(body@) matches Some(e) ==> (r matches Err(x) && x.code == SCRAPE_FAILED
            && x.message@ == "MetaTube JSON: "@ + e),
        json_error_of(body@) is None ==> (json_text_of(body@, "/error/message"@) matches Some(m) ==> (r matches Err(x)
            && x.code == SCRAPE_FAILED && x.message@ == "MetaTube: "@ + m)),
        json_error_of(body@) is None && json_text_of(body@, "/error/message"@) is None ==> ({
            match json_len_of(body@, "/data"@) {
                None => r matches Err(x) && x.code == SCRAPE_FAILED && x.message@ == "MetaTube 返回格式异常"@,
                Some(n) => if n == 0 {
                    r matches Err(x) && x.code == SCRAPE_FAILED && x.message@ == "MetaTube 无结果"@
                } else {
                    r matches Ok(hits) && hits@.len() == n
                        && forall|k: int| 0 <= k < n ==> #[trigger] hit_read(body@, k as nat, score_at(scores@, k), hits@[k])
                },
            }
        }),
{
    if let Some(e) = json_error(body) {
        let m = String::from_str("MetaTube JSON: ").concat(e.as_str());
        return Err(CommandError::scrape_failed(m.as_str()));
    }
    if let Some(msg) = json_text(body, "/error/message") {
        let m = String::from_str("MetaTube: ").concat(msg.as_str());
        return Err(CommandError::scrape_failed(m.as_str()));
    }
    let n = match json_len(body, "/data") {
        Some(n) => n,
        None => return Err(CommandError::scrape_failed("MetaTube 返回格式异常")),
    };
    if n == 0 {
        return Err(CommandError::scrape_failed("MetaTube 无结果"));
    }
    let mut hits: Vec<MetatubeHit> = Vec::new();
    for k in 0..n
        invariant
            hits@.len() == k,
            forall|j: int| 0 <= j < k ==> #[trigger] hit_read(body@, j as nat, score_at(scores@, j), hits@[j]),
    {
        let score = if k < scores.len() { scores[k] } else { None };
        hits.push(hit_of(body, k, score));
    }
    Ok(hits)
}

/// The provider and id whose detail page a hit leads to, when it names both (a hit
/// without a provider counts as `metatube`).
pub fn detail_target(h: &MetatubeHit) -> (r: Option<(String, String)>)
    ensures
        wants_detail(*h) ==> (r matches Some((p, i)) && p@ == hit_provider(*h) && Some(i@) == opt_view(h.id)),
        !wants_detail(*h) ==> r is None,
{
    let provider = match &h.provider { Some(p) => p.clone(), None => String::from_str("metatube") };
    proof { reveal_strlit("metatube"); }
    match &h.id {
        Some(i) => if provider.as_str().as_bytes().len() > 0 && i.as_str().as_bytes().len() > 0 {
            Some((provider, i.clone()))
        } else {
            None
        },
        None => None,
    }
}

/// A detail reply as read: its runtime, duration, string actors and genres and covers under
/// `data`, and the score the caller read from it.
pub open spec fn info_read(body: Seq<char>, score: Option<u64>, i: MetatubeInfo) -> bool {
    &&& i.runtime == json_int_of(body, "/data/runtime"@)
    &&& i.duration == json_int_of(body, "/data/duration"@)
    &&& strs(i.actors@) == text_list_of(body, "/data/actors"@)
    &&& strs(i.genres@) == text_list_of(body, "/data/genres"@)
    &&& opt_view(i.big_cover_url) == json_text_of(body, "/data/big_cover_url"@)
    &&& opt_view(i.cover_url) == json_text_of(body, "/data/cover_url"@)
    &&& i.score == score
}

/// A provider's detail reply, taken only when it is JSON with no error message.
pub fn metatube_detail(body: &str, score: Option<u64>) -> (r: Option<MetatubeInfo>)
    ensures
        (json_error_of(body@) is None && json_null_of(body@, "/error/message"@)) ==> (r matches Some(i)
            && info_read(body@, score, i)),
        !(json_error_of(body@) is None && json_null_of(body@, "/error/message"@)) ==> r is None,
{
    if json_error(body).is_some() || !json_null(body, "/error/message") {
        return None;
    }
    Some(MetatubeInfo {
        runtime: json_int(body, "/data/runtime"),
        duration: json_int(body, "/data/duration"),
        actors: text_list(body, "/data/actors"),
        genres: text_list(body, "/data/genres"),
        big_cover_url: json_text(body, "/data/big_cover_url"),
        cover_url: json_text(body, "/data/cover_url"),
        score,
    })
}

} // verus!
