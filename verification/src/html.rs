//! Reading HTML pages: the `scraper` crate parses a page and selects its elements; the
//! library reads the texts and attributes of the matches.

use vstd::prelude::*;
use vstd::utf8::encode_utf8;
use crate::text::{chars_of, contains, contains_exec, string_of, trim, trim_exec};

verus! {

/// The text of each element of the HTML page `html` that CSS `selector` matches, in
/// document order (no element when the selector does not parse).
pub uninterp spec fn html_texts(html: Seq<char>, selector: Seq<char>) -> Seq<Seq<char>>;

/// The value of attribute `attr` of each element of `html` that `selector` matches, in
/// document order (no element when the selector does not parse).
pub uninterp spec fn html_attrs(html: Seq<char>, selector: Seq<char>, attr: Seq<char>) -> Seq<Option<Seq<char>>>;

/// The view of a vector of strings.
pub open spec fn strs(v: Seq<String>) -> Seq<Seq<char>> {
    Seq::new(v.len(), |i: int| v[i]@)
}

/// The view of a vector of optional strings.
pub open spec fn opt_strs(v: Seq<Option<String>>) -> Seq<Option<Seq<char>>> {
    Seq::new(v.len(), |i: int| match v[i] { Some(s) => Some(s@), None => None })
}

/// The view of an optional string.
pub open spec fn ov(o: Option<String>) -> Option<Seq<char>> {
    match o {
        Some(s) => Some(s@),
        None => None,
    }
}

/// scraper's `Html::parse_document`, `Selector::parse` and `select`, with each match's
/// text nodes joined. The contract names the texts `html_texts`.
#[verifier::external_body]
pub(crate) fn select_texts(html: &str, selector: &str) -> (r: Vec<String>)
    ensures
        strs(r@) == html_texts(html@, selector@),
{
    let doc = scraper::Html::parse_document(html);
    let mut r = Vec::new();
    if let Ok(sel) = scraper::Selector::parse(selector) {
        for e in doc.select(&sel) {
            r.push(e.text().collect::<String>());
        }
    }
    r
}

/// scraper's `Html::parse_document`, `Selector::parse` and `select`, with each match's
/// attribute `attr`. The contract names the values `html_attrs` and claims, as the source
/// shows, that they come from the same matches as `select_texts`, one per match.
#[verifier::external_body]
pub(crate) fn select_attrs(html: &str, selector: &str, attr: &str) -> (r: Vec<Option<String>>)
    ensures
        opt_strs(r@) == html_attrs(html@, selector@, attr@),
        r@.len() == html_texts(html@, selector@).len(),
{
    let doc = scraper::Html::parse_document(html);
    let mut r = Vec::new();
    if let Ok(sel) = scraper::Selector::parse(selector) {
        for e in doc.select(&sel) {
            r.push(e.value().attr(attr).map(|s| s.to_string()));
        }
    }
    r
}

/// The number of bytes of the UTF-8 encoding of `s`.
pub open spec fn byte_len(s: Seq<char>) -> int {
    encode_utf8(s).len() as int
}

/// The first match's text, trimmed.
pub open spec fn first_text(html: Seq<char>, sel: Seq<char>) -> Option<Seq<char>> {
    if html_texts(html, sel).len() > 0 { Some(trim(html_texts(html, sel)[0])) } else { None }
}

/// The first match's text, trimmed, if any element matches.
pub fn first_text_of(html: &str, sel: &str) -> (r: Option<String>)
    ensures
        ov(r) == first_text(html@, sel@),
{
    let t = select_texts(html, sel);
    if t.len() > 0 {
        assert(t@[0]@ == html_texts(html@, sel@)[0]);
        Some(string_of(&trim_exec(&chars_of(t[0].as_str()))))
    } else {
        None
    }
}

/// The first match's attribute, if an element matches and has it.
pub open spec fn first_attr(html: Seq<char>, sel: Seq<char>, attr: Seq<char>) -> Option<Seq<char>> {
    if html_attrs(html, sel, attr).len() > 0 { html_attrs(html, sel, attr)[0] } else { None }
}

/// The first match's attribute.
pub fn first_attr_of(html: &str, sel: &str, attr: &str) -> (r: Option<String>)
    ensures
        ov(r) == first_attr(html@, sel@, attr@),
{
    let a = select_attrs(html, sel, attr);
    if a.len() > 0 {
        assert(opt_strs(a@)[0] == html_attrs(html@, sel@, attr@)[0]);
        match &a[0] {
            Some(x) => Some(x.clone()),
            None => None,
        }
    } else {
        None
    }
}

/// The texts of a list, each trimmed.
pub open spec fn trimmed(texts: Seq<Seq<char>>) -> Seq<Seq<char>> {
    Seq::new(texts.len(), |i: int| trim(texts[i]))
}

/// The non-empty trimmed texts of the matches, in order.
pub open spec fn nonempty_texts(html: Seq<char>, sel: Seq<char>) -> Seq<Seq<char>> {
    trimmed(html_texts(html, sel)).filter(|t: Seq<char>| t.len() > 0)
}

/// The non-empty trimmed texts of the matches.
#[verifier::loop_isolation(false)]
pub fn nonempty_texts_of(html: &str, sel: &str) -> (r: Vec<String>)
    ensures
        strs(r@) == nonempty_texts(html@, sel@),
{
    let t = select_texts(html, sel);
    let ghost all = trimmed(html_texts(html@, sel@));
    let ghost keep = |x: Seq<char>| x.len() > 0;
    let mut r: Vec<String> = Vec::new();
    proof {
        reveal(Seq::filter);
        assert(all.take(0).filter(keep) =~= Seq::<Seq<char>>::empty());
    }
    for k in 0..t.len()
        invariant
            strs(r@) == all.take(k as int).filter(keep),
    {
        let x = trim_exec(&chars_of(t[k].as_str()));
        assert(x@ == all[k as int]);
        assert(all.take(k + 1) =~= all.take(k as int).push(x@));
        proof { all.take(k as int).lemma_filter_push(x@, keep); }
        if x.len() > 0 {
            let ghost before = strs(r@);
            r.push(string_of(&x));
            assert(strs(r@) =~= before.push(x@));
        }
    }
    assert(all.take(t@.len() as int) =~= all);
    r
}

/// `s` contains one of the needles.
pub open spec fn contains_any(s: Seq<char>, needles: Seq<Seq<char>>) -> bool {
    exists|k: int| 0 <= k < needles.len() && contains(s, #[trigger] needles[k])
}

/// The views of a list of literal texts.
pub open spec fn lits(v: Seq<&str>) -> Seq<Seq<char>> {
    Seq::new(v.len(), |i: int| v[i]@)
}

pub(crate) fn contains_any_exec(s: &Vec<char>, needles: &Vec<&str>) -> (b: bool)
    ensures
        b == contains_any(s@, lits(needles@)),
{
    let mut k: usize = 0;
    while k < needles.len()
        invariant
            k <= needles@.len(),
            forall|j: int| 0 <= j < k ==> !contains(s@, #[trigger] lits(needles@)[j]),
        decreases needles@.len() - k,
    {
        if contains_exec(s, &chars_of(needles[k])) {
            assert(contains(s@, lits(needles@)[k as int]));
            return true;
        }
        k += 1;
    }
    false
}

/// The first present attribute that contains one of the needles.
pub open spec fn first_with(attrs: Seq<Option<Seq<char>>>, needles: Seq<Seq<char>>) -> Option<Seq<char>>
    decreases attrs.len(),
{
    if attrs.len() == 0 {
        None
    } else {
        match attrs[0] {
            Some(a) => if contains_any(a, needles) { Some(a) } else { first_with(attrs.drop_first(), needles) },
            None => first_with(attrs.drop_first(), needles),
        }
    }
}

/// The first match's attribute that contains one of the needles.
pub fn first_attr_with(html: &str, sel: &str, attr: &str, needles: &Vec<&str>) -> (r: Option<String>)
    ensures
        ov(r) == first_with(html_attrs(html@, sel@, attr@), lits(needles@)),
{
    let a = select_attrs(html, sel, attr);
    let ghost all = html_attrs(html@, sel@, attr@);
    let n = a.len();
    let mut k: usize = 0;
    assert(all.skip(0) =~= all);
    while k < n
        invariant
            n == a@.len(),
            opt_strs(a@) == all,
            all == html_attrs(html@, sel@, attr@),
            k <= n,
            first_with(all, lits(needles@)) == first_with(all.skip(k as int), lits(needles@)),
        decreases n - k,
    {
        assert(all.skip(k as int).drop_first() =~= all.skip(k + 1));
        match &a[k] {
            Some(x) => {
                assert(all.skip(k as int)[0] == Some(x@));
                if contains_any_exec(&chars_of(x.as_str()), needles) {
                    return Some(x.clone());
                }
            },
            None => {
                assert(all.skip(k as int)[0] is None);
            },
        }
        k += 1;
    }
    assert(all.skip(n as int).len() == 0);
    None
}

/// The trimmed non-empty texts of the links whose address contains one of the needles, in
/// order (a link without an address counts as having an empty one).
pub open spec fn linked_names(texts: Seq<Seq<char>>, hrefs: Seq<Option<Seq<char>>>, needles: Seq<Seq<char>>) -> Seq<Seq<char>>
    decreases texts.len(),
{
    if texts.len() == 0 || hrefs.len() < texts.len() {
        Seq::empty()
    } else {
        let prev = linked_names(texts.drop_last(), hrefs.take(texts.len() - 1), needles);
        let h = match hrefs[texts.len() - 1] { Some(x) => x, None => Seq::empty() };
        let t = trim(texts.last());
        if contains_any(h, needles) && t.len() > 0 { prev.push(t) } else { prev }
    }
}

/// The names of the page's links whose address contains one of the needles.
pub fn linked_names_of(html: &str, needles: &Vec<&str>) -> (r: Vec<String>)
    ensures
        strs(r@) == linked_names(html_texts(html@, "a"@), html_attrs(html@, "a"@, "href"@), lits(needles@)),
{
    let texts = select_texts(html, "a");
    let hrefs = select_attrs(html, "a", "href");
    let ghost ts = html_texts(html@, "a"@);
    let ghost hs = html_attrs(html@, "a"@, "href"@);
    let n = texts.len();
    let mut r: Vec<String> = Vec::new();
    for k in 0..n
        invariant
            n == texts@.len(),
            n == hrefs@.len(),
            strs(texts@) == ts,
            opt_strs(hrefs@) == hs,
            strs(r@) == linked_names(ts.take(k as int), hs.take(k as int), lits(needles@)),
    {
        let ghost tk = ts.take(k + 1);
        let ghost hk = hs.take(k + 1);
        assert(tk.drop_last() =~= ts.take(k as int));
        assert(hk.take(k as int) =~= hs.take(k as int));
        assert(tk.last() == texts@[k as int]@);
        let h: Vec<char> = match &hrefs[k] {
            Some(x) => {
                assert(hk[k as int] == Some(x@));
                chars_of(x.as_str())
            },
            None => {
                assert(hk[k as int] is None);
                Vec::new()
            },
        };
        let t = trim_exec(&chars_of(texts[k].as_str()));
        if contains_any_exec(&h, needles) && t.len() > 0 {
            let ghost before = strs(r@);
            r.push(string_of(&t));
            assert(strs(r@) =~= before.push(t@));
        }
    }
    assert(ts.take(n as int) =~= ts);
    assert(hs.take(n as int) =~= hs);
    r
}

/// The first match's trimmed text longer than `min` bytes.
pub open spec fn first_longer(texts: Seq<Seq<char>>, min: int) -> Option<Seq<char>>
    decreases texts.len(),
{
    if texts.len() == 0 {
        None
    } else if byte_len(trim(texts[0])) > min {
        Some(trim(texts[0]))
    } else {
        first_longer(texts.drop_first(), min)
    }
}

/// The first match's trimmed text longer than `min` bytes.
pub fn first_longer_of(html: &str, sel: &str, min: usize) -> (r: Option<String>)
    ensures
        ov(r) == first_longer(html_texts(html@, sel@), min as int),
{
    let t = select_texts(html, sel);
    let ghost all = html_texts(html@, sel@);
    let n = t.len();
    let mut k: usize = 0;
    assert(all.skip(0) =~= all);
    while k < n
        invariant
            n == t@.len(),
            strs(t@) == all,
            all == html_texts(html@, sel@),
            k <= n,
            first_longer(all, min as int) == first_longer(all.skip(k as int), min as int),
        decreases n - k,
    {
        assert(all.skip(k as int).drop_first() =~= all.skip(k + 1));
        assert(all.skip(k as int)[0] == t@[k as int]@);
        let x = string_of(&trim_exec(&chars_of(t[k].as_str())));
        if x.as_str().as_bytes().len() > min {
            return Some(x);
        }
        k += 1;
    }
    assert(all.skip(n as int).len() == 0);
    None
}

} // verus!
