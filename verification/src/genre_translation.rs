//! Translating a movie's genres: cached translations first, then one numbered batch
//! request for the rest, then one request per genre still missing; a genre that no one
//! translated keeps its original name. The requests and the cache are the caller's.

use vstd::prelude::*;
use vstd::string::StringExecFns;
use crate::text::{all_digits, chars_of, digits_value, find, find_exec, string_of, subrange_exec, trim, trim_exec};

verus! {

/// The view of a vector of strings.
pub open spec fn strs(v: Seq<String>) -> Seq<Seq<char>> {
    Seq::new(v.len(), |i: int| v[i]@)
}

/// The lines of a text, split at each `\n` (a text ending in `\n` has an empty last line).
pub open spec fn lines_of(t: Seq<char>) -> Seq<Seq<char>>
    decreases t.len(),
{
    if t.len() == 0 {
        seq![Seq::empty()]
    } else {
        let ls = lines_of(t.drop_last());
        if t.last() == '\n' {
            ls.push(Seq::empty())
        } else {
            ls.update(ls.len() - 1, ls.last().push(t.last()))
        }
    }
}

proof fn lemma_lines_nonempty(t: Seq<char>)
    ensures
        lines_of(t).len() >= 1,
    decreases t.len(),
{
    if t.len() > 0 {
        lemma_lines_nonempty(t.drop_last());
    }
}

/// The number a reply line is numbered with, when it is between 1 and `count`: its part
/// before the first `.`, trimmed, an optional `+` and then only ASCII digits.
pub open spec fn line_number(prefix: Seq<char>, count: int) -> Option<int> {
    let p = trim(prefix);
    let body = if p.len() > 0 && p[0] == '+' { p.drop_first() } else { p };
    if body.len() > 0 && all_digits(body) && 1 <= digits_value(body) <= count {
        Some(digits_value(body) as int)
    } else {
        None
    }
}

/// What a reply line assigns: its number and its text after the first `.`, trimmed, when
/// the line is trimmed, numbered between 1 and `count`, and the text is not empty.
pub open spec fn line_pair(line: Seq<char>, count: int) -> Option<(int, Seq<char>)> {
    let l = trim(line);
    match find(l, seq!['.']) {
        Some(d) => match line_number(l.take(d), count) {
            Some(num) => {
                let cn = trim(l.skip(d + 1));
                if cn.len() > 0 { Some((num, cn)) } else { None }
            },
            None => None,
        },
        None => None,
    }
}

/// The translations after the reply lines, in order: each numbered line sets the
/// translation of the `num`-th missing genre.
pub open spec fn apply_lines(tr: Seq<Seq<char>>, missing: Seq<int>, lines: Seq<Seq<char>>) -> Seq<Seq<char>>
    decreases lines.len(),
{
    if lines.len() == 0 {
        tr
    } else {
        let prev = apply_lines(tr, missing, lines.drop_last());
        match line_pair(lines.last(), missing.len() as int) {
            Some((num, cn)) => prev.update(missing[num - 1], cn),
            None => prev,
        }
    }
}

/// The pairs to cache after the reply lines, in order: each numbered line's original
/// genre and its translation.
pub open spec fn cached_pairs(genres: Seq<Seq<char>>, missing: Seq<int>, lines: Seq<Seq<char>>) -> Seq<(Seq<char>, Seq<char>)>
    decreases lines.len(),
{
    if lines.len() == 0 {
        Seq::empty()
    } else {
        let prev = cached_pairs(genres, missing, lines.drop_last());
        match line_pair(lines.last(), missing.len() as int) {
            Some((num, cn)) => prev.push((genres[missing[num - 1]], cn)),
            None => prev,
        }
    }
}

/// Indices as integers.
pub open spec fn idx_view(v: Seq<usize>) -> Seq<int> {
    Seq::new(v.len(), |i: int| v[i] as int)
}

/// A usable cached translation: present and not empty.
pub open spec fn cache_hit(c: Option<String>) -> bool {
    c matches Some(x) && x@.len() > 0
}

/// A genre translation in progress.
pub struct GenreBatch {
    pub genres: Vec<String>,
    pub translated: Vec<String>,
    pub missing: Vec<usize>,
}

impl GenreBatch {
    /// The indices of the missing genres, as integers.
    pub open spec fn missing_view(&self) -> Seq<int> {
        idx_view(self.missing@)
    }

    /// The translation is consistent: one translation per genre, every missing index is a
    /// genre's, and missing indices rise.
    pub open spec fn wf(&self) -> bool {
        &&& self.translated@.len() == self.genres@.len()
        &&& forall|i: int| 0 <= i < self.missing@.len() ==> #[trigger] self.missing@[i] < self.genres@.len()
        &&& forall|i: int, j: int| 0 <= i < j < self.missing@.len() ==> self.missing@[i] < self.missing@[j]
    }

    /// Starts from the cached translations (`cached[i]` for `genres[i]`): a non-empty one
    /// is used, any other genre is missing.
    pub fn start(genres: Vec<String>, cached: &Vec<Option<String>>) -> (t: Self)
        requires
            cached@.len() == genres@.len(),
        ensures
            t.wf(),
            strs(t.genres@) == strs(genres@),
            forall|i: int| 0 <= i < genres@.len() ==> #[trigger] t.translated@[i]@ == (match cached@[i] {
                Some(c) => if c@.len() > 0 { c@ } else { Seq::empty() },
                None => Seq::empty(),
            }),
            forall|i: int| 0 <= i < genres@.len() ==> (t.missing_view().contains(i) <==> !cache_hit(#[trigger] cached@[i])),
    {
        let mut translated: Vec<String> = Vec::new();
        let mut missing: Vec<usize> = Vec::new();
        let n = genres.len();
        for i in 0..n
            invariant
                n == genres@.len(),
                cached@.len() == n,
                translated@.len() == i,
                forall|k: int| 0 <= k < i ==> #[trigger] translated@[k]@ == (match cached@[k] {
                    Some(c) => if c@.len() > 0 { c@ } else { Seq::empty() },
                    None => Seq::empty(),
                }),
                forall|m: int| 0 <= m < missing@.len() ==> #[trigger] missing@[m] < i,
                forall|a: int, b: int| 0 <= a < b < missing@.len() ==> missing@[a] < missing@[b],
                forall|k: int| 0 <= k < i ==> (idx_view(missing@).contains(k) <==> !cache_hit(#[trigger] cached@[k])),
        {
            let ghost old_missing = missing@;
            let hit = match &cached[i] {
                Some(c) => if c.as_str().is_empty() { None } else { Some(c.clone()) },
                None => None,
            };
            match hit {
                Some(c) => translated.push(c),
                None => {
                    translated.push(String::new());
                    missing.push(i);
                },
            }
            proof {
                let mv = idx_view(missing@);
                let ov = idx_view(old_missing);
                assert forall|k: int| 0 <= k <= i implies (mv.contains(k) <==> !cache_hit(#[trigger] cached@[k])) by {
                    if k < i {
                        if ov.contains(k) {
                            let w = choose|w: int| 0 <= w < ov.len() && ov[w] == k;
                            assert(mv[w] == k);
                        }
                        if mv.contains(k) {
                            let w = choose|w: int| 0 <= w < mv.len() && mv[w] == k;
                            assert(w < old_missing.len());
                            assert(ov[w] == k);
                        }
                    } else {
                        if !cache_hit(cached@[k]) {
                            assert(mv[mv.len() - 1] == k);
                        } else if mv.contains(k) {
                            let w = choose|w: int| 0 <= w < mv.len() && mv[w] == k;
                            assert(w < old_missing.len());
                        }
                    }
                }
            }
        }
        GenreBatch { genres, translated, missing }
    }

    /// The lines of the batch request: `{n}.{genre}` for the `n`-th missing genre.
    pub open spec fn request_lines(&self) -> Seq<Seq<char>> {
        Seq::new(self.missing@.len(), |n: int| crate::text::decimal((n + 1) as nat) + "."@ + self.genres@[self.missing@[n] as int]@)
    }

    /// The batch request text: the numbered missing genres, one per line.
    pub fn request_text(&self) -> (r: String)
        requires
            self.wf(),
        ensures
            r@ == crate::text::join(self.request_lines(), "\n"@),
    {
        let mut parts: Vec<Vec<char>> = Vec::new();
        let m = self.missing.len();
        for n in 0..m
            invariant
                self.wf(),
                m == self.missing@.len(),
                crate::text::char_seqs(parts@) == self.request_lines().take(n as int),
        {
            let mut line = crate::text::decimal_chars((n + 1) as u64);
            line.push('.');
            crate::text::extend_chars(&mut line, &chars_of(self.genres[self.missing[n]].as_str()));
            proof { reveal_strlit("."); }
            assert(line@ =~= self.request_lines()[n as int]);
            let ghost before = crate::text::char_seqs(parts@);
            parts.push(line);
            assert(crate::text::char_seqs(parts@) =~= before.push(self.request_lines()[n as int]));
            assert(self.request_lines().take(n + 1) =~= self.request_lines().take(n as int).push(self.request_lines()[n as int]));
        }
        assert(self.request_lines().take(m as int) =~= self.request_lines());
        string_of(&crate::text::join_exec(&parts, &chars_of("\n")))
    }

    /// The batch prompt: the instruction, the numbered genres, and the expected format.
    pub fn request_prompt(&self) -> (r: String)
        requires
            self.wf(),
        ensures
            r@ == "将以下日本AV标签翻译成简体中文，严格按编号格式输出：\n"@ + crate::text::join(self.request_lines(), "\n"@)
                + "\n\n输出格式（每行一个）：\n1.中文\n2.中文\n..."@,
    {
        let t = self.request_text();
        String::from_str("将以下日本AV标签翻译成简体中文，严格按编号格式输出：\n").concat(t.as_str())
            .concat("\n\n输出格式（每行一个）：\n1.中文\n2.中文\n...")
    }
}

fn lines_exec(t: &Vec<char>) -> (r: Vec<Vec<char>>)
    ensures
        crate::text::char_seqs(r@) == lines_of(t@),
{
    let mut r: Vec<Vec<char>> = Vec::new();
    let mut cur: Vec<char> = Vec::new();
    let n = t.len();
    assert(t@.take(0) =~= Seq::<char>::empty());
    for k in 0..n
        invariant
            n == t@.len(),
            crate::text::char_seqs(r@).push(cur@) == lines_of(t@.take(k as int)),
    {
        let c = t[k];
        let ghost prev = t@.take(k as int);
        assert(t@.take(k + 1).drop_last() =~= prev);
        assert(t@.take(k + 1).last() == c);
        proof { lemma_lines_nonempty(prev); }
        if c == '\n' {
            let ghost before = crate::text::char_seqs(r@);
            let ghost cv = cur@;
            r.push(cur);
            cur = Vec::new();
            assert(crate::text::char_seqs(r@) =~= before.push(cv));
            assert(crate::text::char_seqs(r@).push(cur@) =~= before.push(cv).push(Seq::empty()));
        } else {
            let ghost before = crate::text::char_seqs(r@);
            let ghost cv = cur@;
            cur.push(c);
            assert(before.push(cv).update(before.len() as int, cv.push(c)) =~= before.push(cur@));
        }
    }
    assert(t@.take(n as int) =~= t@);
    let ghost before = crate::text::char_seqs(r@);
    let ghost cv = cur@;
    r.push(cur);
    assert(crate::text::char_seqs(r@) =~= before.push(cv));
    r
}

#[verifier::loop_isolation(false)]
fn line_number_exec(prefix: &Vec<char>, count: usize) -> (r: Option<usize>)
    ensures
        (match r { Some(v) => Some(v as int), None => None }) == line_number(prefix@, count as int),
{
    let p = trim_exec(prefix);
    let start: usize = if p.len() > 0 && p[0] == '+' { 1 } else { 0 };
    let n = p.len();
    let ghost body = if p@.len() > 0 && p@[0] == '+' { p@.drop_first() } else { p@ };
    assert(body =~= p@.skip(start as int));
    if start >= n {
        return None;
    }
    let mut v: u128 = 0;
    let mut k: usize = start;
    while k < n
        invariant
            n == p@.len(),
            start <= k <= n,
            start < n,
            body == p@.skip(start as int),
            forall|i: int| 0 <= i < k - start ==> crate::text::is_digit(#[trigger] body[i]),
            v == digits_value(body.take(k - start)),
            v <= count,
        decreases n - k,
    {
        let c = p[k];
        if !('0' <= c && c <= '9') {
            assert(body[k - start] == c);
            assert(!all_digits(body));
            return None;
        }
        let d = (c as u32 - '0' as u32) as u128;
        assert(body.take(k - start + 1).drop_last() =~= body.take(k - start));
        let nv = v * 10 + d;
        k += 1;
        if nv > count as u128 {
            proof {
                if all_digits(body) {
                    assert(body.take(k - start).last() == c);
                    crate::text::lemma_digits_value_grows(body, k - start);
                }
            }
            return None;
        }
        v = nv;
    }
    assert(body.take(n - start) =~= body);
    if v == 0 {
        return None;
    }
    Some(v as usize)
}

fn line_pair_exec(line: &Vec<char>, count: usize) -> (r: Option<(usize, Vec<char>)>)
    ensures
        (match r { Some((num, cn)) => Some((num as int, cn@)), None => None }) == line_pair(line@, count as int),
{
    let l = trim_exec(line);
    let ln = l.len();
    let dot: Vec<char> = vec!['.'];
    assert(dot@ =~= seq!['.']);
    proof { crate::text::lemma_find(l@, dot@); }
    match find_exec(&l, &dot) {
        Some(d) => {
            let head = subrange_exec(&l, 0, d);
            assert(head@ =~= l@.take(d as int));
            match line_number_exec(&head, count) {
                Some(num) => {
                    assert(d < ln);
                    let tail = subrange_exec(&l, d + 1, ln);
                    assert(tail@ =~= l@.skip(d + 1));
                    let cn = trim_exec(&tail);
                    if cn.len() > 0 { Some((num, cn)) } else { None }
                },
                None => None,
            }
        },
        None => None,
    }
}

/// The view of cached pairs.
pub open spec fn pair_views(v: Seq<(String, String)>) -> Seq<(Seq<char>, Seq<char>)> {
    Seq::new(v.len(), |i: int| (v[i].0@, v[i].1@))
}

impl GenreBatch {
    /// Takes the batch reply: each line `{n}.{translation}` sets the translation of the
    /// `n`-th missing genre. Gives the pairs to cache, in order.
    pub fn apply_batch_reply(&mut self, reply: &str) -> (pairs: Vec<(String, String)>)
        requires
            old(self).wf(),
        ensures
            final(self).wf(),
            final(self).genres@ == old(self).genres@,
            final(self).missing@ == old(self).missing@,
            strs(final(self).translated@) == apply_lines(strs(old(self).translated@), old(self).missing_view(), lines_of(reply@)),
            pair_views(pairs@) == cached_pairs(strs(old(self).genres@), old(self).missing_view(), lines_of(reply@)),
    {
        let lines = lines_exec(&chars_of(reply));
        let ghost ls = lines_of(reply@);
        let ghost tr0 = strs(self.translated@);
        let ghost mv = self.missing_view();
        let ghost gs = strs(self.genres@);
        let count = self.missing.len();
        let mut pairs: Vec<(String, String)> = Vec::new();
        let n = lines.len();
        for k in 0..n
            invariant
                n == lines@.len(),
                crate::text::char_seqs(lines@) == ls,
                self.wf(),
                self.genres@ == old(self).genres@,
                self.missing@ == old(self).missing@,
                count == self.missing@.len(),
                mv == self.missing_view(),
                gs == strs(self.genres@),
                strs(self.translated@) == apply_lines(tr0, mv, ls.take(k as int)),
                pair_views(pairs@) == cached_pairs(gs, mv, ls.take(k as int)),
        {
            assert(ls.take(k + 1).drop_last() =~= ls.take(k as int));
            assert(ls.take(k + 1).last() == lines@[k as int]@);
            match line_pair_exec(&lines[k], count) {
                Some((num, cn)) => {
                    let idx = self.missing[num - 1];
                    let ja = self.genres[idx].clone();
                    let cs = string_of(&cn);
                    let ghost before = strs(self.translated@);
                    let ghost pbefore = pair_views(pairs@);
                    self.translated.set(idx, cs.clone());
                    assert(strs(self.translated@) =~= before.update(idx as int, cn@));
                    pairs.push((ja, cs));
                    assert(pair_views(pairs@) =~= pbefore.push((gs[mv[num - 1]], cn@)));
                },
                None => {},
            }
        }
        assert(ls.take(n as int) =~= ls);
        pairs
    }

    /// The positions among the missing genres whose translation is still empty, in order.
    pub fn still_missing(&self) -> (r: Vec<usize>)
        requires
            self.wf(),
        ensures
            forall|k: int| 0 <= k < r@.len() ==> #[trigger] r@[k] < self.missing@.len(),
            forall|p: int| 0 <= p < self.missing@.len() ==>
                (idx_view(r@).contains(p) <==> self.translated@[self.missing@[p] as int]@.len() == 0),
    {
        let mut r: Vec<usize> = Vec::new();
        let m = self.missing.len();
        for p in 0..m
            invariant
                self.wf(),
                m == self.missing@.len(),
                forall|k: int| 0 <= k < r@.len() ==> #[trigger] r@[k] < p,
                forall|q: int| 0 <= q < p ==>
                    (idx_view(r@).contains(q) <==> self.translated@[self.missing@[q] as int]@.len() == 0),
        {
            let ghost old_r = r@;
            if self.translated[self.missing[p]].as_str().is_empty() {
                r.push(p);
            }
            proof {
                assert forall|q: int| 0 <= q <= p implies
                    (idx_view(r@).contains(q) <==> self.translated@[self.missing@[q] as int]@.len() == 0) by {
                    if idx_view(old_r).contains(q) {
                        let w = choose|w: int| 0 <= w < idx_view(old_r).len() && idx_view(old_r)[w] == q;
                        assert(idx_view(r@)[w] == q);
                    }
                    if idx_view(r@).contains(q) {
                        let w = choose|w: int| 0 <= w < idx_view(r@).len() && idx_view(r@)[w] == q;
                        if w < old_r.len() {
                            assert(idx_view(old_r)[w] == q);
                        }
                    }
                    if q == p && self.translated@[self.missing@[q] as int]@.len() == 0 {
                        assert(idx_view(r@)[r@.len() - 1] == q);
                    }
                }
            }
        }
        r
    }

    /// Takes the single reply for the `p`-th missing genre: a reply that, trimmed, is
    /// neither empty nor the original name becomes its translation. Gives the pair to
    /// cache, if any.
    pub fn apply_single_reply(&mut self, p: usize, reply: Option<String>) -> (pair: Option<(String, String)>)
        requires
            old(self).wf(),
            p < old(self).missing@.len(),
        ensures
            final(self).wf(),
            final(self).genres@ == old(self).genres@,
            final(self).missing@ == old(self).missing@,
            ({
                let idx = old(self).missing@[p as int] as int;
                let ja = old(self).genres@[idx]@;
                let accepted = reply matches Some(t) && trim(t@).len() > 0 && trim(t@) != ja;
                &&& accepted ==> strs(final(self).translated@) == strs(old(self).translated@).update(idx, trim(reply->0@))
                &&& accepted ==> (pair matches Some(pr) && pr.0@ == ja && pr.1@ == trim(reply->0@))
                &&& !accepted ==> strs(final(self).translated@) == strs(old(self).translated@) && pair is None
            }),
    {
        let idx = self.missing[p];
        match reply {
            Some(t) => {
                let cn = trim_exec(&chars_of(t.as_str()));
                let ja = chars_of(self.genres[idx].as_str());
                if cn.len() > 0 && !crate::text::chars_eq(&cn, &ja) {
                    let cs = string_of(&cn);
                    let ghost before = strs(self.translated@);
                    self.translated.set(idx, cs.clone());
                    assert(strs(self.translated@) =~= before.update(idx as int, cn@));
                    Some((self.genres[idx].clone(), cs))
                } else {
                    None
                }
            },
            None => None,
        }
    }

    /// The final genres: each translation, or the original name where none was found.
    pub fn finish(self) -> (r: Vec<String>)
        requires
            self.wf(),
        ensures
            r@.len() == self.genres@.len(),
            forall|i: int| 0 <= i < r@.len() ==> #[trigger] r@[i]@ == (if self.translated@[i]@.len() == 0 {
                self.genres@[i]@
            } else {
                self.translated@[i]@
            }),
    {
        let mut r: Vec<String> = Vec::new();
        let n = self.genres.len();
        for i in 0..n
            invariant
                self.wf(),
                n == self.genres@.len(),
                r@.len() == i,
                forall|k: int| 0 <= k < i ==> #[trigger] r@[k]@ == (if self.translated@[k]@.len() == 0 {
                    self.genres@[k]@
                } else {
                    self.translated@[k]@
                }),
        {
            if self.translated[i].as_str().is_empty() {
                r.push(self.genres[i].clone());
            } else {
                r.push(self.translated[i].clone());
            }
        }
        r
    }
}

} // verus!
