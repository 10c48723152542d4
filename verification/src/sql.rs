//! The SQL text and bound arguments of the library's filtered, paged listings and of the
//! statements on single actors. The caller runs them against the database.

use vstd::prelude::*;
use vstd::string::StringExecFns;
use crate::text::{chars_of, char_seqs, decimal, decimal_chars, extend_chars, join, join_exec, signed_decimal, signed_decimal_chars, string_of};

verus! {

/// A value bound to a `?N` placeholder, as the statements see it.
pub enum ArgSpec {
    Int(int),
    Text(Seq<char>),
}

/// A value bound to a `?N` placeholder.
pub enum SqlArg {
    Int(i64),
    Text(String),
}

impl SqlArg {
    /// The value this argument binds.
    pub open spec fn spec(&self) -> ArgSpec {
        match self {
            SqlArg::Int(i) => ArgSpec::Int(*i as int),
            SqlArg::Text(s) => ArgSpec::Text(s@),
        }
    }
}

/// The values a list of arguments binds, in order.
pub open spec fn arg_specs(v: Seq<SqlArg>) -> Seq<ArgSpec> {
    Seq::new(v.len(), |i: int| v[i].spec())
}

/// A statement and the arguments bound to its placeholders `?1`, `?2`, ...
pub struct Statement {
    pub sql: String,
    pub args: Vec<SqlArg>,
}

/// A paged listing: the statement that counts all matching rows, and the one that
/// fetches one page of them.
pub struct PagedQuery {
    pub count: Statement,
    pub page: Statement,
}

/// A filter with one bound argument: its text is `prefix`, the placeholder, `suffix`.
pub struct FilterSpec {
    pub prefix: Seq<char>,
    pub suffix: Seq<char>,
    pub arg: ArgSpec,
}

/// The text of a filter whose argument is the `n`-th one.
pub open spec fn numbered_clause(f: FilterSpec, n: nat) -> Seq<char> {
    f.prefix + "?"@ + decimal(n) + f.suffix
}

/// The texts of the filters, numbered from 1 in order.
pub open spec fn numbered(fs: Seq<FilterSpec>) -> Seq<Seq<char>> {
    Seq::new(fs.len(), |i: int| numbered_clause(fs[i], (i + 1) as nat))
}

/// The arguments of the filters, in order.
pub open spec fn filter_args(fs: Seq<FilterSpec>) -> Seq<ArgSpec> {
    Seq::new(fs.len(), |i: int| fs[i].arg)
}

/// A text that is present and not empty.
pub open spec fn nonempty(o: Option<Seq<char>>) -> bool {
    o is Some && o->0.len() > 0
}

/// `[f]` when `cond`, else nothing.
pub open spec fn when(cond: bool, f: FilterSpec) -> Seq<FilterSpec> {
    if cond { seq![f] } else { Seq::empty() }
}

/// The argument filters of the movie listing, in the order they are numbered: title
/// keyword, year, genre, group, hidden flag.
pub open spec fn movie_filters(keyword: Option<Seq<char>>, year: Option<i32>, genre: Option<Seq<char>>, group_id: Option<i64>, is_hidden: Option<bool>) -> Seq<FilterSpec> {
    when(nonempty(keyword), FilterSpec { prefix: "title LIKE "@, suffix: Seq::empty(), arg: ArgSpec::Text("%"@ + keyword->0 + "%"@) })
    + when(year is Some, FilterSpec { prefix: "year = "@, suffix: Seq::empty(), arg: ArgSpec::Int(year->0 as int) })
    + when(nonempty(genre), FilterSpec { prefix: "genre LIKE "@, suffix: Seq::empty(), arg: ArgSpec::Text("%\""@ + genre->0 + "\"%"@) })
    + when(group_id is Some, FilterSpec { prefix: "m.file_id IN (SELECT movie_id FROM movie_groups WHERE group_id = "@, suffix: ")"@, arg: ArgSpec::Int(group_id->0 as int) })
    + when(is_hidden is Some, FilterSpec { prefix: "m.is_hidden = "@, suffix: Seq::empty(), arg: ArgSpec::Int(if is_hidden->0 { 1int } else { 0int }) })
}

/// The condition that keeps favourites only.
pub open spec fn favorites_clause() -> Seq<char> {
    "m.file_id IN (SELECT movie_id FROM movie_groups mg JOIN groups g ON mg.group_id = g.id WHERE g.type = 'favorite')"@
}

/// The conditions of the movie listing, joined by `AND`: `1=1`, the favourites condition
/// when asked for, the numbered filters, and `m.is_hidden = 0` when the hidden flag is not
/// given.
pub open spec fn movie_where(keyword: Option<Seq<char>>, year: Option<i32>, genre: Option<Seq<char>>, group_id: Option<i64>, is_hidden: Option<bool>, favorites_only: Option<bool>) -> Seq<char> {
    let fixed = if favorites_only == Some(true) { seq!["1=1"@, favorites_clause()] } else { seq!["1=1"@] };
    let tail = if is_hidden is None { seq!["m.is_hidden = 0"@] } else { Seq::empty() };
    join(fixed + numbered(movie_filters(keyword, year, genre, group_id, is_hidden)) + tail, " AND "@)
}

/// The sort order of the movie listing for a sort key.
pub open spec fn movie_order(sort: Seq<char>) -> Seq<char> {
    if sort == "year_desc"@ {
        "year DESC"@
    } else if sort == "year_asc"@ {
        "year ASC"@
    } else if sort == "title_asc"@ {
        "title ASC"@
    } else if sort == "rating_desc"@ {
        "rating DESC"@
    } else {
        "updated_at DESC"@
    }
}

/// The head of the movie page statement, up to its conditions.
pub open spec fn movie_page_head() -> Seq<char> {
    "SELECT m.file_id, m.title, m.year, m.poster_local, m.rating, m.genre, m.is_hidden,\n                COALESCE(p.progress, 0), COALESCE(p.duration, 0)\n         FROM movies m\n         LEFT JOIN play_progress p ON m.file_id = p.file_id\n         WHERE "@
}

/// The movie page statement for the given conditions, order and argument count.
pub open spec fn movie_page_sql(where_sql: Seq<char>, order: Seq<char>, n: nat) -> Seq<char> {
    movie_page_head() + where_sql + "\n         ORDER BY m."@ + order + " LIMIT ?"@ + decimal(n + 1) + " OFFSET ?"@ + decimal(n + 2)
}

/// The view of an optional string as optional characters.
pub open spec fn opt_chars(o: Option<&str>) -> Option<Seq<char>> {
    match o {
        Some(s) => Some(s@),
        None => None,
    }
}

proof fn lemma_numbered_push(fs: Seq<FilterSpec>, f: FilterSpec)
    ensures
        numbered(fs.push(f)) == numbered(fs).push(numbered_clause(f, (fs.len() + 1) as nat)),
        filter_args(fs.push(f)) == filter_args(fs).push(f.arg),
{
    assert(numbered(fs.push(f)) =~= numbered(fs).push(numbered_clause(f, (fs.len() + 1) as nat)));
    assert(filter_args(fs.push(f)) =~= filter_args(fs).push(f.arg));
}

fn add_filter(clauses: &mut Vec<Vec<char>>, args: &mut Vec<SqlArg>, prefix: &str, suffix: &str, arg: SqlArg, Ghost(base): Ghost<Seq<Seq<char>>>, Ghost(fs): Ghost<Seq<FilterSpec>>, Ghost(f): Ghost<FilterSpec>)
    requires
        char_seqs(old(clauses)@) == base + numbered(fs),
        arg_specs(old(args)@) == filter_args(fs),
        fs.len() < 10,
        f.prefix == prefix@,
        f.suffix == suffix@,
        f.arg == arg.spec(),
    ensures
        char_seqs(final(clauses)@) == base + numbered(fs.push(f)),
        arg_specs(final(args)@) == filter_args(fs.push(f)),
{
    proof {
        lemma_numbered_push(fs, f);
        reveal_strlit("?");
    }
    assert(old(args)@.len() == arg_specs(old(args)@).len());
    let n = args.len();
    let mut c = chars_of(prefix);
    c.push('?');
    let d = decimal_chars((n + 1) as u64);
    extend_chars(&mut c, &d);
    let s = chars_of(suffix);
    extend_chars(&mut c, &s);
    assert(c@ =~= numbered_clause(f, (fs.len() + 1) as nat));
    let ghost old_clauses = clauses@;
    clauses.push(c);
    assert(char_seqs(clauses@) =~= char_seqs(old_clauses).push(c@));
    assert(char_seqs(clauses@) =~= base + numbered(fs.push(f)));
    let ghost old_args = args@;
    args.push(arg);
    assert(arg_specs(args@) =~= arg_specs(old_args).push(f.arg));
}

fn text_arg(prefix: &str, middle: &str, suffix: &str) -> (r: SqlArg)
    ensures
        r.spec() == ArgSpec::Text(prefix@ + middle@ + suffix@),
{
    let s = String::from_str(prefix).concat(middle).concat(suffix);
    SqlArg::Text(s)
}

fn add_filter_when(clauses: &mut Vec<Vec<char>>, args: &mut Vec<SqlArg>, present: bool, prefix: &str, suffix: &str, arg: SqlArg, Ghost(base): Ghost<Seq<Seq<char>>>, Ghost(fs): Ghost<Seq<FilterSpec>>, Ghost(f): Ghost<FilterSpec>)
    requires
        char_seqs(old(clauses)@) == base + numbered(fs),
        arg_specs(old(args)@) == filter_args(fs),
        fs.len() < 10,
        present ==> f.prefix == prefix@ && f.suffix == suffix@ && f.arg == arg.spec(),
    ensures
        char_seqs(final(clauses)@) == base + numbered(fs + when(present, f)),
        arg_specs(final(args)@) == filter_args(fs + when(present, f)),
{
    if present {
        assert(fs + when(present, f) =~= fs.push(f));
        add_filter(clauses, args, prefix, suffix, arg, Ghost(base), Ghost(fs), Ghost(f));
    } else {
        assert(fs + when(present, f) =~= fs);
    }
}

pub(crate) fn text_filter_arg(o: Option<&str>, prefix: &str, suffix: &str) -> (r: (bool, SqlArg))
    ensures
        r.0 == nonempty(opt_chars(o)),
        r.0 ==> r.1.spec() == ArgSpec::Text(prefix@ + opt_chars(o)->0 + suffix@),
{
    match o {
        Some(k) => {
            if !k.is_empty() {
                (true, text_arg(prefix, k, suffix))
            } else {
                (false, SqlArg::Int(0))
            }
        },
        None => (false, SqlArg::Int(0)),
    }
}

/// The text of the movie listing's conditions and the arguments they bind.
#[verifier::rlimit(60)]
#[verifier::spinoff_prover]
fn movie_conditions(keyword: Option<&str>, year: Option<i32>, genre: Option<&str>, group_id: Option<i64>, is_hidden: Option<bool>, favorites_only: Option<bool>) -> (r: (Vec<char>, Vec<SqlArg>))
    ensures
        r.0@ == movie_where(opt_chars(keyword), year, opt_chars(genre), group_id, is_hidden, favorites_only),
        arg_specs(r.1@) == filter_args(movie_filters(opt_chars(keyword), year, opt_chars(genre), group_id, is_hidden)),
{
    proof { reveal_strlit(""); }
    assert(""@ =~= Seq::<char>::empty());
    let ghost kw = opt_chars(keyword);
    let ghost gn = opt_chars(genre);
    let mut clauses: Vec<Vec<char>> = Vec::new();
    clauses.push(chars_of("1=1"));
    if favorites_only == Some(true) {
        clauses.push(chars_of("m.file_id IN (SELECT movie_id FROM movie_groups mg JOIN groups g ON mg.group_id = g.id WHERE g.type = 'favorite')"));
    }
    let ghost base = char_seqs(clauses@);
    assert(base =~= (if favorites_only == Some(true) { seq!["1=1"@, favorites_clause()] } else { seq!["1=1"@] }));
    let mut args: Vec<SqlArg> = Vec::new();
    let ghost fs0: Seq<FilterSpec> = Seq::empty();
    assert(char_seqs(clauses@) =~= base + numbered(fs0));
    assert(arg_specs(args@) =~= filter_args(fs0));

    let ghost f1 = FilterSpec { prefix: "title LIKE "@, suffix: Seq::empty(), arg: ArgSpec::Text("%"@ + kw->0 + "%"@) };
    let ghost f2 = FilterSpec { prefix: "year = "@, suffix: Seq::empty(), arg: ArgSpec::Int(year->0 as int) };
    let ghost f3 = FilterSpec { prefix: "genre LIKE "@, suffix: Seq::empty(), arg: ArgSpec::Text("%\""@ + gn->0 + "\"%"@) };
    let ghost f4 = FilterSpec { prefix: "m.file_id IN (SELECT movie_id FROM movie_groups WHERE group_id = "@, suffix: ")"@, arg: ArgSpec::Int(group_id->0 as int) };
    let ghost f5 = FilterSpec { prefix: "m.is_hidden = "@, suffix: Seq::empty(), arg: ArgSpec::Int(if is_hidden->0 { 1int } else { 0int }) };

    let (p1, a1) = text_filter_arg(keyword, "%", "%");
    add_filter_when(&mut clauses, &mut args, p1, "title LIKE ", "", a1, Ghost(base), Ghost(fs0), Ghost(f1));
    let ghost fs1 = fs0 + when(p1, f1);

    let a2 = match year { Some(y) => SqlArg::Int(y as i64), None => SqlArg::Int(0) };
    add_filter_when(&mut clauses, &mut args, year.is_some(), "year = ", "", a2, Ghost(base), Ghost(fs1), Ghost(f2));
    let ghost fs2 = fs1 + when(year is Some, f2);

    let (p3, a3) = text_filter_arg(genre, "%\"", "\"%");
    add_filter_when(&mut clauses, &mut args, p3, "genre LIKE ", "", a3, Ghost(base), Ghost(fs2), Ghost(f3));
    let ghost fs3 = fs2 + when(p3, f3);

    let a4 = match group_id { Some(g) => SqlArg::Int(g), None => SqlArg::Int(0) };
    add_filter_when(&mut clauses, &mut args, group_id.is_some(), "m.file_id IN (SELECT movie_id FROM movie_groups WHERE group_id = ", ")", a4, Ghost(base), Ghost(fs3), Ghost(f4));
    let ghost fs4 = fs3 + when(group_id is Some, f4);

    let a5 = match is_hidden { Some(h) => SqlArg::Int(if h { 1 } else { 0 }), None => SqlArg::Int(0) };
    add_filter_when(&mut clauses, &mut args, is_hidden.is_some(), "m.is_hidden = ", "", a5, Ghost(base), Ghost(fs4), Ghost(f5));
    let ghost fs = fs4 + when(is_hidden is Some, f5);
    assert(fs =~= movie_filters(kw, year, gn, group_id, is_hidden));

    let ghost with_filters = char_seqs(clauses@);
    if is_hidden.is_none() {
        clauses.push(chars_of("m.is_hidden = 0"));
        assert(char_seqs(clauses@) =~= with_filters.push("m.is_hidden = 0"@));
        assert(char_seqs(clauses@) =~= base + numbered(fs) + seq!["m.is_hidden = 0"@]);
    } else {
        assert(char_seqs(clauses@) =~= base + numbered(fs) + Seq::<Seq<char>>::empty());
    }
    let sep = chars_of(" AND ");
    let w = join_exec(&clauses, &sep);
    (w, args)
}

fn char_vec_eq(a: &Vec<char>, b: &str) -> (r: bool)
    ensures
        r == (a@ == b@),
{
    let bc = chars_of(b);
    crate::text::chars_eq(a, &bc)
}

/// The sort order of the movie listing.
fn movie_order_exec(sort: &str) -> (r: Vec<char>)
    ensures
        r@ == movie_order(sort@),
{
    let s = chars_of(sort);
    if char_vec_eq(&s, "year_desc") {
        chars_of("year DESC")
    } else if char_vec_eq(&s, "year_asc") {
        chars_of("year ASC")
    } else if char_vec_eq(&s, "title_asc") {
        chars_of("title ASC")
    } else if char_vec_eq(&s, "rating_desc") {
        chars_of("rating DESC")
    } else {
        chars_of("updated_at DESC")
    }
}

/// The arguments of a page: those of the conditions, then the page size and the offset.
pub open spec fn paged_args(conds: Seq<ArgSpec>, page: i64, page_size: i64) -> Seq<ArgSpec> {
    conds + seq![ArgSpec::Int(page_size as int), ArgSpec::Int((page - 1) * page_size)]
}

pub(crate) fn push_page_args(args: &mut Vec<SqlArg>, page: i64, page_size: i64)
    requires
        i64::MIN <= (page - 1) * page_size <= i64::MAX,
        page > i64::MIN,
    ensures
        arg_specs(final(args)@) == paged_args(arg_specs(old(args)@), page, page_size),
{
    let ghost before = args@;
    args.push(SqlArg::Int(page_size));
    args.push(SqlArg::Int((page - 1) * page_size));
    assert(arg_specs(args@) =~= paged_args(arg_specs(before), page, page_size));
}

pub(crate) fn copy_args(args: &Vec<SqlArg>) -> (r: Vec<SqlArg>)
    ensures
        arg_specs(r@) == arg_specs(args@),
{
    let mut r: Vec<SqlArg> = Vec::new();
    for k in 0..args.len()
        invariant
            arg_specs(r@) == arg_specs(args@.take(k as int)),
    {
        let a = match &args[k] {
            SqlArg::Int(i) => SqlArg::Int(*i),
            SqlArg::Text(t) => SqlArg::Text(t.clone()),
        };
        let ghost before = r@;
        r.push(a);
        assert(arg_specs(r@) =~= arg_specs(before).push(args@[k as int].spec()));
        assert(arg_specs(args@.take(k + 1)) =~= arg_specs(args@.take(k as int)).push(args@[k as int].spec()));
    }
    assert(args@.take(args@.len() as int) =~= args@);
    r
}

/// The statements of one page of the movie listing. The conditions are those of
/// `movie_where`; the count statement binds the filters' arguments, the page statement
/// binds them and then the page size and the offset `(page - 1) * page_size`.
pub fn get_movies_paginated(keyword: Option<&str>, year: Option<i32>, genre: Option<&str>, group_id: Option<i64>, is_hidden: Option<bool>, favorites_only: Option<bool>, sort: &str, page: i64, page_size: i64) -> (q: PagedQuery)
    requires
        i64::MIN <= (page - 1) * page_size <= i64::MAX,
        page > i64::MIN,
    ensures
        ({
            let w = movie_where(opt_chars(keyword), year, opt_chars(genre), group_id, is_hidden, favorites_only);
            let fs = movie_filters(opt_chars(keyword), year, opt_chars(genre), group_id, is_hidden);
            &&& q.count.sql@ == "SELECT COUNT(*) FROM movies m WHERE "@ + w
            &&& arg_specs(q.count.args@) == filter_args(fs)
            &&& q.page.sql@ == movie_page_sql(w, movie_order(sort@), fs.len())
            &&& arg_specs(q.page.args@) == paged_args(filter_args(fs), page, page_size)
        }),
{
    let (w, args) = movie_conditions(keyword, year, genre, group_id, is_hidden, favorites_only);
    let ghost fs = movie_filters(opt_chars(keyword), year, opt_chars(genre), group_id, is_hidden);
    assert(args@.len() == arg_specs(args@).len());
    assert(fs.len() <= 5);
    let mut count_sql = chars_of("SELECT COUNT(*) FROM movies m WHERE ");
    extend_chars(&mut count_sql, &w);
    let n = args.len();
    let mut page_sql = chars_of("SELECT m.file_id, m.title, m.year, m.poster_local, m.rating, m.genre, m.is_hidden,\n                COALESCE(p.progress, 0), COALESCE(p.duration, 0)\n         FROM movies m\n         LEFT JOIN play_progress p ON m.file_id = p.file_id\n         WHERE ");
    extend_chars(&mut page_sql, &w);
    extend_chars(&mut page_sql, &chars_of("\n         ORDER BY m."));
    extend_chars(&mut page_sql, &movie_order_exec(sort));
    extend_chars(&mut page_sql, &chars_of(" LIMIT ?"));
    extend_chars(&mut page_sql, &decimal_chars((n + 1) as u64));
    extend_chars(&mut page_sql, &chars_of(" OFFSET ?"));
    extend_chars(&mut page_sql, &decimal_chars((n + 2) as u64));
    let mut page_args = copy_args(&args);
    push_page_args(&mut page_args, page, page_size);
    PagedQuery {
        count: Statement { sql: string_of(&count_sql), args },
        page: Statement { sql: string_of(&page_sql), args: page_args },
    }
}

/// The statement that deletes the actresses with the given ids:
/// `DELETE FROM av_actors WHERE id IN (<ids joined by ",">)`, with no arguments.
pub open spec fn delete_actresses_sql(ids: Seq<i64>) -> Seq<char> {
    "DELETE FROM av_actors WHERE id IN ("@ + join(Seq::new(ids.len(), |i: int| signed_decimal(ids[i] as int)), ","@) + ")"@
}

/// The statement that deletes the actresses with the given ids.
pub fn delete_actresses(ids: &[i64]) -> (st: Statement)
    ensures
        st.sql@ == delete_actresses_sql(ids@),
        st.args@.len() == 0,
{
    let mut parts: Vec<Vec<char>> = Vec::new();
    for k in 0..ids.len()
        invariant
            char_seqs(parts@) == Seq::new(k as nat, |i: int| signed_decimal(ids@[i] as int)),
    {
        let ghost before = parts@;
        parts.push(signed_decimal_chars(ids[k]));
        assert(char_seqs(parts@) =~= char_seqs(before).push(signed_decimal(ids@[k as int] as int)));
        assert(Seq::new((k + 1) as nat, |i: int| signed_decimal(ids@[i] as int)) =~= Seq::new(k as nat, |i: int| signed_decimal(ids@[i] as int)).push(signed_decimal(ids@[k as int] as int)));
    }
    let sep = chars_of(",");
    let joined = join_exec(&parts, &sep);
    let mut sql = chars_of("DELETE FROM av_actors WHERE id IN (");
    extend_chars(&mut sql, &joined);
    extend_chars(&mut sql, &chars_of(")"));
    Statement { sql: string_of(&sql), args: Vec::new() }
}

/// The statement that lists the tasks still pending, running or paused, oldest first.
pub open spec fn pending_tasks_sql() -> Seq<char> {
    "SELECT id, type, target_ids, status, progress, result, created_at, updated_at, error, checkpoint\n         FROM tasks WHERE status IN ('pending', 'running', 'paused') ORDER BY created_at"@
}

/// The statement that lists the unfinished tasks, with no arguments.
pub fn get_pending_tasks() -> (st: Statement)
    ensures
        st.sql@ == pending_tasks_sql(),
        st.args@.len() == 0,
{
    let sql = chars_of("SELECT id, type, target_ids, status, progress, result, created_at, updated_at, error, checkpoint\n         FROM tasks WHERE status IN ('pending', 'running', 'paused') ORDER BY created_at");
    Statement { sql: string_of(&sql), args: Vec::new() }
}

/// The statement that settles a pending actor: accepting clears its pending flag,
/// rejecting deletes it if it is still pending. Either binds the actor's id as `?1`.
pub fn confirm_actor(actor_id: i64, accepted: bool) -> (st: Statement)
    ensures
        accepted ==> st.sql@ == "UPDATE av_actors SET is_pending = 0 WHERE id = ?1"@,
        !accepted ==> st.sql@ == "DELETE FROM av_actors WHERE id = ?1 AND is_pending = 1"@,
        arg_specs(st.args@) == seq![ArgSpec::Int(actor_id as int)],
{
    let sql = if accepted {
        chars_of("UPDATE av_actors SET is_pending = 0 WHERE id = ?1")
    } else {
        chars_of("DELETE FROM av_actors WHERE id = ?1 AND is_pending = 1")
    };
    let mut args: Vec<SqlArg> = Vec::new();
    args.push(SqlArg::Int(actor_id));
    assert(arg_specs(args@) =~= seq![ArgSpec::Int(actor_id as int)]);
    Statement { sql: string_of(&sql), args }
}

/// The condition that matches an actress by name or alias against `?1`.
pub open spec fn name_or_alias_clause() -> Seq<char> {
    "(a.name LIKE ?1 OR EXISTS (SELECT 1 FROM actress_aliases al WHERE al.actress_id = a.id AND al.alias_name LIKE ?1))"@
}

/// The head of the simple actress page statement, up to its condition.
pub open spec fn actress_page_head() -> Seq<char> {
    "SELECT a.id, a.name, a.avatar_local, a.debut_year, a.height, a.bust, a.waist, a.hip, a.cup, a.letter,\n                (SELECT COUNT(*) FROM movie_actors ma JOIN actors act ON ma.actor_id = act.id WHERE act.name = a.name)\n         FROM av_actors a "@
}

/// The condition text of the simple actress listing: the name-or-alias search when a
/// non-empty search is given, else `WHERE 1=1` (every actress).
pub open spec fn actress_where(search: Option<Seq<char>>) -> Seq<char> {
    if nonempty(search) { "WHERE "@ + name_or_alias_clause() } else { "WHERE 1=1"@ }
}

/// The statements of one page of the simple actress listing, ordered by name. With a
/// non-empty search, `?1` is `%search%` and the page size and offset are `?2` and `?3`;
/// otherwise they are `?1` and `?2`.
pub fn get_actresses_paginated(page: i64, page_size: i64, search: Option<&str>) -> (q: PagedQuery)
    requires
        i64::MIN <= (page - 1) * page_size <= i64::MAX,
        page > i64::MIN,
    ensures
        ({
            let w = actress_where(opt_chars(search));
            let conds = if nonempty(opt_chars(search)) { seq![ArgSpec::Text("%"@ + opt_chars(search)->0 + "%"@)] } else { Seq::empty() };
            let n: nat = if nonempty(opt_chars(search)) { 1 } else { 0 };
            &&& q.count.sql@ == "SELECT COUNT(*) FROM av_actors a "@ + w
            &&& arg_specs(q.count.args@) == conds
            &&& q.page.sql@ == actress_page_head() + w + " ORDER BY a.name LIMIT ?"@ + decimal(n + 1) + " OFFSET ?"@ + decimal(n + 2)
            &&& arg_specs(q.page.args@) == paged_args(conds, page, page_size)
        }),
{
    let (p, a) = text_filter_arg(search, "%", "%");
    let w = if p {
        let mut w = chars_of("WHERE ");
        extend_chars(&mut w, &chars_of("(a.name LIKE ?1 OR EXISTS (SELECT 1 FROM actress_aliases al WHERE al.actress_id = a.id AND al.alias_name LIKE ?1))"));
        w
    } else {
        chars_of("WHERE 1=1")
    };
    let mut args: Vec<SqlArg> = Vec::new();
    if p {
        args.push(a);
    }
    let ghost conds = if nonempty(opt_chars(search)) { seq![ArgSpec::Text("%"@ + opt_chars(search)->0 + "%"@)] } else { Seq::<ArgSpec>::empty() };
    assert(arg_specs(args@) =~= conds);
    let mut count_sql = chars_of("SELECT COUNT(*) FROM av_actors a ");
    extend_chars(&mut count_sql, &w);
    let n: u64 = if p { 1 } else { 0 };
    let mut page_sql = chars_of("SELECT a.id, a.name, a.avatar_local, a.debut_year, a.height, a.bust, a.waist, a.hip, a.cup, a.letter,\n                (SELECT COUNT(*) FROM movie_actors ma JOIN actors act ON ma.actor_id = act.id WHERE act.name = a.name)\n         FROM av_actors a ");
    extend_chars(&mut page_sql, &w);
    extend_chars(&mut page_sql, &chars_of(" ORDER BY a.name LIMIT ?"));
    extend_chars(&mut page_sql, &decimal_chars(n + 1));
    extend_chars(&mut page_sql, &chars_of(" OFFSET ?"));
    extend_chars(&mut page_sql, &decimal_chars(n + 2));
    let mut page_args = copy_args(&args);
    push_page_args(&mut page_args, page, page_size);
    PagedQuery {
        count: Statement { sql: string_of(&count_sql), args },
        page: Statement { sql: string_of(&page_sql), args: page_args },
    }
}

} // verus!
