//! The actress library as the views list it: grouped under their first letter, or one
//! filtered, sorted page at a time.

use vstd::prelude::*;
use vstd::string::StringExecFns;
use crate::sql::{arg_specs, nonempty, opt_chars, paged_args, ArgSpec, PagedQuery, SqlArg, Statement};
use crate::text::{chars_eq, chars_of, decimal, decimal_chars, extend_chars, join, signed_decimal, signed_decimal_chars, string_of};

verus! {

/// One actress as the library lists her.
pub struct ActressItem {
    pub id: i64,
    pub name: String,
    pub avatar_local: Option<String>,
    pub debut_year: Option<i32>,
    pub height: Option<i32>,
    pub bust: Option<i32>,
    pub waist: Option<i32>,
    pub hip: Option<i32>,
    pub cup: Option<String>,
    pub letter: Option<String>,
    pub movie_count: i64,
    pub local_folder_name: Option<String>,
    pub is_pending: bool,
    pub source: Option<String>,
}

/// The actresses filed under one letter.
pub struct ActressByLetter {
    pub letter: String,
    pub actresses: Vec<ActressItem>,
}

/// One page of actresses and the number of all that match.
pub struct PaginatedActress {
    pub list: Vec<ActressItem>,
    pub total: i64,
}

/// The character an actress is grouped under: the first character of her letter, `#`
/// when she has none or it is empty.
pub open spec fn letter_key(item: ActressItem) -> char {
    match item.letter {
        Some(l) => if l@.len() > 0 { l@[0] } else { '#' },
        None => '#',
    }
}

/// The actresses of each group, in order.
pub open spec fn group_members(gs: Seq<ActressByLetter>) -> Seq<Seq<ActressItem>> {
    Seq::new(gs.len(), |i: int| gs[i].actresses@)
}

/// The groups are the maximal runs of consecutive actresses with the same letter: read in
/// order they give back `items`, none is empty, each is labelled with the one-character
/// letter of all its members, and neighbouring groups have different letters.
pub open spec fn grouped_by_letter(items: Seq<ActressItem>, gs: Seq<ActressByLetter>) -> bool {
    &&& group_members(gs).flatten() == items
    &&& forall|g: int| 0 <= g < gs.len() ==> #[trigger] gs[g].actresses@.len() > 0
    &&& forall|g: int, j: int| 0 <= g < gs.len() && 0 <= j < gs[g].actresses@.len() ==>
            gs[g].letter@ == seq![letter_key(#[trigger] gs[g].actresses@[j])]
    &&& forall|g: int| 0 <= g < gs.len() - 1 ==> #[trigger] gs[g].letter@ != gs[g + 1].letter@
}

fn letter_key_exec(item: &ActressItem) -> (c: char)
    ensures
        c == letter_key(*item),
{
    match &item.letter {
        Some(l) => {
            let cs = chars_of(l.as_str());
            if cs.len() > 0 { cs[0] } else { '#' }
        },
        None => '#',
    }
}

/// The query behind the letter view: every actress, ordered by letter and then name.
pub open spec fn by_letter_sql() -> Seq<char> {
    "SELECT a.id, a.name, a.avatar_local, a.debut_year, a.height, a.bust, a.waist, a.hip, a.cup, a.letter,\n                    (SELECT COUNT(*) FROM movie_actors ma JOIN actors act ON ma.actor_id = act.id WHERE act.name = a.name),\n                    a.local_folder_name, a.is_pending, a.source\n             FROM av_actors a ORDER BY a.letter, a.name"@
}

/// The query behind the letter view, with no arguments.
pub fn actresses_by_letter_query() -> (st: Statement)
    ensures
        st.sql@ == by_letter_sql(),
        st.args@.len() == 0,
{
    let sql = chars_of("SELECT a.id, a.name, a.avatar_local, a.debut_year, a.height, a.bust, a.waist, a.hip, a.cup, a.letter,\n                    (SELECT COUNT(*) FROM movie_actors ma JOIN actors act ON ma.actor_id = act.id WHERE act.name = a.name),\n                    a.local_folder_name, a.is_pending, a.source\n             FROM av_actors a ORDER BY a.letter, a.name");
    Statement { sql: string_of(&sql), args: Vec::new() }
}

/// Groups the rows of the letter query under their letters, keeping their order.
pub fn get_actresses_by_letter(rows: Vec<ActressItem>) -> (gs: Vec<ActressByLetter>)
    ensures
        grouped_by_letter(rows@, gs@),
{
    let ghost items = rows@;
    let mut rest = rows;
    let mut groups: Vec<ActressByLetter> = Vec::new();
    let mut cur_letter: Vec<char> = Vec::new();
    let mut cur: Vec<ActressItem> = Vec::new();
    let ghost mut done: int = 0;
    while rest.len() > 0
        invariant
            0 <= done <= items.len(),
            rest@ == items.skip(done),
            group_members(groups@).flatten() + cur@ == items.take(done),
            forall|g: int| 0 <= g < groups@.len() ==> #[trigger] groups@[g].actresses@.len() > 0,
            forall|g: int, j: int| 0 <= g < groups@.len() && 0 <= j < groups@[g].actresses@.len() ==>
                groups@[g].letter@ == seq![letter_key(#[trigger] groups@[g].actresses@[j])],
            forall|g: int| 0 <= g < groups@.len() - 1 ==> #[trigger] groups@[g].letter@ != groups@[g + 1].letter@,
            cur@.len() == 0 ==> groups@.len() == 0 && cur_letter@.len() == 0,
            cur@.len() > 0 ==> cur_letter@.len() == 1,
            forall|j: int| 0 <= j < cur@.len() ==> cur_letter@ == seq![letter_key(#[trigger] cur@[j])],
            cur@.len() > 0 && groups@.len() > 0 ==> groups@.last().letter@ != cur_letter@,
        decreases rest@.len(),
    {
        let row = rest.remove(0);
        assert(row == items[done]);
        let key = letter_key_exec(&row);
        let mut one: Vec<char> = Vec::new();
        one.push(key);
        if !chars_eq(&one, &cur_letter) {
            if cur.len() > 0 {
                let ghost gm = group_members(groups@);
                let label = string_of(&cur_letter);
                let members = cur;
                cur = Vec::new();
                let ghost new_group_items = members@;
                groups.push(ActressByLetter { letter: label, actresses: members });
                assert(group_members(groups@) =~= gm.push(new_group_items));
                proof { gm.lemma_flatten_push(new_group_items); }
                assert(group_members(groups@).flatten() + cur@ =~= gm.flatten() + new_group_items);
            }
            cur_letter = one;
        }
        assert(group_members(groups@).flatten() + cur@ == items.take(done));
        let ghost before = cur@;
        cur.push(row);
        proof {
            assert(items.take(done + 1) =~= items.take(done).push(items[done]));
            assert(group_members(groups@).flatten() + cur@ =~= group_members(groups@).flatten() + before + seq![row]);
            done = done + 1;
            assert(rest@ =~= items.skip(done));
        }
    }
    assert(items.take(done) =~= items);
    if cur.len() > 0 {
        let ghost gm = group_members(groups@);
        let label = string_of(&cur_letter);
        let ghost new_group_items = cur@;
        groups.push(ActressByLetter { letter: label, actresses: cur });
        assert(group_members(groups@) =~= gm.push(new_group_items));
        proof { gm.lemma_flatten_push(new_group_items); }
    } else {
        assert(group_members(groups@) =~= Seq::<Seq<ActressItem>>::empty());
        assert(cur@ =~= Seq::<ActressItem>::empty());
    }
    groups
}

/// The columns an actress page may be sorted by.
pub open spec fn is_sort_field(f: Seq<char>) -> bool {
    f == "name"@ || f == "debut_year"@ || f == "height"@ || f == "bust"@ || f == "waist"@ || f == "hip"@
        || f == "cup"@ || f == "movie_count"@ || f == "id"@ || f == "is_pending"@ || f == "source"@ || f == "letter"@
}

/// The fixed conditions: the pending filter and the group filter, in that order.
pub open spec fn base_parts(include_pending: Option<bool>, group_id: Option<i64>) -> Seq<Seq<char>> {
    let p = match include_pending {
        Some(true) => seq!["a.is_pending = 1"@],
        Some(false) => seq!["a.is_pending = 0"@],
        None => Seq::empty(),
    };
    let g = match group_id {
        Some(gid) => seq!["a.id IN (SELECT actress_id FROM actress_group_members WHERE group_id = "@ + signed_decimal(gid as int) + ")"@],
        None => Seq::empty(),
    };
    p + g
}

/// The `WHERE` text of the fixed conditions, empty when there are none.
pub open spec fn base_where(include_pending: Option<bool>, group_id: Option<i64>) -> Seq<char> {
    let parts = base_parts(include_pending, group_id);
    if parts.len() == 0 { Seq::empty() } else { "WHERE "@ + join(parts, " AND "@) }
}

/// The whole condition text: the fixed conditions, and the name-or-alias search (bound to
/// `?1`) when a non-empty search is given.
pub open spec fn listing_where(search: Option<Seq<char>>, include_pending: Option<bool>, group_id: Option<i64>) -> Seq<char> {
    let b = base_where(include_pending, group_id);
    if nonempty(search) {
        if b.len() == 0 {
            "WHERE "@ + crate::sql::name_or_alias_clause()
        } else {
            b + " AND "@ + crate::sql::name_or_alias_clause()
        }
    } else {
        b
    }
}

/// The `ORDER BY` text: a known column (else `name`) and the given direction (else `asc`),
/// the movie count unqualified and every other column quoted on the table `a`.
pub open spec fn listing_order(sort_field: Option<Seq<char>>, sort_order: Option<Seq<char>>) -> Seq<char> {
    let col = match sort_field {
        Some(f) => if is_sort_field(f) { f } else { "name"@ },
        None => "name"@,
    };
    let dir = match sort_order {
        Some(d) => d,
        None => "asc"@,
    };
    if col == "movie_count"@ {
        "ORDER BY movie_count "@ + dir
    } else {
        "ORDER BY a.\""@ + col + "\" "@ + dir
    }
}

/// A page is sorted by the column asked for when it is one of name, debut_year, height,
/// bust, waist, hip, cup, movie_count, id, is_pending, source or letter (the movie count
/// unqualified, the others quoted on `a`), in the direction asked for; by name otherwise.
pub proof fn law_sort_columns(f: Seq<char>, dir: Seq<char>)
    ensures
        (f == "debut_year"@ || f == "name"@ || f == "height"@ || f == "bust"@ || f == "waist"@
            || f == "hip"@ || f == "cup"@ || f == "id"@ || f == "is_pending"@ || f == "source"@
            || f == "letter"@) ==> listing_order(Some(f), Some(dir)) == "ORDER BY a.\""@ + f + "\" "@ + dir,
        listing_order(Some("movie_count"@), Some(dir)) == "ORDER BY movie_count "@ + dir,
        !(f == "debut_year"@ || f == "name"@ || f == "height"@ || f == "bust"@ || f == "waist"@
            || f == "hip"@ || f == "cup"@ || f == "movie_count"@ || f == "id"@ || f == "is_pending"@
            || f == "source"@ || f == "letter"@) ==> listing_order(Some(f), Some(dir)) == "ORDER BY a.\"name\" "@ + dir,
{
    assert("ORDER BY a.\""@ + "name"@ + "\" "@ + dir == "ORDER BY a.\"name\" "@ + dir) by {
        reveal_strlit("ORDER BY a.\"");
        reveal_strlit("name");
        reveal_strlit("\" ");
        reveal_strlit("ORDER BY a.\"name\" ");
        assert("ORDER BY a.\""@ + "name"@ + "\" "@ =~= "ORDER BY a.\"name\" "@);
    }
    if f == "debut_year"@ || f == "name"@ || f == "height"@ || f == "bust"@ || f == "waist"@
        || f == "hip"@ || f == "cup"@ || f == "id"@ || f == "is_pending"@ || f == "source"@ || f == "letter"@ {
        assert(f != "movie_count"@) by {
            reveal_strlit("movie_count");
            reveal_strlit("name");
            reveal_strlit("debut_year");
            reveal_strlit("height");
            reveal_strlit("bust");
            reveal_strlit("waist");
            reveal_strlit("hip");
            reveal_strlit("cup");
            reveal_strlit("id");
            reveal_strlit("is_pending");
            reveal_strlit("source");
            reveal_strlit("letter");
            if f == "movie_count"@ {
                assert(f.len() == 11);
                assert(f[0] == 'm');
            }
        }
    }
    assert("name"@ != "movie_count"@) by {
        reveal_strlit("movie_count");
        reveal_strlit("name");
        assert("name"@.len() != "movie_count"@.len());
    }
}

/// The head of the actress page statement, up to its conditions.
pub open spec fn listing_head() -> Seq<char> {
    "SELECT a.id, a.name, a.avatar_local, a.debut_year, a.height, a.bust, a.waist, a.hip, a.cup, a.letter,\n                    (SELECT COUNT(*) FROM movie_actors ma JOIN actors act ON ma.actor_id = act.id WHERE act.name = a.name) as movie_count,\n                    a.local_folder_name, a.is_pending, a.source\n             FROM av_actors a "@
}

fn eq_lit(a: &Vec<char>, b: &str) -> (r: bool)
    ensures
        r == (a@ == b@),
{
    let bc = chars_of(b);
    chars_eq(a, &bc)
}

fn is_sort_field_exec(f: &Vec<char>) -> (r: bool)
    ensures
        r == is_sort_field(f@),
{
    eq_lit(f, "name") || eq_lit(f, "debut_year") || eq_lit(f, "height") || eq_lit(f, "bust")
        || eq_lit(f, "waist") || eq_lit(f, "hip") || eq_lit(f, "cup") || eq_lit(f, "movie_count")
        || eq_lit(f, "id") || eq_lit(f, "is_pending") || eq_lit(f, "source") || eq_lit(f, "letter")
}

fn base_where_exec(include_pending: Option<bool>, group_id: Option<i64>) -> (r: Vec<char>)
    ensures
        r@ == base_where(include_pending, group_id),
{
    let mut parts: Vec<Vec<char>> = Vec::new();
    match include_pending {
        Some(true) => parts.push(chars_of("a.is_pending = 1")),
        Some(false) => parts.push(chars_of("a.is_pending = 0")),
        None => {},
    }
    match group_id {
        Some(gid) => {
            let mut g = chars_of("a.id IN (SELECT actress_id FROM actress_group_members WHERE group_id = ");
            extend_chars(&mut g, &signed_decimal_chars(gid));
            extend_chars(&mut g, &chars_of(")"));
            parts.push(g);
        },
        None => {},
    }
    assert(crate::text::char_seqs(parts@) =~= base_parts(include_pending, group_id));
    if parts.len() == 0 {
        Vec::new()
    } else {
        let mut w = chars_of("WHERE ");
        extend_chars(&mut w, &crate::text::join_exec(&parts, &chars_of(" AND ")));
        w
    }
}

fn listing_order_exec(sort_field: Option<&str>, sort_order: Option<&str>) -> (r: Vec<char>)
    ensures
        r@ == listing_order(opt_chars(sort_field), opt_chars(sort_order)),
{
    let col = match sort_field {
        Some(f) => {
            let fc = chars_of(f);
            if is_sort_field_exec(&fc) { fc } else { chars_of("name") }
        },
        None => chars_of("name"),
    };
    let dir = match sort_order {
        Some(d) => chars_of(d),
        None => chars_of("asc"),
    };
    if eq_lit(&col, "movie_count") {
        let mut r = chars_of("ORDER BY movie_count ");
        extend_chars(&mut r, &dir);
        r
    } else {
        let mut r = chars_of("ORDER BY a.\"");
        extend_chars(&mut r, &col);
        extend_chars(&mut r, &chars_of("\" "));
        extend_chars(&mut r, &dir);
        r
    }
}

/// The statements of one page of the actress table. With a non-empty search, `?1` is
/// `%search%` and the page size and offset are `?2` and `?3`; otherwise `?1` and `?2`.
pub fn get_actresses_paginated(page: i64, page_size: i64, search: Option<&str>, sort_field: Option<&str>, sort_order: Option<&str>, include_pending: Option<bool>, group_id: Option<i64>) -> (q: PagedQuery)
    requires
        i64::MIN <= (page - 1) * page_size <= i64::MAX,
        page > i64::MIN,
    ensures
        ({
            let w = listing_where(opt_chars(search), include_pending, group_id);
            let conds = if nonempty(opt_chars(search)) { seq![ArgSpec::Text("%"@ + opt_chars(search)->0 + "%"@)] } else { Seq::empty() };
            let n: nat = if nonempty(opt_chars(search)) { 1 } else { 0 };
            &&& q.count.sql@ == "SELECT COUNT(*) FROM av_actors a "@ + w
            &&& arg_specs(q.count.args@) == conds
            &&& q.page.sql@ == listing_head() + w + " "@ + listing_order(opt_chars(sort_field), opt_chars(sort_order))
                    + " LIMIT ?"@ + decimal(n + 1) + " OFFSET ?"@ + decimal(n + 2)
            &&& arg_specs(q.page.args@) == paged_args(conds, page, page_size)
        }),
{
    let b = base_where_exec(include_pending, group_id);
    let (p, a) = crate::sql::text_filter_arg(search, "%", "%");
    let w = if p {
        let mut w = if b.len() == 0 {
            chars_of("WHERE ")
        } else {
            let mut w = b;
            extend_chars(&mut w, &chars_of(" AND "));
            w
        };
        extend_chars(&mut w, &chars_of("(a.name LIKE ?1 OR EXISTS (SELECT 1 FROM actress_aliases al WHERE al.actress_id = a.id AND al.alias_name LIKE ?1))"));
        w
    } else {
        b
    };
    let mut args: Vec<SqlArg> = Vec::new();
    if p {
        args.push(a);
    }
    let ghost conds = if nonempty(opt_chars(search)) { seq![ArgSpec::Text("%"@ + opt_chars(search)->0 + "%"@)] } else { Seq::<ArgSpec>::empty() };
    assert(arg_specs(args@) =~= conds);
    let mut count_sql = chars_of("SELECT COUNT(*) FROM av_actors a ");
    extend_chars(&mut count_sql, &w);
    let n: u64 = if p { 1 } else { 0 };
    let mut page_sql = chars_of("SELECT a.id, a.name, a.avatar_local, a.debut_year, a.height, a.bust, a.waist, a.hip, a.cup, a.letter,\n                    (SELECT COUNT(*) FROM movie_actors ma JOIN actors act ON ma.actor_id = act.id WHERE act.name = a.name) as movie_count,\n                    a.local_folder_name, a.is_pending, a.source\n             FROM av_actors a ");
    extend_chars(&mut page_sql, &w);
    extend_chars(&mut page_sql, &chars_of(" "));
    extend_chars(&mut page_sql, &listing_order_exec(sort_field, sort_order));
    extend_chars(&mut page_sql, &chars_of(" LIMIT ?"));
    extend_chars(&mut page_sql, &decimal_chars(n + 1));
    extend_chars(&mut page_sql, &chars_of(" OFFSET ?"));
    extend_chars(&mut page_sql, &decimal_chars(n + 2));
    let mut page_args = crate::sql::copy_args(&args);
    crate::sql::push_page_args(&mut page_args, page, page_size);
    PagedQuery {
        count: Statement { sql: string_of(&count_sql), args },
        page: Statement { sql: string_of(&page_sql), args: page_args },
    }
}

} // verus!
