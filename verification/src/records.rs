//! The rows the library's tables hold and the records its commands answer with: tasks,
//! groups, play progress, genre translations and movie filters, with the rules that turn
//! one into the other.

use vstd::prelude::*;
use vstd::string::StringExecFns;
use crate::error::{CommandError, INVALID_INPUT};
use crate::scanner::{json_string_list, parse_string_list, strs};
use crate::sql::{arg_specs, ArgSpec, PagedQuery, SqlArg, Statement};
use crate::text::{chars_eq, chars_of};

verus! {

/// A row of the task table.
pub struct TaskRow {
    pub id: String,
    pub task_type: String,
    pub target_ids: String,
    pub status: String,
    pub progress: i32,
    pub result: Option<String>,
    pub created_at: i64,
    pub updated_at: i64,
    pub error: Option<String>,
    pub checkpoint: Option<String>,
}

/// The JSON text serde_json writes for a list of strings.
pub uninterp spec fn json_list_text(items: Seq<Seq<char>>) -> Seq<char>;

/// serde_json's `to_string` on a list of strings, an error given as its text. A list of
/// strings has no map keys and no failing `Serialize`, the two causes the documentation
/// gives for an error, so the contract claims success and names the text
/// `json_list_text`; the escaping itself is not stated.
#[verifier::external_body]
pub(crate) fn json_list_of(items: &Vec<String>) -> (r: Result<String, String>)
    ensures
        r is Ok,
        r matches Ok(t) ==> t@ == json_list_text(strs(items@)),
{
    serde_json::to_string(items).map_err(|e| e.to_string())
}

/// A list of strings as the JSON text stored for it.
pub fn genres_json(items: &Vec<String>) -> (r: String)
    ensures
        r@ == json_list_text(strs(items@)),
{
    match json_list_of(items) {
        Ok(t) => t,
        Err(_) => String::new(),
    }
}

/// A new task over the given targets, stored as their JSON list.
pub fn create_task_row(id: String, task_type: &str, target_ids: &Vec<String>, now: i64) -> (r: Result<TaskRow, CommandError>)
    ensures
        r matches Ok(t) && t.id@ == id@ && t.task_type@ == task_type@ && t.target_ids@ == json_list_text(strs(target_ids@))
            && t.status@ == "pending"@ && t.progress == 0 && t.result is None && t.error is None
            && t.checkpoint is None && t.created_at == now && t.updated_at == now,
{
    match json_list_of(target_ids) {
        Ok(json) => Ok(new_task(id, task_type, json, now)),
        Err(e) => {
            let msg = String::from_str("序列化失败: ").concat(e.as_str());
            Err(CommandError::internal(msg.as_str()))
        },
    }
}

/// A task as the task commands answer with it.
pub struct TaskResponse {
    pub id: String,
    pub task_type: String,
    pub status: String,
    pub progress: i32,
    pub result: Option<String>,
    pub error: Option<String>,
    pub created_at: i64,
    pub updated_at: i64,
}

/// A new task: pending, at progress 0, created and updated at `now`, with its targets as
/// a JSON list and no result, error or checkpoint.
pub fn new_task(id: String, task_type: &str, target_ids_json: String, now: i64) -> (t: TaskRow)
    ensures
        t.id@ == id@ && t.task_type@ == task_type@ && t.target_ids@ == target_ids_json@,
        t.status@ == "pending"@ && t.progress == 0,
        t.result is None && t.error is None && t.checkpoint is None,
        t.created_at == now && t.updated_at == now,
{
    TaskRow {
        id,
        task_type: String::from_str(task_type),
        target_ids: target_ids_json,
        status: String::from_str("pending"),
        progress: 0,
        result: None,
        created_at: now,
        updated_at: now,
        error: None,
        checkpoint: None,
    }
}

/// A task row as the commands answer with it: every field but the targets and the
/// checkpoint.
pub fn task_response(t: TaskRow) -> (r: TaskResponse)
    ensures
        r.id@ == t.id@ && r.task_type@ == t.task_type@ && r.status@ == t.status@ && r.progress == t.progress,
        r.result == t.result && r.error == t.error,
        r.created_at == t.created_at && r.updated_at == t.updated_at,
{
    TaskResponse {
        id: t.id,
        task_type: t.task_type,
        status: t.status,
        progress: t.progress,
        result: t.result,
        error: t.error,
        created_at: t.created_at,
        updated_at: t.updated_at,
    }
}

/// A group of movies as stored.
pub struct GroupRow {
    pub id: i64,
    pub name: String,
    pub group_type: String,
}

/// A group of movies with the number of its movies.
pub struct GroupRowWithCount {
    pub id: i64,
    pub name: String,
    pub group_type: String,
    pub sort_order: i64,
    pub movie_count: i64,
}

/// A group of movies as the group commands answer with it.
pub struct GroupItem {
    pub id: i64,
    pub name: String,
    pub group_type: String,
    pub sort_order: i64,
    pub movie_count: i64,
}

/// A group of actresses with the number of its members.
pub struct ActressGroupItem {
    pub id: i64,
    pub name: String,
    pub sort_order: i64,
    pub member_count: i64,
}

/// A group a movie belongs to, in a movie's details.
pub struct GroupResponse {
    pub id: i64,
    pub name: String,
    pub group_type: String,
}

/// A counted group row as a group item.
pub fn group_item(r: GroupRowWithCount) -> (g: GroupItem)
    ensures
        g.id == r.id && g.name@ == r.name@ && g.group_type@ == r.group_type@,
        g.sort_order == r.sort_order && g.movie_count == r.movie_count,
{
    GroupItem { id: r.id, name: r.name, group_type: r.group_type, sort_order: r.sort_order, movie_count: r.movie_count }
}

/// A group row as a movie's group.
pub fn group_response(r: GroupRow) -> (g: GroupResponse)
    ensures
        g.id == r.id && g.name@ == r.name@ && g.group_type@ == r.group_type@,
{
    GroupResponse { id: r.id, name: r.name, group_type: r.group_type }
}

/// The group type a listing is restricted to: none for `all` or no category.
pub open spec fn category_filter(category: Option<Seq<char>>) -> Option<Seq<char>> {
    match category {
        Some(c) => if c == "all"@ { None } else { Some(c) },
        None => None,
    }
}

/// The group type a listing is restricted to.
pub fn group_category(category: Option<String>) -> (r: Option<String>)
    ensures
        crate::html::ov(r) == category_filter(crate::html::ov(category)),
{
    match category {
        Some(c) => {
            proof { reveal_strlit("all"); }
            if chars_eq(&chars_of(c.as_str()), &chars_of("all")) { None } else { Some(c) }
        },
        None => None,
    }
}

/// The statement that lists the groups with their movie counts, by sort order; with a
/// type, only the groups of that type, bound as `?1`.
pub fn all_groups_query(category: Option<&str>) -> (st: Statement)
    ensures
        category matches Some(c) ==> st.sql@ == "SELECT g.id, g.name, g.type, g.sort_order, COUNT(mg.movie_id)\n         FROM groups g LEFT JOIN movie_groups mg ON g.id = mg.group_id\n         WHERE g.type = ?1 GROUP BY g.id ORDER BY g.sort_order"@
            && arg_specs(st.args@) == seq![ArgSpec::Text(c@)],
        category is None ==> st.sql@ == "SELECT g.id, g.name, g.type, g.sort_order, COUNT(mg.movie_id)\n         FROM groups g LEFT JOIN movie_groups mg ON g.id = mg.group_id\n          GROUP BY g.id ORDER BY g.sort_order"@
            && st.args@.len() == 0,
{
    match category {
        Some(c) => {
            let mut args: Vec<SqlArg> = Vec::new();
            args.push(SqlArg::Text(String::from_str(c)));
            assert(arg_specs(args@) =~= seq![ArgSpec::Text(c@)]);
            Statement {
                sql: String::from_str("SELECT g.id, g.name, g.type, g.sort_order, COUNT(mg.movie_id)\n         FROM groups g LEFT JOIN movie_groups mg ON g.id = mg.group_id\n         WHERE g.type = ?1 GROUP BY g.id ORDER BY g.sort_order"),
                args,
            }
        },
        None => Statement {
            sql: String::from_str("SELECT g.id, g.name, g.type, g.sort_order, COUNT(mg.movie_id)\n         FROM groups g LEFT JOIN movie_groups mg ON g.id = mg.group_id\n          GROUP BY g.id ORDER BY g.sort_order"),
            args: Vec::new(),
        },
    }
}

/// A new group's type: the one given, else `manual`.
pub fn group_type_or_manual(group_type: Option<String>) -> (r: String)
    ensures
        group_type matches Some(t) ==> r@ == t@,
        group_type is None ==> r@ == "manual"@,
{
    match group_type {
        Some(t) => t,
        None => String::from_str("manual"),
    }
}

/// The refusal of a group name already used by a group of the same type.
pub fn duplicate_group_error(name: &str) -> (e: CommandError)
    ensures
        e.code == INVALID_INPUT,
        e.message@ == "该类型下分组「"@ + name@ + "」已存在"@,
{
    let msg = String::from_str("该类型下分组「").concat(name).concat("」已存在");
    CommandError::invalid_input(msg.as_str())
}

/// A group just created: sort order 0 and no movies.
pub fn new_group_item(id: i64, name: String, group_type: String) -> (g: GroupItem)
    ensures
        g.id == id && g.name@ == name@ && g.group_type@ == group_type@ && g.sort_order == 0 && g.movie_count == 0,
{
    GroupItem { id, name, group_type, sort_order: 0, movie_count: 0 }
}

/// An actress group just created: sort order 0 and no members.
pub fn new_actress_group_item(id: i64, name: String) -> (g: ActressGroupItem)
    ensures
        g.id == id && g.name@ == name@ && g.sort_order == 0 && g.member_count == 0,
{
    ActressGroupItem { id, name, sort_order: 0, member_count: 0 }
}

/// The new sort orders of the groups: each id gets its position in the list.
pub fn reorder_plan(ordered_ids: &Vec<i64>) -> (plan: Vec<(i64, i64)>)
    requires
        ordered_ids@.len() <= i64::MAX,
    ensures
        plan@.len() == ordered_ids@.len(),
        forall|i: int| 0 <= i < plan@.len() ==> (#[trigger] plan@[i]) == (i as i64, ordered_ids@[i]),
{
    let mut plan: Vec<(i64, i64)> = Vec::new();
    for k in 0..ordered_ids.len()
        invariant
            ordered_ids@.len() <= i64::MAX,
            plan@.len() == k,
            forall|i: int| 0 <= i < k ==> (#[trigger] plan@[i]) == (i as i64, ordered_ids@[i]),
    {
        plan.push((k as i64, ordered_ids[k]));
    }
    plan
}

/// The report of clearing every group: movie groups, actress groups, movie memberships,
/// actress memberships, in that order.
pub fn clean_groups_message(groups: usize, actress_groups: usize, movie_links: usize, actress_links: usize) -> (r: String)
    ensures
        r@ == "已清理: "@ + crate::text::decimal(groups as nat) + "个影片分组, "@ + crate::text::decimal(actress_groups as nat)
            + "个演员分组, "@ + crate::text::decimal(movie_links as nat) + "个影片关联, "@
            + crate::text::decimal(actress_links as nat) + "个演员关联"@,
{
    let mut s = String::from_str("已清理: ");
    s = s.concat(crate::text::string_of(&crate::text::decimal_chars(groups as u64)).as_str());
    s = s.concat("个影片分组, ");
    s = s.concat(crate::text::string_of(&crate::text::decimal_chars(actress_groups as u64)).as_str());
    s = s.concat("个演员分组, ");
    s = s.concat(crate::text::string_of(&crate::text::decimal_chars(movie_links as u64)).as_str());
    s = s.concat("个影片关联, ");
    s = s.concat(crate::text::string_of(&crate::text::decimal_chars(actress_links as u64)).as_str());
    s.concat("个演员关联")
}

/// A movie's play progress as stored (0, 0, 0 when there is none).
pub struct ProgressRow {
    pub progress: i64,
    pub duration: i64,
    pub is_finished: i32,
}

/// A movie's play progress as the player commands answer with it.
pub struct ProgressResponse {
    pub progress: i64,
    pub duration: i64,
    pub is_finished: i32,
}

/// The progress of a movie that was never played.
pub fn no_progress() -> (p: ProgressRow)
    ensures
        p.progress == 0 && p.duration == 0 && p.is_finished == 0,
{
    ProgressRow { progress: 0, duration: 0, is_finished: 0 }
}

/// A progress row as the player answers with it.
pub fn progress_response(p: ProgressRow) -> (r: ProgressResponse)
    ensures
        r.progress == p.progress && r.duration == p.duration && r.is_finished == p.is_finished,
{
    ProgressResponse { progress: p.progress, duration: p.duration, is_finished: p.is_finished }
}

/// Whether saved progress counts as finished: it reached a known duration.
pub fn progress_finished(progress: i64, duration: i64) -> (f: bool)
    ensures
        f == (progress >= duration && duration > 0),
{
    progress >= duration && duration > 0
}

/// A genre of the translation library: its Japanese name, its Chinese name, and whether
/// it is blacklisted.
pub struct GenreTranslation {
    pub ja_name: String,
    pub cn_name: String,
    pub blacklisted: bool,
}

/// A stored translation as a library entry.
pub fn genre_translation(row: (String, String, bool)) -> (g: GenreTranslation)
    ensures
        g.ja_name@ == row.0@ && g.cn_name@ == row.1@ && g.blacklisted == row.2,
{
    GenreTranslation { ja_name: row.0, cn_name: row.1, blacklisted: row.2 }
}

/// The filters of the movie listing.
pub struct FilterParams {
    pub keyword: Option<String>,
    pub year: Option<i32>,
    pub genre: Option<String>,
    pub group_id: Option<i64>,
    pub is_hidden: Option<bool>,
    pub is_finished: Option<bool>,
    pub favorites_only: Option<bool>,
}

/// The page size of the movie listing: the one asked for, else 20.
pub open spec fn page_size_of(page_size: Option<i64>) -> i64 {
    match page_size { Some(p) => p, None => 20 }
}

/// The statements of a page of the movie listing under the filters.
pub fn get_movies(filters: &FilterParams, sort: &str, page: i64, page_size: Option<i64>) -> (q: PagedQuery)
    requires
        i64::MIN <= (page - 1) * page_size_of(page_size) <= i64::MAX,
        page > i64::MIN,
    ensures
        ({
            let ps = page_size_of(page_size);
            let kw = match filters.keyword { Some(k) => Some(k@), None => None };
            let g = match filters.genre { Some(k) => Some(k@), None => None };
            let w = crate::sql::movie_where(kw, filters.year, g, filters.group_id, filters.is_hidden, filters.favorites_only);
            let fs = crate::sql::movie_filters(kw, filters.year, g, filters.group_id, filters.is_hidden);
            &&& q.count.sql@ == "SELECT COUNT(*) FROM movies m WHERE "@ + w
            &&& arg_specs(q.count.args@) == crate::sql::filter_args(fs)
            &&& q.page.sql@ == crate::sql::movie_page_sql(w, crate::sql::movie_order(sort@), fs.len())
            &&& arg_specs(q.page.args@) == crate::sql::paged_args(crate::sql::filter_args(fs), page, ps)
        }),
{
    let ps = match page_size { Some(p) => p, None => 20 };
    let kw = match &filters.keyword { Some(k) => Some(k.as_str()), None => None };
    let g = match &filters.genre { Some(k) => Some(k.as_str()), None => None };
    crate::sql::get_movies_paginated(kw, filters.year, g, filters.group_id, filters.is_hidden, filters.favorites_only, sort, page, ps)
}

/// A movie's genres from their stored JSON list: none when absent or unreadable.
pub open spec fn genres_of(genre_json: Option<Seq<char>>) -> Seq<Seq<char>> {
    match genre_json {
        Some(g) => match json_string_list(g) { Some(l) => l, None => Seq::empty() },
        None => Seq::empty(),
    }
}

/// A movie's genres from their stored JSON list.
pub fn parse_genre(genre_json: &Option<String>) -> (r: Vec<String>)
    ensures
        strs(r@) == genres_of(match genre_json { Some(g) => Some(g@), None => None }),
{
    match genre_json {
        Some(g) => match parse_string_list(g.as_str()) {
            Some(l) => l,
            None => Vec::new(),
        },
        None => Vec::new(),
    }
}

/// What a batch action on movies does.
pub enum BatchAction {
    /// Marks each movie's progress as finished at its duration.
    MarkWatched,
    /// Forgets each movie's progress.
    MarkUnwatched,
    /// Only logs the request.
    Rescrape,
}

/// The batch action named `action`; another name is refused with `未知操作`.
pub fn batch_action_of(action: &str) -> (r: Result<BatchAction, CommandError>)
    ensures
        action@ == "mark_watched"@ ==> r matches Ok(BatchAction::MarkWatched),
        action@ == "mark_unwatched"@ ==> r matches Ok(BatchAction::MarkUnwatched),
        action@ == "rescrape"@ ==> r matches Ok(BatchAction::Rescrape),
        action@ != "mark_watched"@ && action@ != "mark_unwatched"@ && action@ != "rescrape"@
            ==> (r matches Err(e) && e.code == INVALID_INPUT && e.message@ == "未知操作"@),
{
    proof {
        reveal_strlit("mark_watched");
        reveal_strlit("mark_unwatched");
        reveal_strlit("rescrape");
        assert("mark_unwatched"@.len() != "mark_watched"@.len());
        assert("rescrape"@.len() != "mark_watched"@.len());
        assert("rescrape"@.len() != "mark_unwatched"@.len());
    }
    let a = chars_of(action);
    if chars_eq(&a, &chars_of("mark_watched")) {
        Ok(BatchAction::MarkWatched)
    } else if chars_eq(&a, &chars_of("mark_unwatched")) {
        Ok(BatchAction::MarkUnwatched)
    } else if chars_eq(&a, &chars_of("rescrape")) {
        Ok(BatchAction::Rescrape)
    } else {
        Err(CommandError::invalid_input("未知操作"))
    }
}

/// A drive root as the file commands answer with it.
pub struct RootItem {
    pub cid: String,
    pub name: String,
}

/// The roots among the drive's top-level entries: its folders, in order.
pub open spec fn roots_of(entries: Seq<crate::pan115::FileInfo>) -> Seq<(Seq<char>, Seq<char>)>
    decreases entries.len(),
{
    if entries.len() == 0 {
        Seq::empty()
    } else {
        let prev = roots_of(entries.drop_last());
        let f = entries.last();
        if f.is_dir { prev.push((f.cid@, f.name@)) } else { prev }
    }
}

/// The view of a list of roots.
pub open spec fn root_views(v: Seq<RootItem>) -> Seq<(Seq<char>, Seq<char>)> {
    Seq::new(v.len(), |i: int| (v[i].cid@, v[i].name@))
}

/// The drive's folders among its top-level entries, as roots.
pub fn root_items(entries: Vec<crate::pan115::FileInfo>) -> (r: Vec<RootItem>)
    ensures
        root_views(r@) == roots_of(entries@),
{
    let mut r: Vec<RootItem> = Vec::new();
    let n = entries.len();
    for k in 0..n
        invariant
            n == entries@.len(),
            root_views(r@) == roots_of(entries@.take(k as int)),
    {
        assert(entries@.take(k + 1).drop_last() =~= entries@.take(k as int));
        assert(entries@.take(k + 1).last() == entries@[k as int]);
        let f = &entries[k];
        if f.is_dir {
            let ghost before = root_views(r@);
            r.push(RootItem { cid: f.cid.clone(), name: f.name.clone() });
            assert(root_views(r@) =~= before.push((f.cid@, f.name@)));
        }
    }
    assert(entries@.take(n as int) =~= entries@);
    r
}

/// A page of a drive folder as the file commands answer with it.
pub struct FileItemResponse {
    pub files: Vec<crate::pan115::FileInfo>,
    pub total: i64,
}

/// What testing a source's address gives: the answer's status and the time it took.
pub struct TestSourceResult {
    pub status: u16,
    pub time_ms: u64,
}

/// An actress as the lookup by name or alias reads her.
pub struct ActressRow {
    pub id: i64,
    pub name: String,
    pub avatar_local: Option<String>,
    pub debut_year: Option<i32>,
    pub height: Option<i32>,
    pub bust: Option<i32>,
    pub waist: Option<i32>,
    pub hip: Option<i32>,
    pub cup: Option<String>,
    pub letter: Option<String>,
    pub movie_count: i64,
}

/// An actress found by name or alias as a listing item: the lookup does not read the
/// folder, pending flag or source, so she has no folder, is not pending and has no source.
pub fn actress_item_of(row: ActressRow) -> (a: crate::actress_listing::ActressItem)
    ensures
        a.id == row.id && a.name@ == row.name@ && a.avatar_local == row.avatar_local,
        a.debut_year == row.debut_year && a.height == row.height && a.bust == row.bust,
        a.waist == row.waist && a.hip == row.hip && a.cup == row.cup && a.letter == row.letter,
        a.movie_count == row.movie_count,
        a.local_folder_name is None && !a.is_pending && a.source is None,
{
    crate::actress_listing::ActressItem {
        id: row.id,
        name: row.name,
        avatar_local: row.avatar_local,
        debut_year: row.debut_year,
        height: row.height,
        bust: row.bust,
        waist: row.waist,
        hip: row.hip,
        cup: row.cup,
        letter: row.letter,
        movie_count: row.movie_count,
        local_folder_name: None,
        is_pending: false,
        source: None,
    }
}

/// The fields an actress edit may carry, as the edit gives them.
pub struct ActressUpdate {
    pub name: Option<String>,
    pub debut_year: Option<i64>,
    pub height: Option<i64>,
    pub bust: Option<i64>,
    pub waist: Option<i64>,
    pub hip: Option<i64>,
    pub cup: Option<String>,
    pub source: Option<String>,
    pub is_pending: Option<bool>,
}

/// The statement that sets one column of actress `?2` to `?1`.
pub open spec fn set_column_sql(column: Seq<char>) -> Seq<char> {
    "UPDATE av_actors SET "@ + column + " = ?1 WHERE id = ?2"@
}

/// The column and value of one field of an edit, when it is given; numbers are stored as
/// 32-bit values (truncated) and the pending flag as 0 or 1.
pub open spec fn field_update(column: Seq<char>, value: Option<ArgSpec>) -> Seq<(Seq<char>, ArgSpec)> {
    match value { Some(v) => seq![(column, v)], None => Seq::empty() }
}

/// A number as it is stored: truncated to 32 bits.
pub open spec fn stored_i32(v: Option<i64>) -> Option<ArgSpec> {
    match v { Some(x) => Some(ArgSpec::Int((x as i32) as int)), None => None }
}

/// A text as it is stored.
pub open spec fn stored_text(v: Option<String>) -> Option<ArgSpec> {
    match v { Some(x) => Some(ArgSpec::Text(x@)), None => None }
}

/// The columns an edit sets, in the order name, debut year, height, bust, waist, hip, cup,
/// source, pending flag, with their values.
pub open spec fn actress_updates(u: ActressUpdate) -> Seq<(Seq<char>, ArgSpec)> {
    field_update("name"@, stored_text(u.name))
        + field_update("debut_year"@, stored_i32(u.debut_year))
        + field_update("height"@, stored_i32(u.height))
        + field_update("bust"@, stored_i32(u.bust))
        + field_update("waist"@, stored_i32(u.waist))
        + field_update("hip"@, stored_i32(u.hip))
        + field_update("cup"@, stored_text(u.cup))
        + field_update("source"@, stored_text(u.source))
        + field_update("is_pending"@, match u.is_pending { Some(b) => Some(ArgSpec::Int(if b { 1 } else { 0 })), None => None })
}

/// Statements each setting one column of actress `id`: the `i`-th binds the `i`-th value
/// as `?1` and the id as `?2`.
pub open spec fn statements_for(id: i64, ups: Seq<(Seq<char>, ArgSpec)>, sts: Seq<Statement>) -> bool {
    &&& sts.len() == ups.len()
    &&& forall|i: int| 0 <= i < sts.len() ==> {
        &&& (#[trigger] sts[i]).sql@ == set_column_sql(ups[i].0)
        &&& arg_specs(sts[i].args@) == seq![ups[i].1, ArgSpec::Int(id as int)]
    }
}

/// The value an argument binds, if any.
pub open spec fn opt_spec(v: Option<SqlArg>) -> Option<ArgSpec> {
    match v { Some(a) => Some(a.spec()), None => None }
}

fn push_update(sts: &mut Vec<Statement>, column: &str, value: Option<SqlArg>, id: i64, Ghost(ups): Ghost<Seq<(Seq<char>, ArgSpec)>>)
    requires
        statements_for(id, ups, old(sts)@),
    ensures
        statements_for(id, ups + field_update(column@, opt_spec(value)), final(sts)@),
{
    match value {
        Some(v) => {
            let sql = String::from_str("UPDATE av_actors SET ").concat(column).concat(" = ?1 WHERE id = ?2");
            let mut args: Vec<SqlArg> = Vec::new();
            let ghost vs = v.spec();
            args.push(v);
            args.push(SqlArg::Int(id));
            assert(arg_specs(args@) =~= seq![vs, ArgSpec::Int(id as int)]);
            sts.push(Statement { sql, args });
            let ghost all = ups + field_update(column@, Some(vs));
            assert(all =~= ups.push((column@, vs)));
        },
        None => {
            assert(ups + field_update(column@, None) =~= ups);
        },
    }
}

fn stored_int(v: Option<i64>) -> (r: Option<SqlArg>)
    ensures
        opt_spec(r) == stored_i32(v),
{
    match v {
        Some(x) => {
            #[verifier::truncate]
            let t: i32 = x as i32;
            Some(SqlArg::Int(t as i64))
        },
        None => None,
    }
}

fn stored_str(v: &Option<String>) -> (r: Option<SqlArg>)
    ensures
        opt_spec(r) == stored_text(*v),
{
    match v {
        Some(x) => Some(SqlArg::Text(x.clone())),
        None => None,
    }
}

/// The statements of an actress edit: one per field it gives, in the order of
/// `actress_updates`.
pub fn update_actress(id: i64, u: ActressUpdate) -> (sts: Vec<Statement>)
    ensures
        statements_for(id, actress_updates(u), sts@),
{
    let mut sts: Vec<Statement> = Vec::new();
    let pending = match u.is_pending { Some(p) => Some(SqlArg::Int(if p { 1 } else { 0 })), None => None };
    let ghost e: Seq<(Seq<char>, ArgSpec)> = Seq::empty();
    push_update(&mut sts, "name", stored_str(&u.name), id, Ghost(e));
    let ghost e1 = e + field_update("name"@, stored_text(u.name));
    push_update(&mut sts, "debut_year", stored_int(u.debut_year), id, Ghost(e1));
    let ghost e2 = e1 + field_update("debut_year"@, stored_i32(u.debut_year));
    push_update(&mut sts, "height", stored_int(u.height), id, Ghost(e2));
    let ghost e3 = e2 + field_update("height"@, stored_i32(u.height));
    push_update(&mut sts, "bust", stored_int(u.bust), id, Ghost(e3));
    let ghost e4 = e3 + field_update("bust"@, stored_i32(u.bust));
    push_update(&mut sts, "waist", stored_int(u.waist), id, Ghost(e4));
    let ghost e5 = e4 + field_update("waist"@, stored_i32(u.waist));
    push_update(&mut sts, "hip", stored_int(u.hip), id, Ghost(e5));
    let ghost e6 = e5 + field_update("hip"@, stored_i32(u.hip));
    push_update(&mut sts, "cup", stored_str(&u.cup), id, Ghost(e6));
    let ghost e7 = e6 + field_update("cup"@, stored_text(u.cup));
    push_update(&mut sts, "source", stored_str(&u.source), id, Ghost(e7));
    let ghost e8 = e7 + field_update("source"@, stored_text(u.source));
    push_update(&mut sts, "is_pending", pending, id, Ghost(e8));
    assert(e + field_update("name"@, stored_text(u.name)) =~= field_update("name"@, stored_text(u.name)));
    sts
}

} // verus!
