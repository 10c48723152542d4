//! Local actress folders: the base directory, name distance for duplicate detection, the
//! conflict policy of a folder merge, and the statements that confirm or reject an actor.

use vstd::prelude::*;
use vstd::string::StringExecFns;
use crate::text::chars_of;

verus! {

/// The smallest of three numbers.
pub open spec fn min3(x: nat, y: nat, z: nat) -> nat {
    let m = if x <= y { x } else { y };
    if m <= z { m } else { z }
}

/// The Levenshtein distance: the fewest single-character insertions, deletions and
/// substitutions that turn `a` into `b`.
pub open spec fn edit_distance(a: Seq<char>, b: Seq<char>) -> nat
    decreases a.len() + b.len(),
{
    if a.len() == 0 {
        b.len()
    } else if b.len() == 0 {
        a.len()
    } else {
        min3(
            edit_distance(a.drop_last(), b) + 1,
            edit_distance(a, b.drop_last()) + 1,
            edit_distance(a.drop_last(), b.drop_last()) + (if a.last() == b.last() { 0nat } else { 1nat }),
        )
    }
}

/// The distance is at most the length of the longer text.
pub proof fn lemma_edit_distance_bound(a: Seq<char>, b: Seq<char>)
    ensures
        edit_distance(a, b) <= (if a.len() >= b.len() { a.len() } else { b.len() }),
    decreases a.len() + b.len(),
{
    if a.len() > 0 && b.len() > 0 {
        lemma_edit_distance_bound(a.drop_last(), b.drop_last());
    }
}

/// The distance is zero exactly when the texts are equal.
pub proof fn law_edit_distance_zero(a: Seq<char>, b: Seq<char>)
    ensures
        (edit_distance(a, b) == 0) == (a == b),
    decreases a.len() + b.len(),
{
    if a.len() == 0 {
        if b.len() == 0 {
            assert(a =~= b);
        }
    } else if b.len() == 0 {
    } else {
        law_edit_distance_zero(a.drop_last(), b.drop_last());
        if a == b {
            assert(a.drop_last() == b.drop_last());
        } else if edit_distance(a, b) == 0 {
            assert(a.last() == b.last());
            assert(a =~= a.drop_last().push(a.last()));
            assert(b =~= b.drop_last().push(b.last()));
        }
    }
}

/// The distance does not depend on which text comes first.
pub proof fn law_edit_distance_symmetric(a: Seq<char>, b: Seq<char>)
    ensures
        edit_distance(a, b) == edit_distance(b, a),
    decreases a.len() + b.len(),
{
    if a.len() > 0 && b.len() > 0 {
        law_edit_distance_symmetric(a.drop_last(), b);
        law_edit_distance_symmetric(a, b.drop_last());
        law_edit_distance_symmetric(a.drop_last(), b.drop_last());
    }
}

/// The distance is at least the difference of the lengths.
pub proof fn law_edit_distance_length_gap(a: Seq<char>, b: Seq<char>)
    ensures
        (if a.len() >= b.len() { a.len() - b.len() } else { b.len() - a.len() }) <= edit_distance(a, b),
    decreases a.len() + b.len(),
{
    if a.len() > 0 && b.len() > 0 {
        law_edit_distance_length_gap(a.drop_last(), b);
        law_edit_distance_length_gap(a, b.drop_last());
        law_edit_distance_length_gap(a.drop_last(), b.drop_last());
    }
}

/// Going through a third text is never shorter: the distance obeys the triangle inequality.
pub proof fn law_edit_distance_triangle(a: Seq<char>, b: Seq<char>, c: Seq<char>)
    ensures
        edit_distance(a, c) <= edit_distance(a, b) + edit_distance(b, c),
    decreases a.len() + b.len() + c.len(),
{
    if a.len() == 0 {
        law_edit_distance_length_gap(b, c);
    } else if b.len() == 0 {
        lemma_edit_distance_bound(a, c);
    } else if c.len() == 0 {
        law_edit_distance_length_gap(a, b);
    } else {
        let (a1, b1, c1) = (a.drop_last(), b.drop_last(), c.drop_last());
        law_edit_distance_triangle(a1, b, c);
        law_edit_distance_triangle(a, b, c1);
        law_edit_distance_triangle(a, b1, c);
        law_edit_distance_triangle(a, b1, c1);
        law_edit_distance_triangle(a1, b1, c);
        law_edit_distance_triangle(a1, b1, c1);
        assert(edit_distance(a, c) <= edit_distance(a1, c) + 1);
        assert(edit_distance(a, c) <= edit_distance(a, c1) + 1);
        assert(edit_distance(a, c) <= edit_distance(a1, c1) + (if a.last() == c.last() { 0nat } else { 1nat }));
    }
}

/// The distance from a text to the empty text is its length, both ways round.
pub proof fn law_edit_distance_empty(a: Seq<char>)
    ensures
        edit_distance(a, Seq::empty()) == a.len(),
        edit_distance(Seq::empty(), a) == a.len(),
{
}

/// The Levenshtein distance between the characters of `a` and of `b`.
pub fn levenshtein_distance(a: &str, b: &str) -> (d: usize)
    requires
        a@.len() < usize::MAX,
        b@.len() < usize::MAX,
    ensures
        d == edit_distance(a@, b@),
{
    let ac = chars_of(a);
    let bc = chars_of(b);
    let len_a = ac.len();
    let len_b = bc.len();
    let mut prev: Vec<usize> = Vec::new();
    let mut j: usize = 0;
    while j <= len_b
        invariant
            len_b == bc@.len(),
            len_b < usize::MAX,
            j <= len_b + 1,
            prev@.len() == j,
            forall|k: int| 0 <= k < j ==> prev@[k] == edit_distance(Seq::<char>::empty(), bc@.take(k)),
        decreases len_b + 1 - j,
    {
        proof {
            assert(edit_distance(Seq::<char>::empty(), bc@.take(j as int)) == j);
        }
        prev.push(j);
        j += 1;
    }
    let mut i: usize = 1;
    while i <= len_a
        invariant
            len_a == ac@.len(),
            len_b == bc@.len(),
            len_a < usize::MAX,
            len_b < usize::MAX,
            1 <= i <= len_a + 1,
            prev@.len() == len_b + 1,
            forall|k: int| 0 <= k <= len_b ==> prev@[k] == edit_distance(ac@.take(i - 1), bc@.take(k)),
        decreases len_a + 1 - i,
    {
        let ghost ai = ac@.take(i as int);
        let ghost ap = ac@.take(i - 1);
        assert(ai.drop_last() =~= ap);
        assert(ai.last() == ac@[i - 1]);
        let mut cur: Vec<usize> = Vec::new();
        proof {
            assert(bc@.take(0) =~= Seq::<char>::empty());
        }
        cur.push(i);
        let mut j: usize = 1;
        while j <= len_b
            invariant
                len_a == ac@.len(),
                len_b == bc@.len(),
                len_a < usize::MAX,
                len_b < usize::MAX,
                1 <= i <= len_a,
                1 <= j <= len_b + 1,
                ai == ac@.take(i as int),
                ap == ac@.take(i - 1),
                ai.drop_last() == ap,
                ai.last() == ac@[i - 1],
                prev@.len() == len_b + 1,
                cur@.len() == j,
                forall|k: int| 0 <= k <= len_b ==> prev@[k] == edit_distance(ap, bc@.take(k)),
                forall|k: int| 0 <= k < j ==> cur@[k] == edit_distance(ai, bc@.take(k)),
            decreases len_b + 1 - j,
        {
            let ghost bj = bc@.take(j as int);
            assert(bj.drop_last() =~= bc@.take(j - 1));
            assert(bj.last() == bc@[j - 1]);
            proof {
                lemma_edit_distance_bound(ap, bj);
                lemma_edit_distance_bound(ai, bc@.take(j - 1));
                lemma_edit_distance_bound(ap, bc@.take(j - 1));
            }
            let cost: usize = if ac[i - 1] == bc[j - 1] { 0 } else { 1 };
            let up = prev[j] + 1;
            let left = cur[j - 1] + 1;
            let diag = prev[j - 1] + cost;
            let m1 = if up <= left { up } else { left };
            let m = if m1 <= diag { m1 } else { diag };
            cur.push(m);
            j += 1;
        }
        prev = cur;
        i += 1;
    }
    proof {
        assert(ac@.take(len_a as int) =~= ac@);
        assert(bc@.take(len_b as int) =~= bc@);
    }
    prev[len_b]
}

/// The letter under which a name is filed: its first character in upper case, or `#`
/// for an empty name.
pub open spec fn first_letter(name: Seq<char>) -> Seq<char> {
    if name.len() == 0 {
        "#"@
    } else {
        crate::filename_parser::str_upper(seq![name[0]])
    }
}

/// The letter under which a name is filed.
pub fn first_char_upper(name: &str) -> (r: String)
    ensures
        r@ == first_letter(name@),
{
    proof { reveal_strlit("#"); }
    let cs = chars_of(name);
    if cs.len() == 0 {
        return String::from_str("#");
    }
    let mut one = String::new();
    crate::text::push_char(&mut one, cs[0]);
    assert(one@ =~= seq![name@[0]]);
    crate::filename_parser::upper_string(one.as_str())
}

/// The folder that holds the actors' pictures when none is configured.
pub open spec fn default_actor_base_dir() -> Seq<char> {
    "D:\\Media Library\\Actor Information\\picture"@
}

/// The configured actor folder, or the default one.
pub fn get_actor_base_dir(configured: Option<String>) -> (r: String)
    ensures
        r@ == (match configured { Some(p) => p@, None => default_actor_base_dir() }),
{
    match configured {
        Some(p) => p,
        None => String::from_str("D:\\Media Library\\Actor Information\\picture"),
    }
}

/// What a folder merge does with a file whose name is already taken in the target folder:
/// `"overwrite"` copies over it, `"skip"` leaves it, anything else copies it under a new
/// name.
pub enum ConflictAction {
    Copy,
    Overwrite,
    Skip,
    CopyRenamed,
}

/// The action for one file of a folder merge.
pub open spec fn conflict_action_spec(policy: Seq<char>, target_exists: bool) -> ConflictAction {
    if !target_exists {
        ConflictAction::Copy
    } else if policy == "overwrite"@ {
        ConflictAction::Overwrite
    } else if policy == "skip"@ {
        ConflictAction::Skip
    } else {
        ConflictAction::CopyRenamed
    }
}

/// The action for one file of a folder merge under `policy`.
pub fn conflict_action(policy: &str, target_exists: bool) -> (r: ConflictAction)
    ensures
        r == conflict_action_spec(policy@, target_exists),
{
    if !target_exists {
        return ConflictAction::Copy;
    }
    let p = chars_of(policy);
    let o = chars_of("overwrite");
    let s = chars_of("skip");
    if crate::text::chars_eq(&p, &o) {
        ConflictAction::Overwrite
    } else if crate::text::chars_eq(&p, &s) {
        ConflictAction::Skip
    } else {
        ConflictAction::CopyRenamed
    }
}

/// One file of a folder merge: in a dry run only previewed (reported, nothing on disk
/// touched), otherwise applied; either way with the action its conflict policy gives.
pub enum FileMergeStep {
    Preview(ConflictAction),
    Apply(ConflictAction),
}

/// The step for one file of a folder merge: the action `conflict_action` gives, previewed
/// in a dry run and applied otherwise.
pub fn file_merge_step(policy: &str, target_exists: bool, dry_run: bool) -> (a: FileMergeStep)
    ensures
        dry_run ==> a == FileMergeStep::Preview(conflict_action_spec(policy@, target_exists)),
        !dry_run ==> a == FileMergeStep::Apply(conflict_action_spec(policy@, target_exists)),
{
    let action = conflict_action(policy, target_exists);
    if dry_run { FileMergeStep::Preview(action) } else { FileMergeStep::Apply(action) }
}

/// The new name of a file copied under a taken name: `{stem}_1.{ext}`.
pub fn renamed_file_name(stem: &str, ext: &str) -> (r: String)
    ensures
        r@ == stem@ + "_1."@ + ext@,
{
    let a = String::from_str(stem);
    let b = a.concat("_1.");
    b.concat(ext)
}

/// The conflict policy of a merge request that names none.
pub fn default_conflict_policy() -> (r: String)
    ensures
        r@ == "rename"@,
{
    String::from_str("rename")
}

/// Whether a merge request that does not say is a dry run: it is.
pub fn default_dry_run() -> (r: bool)
    ensures
        r,
{
    true
}

/// Whether renaming actor folders on disk is allowed: only when the setting is `1`
/// (it is `0` when unset).
pub fn folder_rename_allowed(setting: Option<&str>) -> (b: bool)
    ensures
        b == (setting matches Some(v) && v@ == "1"@),
{
    match setting {
        Some(v) => crate::text::chars_eq(&chars_of(v), &chars_of("1")),
        None => false,
    }
}

/// The outcome of renaming an actor.
pub struct RenameResult {
    pub success: bool,
    pub error: Option<String>,
}

/// What renaming an actor does: whether the folder is renamed on disk, and the statement
/// that renames the actor (and its folder name, when it has a folder and the folder is
/// to be renamed). The statement binds the new name as `?1` and the id as `?2`.
pub struct RenamePlan {
    pub rename_on_disk: bool,
    pub statement: crate::sql::Statement,
}

/// The plan for renaming an actor: the folder is renamed on disk when asked, when the
/// actor has a folder, the old folder exists, the new one does not, and renaming is
/// allowed; the folder name is updated whenever asked and the actor has a folder.
pub fn rename_actor_plan(actor_id: i64, new_name: &str, rename_folder: bool, has_folder: bool, old_exists: bool, new_exists: bool, allow_setting: Option<&str>) -> (p: RenamePlan)
    ensures
        p.rename_on_disk == (rename_folder && has_folder && old_exists && !new_exists
            && (allow_setting matches Some(v) && v@ == "1"@)),
        rename_folder && has_folder ==> p.statement.sql@ == "UPDATE av_actors SET name = ?1, local_folder_name = ?1 WHERE id = ?2"@,
        !(rename_folder && has_folder) ==> p.statement.sql@ == "UPDATE av_actors SET name = ?1 WHERE id = ?2"@,
        crate::sql::arg_specs(p.statement.args@) == seq![crate::sql::ArgSpec::Text(new_name@), crate::sql::ArgSpec::Int(actor_id as int)],
{
    let on_disk = rename_folder && has_folder && old_exists && !new_exists && folder_rename_allowed(allow_setting);
    let sql = if rename_folder && has_folder {
        String::from_str("UPDATE av_actors SET name = ?1, local_folder_name = ?1 WHERE id = ?2")
    } else {
        String::from_str("UPDATE av_actors SET name = ?1 WHERE id = ?2")
    };
    let mut args: Vec<crate::sql::SqlArg> = Vec::new();
    args.push(crate::sql::SqlArg::Text(String::from_str(new_name)));
    args.push(crate::sql::SqlArg::Int(actor_id));
    assert(crate::sql::arg_specs(args@) =~= seq![crate::sql::ArgSpec::Text(new_name@), crate::sql::ArgSpec::Int(actor_id as int)]);
    RenamePlan { rename_on_disk: on_disk, statement: crate::sql::Statement { sql, args } }
}

/// How two actresses are merged.
pub struct MergeOptions {
    pub merge_folders: bool,
    pub conflict_policy: String,
    pub dry_run: bool,
}

/// A file copied under a new name during a folder merge.
pub struct FileRename {
    pub from: String,
    pub to: String,
}

/// The outcome of merging two actresses.
pub struct MergeResult {
    pub success: bool,
    pub moved_files: Vec<String>,
    pub conflicts: Vec<String>,
    pub renamed_files: Vec<FileRename>,
    pub error: Option<String>,
}

/// Whether the folders are merged: when asked and both actresses have a folder.
pub fn merges_folders(options: &MergeOptions, source_folder: &Option<String>, target_folder: &Option<String>) -> (b: bool)
    ensures
        b == (options.merge_folders && source_folder is Some && target_folder is Some),
{
    options.merge_folders && source_folder.is_some() && target_folder.is_some()
}

/// Whether a merge changes anything beyond listing what it would do: not in a dry run.
pub fn merge_applies(options: &MergeOptions) -> (b: bool)
    ensures
        b == !options.dry_run,
{
    !options.dry_run
}

/// A merge whose folder merge failed: what was done so far, and the error
/// `文件夹合并失败: <reason>`.
pub fn merge_failed(moved_files: Vec<String>, conflicts: Vec<String>, renamed_files: Vec<FileRename>, reason: &str) -> (r: MergeResult)
    ensures
        !r.success,
        r.moved_files@ == moved_files@,
        r.conflicts@ == conflicts@,
        r.renamed_files@ == renamed_files@,
        r.error matches Some(e) && e@ == "文件夹合并失败: "@ + reason@,
{
    let e = String::from_str("文件夹合并失败: ").concat(reason);
    MergeResult { success: false, moved_files, conflicts, renamed_files, error: Some(e) }
}

/// A merge that went through.
pub fn merge_succeeded(moved_files: Vec<String>, conflicts: Vec<String>, renamed_files: Vec<FileRename>) -> (r: MergeResult)
    ensures
        r.success,
        r.moved_files@ == moved_files@,
        r.conflicts@ == conflicts@,
        r.renamed_files@ == renamed_files@,
        r.error is None,
{
    MergeResult { success: true, moved_files, conflicts, renamed_files, error: None }
}

/// The counts of a scan of the actor folder: folders seen, and actresses added for the
/// folders not known yet.
pub struct ScanResult {
    pub added: i64,
    pub total: i64,
}

impl ScanResult {
    /// A scan that has seen nothing.
    pub fn new() -> (r: Self)
        ensures
            r.added == 0,
            r.total == 0,
    {
        ScanResult { added: 0, total: 0 }
    }

    /// Counts one folder; one not known yet adds an actress.
    pub fn record_folder(&mut self, known: bool)
        requires
            old(self).total < i64::MAX,
            old(self).added <= old(self).total,
        ensures
            final(self).total == old(self).total + 1,
            final(self).added == old(self).added + (if known { 0int } else { 1int }),
            final(self).added <= final(self).total,
    {
        self.total = self.total + 1;
        if !known {
            self.added = self.added + 1;
        }
    }
}

} // verus!
