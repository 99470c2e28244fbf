//! Summary of all file changes in a session: per-file statistics keyed by
//! path, folded out of the diff payloads of a list of tool calls.

use vstd::prelude::*;

use crate::diff::FileChangeStats;
use crate::diff::FileStatsView;
use crate::diff::count_deletions;
use crate::diff::count_insertions;
use crate::diff::line_count;
use crate::diff::line_diff_tags;
use crate::tool_call::ToolCall;
use crate::tool_call::ToolCallContent;

verus! {

/// The models of a sequence of per-file statistics.
pub open spec fn views_of(s: Seq<FileChangeStats>) -> Seq<FileStatsView> {
    s.map(|i: int, f: FileChangeStats| f@)
}

/// The statistics one diff payload yields, as `FileChangeStats::from_diff`
/// computes them.
pub open spec fn spec_diff_stats(
    path: Seq<char>,
    old_text: Option<Seq<char>>,
    new_text: Seq<char>,
) -> FileStatsView {
    match old_text {
        None => FileStatsView {
            path,
            additions: line_count(new_text),
            deletions: 0,
            is_new_file: true,
        },
        Some(o) => FileStatsView {
            path,
            additions: count_insertions(line_diff_tags(o, new_text)),
            deletions: count_deletions(line_diff_tags(o, new_text)),
            is_new_file: false,
        },
    }
}

/// Whether some entry carries this path.
pub open spec fn has_path(files: Seq<FileStatsView>, path: Seq<char>) -> bool {
    exists|i: int| 0 <= i < files.len() && #[trigger] files[i].path == path
}

/// The index of the entry carrying this path; meaningful only under
/// `has_path` and unique paths.
pub open spec fn path_index(files: Seq<FileStatsView>, path: Seq<char>) -> int {
    choose|i: int| 0 <= i < files.len() && #[trigger] files[i].path == path
}

/// Inserting statistics into the summary: a present path is overwritten in
/// place, a new path is appended.
pub open spec fn spec_upsert(files: Seq<FileStatsView>, st: FileStatsView) -> Seq<FileStatsView> {
    if has_path(files, st.path) {
        files.update(path_index(files, st.path), st)
    } else {
        files.push(st)
    }
}

/// Folding one tool-call content item into the summary: only diff payloads
/// contribute.
pub open spec fn spec_content_step(
    files: Seq<FileStatsView>,
    c: ToolCallContent,
) -> Seq<FileStatsView> {
    match c {
        ToolCallContent::Diff { diff } => spec_upsert(
            files,
            spec_diff_stats(
                diff.path@,
                match diff.old_text {
                    Some(o) => Some(o@),
                    None => None,
                },
                diff.new_text@,
            ),
        ),
        _ => files,
    }
}

/// Folding a tool call's content items into the summary, in order.
pub open spec fn spec_fold_contents(
    files: Seq<FileStatsView>,
    cs: Seq<ToolCallContent>,
) -> Seq<FileStatsView>
    decreases cs.len(),
{
    if cs.len() == 0 {
        files
    } else {
        spec_content_step(spec_fold_contents(files, cs.drop_last()), cs.last())
    }
}

/// Folding a list of tool calls into the summary, in order.
pub open spec fn spec_fold_calls(
    files: Seq<FileStatsView>,
    calls: Seq<ToolCall>,
) -> Seq<FileStatsView>
    decreases calls.len(),
{
    if calls.len() == 0 {
        files
    } else {
        spec_fold_contents(spec_fold_calls(files, calls.drop_last()), calls.last().content@)
    }
}

/// The summary that a list of tool calls yields: every diff payload across
/// all calls, in order, folded into an empty summary.
pub open spec fn spec_aggregate(calls: Seq<ToolCall>) -> Seq<FileStatsView> {
    spec_fold_calls(Seq::empty(), calls)
}

/// Aggregating a tool-call list is a function of the list alone, so doing it
/// twice yields identical summaries.
pub proof fn lemma_aggregate_idempotent(
    calls: Seq<ToolCall>,
    first: Seq<FileStatsView>,
    second: Seq<FileStatsView>,
)
    requires
        first == spec_aggregate(calls),
        second == spec_aggregate(calls),
    ensures
        first == second,
{
}

/// Summary of all file changes in a session, keyed by path. Entries keep the
/// order in which their paths first appeared; re-diffing a path overwrites
/// its entry in place.
#[derive(Debug)]
pub struct DiffSummaryData {
    pub files: Vec<FileChangeStats>,
}

impl DiffSummaryData {
    /// Paths are unique, and each entry's change total fits a `usize`.
    pub open spec fn wf(self) -> bool {
        &&& forall|i: int, j: int|
            0 <= i < j < self.files@.len() ==> self.files@[i].path@ != self.files@[j].path@
        &&& forall|i: int|
            0 <= i < self.files@.len() ==> (#[trigger] self.files@[i]).additions
                + self.files@[i].deletions <= usize::MAX
    }

    /// Creates an empty summary.
    pub fn new() -> (r: DiffSummaryData)
        ensures
            r.files@.len() == 0,
            r.wf(),
    {
        DiffSummaryData { files: Vec::new() }
    }

    /// Inserts statistics, as `spec_upsert` states.
    fn upsert(&mut self, st: FileChangeStats)
        requires
            old(self).wf(),
            st.additions + st.deletions <= usize::MAX,
        ensures
            final(self).wf(),
            views_of(final(self).files@) == spec_upsert(views_of(old(self).files@), st@),
    {
        let n = self.files.len();
        let mut i: usize = 0;
        while i < n
            invariant
                i <= n,
                n == self.files@.len(),
                *self == *old(self),
                old(self).wf(),
                st.additions + st.deletions <= usize::MAX,
                forall|j: int| 0 <= j < i ==> #[trigger] self.files@[j].path@ != st.path@,
            decreases n - i,
        {
            if self.files[i].path == st.path {
                proof {
                    let pre = views_of(self.files@);
                    assert(pre[i as int].path == st@.path);
                    assert(has_path(pre, st@.path));
                    let k = path_index(pre, st@.path);
                    assert(pre[k].path == st@.path);
                    assert(self.files@[k].path@ == st.path@);
                    if k != i as int {
                        if k < i as int {
                            assert(self.files@[k].path@ != self.files@[i as int].path@);
                        } else {
                            assert(self.files@[i as int].path@ != self.files@[k].path@);
                        }
                    }
                    assert(k == i as int);
                }
                self.files.set(i, st);
                proof {
                    let pre = views_of(old(self).files@);
                    assert(views_of(self.files@) =~= pre.update(i as int, st@));
                    assert forall|a: int, b: int|
                        0 <= a < b < self.files@.len() implies self.files@[a].path@
                        != self.files@[b].path@ by {
                        assert(old(self).files@[a].path@ != old(self).files@[b].path@);
                        assert(old(self).files@[a].path@ == pre[a].path);
                        assert(old(self).files@[b].path@ == pre[b].path);
                    }
                    assert forall|a: int|
                        0 <= a < self.files@.len() implies (#[trigger] self.files@[a]).additions
                        + self.files@[a].deletions <= usize::MAX by {
                        if a != i as int {
                            assert(old(self).files@[a].additions + old(self).files@[a].deletions
                                <= usize::MAX);
                        }
                    }
                }
                return ;
            }
            i = i + 1;
        }
        self.files.push(st);
        proof {
            let pre = views_of(old(self).files@);
            assert forall|k: int| 0 <= k < pre.len() implies pre[k].path != st@.path by {
                assert(old(self).files@[k].path@ != st.path@);
            }
            assert(!has_path(pre, st@.path));
            assert(views_of(self.files@) =~= pre.push(st@));
            assert forall|a: int, b: int|
                0 <= a < b < self.files@.len() implies self.files@[a].path@
                != self.files@[b].path@ by {
                if b < old(self).files@.len() {
                    assert(old(self).files@[a].path@ != old(self).files@[b].path@);
                } else {
                    assert(old(self).files@[a].path@ != st.path@);
                }
            }
        }
    }

    /// Extracts the change summary of a list of tool calls: every diff
    /// payload across all calls, in order, is diffed and folded in, keyed by
    /// its path.
    pub fn from_tool_calls(tool_calls: &Vec<ToolCall>) -> (r: DiffSummaryData)
        ensures
            r.wf(),
            views_of(r.files@) == spec_aggregate(tool_calls@),
    {
        let mut summary = DiffSummaryData::new();
        let n = tool_calls.len();
        let mut i: usize = 0;
        proof {
            assert(views_of(summary.files@) =~= Seq::<FileStatsView>::empty());
        }
        while i < n
            invariant
                i <= n,
                n == tool_calls@.len(),
                summary.wf(),
                views_of(summary.files@) == spec_fold_calls(
                    Seq::<FileStatsView>::empty(),
                    tool_calls@.take(i as int),
                ),
            decreases n - i,
        {
            let call = &tool_calls[i];
            let m = call.content.len();
            let ghost folded_so_far = views_of(summary.files@);
            let mut j: usize = 0;
            while j < m
                invariant
                    j <= m,
                    m == call.content@.len(),
                    summary.wf(),
                    views_of(summary.files@) == spec_fold_contents(
                        folded_so_far,
                        call.content@.take(j as int),
                    ),
                decreases m - j,
            {
                proof {
                    assert(call.content@.take(j + 1).drop_last() =~= call.content@.take(
                        j as int,
                    ));
                    assert(call.content@.take(j + 1).last() == call.content@[j as int]);
                }
                match &call.content[j] {
                    ToolCallContent::Diff { diff } => {
                        let old_text: Option<&str> = match &diff.old_text {
                            Some(o) => Some(o.as_str()),
                            None => None,
                        };
                        let st = FileChangeStats::from_diff(
                            diff.path.clone(),
                            old_text,
                            diff.new_text.as_str(),
                        );
                        summary.upsert(st);
                    },
                    _ => {},
                }
                j = j + 1;
            }
            proof {
                assert(call.content@.take(m as int) =~= call.content@);
                assert(tool_calls@.take(i + 1).drop_last() =~= tool_calls@.take(i as int));
                assert(tool_calls@.take(i + 1).last() == tool_calls@[i as int]);
            }
            i = i + 1;
        }
        proof {
            assert(tool_calls@.take(n as int) =~= tool_calls@);
        }
        summary
    }

    /// Number of files changed.
    pub fn total_files(&self) -> (r: usize)
        ensures
            r == self.files@.len(),
    {
        self.files.len()
    }

    /// Whether any file changed.
    pub fn has_changes(&self) -> (r: bool)
        ensures
            r == (self.files@.len() > 0),
    {
        self.files.len() > 0
    }
}

/// Presentation state of the change summary: the data and whether the file
/// list is collapsed.
#[derive(Debug)]
pub struct DiffSummary {
    pub data: DiffSummaryData,
    pub collapsed: bool,
}

impl DiffSummary {
    /// Wraps summary data, initially expanded.
    pub fn new(data: DiffSummaryData) -> (r: DiffSummary)
        ensures
            r.data == data,
            !r.collapsed,
    {
        DiffSummary { data, collapsed: false }
    }

    /// Flips the collapsed state.
    pub fn toggle(&mut self)
        ensures
            final(self).data == old(self).data,
            final(self).collapsed == !old(self).collapsed,
    {
        self.collapsed = !self.collapsed;
    }

    /// Replaces the summary data.
    pub fn update_data(&mut self, data: DiffSummaryData)
        ensures
            final(self).data == data,
            final(self).collapsed == old(self).collapsed,
    {
        self.data = data;
    }
}

/// Change total of one entry: additions plus deletions.
pub open spec fn spec_changes(f: FileChangeStats) -> int {
    f.additions + f.deletions
}

/// Stable descending insertion: the new entry goes after every entry whose
/// change total is at least its own.
pub open spec fn spec_insert_desc(
    s: Seq<FileChangeStats>,
    f: FileChangeStats,
) -> Seq<FileChangeStats>
    decreases s.len(),
{
    if s.len() == 0 {
        seq![f]
    } else if spec_changes(s.last()) < spec_changes(f) {
        spec_insert_desc(s.drop_last(), f).push(s.last())
    } else {
        s.push(f)
    }
}

/// The stable descending sort of the entries by change total: entries with
/// equal totals keep their relative order.
pub open spec fn spec_sorted_by_changes(s: Seq<FileChangeStats>) -> Seq<FileChangeStats>
    decreases s.len(),
{
    if s.len() == 0 {
        Seq::empty()
    } else {
        spec_insert_desc(spec_sorted_by_changes(s.drop_last()), s.last())
    }
}

/// Entries are ordered by change total, descending.
pub open spec fn sorted_desc(s: Seq<FileChangeStats>) -> bool {
    forall|i: int, j: int| 0 <= i <= j < s.len() ==> spec_changes(s[i]) >= spec_changes(s[j])
}

proof fn lemma_insert_desc_elems(s: Seq<FileChangeStats>, f: FileChangeStats)
    ensures
        spec_insert_desc(s, f).len() == s.len() + 1,
        forall|k: int|
            0 <= k < spec_insert_desc(s, f).len() ==> (#[trigger] spec_insert_desc(s, f)[k]) == f
                || exists|m: int| 0 <= m < s.len() && spec_insert_desc(s, f)[k] == #[trigger] s[m],
    decreases s.len(),
{
    if s.len() == 0 {
    } else if spec_changes(s.last()) < spec_changes(f) {
        lemma_insert_desc_elems(s.drop_last(), f);
        let r = spec_insert_desc(s, f);
        let t = spec_insert_desc(s.drop_last(), f);
        assert forall|k: int| 0 <= k < r.len() implies (#[trigger] r[k]) == f || exists|m: int|
            0 <= m < s.len() && r[k] == #[trigger] s[m] by {
            if k < t.len() {
                assert(r[k] == t[k]);
                if t[k] != f {
                    let m = choose|m: int| 0 <= m < s.drop_last().len() && t[k] == #[trigger] s
                        .drop_last()[m];
                    assert(s.drop_last()[m] == s[m]);
                    assert(r[k] == s[m]);
                }
            } else {
                assert(r[k] == s.last());
                assert(r[k] == s[s.len() - 1]);
            }
        }
    } else {
        assert forall|k: int|
            0 <= k < spec_insert_desc(s, f).len() implies (#[trigger] spec_insert_desc(s, f)[k])
            == f || exists|m: int|
            0 <= m < s.len() && spec_insert_desc(s, f)[k] == #[trigger] s[m] by {
            if k < s.len() {
                assert(spec_insert_desc(s, f)[k] == s[k]);
            }
        }
    }
}

proof fn lemma_insert_desc_sorted(s: Seq<FileChangeStats>, f: FileChangeStats)
    requires
        sorted_desc(s),
    ensures
        sorted_desc(spec_insert_desc(s, f)),
    decreases s.len(),
{
    if s.len() == 0 {
    } else if spec_changes(s.last()) < spec_changes(f) {
        assert(sorted_desc(s.drop_last())) by {
            assert forall|i: int, j: int|
                0 <= i <= j < s.drop_last().len() implies spec_changes(s.drop_last()[i])
                >= spec_changes(s.drop_last()[j]) by {
                assert(s.drop_last()[i] == s[i]);
                assert(s.drop_last()[j] == s[j]);
            }
        }
        lemma_insert_desc_sorted(s.drop_last(), f);
        lemma_insert_desc_elems(s.drop_last(), f);
        let t = spec_insert_desc(s.drop_last(), f);
        let r = spec_insert_desc(s, f);
        assert forall|i: int, j: int|
            0 <= i <= j < r.len() implies spec_changes(r[i]) >= spec_changes(r[j]) by {
            if j < t.len() {
                assert(r[i] == t[i]);
                assert(r[j] == t[j]);
            } else {
                assert(r[j] == s.last());
                if i < t.len() {
                    assert(r[i] == t[i]);
                    if t[i] == f {
                    } else {
                        let m = choose|m: int|
                            0 <= m < s.drop_last().len() && t[i] == #[trigger] s.drop_last()[m];
                        assert(s.drop_last()[m] == s[m]);
                        assert(spec_changes(s[m]) >= spec_changes(s[s.len() - 1]));
                    }
                }
            }
        }
    } else {
        let r = spec_insert_desc(s, f);
        assert forall|i: int, j: int|
            0 <= i <= j < r.len() implies spec_changes(r[i]) >= spec_changes(r[j]) by {
            if j < s.len() {
            } else {
                if i < s.len() {
                    assert(spec_changes(s[i]) >= spec_changes(s[s.len() - 1]));
                }
            }
        }
    }
}

/// The stable descending sort is sorted: in the list that `sorted_files`
/// returns, every entry's change total is at least the next one's.
pub proof fn lemma_sorted_by_changes_sorted(s: Seq<FileChangeStats>)
    ensures
        sorted_desc(spec_sorted_by_changes(s)),
    decreases s.len(),
{
    if s.len() > 0 {
        lemma_sorted_by_changes_sorted(s.drop_last());
        lemma_insert_desc_sorted(spec_sorted_by_changes(s.drop_last()), s.last());
    }
}

proof fn lemma_insert_desc_at(s: Seq<FileChangeStats>, f: FileChangeStats, j: int)
    requires
        0 <= j <= s.len(),
        forall|k: int| j <= k < s.len() ==> spec_changes(#[trigger] s[k]) < spec_changes(f),
        j > 0 ==> spec_changes(s[j - 1]) >= spec_changes(f),
    ensures
        spec_insert_desc(s, f) == s.subrange(0, j) + seq![f] + s.subrange(j, s.len() as int),
    decreases s.len(),
{
    if s.len() == 0 {
        assert(spec_insert_desc(s, f) =~= s.subrange(0, j) + seq![f] + s.subrange(
            j,
            s.len() as int,
        ));
    } else if spec_changes(s.last()) < spec_changes(f) {
        assert(j < s.len());
        lemma_insert_desc_at(s.drop_last(), f, j);
        assert(spec_insert_desc(s, f) =~= s.subrange(0, j) + seq![f] + s.subrange(
            j,
            s.len() as int,
        )) by {
            assert(spec_insert_desc(s, f) == (s.drop_last().subrange(0, j) + seq![f]
                + s.drop_last().subrange(j, s.len() - 1)).push(s.last()));
        }
    } else {
        assert(j == s.len());
        assert(spec_insert_desc(s, f) =~= s.subrange(0, j) + seq![f] + s.subrange(
            j,
            s.len() as int,
        ));
    }
}

fn copy_stats(f: &FileChangeStats) -> (r: FileChangeStats)
    ensures
        r == *f,
{
    FileChangeStats {
        path: f.path.clone(),
        additions: f.additions,
        deletions: f.deletions,
        is_new_file: f.is_new_file,
    }
}

impl DiffSummaryData {
    /// The entries sorted by change total, descending; entries with equal
    /// totals keep the order in which their paths first appeared.
    pub fn sorted_files(&self) -> (r: Vec<FileChangeStats>)
        requires
            self.wf(),
        ensures
            r@ == spec_sorted_by_changes(self.files@),
            sorted_desc(r@),
    {
        let mut r: Vec<FileChangeStats> = Vec::new();
        let n = self.files.len();
        let mut i: usize = 0;
        proof {
            assert(self.files@.take(0) =~= Seq::<FileChangeStats>::empty());
        }
        while i < n
            invariant
                i <= n,
                n == self.files@.len(),
                self.wf(),
                r@ == spec_sorted_by_changes(self.files@.take(i as int)),
                forall|k: int|
                    0 <= k < r@.len() ==> (#[trigger] r@[k]).additions + r@[k].deletions
                        <= usize::MAX,
            decreases n - i,
        {
            let x = copy_stats(&self.files[i]);
            let xt = x.additions + x.deletions;
            let mut j: usize = r.len();
            loop
                invariant
                    j <= r@.len(),
                    xt == spec_changes(x),
                    forall|k: int|
                        0 <= k < r@.len() ==> (#[trigger] r@[k]).additions + r@[k].deletions
                            <= usize::MAX,
                    forall|k: int| j <= k < r@.len() ==> spec_changes(#[trigger] r@[k])
                        < spec_changes(x),
                ensures
                    j <= r@.len(),
                    forall|k: int| j <= k < r@.len() ==> spec_changes(#[trigger] r@[k])
                        < spec_changes(x),
                    j > 0 ==> spec_changes(r@[j - 1]) >= spec_changes(x),
                decreases j,
            {
                if j == 0 {
                    break ;
                }
                let t = r[j - 1].additions + r[j - 1].deletions;
                if t >= xt {
                    break ;
                }
                j = j - 1;
            }
            proof {
                lemma_insert_desc_at(r@, x, j as int);
                lemma_insert_desc_elems(r@, x);
                assert(self.files@.take(i + 1).drop_last() =~= self.files@.take(i as int));
                assert(self.files@.take(i + 1).last() == self.files@[i as int]);
            }
            let ghost r_pre = r@;
            r.insert(j, x);
            proof {
                assert(r@ =~= r_pre.subrange(0, j as int) + seq![x] + r_pre.subrange(
                    j as int,
                    r_pre.len() as int,
                ));
                assert(r@ == spec_insert_desc(r_pre, x));
                assert forall|k: int|
                    0 <= k < r@.len() implies (#[trigger] r@[k]).additions + r@[k].deletions
                    <= usize::MAX by {
                    if r@[k] == x {
                        assert(x.additions + x.deletions <= usize::MAX);
                    } else {
                        let m = choose|m: int| 0 <= m < r_pre.len() && r@[k] == #[trigger] r_pre[m];
                        assert(r_pre[m].additions + r_pre[m].deletions <= usize::MAX);
                    }
                }
            }
            i = i + 1;
        }
        proof {
            assert(self.files@.take(n as int) =~= self.files@);
            lemma_sorted_by_changes_sorted(self.files@);
        }
        r
    }
}

/// Sum of the additions of all entries.
pub open spec fn spec_total_additions(s: Seq<FileChangeStats>) -> int
    decreases s.len(),
{
    if s.len() == 0 {
        0
    } else {
        spec_total_additions(s.drop_last()) + s.last().additions
    }
}

/// Sum of the deletions of all entries.
pub open spec fn spec_total_deletions(s: Seq<FileChangeStats>) -> int
    decreases s.len(),
{
    if s.len() == 0 {
        0
    } else {
        spec_total_deletions(s.drop_last()) + s.last().deletions
    }
}

impl DiffSummaryData {
    /// Total additions across all files; a sum beyond `usize::MAX` saturates
    /// there.
    pub fn total_additions(&self) -> (r: usize)
        ensures
            spec_total_additions(self.files@) <= usize::MAX ==> r == spec_total_additions(
                self.files@,
            ),
            spec_total_additions(self.files@) > usize::MAX ==> r == usize::MAX,
    {
        let n = self.files.len();
        let mut acc: usize = 0;
        let mut i: usize = 0;
        while i < n
            invariant
                i <= n,
                n == self.files@.len(),
                spec_total_additions(self.files@.take(i as int)) <= usize::MAX ==> acc
                    == spec_total_additions(self.files@.take(i as int)),
                spec_total_additions(self.files@.take(i as int)) > usize::MAX ==> acc
                    == usize::MAX,
                spec_total_additions(self.files@.take(i as int)) >= acc,
            decreases n - i,
        {
            proof {
                assert(self.files@.take(i + 1).drop_last() =~= self.files@.take(i as int));
                assert(self.files@.take(i + 1).last() == self.files@[i as int]);
            }
            let add = self.files[i].additions;
            if acc <= usize::MAX - add {
                acc = acc + add;
            } else {
                acc = usize::MAX;
            }
            i = i + 1;
        }
        proof {
            assert(self.files@.take(n as int) =~= self.files@);
        }
        acc
    }

    /// Total deletions across all files; a sum beyond `usize::MAX` saturates
    /// there.
    pub fn total_deletions(&self) -> (r: usize)
        ensures
            spec_total_deletions(self.files@) <= usize::MAX ==> r == spec_total_deletions(
                self.files@,
            ),
            spec_total_deletions(self.files@) > usize::MAX ==> r == usize::MAX,
    {
        let n = self.files.len();
        let mut acc: usize = 0;
        let mut i: usize = 0;
        while i < n
            invariant
                i <= n,
                n == self.files@.len(),
                spec_total_deletions(self.files@.take(i as int)) <= usize::MAX ==> acc
                    == spec_total_deletions(self.files@.take(i as int)),
                spec_total_deletions(self.files@.take(i as int)) > usize::MAX ==> acc
                    == usize::MAX,
                spec_total_deletions(self.files@.take(i as int)) >= acc,
            decreases n - i,
        {
            proof {
                assert(self.files@.take(i + 1).drop_last() =~= self.files@.take(i as int));
                assert(self.files@.take(i + 1).last() == self.files@[i as int]);
            }
            let del = self.files[i].deletions;
            if acc <= usize::MAX - del {
                acc = acc + del;
            } else {
                acc = usize::MAX;
            }
            i = i + 1;
        }
        proof {
            assert(self.files@.take(n as int) =~= self.files@);
        }
        acc
    }
}

} // verus!
