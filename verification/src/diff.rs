//! Line-based diff statistics for a single file.

use vstd::prelude::*;

verus! {

/// One line-level change reported by the diff: a line only in the new text,
/// a line only in the old text, or a line common to both.
#[derive(Clone, Copy, PartialEq, Eq, Structural, Debug)]
pub enum DiffTag {
    Insert,
    Delete,
    Equal,
}

/// Statistics for a single file's changes.
#[derive(Debug, Clone)]
pub struct FileChangeStats {
    pub path: String,
    pub additions: usize,
    pub deletions: usize,
    pub is_new_file: bool,
}

/// Mathematical model of `FileChangeStats`.
pub ghost struct FileStatsView {
    pub path: Seq<char>,
    pub additions: nat,
    pub deletions: nat,
    pub is_new_file: bool,
}

impl View for FileChangeStats {
    type V = FileStatsView;

    open spec fn view(&self) -> FileStatsView {
        FileStatsView {
            path: self.path@,
            additions: self.additions as nat,
            deletions: self.deletions as nat,
            is_new_file: self.is_new_file,
        }
    }
}

/// Number of `Insert` tags in a diff.
pub open spec fn count_insertions(tags: Seq<DiffTag>) -> nat
    decreases tags.len(),
{
    if tags.len() == 0 {
        0
    } else {
        count_insertions(tags.drop_last()) + if tags.last() is Insert {
            1nat
        } else {
            0nat
        }
    }
}

/// Number of `Delete` tags in a diff.
pub open spec fn count_deletions(tags: Seq<DiffTag>) -> nat
    decreases tags.len(),
{
    if tags.len() == 0 {
        0
    } else {
        count_deletions(tags.drop_last()) + if tags.last() is Delete {
            1nat
        } else {
            0nat
        }
    }
}

proof fn lemma_counts_le_len(tags: Seq<DiffTag>)
    ensures
        count_insertions(tags) + count_deletions(tags) <= tags.len(),
    decreases tags.len(),
{
    if tags.len() > 0 {
        lemma_counts_le_len(tags.drop_last());
    }
}

proof fn lemma_all_equal_counts_zero(tags: Seq<DiffTag>)
    requires
        forall|i: int| 0 <= i < tags.len() ==> tags[i] is Equal,
    ensures
        count_insertions(tags) == 0,
        count_deletions(tags) == 0,
    decreases tags.len(),
{
    if tags.len() > 0 {
        lemma_all_equal_counts_zero(tags.drop_last());
    }
}

/// The sequence of line-level change tags that the diff algorithm reports for
/// the two texts. The algorithm is deterministic, so the tags are a function
/// of the texts alone.
pub uninterp spec fn line_diff_tags(old_text: Seq<char>, new_text: Seq<char>) -> Seq<DiffTag>;

/// Relies on `similar::TextDiff::from_lines` and `iter_all_changes`: the
/// reported changes depend on the two texts alone, and two identical texts
/// produce only `Equal` changes.
#[verifier::external_body]
fn diff_line_tags(old_text: &str, new_text: &str) -> (tags: Vec<DiffTag>)
    ensures
        tags@ == line_diff_tags(old_text@, new_text@),
        old_text@ == new_text@ ==> forall|i: int| 0 <= i < tags@.len() ==> tags@[i] is Equal,
{
    similar::TextDiff::from_lines(old_text, new_text)
        .iter_all_changes()
        .map(|change| match change.tag() {
            similar::ChangeTag::Insert => DiffTag::Insert,
            similar::ChangeTag::Delete => DiffTag::Delete,
            similar::ChangeTag::Equal => DiffTag::Equal,
        })
        .collect()
}

/// Number of newline characters in `s`.
pub open spec fn newline_count(s: Seq<char>) -> nat
    decreases s.len(),
{
    if s.len() == 0 {
        0
    } else {
        newline_count(s.drop_last()) + if s.last() == '\n' {
            1nat
        } else {
            0nat
        }
    }
}

/// Number of newline-delimited segments of `s`; a trailing newline does not
/// open an extra empty segment.
pub open spec fn line_count(s: Seq<char>) -> nat {
    if s.len() == 0 {
        0
    } else {
        newline_count(s) + if s.last() == '\n' {
            0nat
        } else {
            1nat
        }
    }
}

proof fn lemma_newline_count_le_len(s: Seq<char>)
    ensures
        newline_count(s) <= s.len(),
        s.len() > 0 && s.last() != '\n' ==> newline_count(s) < s.len(),
    decreases s.len(),
{
    if s.len() > 0 {
        lemma_newline_count_le_len(s.drop_last());
    }
}

/// Number of lines of `text`, counting newline-delimited segments.
pub fn count_lines(text: &str) -> (r: usize)
    ensures
        r as nat == line_count(text@),
{
    let n = text.unicode_len();
    let mut count: usize = 0;
    let mut i: usize = 0;
    while i < n
        invariant
            i <= n,
            n == text@.len(),
            count == newline_count(text@.take(i as int)),
            count <= i,
        decreases n - i,
    {
        let c = text.get_char(i);
        proof {
            assert(text@.take(i + 1).drop_last() =~= text@.take(i as int));
            assert(text@.take(i + 1).last() == text@[i as int]);
        }
        if c == '\n' {
            count = count + 1;
        }
        i = i + 1;
    }
    proof {
        assert(text@.take(n as int) =~= text@);
        lemma_newline_count_le_len(text@);
    }
    if n == 0 {
        0
    } else {
        let last = text.get_char(n - 1);
        if last == '\n' {
            count
        } else {
            count + 1
        }
    }
}

/// Builds the statistics that a sequence of diff tags yields for `path`:
/// one addition per `Insert` tag and one deletion per `Delete` tag.
pub fn stats_from_tags(path: String, tags: &Vec<DiffTag>) -> (r: FileChangeStats)
    ensures
        r@.path == path@,
        r@.additions == count_insertions(tags@),
        r@.deletions == count_deletions(tags@),
        !r@.is_new_file,
{
    let n = tags.len();
    let mut additions: usize = 0;
    let mut deletions: usize = 0;
    let mut i: usize = 0;
    while i < n
        invariant
            i <= n,
            n == tags@.len(),
            additions == count_insertions(tags@.take(i as int)),
            deletions == count_deletions(tags@.take(i as int)),
            additions + deletions <= i,
        decreases n - i,
    {
        proof {
            assert(tags@.take(i + 1).drop_last() =~= tags@.take(i as int));
            assert(tags@.take(i + 1).last() == tags@[i as int]);
        }
        match tags[i] {
            DiffTag::Insert => {
                additions = additions + 1;
            },
            DiffTag::Delete => {
                deletions = deletions + 1;
            },
            DiffTag::Equal => {},
        }
        i = i + 1;
    }
    proof {
        assert(tags@.take(n as int) =~= tags@);
    }
    FileChangeStats { path, additions, deletions, is_new_file: false }
}

impl FileChangeStats {
    /// Calculates the statistics for one file from an optional old text and
    /// the new text. Without an old text the file is new and every line of
    /// the new text counts as an addition; otherwise the counts come from a
    /// line diff of the two texts, and two equal texts yield zero counts.
    pub fn from_diff(path: String, old_text: Option<&str>, new_text: &str) -> (r: FileChangeStats)
        ensures
            r@.path == path@,
            old_text is None ==> r@.additions == line_count(new_text@) && r@.deletions == 0
                && r@.is_new_file,
            old_text matches Some(o) ==> r@.additions == count_insertions(
                line_diff_tags(o@, new_text@),
            ) && r@.deletions == count_deletions(line_diff_tags(o@, new_text@))
                && !r@.is_new_file,
            old_text matches Some(o) && o@ == new_text@ ==> r@.additions == 0 && r@.deletions
                == 0,
            r@.additions + r@.deletions <= usize::MAX,
    {
        match old_text {
            Some(old) => {
                let tags = diff_line_tags(old, new_text);
                proof {
                    if old@ == new_text@ {
                        lemma_all_equal_counts_zero(tags@);
                    }
                    lemma_counts_le_len(tags@);
                }
                stats_from_tags(path, &tags)
            },
            None => {
                let additions = count_lines(new_text);
                FileChangeStats { path, additions, deletions: 0, is_new_file: true }
            },
        }
    }

    /// Total number of changed lines: additions plus deletions.
    pub fn total_changes(&self) -> (r: usize)
        requires
            self.additions + self.deletions <= usize::MAX,
        ensures
            r == self@.additions + self@.deletions,
    {
        self.additions + self.deletions
    }
}

} // verus!
