use vstd::prelude::*;
use crate::error::{is_rotation_failure, LoggerError};
use crate::path::{join, join_path, lemma_join_injective};
use crate::text::{append_str, decimal, lemma_decimal_injective, push_char, push_decimal};

verus! {

/// Where the current log file lives: a directory, a base name and an extension.
#[derive(Debug, Clone)]
pub struct LogFile {
    pub directory: String,
    pub stem: String,
    pub extension: String,
}

/// `base.N.log`
pub open spec fn backup_name(stem: Seq<char>, n: nat) -> Seq<char> {
    stem + "."@ + decimal(n) + ".log"@
}

impl LogFile {
    /// Path of the current file: `directory/base.extension`.
    pub open spec fn current_path(self) -> Seq<char> {
        join_path(self.directory@, self.stem@ + "."@ + self.extension@)
    }

    /// Path of backup `n`: `directory/base.n.log`.
    pub open spec fn backup_path(self, n: nat) -> Seq<char> {
        join_path(self.directory@, backup_name(self.stem@, n))
    }

    /// The current file's path.
    pub fn current(&self) -> (r: String)
        ensures
            r@ == self.current_path(),
    {
        let mut name = self.stem.clone();
        append_str(&mut name, ".");
        append_str(&mut name, self.extension.as_str());
        join(self.directory.as_str(), name.as_str())
    }

    /// The path of backup `n`.
    pub fn backup(&self, n: u32) -> (r: String)
        ensures
            r@ == self.backup_path(n as nat),
    {
        let mut name = self.stem.clone();
        push_char(&mut name, '.');
        push_decimal(&mut name, n as u64);
        append_str(&mut name, ".log");
        proof {
            reveal_strlit(".");
        }
        assert(name@ =~= backup_name(self.stem@, n as nat));
        join(self.directory.as_str(), name.as_str())
    }
}

/// A file operation of a rotation, over paths.
pub enum FileAction {
    RemoveIfPresent(Seq<char>),
    RenameIfPresent(Seq<char>, Seq<char>),
    Rename(Seq<char>, Seq<char>),
    Remove(Seq<char>),
}

/// A file operation to perform. The `IfPresent` forms do nothing when the
/// source is absent; the others fail then.
#[derive(Debug, Clone, PartialEq, Eq)]
pub enum FileOp {
    RemoveIfPresent { path: String },
    RenameIfPresent { from: String, to: String },
    Rename { from: String, to: String },
    Remove { path: String },
}

impl View for FileOp {
    type V = FileAction;

    open spec fn view(&self) -> FileAction {
        match self {
            FileOp::RemoveIfPresent { path } => FileAction::RemoveIfPresent(path@),
            FileOp::RenameIfPresent { from, to } => FileAction::RenameIfPresent(from@, to@),
            FileOp::Rename { from, to } => FileAction::Rename(from@, to@),
            FileOp::Remove { path } => FileAction::Remove(path@),
        }
    }
}

/// One operation of a rotation, with the failure reported when it fails.
#[derive(Debug, Clone, PartialEq, Eq)]
pub struct RotationStep {
    pub op: FileOp,
    pub failure: LoggerError,
}

/// What a size check decides.
#[derive(Debug, Clone, PartialEq, Eq)]
pub enum RotationCheck {
    /// The current file is absent or below the threshold.
    NotNeeded,
    /// The operations to perform, in order, stopping at the first that fails.
    Rotate(Vec<RotationStep>),
}

/// Outcome of a rotation check.
#[derive(Debug, Clone, PartialEq, Eq)]
pub enum RotationResult {
    NotNeeded,
    Completed,
    Failed(LoggerError),
}

/// Rotates the current log file by size, keeping numbered backups.
#[derive(Debug, Clone, Copy)]
pub struct SizeBasedRotation {
    /// Size in bytes at which the current file is rotated.
    pub max_file_size: u64,
    /// Number of backups kept.
    pub max_backup_files: u32,
}

/// The shifts of backups `m, m-1, ..., 1` one place up, highest first.
pub open spec fn shift_actions(f: LogFile, m: nat) -> Seq<FileAction> {
    Seq::new(
        m,
        |j: int| FileAction::RenameIfPresent(f.backup_path((m - j) as nat), f.backup_path((m - j + 1) as nat)),
    )
}

/// The operations of one rotation keeping `max` backups: evict the oldest
/// backup, shift the others up in descending order, then move the current
/// file to backup 1; without backups the current file is removed.
pub open spec fn rotation_actions(f: LogFile, max: nat) -> Seq<FileAction> {
    if max == 0 {
        seq![FileAction::Remove(f.current_path())]
    } else {
        seq![FileAction::RemoveIfPresent(f.backup_path(max))]
            + shift_actions(f, (max - 1) as nat)
            + seq![FileAction::Rename(f.current_path(), f.backup_path(1))]
    }
}

/// The failure reported when action `a` of a rotation of `current` fails.
pub open spec fn reports(current: Seq<char>, a: FileAction, e: LoggerError) -> bool {
    match a {
        FileAction::RemoveIfPresent(p) => is_rotation_failure(e, current, p, "Failed to delete oldest backup"@),
        FileAction::RenameIfPresent(from, to) => is_rotation_failure(e, from, to, "Failed to shift backup file"@),
        FileAction::Rename(from, to) => is_rotation_failure(e, from, to, "Failed to move current log to backup"@),
        FileAction::Remove(p) => is_rotation_failure(
            e,
            p,
            "none"@,
            "Failed to delete current log (no backups configured)"@,
        ),
    }
}

/// The steps perform `rotation_actions` in order, each with its failure.
pub open spec fn is_rotation_plan(steps: Seq<RotationStep>, f: LogFile, max: nat) -> bool {
    let actions = rotation_actions(f, max);
    &&& steps.len() == actions.len()
    &&& forall|k: int| 0 <= k < steps.len() ==> steps[k].op@ == #[trigger] actions[k]
    &&& forall|k: int| 0 <= k < steps.len() ==> reports(f.current_path(), actions[k], #[trigger] steps[k].failure)
}

/// Whether a current file of the given size (absent: `None`) is rotated.
pub open spec fn needs_rotation(file_size: Option<u64>, max_file_size: u64) -> bool {
    match file_size {
        Some(s) => s >= max_file_size,
        None => false,
    }
}

fn rotation_failure(current_file: &str, backup_file: &str, reason: &str) -> (r: LoggerError)
    ensures
        is_rotation_failure(r, current_file@, backup_file@, reason@),
{
    LoggerError::RotationFailed {
        current_file: String::from_str(current_file),
        backup_file: String::from_str(backup_file),
        reason: String::from_str(reason),
    }
}

impl SizeBasedRotation {
    pub fn new(max_file_size: u64, max_backup_files: u32) -> (r: Self)
        ensures
            r.max_file_size == max_file_size,
            r.max_backup_files == max_backup_files,
    {
        SizeBasedRotation { max_file_size, max_backup_files }
    }

    /// Decides from the current file's size (`None` when it is absent or
    /// cannot be read) whether to rotate, and if so with which operations.
    pub fn check_and_rotate(&self, log_file: &LogFile, file_size: Option<u64>) -> (r: RotationCheck)
        ensures
            r == RotationCheck::NotNeeded <==> !needs_rotation(file_size, self.max_file_size),
            r matches RotationCheck::Rotate(steps) ==> is_rotation_plan(
                steps@,
                *log_file,
                self.max_backup_files as nat,
            ),
    {
        let big = match file_size {
            Some(s) => s >= self.max_file_size,
            None => false,
        };
        if big {
            RotationCheck::Rotate(self.plan(log_file))
        } else {
            RotationCheck::NotNeeded
        }
    }

    fn plan(&self, f: &LogFile) -> (r: Vec<RotationStep>)
        ensures
            is_rotation_plan(r@, *f, self.max_backup_files as nat),
    {
        let max = self.max_backup_files;
        let ghost actions = rotation_actions(*f, max as nat);
        let current = f.current();
        let mut steps: Vec<RotationStep> = Vec::new();
        if max == 0 {
            let failure = rotation_failure(
                current.as_str(),
                "none",
                "Failed to delete current log (no backups configured)",
            );
            steps.push(RotationStep { op: FileOp::Remove { path: current }, failure });
            assert(is_rotation_plan(steps@, *f, max as nat));
            return steps;
        }
        let oldest = f.backup(max);
        let failure = rotation_failure(current.as_str(), oldest.as_str(), "Failed to delete oldest backup");
        steps.push(RotationStep { op: FileOp::RemoveIfPresent { path: oldest }, failure });
        let ghost m = (max - 1) as nat;
        let mut i: u32 = max - 1;
        while i >= 1
            invariant
                max == self.max_backup_files,
                max > 0,
                m == max - 1,
                actions == rotation_actions(*f, max as nat),
                current@ == f.current_path(),
                i <= m,
                steps.len() == 1 + (m - i),
                forall|k: int| 0 <= k < steps.len() ==> steps[k].op@ == #[trigger] actions[k],
                forall|k: int|
                    0 <= k < steps.len() ==> reports(f.current_path(), actions[k], #[trigger] steps[k].failure),
            decreases i,
        {
            let from = f.backup(i);
            let to = f.backup(i + 1);
            let failure = rotation_failure(from.as_str(), to.as_str(), "Failed to shift backup file");
            let ghost k = steps.len() as int;
            assert(actions[k] == shift_actions(*f, m)[k - 1]);
            steps.push(RotationStep { op: FileOp::RenameIfPresent { from, to }, failure });
            i = i - 1;
        }
        let first = f.backup(1);
        let failure = rotation_failure(current.as_str(), first.as_str(), "Failed to move current log to backup");
        steps.push(RotationStep { op: FileOp::Rename { from: current, to: first }, failure });
        assert(is_rotation_plan(steps@, *f, max as nat));
        steps
    }

    /// The outcome of a rotation whose steps were performed in order up to
    /// the first failure, `failed_step` (`None` when every step succeeded).
    pub fn finish_rotation(steps: Vec<RotationStep>, failed_step: Option<usize>) -> (r: RotationResult)
        requires
            failed_step matches Some(k) ==> k < steps.len(),
        ensures
            failed_step.is_none() ==> r == RotationResult::Completed,
            failed_step matches Some(k) ==> r == RotationResult::Failed(steps[k as int].failure),
    {
        match failed_step {
            None => RotationResult::Completed,
            Some(k) => {
                let mut steps = steps;
                let step = steps.remove(k);
                RotationResult::Failed(step.failure)
            },
        }
    }
}


/// The files on disk, as a model: each present path maps to the generation
/// of log records it holds.
pub type FileSet = Map<Seq<char>, nat>;

/// The effect of one successful operation on the files.
pub open spec fn apply_action(fs: FileSet, a: FileAction) -> FileSet {
    match a {
        FileAction::RemoveIfPresent(p) => fs.remove(p),
        FileAction::RenameIfPresent(from, to) => if fs.contains_key(from) {
            fs.remove(from).insert(to, fs[from])
        } else {
            fs
        },
        FileAction::Rename(from, to) => fs.remove(from).insert(to, fs[from]),
        FileAction::Remove(p) => fs.remove(p),
    }
}

/// The effect of a sequence of successful operations, in order.
pub open spec fn apply_actions(fs: FileSet, actions: Seq<FileAction>) -> FileSet
    decreases actions.len(),
{
    if actions.len() == 0 {
        fs
    } else {
        apply_actions(apply_action(fs, actions[0]), actions.skip(1))
    }
}

/// Path `p` in `t` holds what path `q` held in `s`, or both are absent.
pub open spec fn same_at(t: FileSet, p: Seq<char>, s: FileSet, q: Seq<char>) -> bool {
    &&& t.contains_key(p) == s.contains_key(q)
    &&& t.contains_key(p) ==> t[p] == s[q]
}

/// Whether `p` is one of the backups `1..=hi`.
pub open spec fn in_family(f: LogFile, p: Seq<char>, hi: nat) -> bool {
    exists|i: nat| 1 <= i <= hi && p == #[trigger] f.backup_path(i)
}

/// Whether a text holds no dot.
pub open spec fn has_no_dot(s: Seq<char>) -> bool {
    forall|k: int| 0 <= k < s.len() ==> s[k] != '.'
}

/// Distinct backup numbers name distinct files.
pub proof fn lemma_backups_distinct(f: LogFile, i: nat, j: nat)
    requires
        i != j,
    ensures
        f.backup_path(i) != f.backup_path(j),
{
    if f.backup_path(i) == f.backup_path(j) {
        let a = backup_name(f.stem@, i);
        let b = backup_name(f.stem@, j);
        lemma_join_injective(f.directory@, a, b);
        reveal_strlit(".");
        reveal_strlit(".log");
        let lo: int = f.stem@.len() as int + 1;
        assert(decimal(i).len() == decimal(j).len());
        assert(decimal(i) =~= a.subrange(lo, lo + decimal(i).len()));
        assert(decimal(j) =~= b.subrange(lo, lo + decimal(j).len()));
        lemma_decimal_injective(i, j);
    }
}

/// The current file is none of the backups when its extension holds no dot.
pub proof fn lemma_current_not_backup(f: LogFile, i: nat)
    requires
        has_no_dot(f.extension@),
    ensures
        f.current_path() != f.backup_path(i),
{
    if f.current_path() == f.backup_path(i) {
        let a = f.stem@ + "."@ + f.extension@;
        let b = backup_name(f.stem@, i);
        lemma_join_injective(f.directory@, a, b);
        reveal_strlit(".");
        reveal_strlit(".log");
        let lo: int = f.stem@.len() as int + 1;
        let d: int = decimal(i).len() as int;
        assert(b[lo + d] == '.');
        assert(a[lo + d] == f.extension@[d]);
    }
}

proof fn lemma_not_in_family(f: LogFile, p: Seq<char>, hi: nat)
    requires
        forall|i: nat| 1 <= i <= hi ==> p != #[trigger] f.backup_path(i),
    ensures
        !in_family(f, p, hi),
{
}

proof fn lemma_shift(s: FileSet, f: LogFile, m: nat)
    requires
        !s.contains_key(f.backup_path(m + 1)),
    ensures
        forall|i: nat| 1 <= i <= m ==> same_at(
            apply_actions(s, shift_actions(f, m)),
            #[trigger] f.backup_path(i + 1),
            s,
            f.backup_path(i),
        ),
        !apply_actions(s, shift_actions(f, m)).contains_key(f.backup_path(1)),
        forall|p: Seq<char>| !in_family(f, p, m + 1) ==> same_at(
            #[trigger] apply_actions(s, shift_actions(f, m)),
            p,
            s,
            p,
        ),
    decreases m,
{
    let acts = shift_actions(f, m);
    if m == 0 {
        assert(acts.len() == 0);
    } else {
        let bm = f.backup_path(m);
        let bn = f.backup_path(m + 1);
        lemma_backups_distinct(f, m, m + 1);
        let s1 = apply_action(s, acts[0]);
        assert(acts[0] == FileAction::RenameIfPresent(bm, bn));
        assert(acts.skip(1) =~= shift_actions(f, (m - 1) as nat));
        assert(!s1.contains_key(bm));
        assert(same_at(s1, bn, s, bm));
        lemma_shift(s1, f, (m - 1) as nat);
        let t = apply_actions(s, acts);
        assert(t == apply_actions(s1, shift_actions(f, (m - 1) as nat)));
        assert forall|i: nat| 1 <= i <= m implies same_at(t, #[trigger] f.backup_path(i + 1), s, f.backup_path(i)) by {
            if i < m {
                lemma_backups_distinct(f, i, m);
                lemma_backups_distinct(f, i, m + 1);
                assert(same_at(t, f.backup_path(i + 1), s1, f.backup_path(i)));
            } else {
                assert forall|j: nat| 1 <= j <= m implies bn != #[trigger] f.backup_path(j) by {
                    lemma_backups_distinct(f, j, m + 1);
                }
                lemma_not_in_family(f, bn, m);
                assert(same_at(t, bn, s1, bn));
            }
        }
        assert forall|p: Seq<char>| !in_family(f, p, m + 1) implies same_at(#[trigger] apply_actions(s, acts), p, s, p) by {
            if in_family(f, p, m) {
                let i = choose|i: nat| 1 <= i <= m && p == #[trigger] f.backup_path(i);
                assert(1 <= i <= m + 1 && p == f.backup_path(i));
            }
            assert(p != bm);
            assert(p != bn);
            assert(same_at(apply_actions(s1, shift_actions(f, (m - 1) as nat)), p, s1, p));
        }
    }
}

proof fn lemma_apply_single(fs: FileSet, a: FileAction)
    ensures
        apply_actions(fs, seq![a]) == apply_action(fs, a),
{
    assert(seq![a].skip(1).len() == 0);
    assert(apply_actions(apply_action(fs, a), seq![a].skip(1)) == apply_action(fs, a));
}

proof fn lemma_apply_concat(fs: FileSet, a: Seq<FileAction>, b: Seq<FileAction>)
    ensures
        apply_actions(fs, a + b) == apply_actions(apply_actions(fs, a), b),
    decreases a.len(),
{
    if a.len() == 0 {
        assert(a + b =~= b);
    } else {
        assert((a + b)[0] == a[0]);
        assert((a + b).skip(1) =~= a.skip(1) + b);
        lemma_apply_concat(apply_action(fs, a[0]), a.skip(1), b);
    }
}

/// One rotation ages the backup family by one place: the current file
/// becomes backup 1, backup `i` becomes backup `i + 1`, what backup `max`
/// held is gone, the current path is free, and every other file is
/// untouched. Without backups the current file is simply removed.
pub proof fn lemma_rotation_ages_backups(fs: FileSet, f: LogFile, max: nat)
    requires
        fs.contains_key(f.current_path()),
        has_no_dot(f.extension@),
    ensures
        !apply_actions(fs, rotation_actions(f, max)).contains_key(f.current_path()),
        max > 0 ==> apply_actions(fs, rotation_actions(f, max)).contains_key(f.backup_path(1)),
        max > 0 ==> apply_actions(fs, rotation_actions(f, max))[f.backup_path(1)] == fs[f.current_path()],
        forall|i: nat| 1 <= i < max ==> same_at(
            apply_actions(fs, rotation_actions(f, max)),
            #[trigger] f.backup_path(i + 1),
            fs,
            f.backup_path(i),
        ),
        forall|p: Seq<char>| p != f.current_path() && !in_family(f, p, max) ==> same_at(
            #[trigger] apply_actions(fs, rotation_actions(f, max)),
            p,
            fs,
            p,
        ),
{
    let cur = f.current_path();
    let acts = rotation_actions(f, max);
    let t = apply_actions(fs, acts);
    if max == 0 {
        lemma_apply_single(fs, FileAction::Remove(cur));
        return;
    }
    let m = (max - 1) as nat;
    let first = seq![FileAction::RemoveIfPresent(f.backup_path(max))];
    let last = seq![FileAction::Rename(cur, f.backup_path(1))];
    let shifts = shift_actions(f, m);
    lemma_apply_concat(fs, first + shifts, last);
    lemma_apply_concat(fs, first, shifts);
    lemma_apply_single(fs, FileAction::RemoveIfPresent(f.backup_path(max)));
    let s0 = fs.remove(f.backup_path(max));
    lemma_shift(s0, f, m);
    let s1 = apply_actions(s0, shifts);
    lemma_apply_single(s1, FileAction::Rename(cur, f.backup_path(1)));
    assert(acts == first + shifts + last);
    assert forall|i: nat| 1 <= i <= max implies cur != #[trigger] f.backup_path(i) by {
        lemma_current_not_backup(f, i);
    }
    lemma_not_in_family(f, cur, max);
    lemma_current_not_backup(f, max);
    assert(!in_family(f, cur, m + 1));
    assert(same_at(s1, cur, s0, cur));
    assert(same_at(s1, cur, fs, cur));
    lemma_current_not_backup(f, 1);
    assert forall|i: nat| 1 <= i < max implies same_at(t, #[trigger] f.backup_path(i + 1), fs, f.backup_path(i)) by {
        lemma_backups_distinct(f, i, max);
        lemma_backups_distinct(f, i + 1, 1);
        lemma_current_not_backup(f, i + 1);
        assert(same_at(s1, f.backup_path(i + 1), s0, f.backup_path(i)));
    }
    assert forall|p: Seq<char>| p != cur && !in_family(f, p, max) implies same_at(#[trigger] apply_actions(fs, acts), p, fs, p) by {
        assert(p != f.backup_path(max));
        assert(p != f.backup_path(1));
        assert(same_at(s1, p, s0, p));
    }
}


/// The files after `n` cycles, each of which starts the current file with
/// generation `g` (the `g`-th cycle) and then rotates it.
pub open spec fn after_cycles(fs: FileSet, f: LogFile, max: nat, n: nat) -> FileSet
    decreases n,
{
    if n == 0 {
        fs
    } else {
        apply_actions(
            after_cycles(fs, f, max, (n - 1) as nat).insert(f.current_path(), n),
            rotation_actions(f, max),
        )
    }
}

/// Repeated rotations age backups: starting with no current file and no
/// backups, after `n` write-then-rotate cycles backup `i` holds generation
/// `n + 1 - i` for every `i <= min(n, max)`, higher backups are absent, so
/// every generation older than the last `max` has been deleted, and files
/// outside the family are untouched.
pub proof fn lemma_cycles_keep_newest(fs: FileSet, f: LogFile, max: nat, n: nat)
    requires
        has_no_dot(f.extension@),
        !fs.contains_key(f.current_path()),
        forall|i: nat| 1 <= i <= max ==> !fs.contains_key(#[trigger] f.backup_path(i)),
    ensures
        forall|i: nat| 1 <= i <= max ==> (#[trigger] after_cycles(fs, f, max, n).contains_key(f.backup_path(i)))
            == (i <= n),
        forall|i: nat| 1 <= i <= max && i <= n ==> #[trigger] after_cycles(fs, f, max, n)[f.backup_path(i)]
            == n + 1 - i,
        !after_cycles(fs, f, max, n).contains_key(f.current_path()),
        forall|p: Seq<char>| p != f.current_path() && !in_family(f, p, max) ==> same_at(
            #[trigger] after_cycles(fs, f, max, n),
            p,
            fs,
            p,
        ),
    decreases n,
{
    if n > 0 {
        let cur = f.current_path();
        let prev = after_cycles(fs, f, max, (n - 1) as nat);
        lemma_cycles_keep_newest(fs, f, max, (n - 1) as nat);
        let s = prev.insert(cur, n);
        lemma_rotation_ages_backups(s, f, max);
        let t = after_cycles(fs, f, max, n);
        assert(t == apply_actions(s, rotation_actions(f, max)));
        assert forall|i: nat| 1 <= i <= max implies (#[trigger] t.contains_key(f.backup_path(i))) == (i <= n)
            && (i <= n ==> t[f.backup_path(i)] == n + 1 - i) by {
            if i > 1 {
                let j = (i - 1) as nat;
                lemma_current_not_backup(f, j);
                assert(f.backup_path(j + 1) == f.backup_path(i));
                assert(same_at(t, f.backup_path(j + 1), s, f.backup_path(j)));
            }
        }
        assert forall|i: nat| 1 <= i <= max && i <= n implies #[trigger] t[f.backup_path(i)] == n + 1 - i by {
            assert(t.contains_key(f.backup_path(i)));
        }
        assert forall|p: Seq<char>| p != cur && !in_family(f, p, max) implies same_at(
            #[trigger] after_cycles(fs, f, max, n),
            p,
            fs,
            p,
        ) by {
            assert(same_at(t, p, s, p));
            assert(same_at(prev, p, fs, p));
        }
    }
}

} // verus!
