//! The document store: where attachments are written, which of them still
//! have to be downloaded, and the decisions of its sync and publish steps.

use vstd::prelude::*;
use crate::client::{BillWithFiles, DntcFile, DtlVo};
use crate::config::Config;
use crate::naming::{self, dir_name, file_name};
use crate::text::{concat, str_eq, trim};

verus! {

/// Failures of the store.
#[derive(Debug, Clone, PartialEq, Eq)]
pub enum StoreError {
    /// No remote repository is configured.
    RemoteNotConfigured,
    /// No local repository path is configured.
    LocalNotConfigured,
    /// The remote's history does not extend the local one.
    SyncConflict,
    /// The local repository could not be cloned.
    StoreInit,
}

/// Something that names the directory and the files its attachments are stored under.
pub trait Downloadable {
    spec fn dirname_view(&self) -> Seq<char>;

    spec fn filename_view(&self, prcs_full_instt_nm: Seq<char>, orig_file_name: Seq<char>) -> Seq<char>;

    fn get_filename(&self, prcs_full_instt_nm: &str, orig_file_name: &str) -> (r: String)
        ensures
            r@ == self.filename_view(prcs_full_instt_nm@, orig_file_name@),
    ;

    fn get_dirname(&self) -> (r: String)
        ensures
            r@ == self.dirname_view(),
    ;
}

impl Downloadable for BillWithFiles {
    /// The record's receipt date and subject, trimmed, made a directory name.
    open spec fn dirname_view(&self) -> Seq<char> {
        dir_name(trim(self.dtlVo.rceptDt@), trim(self.dtlVo.rqestSj@))
    }

    /// The record's processing number, trimmed, the organisation and the
    /// trimmed original name, made a file name.
    open spec fn filename_view(&self, prcs_full_instt_nm: Seq<char>, orig_file_name: Seq<char>) -> Seq<char> {
        file_name(trim(self.dtlVo.rqestProcRegstrNo@), prcs_full_instt_nm, trim(orig_file_name))
    }

    fn get_filename(&self, prcs_full_instt_nm: &str, orig_file_name: &str) -> (r: String) {
        let reg = naming::trimmed(self.dtlVo.rqestProcRegstrNo.as_str());
        let orig = naming::trimmed(orig_file_name);
        naming::make_filename(reg.as_str(), prcs_full_instt_nm, orig.as_str())
    }

    fn get_dirname(&self) -> (r: String) {
        let date = naming::trimmed(self.dtlVo.rceptDt.as_str());
        let subject = naming::trimmed(self.dtlVo.rqestSj.as_str());
        naming::make_dirname(date.as_str(), subject.as_str())
    }
}

/// The store's settings: the remote it syncs with, its local working tree
/// and the identity its commits carry.
#[derive(Debug, Clone, PartialEq, Eq)]
pub struct FileManager {
    pub remote_url: String,
    pub local_path: String,
    pub signature_name: String,
    pub signature_email: String,
}

/// `{local}/{directory}/{file}` of an attachment of `bill`.
pub open spec fn file_path_of(local: Seq<char>, bill: BillWithFiles, org: Seq<char>, orig: Seq<char>) -> Seq<char> {
    local + "/"@ + bill.dirname_view() + "/"@ + bill.filename_view(org, orig)
}

impl FileManager {
    /// The store of a configuration: it needs a remote repository (reached as
    /// `git@github.com:{remote}`) and a local path.
    pub fn new(config: &Config, signature_name: &str, signature_email: &str) -> (r: Result<FileManager, StoreError>)
        ensures
            config.remote_file_repository is None ==> r == Err::<FileManager, StoreError>(StoreError::RemoteNotConfigured),
            config.remote_file_repository is Some && config.local_file_repository is None ==> r
                == Err::<FileManager, StoreError>(StoreError::LocalNotConfigured),
            config.remote_file_repository matches Some(remote) ==> (config.local_file_repository matches Some(local) ==> (r matches Ok(fm)
                && fm.remote_url@ == "git@github.com:"@ + remote@ && fm.local_path@ == local@
                && fm.signature_name@ == signature_name@ && fm.signature_email@ == signature_email@)),
    {
        match &config.remote_file_repository {
            None => Err(StoreError::RemoteNotConfigured),
            Some(remote) => match &config.local_file_repository {
                None => Err(StoreError::LocalNotConfigured),
                Some(local) => Ok(FileManager {
                    remote_url: concat("git@github.com:", remote.as_str()),
                    local_path: local.clone(),
                    signature_name: signature_name.to_owned(),
                    signature_email: signature_email.to_owned(),
                }),
            },
        }
    }

    /// The directory of a record: `{receipt date}_{cleaned subject}`.
    pub fn make_dirname(request_date: &str, request_subject: &str) -> (r: String)
        ensures
            r@ == dir_name(request_date@, request_subject@),
    {
        naming::make_dirname(request_date, request_subject)
    }

    /// The file of an attachment: `{number}_{organisation}_{cleaned file name}`.
    pub fn make_filename(registration_number: &str, rqest_full_instt_name: &str, file_name: &str) -> (r: String)
        ensures
            r@ == crate::naming::file_name(registration_number@, rqest_full_instt_name@, file_name@),
    {
        naming::make_filename(registration_number, rqest_full_instt_name, file_name)
    }

    /// Where an attachment of `bill` is stored; the organisation is the
    /// listing row's full processing-organisation name.
    pub fn file_path(&self, bill: &BillWithFiles, bill_from_list: &DtlVo, orig_file_name: &str) -> (r: String)
        ensures
            r@ == file_path_of(self.local_path@, *bill, bill_from_list.prcsFullInsttNm@, orig_file_name@),
    {
        let dir = bill.get_dirname();
        let file = bill.get_filename(bill_from_list.prcsFullInsttNm.as_str(), orig_file_name);
        let a = concat(self.local_path.as_str(), "/");
        let b = concat(a.as_str(), dir.as_str());
        let c = concat(b.as_str(), "/");
        concat(c.as_str(), file.as_str())
    }

    /// The directory that `file_path` puts a record's attachments in.
    pub fn dir_path(&self, bill: &BillWithFiles) -> (r: String)
        ensures
            r@ == self.local_path@ + "/"@ + bill.dirname_view(),
    {
        let dir = bill.get_dirname();
        let a = concat(self.local_path.as_str(), "/");
        concat(a.as_str(), dir.as_str())
    }

    /// The paths of a record's downloadable attachments, in order.
    pub fn attachment_paths(&self, bill: &BillWithFiles, bill_from_list: &DtlVo) -> (r: Vec<String>)
        ensures
            bill.atchFileList is None ==> r@.len() == 0,
            bill.atchFileList matches Some(list) ==> (r@.len() == list@.len() && forall|i: int|
                0 <= i < list@.len() ==> (#[trigger] r@[i])@ == file_path_of(
                    self.local_path@,
                    *bill,
                    bill_from_list.prcsFullInsttNm@,
                    list@[i].uploadFileOrginlNm@,
                )),
    {
        let mut out: Vec<String> = Vec::new();
        match &bill.atchFileList {
            None => {},
            Some(list) => {
                let mut i: usize = 0;
                while i < list.len()
                    invariant
                        bill.atchFileList == Some(*list),
                        i <= list@.len(),
                        out@.len() == i,
                        forall|j: int| 0 <= j < i ==> (#[trigger] out@[j])@ == file_path_of(
                            self.local_path@,
                            *bill,
                            bill_from_list.prcsFullInsttNm@,
                            list@[j].uploadFileOrginlNm@,
                        ),
                    decreases list@.len() - i,
                {
                    let f: &DntcFile = &list[i];
                    out.push(self.file_path(bill, bill_from_list, f.uploadFileOrginlNm.as_str()));
                    i = i + 1;
                }
            },
        }
        out
    }
}

/// Whether one of the `chosen` indices names a target at `path`.
pub open spec fn path_in(paths: Seq<Seq<char>>, chosen: Seq<int>, path: Seq<char>) -> bool {
    exists|j: int| 0 <= j < chosen.len() && paths[chosen[j]] == path
}

/// Which of the first `n` targets are downloaded, in order: a target is
/// skipped when its file is present or an earlier target already writes it.
pub open spec fn planned_upto(paths: Seq<Seq<char>>, present: Seq<bool>, n: int) -> Seq<int>
    decreases n,
{
    if n <= 0 {
        Seq::empty()
    } else {
        let p = planned_upto(paths, present, n - 1);
        if present[n - 1] || path_in(paths, p, paths[n - 1]) {
            p
        } else {
            p.push(n - 1)
        }
    }
}

/// What the existence check reports for each target once the chosen ones are written.
pub open spec fn present_after(paths: Seq<Seq<char>>, present: Seq<bool>, chosen: Seq<int>) -> Seq<bool> {
    Seq::new(present.len(), |k: int| present[k] || path_in(paths, chosen, paths[k]))
}

pub open spec fn target_paths(t: Seq<(String, bool)>) -> Seq<Seq<char>> {
    t.map_values(|e: (String, bool)| e.0@)
}

pub open spec fn target_present(t: Seq<(String, bool)>) -> Seq<bool> {
    t.map_values(|e: (String, bool)| e.1)
}

/// The deduplicating check over a list of targets, each a path and whether a file is
/// already there: the indices of the targets to download, in order.
pub fn plan_downloads(targets: &Vec<(String, bool)>) -> (r: Vec<usize>)
    ensures
        r@.map_values(|i: usize| i as int) == planned_upto(
            target_paths(targets@),
            target_present(targets@),
            targets@.len() as int,
        ),
        r@.len() == planned_upto(target_paths(targets@), target_present(targets@), targets@.len() as int).len(),
        forall|i: int| 0 <= i < r@.len() ==> #[trigger] r@[i] as int == planned_upto(
            target_paths(targets@),
            target_present(targets@),
            targets@.len() as int,
        )[i],
{
    let ghost paths = target_paths(targets@);
    let ghost present = target_present(targets@);
    let mut out: Vec<usize> = Vec::new();
    let mut k: usize = 0;
    while k < targets.len()
        invariant
            k <= targets@.len(),
            paths == target_paths(targets@),
            present == target_present(targets@),
            out@.map_values(|i: usize| i as int) == planned_upto(paths, present, k as int),
            forall|j: int| 0 <= j < out@.len() ==> #[trigger] out@[j] < k,
        decreases targets@.len() - k,
    {
        let ghost p = planned_upto(paths, present, k as int);
        let mut seen = false;
        if !targets[k].1 {
            let mut j: usize = 0;
            while j < out.len()
                invariant
                    k < targets@.len(),
                    j <= out@.len(),
                    paths == target_paths(targets@),
                    p == out@.map_values(|i: usize| i as int),
                    forall|x: int| 0 <= x < out@.len() ==> #[trigger] out@[x] < k,
                    !seen ==> forall|x: int| 0 <= x < j ==> paths[p[x]] != paths[k as int],
                    seen ==> path_in(paths, p, paths[k as int]),
                decreases out@.len() - j,
            {
                let idx = out[j];
                if str_eq(targets[idx].0.as_str(), targets[k].0.as_str()) {
                    assert(paths[p[j as int]] == paths[k as int]);
                    seen = true;
                }
                j = j + 1;
            }
        }
        assert(present[k as int] == targets@[k as int].1);
        if !targets[k].1 && !seen {
            out.push(k);
            assert(out@.map_values(|i: usize| i as int) == p.push(k as int));
        }
        k = k + 1;
    }
    let ghost fin = planned_upto(paths, present, targets@.len() as int);
    assert(out@.map_values(|i: usize| i as int).len() == out@.len());
    assert forall|i: int| 0 <= i < out@.len() implies #[trigger] out@[i] as int == fin[i] by {
        assert(out@.map_values(|i: usize| i as int)[i] == out@[i] as int);
    }
    out
}

proof fn lemma_planned_grows(paths: Seq<Seq<char>>, present: Seq<bool>, n: int, m: int)
    requires
        0 <= n <= m,
    ensures
        planned_upto(paths, present, n).len() <= planned_upto(paths, present, m).len(),
        forall|j: int| 0 <= j < planned_upto(paths, present, n).len() ==>
            #[trigger] planned_upto(paths, present, m)[j] == planned_upto(paths, present, n)[j],
    decreases m - n,
{
    if n < m {
        lemma_planned_grows(paths, present, n, m - 1);
    }
}

/// After the chosen targets are written, every target's file exists.
pub proof fn lemma_written_exists(paths: Seq<Seq<char>>, present: Seq<bool>)
    requires
        paths.len() == present.len(),
    ensures
        forall|k: int| 0 <= k < present.len() ==> #[trigger] present_after(
            paths,
            present,
            planned_upto(paths, present, present.len() as int),
        )[k],
{
    let n = present.len() as int;
    let fin = planned_upto(paths, present, n);
    assert forall|k: int| 0 <= k < n implies #[trigger] present_after(paths, present, fin)[k] by {
        if !present[k] {
            let p = planned_upto(paths, present, k);
            let q = planned_upto(paths, present, k + 1);
            lemma_planned_grows(paths, present, k, n);
            lemma_planned_grows(paths, present, k + 1, n);
            if path_in(paths, p, paths[k]) {
                let j = choose|j: int| 0 <= j < p.len() && paths[p[j]] == paths[k];
                assert(fin[j] == p[j]);
            } else {
                assert(q[p.len() as int] == k);
                assert(fin[p.len() as int] == k);
            }
        }
    }
}

proof fn lemma_all_present_plans_nothing(paths: Seq<Seq<char>>, present: Seq<bool>, n: int)
    requires
        0 <= n <= present.len(),
        forall|k: int| 0 <= k < present.len() ==> #[trigger] present[k],
    ensures
        planned_upto(paths, present, n).len() == 0,
    decreases n,
{
    if n > 0 {
        lemma_all_present_plans_nothing(paths, present, n - 1);
    }
}

/// A second pass of the check, once the chosen files exist, downloads
/// nothing: across both passes each target is fetched at most once.
pub proof fn lemma_second_run_downloads_nothing(paths: Seq<Seq<char>>, present: Seq<bool>)
    requires
        paths.len() == present.len(),
    ensures
        planned_upto(
            paths,
            present_after(paths, present, planned_upto(paths, present, present.len() as int)),
            present.len() as int,
        ).len() == 0,
{
    let after = present_after(paths, present, planned_upto(paths, present, present.len() as int));
    lemma_written_exists(paths, present);
    lemma_all_present_plans_nothing(paths, after, present.len() as int);
}

/// No two downloads of one run write the same path, and none writes a path
/// that was present.
pub proof fn lemma_planned_distinct(paths: Seq<Seq<char>>, present: Seq<bool>, n: int)
    requires
        0 <= n <= present.len(),
    ensures
        forall|a: int, b: int| 0 <= a < b < planned_upto(paths, present, n).len() ==>
            paths[#[trigger] planned_upto(paths, present, n)[a]] != paths[#[trigger] planned_upto(paths, present, n)[b]],
        forall|a: int| 0 <= a < planned_upto(paths, present, n).len() ==> !present[#[trigger] planned_upto(paths, present, n)[a]],
    decreases n,
{
    if n > 0 {
        lemma_planned_distinct(paths, present, n - 1);
        let p = planned_upto(paths, present, n - 1);
        let q = planned_upto(paths, present, n);
        if !(present[n - 1] || path_in(paths, p, paths[n - 1])) {
            assert forall|a: int, b: int| 0 <= a < b < q.len() implies paths[#[trigger] q[a]] != paths[#[trigger] q[b]] by {
                if b == p.len() {
                    assert(q[a] == p[a]);
                    assert(!(paths[p[a]] == paths[n - 1]));
                } else {
                    assert(q[a] == p[a] && q[b] == p[b]);
                }
            }
            assert forall|a: int| 0 <= a < q.len() implies !present[#[trigger] q[a]] by {
                if a < p.len() {
                    assert(q[a] == p[a]);
                }
            }
        }
    }
}

/// What the version-control layer reports when the fetched remote tip is
/// compared with the local branch.
#[derive(Debug, Clone, Copy, PartialEq, Eq, Structural)]
pub enum MergeAnalysis {
    UpToDate,
    FastForward,
    Diverged,
}

/// What a sync does.
#[derive(Debug, Clone, Copy, PartialEq, Eq, Structural)]
pub enum SyncPlan {
    /// Nothing: the local branch already holds the remote tip.
    AlreadyCurrent,
    /// Move the branch to the fetched tip and reset the working tree to it.
    FastForward,
}

pub open spec fn sync_plan_of(a: MergeAnalysis) -> Result<SyncPlan, StoreError> {
    match a {
        MergeAnalysis::UpToDate => Ok(SyncPlan::AlreadyCurrent),
        MergeAnalysis::FastForward => Ok(SyncPlan::FastForward),
        MergeAnalysis::Diverged => Err(StoreError::SyncConflict),
    }
}

/// The sync decision: only a fast-forward is ever made; diverged history is a conflict.
pub fn plan_sync(analysis: MergeAnalysis) -> (r: Result<SyncPlan, StoreError>)
    ensures
        r == sync_plan_of(analysis),
{
    match analysis {
        MergeAnalysis::UpToDate => Ok(SyncPlan::AlreadyCurrent),
        MergeAnalysis::FastForward => Ok(SyncPlan::FastForward),
        MergeAnalysis::Diverged => Err(StoreError::SyncConflict),
    }
}

/// The comparison of two histories, each the commits from the root to the
/// tip: the local one holds the remote one, is extended by it, or neither.
pub open spec fn analysis_of(local: Seq<u64>, remote: Seq<u64>) -> MergeAnalysis {
    if remote.is_prefix_of(local) {
        MergeAnalysis::UpToDate
    } else if local.is_prefix_of(remote) {
        MergeAnalysis::FastForward
    } else {
        MergeAnalysis::Diverged
    }
}

/// The local history after a sync against `remote`.
pub open spec fn history_after_sync(local: Seq<u64>, remote: Seq<u64>) -> Seq<u64> {
    match sync_plan_of(analysis_of(local, remote)) {
        Ok(SyncPlan::FastForward) => remote,
        _ => local,
    }
}

/// A sync that succeeded leaves a store that a second sync, with no change
/// on the remote in between, finds already current and leaves as it is; a
/// store that was already current is left as it is by the first sync too.
pub proof fn lemma_sync_idempotent(local: Seq<u64>, remote: Seq<u64>)
    requires
        sync_plan_of(analysis_of(local, remote)) is Ok,
    ensures
        sync_plan_of(analysis_of(history_after_sync(local, remote), remote)) == Ok::<SyncPlan, StoreError>(SyncPlan::AlreadyCurrent),
        history_after_sync(history_after_sync(local, remote), remote) == history_after_sync(local, remote),
        analysis_of(local, remote) == MergeAnalysis::UpToDate ==> history_after_sync(local, remote) == local,
{
    assert(remote.is_prefix_of(remote));
}

/// What publishing does.
#[derive(Debug, Clone, PartialEq, Eq)]
pub enum PublishPlan {
    /// No file was written: no commit, no push.
    Nothing,
    /// Stage everything, commit with this message on the branch tip, and push.
    CommitAndPush(String),
}

/// The publish decision: a commit, with the message `{marker} - {timestamp}`,
/// only when at least one new file was written.
pub fn plan_publish(new_files: usize, marker: &str, timestamp: &str) -> (r: PublishPlan)
    ensures
        new_files == 0 <==> r is Nothing,
        r matches PublishPlan::CommitAndPush(m) ==> m@ == marker@ + " - "@ + timestamp@,
{
    if new_files == 0 {
        PublishPlan::Nothing
    } else {
        let a = concat(marker, " - ");
        PublishPlan::CommitAndPush(concat(a.as_str(), timestamp))
    }
}

} // verus!
