//! Data model of the hiring service: identities, profiles, jobs, per-job
//! status ledgers, and the single persisted document that aggregates them.

use vstd::prelude::*;

verus! {

/// An opaque participant handle: an externally verified key, never inspected,
/// only compared byte for byte.
pub struct Identity {
    pub bytes: Vec<u8>,
}

impl View for Identity {
    type V = Seq<u8>;

    open spec fn view(&self) -> Seq<u8> {
        self.bytes@
    }
}

impl Clone for Identity {
    fn clone(&self) -> (r: Self)
        ensures
            r@ == self@,
    {
        let mut bytes: Vec<u8> = Vec::new();
        let mut i: usize = 0;
        while i < self.bytes.len()
            invariant
                i <= self.bytes@.len(),
                bytes@ =~= self.bytes@.subrange(0, i as int),
            decreases self.bytes@.len() - i,
        {
            bytes.push(self.bytes[i]);
            i += 1;
        }
        proof {
            assert(bytes@ =~= self.bytes@);
        }
        Identity { bytes }
    }
}

/// Byte-for-byte comparison of two identities.
pub fn id_eq(a: &Identity, b: &Identity) -> (r: bool)
    ensures
        r == (a@ == b@),
{
    if a.bytes.len() != b.bytes.len() {
        return false;
    }
    let mut i: usize = 0;
    while i < a.bytes.len()
        invariant
            i <= a.bytes@.len(),
            a.bytes@.len() == b.bytes@.len(),
            forall|j: int| 0 <= j < i ==> a@[j] == b@[j],
        decreases a.bytes@.len() - i,
    {
        if a.bytes[i] != b.bytes[i] {
            return false;
        }
        i += 1;
    }
    proof {
        assert(a@ =~= b@);
    }
    true
}

/// The stage one applicant currently holds within one job's pipeline.
#[derive(Clone, Copy, PartialEq, Eq, Structural, Debug)]
pub enum Status {
    Rejected,
    Applied,
    Round(u8),
    Accepted,
}

/// Profile data of an employer; immutable after creation.
pub struct Employer {
    pub name: String,
    pub organisation: String,
}

/// Profile data of an applicant; mutated only by appending to `applied_jobs`.
pub struct Applicant {
    pub applicant_id: Identity,
    pub name: String,
    pub bio: String,
    pub applied_jobs: Vec<u64>,
}

/// The per-identity profile: exactly one of two kinds.
pub enum Account {
    Applicant(Applicant),
    Employer(Employer),
}

/// A posting: owner, fixed round count, and descriptive text. Immutable
/// after creation.
pub struct Job {
    pub id: u64,
    pub num_rounds: u8,
    pub name: String,
    pub description: String,
    pub owner: Identity,
}

/// One applicant's standing within one job: the single authoritative record
/// of that applicant's current status.
pub struct Application {
    pub applicant: Identity,
    pub status: Status,
}

/// Per-job ledger: one entry per applicant, so an applicant holds exactly
/// one status at a time by construction.
pub struct StatusLedger {
    pub entries: Vec<Application>,
}

/// One row of the identity registry.
pub struct ProfileEntry {
    pub id: Identity,
    pub account: Account,
}

/// The whole-document system state: identity registry, job catalog, and one
/// status ledger per job. Job ids are assigned sequentially, so the catalog
/// and the ledger list are indexed by job id.
pub struct DappHireService {
    pub job_status_list: Vec<StatusLedger>,
    pub jobs: Vec<Job>,
    pub profiles: Vec<ProfileEntry>,
}

/// The typed failures an operation can surface.
#[derive(Clone, Copy, PartialEq, Eq, Structural, Debug)]
pub enum HireError {
    AlreadyRegistered,
    NotAuthorized,
    NotOwner,
    JobNotFound,
    ApplicantNotFound,
    AlreadyApplied,
    AlreadyRejected,
    DecodeError,
}

/// Some profile is registered under `id`.
pub open spec fn has_profile(s: Seq<ProfileEntry>, id: Seq<u8>) -> bool {
    exists|j: int| 0 <= j < s.len() && #[trigger] s[j].id@ == id
}

/// The registry index holding `id` (meaningful only when `has_profile`).
pub open spec fn profile_index(s: Seq<ProfileEntry>, id: Seq<u8>) -> int {
    choose|j: int| 0 <= j < s.len() && #[trigger] s[j].id@ == id
}

/// The profile registered under `id` (meaningful only when `has_profile`).
pub open spec fn account_of(s: Seq<ProfileEntry>, id: Seq<u8>) -> Account {
    s[profile_index(s, id)].account
}

/// `id` is registered and holds an employer profile.
pub open spec fn is_employer(s: Seq<ProfileEntry>, id: Seq<u8>) -> bool {
    has_profile(s, id) && account_of(s, id) is Employer
}

/// `id` is registered and holds an applicant profile.
pub open spec fn is_applicant(s: Seq<ProfileEntry>, id: Seq<u8>) -> bool {
    has_profile(s, id) && account_of(s, id) is Applicant
}

/// `who` holds some status in the ledger.
pub open spec fn in_ledger(e: Seq<Application>, who: Seq<u8>) -> bool {
    exists|j: int| 0 <= j < e.len() && #[trigger] e[j].applicant@ == who
}

/// The ledger index of `who`'s entry (meaningful only when `in_ledger`).
pub open spec fn app_index(e: Seq<Application>, who: Seq<u8>) -> int {
    choose|j: int| 0 <= j < e.len() && #[trigger] e[j].applicant@ == who
}

/// `who`'s current status (meaningful only when `in_ledger`).
pub open spec fn status_in(e: Seq<Application>, who: Seq<u8>) -> Status {
    e[app_index(e, who)].status
}

/// The set of applicants currently holding `st`: the bucket view of the
/// ledger that the document model describes.
pub open spec fn bucket(e: Seq<Application>, st: Status) -> Set<Seq<u8>> {
    Set::new(|id: Seq<u8>| exists|j: int|
        0 <= j < e.len() && #[trigger] e[j].applicant@ == id && e[j].status == st)
}

/// In a ledger without duplicate applicants, an entry known to hold `who`
/// is the entry the ledger lookup finds.
pub proof fn lemma_status_at(e: Seq<Application>, who: Seq<u8>, k: int)
    requires
        unique_applicants(e),
        0 <= k < e.len(),
        e[k].applicant@ == who,
    ensures
        in_ledger(e, who),
        app_index(e, who) == k,
        status_in(e, who) == e[k].status,
{
    assert(in_ledger(e, who));
    let k2 = app_index(e, who);
    if k2 != k {
        assert(e[k2].applicant@ == e[k].applicant@);
        assert(false);
    }
}

/// No identity is registered twice.
pub open spec fn unique_ids(s: Seq<ProfileEntry>) -> bool {
    forall|i: int, j: int| 0 <= i < j < s.len() ==> s[i].id@ != s[j].id@
}

/// No applicant holds two entries of one ledger.
pub open spec fn unique_applicants(e: Seq<Application>) -> bool {
    forall|i: int, j: int| 0 <= i < j < e.len() ==> e[i].applicant@ != e[j].applicant@
}

/// The status is one the job's pipeline admits: `Round(k)` only for
/// `1 <= k <= num_rounds`.
pub open spec fn valid_status(st: Status, num_rounds: u8) -> bool {
    match st {
        Status::Round(k) => 1 <= k <= num_rounds,
        _ => true,
    }
}

/// Ledger well-formedness: one entry per applicant, every status valid.
pub open spec fn ledger_wf(e: Seq<Application>, num_rounds: u8) -> bool {
    &&& unique_applicants(e)
    &&& forall|j: int| 0 <= j < e.len() ==> valid_status(#[trigger] e[j].status, num_rounds)
}

impl DappHireService {
    /// Document invariant: gapless job ids starting at 0, one ledger per
    /// job, at most one profile per identity, applicant profiles keyed by
    /// their own identity, and every ledger well formed for its job.
    pub open spec fn wf(self) -> bool {
        &&& self.jobs@.len() == self.job_status_list@.len()
        &&& forall|i: int| 0 <= i < self.jobs@.len() ==> #[trigger] self.jobs@[i].id == i
        &&& unique_ids(self.profiles@)
        &&& forall|i: int| 0 <= i < self.profiles@.len()
            ==> ((#[trigger] self.profiles@[i].account) matches Account::Applicant(a)
                ==> a.applicant_id@ == self.profiles@[i].id@)
        &&& forall|i: int| 0 <= i < self.job_status_list@.len()
            ==> ledger_wf(
                (#[trigger] self.job_status_list@[i]).entries@,
                self.jobs@[i].num_rounds,
            )
    }

    /// Decides the document invariant at run time, so that a document read
    /// back from untrusted storage can be validated before it is used.
    pub fn check_wf(&self) -> (r: bool)
        ensures
            r == self.wf(),
    {
        if self.jobs.len() != self.job_status_list.len() {
            return false;
        }
        let mut i: usize = 0;
        while i < self.jobs.len()
            invariant
                i <= self.jobs@.len(),
                forall|k: int| 0 <= k < i ==> #[trigger] self.jobs@[k].id == k,
            decreases self.jobs@.len() - i,
        {
            if self.jobs[i].id != i as u64 {
                return false;
            }
            i += 1;
        }
        let mut i: usize = 0;
        while i < self.profiles.len()
            invariant
                i <= self.profiles@.len(),
                forall|a: int, b: int| 0 <= a < b < self.profiles@.len() && a < i
                    ==> self.profiles@[a].id@ != self.profiles@[b].id@,
                forall|a: int| 0 <= a < i
                    ==> ((#[trigger] self.profiles@[a].account) matches Account::Applicant(ap)
                        ==> ap.applicant_id@ == self.profiles@[a].id@),
            decreases self.profiles@.len() - i,
        {
            let consistent = match &self.profiles[i].account {
                Account::Applicant(ap) => id_eq(&ap.applicant_id, &self.profiles[i].id),
                Account::Employer(_) => true,
            };
            if !consistent {
                return false;
            }
            let mut j: usize = i + 1;
            while j < self.profiles.len()
                invariant
                    i < j <= self.profiles@.len(),
                    forall|b: int| i < b < j ==> self.profiles@[i as int].id@
                        != self.profiles@[b].id@,
                decreases self.profiles@.len() - j,
            {
                if id_eq(&self.profiles[i].id, &self.profiles[j].id) {
                    return false;
                }
                j += 1;
            }
            i += 1;
        }
        let mut l: usize = 0;
        while l < self.job_status_list.len()
            invariant
                l <= self.job_status_list@.len(),
                self.jobs@.len() == self.job_status_list@.len(),
                forall|k: int| 0 <= k < l
                    ==> ledger_wf(
                        (#[trigger] self.job_status_list@[k]).entries@,
                        self.jobs@[k].num_rounds,
                    ),
            decreases self.job_status_list@.len() - l,
        {
            let num_rounds = self.jobs[l].num_rounds;
            let entries = &self.job_status_list[l].entries;
            let mut i: usize = 0;
            while i < entries.len()
                invariant
                    i <= entries@.len(),
                    l < self.job_status_list@.len(),
                    self.jobs@.len() == self.job_status_list@.len(),
                    entries@ == self.job_status_list@[l as int].entries@,
                    num_rounds == self.jobs@[l as int].num_rounds,
                    forall|a: int, b: int| 0 <= a < b < entries@.len() && a < i
                        ==> entries@[a].applicant@ != entries@[b].applicant@,
                    forall|a: int| 0 <= a < i
                        ==> valid_status(#[trigger] entries@[a].status, num_rounds),
                decreases entries@.len() - i,
            {
                let valid = match entries[i].status {
                    Status::Round(k) => 1 <= k && k <= num_rounds,
                    _ => true,
                };
                if !valid {
                    proof {
                        assert(!valid_status(entries@[i as int].status, num_rounds));
                        assert(!ledger_wf(entries@, num_rounds));
                        assert(self.job_status_list@[l as int].entries@ == entries@);
                        assert(!self.wf());
                    }
                    return false;
                }
                let mut j: usize = i + 1;
                while j < entries.len()
                    invariant
                        i < j <= entries@.len(),
                        l < self.job_status_list@.len(),
                        self.jobs@.len() == self.job_status_list@.len(),
                        entries@ == self.job_status_list@[l as int].entries@,
                        num_rounds == self.jobs@[l as int].num_rounds,
                        forall|b: int| i < b < j ==> entries@[i as int].applicant@
                            != entries@[b].applicant@,
                    decreases entries@.len() - j,
                {
                    if id_eq(&entries[i].applicant, &entries[j].applicant) {
                        proof {
                            assert(!unique_applicants(entries@));
                            assert(!ledger_wf(entries@, num_rounds));
                            assert(self.job_status_list@[l as int].entries@ == entries@);
                            assert(!self.wf());
                        }
                        return false;
                    }
                    j += 1;
                }
                i += 1;
            }
            proof {
                assert(ledger_wf(entries@, num_rounds));
            }
            l += 1;
        }
        true
    }

    /// The empty document created once at system initialization.
    pub fn new() -> (r: DappHireService)
        ensures
            r.wf(),
            r.profiles@.len() == 0,
            r.jobs@.len() == 0,
            r.job_status_list@.len() == 0,
    {
        DappHireService { job_status_list: Vec::new(), jobs: Vec::new(), profiles: Vec::new() }
    }
}

} // verus!
