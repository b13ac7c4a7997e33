//! The hiring pipeline engine: every operation validates the caller and the
//! referenced records against the document, then either mutates the document
//! or leaves it exactly as it was and returns a typed error.

use vstd::prelude::*;

use crate::instruction::Controller;
use crate::state::{
    app_index, bucket, has_profile, id_eq, in_ledger, is_applicant, is_employer, ledger_wf,
    lemma_status_at, profile_index, status_in, unique_applicants, unique_ids, Account, Applicant,
    Application, DappHireService, Employer, HireError, Identity, Job, ProfileEntry, Status,
    StatusLedger,
};

verus! {

/// The status an applicant moves to when advanced out of `cur` in a job
/// with `num_rounds` interview rounds: `Applied` enters the first round
/// (or is accepted outright when the job has no rounds), `Round(k)` moves
/// to `Round(k+1)` until the last round, whose exit is `Accepted`.
pub open spec fn next_status(cur: Status, num_rounds: u8) -> Status {
    match cur {
        Status::Applied => if num_rounds == 0 {
            Status::Accepted
        } else {
            Status::Round(1)
        },
        Status::Round(k) => if k < num_rounds {
            Status::Round((k + 1) as u8)
        } else {
            Status::Accepted
        },
        _ => cur,
    }
}

/// What registering an applicant profile does: fails with
/// `AlreadyRegistered` exactly when the caller already holds a profile,
/// and otherwise appends a fresh applicant profile keyed by the caller.
pub open spec fn register_applicant_post(
    pre: DappHireService,
    post: DappHireService,
    caller: Seq<u8>,
    name: Seq<char>,
    bio: Seq<char>,
    r: Result<(), HireError>,
) -> bool {
    match r {
        Ok(_) => {
            &&& !has_profile(pre.profiles@, caller)
            &&& post.profiles@.len() == pre.profiles@.len() + 1
            &&& post.profiles@.subrange(0, pre.profiles@.len() as int) == pre.profiles@
            &&& post.profiles@.last().id@ == caller
            &&& (post.profiles@.last().account matches Account::Applicant(a)
                && a.applicant_id@ == caller
                && a.name@ == name
                && a.bio@ == bio
                && a.applied_jobs@ == Seq::<u64>::empty())
            &&& post.jobs == pre.jobs
            &&& post.job_status_list == pre.job_status_list
        },
        Err(e) => {
            &&& e == HireError::AlreadyRegistered
            &&& has_profile(pre.profiles@, caller)
            &&& post == pre
        },
    }
}

/// What registering an employer profile does: fails with
/// `AlreadyRegistered` exactly when the caller already holds a profile,
/// and otherwise appends a fresh employer profile keyed by the caller.
pub open spec fn register_employer_post(
    pre: DappHireService,
    post: DappHireService,
    caller: Seq<u8>,
    name: Seq<char>,
    organisation: Seq<char>,
    r: Result<(), HireError>,
) -> bool {
    match r {
        Ok(_) => {
            &&& !has_profile(pre.profiles@, caller)
            &&& post.profiles@.len() == pre.profiles@.len() + 1
            &&& post.profiles@.subrange(0, pre.profiles@.len() as int) == pre.profiles@
            &&& post.profiles@.last().id@ == caller
            &&& (post.profiles@.last().account matches Account::Employer(em)
                && em.name@ == name
                && em.organisation@ == organisation)
            &&& post.jobs == pre.jobs
            &&& post.job_status_list == pre.job_status_list
        },
        Err(e) => {
            &&& e == HireError::AlreadyRegistered
            &&& has_profile(pre.profiles@, caller)
            &&& post == pre
        },
    }
}

/// What creating a job does: only a registered employer may create one;
/// the new job gets the next sequential id (the current catalog size), an
/// empty status ledger, and the caller as owner.
pub open spec fn create_job_post(
    pre: DappHireService,
    post: DappHireService,
    caller: Seq<u8>,
    name: Seq<char>,
    description: Seq<char>,
    num_rounds: u8,
    r: Result<u64, HireError>,
) -> bool {
    match r {
        Ok(id) => {
            &&& is_employer(pre.profiles@, caller)
            &&& id == pre.jobs@.len()
            &&& post.jobs@.len() == pre.jobs@.len() + 1
            &&& post.jobs@.subrange(0, pre.jobs@.len() as int) == pre.jobs@
            &&& post.jobs@.last().id == id
            &&& post.jobs@.last().num_rounds == num_rounds
            &&& post.jobs@.last().name@ == name
            &&& post.jobs@.last().description@ == description
            &&& post.jobs@.last().owner@ == caller
            &&& post.job_status_list@.len() == pre.job_status_list@.len() + 1
            &&& post.job_status_list@.subrange(0, pre.job_status_list@.len() as int)
                == pre.job_status_list@
            &&& post.job_status_list@.last().entries@ == Seq::<Application>::empty()
            &&& post.profiles == pre.profiles
        },
        Err(e) => {
            &&& e == HireError::NotAuthorized
            &&& !is_employer(pre.profiles@, caller)
            &&& post == pre
        },
    }
}

/// What applying to a job does: only a registered applicant may apply, the
/// job must exist, and an applicant already holding any status in the job's
/// ledger is refused with `AlreadyApplied` and changes nothing. On success
/// the applicant enters the `Applied` bucket and the job id is appended to
/// the applicant's application history.
pub open spec fn apply_to_job_post(
    pre: DappHireService,
    post: DappHireService,
    caller: Seq<u8>,
    job_id: u64,
    r: Result<(), HireError>,
) -> bool {
    match r {
        Ok(_) => {
            &&& is_applicant(pre.profiles@, caller)
            &&& job_id < pre.jobs@.len()
            &&& !in_ledger(pre.job_status_list@[job_id as int].entries@, caller)
            &&& post.job_status_list@.len() == pre.job_status_list@.len()
            &&& (forall|j: int| 0 <= j < pre.job_status_list@.len() && j != job_id
                ==> post.job_status_list@[j] == pre.job_status_list@[j])
            &&& {
                let pre_e = pre.job_status_list@[job_id as int].entries@;
                let post_e = post.job_status_list@[job_id as int].entries@;
                &&& post_e.len() == pre_e.len() + 1
                &&& post_e.subrange(0, pre_e.len() as int) == pre_e
                &&& post_e.last().applicant@ == caller
                &&& post_e.last().status == Status::Applied
            }
            &&& post.profiles@.len() == pre.profiles@.len()
            &&& {
                let k = profile_index(pre.profiles@, caller);
                &&& (forall|j: int| 0 <= j < pre.profiles@.len() && j != k
                    ==> post.profiles@[j] == pre.profiles@[j])
                &&& post.profiles@[k].id == pre.profiles@[k].id
                &&& (pre.profiles@[k].account matches Account::Applicant(a0)
                    && post.profiles@[k].account matches Account::Applicant(a1)
                    && a1.applicant_id == a0.applicant_id
                    && a1.name == a0.name
                    && a1.bio == a0.bio
                    && a1.applied_jobs@ == a0.applied_jobs@.push(job_id))
            }
            &&& post.jobs == pre.jobs
        },
        Err(e) => {
            &&& post == pre
            &&& match e {
                HireError::NotAuthorized => !is_applicant(pre.profiles@, caller),
                HireError::JobNotFound => is_applicant(pre.profiles@, caller)
                    && job_id >= pre.jobs@.len(),
                HireError::AlreadyApplied => is_applicant(pre.profiles@, caller)
                    && job_id < pre.jobs@.len()
                    && in_ledger(pre.job_status_list@[job_id as int].entries@, caller),
                _ => false,
            }
        },
    }
}

/// What advancing an applicant does: only the employer owning the job may
/// advance, the applicant must hold a non-terminal status, and exactly that
/// one entry moves to the next stage of the pipeline. A rejected applicant
/// is refused with `AlreadyRejected`; an accepted or absent one with
/// `ApplicantNotFound`. Every failure leaves the document untouched.
pub open spec fn advance_applicant_post(
    pre: DappHireService,
    post: DappHireService,
    caller: Seq<u8>,
    job_id: u64,
    who: Seq<u8>,
    r: Result<(), HireError>,
) -> bool {
    match r {
        Ok(_) => {
            &&& is_employer(pre.profiles@, caller)
            &&& job_id < pre.jobs@.len()
            &&& pre.jobs@[job_id as int].owner@ == caller
            &&& {
                let pre_e = pre.job_status_list@[job_id as int].entries@;
                let post_e = post.job_status_list@[job_id as int].entries@;
                let k = app_index(pre_e, who);
                &&& in_ledger(pre_e, who)
                &&& (status_in(pre_e, who) is Applied || status_in(pre_e, who) is Round)
                &&& post_e.len() == pre_e.len()
                &&& (forall|j: int| 0 <= j < pre_e.len() && j != k ==> post_e[j] == pre_e[j])
                &&& post_e[k].applicant == pre_e[k].applicant
                &&& post_e[k].status == next_status(
                    status_in(pre_e, who),
                    pre.jobs@[job_id as int].num_rounds,
                )
            }
            &&& post.job_status_list@.len() == pre.job_status_list@.len()
            &&& (forall|j: int| 0 <= j < pre.job_status_list@.len() && j != job_id
                ==> post.job_status_list@[j] == pre.job_status_list@[j])
            &&& post.jobs == pre.jobs
            &&& post.profiles == pre.profiles
        },
        Err(e) => {
            &&& post == pre
            &&& match e {
                HireError::NotAuthorized => !is_employer(pre.profiles@, caller),
                HireError::JobNotFound => is_employer(pre.profiles@, caller)
                    && job_id >= pre.jobs@.len(),
                HireError::NotOwner => is_employer(pre.profiles@, caller)
                    && job_id < pre.jobs@.len()
                    && pre.jobs@[job_id as int].owner@ != caller,
                HireError::AlreadyRejected => is_employer(pre.profiles@, caller)
                    && job_id < pre.jobs@.len()
                    && pre.jobs@[job_id as int].owner@ == caller
                    && in_ledger(pre.job_status_list@[job_id as int].entries@, who)
                    && status_in(pre.job_status_list@[job_id as int].entries@, who)
                        is Rejected,
                HireError::ApplicantNotFound => is_employer(pre.profiles@, caller)
                    && job_id < pre.jobs@.len()
                    && pre.jobs@[job_id as int].owner@ == caller
                    && (!in_ledger(pre.job_status_list@[job_id as int].entries@, who)
                        || status_in(pre.job_status_list@[job_id as int].entries@, who)
                            is Accepted),
                _ => false,
            }
        },
    }
}

/// What rejecting an applicant does: only the employer owning the job may
/// reject. An applicant holding a non-terminal status moves to `Rejected`;
/// one already rejected is refused with `AlreadyRejected`; one absent from
/// the ledger or already accepted is left untouched and the call still
/// succeeds (the permissive policy: rejecting an inactive applicant is
/// harmless). Every failure leaves the document untouched.
pub open spec fn reject_applicant_post(
    pre: DappHireService,
    post: DappHireService,
    caller: Seq<u8>,
    job_id: u64,
    who: Seq<u8>,
    r: Result<(), HireError>,
) -> bool {
    match r {
        Ok(_) => {
            &&& is_employer(pre.profiles@, caller)
            &&& job_id < pre.jobs@.len()
            &&& pre.jobs@[job_id as int].owner@ == caller
            &&& {
                let pre_e = pre.job_status_list@[job_id as int].entries@;
                &&& !(in_ledger(pre_e, who) && status_in(pre_e, who) is Rejected)
                &&& if in_ledger(pre_e, who)
                    && (status_in(pre_e, who) is Applied || status_in(pre_e, who) is Round) {
                    let post_e = post.job_status_list@[job_id as int].entries@;
                    let k = app_index(pre_e, who);
                    &&& post_e.len() == pre_e.len()
                    &&& (forall|j: int| 0 <= j < pre_e.len() && j != k ==> post_e[j] == pre_e[j])
                    &&& post_e[k].applicant == pre_e[k].applicant
                    &&& post_e[k].status == Status::Rejected
                    &&& post.job_status_list@.len() == pre.job_status_list@.len()
                    &&& (forall|j: int| 0 <= j < pre.job_status_list@.len() && j != job_id
                        ==> post.job_status_list@[j] == pre.job_status_list@[j])
                    &&& post.jobs == pre.jobs
                    &&& post.profiles == pre.profiles
                } else {
                    post == pre
                }
            }
        },
        Err(e) => {
            &&& post == pre
            &&& match e {
                HireError::NotAuthorized => !is_employer(pre.profiles@, caller),
                HireError::JobNotFound => is_employer(pre.profiles@, caller)
                    && job_id >= pre.jobs@.len(),
                HireError::NotOwner => is_employer(pre.profiles@, caller)
                    && job_id < pre.jobs@.len()
                    && pre.jobs@[job_id as int].owner@ != caller,
                HireError::AlreadyRejected => is_employer(pre.profiles@, caller)
                    && job_id < pre.jobs@.len()
                    && pre.jobs@[job_id as int].owner@ == caller
                    && in_ledger(pre.job_status_list@[job_id as int].entries@, who)
                    && status_in(pre.job_status_list@[job_id as int].entries@, who)
                        is Rejected,
                _ => false,
            }
        },
    }
}

/// What one dispatched command does: the exact effect of the operation the
/// command names, on the arguments it carries.
pub open spec fn command_post(
    pre: DappHireService,
    post: DappHireService,
    caller: Seq<u8>,
    cmd: Controller,
    r: Result<(), HireError>,
) -> bool {
    match cmd {
        Controller::CreateApplicantAccount { name, bio } => register_applicant_post(
            pre,
            post,
            caller,
            name@,
            bio@,
            r,
        ),
        Controller::CreateEmployerAccount { name, organisation } => register_employer_post(
            pre,
            post,
            caller,
            name@,
            organisation@,
            r,
        ),
        Controller::CreateJob { name, description, num_rounds } => create_job_post(
            pre,
            post,
            caller,
            name@,
            description@,
            num_rounds,
            match r {
                Ok(_) => Ok(pre.jobs@.len() as u64),
                Err(e) => Err(e),
            },
        ),
        Controller::MoveApplicationStatus { job_id, applicant_id } => advance_applicant_post(
            pre,
            post,
            caller,
            job_id,
            applicant_id@,
            r,
        ),
        Controller::RejectApplicationStatus { job_id, applicant_id } => reject_applicant_post(
            pre,
            post,
            caller,
            job_id,
            applicant_id@,
            r,
        ),
        Controller::ApplyJob { job_id } => apply_to_job_post(pre, post, caller, job_id, r),
    }
}

/// Linear scan of the registry for `id`. Returns the unique index holding
/// it, or `None` when no profile is registered under `id`.
fn find_profile(profiles: &Vec<ProfileEntry>, id: &Identity) -> (r: Option<usize>)
    requires
        unique_ids(profiles@),
    ensures
        match r {
            Some(i) => has_profile(profiles@, id@) && i < profiles@.len()
                && profiles@[i as int].id@ == id@ && profile_index(profiles@, id@) == i,
            None => !has_profile(profiles@, id@),
        },
{
    let mut i: usize = 0;
    while i < profiles.len()
        invariant
            i <= profiles@.len(),
            unique_ids(profiles@),
            forall|j: int| 0 <= j < i ==> profiles@[j].id@ != id@,
        decreases profiles@.len() - i,
    {
        if id_eq(&profiles[i].id, id) {
            proof {
                assert(has_profile(profiles@, id@));
                let k = profile_index(profiles@, id@);
                if k != i as int {
                    assert(profiles@[k].id@ == profiles@[i as int].id@);
                    assert(false);
                }
            }
            return Some(i);
        }
        i += 1;
    }
    None
}

/// Linear scan of a ledger for `who`. Returns the unique index of `who`'s
/// entry, or `None` when `who` holds no status in the ledger.
fn find_application(entries: &Vec<Application>, who: &Identity) -> (r: Option<usize>)
    requires
        unique_applicants(entries@),
    ensures
        match r {
            Some(i) => in_ledger(entries@, who@) && i < entries@.len()
                && entries@[i as int].applicant@ == who@ && app_index(entries@, who@) == i,
            None => !in_ledger(entries@, who@),
        },
{
    let mut i: usize = 0;
    while i < entries.len()
        invariant
            i <= entries@.len(),
            unique_applicants(entries@),
            forall|j: int| 0 <= j < i ==> entries@[j].applicant@ != who@,
        decreases entries@.len() - i,
    {
        if id_eq(&entries[i].applicant, who) {
            proof {
                assert(in_ledger(entries@, who@));
                let k = app_index(entries@, who@);
                if k != i as int {
                    assert(entries@[k].applicant@ == entries@[i as int].applicant@);
                    assert(false);
                }
            }
            return Some(i);
        }
        i += 1;
    }
    None
}

/// Overwrites the status of entry `i`, leaving every other entry and the
/// entry's applicant untouched.
fn set_status(entries: &mut Vec<Application>, i: usize, st: Status)
    requires
        i < old(entries)@.len(),
    ensures
        final(entries)@.len() == old(entries)@.len(),
        forall|j: int| 0 <= j < old(entries)@.len() && j != i ==> final(entries)@[j]
            == old(entries)@[j],
        final(entries)@[i as int].applicant == old(entries)@[i as int].applicant,
        final(entries)@[i as int].status == st,
{
    let e = &mut entries[i];
    e.status = st;
}

impl DappHireService {
    /// Registers the caller as an applicant with an empty application
    /// history; at most one profile ever exists per identity.
    pub fn register_applicant(&mut self, caller: &Identity, name: String, bio: String) -> (r:
        Result<(), HireError>)
        requires
            old(self).wf(),
        ensures
            final(self).wf(),
            register_applicant_post(*old(self), *final(self), caller@, name@, bio@, r),
    {
        match find_profile(&self.profiles, caller) {
            Some(_) => Err(HireError::AlreadyRegistered),
            None => {
                let entry = ProfileEntry {
                    id: caller.clone(),
                    account: Account::Applicant(Applicant {
                        applicant_id: caller.clone(),
                        name,
                        bio,
                        applied_jobs: Vec::new(),
                    }),
                };
                self.profiles.push(entry);
                proof {
                    assert(self.profiles@.subrange(0, old(self).profiles@.len() as int)
                        =~= old(self).profiles@);
                }
                Ok(())
            },
        }
    }

    /// Registers the caller as an employer; at most one profile ever
    /// exists per identity.
    pub fn register_employer(&mut self, caller: &Identity, name: String, organisation: String)
        -> (r: Result<(), HireError>)
        requires
            old(self).wf(),
        ensures
            final(self).wf(),
            register_employer_post(*old(self), *final(self), caller@, name@, organisation@, r),
    {
        match find_profile(&self.profiles, caller) {
            Some(_) => Err(HireError::AlreadyRegistered),
            None => {
                let entry = ProfileEntry {
                    id: caller.clone(),
                    account: Account::Employer(Employer { name, organisation }),
                };
                self.profiles.push(entry);
                proof {
                    assert(self.profiles@.subrange(0, old(self).profiles@.len() as int)
                        =~= old(self).profiles@);
                }
                Ok(())
            },
        }
    }

    /// Creates a job owned by the caller, with the next sequential id and
    /// an empty status ledger. Only a registered employer may create one.
    pub fn create_job(
        &mut self,
        caller: &Identity,
        name: String,
        description: String,
        num_rounds: u8,
    ) -> (r: Result<u64, HireError>)
        requires
            old(self).wf(),
        ensures
            final(self).wf(),
            create_job_post(
                *old(self),
                *final(self),
                caller@,
                name@,
                description@,
                num_rounds,
                r,
            ),
    {
        let authorized = match find_profile(&self.profiles, caller) {
            None => false,
            Some(pi) => match &self.profiles[pi].account {
                Account::Applicant(_) => false,
                Account::Employer(_) => true,
            },
        };
        if !authorized {
            return Err(HireError::NotAuthorized);
        }
        let id = self.jobs.len() as u64;
        let job = Job { id, num_rounds, name, description, owner: caller.clone() };
        self.jobs.push(job);
        self.job_status_list.push(StatusLedger { entries: Vec::new() });
        proof {
            assert(self.jobs@.subrange(0, old(self).jobs@.len() as int) =~= old(self).jobs@);
            assert(self.job_status_list@.subrange(0, old(self).job_status_list@.len() as int)
                =~= old(self).job_status_list@);
            assert(self.job_status_list@.last().entries@ =~= Seq::<Application>::empty());
        }
        Ok(id)
    }

    /// Applies the caller to a job: the caller must hold an applicant
    /// profile, the job must exist, and the caller must not already hold a
    /// status in the job's ledger. On success the caller enters `Applied`
    /// and the job id is appended to the caller's application history.
    pub fn apply_to_job(&mut self, caller: &Identity, job_id: u64) -> (r: Result<(), HireError>)
        requires
            old(self).wf(),
        ensures
            final(self).wf(),
            apply_to_job_post(*old(self), *final(self), caller@, job_id, r),
    {
        let pi = match find_profile(&self.profiles, caller) {
            None => {
                return Err(HireError::NotAuthorized);
            },
            Some(pi) => pi,
        };
        let caller_is_applicant = match &self.profiles[pi].account {
            Account::Applicant(_) => true,
            Account::Employer(_) => false,
        };
        if !caller_is_applicant {
            return Err(HireError::NotAuthorized);
        }
        if job_id >= self.jobs.len() as u64 {
            return Err(HireError::JobNotFound);
        }
        let ji = job_id as usize;
        let already = match find_application(&self.job_status_list[ji].entries, caller) {
            Some(_) => true,
            None => false,
        };
        if already {
            return Err(HireError::AlreadyApplied);
        }
        let ledger = &mut self.job_status_list[ji];
        ledger.entries.push(Application { applicant: caller.clone(), status: Status::Applied });
        let entry = &mut self.profiles[pi];
        match &mut entry.account {
            Account::Applicant(a) => {
                a.applied_jobs.push(job_id);
            },
            Account::Employer(_) => {
                proof {
                    assert(false);
                }
            },
        }
        proof {
            let pre_e = old(self).job_status_list@[ji as int].entries@;
            assert(self.job_status_list@[ji as int].entries@.subrange(0, pre_e.len() as int)
                =~= pre_e);
        }
        Ok(())
    }

    /// Advances an applicant one stage: `Applied` to the first round, each
    /// round to the next, the last round to `Accepted`. Only the employer
    /// owning the job may advance; a rejected applicant is refused with
    /// `AlreadyRejected`, an accepted or absent one with
    /// `ApplicantNotFound`.
    pub fn advance_applicant(&mut self, caller: &Identity, job_id: u64, applicant_id: &Identity)
        -> (r: Result<(), HireError>)
        requires
            old(self).wf(),
        ensures
            final(self).wf(),
            advance_applicant_post(
                *old(self),
                *final(self),
                caller@,
                job_id,
                applicant_id@,
                r,
            ),
    {
        let pi = match find_profile(&self.profiles, caller) {
            None => {
                return Err(HireError::NotAuthorized);
            },
            Some(pi) => pi,
        };
        let caller_is_employer = match &self.profiles[pi].account {
            Account::Applicant(_) => false,
            Account::Employer(_) => true,
        };
        if !caller_is_employer {
            return Err(HireError::NotAuthorized);
        }
        if job_id >= self.jobs.len() as u64 {
            return Err(HireError::JobNotFound);
        }
        let ji = job_id as usize;
        if !id_eq(&self.jobs[ji].owner, caller) {
            return Err(HireError::NotOwner);
        }
        let num_rounds = self.jobs[ji].num_rounds;
        let ai = match find_application(&self.job_status_list[ji].entries, applicant_id) {
            None => {
                return Err(HireError::ApplicantNotFound);
            },
            Some(ai) => ai,
        };
        let cur = self.job_status_list[ji].entries[ai].status;
        match cur {
            Status::Rejected => Err(HireError::AlreadyRejected),
            Status::Accepted => Err(HireError::ApplicantNotFound),
            Status::Applied => {
                let st = if num_rounds == 0 {
                    Status::Accepted
                } else {
                    Status::Round(1)
                };
                let ledger = &mut self.job_status_list[ji];
                set_status(&mut ledger.entries, ai, st);
                Ok(())
            },
            Status::Round(k) => {
                let st = if k < num_rounds {
                    Status::Round(k + 1)
                } else {
                    Status::Accepted
                };
                let ledger = &mut self.job_status_list[ji];
                set_status(&mut ledger.entries, ai, st);
                Ok(())
            },
        }
    }

    /// Rejects an applicant: one holding a non-terminal status moves to
    /// `Rejected`; one already rejected is refused with `AlreadyRejected`;
    /// one absent from the ledger or already accepted is left untouched and
    /// the call still succeeds. Only the employer owning the job may
    /// reject.
    pub fn reject_applicant(&mut self, caller: &Identity, job_id: u64, applicant_id: &Identity)
        -> (r: Result<(), HireError>)
        requires
            old(self).wf(),
        ensures
            final(self).wf(),
            reject_applicant_post(
                *old(self),
                *final(self),
                caller@,
                job_id,
                applicant_id@,
                r,
            ),
    {
        let pi = match find_profile(&self.profiles, caller) {
            None => {
                return Err(HireError::NotAuthorized);
            },
            Some(pi) => pi,
        };
        let caller_is_employer = match &self.profiles[pi].account {
            Account::Applicant(_) => false,
            Account::Employer(_) => true,
        };
        if !caller_is_employer {
            return Err(HireError::NotAuthorized);
        }
        if job_id >= self.jobs.len() as u64 {
            return Err(HireError::JobNotFound);
        }
        let ji = job_id as usize;
        if !id_eq(&self.jobs[ji].owner, caller) {
            return Err(HireError::NotOwner);
        }
        let ai = match find_application(&self.job_status_list[ji].entries, applicant_id) {
            None => {
                return Ok(());
            },
            Some(ai) => ai,
        };
        let cur = self.job_status_list[ji].entries[ai].status;
        match cur {
            Status::Rejected => Err(HireError::AlreadyRejected),
            Status::Accepted => Ok(()),
            _ => {
                let ledger = &mut self.job_status_list[ji];
                set_status(&mut ledger.entries, ai, Status::Rejected);
                Ok(())
            },
        }
    }

    /// The engine entry point: dispatches one decoded command for an
    /// already-authenticated caller, with the exact effect of the
    /// operation the command names.
    pub fn apply_command(&mut self, caller: &Identity, cmd: Controller) -> (r: Result<
        (),
        HireError,
    >)
        requires
            old(self).wf(),
        ensures
            final(self).wf(),
            command_post(*old(self), *final(self), caller@, cmd, r),
    {
        match cmd {
            Controller::CreateApplicantAccount { name, bio } => self.register_applicant(
                caller,
                name,
                bio,
            ),
            Controller::CreateEmployerAccount { name, organisation } => self.register_employer(
                caller,
                name,
                organisation,
            ),
            Controller::CreateJob { name, description, num_rounds } => match self.create_job(
                caller,
                name,
                description,
                num_rounds,
            ) {
                Ok(_) => Ok(()),
                Err(e) => Err(e),
            },
            Controller::MoveApplicationStatus { job_id, applicant_id } => self.advance_applicant(
                caller,
                job_id,
                &applicant_id,
            ),
            Controller::RejectApplicationStatus { job_id, applicant_id } => self.reject_applicant(
                caller,
                job_id,
                &applicant_id,
            ),
            Controller::ApplyJob { job_id } => self.apply_to_job(caller, job_id),
        }
    }
}

/// Law: an identity holds at most one profile — distinct registry rows of a
/// well-formed document carry distinct identities.
pub proof fn lemma_profile_unique(s: DappHireService, i: int, j: int)
    requires
        s.wf(),
        0 <= i < s.profiles@.len(),
        0 <= j < s.profiles@.len(),
        i != j,
    ensures
        s.profiles@[i].id@ != s.profiles@[j].id@,
{
}

/// Law: an applicant appears in at most one status bucket of a job's ledger
/// at a time — two distinct statuses of one well-formed ledger never share
/// an identity.
pub proof fn lemma_bucket_unique(
    s: DappHireService,
    job: int,
    id: Seq<u8>,
    st1: Status,
    st2: Status,
)
    requires
        s.wf(),
        0 <= job < s.job_status_list@.len(),
        st1 != st2,
    ensures
        !(bucket(s.job_status_list@[job].entries@, st1).contains(id) && bucket(
            s.job_status_list@[job].entries@,
            st2,
        ).contains(id)),
{
    let e = s.job_status_list@[job].entries@;
    if bucket(e, st1).contains(id) && bucket(e, st2).contains(id) {
        let k1 = choose|k: int| 0 <= k < e.len() && (#[trigger] e[k].applicant@) == id
            && e[k].status == st1;
        let k2 = choose|k: int| 0 <= k < e.len() && (#[trigger] e[k].applicant@) == id
            && e[k].status == st2;
        assert(e[k1].applicant@ == id && e[k1].status == st1);
        assert(e[k2].applicant@ == id && e[k2].status == st2);
        if k1 != k2 {
            assert(e[k1].applicant@ != e[k2].applicant@);
        }
        assert(false);
    }
}

/// The stage a fresh applicant holds after `m` successful advances: the
/// `m`-fold iteration of `next_status` starting from `Applied`.
pub open spec fn stage_after(m: nat, num_rounds: u8) -> Status
    decreases m,
{
    if m == 0 {
        Status::Applied
    } else {
        next_status(stage_after((m - 1) as nat, num_rounds), num_rounds)
    }
}

/// Law: the pipeline is traversed in order, one stage per call — the m-th
/// successful advance of a fresh applicant lands exactly in `Round(m)`,
/// never skipping or repeating a round.
pub proof fn lemma_progression_order(num_rounds: u8, m: nat)
    requires
        1 <= m <= num_rounds,
    ensures
        stage_after(m, num_rounds) == Status::Round(m as u8),
    decreases m,
{
    if m == 1 {
        assert(stage_after(0, num_rounds) == Status::Applied);
        assert(stage_after(1, num_rounds) == next_status(Status::Applied, num_rounds));
    } else {
        lemma_progression_order(num_rounds, (m - 1) as nat);
        assert(stage_after(m, num_rounds) == next_status(
            stage_after((m - 1) as nat, num_rounds),
            num_rounds,
        ));
    }
}

/// Law: the advance after the last round — or the first advance, when the
/// job has no rounds — accepts the applicant.
pub proof fn lemma_pipeline_accepts(num_rounds: u8)
    ensures
        stage_after(num_rounds as nat + 1, num_rounds) == Status::Accepted,
{
    if num_rounds == 0 {
        assert(stage_after(0, num_rounds) == Status::Applied);
        assert(stage_after(1, num_rounds) == next_status(Status::Applied, num_rounds));
    } else {
        lemma_progression_order(num_rounds, num_rounds as nat);
        assert(stage_after(num_rounds as nat + 1, num_rounds) == next_status(
            stage_after(num_rounds as nat, num_rounds),
            num_rounds,
        ));
    }
}

/// Law: rejection is terminal — whatever command the engine dispatches, for
/// whatever caller, and however the call ends, an applicant standing in
/// `Rejected` for some job still stands there afterwards.
pub proof fn lemma_rejected_is_terminal(
    pre: DappHireService,
    post: DappHireService,
    caller: Seq<u8>,
    cmd: Controller,
    r: Result<(), HireError>,
    job: int,
    who: Seq<u8>,
)
    requires
        pre.wf(),
        post.wf(),
        command_post(pre, post, caller, cmd, r),
        0 <= job < pre.job_status_list@.len(),
        in_ledger(pre.job_status_list@[job].entries@, who),
        status_in(pre.job_status_list@[job].entries@, who) == Status::Rejected,
    ensures
        job < post.job_status_list@.len(),
        in_ledger(post.job_status_list@[job].entries@, who),
        status_in(post.job_status_list@[job].entries@, who) == Status::Rejected,
{
    let pre_e = pre.job_status_list@[job].entries@;
    let k = app_index(pre_e, who);
    assert(0 <= k < pre_e.len() && pre_e[k].applicant@ == who);
    assert(ledger_wf(pre_e, pre.jobs@[job].num_rounds));
    match cmd {
        Controller::CreateApplicantAccount { .. } => {
        },
        Controller::CreateEmployerAccount { .. } => {
        },
        Controller::CreateJob { .. } => {
            match r {
                Ok(_) => {
                    let n = pre.job_status_list@.len() as int;
                    assert(post.job_status_list@.subrange(0, n)[job]
                        == pre.job_status_list@[job]);
                },
                Err(_) => {
                },
            }
        },
        Controller::ApplyJob { job_id } => {
            match r {
                Ok(_) => {
                    if job == job_id {
                        let post_e = post.job_status_list@[job].entries@;
                        assert(post_e.subrange(0, pre_e.len() as int)[k] == pre_e[k]);
                        assert(ledger_wf(post_e, post.jobs@[job].num_rounds));
                        lemma_status_at(post_e, who, k);
                    }
                },
                Err(_) => {
                },
            }
        },
        Controller::MoveApplicationStatus { job_id, applicant_id } => {
            match r {
                Ok(_) => {
                    if job == job_id {
                        let post_e = post.job_status_list@[job].entries@;
                        let k2 = app_index(pre_e, applicant_id@);
                        if k2 == k {
                            assert(status_in(pre_e, applicant_id@) == Status::Rejected);
                            assert(false);
                        }
                        assert(post_e[k] == pre_e[k]);
                        assert(ledger_wf(post_e, post.jobs@[job].num_rounds));
                        lemma_status_at(post_e, who, k);
                    }
                },
                Err(_) => {
                },
            }
        },
        Controller::RejectApplicationStatus { job_id, applicant_id } => {
            match r {
                Ok(_) => {
                    if job == job_id {
                        if in_ledger(pre_e, applicant_id@) && (status_in(pre_e, applicant_id@)
                            is Applied || status_in(pre_e, applicant_id@) is Round) {
                            let post_e = post.job_status_list@[job].entries@;
                            let k2 = app_index(pre_e, applicant_id@);
                            if k2 == k {
                                assert(status_in(pre_e, applicant_id@) == Status::Rejected);
                                assert(false);
                            }
                            assert(post_e[k] == pre_e[k]);
                            assert(ledger_wf(post_e, post.jobs@[job].num_rounds));
                            lemma_status_at(post_e, who, k);
                        }
                    }
                },
                Err(_) => {
                },
            }
        },
    }
}

/// Law: job ids are monotonic and gapless — in a well-formed document the
/// k-th job of the catalog has id k, counting from zero.
pub proof fn lemma_job_ids_gapless(s: DappHireService, k: int)
    requires
        s.wf(),
        0 <= k < s.jobs@.len(),
    ensures
        s.jobs@[k].id == k,
{
}

} // verus!
