use dapp_hire::state::{Account, DappHireService, HireError, Identity, Status};

fn ident(b: u8) -> Identity {
    Identity { bytes: vec![b; 32] }
}

fn register_employer(s: &mut DappHireService, id: &Identity) {
    let r = s.register_employer(id, "emp".to_string(), "org".to_string());
    assert_eq!(r, Ok(()));
}

fn register_applicant(s: &mut DappHireService, id: &Identity) {
    let r = s.register_applicant(id, "app".to_string(), "bio".to_string());
    assert_eq!(r, Ok(()));
}

fn status_of(s: &DappHireService, job: usize, who: &Identity) -> Option<Status> {
    s.job_status_list[job]
        .entries
        .iter()
        .find(|e| e.applicant.bytes == who.bytes)
        .map(|e| e.status)
}

#[test]
fn register_applicant_once_only() {
    let mut s = DappHireService::new();
    let a = ident(1);
    let r = s.register_applicant(&a, "alice".to_string(), "likes rust".to_string());
    assert_eq!(r, Ok(()));
    assert_eq!(s.profiles.len(), 1);
    assert_eq!(s.profiles[0].id.bytes, a.bytes);
    match &s.profiles[0].account {
        Account::Applicant(ap) => {
            assert_eq!(ap.name, "alice");
            assert_eq!(ap.bio, "likes rust");
            assert_eq!(ap.applicant_id.bytes, a.bytes);
            assert!(ap.applied_jobs.is_empty());
        }
        Account::Employer(_) => panic!("wrong profile kind"),
    }
    let again = s.register_applicant(&a, "alice".to_string(), "again".to_string());
    assert_eq!(again, Err(HireError::AlreadyRegistered));
    assert_eq!(s.profiles.len(), 1);
}

#[test]
fn one_profile_per_identity_across_kinds() {
    let mut s = DappHireService::new();
    let i = ident(7);
    register_employer(&mut s, &i);
    let r = s.register_applicant(&i, "x".to_string(), "y".to_string());
    assert_eq!(r, Err(HireError::AlreadyRegistered));
    let r = s.register_employer(&i, "x".to_string(), "y".to_string());
    assert_eq!(r, Err(HireError::AlreadyRegistered));
    assert_eq!(s.profiles.len(), 1);
}

#[test]
fn job_ids_are_monotonic_and_gapless() {
    let mut s = DappHireService::new();
    let e = ident(1);
    register_employer(&mut s, &e);
    for k in 0..3u64 {
        let r = s.create_job(&e, format!("job{}", k), "desc".to_string(), 1);
        assert_eq!(r, Ok(k));
    }
    for k in 0..3usize {
        assert_eq!(s.jobs[k].id, k as u64);
        assert!(s.job_status_list[k].entries.is_empty());
    }
}

#[test]
fn create_job_requires_employer() {
    let mut s = DappHireService::new();
    let a = ident(1);
    register_applicant(&mut s, &a);
    let r = s.create_job(&a, "j".to_string(), "d".to_string(), 1);
    assert_eq!(r, Err(HireError::NotAuthorized));
    let stranger = ident(9);
    let r = s.create_job(&stranger, "j".to_string(), "d".to_string(), 1);
    assert_eq!(r, Err(HireError::NotAuthorized));
    assert!(s.jobs.is_empty());
}

#[test]
fn apply_requires_registered_applicant() {
    let mut s = DappHireService::new();
    let e = ident(1);
    register_employer(&mut s, &e);
    let r = s.create_job(&e, "j".to_string(), "d".to_string(), 1);
    assert_eq!(r, Ok(0));
    let stranger = ident(9);
    assert_eq!(s.apply_to_job(&stranger, 0), Err(HireError::NotAuthorized));
    assert_eq!(s.apply_to_job(&e, 0), Err(HireError::NotAuthorized));
    assert!(s.job_status_list[0].entries.is_empty());
}

#[test]
fn apply_to_missing_job_fails() {
    let mut s = DappHireService::new();
    let a = ident(2);
    register_applicant(&mut s, &a);
    assert_eq!(s.apply_to_job(&a, 0), Err(HireError::JobNotFound));
}

#[test]
fn apply_records_status_and_history() {
    let mut s = DappHireService::new();
    let e = ident(1);
    let a = ident(2);
    register_employer(&mut s, &e);
    register_applicant(&mut s, &a);
    s.create_job(&e, "j".to_string(), "d".to_string(), 2).unwrap();
    assert_eq!(s.apply_to_job(&a, 0), Ok(()));
    assert_eq!(status_of(&s, 0, &a), Some(Status::Applied));
    match &s.profiles[1].account {
        Account::Applicant(ap) => assert_eq!(ap.applied_jobs, vec![0u64]),
        Account::Employer(_) => panic!("wrong profile kind"),
    }
}

#[test]
fn second_apply_fails_and_changes_nothing() {
    let mut s = DappHireService::new();
    let e = ident(1);
    let a = ident(2);
    register_employer(&mut s, &e);
    register_applicant(&mut s, &a);
    s.create_job(&e, "j".to_string(), "d".to_string(), 2).unwrap();
    assert_eq!(s.apply_to_job(&a, 0), Ok(()));
    let entries_before: Vec<(Vec<u8>, Status)> = s.job_status_list[0]
        .entries
        .iter()
        .map(|en| (en.applicant.bytes.clone(), en.status))
        .collect();
    assert_eq!(s.apply_to_job(&a, 0), Err(HireError::AlreadyApplied));
    let entries_after: Vec<(Vec<u8>, Status)> = s.job_status_list[0]
        .entries
        .iter()
        .map(|en| (en.applicant.bytes.clone(), en.status))
        .collect();
    assert_eq!(entries_before, entries_after);
    assert_eq!(entries_after.len(), 1);
}

#[test]
fn pipeline_advances_through_every_round_once() {
    let mut s = DappHireService::new();
    let e = ident(1);
    let a = ident(2);
    register_employer(&mut s, &e);
    register_applicant(&mut s, &a);
    s.create_job(&e, "j".to_string(), "d".to_string(), 2).unwrap();
    s.apply_to_job(&a, 0).unwrap();
    assert_eq!(status_of(&s, 0, &a), Some(Status::Applied));
    assert_eq!(s.advance_applicant(&e, 0, &a), Ok(()));
    assert_eq!(status_of(&s, 0, &a), Some(Status::Round(1)));
    assert_eq!(s.advance_applicant(&e, 0, &a), Ok(()));
    assert_eq!(status_of(&s, 0, &a), Some(Status::Round(2)));
    assert_eq!(s.advance_applicant(&e, 0, &a), Ok(()));
    assert_eq!(status_of(&s, 0, &a), Some(Status::Accepted));
    assert_eq!(
        s.advance_applicant(&e, 0, &a),
        Err(HireError::ApplicantNotFound)
    );
    assert_eq!(status_of(&s, 0, &a), Some(Status::Accepted));
    assert_eq!(s.job_status_list[0].entries.len(), 1);
}

#[test]
fn zero_round_job_accepts_straight_from_applied() {
    let mut s = DappHireService::new();
    let e = ident(1);
    let a = ident(2);
    register_employer(&mut s, &e);
    register_applicant(&mut s, &a);
    s.create_job(&e, "j".to_string(), "d".to_string(), 0).unwrap();
    s.apply_to_job(&a, 0).unwrap();
    assert_eq!(s.advance_applicant(&e, 0, &a), Ok(()));
    assert_eq!(status_of(&s, 0, &a), Some(Status::Accepted));
}

#[test]
fn advance_authorization_and_lookup_errors() {
    let mut s = DappHireService::new();
    let e = ident(1);
    let other = ident(3);
    let a = ident(2);
    register_employer(&mut s, &e);
    register_employer(&mut s, &other);
    register_applicant(&mut s, &a);
    s.create_job(&e, "j".to_string(), "d".to_string(), 2).unwrap();
    s.apply_to_job(&a, 0).unwrap();
    let stranger = ident(9);
    assert_eq!(
        s.advance_applicant(&stranger, 0, &a),
        Err(HireError::NotAuthorized)
    );
    assert_eq!(s.advance_applicant(&a, 0, &a), Err(HireError::NotAuthorized));
    assert_eq!(s.advance_applicant(&e, 5, &a), Err(HireError::JobNotFound));
    assert_eq!(s.advance_applicant(&other, 0, &a), Err(HireError::NotOwner));
    let nobody = ident(8);
    assert_eq!(
        s.advance_applicant(&e, 0, &nobody),
        Err(HireError::ApplicantNotFound)
    );
    assert_eq!(status_of(&s, 0, &a), Some(Status::Applied));
}

#[test]
fn rejected_is_terminal() {
    let mut s = DappHireService::new();
    let e = ident(1);
    let a = ident(2);
    register_employer(&mut s, &e);
    register_applicant(&mut s, &a);
    s.create_job(&e, "j".to_string(), "d".to_string(), 2).unwrap();
    s.apply_to_job(&a, 0).unwrap();
    assert_eq!(s.reject_applicant(&e, 0, &a), Ok(()));
    assert_eq!(status_of(&s, 0, &a), Some(Status::Rejected));
    assert_eq!(
        s.advance_applicant(&e, 0, &a),
        Err(HireError::AlreadyRejected)
    );
    assert_eq!(
        s.reject_applicant(&e, 0, &a),
        Err(HireError::AlreadyRejected)
    );
    assert_eq!(status_of(&s, 0, &a), Some(Status::Rejected));
}

#[test]
fn reject_mid_round_and_permissive_cases() {
    let mut s = DappHireService::new();
    let e = ident(1);
    let a = ident(2);
    register_employer(&mut s, &e);
    register_applicant(&mut s, &a);
    s.create_job(&e, "j".to_string(), "d".to_string(), 3).unwrap();
    s.apply_to_job(&a, 0).unwrap();
    s.advance_applicant(&e, 0, &a).unwrap();
    assert_eq!(status_of(&s, 0, &a), Some(Status::Round(1)));
    assert_eq!(s.reject_applicant(&e, 0, &a), Ok(()));
    assert_eq!(status_of(&s, 0, &a), Some(Status::Rejected));
    // rejecting someone who never applied is a harmless no-op
    let nobody = ident(8);
    assert_eq!(s.reject_applicant(&e, 0, &nobody), Ok(()));
    assert_eq!(status_of(&s, 0, &nobody), None);
    assert_eq!(s.job_status_list[0].entries.len(), 1);
}

#[test]
fn reject_accepted_is_a_no_op() {
    let mut s = DappHireService::new();
    let e = ident(1);
    let a = ident(2);
    register_employer(&mut s, &e);
    register_applicant(&mut s, &a);
    s.create_job(&e, "j".to_string(), "d".to_string(), 1).unwrap();
    s.apply_to_job(&a, 0).unwrap();
    s.advance_applicant(&e, 0, &a).unwrap();
    s.advance_applicant(&e, 0, &a).unwrap();
    assert_eq!(status_of(&s, 0, &a), Some(Status::Accepted));
    assert_eq!(s.reject_applicant(&e, 0, &a), Ok(()));
    assert_eq!(status_of(&s, 0, &a), Some(Status::Accepted));
}

#[test]
fn reject_errors_mirror_advance_errors() {
    let mut s = DappHireService::new();
    let e = ident(1);
    let other = ident(3);
    let a = ident(2);
    register_employer(&mut s, &e);
    register_employer(&mut s, &other);
    register_applicant(&mut s, &a);
    s.create_job(&e, "j".to_string(), "d".to_string(), 2).unwrap();
    s.apply_to_job(&a, 0).unwrap();
    let stranger = ident(9);
    assert_eq!(
        s.reject_applicant(&stranger, 0, &a),
        Err(HireError::NotAuthorized)
    );
    assert_eq!(s.reject_applicant(&a, 0, &a), Err(HireError::NotAuthorized));
    assert_eq!(s.reject_applicant(&e, 5, &a), Err(HireError::JobNotFound));
    assert_eq!(s.reject_applicant(&other, 0, &a), Err(HireError::NotOwner));
    assert_eq!(status_of(&s, 0, &a), Some(Status::Applied));
}

#[test]
fn two_jobs_keep_independent_ledgers() {
    let mut s = DappHireService::new();
    let e = ident(1);
    let a = ident(2);
    register_employer(&mut s, &e);
    register_applicant(&mut s, &a);
    s.create_job(&e, "one".to_string(), "d".to_string(), 1).unwrap();
    s.create_job(&e, "two".to_string(), "d".to_string(), 1).unwrap();
    s.apply_to_job(&a, 0).unwrap();
    s.apply_to_job(&a, 1).unwrap();
    s.advance_applicant(&e, 1, &a).unwrap();
    assert_eq!(status_of(&s, 0, &a), Some(Status::Applied));
    assert_eq!(status_of(&s, 1, &a), Some(Status::Round(1)));
    match &s.profiles[1].account {
        Account::Applicant(ap) => assert_eq!(ap.applied_jobs, vec![0u64, 1u64]),
        Account::Employer(_) => panic!("wrong profile kind"),
    }
}

fn sample_doc() -> DappHireService {
    let mut s = DappHireService::new();
    let e = ident(1);
    let a = ident(2);
    register_employer(&mut s, &e);
    register_applicant(&mut s, &a);
    s.create_job(&e, "j".to_string(), "d".to_string(), 2).unwrap();
    s.apply_to_job(&a, 0).unwrap();
    s
}

#[test]
fn check_wf_validates_documents() {
    assert!(DappHireService::new().check_wf());
    assert!(sample_doc().check_wf());

    // a gap in the job ids breaks the invariant
    let mut bad = sample_doc();
    bad.jobs[0].id = 5;
    assert!(!bad.check_wf());

    // a duplicate ledger entry breaks it
    let mut bad = sample_doc();
    let dup = dapp_hire::state::Application {
        applicant: ident(2),
        status: Status::Accepted,
    };
    bad.job_status_list[0].entries.push(dup);
    assert!(!bad.check_wf());

    // a round outside 1..=num_rounds breaks it
    let mut bad = sample_doc();
    bad.job_status_list[0].entries[0].status = Status::Round(3);
    assert!(!bad.check_wf());

    // a duplicate profile row breaks it
    let mut bad = sample_doc();
    let dup_row = dapp_hire::state::ProfileEntry {
        id: ident(1),
        account: Account::Employer(dapp_hire::state::Employer {
            name: "emp".to_string(),
            organisation: "org".to_string(),
        }),
    };
    bad.profiles.push(dup_row);
    assert!(!bad.check_wf());
}

#[test]
fn largest_round_count_runs_to_acceptance() {
    let mut s = DappHireService::new();
    let e = ident(1);
    let a = ident(2);
    register_employer(&mut s, &e);
    register_applicant(&mut s, &a);
    s.create_job(&e, "j".to_string(), "d".to_string(), 255).unwrap();
    s.apply_to_job(&a, 0).unwrap();
    for k in 1..=255u16 {
        assert_eq!(s.advance_applicant(&e, 0, &a), Ok(()));
        assert_eq!(status_of(&s, 0, &a), Some(Status::Round(k as u8)));
    }
    assert_eq!(s.advance_applicant(&e, 0, &a), Ok(()));
    assert_eq!(status_of(&s, 0, &a), Some(Status::Accepted));
}
