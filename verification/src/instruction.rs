//! The decoded command surface: a tag byte selects the operation, and the
//! rest of the request is its payload.

use vstd::prelude::*;

use crate::state::{HireError, Identity};

verus! {

/// Fields of the register-applicant request.
pub struct ArgsApplicantAccountCreation {
    pub name: String,
    pub bio: String,
}

/// Fields of the register-employer request.
pub struct ArgsCreateEmployerAccount {
    pub name: String,
    pub organisation: String,
}

/// Fields of the create-job request.
pub struct ArgsCreateJob {
    pub name: String,
    pub description: String,
    pub num_rounds: u8,
}

/// Fields of the advance-applicant request.
pub struct ArgsMoveApplicationStatus {
    pub job_id: u64,
    pub applicant_id: Identity,
}

/// Fields of the reject-applicant request.
pub struct ArgsRejectApplicationStatus {
    pub job_id: u64,
    pub applicant_id: Identity,
}

/// Fields of the apply-to-job request.
pub struct ArgsApplyJob {
    pub job_id: u64,
}

/// A decoded request: one variant per opcode, holding that opcode's fields.
pub enum Controller {
    CreateApplicantAccount { name: String, bio: String },
    CreateEmployerAccount { name: String, organisation: String },
    CreateJob { name: String, description: String, num_rounds: u8 },
    MoveApplicationStatus { job_id: u64, applicant_id: Identity },
    RejectApplicationStatus { job_id: u64, applicant_id: Identity },
    ApplyJob { job_id: u64 },
}

/// The unsigned integer the bytes spell in little-endian order.
pub open spec fn le_bytes(s: Seq<u8>) -> nat
    decreases s.len(),
{
    if s.len() == 0 {
        0
    } else {
        s[0] as nat + 256 * le_bytes(s.subrange(1, s.len() as int))
    }
}

/// What decoding a two-string payload yields: the payload is two
/// length-prefixed UTF-8 byte runs spanning it exactly, or nothing.
pub uninterp spec fn two_strings_of(data: Seq<u8>) -> Option<(Seq<char>, Seq<char>)>;

/// What decoding a create-job payload yields: two length-prefixed UTF-8
/// byte runs followed by one byte, spanning the payload exactly, or
/// nothing.
pub uninterp spec fn job_fields_of(data: Seq<u8>) -> Option<(Seq<char>, Seq<char>, u8)>;

/// Relies on borsh's `from_slice` for `u64`: exactly eight bytes, read
/// little-endian, with trailing bytes refused.
#[verifier::external_body]
fn decode_job_id(data: &[u8]) -> (r: Option<u64>)
    ensures
        r is Some <==> data@.len() == 8,
        (r matches Some(v) ==> v as nat == le_bytes(data@)),
{
    borsh::from_slice::<u64>(data).ok()
}

/// Relies on borsh's `from_slice` for `(u64, [u8; 32])`: eight
/// little-endian bytes then the 32 raw key bytes, with trailing bytes
/// refused.
#[verifier::external_body]
fn decode_id_args(data: &[u8]) -> (r: Option<(u64, Vec<u8>)>)
    ensures
        r is Some <==> data@.len() == 40,
        (r matches Some(p) ==> p.0 as nat == le_bytes(data@.subrange(0, 8)) && p.1@
            == data@.subrange(8, 40)),
{
    borsh::from_slice::<(u64, [u8; 32])>(data).ok().map(|p: (u64, [u8; 32])| (p.0, p.1.to_vec()))
}

/// Relies on borsh's `from_slice` for `(String, String)`: the result is a
/// function of the payload bytes alone.
#[verifier::external_body]
fn decode_two_strings(data: &[u8]) -> (r: Option<(String, String)>)
    ensures
        match r {
            Some(p) => two_strings_of(data@) == Some((p.0@, p.1@)),
            None => two_strings_of(data@) is None,
        },
{
    borsh::from_slice::<(String, String)>(data).ok()
}

/// Relies on borsh's `from_slice` for `(String, String, u8)`: the result
/// is a function of the payload bytes alone.
#[verifier::external_body]
fn decode_job_fields(data: &[u8]) -> (r: Option<(String, String, u8)>)
    ensures
        match r {
            Some(p) => job_fields_of(data@) == Some((p.0@, p.1@, p.2)),
            None => job_fields_of(data@) is None,
        },
{
    borsh::from_slice::<(String, String, u8)>(data).ok()
}

/// What decoding a whole request yields: the first byte selects the
/// operation, the rest is its payload, and any malformed request — empty
/// input, an unknown tag, or a payload its opcode's decoder refuses — is a
/// `DecodeError`.
pub open spec fn unpack_post(input: Seq<u8>, r: Result<Controller, HireError>) -> bool {
    if input.len() == 0 {
        r == Err::<Controller, HireError>(HireError::DecodeError)
    } else {
        let tag = input[0];
        let payload = input.subrange(1, input.len() as int);
        if tag == 0 {
            match two_strings_of(payload) {
                Some(p) => (r matches Ok(c) && c matches Controller::CreateApplicantAccount {
                    name,
                    bio,
                } && name@ == p.0 && bio@ == p.1),
                None => r == Err::<Controller, HireError>(HireError::DecodeError),
            }
        } else if tag == 1 {
            match two_strings_of(payload) {
                Some(p) => (r matches Ok(c) && c matches Controller::CreateEmployerAccount {
                    name,
                    organisation,
                } && name@ == p.0 && organisation@ == p.1),
                None => r == Err::<Controller, HireError>(HireError::DecodeError),
            }
        } else if tag == 2 {
            match job_fields_of(payload) {
                Some(p) => (r matches Ok(c) && c matches Controller::CreateJob {
                    name,
                    description,
                    num_rounds,
                } && name@ == p.0 && description@ == p.1 && num_rounds == p.2),
                None => r == Err::<Controller, HireError>(HireError::DecodeError),
            }
        } else if tag == 3 {
            if payload.len() == 40 {
                r matches Ok(c) && c matches Controller::MoveApplicationStatus {
                    job_id,
                    applicant_id,
                } && job_id as nat == le_bytes(payload.subrange(0, 8)) && applicant_id@
                    == payload.subrange(8, 40)
            } else {
                r == Err::<Controller, HireError>(HireError::DecodeError)
            }
        } else if tag == 4 {
            if payload.len() == 40 {
                r matches Ok(c) && c matches Controller::RejectApplicationStatus {
                    job_id,
                    applicant_id,
                } && job_id as nat == le_bytes(payload.subrange(0, 8)) && applicant_id@
                    == payload.subrange(8, 40)
            } else {
                r == Err::<Controller, HireError>(HireError::DecodeError)
            }
        } else if tag == 5 {
            if payload.len() == 8 {
                r matches Ok(c) && c matches Controller::ApplyJob { job_id } && job_id as nat
                    == le_bytes(payload)
            } else {
                r == Err::<Controller, HireError>(HireError::DecodeError)
            }
        } else {
            r == Err::<Controller, HireError>(HireError::DecodeError)
        }
    }
}

impl Controller {
    /// Decodes one request: a tag byte naming the operation, then that
    /// operation's payload.
    pub fn unpack(input: &[u8]) -> (r: Result<Controller, HireError>)
        ensures
            unpack_post(input@, r),
    {
        if input.len() == 0 {
            return Err(HireError::DecodeError);
        }
        let tag = input[0];
        let payload: &[u8] = &input[1..input.len()];
        if tag == 0 {
            match decode_two_strings(payload) {
                Some(p) => {
                    let args = ArgsApplicantAccountCreation { name: p.0, bio: p.1 };
                    Ok(Controller::CreateApplicantAccount { name: args.name, bio: args.bio })
                },
                None => Err(HireError::DecodeError),
            }
        } else if tag == 1 {
            match decode_two_strings(payload) {
                Some(p) => {
                    let args = ArgsCreateEmployerAccount { name: p.0, organisation: p.1 };
                    Ok(Controller::CreateEmployerAccount {
                        name: args.name,
                        organisation: args.organisation,
                    })
                },
                None => Err(HireError::DecodeError),
            }
        } else if tag == 2 {
            match decode_job_fields(payload) {
                Some(p) => {
                    let args = ArgsCreateJob { name: p.0, description: p.1, num_rounds: p.2 };
                    Ok(Controller::CreateJob {
                        name: args.name,
                        description: args.description,
                        num_rounds: args.num_rounds,
                    })
                },
                None => Err(HireError::DecodeError),
            }
        } else if tag == 3 {
            match decode_id_args(payload) {
                Some(p) => {
                    let args = ArgsMoveApplicationStatus {
                        job_id: p.0,
                        applicant_id: Identity { bytes: p.1 },
                    };
                    Ok(Controller::MoveApplicationStatus {
                        job_id: args.job_id,
                        applicant_id: args.applicant_id,
                    })
                },
                None => Err(HireError::DecodeError),
            }
        } else if tag == 4 {
            match decode_id_args(payload) {
                Some(p) => {
                    let args = ArgsRejectApplicationStatus {
                        job_id: p.0,
                        applicant_id: Identity { bytes: p.1 },
                    };
                    Ok(Controller::RejectApplicationStatus {
                        job_id: args.job_id,
                        applicant_id: args.applicant_id,
                    })
                },
                None => Err(HireError::DecodeError),
            }
        } else if tag == 5 {
            match decode_job_id(payload) {
                Some(job_id) => {
                    let args = ArgsApplyJob { job_id };
                    Ok(Controller::ApplyJob { job_id: args.job_id })
                },
                None => Err(HireError::DecodeError),
            }
        } else {
            Err(HireError::DecodeError)
        }
    }
}

} // verus!
