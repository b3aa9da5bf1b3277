use vstd::prelude::*;
use embassy_futures::select::{Either, Either4};
use crate::supervisor::{lemma_races_iff_listed, race_jobs, races, Job};

verus! {

/// Relies on embassy_futures::select::Either, the outcome of `select`: the
/// variant names the future that resolved first, the left one where both were
/// ready at the same poll.
#[verifier::external_type_specification]
#[verifier::reject_recursive_types(A)]
#[verifier::reject_recursive_types(B)]
pub struct ExEither<A, B>(Either<A, B>);

/// Relies on embassy_futures::select::Either4, the outcome of `select4`, in
/// the same way.
#[verifier::external_type_specification]
#[verifier::reject_recursive_types(A)]
#[verifier::reject_recursive_types(B)]
#[verifier::reject_recursive_types(C)]
#[verifier::reject_recursive_types(D)]
pub struct ExEither4<A, B, C, D>(Either4<A, B, C, D>);

/// The job blamed for the outcome of a race with a store, raced as
/// `select4(select(usb, keyboard), storage, led, via)`.
pub open spec fn blamed_with_store<A, B, C, D, E>(o: Either4<Either<A, B>, C, D, E>) -> Job {
    match o {
        Either4::First(Either::First(_)) => Job::Usb,
        Either4::First(Either::Second(_)) => Job::Keyboard,
        Either4::Second(_) => Job::Storage,
        Either4::Third(_) => Job::Led,
        Either4::Fourth(_) => Job::Via,
    }
}

/// The job blamed for the outcome of a race without a store, raced as
/// `select4(usb, keyboard, led, via)`.
pub open spec fn blamed_without_store<A, B, C, D>(o: Either4<A, B, C, D>) -> Job {
    match o {
        Either4::First(_) => Job::Usb,
        Either4::Second(_) => Job::Keyboard,
        Either4::Third(_) => Job::Led,
        Either4::Fourth(_) => Job::Via,
    }
}

/// Names the job whose future resolved first in a race with a store.
pub fn blame_with_store<A, B, C, D, E>(o: &Either4<Either<A, B>, C, D, E>) -> (r: Job)
    ensures
        r == blamed_with_store(*o),
{
    match o {
        Either4::First(pair) => match pair {
            Either::First(_) => Job::Usb,
            Either::Second(_) => Job::Keyboard,
        },
        Either4::Second(_) => Job::Storage,
        Either4::Third(_) => Job::Led,
        Either4::Fourth(_) => Job::Via,
    }
}

/// Names the job whose future resolved first in a race without a store.
pub fn blame_without_store<A, B, C, D>(o: &Either4<A, B, C, D>) -> (r: Job)
    ensures
        r == blamed_without_store(*o),
{
    match o {
        Either4::First(_) => Job::Usb,
        Either4::Second(_) => Job::Keyboard,
        Either4::Third(_) => Job::Led,
        Either4::Fourth(_) => Job::Via,
    }
}

/// The job blamed for any outcome of a race is one that the race runs in its
/// mode; so without a store the persistence job is never blamed.
pub proof fn lemma_blamed_job_is_raced<A, B, C, D, E>(
    with_store: Either4<Either<A, B>, C, D, E>,
    without_store: Either4<A, B, D, E>,
)
    ensures
        race_jobs(true).contains(blamed_with_store(with_store)),
        race_jobs(false).contains(blamed_without_store(without_store)),
        blamed_without_store(without_store) != Job::Storage,
{
    lemma_races_iff_listed(true, blamed_with_store(with_store));
    lemma_races_iff_listed(false, blamed_without_store(without_store));
    assert(races(false, blamed_without_store(without_store)));
}

} // verus!
