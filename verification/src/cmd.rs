//! Batch helpers behind the command surface: selecting services by name,
//! picking the ones a start command still has to handle, and deciding
//! whether a service may be deleted.

use vstd::prelude::*;

use crate::service::{ServiceInformation, ServiceStatus, StopResult};

verus! {

/// Whether `name` occurs in `names`.
fn name_in(names: &Vec<String>, name: &String) -> (r: bool)
    ensures
        r == names.deep_view().contains(name@),
{
    let n = names.len();
    let mut i: usize = 0;
    let mut found = false;
    while i < n
        invariant
            n == names@.len(),
            i <= n,
            found == exists|j: int| 0 <= j < i && names.deep_view()[j] == name@,
        decreases n - i,
    {
        if names[i].eq(name) {
            found = true;
            proof {
                assert(names.deep_view()[i as int] == name@);
            }
        }
        i = i + 1;
    }
    proof {
        if found {
            assert(names.deep_view().contains(name@));
        }
        if names.deep_view().contains(name@) {
            let j = choose|j: int| 0 <= j < names.deep_view().len() && names.deep_view()[j]
                == name@;
            assert(0 <= j < n && names.deep_view()[j] == name@);
        }
    }
    found
}

/// Keep exactly the services whose names appear in the argument list, in
/// their original order.
pub fn filt_services(arg_services: Vec<String>, services: Vec<ServiceInformation>) -> (r: Vec<
    ServiceInformation,
>)
    ensures
        r@ == services@.filter(
            |s: ServiceInformation| arg_services.deep_view().contains(s.name@),
        ),
{
    let ghost orig = services@;
    let ghost pred = |s: ServiceInformation| arg_services.deep_view().contains(s.name@);
    let mut rest = services;
    let total = rest.len();
    let mut r: Vec<ServiceInformation> = Vec::new();
    let mut i: usize = 0;
    proof {
        assert(orig.len() == total);
        assert(rest@ =~= orig.skip(0));
        reveal(Seq::filter);
        assert(orig.take(0).filter(pred) =~= Seq::<ServiceInformation>::empty());
    }
    while rest.len() > 0
        invariant
            orig.len() <= usize::MAX,
            i <= orig.len(),
            rest@ == orig.skip(i as int),
            r@ == orig.take(i as int).filter(pred),
            pred == (|s: ServiceInformation| arg_services.deep_view().contains(s.name@)),
        decreases rest@.len(),
    {
        let s = rest.remove(0);
        proof {
            assert(s == orig[i as int]);
            assert(rest@ =~= orig.skip(i as int + 1));
        }
        let keep = name_in(&arg_services, &s.name);
        if keep {
            r.push(s);
        }
        proof {
            reveal(Seq::filter);
            assert(orig.take(i as int + 1).drop_last() =~= orig.take(i as int));
            assert(orig.take(i as int + 1).last() == orig[i as int]);
        }
        i = i + 1;
    }
    proof {
        assert(orig.take(orig.len() as int) =~= orig);
    }
    r
}

/// The services a status command reports on: all of them when no name was
/// given, else exactly the named ones.
pub fn select_services(names: Vec<String>, services: Vec<ServiceInformation>) -> (r: Vec<
    ServiceInformation,
>)
    ensures
        names@.len() == 0 ==> r@ == services@,
        names@.len() > 0 ==> r@ == services@.filter(
            |s: ServiceInformation| names.deep_view().contains(s.name@),
        ),
{
    if names.len() == 0 {
        services
    } else {
        filt_services(names, services)
    }
}

/// The services a start command still has to handle: those not already
/// running, in their original order.
pub fn pending_services(services: Vec<ServiceInformation>) -> (r: Vec<ServiceInformation>)
    ensures
        r@ == services@.filter(|s: ServiceInformation| s.status != ServiceStatus::Running),
{
    let ghost orig = services@;
    let ghost pred = |s: ServiceInformation| s.status != ServiceStatus::Running;
    let mut rest = services;
    let total = rest.len();
    let mut r: Vec<ServiceInformation> = Vec::new();
    let mut i: usize = 0;
    proof {
        assert(orig.len() == total);
        assert(rest@ =~= orig.skip(0));
        reveal(Seq::filter);
        assert(orig.take(0).filter(pred) =~= Seq::<ServiceInformation>::empty());
    }
    while rest.len() > 0
        invariant
            orig.len() <= usize::MAX,
            i <= orig.len(),
            rest@ == orig.skip(i as int),
            r@ == orig.take(i as int).filter(pred),
            pred == (|s: ServiceInformation| s.status != ServiceStatus::Running),
        decreases rest@.len(),
    {
        let s = rest.remove(0);
        proof {
            assert(s == orig[i as int]);
            assert(rest@ =~= orig.skip(i as int + 1));
        }
        let keep = match s.status {
            ServiceStatus::Running => false,
            _ => true,
        };
        if keep {
            r.push(s);
        }
        proof {
            reveal(Seq::filter);
            assert(orig.take(i as int + 1).drop_last() =~= orig.take(i as int));
            assert(orig.take(i as int + 1).last() == orig[i as int]);
        }
        i = i + 1;
    }
    proof {
        assert(orig.take(orig.len() as int) =~= orig);
    }
    r
}

/// What deleting decides: a service that is not running may go at once; a
/// running one may go only after a clean stop, and a failed or impossible
/// stop keeps it, with the failing exit code (`-1` when the stop could not
/// even run).
pub open spec fn spec_delete_outcome(status: ServiceStatus, stop: Option<StopResult>) -> (
    bool,
    i32,
) {
    if status != ServiceStatus::Running {
        (true, 0i32)
    } else {
        match stop {
            Option::Some(StopResult::Success) => (true, 0i32),
            Option::Some(StopResult::StopFailed(code)) => (false, code),
            Option::Some(StopResult::PostStopFailed(code)) => (false, code),
            Option::None => (false, -1i32),
        }
    }
}

/// Decide whether a service may be removed, given its queried status and —
/// when it was running and had to be stopped first — the stop outcome the
/// caller obtained (`None` when the engine could not run the stop at all).
pub fn delete_outcome(status: ServiceStatus, stop: Option<StopResult>) -> (r: (bool, i32))
    ensures
        r == spec_delete_outcome(status, stop),
{
    match status {
        ServiceStatus::Running => match stop {
            Option::Some(StopResult::Success) => (true, 0),
            Option::Some(StopResult::StopFailed(code)) => (false, code),
            Option::Some(StopResult::PostStopFailed(code)) => (false, code),
            Option::None => (false, -1),
        },
        _ => (true, 0),
    }
}

} // verus!
