use vstd::prelude::*;

verus! {

/// Relies on num_cpus::get: the number of logical CPUs this process may use,
/// which its documentation promises is at least one.
#[verifier::external_body]
fn available_cpus() -> (r: usize)
    ensures
        r >= 1,
{
    num_cpus::get()
}

/// Three quarters of the CPUs, rounded down, and at least one.
pub open spec fn threads_for_spec(cpus: int) -> int {
    if cpus * 3 / 4 < 1 {
        1
    } else {
        cpus * 3 / 4
    }
}

/// The number of paint and layout threads an engine instance gets on a
/// machine with `cpus` CPUs.
pub fn threads_for(cpus: usize) -> (r: usize)
    ensures
        r == threads_for_spec(cpus as int),
{
    let q: usize = cpus / 4;
    let m: usize = cpus % 4;
    let t: usize = q * 3 + m * 3 / 4;
    assert(t == cpus * 3 / 4) by (nonlinear_arith)
        requires
            q == cpus / 4,
            m == cpus % 4,
            t == q * 3 + m * 3 / 4,
    {
        assert(cpus == 4 * q + m);
        assert(cpus * 3 == 4 * (3 * q) + 3 * m);
    }
    if t < 1 {
        1
    } else {
        t
    }
}

/// The number of paint and layout threads for this machine.
pub fn worker_threads() -> (r: usize)
    ensures
        r >= 1,
        exists|cpus: int| cpus >= 1 && r == threads_for_spec(cpus),
{
    let cpus = available_cpus();
    threads_for(cpus)
}

} // verus!
