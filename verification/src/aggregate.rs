use vstd::prelude::*;
use crate::canvas::Course;
use crate::canvas::Enrollment;
use crate::canvas::EnrollmentV;
use crate::canvas::enrollments_url;
use crate::error::AppError;
use crate::error::AppErrorV;
use crate::num::dec_of;

verus! {

broadcast use vstd::std_specs::vec::group_vec_axioms, vstd::seq::group_seq_axioms;

/// The model of one fan-out branch's outcome.
pub open spec fn results_view(rs: Seq<Result<Vec<Enrollment>, AppError>>) -> Seq<
    Result<Seq<EnrollmentV>, AppErrorV>,
> {
    Seq::new(
        rs.len(),
        |i: int|
            match rs[i] {
                Ok(v) => Ok(v.deep_view()),
                Err(e) => Err(e@),
            },
    )
}

/// The all-or-nothing join of the fan-out: if every branch succeeded,
/// the groups are concatenated in branch order; otherwise the failure
/// with the lowest branch index is the result. (The wire gives no
/// order among simultaneous failures; the lowest input index is this
/// library's deterministic tie-break.)
pub open spec fn join_of(rs: Seq<Result<Seq<EnrollmentV>, AppErrorV>>) -> Result<
    Seq<EnrollmentV>,
    AppErrorV,
>
    decreases rs.len(),
{
    if rs.len() == 0 {
        Ok(Seq::empty())
    } else {
        match rs[0] {
            Err(e) => Err(e),
            Ok(group) => match join_of(rs.drop_first()) {
                Ok(rest) => Ok(group + rest),
                Err(e) => Err(e),
            },
        }
    }
}

/// The concatenation of all groups, in branch order.
pub open spec fn flatten_groups(rs: Seq<Result<Seq<EnrollmentV>, AppErrorV>>) -> Seq<EnrollmentV>
    decreases rs.len(),
{
    if rs.len() == 0 {
        Seq::empty()
    } else {
        (match rs[0] {
            Ok(group) => group,
            Err(_) => Seq::empty(),
        }) + flatten_groups(rs.drop_first())
    }
}

/// Joining no branches yields the empty enrollment list: an empty
/// course list costs no request and aggregates to nothing.
pub proof fn lemma_join_empty()
    ensures
        join_of(Seq::empty()) == Ok::<Seq<EnrollmentV>, AppErrorV>(Seq::empty()),
{
}

/// When every branch succeeds, the join is exactly the groups
/// concatenated in branch order, whatever order they completed in.
pub proof fn lemma_join_all_ok(rs: Seq<Result<Seq<EnrollmentV>, AppErrorV>>)
    requires
        forall|i: int| 0 <= i < rs.len() ==> rs[i] is Ok,
    ensures
        join_of(rs) == Ok::<Seq<EnrollmentV>, AppErrorV>(flatten_groups(rs)),
    decreases rs.len(),
{
    if rs.len() > 0 {
        assert(rs[0] is Ok);
        lemma_join_all_ok(rs.drop_first());
    }
}

/// When a branch fails and every earlier branch succeeded, the join is
/// that branch's failure, and no partial list comes back.
pub proof fn lemma_join_first_failure(rs: Seq<Result<Seq<EnrollmentV>, AppErrorV>>, i: int)
    requires
        0 <= i < rs.len(),
        rs[i] is Err,
        forall|j: int| 0 <= j < i ==> rs[j] is Ok,
    ensures
        join_of(rs) == Err::<Seq<EnrollmentV>, AppErrorV>(rs[i]->Err_0),
    decreases rs.len(),
{
    if i > 0 {
        assert(rs[0] is Ok);
        lemma_join_first_failure(rs.drop_first(), i - 1);
    }
}

/// The fan-out plan: one enrollment request per course, in the order
/// the courses came. An empty course list plans no request.
pub fn enrollment_fetch_plan(host: &str, courses: &Vec<Course>) -> (r: Vec<String>)
    ensures
        r@.len() == courses@.len(),
        forall|i: int|
            0 <= i < r@.len() ==> r@[i]@ == host@ + "/api/v1/courses/"@ + dec_of(
                courses@[i].id as nat,
            ) + "/enrollments"@,
{
    let mut out: Vec<String> = Vec::new();
    let n = courses.len();
    let mut i: usize = 0;
    while i < n
        invariant
            0 <= i <= n,
            n == courses@.len(),
            out@.len() == i,
            forall|k: int|
                0 <= k < i ==> out@[k]@ == host@ + "/api/v1/courses/"@ + dec_of(
                    courses@[k].id as nat,
                ) + "/enrollments"@,
        decreases n - i,
    {
        let url = enrollments_url(host, courses[i].id);
        out.push(url);
        i = i + 1;
    }
    out
}

/// Joins the per-course results: every group in course order when all
/// succeeded, else the failure of the earliest branch that failed.
#[verifier::loop_isolation(false)]
pub fn aggregate_enrollments(results: Vec<Result<Vec<Enrollment>, AppError>>) -> (r: Result<
    Vec<Enrollment>,
    AppError,
>)
    ensures
        r is Ok ==> join_of(results_view(results@)) == Ok::<_, AppErrorV>(r->Ok_0.deep_view()),
        r is Err ==> join_of(results_view(results@)) == Err::<Seq<EnrollmentV>, _>(r->Err_0@),
{
    let ghost orig = results_view(results@);
    let mut out: Vec<Enrollment> = Vec::new();
    let mut rest = results;
    proof {
        assert(results_view(rest@) =~= orig);
        assert(out.deep_view() =~= Seq::<EnrollmentV>::empty());
    }
    while rest.len() > 0
        invariant
            match join_of(results_view(rest@)) {
                Ok(f) => join_of(orig) == Ok::<Seq<EnrollmentV>, AppErrorV>(out.deep_view() + f),
                Err(e) => join_of(orig) == Err::<Seq<EnrollmentV>, AppErrorV>(e),
            },
        decreases rest.len(),
    {
        let ghost pre_rest = rest@;
        let ghost rv = results_view(pre_rest);
        let head = rest.remove(0);
        proof {
            assert(rest@ =~= pre_rest.drop_first());
            assert(results_view(rest@) =~= rv.drop_first());
            assert(rv.len() > 0);
        }
        match head {
            Err(e) => {
                proof {
                    assert(rv[0] == Err::<Seq<EnrollmentV>, AppErrorV>(e@));
                    assert(join_of(rv) == Err::<Seq<EnrollmentV>, AppErrorV>(e@));
                }
                return Err(e);
            },
            Ok(mut group) => {
                let ghost pre_out = out.deep_view();
                let ghost gd = group.deep_view();
                proof {
                    assert(rv[0] == Ok::<Seq<EnrollmentV>, AppErrorV>(gd));
                }
                out.append(&mut group);
                proof {
                    assert(out.deep_view() =~= pre_out + gd);
                    match join_of(rv.drop_first()) {
                        Ok(f2) => {
                            assert(join_of(rv) == Ok::<Seq<EnrollmentV>, AppErrorV>(gd + f2));
                            assert((pre_out + gd) + f2 =~= pre_out + (gd + f2));
                        },
                        Err(_) => {},
                    }
                }
            },
        }
    }
    proof {
        assert(results_view(rest@) =~= Seq::<Result<Seq<EnrollmentV>, AppErrorV>>::empty());
        assert(out.deep_view() + Seq::<EnrollmentV>::empty() =~= out.deep_view());
    }
    Ok(out)
}

} // verus!
