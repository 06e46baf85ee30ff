use vstd::prelude::*;
use crate::handlers::{
    bad_request, create_effect, create_outcome, get_outcome, lookup_outcome, not_found, ResponseView,
    Status,
};
use crate::path::{digits_part, is_digit, segment_id};
use crate::user::UserView;

verus! {

/// The store reached from an empty one by successful create requests with
/// the records `bodies`, handled one after another in that order.
pub open spec fn apply_posts(bodies: Seq<UserView>) -> Map<u64, UserView>
    decreases bodies.len(),
{
    if bodies.len() == 0 {
        Map::empty()
    } else {
        create_effect(apply_posts(bodies.drop_last()), Some(bodies.last()))
    }
}

/// No two of `bodies` share an id.
pub open spec fn distinct_ids(bodies: Seq<UserView>) -> bool {
    forall|i: int, j: int|
        0 <= i < bodies.len() && 0 <= j < bodies.len() && i != j ==> #[trigger] bodies[i].id
            != #[trigger] bodies[j].id
}

/// A record that was created is answered, unchanged, by a later fetch of its id.
pub proof fn law_round_trip(m: Map<u64, UserView>, u: UserView, segment: Seq<u8>)
    requires
        segment_id(segment) == Some(u.id),
    ensures
        create_outcome(Some(u)) == (ResponseView { status: Status::Created, body: Some(u) }),
        get_outcome(create_effect(m, Some(u)), segment) == (ResponseView {
            status: Status::Success,
            body: Some(u),
        }),
{
}

/// Of two records created under one id, only the second is retrievable.
pub proof fn law_overwrite(
    m: Map<u64, UserView>,
    first: UserView,
    second: UserView,
    segment: Seq<u8>,
)
    requires
        first.id == second.id,
        segment_id(segment) == Some(first.id),
    ensures
        get_outcome(create_effect(create_effect(m, Some(first)), Some(second)), segment)
            == (ResponseView { status: Status::Success, body: Some(second) }),
{
}

/// A fetch of an id that no create request carried finds nothing.
pub proof fn law_absence(bodies: Seq<UserView>, segment: Seq<u8>)
    requires
        segment_id(segment) is Some,
        forall|i: int| 0 <= i < bodies.len() ==> (#[trigger] bodies[i]).id != segment_id(segment)->0,
    ensures
        get_outcome(apply_posts(bodies), segment) == not_found(),
    decreases bodies.len(),
{
    if bodies.len() > 0 {
        let p = bodies.drop_last();
        assert forall|i: int| 0 <= i < p.len() implies (#[trigger] p[i]).id != segment_id(
            segment,
        )->0 by {
            assert(p[i] == bodies[i]);
        }
        law_absence(p, segment);
        assert(bodies.last() == bodies[bodies.len() - 1]);
    }
}

/// Create requests with distinct ids, handled in any order, leave exactly
/// their records in the store, each retrievable under its own id.
pub proof fn law_isolation(bodies: Seq<UserView>)
    requires
        distinct_ids(bodies),
    ensures
        apply_posts(bodies).dom() == Set::new(
            |k: u64| exists|i: int| 0 <= i < bodies.len() && #[trigger] bodies[i].id == k,
        ),
        forall|i: int|
            0 <= i < bodies.len() ==> lookup_outcome(apply_posts(bodies), #[trigger] bodies[i].id)
                == (ResponseView { status: Status::Success, body: Some(bodies[i]) }),
    decreases bodies.len(),
{
    let ids = Set::new(
        |k: u64| exists|i: int| 0 <= i < bodies.len() && #[trigger] bodies[i].id == k,
    );
    if bodies.len() == 0 {
        assert(apply_posts(bodies).dom() =~= ids);
    } else {
        let p = bodies.drop_last();
        let n = bodies.len() - 1;
        assert forall|i: int, j: int|
            0 <= i < p.len() && 0 <= j < p.len() && i != j implies #[trigger] p[i].id
            != #[trigger] p[j].id by {
            assert(p[i] == bodies[i] && p[j] == bodies[j]);
        }
        law_isolation(p);
        let pids = Set::new(
            |k: u64| exists|i: int| 0 <= i < p.len() && #[trigger] p[i].id == k,
        );
        assert(bodies.last() == bodies[n]);
        assert forall|k: u64| #[trigger] ids.contains(k) == apply_posts(bodies).dom().contains(k) by {
            if ids.contains(k) {
                let i = choose|i: int| 0 <= i < bodies.len() && #[trigger] bodies[i].id == k;
                if i < n {
                    assert(p[i] == bodies[i]);
                    assert(pids.contains(k));
                }
            }
            if apply_posts(p).dom().contains(k) {
                assert(pids.contains(k));
                let i = choose|i: int| 0 <= i < p.len() && #[trigger] p[i].id == k;
                assert(p[i] == bodies[i]);
            }
        }
        assert(apply_posts(bodies).dom() =~= ids);
        assert forall|i: int| 0 <= i < bodies.len() implies lookup_outcome(
            apply_posts(bodies),
            #[trigger] bodies[i].id,
        ) == (ResponseView { status: Status::Success, body: Some(bodies[i]) }) by {
            if i < n {
                assert(p[i] == bodies[i]);
                assert(lookup_outcome(apply_posts(p), p[i].id) == (ResponseView {
                    status: Status::Success,
                    body: Some(p[i]),
                }));
            }
        }
    }
}

/// A fetch whose id segment holds a character other than a digit (beyond one
/// leading `+`) is refused as malformed, whatever the store holds.
pub proof fn law_malformed_path(m: Map<u64, UserView>, segment: Seq<u8>, k: int)
    requires
        0 <= k < segment.len(),
        !is_digit(segment[k]),
        !(k == 0 && segment[k] == 43),
    ensures
        get_outcome(m, segment) == bad_request(),
{
    let d = digits_part(segment);
    if segment.len() > 0 && segment[0] == 43 {
        assert(d[k - 1] == segment[k]);
    } else {
        assert(d[k] == segment[k]);
    }
}

/// A create request whose body did not decode is refused and changes nothing.
pub proof fn law_malformed_body(m: Map<u64, UserView>)
    ensures
        create_outcome(None) == bad_request(),
        create_effect(m, None) == m,
{
}

} // verus!
