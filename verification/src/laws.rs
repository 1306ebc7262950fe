//! The laws the library states about whole operation sequences, proved
//! over the directory views that the operation contracts themselves use.

use vstd::prelude::*;
use crate::repo::empty_directory;
use crate::service::{apply_update, created, update_changes};
use crate::types::UserView;

verus! {

/// A create-then-read round trip: after a create of `(id, name, email)`
/// into any directory, a read of `id` finds a record bearing exactly the
/// fields supplied.
pub proof fn lemma_create_then_read(
    m: Map<u128, UserView>,
    id: u128,
    name: Seq<char>,
    email: Seq<char>,
)
    ensures
        created(m, id, name, email).dom().contains(id),
        created(m, id, name, email)[id].name == name,
        created(m, id, name, email)[id].email == email,
{
}

/// An id that was never created stays absent: the empty directory holds
/// nothing, and a create of any other id leaves `id` outside, so a read
/// of it reports `NotFound`.
pub proof fn lemma_never_created_stays_absent(
    m: Map<u128, UserView>,
    id: u128,
    other: u128,
    name: Seq<char>,
    email: Seq<char>,
)
    requires
        !m.dom().contains(id),
        other != id,
    ensures
        !empty_directory().dom().contains(id),
        !created(m, other, name, email).dom().contains(id),
{
}

/// The duplicate probe: a create installs its id, so a second, sequential
/// create of the same id finds it present and reports `AlreadyExists`.
pub proof fn lemma_duplicate_create_detected(
    m: Map<u128, UserView>,
    id: u128,
    name: Seq<char>,
    email: Seq<char>,
)
    ensures
        created(m, id, name, email).dom().contains(id),
{
}

/// A partial update with an empty name or email leaves that field as it
/// was, and one with both empty changes nothing at all.
pub proof fn lemma_empty_update_fields(cur: UserView, name: Seq<char>, email: Seq<char>)
    ensures
        name.len() == 0 ==> apply_update(cur, name, email).name == cur.name,
        email.len() == 0 ==> apply_update(cur, name, email).email == cur.email,
        name.len() == 0 && email.len() == 0 ==> (!update_changes(cur, name, email) && apply_update(
            cur,
            name,
            email,
        ) == cur),
{
    if name.len() == 0 && email.len() == 0 {
        assert(apply_update(cur, name, email) =~= cur);
    }
}

/// One create request: an id and the two text fields.
pub open spec fn request_view(req: (u128, Seq<char>, Seq<char>)) -> UserView {
    UserView { id: req.0, name: req.1, email: req.2 }
}

/// The directory after creating each of `reqs` in turn, left to right.
pub open spec fn created_all(
    m: Map<u128, UserView>,
    reqs: Seq<(u128, Seq<char>, Seq<char>)>,
) -> Map<u128, UserView>
    decreases reqs.len(),
{
    if reqs.len() == 0 {
        m
    } else {
        created_all(created(m, reqs[0].0, reqs[0].1, reqs[0].2), reqs.drop_first())
    }
}

/// Creating users with pairwise-distinct, previously absent ids grows the
/// directory by exactly one record per request, each bearing the fields
/// supplied for its id, and touches no record that was already there.
pub proof fn lemma_created_all_from(
    m: Map<u128, UserView>,
    reqs: Seq<(u128, Seq<char>, Seq<char>)>,
)
    requires
        m.dom().finite(),
        forall|i: int, j: int|
            0 <= i < j < reqs.len() ==> (#[trigger] reqs[i]).0 != (#[trigger] reqs[j]).0,
        forall|i: int| 0 <= i < reqs.len() ==> !m.dom().contains((#[trigger] reqs[i]).0),
    ensures
        created_all(m, reqs).dom().finite(),
        created_all(m, reqs).dom().len() == m.dom().len() + reqs.len(),
        forall|i: int|
            0 <= i < reqs.len() ==> created_all(m, reqs).contains_pair(
                (#[trigger] reqs[i]).0,
                request_view(reqs[i]),
            ),
        forall|k: u128|
            #[trigger] m.dom().contains(k) ==> created_all(m, reqs).contains_pair(k, m[k]),
    decreases reqs.len(),
{
    if reqs.len() == 0 {
    } else {
        let first = reqs[0];
        let m2 = created(m, first.0, first.1, first.2);
        let rest = reqs.drop_first();
        assert(m2.dom() =~= m.dom().insert(first.0));
        assert forall|i: int| 0 <= i < rest.len() implies !m2.dom().contains(
            (#[trigger] rest[i]).0,
        ) by {
            assert(rest[i] == reqs[i + 1]);
            assert(reqs[0].0 != reqs[i + 1].0);
            assert(!m.dom().contains(reqs[i + 1].0));
        }
        assert forall|i: int, j: int| 0 <= i < j < rest.len() implies (#[trigger] rest[i]).0
            != (#[trigger] rest[j]).0 by {
            assert(rest[i] == reqs[i + 1]);
            assert(rest[j] == reqs[j + 1]);
        }
        lemma_created_all_from(m2, rest);
        assert(m2.contains_pair(first.0, request_view(first)));
        assert(created_all(m, reqs).contains_pair(first.0, request_view(first)));
        assert forall|i: int| 0 <= i < reqs.len() implies created_all(m, reqs).contains_pair(
            (#[trigger] reqs[i]).0,
            request_view(reqs[i]),
        ) by {
            if i > 0 {
                assert(rest[i - 1] == reqs[i]);
                assert(created_all(m2, rest).contains_pair(rest[i - 1].0, request_view(
                    rest[i - 1],
                )));
            }
        }
        assert forall|k: u128| #[trigger] m.dom().contains(k) implies created_all(
            m,
            reqs,
        ).contains_pair(k, m[k]) by {
            assert(k != first.0);
            assert(m2.contains_pair(k, m[k]));
            assert(created_all(m2, rest).contains_pair(k, m2[k]));
        }
    }
}

/// List-all after N distinct creates: starting from the empty directory,
/// creating N users with pairwise-distinct ids yields a directory of
/// exactly N records, each matching its input, which is what the listing
/// returns.
pub proof fn lemma_list_after_distinct_creates(reqs: Seq<(u128, Seq<char>, Seq<char>)>)
    requires
        forall|i: int, j: int|
            0 <= i < j < reqs.len() ==> (#[trigger] reqs[i]).0 != (#[trigger] reqs[j]).0,
    ensures
        created_all(empty_directory(), reqs).dom().len() == reqs.len(),
        forall|i: int|
            0 <= i < reqs.len() ==> created_all(empty_directory(), reqs).contains_pair(
                (#[trigger] reqs[i]).0,
                request_view(reqs[i]),
            ),
{
    lemma_created_all_from(empty_directory(), reqs);
}

/// At most one record bears each name.
pub open spec fn unique_names(m: Map<u128, UserView>) -> bool {
    forall|k1: u128, k2: u128|
        m.dom().contains(k1) && m.dom().contains(k2) && (#[trigger] m[k1]).name == (
        #[trigger] m[k2]).name ==> k1 == k2
}

/// By-name resolves to the same record as by-id: in a directory with
/// unique names, every id whose record bears a stored record's name is
/// that record's own id, so the id a by-name lookup returns — its
/// success clause admits exactly the ids below — is the id whose by-id
/// read or update touches the same record. An empty name is left out:
/// the by-name operations reject it before any lookup.
pub proof fn lemma_by_name_matches_by_id(m: Map<u128, UserView>, name: Seq<char>, k: u128)
    requires
        unique_names(m),
        name.len() > 0,
        m.dom().contains(k),
        m[k].name == name,
    ensures
        forall|k2: u128| m.dom().contains(k2) && (#[trigger] m[k2]).name == name ==> k2 == k,
{
}

} // verus!
