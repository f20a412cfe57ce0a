//! Laws relating the store's operations, stated over the map model and the
//! spec functions that the operations' contracts use.

use vstd::prelude::*;

use crate::data::PatchModel;
use crate::data::Status;
use crate::data::TicketModel;
use crate::data::description_ok;
use crate::data::title_ok;
use crate::data::description_fails;
use crate::data::patched;
use crate::data::title_step;

verus! {

/// Law: creating a ticket from a draft and then reading its identifier back
/// yields exactly the draft's title and description, with status `ToDo`.
/// `m` is the store's map before the creation, `id` the identifier assigned.
pub proof fn lemma_add_then_get(
    m: Map<u128, TicketModel>,
    id: u128,
    title: Seq<char>,
    description: Seq<char>,
)
    ensures
        ({
            let after = m.insert(id, TicketModel { id, title, description, status: Status::ToDo });
            &&& after.contains_key(id)
            &&& after[id].title == title
            &&& after[id].description == description
            &&& after[id].status == Status::ToDo
        }),
{
}

/// Law: reading is idempotent: two reads of the same identifier from the
/// same store state yield the same ticket model.
pub proof fn lemma_get_idempotent(
    m: Map<u128, TicketModel>,
    id: u128,
    first: TicketModel,
    second: TicketModel,
)
    requires
        m.contains_key(id),
        first == m[id],
        second == m[id],
    ensures
        first == second,
{
}

/// Law: a patch that carries only a status changes nothing but the status;
/// identifier, title and description stay as they were.
pub proof fn lemma_patch_status_only(t: TicketModel, p: PatchModel)
    requires
        p.title is None,
        p.description is None,
    ensures
        patched(t, p).id == t.id,
        patched(t, p).title == t.title,
        patched(t, p).description == t.description,
        p.status matches Some(st) ==> patched(t, p).status == st,
        p.status is None ==> patched(t, p).status == t.status,
{
}

/// Law: when a patch's title passes validation but its description fails,
/// the state the failed call leaves behind carries the new title and the old
/// description and status.
pub proof fn lemma_patch_partial_commit(t: TicketModel, p: PatchModel)
    requires
        p.title matches Some(s) && title_ok(s),
        description_fails(p),
    ensures
        title_step(t, p).title == p.title->0,
        title_step(t, p).description == t.description,
        title_step(t, p).status == t.status,
        title_step(t, p).id == t.id,
{
}

/// Law: two creations under distinct identifiers are both visible
/// afterwards, each under its own identifier with its own fields.
pub proof fn lemma_two_adds_both_visible(
    m: Map<u128, TicketModel>,
    id1: u128,
    t1: TicketModel,
    id2: u128,
    t2: TicketModel,
)
    requires
        id1 != id2,
    ensures
        ({
            let after = m.insert(id1, t1).insert(id2, t2);
            &&& after.contains_key(id1) && after[id1] == t1
            &&& after.contains_key(id2) && after[id2] == t2
        }),
{
}

/// Law: a title-only patch followed by a description-only patch loses
/// neither update: the result carries the first patch's title, the second
/// patch's description, and the ticket's previous status.
pub proof fn lemma_disjoint_patches_no_lost_update(t: TicketModel, p1: PatchModel, p2: PatchModel)
    requires
        p1.title matches Some(s) && title_ok(s),
        p1.description is None,
        p1.status is None,
        p2.description matches Some(d) && description_ok(d),
        p2.title is None,
        p2.status is None,
    ensures
        patched(patched(t, p1), p2).title == p1.title->0,
        patched(patched(t, p1), p2).description == p2.description->0,
        patched(patched(t, p1), p2).status == t.status,
        patched(patched(t, p1), p2).id == t.id,
{
}

} // verus!
