//! The in-memory ticket store: the single source of truth for all tickets,
//! with create, read, list and partial-update operations.
//!
//! The store is modelled as a map from identifier to ticket model; every
//! operation's contract says exactly how that map changes.

use vstd::prelude::*;

use crate::data::FieldName;
use crate::data::PatchTicketRequest;
use crate::data::Status;
use crate::data::Ticket;
use crate::data::TicketDraft;
use crate::data::TicketId;
use crate::data::TicketModel;
use crate::data::ValidationError;
use crate::data::description_fails;
use crate::data::patched;
use crate::data::title_fails;
use crate::data::title_step;
use crate::data::title_error;

verus! {

/// An error returned by a store operation.
#[derive(Clone, Copy, Debug, PartialEq, Eq, Structural)]
pub enum StoreError {
    /// No ticket with the given identifier exists.
    TicketNotFound(TicketId),
    /// A field supplied in a patch failed validation.
    InvalidField(FieldName, ValidationError),
}

/// Whether no two tickets of the sequence share an identifier.
pub open spec fn distinct_ids(s: Seq<Ticket>) -> bool {
    forall|i: int, j: int| 0 <= i < j < s.len() ==> s[i]@.id != s[j]@.id
}

/// The map from identifier to ticket model that a sequence of tickets holds;
/// a later entry wins over an earlier one with the same identifier.
pub open spec fn map_of(s: Seq<Ticket>) -> Map<u128, TicketModel>
    decreases s.len(),
{
    if s.len() == 0 {
        Map::empty()
    } else {
        map_of(s.drop_last()).insert(s.last()@.id, s.last()@)
    }
}

proof fn lemma_map_of_contains(s: Seq<Ticket>, k: u128)
    ensures
        map_of(s).contains_key(k) <==> exists|i: int| 0 <= i < s.len() && s[i]@.id == k,
    decreases s.len(),
{
    if s.len() > 0 {
        lemma_map_of_contains(s.drop_last(), k);
        if s.last()@.id == k {
            assert(s[s.len() - 1]@.id == k);
        } else if map_of(s).contains_key(k) {
            let i = choose|i: int| 0 <= i < s.drop_last().len() && s.drop_last()[i]@.id == k;
            assert(s[i]@.id == k);
        } else if exists|i: int| 0 <= i < s.len() && s[i]@.id == k {
            let i = choose|i: int| 0 <= i < s.len() && s[i]@.id == k;
            assert(i < s.len() - 1);
            assert(s.drop_last()[i]@.id == k);
        }
    }
}

proof fn lemma_map_of_index(s: Seq<Ticket>, i: int)
    requires
        distinct_ids(s),
        0 <= i < s.len(),
    ensures
        map_of(s).contains_key(s[i]@.id),
        map_of(s)[s[i]@.id] == s[i]@,
    decreases s.len(),
{
    if i < s.len() - 1 {
        assert(distinct_ids(s.drop_last())) by {
            assert(forall|x: int, y: int|
                0 <= x < y < s.drop_last().len() ==> s.drop_last()[x]@.id != s.drop_last()[y]@.id);
        }
        lemma_map_of_index(s.drop_last(), i);
        assert(s.drop_last()[i] == s[i]);
        assert(s[i]@.id != s.last()@.id);
    }
}

proof fn lemma_map_of_push(s: Seq<Ticket>, t: Ticket)
    ensures
        map_of(s.push(t)) == map_of(s).insert(t@.id, t@),
{
    assert(s.push(t).drop_last() =~= s);
    assert(s.push(t).last() == t);
}

proof fn lemma_map_of_update(s: Seq<Ticket>, i: int, t: Ticket)
    requires
        distinct_ids(s),
        0 <= i < s.len(),
        t@.id == s[i]@.id,
    ensures
        map_of(s.update(i, t)) == map_of(s).insert(t@.id, t@),
    decreases s.len(),
{
    let k = t@.id;
    if i == s.len() - 1 {
        assert(s.update(i, t).drop_last() =~= s.drop_last());
        assert(s.update(i, t).last() == t);
        assert(map_of(s).insert(k, t@) =~= map_of(s.drop_last()).insert(k, t@));
    } else {
        assert(distinct_ids(s.drop_last())) by {
            assert(forall|x: int, y: int|
                0 <= x < y < s.drop_last().len() ==> s.drop_last()[x]@.id != s.drop_last()[y]@.id);
        }
        assert(s.drop_last()[i] == s[i]);
        lemma_map_of_update(s.drop_last(), i, t);
        assert(s.update(i, t).drop_last() =~= s.drop_last().update(i, t));
        assert(s.update(i, t).last() == s.last());
        let lid = s.last()@.id;
        assert(s[s.len() - 1]@.id == lid);
        assert(k != lid);
        assert(map_of(s.drop_last()).insert(k, t@).insert(lid, s.last()@)
            =~= map_of(s.drop_last()).insert(lid, s.last()@).insert(k, t@));
    }
}

proof fn lemma_map_of_len(s: Seq<Ticket>)
    requires
        distinct_ids(s),
    ensures
        map_of(s).dom().finite(),
        map_of(s).dom().len() == s.len(),
    decreases s.len(),
{
    if s.len() > 0 {
        assert(distinct_ids(s.drop_last())) by {
            assert(forall|x: int, y: int|
                0 <= x < y < s.drop_last().len() ==> s.drop_last()[x]@.id != s.drop_last()[y]@.id);
        }
        lemma_map_of_len(s.drop_last());
        lemma_map_of_contains(s.drop_last(), s.last()@.id);
        assert(forall|i: int| 0 <= i < s.drop_last().len() ==> s.drop_last()[i]@.id != s.last()@.id) by {
            assert(forall|i: int| 0 <= i < s.len() - 1 ==> (#[trigger] s[i])@.id
                != s[s.len() - 1]@.id);
        }
        assert(!map_of(s.drop_last()).contains_key(s.last()@.id));
    }
}

} // verus!

verus! {

/// The in-memory collection of tickets, keyed by identifier. Viewed as a
/// `Map` from identifier to ticket model; no two held tickets share an
/// identifier, and every held ticket is well formed.
pub struct TicketStore {
    tickets: Vec<Ticket>,
}

impl View for TicketStore {
    type V = Map<u128, TicketModel>;

    closed spec fn view(&self) -> Map<u128, TicketModel> {
        map_of(self.tickets@)
    }
}

impl TicketStore {
    /// The store's invariant: identifiers are pairwise distinct, every ticket
    /// is well formed, and each ticket carries the identifier it is keyed by.
    pub closed spec fn wf(self) -> bool {
        &&& distinct_ids(self.tickets@)
        &&& forall|i: int| 0 <= i < self.tickets@.len() ==> (#[trigger] self.tickets@[i]).wf()
    }

    /// Creates an empty store.
    pub fn new() -> (r: Self)
        ensures
            r.wf(),
            r@ == Map::<u128, TicketModel>::empty(),
    {
        let r = TicketStore { tickets: Vec::new() };
        proof {
            assert(r.tickets@.len() == 0);
        }
        r
    }

    /// The index at which the ticket with identifier `id` sits, if any.
    fn find_index(&self, id: u128) -> (r: Option<usize>)
        ensures
            match r {
                Some(i) => i < self.tickets@.len() && self.tickets@[i as int]@.id == id,
                None => forall|j: int| 0 <= j < self.tickets@.len() ==> self.tickets@[j]@.id != id,
            },
    {
        let n = self.tickets.len();
        let mut i: usize = 0;
        while i < n
            invariant
                0 <= i <= n,
                n == self.tickets@.len(),
                forall|j: int| 0 <= j < i ==> self.tickets@[j]@.id != id,
            decreases n - i,
        {
            if self.tickets[i].id.0 == id {
                return Some(i);
            }
            i = i + 1;
        }
        None
    }

    /// Adds a ticket built from the (already validated) draft, under a fresh
    /// random identifier, with status `ToDo`; returns the identifier. The map
    /// afterwards is the map before with the new entry set.
    pub fn add_ticket(&mut self, draft: TicketDraft) -> (r: TicketId)
        requires
            old(self).wf(),
            draft.wf(),
        ensures
            final(self).wf(),
            final(self)@ == old(self)@.insert(r.0, TicketModel {
                id: r.0,
                title: draft.title.0@,
                description: draft.description.0@,
                status: Status::ToDo,
            }),
    {
        let id = TicketId::new();
        let ticket = Ticket::from_draft(id, draft);
        match self.find_index(id.0) {
            None => {
                proof {
                    lemma_map_of_push(self.tickets@, ticket);
                }
                self.tickets.push(ticket);
            },
            Some(i) => {
                proof {
                    lemma_map_of_update(self.tickets@, i as int, ticket);
                }
                self.tickets[i] = ticket;
            },
        }
        id
    }

    /// Returns a point-in-time copy of the ticket with identifier `id`, or
    /// `TicketNotFound` when no such ticket exists.
    pub fn get_ticket(&self, id: &TicketId) -> (r: Result<Ticket, StoreError>)
        requires
            self.wf(),
        ensures
            self@.contains_key(id.0) ==> (r matches Ok(t) && t@ == self@[id.0]),
            !self@.contains_key(id.0) ==> r == Err::<Ticket, _>(StoreError::TicketNotFound(*id)),
    {
        proof {
            lemma_map_of_contains(self.tickets@, id.0);
        }
        match self.find_index(id.0) {
            Some(i) => {
                proof {
                    lemma_map_of_index(self.tickets@, i as int);
                }
                Ok(self.tickets[i].duplicate())
            },
            None => Err(StoreError::TicketNotFound(*id)),
        }
    }

    /// Applies a patch to the ticket with identifier `id`, field by field in
    /// the order title, description, status; the first field that fails
    /// validation aborts the call, but fields before it have already been
    /// written to the stored ticket. Exactly:
    /// - unknown identifier: `TicketNotFound`, store unchanged;
    /// - invalid title: `InvalidField(Title, _)`, store unchanged;
    /// - valid title but invalid description: `InvalidField(Description, _)`,
    ///   the new title (if one was supplied) already committed;
    /// - otherwise: success, all supplied fields applied, and the updated
    ///   ticket returned.
    pub fn patch_ticket(&mut self, id: &TicketId, patch: PatchTicketRequest) -> (r: Result<
        Ticket,
        StoreError,
    >)
        requires
            old(self).wf(),
        ensures
            final(self).wf(),
            !old(self)@.contains_key(id.0) ==> (r == Err::<Ticket, _>(StoreError::TicketNotFound(
                *id)) && final(self)@ == old(self)@),
            old(self)@.contains_key(id.0) && title_fails(patch@) ==> (r == Err::<Ticket, _>(
                StoreError::InvalidField(FieldName::Title, title_error(patch@.title->0)))
                && final(self)@ == old(self)@),
            old(self)@.contains_key(id.0) && !title_fails(patch@) && description_fails(patch@)
                ==> (r == Err::<Ticket, _>(StoreError::InvalidField(FieldName::Description,
                ValidationError::DescriptionTooLong)) && final(self)@ == old(self)@.insert(id.0,
                title_step(old(self)@[id.0], patch@))),
            old(self)@.contains_key(id.0) && !title_fails(patch@) && !description_fails(patch@)
                ==> (r matches Ok(t) && t@ == patched(old(self)@[id.0], patch@) && final(self)@
                == old(self)@.insert(id.0, patched(old(self)@[id.0], patch@))),
    {
        proof {
            lemma_map_of_contains(self.tickets@, id.0);
        }
        match self.find_index(id.0) {
            None => Err(StoreError::TicketNotFound(*id)),
            Some(i) => {
                proof {
                    lemma_map_of_index(self.tickets@, i as int);
                }
                let mut t = self.tickets[i].duplicate();
                match t.apply_patch(patch) {
                    Err((FieldName::Title, e)) => Err(StoreError::InvalidField(
                        FieldName::Title,
                        e,
                    )),
                    Err((FieldName::Description, e)) => {
                        proof {
                            lemma_map_of_update(self.tickets@, i as int, t);
                        }
                        self.tickets[i] = t;
                        Err(StoreError::InvalidField(FieldName::Description, e))
                    },
                    Ok(()) => {
                        let out = t.duplicate();
                        proof {
                            lemma_map_of_update(self.tickets@, i as int, t);
                        }
                        self.tickets[i] = t;
                        Ok(out)
                    },
                }
            },
        }
    }

    /// Returns a copy of every ticket in the store, in an unspecified order:
    /// as many tickets as the store holds, each present in the store under
    /// its identifier, no identifier twice, and every stored identifier
    /// represented.
    pub fn list_tickets(&self) -> (r: Vec<Ticket>)
        requires
            self.wf(),
        ensures
            r@.len() == self@.dom().len(),
            forall|i: int| 0 <= i < r@.len() ==> self@.contains_key(#[trigger] r@[i]@.id)
                && self@[r@[i]@.id] == r@[i]@,
            forall|i: int, j: int| 0 <= i < j < r@.len() ==> r@[i]@.id != r@[j]@.id,
            forall|k: u128| #[trigger] self@.contains_key(k) ==> exists|i: int|
                0 <= i < r@.len() && r@[i]@.id == k,
    {
        proof {
            lemma_map_of_len(self.tickets@);
        }
        let n = self.tickets.len();
        let mut r: Vec<Ticket> = Vec::new();
        let mut i: usize = 0;
        while i < n
            invariant
                0 <= i <= n,
                n == self.tickets@.len(),
                r@.len() == i,
                forall|j: int| 0 <= j < i ==> r@[j]@ == self.tickets@[j]@,
            decreases n - i,
        {
            let t = self.tickets[i].duplicate();
            r.push(t);
            i = i + 1;
        }
        proof {
            assert forall|i2: int| 0 <= i2 < r@.len() implies self@.contains_key(
                #[trigger] r@[i2]@.id) && self@[r@[i2]@.id] == r@[i2]@ by {
                lemma_map_of_index(self.tickets@, i2);
            }
            assert forall|k: u128| #[trigger] self@.contains_key(k) implies exists|i2: int|
                0 <= i2 < r@.len() && r@[i2]@.id == k by {
                lemma_map_of_contains(self.tickets@, k);
                let i2 = choose|i2: int| 0 <= i2 < self.tickets@.len()
                    && self.tickets@[i2]@.id == k;
                assert(r@[i2]@.id == k);
            }
        }
        r
    }
}

} // verus!
