//! Ticket field types and their validation rules.

use vstd::prelude::*;

verus! {

/// Whether a character counts as whitespace for the emptiness check.
/// The result of `char::is_whitespace`, a function of the character alone.
pub uninterp spec fn is_space(c: char) -> bool;

/// Relies on char::is_whitespace: whether the character has the Unicode
/// White_Space property, determined by the character alone.
#[verifier::external_body]
fn char_is_space(c: char) -> (r: bool)
    ensures
        r == is_space(c),
{
    c.is_whitespace()
}

/// A string is blank when every character of it is whitespace; the empty
/// string is blank.
pub open spec fn is_blank(s: Seq<char>) -> bool {
    forall|i: int| 0 <= i < s.len() ==> is_space(s[i])
}

/// Whether a string is acceptable as a ticket title: not blank, and at most
/// 100 characters long.
pub open spec fn title_ok(s: Seq<char>) -> bool {
    &&& !is_blank(s)
    &&& s.len() <= 100
}

/// Whether a string is acceptable as a ticket description: at most 1000
/// characters long.
pub open spec fn description_ok(s: Seq<char>) -> bool {
    s.len() <= 1000
}

/// Reports whether every character of `s` is whitespace.
fn str_is_blank(s: &str) -> (b: bool)
    ensures
        b == is_blank(s@),
{
    let n: usize = s.unicode_len();
    let mut i: usize = 0;
    while i < n
        invariant
            0 <= i <= n,
            n == s@.len(),
            forall|j: int| 0 <= j < i ==> is_space(s@[j]),
        decreases n - i,
    {
        if !char_is_space(s.get_char(i)) {
            return false;
        }
        i = i + 1;
    }
    true
}

/// Why a field value was rejected.
#[derive(Clone, Copy, Debug, PartialEq, Eq, Structural)]
pub enum ValidationError {
    /// The title is empty, or holds only whitespace.
    EmptyTitle,
    /// The title is longer than 100 characters.
    TitleTooLong,
    /// The description is longer than 1000 characters.
    DescriptionTooLong,
}

} // verus!

verus! {

/// The unique identifier of a ticket: a 128-bit value drawn at random when
/// the ticket is created.
#[derive(Clone, Copy, Debug, PartialEq, Eq, Hash, Structural)]
pub struct TicketId(pub u128);

/// Relies on uuid::Uuid::new_v4 and uuid::Uuid::as_u128: a freshly drawn
/// random version-4 identifier, returned as its 128-bit value. The value is
/// random, so nothing is promised of it.
#[verifier::external_body]
fn random_id_value() -> u128 {
    uuid::Uuid::new_v4().as_u128()
}

impl TicketId {
    /// Draws a fresh random identifier.
    pub fn new() -> Self {
        TicketId(random_id_value())
    }
}

/// The title of a ticket. A valid title is not blank and holds at most 100
/// characters; `TicketTitle::new` is the only constructor that checks this.
#[derive(Clone, Debug)]
pub struct TicketTitle(pub String);

impl TicketTitle {
    /// Validates `title` and wraps it unchanged. A blank title (empty, or
    /// whitespace only) is rejected as `EmptyTitle`; one longer than 100
    /// characters is rejected as `TitleTooLong`; the blankness check comes
    /// first.
    pub fn new(title: String) -> (r: Result<Self, ValidationError>)
        ensures
            r is Ok <==> title_ok(title@),
            r is Ok ==> (r->Ok_0).0@ == title@,
            r == Err::<Self, _>(ValidationError::EmptyTitle) <==> is_blank(title@),
            r == Err::<Self, _>(ValidationError::TitleTooLong) <==> (!is_blank(title@)
                && title@.len() > 100),
    {
        if str_is_blank(title.as_str()) {
            Err(ValidationError::EmptyTitle)
        } else if title.as_str().unicode_len() > 100 {
            Err(ValidationError::TitleTooLong)
        } else {
            Ok(TicketTitle(title))
        }
    }
}

/// The description of a ticket: any string of at most 1000 characters, the
/// empty string included.
#[derive(Clone, Debug)]
pub struct TicketDescription(pub String);

impl TicketDescription {
    /// Validates `description` and wraps it unchanged. A description longer
    /// than 1000 characters is rejected as `DescriptionTooLong`.
    pub fn new(description: String) -> (r: Result<Self, ValidationError>)
        ensures
            r is Ok <==> description_ok(description@),
            r is Ok ==> (r->Ok_0).0@ == description@,
            r is Err <==> (r == Err::<Self, ValidationError>(
                ValidationError::DescriptionTooLong) && description@.len() > 1000),
    {
        if description.as_str().unicode_len() > 1000 {
            Err(ValidationError::DescriptionTooLong)
        } else {
            Ok(TicketDescription(description))
        }
    }
}

/// The workflow status of a ticket.
#[derive(Clone, Copy, Debug, PartialEq, Eq, Structural)]
pub enum Status {
    /// Work has not started; the status every ticket is created with.
    ToDo,
    /// Work is under way.
    InProgress,
    /// Work is finished.
    Done,
}

impl Status {
    /// The human-readable name of the status.
    pub fn label(&self) -> (r: String)
        ensures
            *self == Status::ToDo ==> r@ == "To Do"@,
            *self == Status::InProgress ==> r@ == "In Progress"@,
            *self == Status::Done ==> r@ == "Done"@,
    {
        match self {
            Status::ToDo => "To Do".to_owned(),
            Status::InProgress => "In Progress".to_owned(),
            Status::Done => "Done".to_owned(),
        }
    }
}

} // verus!

verus! {

/// The mathematical value of a ticket: its identifier and the character
/// sequences and status it carries. Contracts speak of tickets through this
/// model.
pub ghost struct TicketModel {
    pub id: u128,
    pub title: Seq<char>,
    pub description: Seq<char>,
    pub status: Status,
}

impl TicketModel {
    /// A model is well formed when its title and description pass validation.
    pub open spec fn wf(self) -> bool {
        &&& title_ok(self.title)
        &&& description_ok(self.description)
    }
}

/// A ticket as the store holds it: identifier, validated title, validated
/// description, and workflow status.
#[derive(Clone, Debug)]
pub struct Ticket {
    pub id: TicketId,
    pub title: TicketTitle,
    pub description: TicketDescription,
    pub status: Status,
}

impl View for Ticket {
    type V = TicketModel;

    open spec fn view(&self) -> TicketModel {
        TicketModel {
            id: self.id.0,
            title: self.title.0@,
            description: self.description.0@,
            status: self.status,
        }
    }
}

impl Ticket {
    /// A ticket is well formed when its fields passed validation.
    pub open spec fn wf(self) -> bool {
        self@.wf()
    }

    /// A field-by-field copy of the ticket.
    pub fn duplicate(&self) -> (r: Ticket)
        ensures
            r@ == self@,
    {
        Ticket {
            id: self.id,
            title: TicketTitle(self.title.0.clone()),
            description: TicketDescription(self.description.0.clone()),
            status: self.status,
        }
    }
}

/// The validated title and description a new ticket is built from. It has no
/// status (every new ticket starts as `ToDo`) and no identifier (the store
/// assigns one).
#[derive(Clone, Debug)]
pub struct TicketDraft {
    pub title: TicketTitle,
    pub description: TicketDescription,
}

impl TicketDraft {
    /// A draft is well formed when its fields passed validation.
    pub open spec fn wf(self) -> bool {
        &&& title_ok(self.title.0@)
        &&& description_ok(self.description.0@)
    }
}

/// A request to create a ticket: the raw title and description, not yet
/// validated.
#[derive(Clone, Debug)]
pub struct CreateTicketRequest {
    pub title: String,
    pub description: String,
}

/// A request to change some fields of a ticket. Every field is optional;
/// absent fields are left as they are. Title and description arrive raw and
/// are validated inside the store; the status is structurally valid already.
#[derive(Clone, Debug)]
pub struct PatchTicketRequest {
    pub title: Option<String>,
    pub description: Option<String>,
    pub status: Option<Status>,
}

/// The mathematical value of a patch request.
pub ghost struct PatchModel {
    pub title: Option<Seq<char>>,
    pub description: Option<Seq<char>>,
    pub status: Option<Status>,
}

impl View for PatchTicketRequest {
    type V = PatchModel;

    open spec fn view(&self) -> PatchModel {
        PatchModel {
            title: match self.title {
                Some(ref t) => Some(t@),
                None => None,
            },
            description: match self.description {
                Some(ref d) => Some(d@),
                None => None,
            },
            status: self.status,
        }
    }
}

/// Which field of a patch was rejected.
#[derive(Clone, Copy, Debug, PartialEq, Eq, Structural)]
pub enum FieldName {
    Title,
    Description,
}

/// A ticket flattened for transport: the identifier beside the raw title,
/// description and status strings.
#[derive(Clone, Debug)]
pub struct TicketResponse {
    pub id: TicketId,
    pub title: String,
    pub description: String,
    pub status: Status,
}

impl From<Ticket> for TicketResponse {
    fn from(ticket: Ticket) -> (r: Self) {
        TicketResponse {
            id: ticket.id,
            title: ticket.title.0,
            description: ticket.description.0,
            status: ticket.status,
        }
    }
}

impl vstd::std_specs::convert::FromSpecImpl<Ticket> for TicketResponse {
    open spec fn obeys_from_spec() -> bool {
        true
    }

    open spec fn from_spec(ticket: Ticket) -> Self {
        TicketResponse {
            id: ticket.id,
            title: ticket.title.0,
            description: ticket.description.0,
            status: ticket.status,
        }
    }
}

} // verus!

verus! {

/// The error an invalid title is rejected with: a blank title is reported as
/// empty, any other invalid one as too long (blankness is checked first).
pub open spec fn title_error(s: Seq<char>) -> ValidationError {
    if is_blank(s) {
        ValidationError::EmptyTitle
    } else {
        ValidationError::TitleTooLong
    }
}

impl TicketDraft {
    /// Validates the raw title and description of a creation request and
    /// builds the draft; on failure reports the first offending field, title
    /// before description.
    pub fn from_request(request: CreateTicketRequest) -> (r: Result<
        TicketDraft,
        (FieldName, ValidationError),
    >)
        ensures
            !title_ok(request.title@) ==> r == Err::<TicketDraft, _>((
                FieldName::Title,
                title_error(request.title@),
            )),
            title_ok(request.title@) && !description_ok(request.description@) ==> r == Err::<
                TicketDraft,
                _,
            >((FieldName::Description, ValidationError::DescriptionTooLong)),
            title_ok(request.title@) && description_ok(request.description@) ==> (r matches Ok(d)
                && d.wf() && d.title.0@ == request.title@
                && d.description.0@ == request.description@),
    {
        let CreateTicketRequest { title, description } = request;
        let t = match TicketTitle::new(title) {
            Ok(t) => t,
            Err(e) => {
                return Err((FieldName::Title, e));
            },
        };
        let d = match TicketDescription::new(description) {
            Ok(d) => d,
            Err(e) => {
                return Err((FieldName::Description, e));
            },
        };
        Ok(TicketDraft { title: t, description: d })
    }
}

} // verus!

verus! {

impl PartialEq for TicketTitle {
    fn eq(&self, other: &Self) -> bool {
        self.0 == other.0
    }
}

impl vstd::std_specs::cmp::PartialEqSpecImpl for TicketTitle {
    open spec fn obeys_eq_spec() -> bool {
        true
    }

    open spec fn eq_spec(&self, other: &Self) -> bool {
        self.0@ == other.0@
    }
}

impl PartialEq for TicketDescription {
    fn eq(&self, other: &Self) -> bool {
        self.0 == other.0
    }
}

impl vstd::std_specs::cmp::PartialEqSpecImpl for TicketDescription {
    open spec fn obeys_eq_spec() -> bool {
        true
    }

    open spec fn eq_spec(&self, other: &Self) -> bool {
        self.0@ == other.0@
    }
}

} // verus!

verus! {

/// Whether the patch carries a title that fails validation.
pub open spec fn title_fails(p: PatchModel) -> bool {
    match p.title {
        Some(s) => !title_ok(s),
        None => false,
    }
}

/// Whether the patch carries a description that fails validation.
pub open spec fn description_fails(p: PatchModel) -> bool {
    match p.description {
        Some(s) => !description_ok(s),
        None => false,
    }
}

/// The ticket after the patch's title, if any, has been applied.
pub open spec fn title_step(t: TicketModel, p: PatchModel) -> TicketModel {
    match p.title {
        Some(s) => TicketModel { title: s, ..t },
        None => t,
    }
}

/// The ticket after the patch's description, if any, has been applied.
pub open spec fn description_step(t: TicketModel, p: PatchModel) -> TicketModel {
    match p.description {
        Some(s) => TicketModel { description: s, ..t },
        None => t,
    }
}

/// The ticket after the patch's status, if any, has been applied.
pub open spec fn status_step(t: TicketModel, p: PatchModel) -> TicketModel {
    match p.status {
        Some(st) => TicketModel { status: st, ..t },
        None => t,
    }
}

/// The ticket after a fully successful patch: title, then description, then
/// status.
pub open spec fn patched(t: TicketModel, p: PatchModel) -> TicketModel {
    status_step(description_step(title_step(t, p), p), p)
}

impl Ticket {
    /// Builds the ticket a draft creates: the given identifier, the draft's
    /// fields, and status `ToDo`.
    pub fn from_draft(id: TicketId, draft: TicketDraft) -> (r: Ticket)
        ensures
            r@ == (TicketModel {
                id: id.0,
                title: draft.title.0@,
                description: draft.description.0@,
                status: Status::ToDo,
            }),
            draft.wf() ==> r.wf(),
    {
        Ticket { id, title: draft.title, description: draft.description, status: Status::ToDo }
    }

    /// Applies the patch's fields to this ticket in the order title,
    /// description, status, validating each; the first failure stops the
    /// call, but fields before it have already been written. The identifier
    /// never changes, and a well-formed ticket stays well formed.
    pub fn apply_patch(&mut self, patch: PatchTicketRequest) -> (r: Result<
        (),
        (FieldName, ValidationError),
    >)
        ensures
            final(self)@.id == old(self)@.id,
            old(self).wf() ==> final(self).wf(),
            title_fails(patch@) ==> (r == Err::<(), _>((
                FieldName::Title,
                title_error(patch@.title->0),
            )) && final(self)@ == old(self)@),
            !title_fails(patch@) && description_fails(patch@) ==> (r == Err::<(), _>((
                FieldName::Description,
                ValidationError::DescriptionTooLong,
            )) && final(self)@ == title_step(old(self)@, patch@)),
            !title_fails(patch@) && !description_fails(patch@) ==> (r == Ok::<_, (
                FieldName,
                ValidationError,
            )>(()) && final(self)@ == patched(old(self)@, patch@)),
    {
        match patch.title {
            Some(ts) => {
                match TicketTitle::new(ts) {
                    Ok(nt) => {
                        self.title = nt;
                    },
                    Err(e) => {
                        return Err((FieldName::Title, e));
                    },
                }
            },
            None => {},
        }
        match patch.description {
            Some(ds) => {
                match TicketDescription::new(ds) {
                    Ok(nd) => {
                        self.description = nd;
                    },
                    Err(e) => {
                        return Err((FieldName::Description, e));
                    },
                }
            },
            None => {},
        }
        match patch.status {
            Some(st) => {
                self.status = st;
            },
            None => {},
        }
        Ok(())
    }
}

} // verus!
