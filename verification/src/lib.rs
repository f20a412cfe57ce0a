//! An in-memory ticket tracker: validated ticket fields (title, description,
//! workflow status) and a store offering create, read, list and partial
//! update, each operation with a full functional contract.

pub mod data;
pub mod laws;
pub mod store;

pub use data::CreateTicketRequest;
pub use data::FieldName;
pub use data::PatchTicketRequest;
pub use data::Status;
pub use data::Ticket;
pub use data::TicketDescription;
pub use data::TicketDraft;
pub use data::TicketId;
pub use data::TicketResponse;
pub use data::TicketTitle;
pub use data::ValidationError;
pub use store::StoreError;
pub use store::TicketStore;
