//! The data model shared by every TM Forum API: classes and their names,
//! extension members, error bodies, events, characteristics and the small
//! value types the specifications reuse.
pub mod characteristic;
pub mod error;
pub mod event;
pub mod extensible;
pub mod party;
pub mod patch;
pub mod reference;
pub mod refs;
pub mod state;
pub mod value;

pub use characteristic::{
    Characteristic, CharacteristicValueSpecification, ElementShape, JsonShape, SpecificationTarget,
    ValueKind,
};
pub use error::TmfError;
pub use event::{EventKind, Payload, TmfEvent};
pub use extensible::{Extensions, PatchBody, TmfType, default_ref_type, default_type};
pub use party::{Party, PartyOrPartyRole, PartyRole, RelatedParty};
pub use patch::{JsonPatchOp, PatchOperation};
pub use reference::{Entity, Ref, Target};
pub use state::ItemAction;
pub use value::{
    Duration, FeatureRelationshipType, Money, Note, Price, Quantity, TaskState, TimePeriod, Timestamp,
};
