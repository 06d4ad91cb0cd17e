//! Classes referenced across the domains, for use as the `T` of a
//! [`Ref`](crate::model::reference::Ref): each names its class and the class
//! of a reference to it, and carries no data.
use vstd::prelude::*;
use crate::model::extensible::TmfType;

verus! {

/// A sales channel through which an offering is available.
#[derive(Debug, Clone, Copy, PartialEq, Eq, Structural, Hash)]
pub struct Channel;

impl TmfType for Channel {
    const TYPE_NAME: &'static str = "Channel";
    const REF_TYPE_NAME: &'static str = "ChannelRef";
}

/// A geographic place — TMF673 / TMF674.
#[derive(Debug, Clone, Copy, PartialEq, Eq, Structural, Hash)]
pub struct Place;

impl TmfType for Place {
    const TYPE_NAME: &'static str = "Place";
    const REF_TYPE_NAME: &'static str = "PlaceRef";
}

/// A geographic address — TMF673.
#[derive(Debug, Clone, Copy, PartialEq, Eq, Structural, Hash)]
pub struct GeographicAddress;

impl TmfType for GeographicAddress {
    const TYPE_NAME: &'static str = "GeographicAddress";
    const REF_TYPE_NAME: &'static str = "GeographicAddressRef";
}

/// A market segment targeted by an offering.
#[derive(Debug, Clone, Copy, PartialEq, Eq, Structural, Hash)]
pub struct MarketSegment;

impl TmfType for MarketSegment {
    const TYPE_NAME: &'static str = "MarketSegment";
    const REF_TYPE_NAME: &'static str = "MarketSegmentRef";
}

/// A policy constraining an entity.
#[derive(Debug, Clone, Copy, PartialEq, Eq, Structural, Hash)]
pub struct Policy;

impl TmfType for Policy {
    const TYPE_NAME: &'static str = "Policy";
    const REF_TYPE_NAME: &'static str = "PolicyRef";
}

/// A service level agreement — TMF623.
#[derive(Debug, Clone, Copy, PartialEq, Eq, Structural, Hash)]
pub struct ServiceLevelAgreement;

impl TmfType for ServiceLevelAgreement {
    const TYPE_NAME: &'static str = "ServiceLevelAgreement";
    const REF_TYPE_NAME: &'static str = "SLARef";
}

/// An agreement — TMF651.
#[derive(Debug, Clone, Copy, PartialEq, Eq, Structural, Hash)]
pub struct Agreement;

impl TmfType for Agreement {
    const TYPE_NAME: &'static str = "Agreement";
    const REF_TYPE_NAME: &'static str = "AgreementRef";
}

/// A payment method — TMF670.
#[derive(Debug, Clone, Copy, PartialEq, Eq, Structural, Hash)]
pub struct PaymentMethod;

impl TmfType for PaymentMethod {
    const TYPE_NAME: &'static str = "PaymentMethod";
    const REF_TYPE_NAME: &'static str = "PaymentMethodRef";
}

/// A service candidate in a service catalog — TMF633.
#[derive(Debug, Clone, Copy, PartialEq, Eq, Structural, Hash)]
pub struct ServiceCandidate;

impl TmfType for ServiceCandidate {
    const TYPE_NAME: &'static str = "ServiceCandidate";
    const REF_TYPE_NAME: &'static str = "ServiceCandidateRef";
}

/// A service specification — TMF633.
#[derive(Debug, Clone, Copy, PartialEq, Eq, Structural, Hash)]
pub struct ServiceSpecification;

impl TmfType for ServiceSpecification {
    const TYPE_NAME: &'static str = "ServiceSpecification";
    const REF_TYPE_NAME: &'static str = "ServiceSpecificationRef";
}

/// An intent specification — TMF921.
#[derive(Debug, Clone, Copy, PartialEq, Eq, Structural, Hash)]
pub struct IntentSpecification;

impl TmfType for IntentSpecification {
    const TYPE_NAME: &'static str = "IntentSpecification";
    const REF_TYPE_NAME: &'static str = "IntentSpecificationRef";
}

/// A connection point of a resource function — TMF634 references it, and
/// no vendored specification defines the entity itself.
#[derive(Debug, Clone, Copy, PartialEq, Eq, Structural, Hash)]
pub struct ConnectionPointSpecification;

impl TmfType for ConnectionPointSpecification {
    const TYPE_NAME: &'static str = "ConnectionPointSpecification";
    const REF_TYPE_NAME: &'static str = "ConnectionPointSpecificationRef";
}

/// An endpoint joined by a connection specification — TMF634.
#[derive(Debug, Clone, Copy, PartialEq, Eq, Structural, Hash)]
pub struct EndpointSpecification;

impl TmfType for EndpointSpecification {
    const TYPE_NAME: &'static str = "EndpointSpecification";
    const REF_TYPE_NAME: &'static str = "EndpointSpecificationRef";
}

/// A connection point of a resource function: the service access point
/// where its inputs and outputs are available.
///
/// The instance counterpart of [`ConnectionPointSpecification`]. TMF639
/// references it from `ResourceFunction.connectionPoint` and from an
/// [`Endpoint`](crate::resource::Endpoint), and no vendored specification
/// defines the entity itself.
#[derive(Debug, Clone, Copy, PartialEq, Eq, Structural, Hash)]
pub struct ConnectionPoint;

impl TmfType for ConnectionPoint {
    const TYPE_NAME: &'static str = "ConnectionPoint";
    const REF_TYPE_NAME: &'static str = "ConnectionPointRef";
}

/// A schedule a resource function runs to — TMF645.
#[derive(Debug, Clone, Copy, PartialEq, Eq, Structural, Hash)]
pub struct Schedule;

impl TmfType for Schedule {
    const TYPE_NAME: &'static str = "Schedule";
    const REF_TYPE_NAME: &'static str = "ScheduleRef";
}

/// Whatever an alarm is raised against — TMF642 leaves the class open, so
/// the reference carries `@referredType` rather than a fixed target.
#[derive(Debug, Clone, Copy, PartialEq, Eq, Structural, Hash)]
pub struct AlarmedObject;

impl TmfType for AlarmedObject {
    const TYPE_NAME: &'static str = "AlarmedObject";
    const REF_TYPE_NAME: &'static str = "AlarmedObjectRef";
}

/// A performance threshold whose crossing raised an alarm — TMF628.
#[derive(Debug, Clone, Copy, PartialEq, Eq, Structural, Hash)]
pub struct Threshold;

impl TmfType for Threshold {
    const TYPE_NAME: &'static str = "Threshold";
    const REF_TYPE_NAME: &'static str = "ThresholdRef";
}

/// A billing account, as *referenced* — TMF678 uses `BillingAccountRef`,
/// which TMF666 does not define even though it declares the entity.
///
/// The entity itself is [`account::Account`](crate::account::Account) with
/// `AccountKind::Billing`; this marker exists because a `Ref<T>` binds one
/// target type to one `…Ref` class name, and the subclasses have their own.
#[derive(Debug, Clone, Copy, PartialEq, Eq, Structural, Hash)]
pub struct BillingAccount;

impl TmfType for BillingAccount {
    const TYPE_NAME: &'static str = "BillingAccount";
    const REF_TYPE_NAME: &'static str = "BillingAccountRef";
}

/// A financial account money is posted to, as *referenced* — TMF666
/// declares `FinancialAccountRef` beside the entity.
///
/// See [`BillingAccount`] for why a modelled entity still needs a marker.
#[derive(Debug, Clone, Copy, PartialEq, Eq, Structural, Hash)]
pub struct FinancialAccount;

impl TmfType for FinancialAccount {
    const TYPE_NAME: &'static str = "FinancialAccount";
    const REF_TYPE_NAME: &'static str = "FinancialAccountRef";
}

/// The specification a billing cycle runs to — TMF678 references it and no
/// vendored specification defines the entity.
#[derive(Debug, Clone, Copy, PartialEq, Eq, Structural, Hash)]
pub struct BillCycleSpecification;

impl TmfType for BillCycleSpecification {
    const TYPE_NAME: &'static str = "BillCycleSpecification";
    const REF_TYPE_NAME: &'static str = "BillCycleSpecificationRef";
}

/// A payment — TMF676.
#[derive(Debug, Clone, Copy, PartialEq, Eq, Structural, Hash)]
pub struct Payment;

impl TmfType for Payment {
    const TYPE_NAME: &'static str = "Payment";
    const REF_TYPE_NAME: &'static str = "PaymentRef";
}

/// A quote — TMF648.
#[derive(Debug, Clone, Copy, PartialEq, Eq, Structural, Hash)]
pub struct Quote;

impl TmfType for Quote {
    const TYPE_NAME: &'static str = "Quote";
    const REF_TYPE_NAME: &'static str = "QuoteRef";
}

/// An appointment — TMF646.
#[derive(Debug, Clone, Copy, PartialEq, Eq, Structural, Hash)]
pub struct Appointment;

impl TmfType for Appointment {
    const TYPE_NAME: &'static str = "Appointment";
    const REF_TYPE_NAME: &'static str = "AppointmentRef";
}

/// A policy or rule constraining an entity — TMF632.
#[derive(Debug, Clone, Copy, PartialEq, Eq, Structural, Hash)]
pub struct Constraint;

impl TmfType for Constraint {
    const TYPE_NAME: &'static str = "Constraint";
    const REF_TYPE_NAME: &'static str = "ConstraintRef";
}

/// An entity of unspecified kind.
///
/// The v5 `EntityRef`, used where a schema declines to say what it points
/// at: TMF638's `relatedEntity` is *some* TM Forum entity, and an event's
/// `source` is *some* system. In both, `referred_type` names which.
#[derive(Debug, Clone, Copy, PartialEq, Eq, Structural, Hash)]
pub struct AnyEntity;

impl TmfType for AnyEntity {
    const TYPE_NAME: &'static str = "Entity";
    const REF_TYPE_NAME: &'static str = "EntityRef";
}

/// An intent — TMF921.
#[derive(Debug, Clone, Copy, PartialEq, Eq, Structural, Hash)]
pub struct Intent;

impl TmfType for Intent {
    const TYPE_NAME: &'static str = "Intent";
    const REF_TYPE_NAME: &'static str = "IntentRef";
}

/// A specification for an agreement — TMF651.
#[derive(Debug, Clone, Copy, PartialEq, Eq, Structural, Hash)]
pub struct AgreementSpecification;

impl TmfType for AgreementSpecification {
    const TYPE_NAME: &'static str = "AgreementSpecification";
    const REF_TYPE_NAME: &'static str = "AgreementSpecificationRef";
}

/// A set of permissions granted to a party role — TMF672.
#[derive(Debug, Clone, Copy, PartialEq, Eq, Structural, Hash)]
pub struct PermissionSpecificationSet;

impl TmfType for PermissionSpecificationSet {
    const TYPE_NAME: &'static str = "PermissionSpecificationSet";
    const REF_TYPE_NAME: &'static str = "PermissionSpecificationSetRef";
}

/// The specification of an association between two entity specifications.
#[derive(Debug, Clone, Copy, PartialEq, Eq, Structural, Hash)]
pub struct AssociationSpecification;

impl TmfType for AssociationSpecification {
    const TYPE_NAME: &'static str = "AssociationSpecification";
    const REF_TYPE_NAME: &'static str = "AssociationSpecificationRef";
}

/// An account — TMF666. The base class a bare `AccountRef` names.
#[derive(Debug, Clone, Copy, PartialEq, Eq, Structural, Hash)]
pub struct Account;

impl TmfType for Account {
    const TYPE_NAME: &'static str = "Account";
    const REF_TYPE_NAME: &'static str = "AccountRef";
}

/// A promotion applied to an offering — TMF671.
#[derive(Debug, Clone, Copy, PartialEq, Eq, Structural, Hash)]
pub struct Promotion;

impl TmfType for Promotion {
    const TYPE_NAME: &'static str = "Promotion";
    const REF_TYPE_NAME: &'static str = "PromotionRef";
}

/// A product offering qualification — TMF679.
///
/// This one stays a marker permanently. TMF622 references
/// `ProductOfferingQualificationRef`, but TMF679 defines no resource of
/// that name: it serves `CheckProductOfferingQualification` and
/// `QueryProductOfferingQualification`, and a bare reference does not say
/// which. Pointing it at either would guess.
#[derive(Debug, Clone, Copy, PartialEq, Eq, Structural, Hash)]
pub struct ProductOfferingQualification;

impl TmfType for ProductOfferingQualification {
    const TYPE_NAME: &'static str = "ProductOfferingQualification";
    const REF_TYPE_NAME: &'static str = "ProductOfferingQualificationRef";
}

} // verus!
