//! The TM Forum APIs this crate has clients for, and where each lives under
//! a host.
use vstd::prelude::*;
use crate::api::client::trim_slashes;
use crate::text::{chars_of, push_str, string_of_range};

verus! {

/// A TM Forum Open API.
#[derive(Debug, Clone, Copy, PartialEq, Eq, Structural)]
pub enum TmfApi {
    /// TMF620 Product Catalog Management.
    ProductCatalog,
    /// TMF621 Trouble Ticket.
    TroubleTicket,
    /// TMF622 Product Ordering Management.
    ProductOrdering,
    /// TMF629 Customer Management.
    Customer,
    /// TMF632 Party Management.
    Party,
    /// TMF634 Resource Catalog.
    ResourceCatalog,
    /// TMF637 Product Inventory.
    ProductInventory,
    /// TMF638 Service Inventory.
    ServiceInventory,
    /// TMF642 Alarm Management.
    Alarm,
    /// TMF666 Account Management.
    Account,
    /// TMF669 Party Role Management.
    PartyRole,
    /// TMF678 Customer Bill Management.
    CustomerBill,
    /// TMF679 Product Offering Qualification.
    ProductOfferingQualification,
}

/// The path of an API's root under its host.
pub open spec fn api_path_spec(api: TmfApi) -> Seq<char> {
    match api {
        TmfApi::ProductCatalog => "tmf-api/productCatalogManagement/v5"@,
        TmfApi::TroubleTicket => "tmf-api/troubleTicket/v5"@,
        TmfApi::ProductOrdering => "tmf-api/productOrderingManagement/v5"@,
        TmfApi::Customer => "tmf-api/customerManagement/v5"@,
        TmfApi::Party => "tmf-api/partyManagement/v5"@,
        TmfApi::ResourceCatalog => "tmf-api/resourceCatalog/v5"@,
        TmfApi::ProductInventory => "tmf-api/productInventory/v5"@,
        TmfApi::ServiceInventory => "tmf-api/serviceInventory/v5"@,
        TmfApi::Alarm => "tmf-api/alarmManagement/v5"@,
        TmfApi::Account => "tmf-api/accountManagement/v5"@,
        TmfApi::PartyRole => "tmf-api/partyRoleManagement/v5"@,
        TmfApi::CustomerBill => "tmf-api/customerBillManagement/v5"@,
        TmfApi::ProductOfferingQualification => "tmf-api/productOfferingQualification/v5"@,
    }
}

/// The specification release each client was written against.
pub open spec fn spec_version_spec(api: TmfApi) -> Seq<char> {
    match api {
        TmfApi::TroubleTicket | TmfApi::Customer | TmfApi::Alarm => "5.0.1"@,
        _ => "5.0.0"@,
    }
}

/// The base URL of `api` on `host`: the host without trailing slashes, a
/// slash, and the API's path.
pub open spec fn host_base_url_spec(host: Seq<char>, api: TmfApi) -> Seq<char> {
    trim_slashes(host) + seq!['/'] + api_path_spec(api)
}

impl TmfApi {
    /// The path of this API's root under its host.
    pub fn api_path(self) -> (r: &'static str)
        ensures
            r@ == api_path_spec(self),
    {
        match self {
            TmfApi::ProductCatalog => "tmf-api/productCatalogManagement/v5",
            TmfApi::TroubleTicket => "tmf-api/troubleTicket/v5",
            TmfApi::ProductOrdering => "tmf-api/productOrderingManagement/v5",
            TmfApi::Customer => "tmf-api/customerManagement/v5",
            TmfApi::Party => "tmf-api/partyManagement/v5",
            TmfApi::ResourceCatalog => "tmf-api/resourceCatalog/v5",
            TmfApi::ProductInventory => "tmf-api/productInventory/v5",
            TmfApi::ServiceInventory => "tmf-api/serviceInventory/v5",
            TmfApi::Alarm => "tmf-api/alarmManagement/v5",
            TmfApi::Account => "tmf-api/accountManagement/v5",
            TmfApi::PartyRole => "tmf-api/partyRoleManagement/v5",
            TmfApi::CustomerBill => "tmf-api/customerBillManagement/v5",
            TmfApi::ProductOfferingQualification => "tmf-api/productOfferingQualification/v5",
        }
    }

    /// The specification release this API's client follows.
    pub fn spec_version(self) -> (r: &'static str)
        ensures
            r@ == spec_version_spec(self),
    {
        match self {
            TmfApi::TroubleTicket | TmfApi::Customer | TmfApi::Alarm => "5.0.1",
            _ => "5.0.0",
        }
    }

    /// The base URL of this API on `host`.
    pub fn base_url_on(self, host: &str) -> (r: String)
        ensures
            r@ == host_base_url_spec(host@, self),
    {
        let v = chars_of(host);
        let mut end = v.len();
        assert(v@.take(end as int) =~= v@);
        while end > 0 && v[end - 1] == '/'
            invariant
                end <= v@.len(),
                trim_slashes(v@) == trim_slashes(v@.take(end as int)),
            decreases end,
        {
            assert(v@.take(end as int).drop_last() =~= v@.take(end - 1));
            end = end - 1;
        }
        assert(v@.subrange(0, end as int) =~= v@.take(end as int));
        let mut s = string_of_range(v.as_slice(), 0, end);
        crate::text::push_char(&mut s, '/');
        let ghost with_slash = s@;
        push_str(&mut s, self.api_path());
        assert(s@ =~= with_slash + api_path_spec(self));
        s
    }
}

} // verus!
