use vstd::prelude::*;

verus! {

/// Declares the native property-management client interface so that values
/// of it can be held and handed through. Relies on
/// `mssf_com::FabricClient::IFabricPropertyManagementClient2`: a
/// reference-counted COM interface handle. Verified code never calls its
/// methods; the per-operation Begin/End calls happen at the native
/// boundary, outside this crate's verified core.
#[verifier::external_type_specification]
#[verifier::external_body]
pub struct ExIFabricPropertyManagementClient2(
    mssf_com::FabricClient::IFabricPropertyManagementClient2,
);

/// Declares the native service-group management client interface so that
/// values of it can be held and handed through. Relies on
/// `mssf_com::FabricClient::IFabricServiceGroupManagementClient4`: a
/// reference-counted COM interface handle whose methods verified code
/// never calls.
#[verifier::external_type_specification]
#[verifier::external_body]
pub struct ExIFabricServiceGroupManagementClient4(
    mssf_com::FabricClient::IFabricServiceGroupManagementClient4,
);

/// Typed wrapper owning one native property-management client handle.
///
/// The wrapper pins which interface the per-operation glue talks to; the
/// operations themselves (Begin/End pairs bridged through
/// [`crate::bridge::BridgeOperation`]) run at the native boundary.
pub struct IFabricPropertyManagementClient2Wrap {
    com: mssf_com::FabricClient::IFabricPropertyManagementClient2,
}

impl IFabricPropertyManagementClient2Wrap {
    /// The native interface handle this wrapper owns.
    pub closed spec fn spec_com(&self) -> mssf_com::FabricClient::IFabricPropertyManagementClient2 {
        self.com
    }

    /// Wrap an existing native client interface handle.
    pub fn from_com(com: mssf_com::FabricClient::IFabricPropertyManagementClient2) -> (w: Self)
        ensures
            w.spec_com() == com,
    {
        IFabricPropertyManagementClient2Wrap { com }
    }

    /// Borrow the wrapped native interface handle.
    pub fn get_com(&self) -> (com: &mssf_com::FabricClient::IFabricPropertyManagementClient2)
        ensures
            *com == self.spec_com(),
    {
        &self.com
    }
}

/// Typed wrapper owning one native service-group management client handle.
pub struct IFabricServiceGroupManagementClient4Wrap {
    com: mssf_com::FabricClient::IFabricServiceGroupManagementClient4,
}

impl IFabricServiceGroupManagementClient4Wrap {
    /// The native interface handle this wrapper owns.
    pub closed spec fn spec_com(
        &self,
    ) -> mssf_com::FabricClient::IFabricServiceGroupManagementClient4 {
        self.com
    }

    /// Wrap an existing native client interface handle.
    pub fn from_com(com: mssf_com::FabricClient::IFabricServiceGroupManagementClient4) -> (w: Self)
        ensures
            w.spec_com() == com,
    {
        IFabricServiceGroupManagementClient4Wrap { com }
    }

    /// Borrow the wrapped native interface handle.
    pub fn get_com(&self) -> (com: &mssf_com::FabricClient::IFabricServiceGroupManagementClient4)
        ensures
            *com == self.spec_com(),
    {
        &self.com
    }
}

} // verus!
