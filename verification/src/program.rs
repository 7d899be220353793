//! Program wrappers: one owned service per deployed program. The
//! constructor takes the deploying identity, seeds the role registry with
//! it, and returns the program; the accessors hand out the service.

use vstd::prelude::*;

use crate::actor::ActorId;
use crate::extended_vft::ExtendedService;
use crate::extended_vmt::ExtendedService as ExtendedVmtService;
use crate::vft_service::Service as VftService;

verus! {

/// A fungible token program: the extended fungible service, owned.
pub struct Program {
    pub service: ExtendedService,
}

impl Program {
    /// Deploys a fungible token: empty ledger, `deployer` in every role.
    pub fn new(deployer: ActorId, name: String, symbol: String, decimals: u8) -> (r: Program)
        ensures
            r.service.wf(),
            r.service.roles.is_admin(deployer) && r.service.roles.is_minter(deployer)
                && r.service.roles.is_burner(deployer),
            r.service.vft.balances.entries@.len() == 0,
            r.service.vft.total_supply@ == 0,
            r.service.vft.meta.name == name && r.service.vft.meta.symbol == symbol
                && r.service.vft.meta.decimals == decimals,
    {
        Program { service: ExtendedService::seed(deployer, name, symbol, decimals) }
    }

    /// The extended fungible service.
    pub fn vft(&self) -> (r: &ExtendedService)
        ensures
            r == &self.service,
    {
        &self.service
    }

    /// The underlying base service, under its ERC-20-style name.
    pub fn erc20(&self) -> (r: &VftService)
        ensures
            r == &self.service.vft,
    {
        &self.service.vft
    }

    /// The extended fungible service, under its master-service name.
    pub fn vft_master(&self) -> (r: &ExtendedService)
        ensures
            r == &self.service,
    {
        &self.service
    }
}

/// A fungible token program deployed under the extended-service name.
pub struct ExtendedVftProgram {
    pub service: ExtendedService,
}

impl ExtendedVftProgram {
    pub fn new(deployer: ActorId, name: String, symbol: String, decimals: u8) -> (r:
        ExtendedVftProgram)
        ensures
            r.service.wf(),
            r.service.roles.is_admin(deployer) && r.service.roles.is_minter(deployer)
                && r.service.roles.is_burner(deployer),
    {
        ExtendedVftProgram { service: ExtendedService::seed(deployer, name, symbol, decimals) }
    }

    pub fn vft(&self) -> (r: &ExtendedService)
        ensures
            r == &self.service,
    {
        &self.service
    }
}

/// A multi-token program: the extended multi-token service, owned.
pub struct ExtendedVmtProgram {
    pub service: ExtendedVmtService,
}

impl ExtendedVmtProgram {
    pub fn new(deployer: ActorId, name: String, symbol: String, decimals: u8) -> (r:
        ExtendedVmtProgram)
        ensures
            r.service.wf(),
            r.service.roles.is_admin(deployer) && r.service.roles.is_minter(deployer)
                && r.service.roles.is_burner(deployer),
    {
        ExtendedVmtProgram { service: ExtendedVmtService::init(deployer, name, symbol, decimals) }
    }

    pub fn vmt(&self) -> (r: &ExtendedVmtService)
        ensures
            r == &self.service,
    {
        &self.service
    }
}

} // verus!
