use vstd::prelude::*;
use crate::types::{Address, BrokerError, Protocol};

verus! {

/// Which backend families the administrator has enabled.
#[derive(Clone, Copy, Debug, PartialEq, Eq, Structural)]
pub struct ProtocolFlags {
    pub aqua_constant: bool,
    pub aqua_stable: bool,
    pub soroswap: bool,
    pub comet: bool,
    pub phoenix: bool,
}

impl ProtocolFlags {
    pub open spec fn enabled(self, protocol: Protocol) -> bool {
        match protocol {
            Protocol::AquaConstant => self.aqua_constant,
            Protocol::AquaStable => self.aqua_stable,
            Protocol::Soroswap => self.soroswap,
            Protocol::Comet => self.comet,
            Protocol::Phoenix => self.phoenix,
        }
    }

    /// No backend enabled.
    pub fn none() -> (r: ProtocolFlags)
        ensures
            forall|p: Protocol| !r.enabled(p),
    {
        ProtocolFlags {
            aqua_constant: false,
            aqua_stable: false,
            soroswap: false,
            comet: false,
            phoenix: false,
        }
    }

    pub fn is_enabled(&self, protocol: Protocol) -> (r: bool)
        ensures
            r == self.enabled(protocol),
    {
        match protocol {
            Protocol::AquaConstant => self.aqua_constant,
            Protocol::AquaStable => self.aqua_stable,
            Protocol::Soroswap => self.soroswap,
            Protocol::Comet => self.comet,
            Protocol::Phoenix => self.phoenix,
        }
    }

    pub fn set(&mut self, protocol: Protocol, enabled: bool)
        ensures
            final(self).enabled(protocol) == enabled,
            forall|p: Protocol| p != protocol ==> final(self).enabled(p) == old(self).enabled(p),
    {
        match protocol {
            Protocol::AquaConstant => self.aqua_constant = enabled,
            Protocol::AquaStable => self.aqua_stable = enabled,
            Protocol::Soroswap => self.soroswap = enabled,
            Protocol::Comet => self.comet = enabled,
            Protocol::Phoenix => self.phoenix = enabled,
        }
    }
}

/// The broker's persistent configuration: its administrator, the token in
/// which fees are retained, and the enabled backends.
#[derive(Clone, Copy, Debug, PartialEq, Eq, Structural)]
pub struct Settings {
    pub admin: Option<Address>,
    pub fee_token: Option<Address>,
    pub protocols: ProtocolFlags,
}

impl Settings {
    /// Configuration of a broker that has not been initialized.
    pub fn new() -> (r: Settings)
        ensures
            r.admin is None,
            r.fee_token is None,
            forall|p: Protocol| !r.protocols.enabled(p),
    {
        Settings { admin: None, fee_token: None, protocols: ProtocolFlags::none() }
    }

    pub open spec fn is_initialized(self) -> bool {
        self.admin is Some
    }

    /// Records the administrator and the fee token; a broker is initialized once.
    pub fn init_settings(&mut self, admin: Address, fee_token: Address) -> (r: Result<(), BrokerError>)
        ensures
            old(self).is_initialized() ==> r == Err::<(), BrokerError>(BrokerError::AlreadyInitialized)
                && *final(self) == *old(self),
            !old(self).is_initialized() ==> r is Ok && final(self).admin == Some(admin)
                && final(self).fee_token == Some(fee_token) && final(self).protocols
                == old(self).protocols,
    {
        if self.admin.is_some() {
            return Err(BrokerError::AlreadyInitialized);
        }
        self.admin = Some(admin);
        self.fee_token = Some(fee_token);
        Ok(())
    }

    pub fn get_admin(&self) -> (r: Option<Address>)
        ensures
            r == self.admin,
    {
        self.admin
    }

    pub fn get_fee_token(&self) -> (r: Option<Address>)
        ensures
            r == self.fee_token,
    {
        self.fee_token
    }

    /// The address whose authorization an administrative call needs, or
    /// `Unauthorized` where no administrator has been set.
    pub fn require_admin(&self) -> (r: Result<Address, BrokerError>)
        ensures
            self.admin is Some ==> r == Ok::<Address, BrokerError>(self.admin->0),
            self.admin is None ==> r == Err::<Address, BrokerError>(BrokerError::Unauthorized),
    {
        match self.admin {
            Some(a) => Ok(a),
            None => Err(BrokerError::Unauthorized),
        }
    }

    pub fn set_protocol_enabled(&mut self, protocol: Protocol, enabled: bool)
        ensures
            final(self).protocols.enabled(protocol) == enabled,
            forall|p: Protocol| p != protocol ==> final(self).protocols.enabled(p) == old(self).protocols.enabled(p),
            final(self).admin == old(self).admin,
            final(self).fee_token == old(self).fee_token,
    {
        self.protocols.set(protocol, enabled);
    }

    pub fn is_protocol_enabled(&self, protocol: Protocol) -> (r: bool)
        ensures
            r == self.protocols.enabled(protocol),
    {
        self.protocols.is_enabled(protocol)
    }
}

} // verus!
