use vstd::prelude::*;
use crate::engine::{start_action, Action, Phase, SwapSession};
use crate::settings::Settings;
use crate::types::{Address, BrokerError, PathStep, Protocol, Route};

verus! {

/// The broker's administrative entry points over its persistent settings.
/// Each returns what the host must do: the address whose authorization the
/// call needs, and the first action of a swap or a transfer.
pub struct StellarBroker {
    pub settings: Settings,
}

impl StellarBroker {
    /// A broker that has not been initialized.
    pub fn new() -> (r: StellarBroker)
        ensures
            !r.settings.is_initialized(),
            r.settings.fee_token is None,
            forall|p: Protocol| !r.settings.protocols.enabled(p),
    {
        StellarBroker { settings: Settings::new() }
    }

    /// Sets the administrator and the reference fee token, once.
    pub fn init(&mut self, admin: Address, fee_token: Address) -> (r: Result<(), BrokerError>)
        ensures
            old(self).settings.is_initialized() ==> r == Err::<(), BrokerError>(BrokerError::AlreadyInitialized)
                && final(self).settings == old(self).settings,
            !old(self).settings.is_initialized() ==> r is Ok && final(self).settings.admin == Some(admin)
                && final(self).settings.fee_token == Some(fee_token)
                && final(self).settings.protocols == old(self).settings.protocols,
    {
        self.settings.init_settings(admin, fee_token)
    }

    /// Enables or disables a backend family; the administrator must authorize
    /// the call. `Unauthorized`, with nothing changed, where there is none.
    pub fn enable_protocol(&mut self, protocol: Protocol, enabled: bool) -> (r: Result<Address, BrokerError>)
        ensures
            old(self).settings.admin is None ==> r == Err::<Address, BrokerError>(BrokerError::Unauthorized)
                && final(self).settings == old(self).settings,
            old(self).settings.admin is Some ==> {
                &&& r == Ok::<Address, BrokerError>(old(self).settings.admin->0)
                &&& final(self).settings.protocols.enabled(protocol) == enabled
                &&& forall|p: Protocol|
                    p != protocol ==> final(self).settings.protocols.enabled(p) == old(
                        self,
                    ).settings.protocols.enabled(p)
                &&& final(self).settings.admin == old(self).settings.admin
                &&& final(self).settings.fee_token == old(self).settings.fee_token
            },
    {
        let admin = self.settings.require_admin();
        if admin.is_ok() {
            self.settings.set_protocol_enabled(protocol, enabled);
        }
        admin
    }

    /// Begins a swap with the broker's current settings; the trader must
    /// authorize the call. `NotInitialized` where no fee token is set.
    pub fn swap(
        &self,
        broker: Address,
        selling: Address,
        routes: Vec<Route>,
        trader: Address,
        vfee: u32,
        ffee: u32,
        fpath: Vec<PathStep>,
    ) -> (r: Result<(SwapSession, Action), BrokerError>)
        ensures
            self.settings.fee_token is None ==> r == Err::<(SwapSession, Action), BrokerError>(
                BrokerError::NotInitialized,
            ),
            self.settings.fee_token is Some ==> {
                &&& r is Ok
                &&& r->Ok_0.0.wf()
                &&& r->Ok_0.0.holds_request(
                    selling,
                    routes@,
                    trader,
                    broker,
                    vfee,
                    ffee,
                    fpath@,
                    self.settings.fee_token->0,
                    self.settings.protocols,
                )
                &&& r->Ok_0.1 == start_action(routes@, self.settings.protocols, self.settings.fee_token->0)
                &&& (r->Ok_0.1 is Fail || r->Ok_0.1 is Overflow) <==> r->Ok_0.0.phase == Phase::Aborted
            },
    {
        match self.settings.get_fee_token() {
            None => Err(BrokerError::NotInitialized),
            Some(fee_token) => Ok(
                SwapSession::start(
                    selling,
                    routes,
                    trader,
                    broker,
                    vfee,
                    ffee,
                    fpath,
                    fee_token,
                    self.settings.protocols,
                ),
            ),
        }
    }

    /// Moves accumulated fees out of the broker; the administrator must
    /// authorize the call. `Unauthorized` where there is none.
    pub fn withdraw(&self, broker: Address, dest: Address, token: Address, amount: i128) -> (r: Result<(Address, Action), BrokerError>)
        ensures
            self.settings.admin is None ==> r == Err::<(Address, Action), BrokerError>(BrokerError::Unauthorized),
            self.settings.admin is Some ==> r == Ok::<(Address, Action), BrokerError>(
                (self.settings.admin->0, Action::Transfer { token, from: broker, to: dest, amount }),
            ),
    {
        match self.settings.require_admin() {
            Ok(admin) => Ok((admin, Action::Transfer { token, from: broker, to: dest, amount })),
            Err(e) => Err(e),
        }
    }
}

} // verus!
