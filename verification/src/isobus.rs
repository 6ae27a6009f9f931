//! The facade that ties the stack together, and the one-byte bus address.

use vstd::prelude::*;

use crate::dll::DataLinkLayer;
use crate::driver::CanDriverTrait;
use crate::name::Name;
use crate::network::spec_has_name;
use crate::network::spec_lookup;
use crate::network::ConnectError;
use crate::network::NetworkManager;
use crate::pdu::PDU;

verus! {

/// The global (broadcast) address, `0xFF`.
pub const ADDRESS_GLOBAL: u8 = 0xFF;

/// The null address, `0xFE`, used before an address is claimed.
pub const ADDRESS_NULL: u8 = 0xFE;

/// Lowest address a self-configurable node may claim.
pub const ADDRESS_CLAIM_FIRST: u8 = 0x80;

/// Highest address a self-configurable node may claim.
pub const ADDRESS_CLAIM_LAST: u8 = 0xF7;

/// One ISOBUS network address.
#[derive(Clone, Copy, PartialEq, Eq, Structural, Debug)]
pub struct IsobusAddress(pub u8);

impl IsobusAddress {
    /// The null address, `0xFE`.
    pub fn null() -> (r: IsobusAddress)
        ensures
            r.0 == ADDRESS_NULL,
    {
        IsobusAddress(ADDRESS_NULL)
    }

    /// The global (broadcast) address, `0xFF`.
    pub fn global() -> (r: IsobusAddress)
        ensures
            r.0 == ADDRESS_GLOBAL,
    {
        IsobusAddress(ADDRESS_GLOBAL)
    }

    pub fn as_u8(&self) -> (r: u8)
        ensures
            r == self.0,
    {
        self.0
    }
}

impl Default for IsobusAddress {
    /// An address defaults to the null address.
    fn default() -> (r: Self)
        ensures
            r.0 == ADDRESS_NULL,
    {
        IsobusAddress(ADDRESS_NULL)
    }
}

/// The lifecycle of the facade's own connection attempt.
#[derive(PartialEq, Eq, Structural, Clone, Copy, Debug)]
pub enum IsobusState {
    Disconnected,
    Connecting,
    Connected,
}

/// The facade: owns the driver (through the data-link layer) and the
/// network manager, and drives both once per tick.
pub struct Isobus<D: CanDriverTrait> {
    name: Name,
    canbus_id: u8,
    address_to_claim: IsobusAddress,
    state: IsobusState,
    dll: DataLinkLayer<D>,
    network_manager: NetworkManager,
}

impl<D: CanDriverTrait> Isobus<D> {
    pub closed spec fn spec_dll(&self) -> DataLinkLayer<D> {
        self.dll
    }

    pub closed spec fn spec_network(&self) -> NetworkManager {
        self.network_manager
    }

    pub closed spec fn spec_name(&self) -> Name {
        self.name
    }

    pub open spec fn wf(self) -> bool {
        self.spec_dll().wf()
    }

    pub fn builder() -> (r: IsobusBuilder)
        ensures
            r.name is None,
            r.canbus_id is None,
            r.address_to_claim is None,
    {
        IsobusBuilder { name: None, canbus_id: None, address_to_claim: None }
    }

    /// One tick: drain and filter the bus, drive the address claim while it
    /// is not complete, and feed everything received to the network
    /// manager. Returns the received messages.
    ///
    /// Every returned message passed the destination filter for the claimed
    /// address or is one of this node's own transport sends, completed.
    pub fn process(&mut self, time: u64) -> (r: Vec<PDU>)
        requires
            old(self).wf(),
        ensures
            final(self).wf(),
            final(self).spec_name() == old(self).spec_name(),
            final(self).spec_dll().spec_written().len() >= old(self).spec_dll().spec_written().len(),
            final(self).spec_dll().spec_written().subrange(
                0,
                old(self).spec_dll().spec_written().len() as int,
            ) == old(self).spec_dll().spec_written(),
            ({
                let claimed = match spec_lookup(
                    old(self).spec_network().view().nodes,
                    old(self).spec_network().spec_name(),
                ) {
                    Some(a) => a,
                    None => ADDRESS_NULL,
                };
                forall|i: int|
                    0 <= i < r@.len() ==> (#[trigger] r@[i]).spec_is_address_global()
                        || r@[i].spec_is_address_specific(claimed) || old(self).spec_dll().spec_was_outbound(r@[i])
            }),
            // A cold start speaks first: the tick that finds the claim not
            // yet begun puts a request for claimed addresses on the wire.
            old(self).spec_network().view().state is NotConnected && !spec_has_name(
                old(self).spec_network().view().nodes,
                old(self).spec_network().spec_name(),
            ) ==> exists|j: int|
                old(self).spec_dll().spec_written().len() <= j
                    < final(self).spec_dll().spec_written().len()
                    && #[trigger] crate::network::spec_is_claim_request(
                    final(self).spec_dll().spec_written()[j],
                ),
    {
        let claimed = self.network_manager.claimed_address();
        let pdus = self.dll.process(claimed, time);
        if !self.is_connected() {
            self.connect(time);
        }
        let ghost wb = self.dll.spec_written();
        self.network_manager.process(&pdus, &mut self.dll, time);
        proof {
            assert(self.dll.spec_written().subrange(
                0,
                old(self).spec_dll().spec_written().len() as int,
            ) =~= old(self).spec_dll().spec_written());
            assert forall|k: int| 0 <= k < wb.len() implies #[trigger] self.dll.spec_written()[k]
                == wb[k] by {
                assert(self.dll.spec_written().subrange(0, wb.len() as int)[k] == wb[k]);
            }
        }
        pdus
    }

    /// Drive the address claim one step while it has not completed.
    fn connect(&mut self, time: u64)
        requires
            old(self).wf(),
        ensures
            final(self).wf(),
            final(self).spec_name() == old(self).spec_name(),
            final(self).spec_dll().spec_written().len() >= old(self).spec_dll().spec_written().len(),
            final(self).spec_dll().spec_written().subrange(
                0,
                old(self).spec_dll().spec_written().len() as int,
            ) == old(self).spec_dll().spec_written(),
            old(self).spec_network().view().state is NotConnected
                ==> final(self).spec_dll().spec_written().len()
                == old(self).spec_dll().spec_written().len() + 1
                && crate::network::spec_is_claim_request(final(self).spec_dll().spec_written().last()),
    {
        match self.network_manager.connect(&mut self.dll, Some(self.address_to_claim), time) {
            Ok(_) => {
                self.state = IsobusState::Connected;
            },
            Err(ConnectError::WouldBlock) => {
                self.state = IsobusState::Connecting;
            },
            Err(ConnectError::Failed(_)) => {},
        }
    }

    /// Give up the claimed address and restart from cold.
    pub fn disconnect(&mut self)
        requires
            old(self).wf(),
        ensures
            final(self).wf(),
            final(self).spec_name() == old(self).spec_name(),
            final(self).spec_network().view().state is NotConnected,
            // The own Name gives its address back to the null address.
            final(self).spec_network().view().nodes == (if spec_has_name(
                old(self).spec_network().view().nodes,
                old(self).spec_network().spec_name(),
            ) {
                crate::network::spec_upsert(
                    old(self).spec_network().view().nodes,
                    old(self).spec_network().spec_name(),
                    IsobusAddress(ADDRESS_NULL),
                )
            } else {
                old(self).spec_network().view().nodes
            }),
    {
        self.network_manager.disconnect();
        self.state = IsobusState::Disconnected;
    }

    /// Whether this node currently holds a claimed address.
    pub fn is_connected(&self) -> (r: bool)
        ensures
            r == spec_has_name(self.spec_network().view().nodes, self.spec_network().spec_name()),
    {
        self.network_manager.is_connected()
    }

    /// The claimed address, or the null address before a claim completes.
    pub fn claimed_address(&self) -> (r: IsobusAddress)
        ensures
            r.0 == (match spec_lookup(
                self.spec_network().view().nodes,
                self.spec_network().spec_name(),
            ) {
                Some(a) => a,
                None => ADDRESS_NULL,
            }),
    {
        self.network_manager.claimed_address()
    }

    /// Send one message, dispatched by size as the data-link layer does:
    /// at most eight bytes go to the driver as exactly one frame.
    pub fn send(&mut self, pdu: PDU, time: u64)
        requires
            old(self).wf(),
        ensures
            final(self).wf(),
            final(self).spec_name() == old(self).spec_name(),
            final(self).spec_network() == old(self).spec_network(),
            final(self).spec_dll().spec_written().len() >= old(self).spec_dll().spec_written().len(),
            final(self).spec_dll().spec_written().subrange(
                0,
                old(self).spec_dll().spec_written().len() as int,
            ) == old(self).spec_dll().spec_written(),
            pdu.spec_data().len() <= 8 ==> final(self).spec_dll().spec_tp() == old(self).spec_dll().spec_tp() && final(self).spec_dll().spec_etp() == old(self).spec_dll().spec_etp()
                && final(self).spec_dll().spec_written() == old(self).spec_dll().spec_written().push(pdu),
            9 <= pdu.spec_data().len() <= crate::tp::TP_MAX_BYTES && old(self).spec_dll().spec_tp().spec_is_idle() ==> final(self).spec_dll().spec_tp().spec_pdu_to_send() == Some(pdu),
            9 <= pdu.spec_data().len() <= crate::tp::TP_MAX_BYTES && !old(self).spec_dll().spec_tp().spec_is_idle() ==> final(self).spec_dll().spec_tp().spec_backlog() == old(self).spec_dll().spec_tp().spec_backlog().push(pdu),
    {
        self.dll.send(pdu, time);
        proof {
            assert(self.dll.spec_written().subrange(
                0,
                old(self).spec_dll().spec_written().len() as int,
            ) =~= old(self).spec_dll().spec_written());
        }
    }
}

/// Gathers the identity and preferences an `Isobus` instance starts with.
pub struct IsobusBuilder {
    pub name: Option<Name>,
    pub canbus_id: Option<u8>,
    pub address_to_claim: Option<IsobusAddress>,
}

impl IsobusBuilder {
    pub fn new() -> (r: IsobusBuilder)
        ensures
            r.name is None,
            r.canbus_id is None,
            r.address_to_claim is None,
    {
        IsobusBuilder { name: None, canbus_id: None, address_to_claim: None }
    }

    /// Build the facade around the given driver; missing fields default to
    /// the zero Name, bus 0 and the first self-configurable address.
    pub fn build<D: CanDriverTrait>(&self, driver: D) -> (r: Isobus<D>)
        ensures
            r.wf(),
            self.name matches Some(n) ==> r.spec_name() == n,
            self.name is None ==> r.spec_name().spec_value() == 0,
            r.spec_network().spec_name() == r.spec_name(),
            r.spec_network().view().state is NotConnected,
            r.spec_network().view().nodes == Seq::<(Name, IsobusAddress)>::empty(),
    {
        let name = match self.name {
            Some(n) => n,
            None => {
                proof {
                    assert(0u64 | (0u64) << 8 | (0u64) << 16 | (0u64) << 24 | (0u64) << 32 | (
                    0u64) << 40 | (0u64) << 48 | (0u64) << 56 == 0) by (bit_vector);
                }
                Name::from_bytes(&[])
            },
        };
        let canbus_id = match self.canbus_id {
            Some(id) => id,
            None => 0,
        };
        let address_to_claim = match self.address_to_claim {
            Some(a) => a,
            None => IsobusAddress(128),
        };
        Isobus {
            name,
            canbus_id,
            address_to_claim,
            state: IsobusState::Disconnected,
            dll: DataLinkLayer::new(driver),
            network_manager: NetworkManager::new(name),
        }
    }

    pub fn name(self, name: Name) -> (r: Self)
        ensures
            r.name == Some(name),
            r.canbus_id == self.canbus_id,
            r.address_to_claim == self.address_to_claim,
    {
        IsobusBuilder { name: Some(name), ..self }
    }

    pub fn canbus_id(self, id: u8) -> (r: Self)
        ensures
            r.canbus_id == Some(id),
            r.name == self.name,
            r.address_to_claim == self.address_to_claim,
    {
        IsobusBuilder { canbus_id: Some(id), ..self }
    }

    pub fn address_to_claim(self, address: IsobusAddress) -> (r: Self)
        ensures
            r.address_to_claim == Some(address),
            r.name == self.name,
            r.canbus_id == self.canbus_id,
    {
        IsobusBuilder { address_to_claim: Some(address), ..self }
    }
}

} // verus!
