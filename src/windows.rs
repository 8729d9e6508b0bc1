//! The adapter-address list of Windows (`GetAdaptersAddresses`): the
//! buffer-growth protocol, and the walk over a plain-value copy of the
//! adapter and unicast-address records.
use vstd::prelude::*;
use crate::decode::{decode_v4, decode_v6, v4_spec, v6_spec, SOCKADDR_IN6_LEN, SOCKADDR_IN_LEN};
use crate::model::{views, EnumerationError, Interface, InterfaceView, Kind};

verus! {

/// Family tag of IPv4 socket addresses on Windows.
pub const AF_INET: i32 = 2;
/// Family tag of IPv6 socket addresses on Windows.
pub const AF_INET6: i32 = 23;

/// Status of `GetAdaptersAddresses`: the buffer holds the adapter list.
pub const ERROR_SUCCESS: u32 = 0;
/// Status of `GetAdaptersAddresses`: not enough memory.
pub const ERROR_NOT_ENOUGH_MEMORY: u32 = 8;
/// Status of `GetAdaptersAddresses`: a parameter is invalid.
pub const ERROR_INVALID_PARAMETER: u32 = 87;
/// Status of `GetAdaptersAddresses`: the buffer is too small; the size
/// argument now holds the size required.
pub const ERROR_BUFFER_OVERFLOW: u32 = 111;
/// Status of `GetAdaptersAddresses`: no address was found.
pub const ERROR_NO_DATA: u32 = 232;
/// Status of `GetAdaptersAddresses`: no address is associated yet.
pub const ERROR_ADDRESS_NOT_ASSOCIATED: u32 = 1228;

/// Capacity of the first buffer handed to the system.
pub const PREALLOC_ADAPTERS_LEN: usize = 15360;
/// How many calls are made at most before giving up on a growing buffer.
pub const MAX_ATTEMPTS: u32 = 8;

/// Origin of an address prefix.
#[derive(Clone, Copy, Debug, PartialEq, Eq, Structural)]
pub enum IpPrefixOrigin {
    IpPrefixOriginOther,
    IpPrefixOriginManual,
    IpPrefixOriginWellKnown,
    IpPrefixOriginDhcp,
    IpPrefixOriginRouterAdvertisement,
    IpPrefixOriginUnchanged,
}

/// Origin of an address suffix.
#[derive(Clone, Copy, Debug, PartialEq, Eq, Structural)]
pub enum IpSuffixOrigin {
    IpSuffixOriginOther,
    IpSuffixOriginManual,
    IpSuffixOriginWellKnown,
    IpSuffixOriginDhcp,
    IpSuffixOriginLinkLayerAddress,
    IpSuffixOriginRandom,
    IpSuffixOriginUnchanged,
}

/// Duplicate-address-detection state of a unicast address.
#[derive(Clone, Copy, Debug, PartialEq, Eq, Structural)]
pub enum IpDadState {
    IpDadStateInvalid,
    IpDadStateTentative,
    IpDadStateDuplicate,
    IpDadStateDeprecated,
    IpDadStatePreferred,
}

/// Operational status of an adapter.
#[derive(Clone, Copy, Debug, PartialEq, Eq, Structural)]
pub enum IfOperStatus {
    IfOperStatusUp,
    IfOperStatusDown,
    IfOperStatusTesting,
    IfOperStatusUnknown,
    IfOperStatusDormant,
    IfOperStatusNotPresent,
    IfOperStatusLowerLayerDown,
}

/// Connection type of an adapter.
#[derive(Clone, Copy, Debug, PartialEq, Eq, Structural)]
pub enum NetIfConnectionType {
    NetIfConnectionDedicated,
    NetIfConnectionPassive,
    NetIfConnectionDemand,
    NetIfConnectionMaximum,
}

/// Tunnel type of an adapter.
#[derive(Clone, Copy, Debug, PartialEq, Eq, Structural)]
pub enum TunnelType {
    TunnelTypeNone,
    TunnelTypeOther,
    TunnelTypeDirect,
    TunnelType6To4,
    TunnelTypeIsatap,
    TunnelTypeTeredo,
    TunnelTypeIpHttps,
}

/// The value the system uses for a duplicate-address-detection state.
pub open spec fn dad_state_value(s: IpDadState) -> u32 {
    match s {
        IpDadState::IpDadStateInvalid => 0,
        IpDadState::IpDadStateTentative => 1,
        IpDadState::IpDadStateDuplicate => 2,
        IpDadState::IpDadStateDeprecated => 3,
        IpDadState::IpDadStatePreferred => 4,
    }
}

impl IpDadState {
    /// The state the system means by `v`; `None` for a value it does not use.
    pub fn from_value(v: u32) -> (r: Option<IpDadState>)
        ensures
            v <= 4 ==> r.is_some() && dad_state_value(r.unwrap()) == v,
            v > 4 ==> r.is_none(),
    {
        match v {
            0 => Some(IpDadState::IpDadStateInvalid),
            1 => Some(IpDadState::IpDadStateTentative),
            2 => Some(IpDadState::IpDadStateDuplicate),
            3 => Some(IpDadState::IpDadStateDeprecated),
            4 => Some(IpDadState::IpDadStatePreferred),
            _ => None,
        }
    }
}

/// One unicast-address record of an adapter: its declared length, its
/// socket address (family tag and bytes) and its state.
#[derive(Clone, Debug)]
pub struct IpAdapterUnicastAddress {
    pub length: u32,
    pub family: i32,
    pub address: Vec<u8>,
    pub dad_state: IpDadState,
}

/// One adapter record: its IPv6 interface index and its unicast-address
/// records in list order.
#[derive(Clone, Debug)]
pub struct IpAdapterAddresses {
    pub ipv6_if_index: u32,
    pub first_unicast_address: Vec<IpAdapterUnicastAddress>,
}

/// The binding a unicast record yields, if any. Deprecated and zero-length
/// records yield none, nor do records of another family or too short for
/// theirs. An IPv6 binding takes its scope id from the adapter.
pub open spec fn unicast_spec(u: IpAdapterUnicastAddress, scope_id: u32) -> Option<InterfaceView> {
    if u.dad_state == IpDadState::IpDadStateDeprecated || u.length == 0 {
        None
    } else if u.family == AF_INET && u.address@.len() >= SOCKADDR_IN_LEN {
        Some(
            InterfaceView {
                name: Seq::empty(),
                kind: Kind::Ipv4,
                addr: Some(v4_spec(u.address@, 0)),
                mask: None,
                hop: None,
            },
        )
    } else if u.family == AF_INET6 && u.address@.len() >= SOCKADDR_IN6_LEN {
        Some(
            InterfaceView {
                name: Seq::empty(),
                kind: Kind::Ipv6,
                addr: Some(v6_spec(u.address@, 0, scope_id)),
                mask: None,
                hop: None,
            },
        )
    } else {
        None
    }
}

/// The bindings of a list of unicast records, in list order.
pub open spec fn unicasts_spec(us: Seq<IpAdapterUnicastAddress>, scope_id: u32) -> Seq<InterfaceView>
    decreases us.len(),
{
    if us.len() == 0 {
        seq![]
    } else {
        match unicast_spec(us[0], scope_id) {
            Some(v) => seq![v] + unicasts_spec(us.drop_first(), scope_id),
            None => unicasts_spec(us.drop_first(), scope_id),
        }
    }
}

/// The bindings of a list of adapters, adapter by adapter.
pub open spec fn adapters_spec(adapters: Seq<IpAdapterAddresses>) -> Seq<InterfaceView>
    decreases adapters.len(),
{
    if adapters.len() == 0 {
        seq![]
    } else {
        unicasts_spec(adapters[0].first_unicast_address@, adapters[0].ipv6_if_index)
            + adapters_spec(adapters.drop_first())
    }
}

/// The binding of one unicast record of an adapter whose IPv6 interface
/// index is `scope_id`.
pub fn unicast_interface(u: &IpAdapterUnicastAddress, scope_id: u32) -> (r: Option<Interface>)
    ensures
        r.is_some() == unicast_spec(*u, scope_id).is_some(),
        r.is_some() ==> r.unwrap()@ == unicast_spec(*u, scope_id).unwrap(),
{
    if u.dad_state == IpDadState::IpDadStateDeprecated || u.length == 0 {
        return None;
    }
    if u.family == AF_INET {
        match decode_v4(&u.address, 0) {
            Some(a) => Some(
                Interface { name: String::new(), kind: Kind::Ipv4, addr: Some(a), mask: None, hop: None },
            ),
            None => None,
        }
    } else if u.family == AF_INET6 {
        match decode_v6(&u.address, 0, scope_id) {
            Some(a) => Some(
                Interface { name: String::new(), kind: Kind::Ipv6, addr: Some(a), mask: None, hop: None },
            ),
            None => None,
        }
    } else {
        None
    }
}

/// Walks the adapters and, within each, its unicast records, gathering
/// their bindings.
pub fn map_adapter_addresses(adapters: &Vec<IpAdapterAddresses>) -> (r: Vec<Interface>)
    ensures
        views(r@) == adapters_spec(adapters@),
{
    let mut r: Vec<Interface> = Vec::new();
    let mut i: usize = 0;
    assert(adapters@.skip(0) =~= adapters@);
    assert(views(r@) + adapters_spec(adapters@) =~= adapters_spec(adapters@));
    while i < adapters.len()
        invariant
            i <= adapters@.len(),
            views(r@) + adapters_spec(adapters@.skip(i as int)) == adapters_spec(adapters@),
        decreases adapters@.len() - i,
    {
        let adapter = &adapters[i];
        let us = &adapter.first_unicast_address;
        let scope_id = adapter.ipv6_if_index;
        let ghost tail = adapters_spec(adapters@.skip(i + 1));
        assert(adapters@.skip(i as int).drop_first() =~= adapters@.skip(i + 1));
        assert(us@.skip(0) =~= us@);
        let mut j: usize = 0;
        while j < us.len()
            invariant
                i < adapters@.len(),
                us == &adapters@[i as int].first_unicast_address,
                scope_id == adapters@[i as int].ipv6_if_index,
                tail == adapters_spec(adapters@.skip(i + 1)),
                j <= us@.len(),
                views(r@) + unicasts_spec(us@.skip(j as int), scope_id) + tail == adapters_spec(adapters@),
            decreases us@.len() - j,
        {
            assert(us@.skip(j as int).drop_first() =~= us@.skip(j + 1));
            let ghost before = r@;
            match unicast_interface(&us[j], scope_id) {
                Some(itf) => {
                    let ghost v = itf@;
                    r.push(itf);
                    assert(views(r@) =~= views(before).push(v));
                    assert(views(r@) + unicasts_spec(us@.skip(j + 1), scope_id) =~= views(before) + (
                    seq![v] + unicasts_spec(us@.skip(j + 1), scope_id)));
                },
                None => {},
            }
            j = j + 1;
        }
        assert(us@.skip(j as int) =~= seq![]);
        assert(views(r@) + unicasts_spec(us@.skip(j as int), scope_id) =~= views(r@));
        i = i + 1;
    }
    assert(adapters@.skip(i as int) =~= seq![]);
    assert(views(r@) =~= adapters_spec(adapters@));
    r
}


/// The interface list once the buffer has been acquired, or the error that
/// ended its acquisition.
pub fn ifaces(acquired: Result<(), EnumerationError>, adapters: &Vec<IpAdapterAddresses>) -> (r: Result<
    Vec<Interface>,
    EnumerationError,
>)
    ensures
        acquired.is_ok() ==> r.is_ok() && views(r.unwrap()@) == adapters_spec(adapters@),
        acquired.is_err() ==> r == Err::<Vec<Interface>, EnumerationError>(acquired.get_Err_0()),
{
    match acquired {
        Ok(()) => Ok(map_adapter_addresses(adapters)),
        Err(e) => Err(e),
    }
}

/// What to do after a call of the sizing query.
#[derive(Clone, Copy, Debug, PartialEq, Eq, Structural)]
pub enum Action {
    /// The buffer holds the full record chain.
    Ready,
    /// Grow the buffer to this capacity and call again.
    Call(usize),
    /// Give up with this error.
    Failed(EnumerationError),
}

/// The state of a buffer acquisition: the capacity handed to the next call,
/// and the number of calls made so far.
#[derive(Clone, Copy, Debug, PartialEq, Eq, Structural)]
pub struct Acquisition {
    pub capacity: usize,
    pub attempts: u32,
}

/// The error for a status code that is neither success nor overflow.
pub open spec fn status_error(status: u32) -> EnumerationError {
    if status == ERROR_ADDRESS_NOT_ASSOCIATED {
        EnumerationError::AddressNotAssociated
    } else if status == ERROR_INVALID_PARAMETER {
        EnumerationError::InvalidParameter
    } else if status == ERROR_NOT_ENOUGH_MEMORY {
        EnumerationError::OutOfMemory
    } else if status == ERROR_NO_DATA {
        EnumerationError::NoData
    } else {
        EnumerationError::Other
    }
}

/// The next state and action after a call that answered `status` and, on
/// overflow, the `required` size. An overflow asks for a call with exactly
/// the required capacity, unless the calls are used up.
pub open spec fn step_spec(s: Acquisition, status: u32, required: u32) -> (Acquisition, Action) {
    if status == ERROR_SUCCESS {
        (s, Action::Ready)
    } else if status == ERROR_BUFFER_OVERFLOW {
        if s.attempts + 1 < MAX_ATTEMPTS {
            (
                Acquisition { capacity: required as usize, attempts: (s.attempts + 1) as u32 },
                Action::Call(required as usize),
            )
        } else {
            (s, Action::Failed(EnumerationError::TooManyRetries))
        }
    } else {
        (s, Action::Failed(status_error(status)))
    }
}

/// Maps a failing status code to its error.
pub fn status_to_error(status: u32) -> (r: EnumerationError)
    ensures
        r == status_error(status),
{
    if status == ERROR_ADDRESS_NOT_ASSOCIATED {
        EnumerationError::AddressNotAssociated
    } else if status == ERROR_INVALID_PARAMETER {
        EnumerationError::InvalidParameter
    } else if status == ERROR_NOT_ENOUGH_MEMORY {
        EnumerationError::OutOfMemory
    } else if status == ERROR_NO_DATA {
        EnumerationError::NoData
    } else {
        EnumerationError::Other
    }
}

impl Acquisition {
    /// A fresh acquisition: no call made yet, the first with the initial
    /// capacity.
    pub fn new() -> (r: Acquisition)
        ensures
            r.capacity == PREALLOC_ADAPTERS_LEN,
            r.attempts == 0,
    {
        Acquisition { capacity: PREALLOC_ADAPTERS_LEN, attempts: 0 }
    }

    /// Records the answer of one call and says what to do next.
    pub fn local_ifaces_with_buffer(&mut self, status: u32, required: u32) -> (r: Action)
        ensures
            (*final(self), r) == step_spec(*old(self), status, required),
    {
        if status == ERROR_SUCCESS {
            Action::Ready
        } else if status == ERROR_BUFFER_OVERFLOW {
            if self.attempts < MAX_ATTEMPTS - 1 {
                self.capacity = required as usize;
                self.attempts = self.attempts + 1;
                Action::Call(required as usize)
            } else {
                Action::Failed(EnumerationError::TooManyRetries)
            }
        } else {
            Action::Failed(status_to_error(status))
        }
    }
}

/// After an overflow that reports the required size `required`, the next
/// call is made with a capacity of at least `required`, and when that call
/// succeeds the acquisition is done.
pub proof fn lemma_grow_then_ready(s: Acquisition, required: u32, later: u32)
    requires
        s.attempts + 1 < MAX_ATTEMPTS,
    ensures
        step_spec(s, ERROR_BUFFER_OVERFLOW, required).1 == Action::Call(required as usize),
        step_spec(s, ERROR_BUFFER_OVERFLOW, required).0.capacity >= required,
        step_spec(step_spec(s, ERROR_BUFFER_OVERFLOW, required).0, ERROR_SUCCESS, later).1
            == Action::Ready,
{
}

/// Every call that is asked for counts one attempt, and none is asked for
/// once the attempts are used up: the acquisition ends.
pub proof fn lemma_acquisition_ends(s: Acquisition, status: u32, required: u32)
    ensures
        step_spec(s, status, required).1 is Call ==> step_spec(s, status, required).0.attempts
            == s.attempts + 1 && step_spec(s, status, required).0.attempts < MAX_ATTEMPTS,
        s.attempts + 1 >= MAX_ATTEMPTS ==> !(step_spec(s, status, required).1 is Call),
{
}

/// A record that yields no binding changes nothing where it is inserted in
/// an adapter's list: the walk goes on to the next record.
pub proof fn lemma_silent_record_changes_nothing(
    us: Seq<IpAdapterUnicastAddress>,
    k: int,
    u: IpAdapterUnicastAddress,
    scope_id: u32,
)
    requires
        0 <= k <= us.len(),
        unicast_spec(u, scope_id).is_none(),
    ensures
        unicasts_spec(us.insert(k, u), scope_id) == unicasts_spec(us, scope_id),
    decreases k,
{
    if k == 0 {
        assert(us.insert(k, u).drop_first() =~= us);
    } else {
        assert(us.insert(k, u).drop_first() =~= us.drop_first().insert(k - 1, u));
        assert(us.insert(k, u)[0] == us[0]);
        lemma_silent_record_changes_nothing(us.drop_first(), k - 1, u, scope_id);
    }
}

/// A deprecated record never yields a binding, whatever its address, and
/// the walk over an adapter's list gathers the same with or without it.
pub proof fn lemma_deprecated_never_emitted(
    us: Seq<IpAdapterUnicastAddress>,
    k: int,
    u: IpAdapterUnicastAddress,
    scope_id: u32,
)
    requires
        0 <= k <= us.len(),
        u.dad_state == IpDadState::IpDadStateDeprecated,
    ensures
        unicast_spec(u, scope_id).is_none(),
        unicasts_spec(us.insert(k, u), scope_id) == unicasts_spec(us, scope_id),
{
    lemma_silent_record_changes_nothing(us, k, u, scope_id);
}

/// A zero-length record yields no binding, and the walk over an adapter's
/// list continues past it to the next record.
pub proof fn lemma_zero_length_skipped(
    us: Seq<IpAdapterUnicastAddress>,
    k: int,
    u: IpAdapterUnicastAddress,
    scope_id: u32,
)
    requires
        0 <= k <= us.len(),
        u.length == 0,
    ensures
        unicast_spec(u, scope_id).is_none(),
        unicasts_spec(us.insert(k, u), scope_id) == unicasts_spec(us, scope_id),
{
    lemma_silent_record_changes_nothing(us, k, u, scope_id);
}

/// Two adapter lists whose adapters yield the same bindings, one by one,
/// yield the same bindings in all.
pub proof fn lemma_adapters_same_bindings(a1: Seq<IpAdapterAddresses>, a2: Seq<IpAdapterAddresses>)
    requires
        a1.len() == a2.len(),
        forall|i: int|
            0 <= i < a1.len() ==> unicasts_spec(#[trigger] a1[i].first_unicast_address@, a1[i].ipv6_if_index)
                == unicasts_spec(a2[i].first_unicast_address@, a2[i].ipv6_if_index),
    ensures
        adapters_spec(a1) == adapters_spec(a2),
    decreases a1.len(),
{
    if a1.len() > 0 {
        assert forall|i: int| 0 <= i < a1.drop_first().len() implies unicasts_spec(
            #[trigger] a1.drop_first()[i].first_unicast_address@,
            a1.drop_first()[i].ipv6_if_index,
        ) == unicasts_spec(a2.drop_first()[i].first_unicast_address@, a2.drop_first()[i].ipv6_if_index) by {
            assert(a1.drop_first()[i] == a1[i + 1]);
            assert(a2.drop_first()[i] == a2[i + 1]);
        }
        lemma_adapters_same_bindings(a1.drop_first(), a2.drop_first());
    }
}

/// Deprecated and zero-length records never reach the output: where such a
/// record is inserted in the list of one adapter, the walk over all the
/// adapters gathers exactly what it gathered without it.
pub proof fn lemma_silent_record_invisible_in_walk(
    a1: Seq<IpAdapterAddresses>,
    a2: Seq<IpAdapterAddresses>,
    n: int,
    k: int,
    u: IpAdapterUnicastAddress,
)
    requires
        u.dad_state == IpDadState::IpDadStateDeprecated || u.length == 0,
        a1.len() == a2.len(),
        0 <= n < a1.len(),
        0 <= k <= a1[n].first_unicast_address@.len(),
        a2[n].first_unicast_address@ == a1[n].first_unicast_address@.insert(k, u),
        forall|i: int| 0 <= i < a1.len() ==> #[trigger] a1[i].ipv6_if_index == a2[i].ipv6_if_index,
        forall|i: int|
            0 <= i < a1.len() && i != n ==> #[trigger] a1[i].first_unicast_address@
                == a2[i].first_unicast_address@,
    ensures
        adapters_spec(a2) == adapters_spec(a1),
{
    lemma_silent_record_changes_nothing(a1[n].first_unicast_address@, k, u, a1[n].ipv6_if_index);
    assert forall|i: int| 0 <= i < a1.len() implies unicasts_spec(
        #[trigger] a1[i].first_unicast_address@,
        a1[i].ipv6_if_index,
    ) == unicasts_spec(a2[i].first_unicast_address@, a2[i].ipv6_if_index) by {
        if i != n {
            assert(a1[i].first_unicast_address@ == a2[i].first_unicast_address@);
        }
    }
    lemma_adapters_same_bindings(a1, a2);
}

/// No interface of unknown kind is ever gathered from the adapters.
pub proof fn lemma_adapters_have_no_unknown(adapters: Seq<IpAdapterAddresses>)
    ensures
        forall|i: int|
            0 <= i < adapters_spec(adapters).len() ==> #[trigger] adapters_spec(adapters)[i].kind
                != Kind::Unknown,
    decreases adapters.len(),
{
    if adapters.len() > 0 {
        lemma_unicasts_have_no_unknown(adapters[0].first_unicast_address@, adapters[0].ipv6_if_index);
        lemma_adapters_have_no_unknown(adapters.drop_first());
    }
}

/// No interface of unknown kind is ever gathered from unicast records.
pub proof fn lemma_unicasts_have_no_unknown(us: Seq<IpAdapterUnicastAddress>, scope_id: u32)
    ensures
        forall|i: int|
            0 <= i < unicasts_spec(us, scope_id).len() ==> #[trigger] unicasts_spec(us, scope_id)[i].kind
                != Kind::Unknown,
    decreases us.len(),
{
    if us.len() > 0 {
        lemma_unicasts_have_no_unknown(us.drop_first(), scope_id);
    }
}

} // verus!
