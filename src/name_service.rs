//! The naming registry: ownership records over a tree of hash-addressed
//! nodes, and resolution records attached to those nodes.
//!
//! The tree is implicit: the child of `node` under `label` lives at the key
//! `blake2_256(node ++ label)`, and no node stores a link to its parent.

use crate::bytes::{bytes_equal, copy_bytes};
use crate::error::ErrorKind;
use crate::hash::{subnode_hash, subnode_key, H256};
use crate::store::Store;
use vstd::prelude::*;

verus! {

/// Who owns a node, and for how long resolvers may cache it.
#[derive(Clone, Copy, Debug, PartialEq, Eq, Structural)]
pub struct NodeRecord {
    pub owner: u64,
    pub ttl: u64,
}

/// What a node resolves to; a field that was never set is `None`.
#[derive(Clone, Debug)]
pub struct ResolveRecord {
    pub addr: Option<u64>,
    pub name: Option<Vec<u8>>,
    pub profile: Option<H256>,
    pub zone: Option<Vec<u8>>,
}

/// A resolution record as plain values.
pub struct ResolveRecordView {
    pub addr: Option<u64>,
    pub name: Option<Seq<u8>>,
    pub profile: Option<Seq<u8>>,
    pub zone: Option<Seq<u8>>,
}

/// The bytes of an optional byte vector.
pub open spec fn opt_bytes(v: Option<Vec<u8>>) -> Option<Seq<u8>> {
    match v {
        Some(b) => Some(b@),
        None => None,
    }
}

/// The bytes of an optional hash.
pub open spec fn opt_hash(v: Option<H256>) -> Option<Seq<u8>> {
    match v {
        Some(h) => Some(h@),
        None => None,
    }
}

impl View for ResolveRecord {
    type V = ResolveRecordView;

    open spec fn view(&self) -> ResolveRecordView {
        ResolveRecordView {
            addr: self.addr,
            name: opt_bytes(self.name),
            profile: opt_hash(self.profile),
            zone: opt_bytes(self.zone),
        }
    }
}

/// The record that a node resolves to before any of its fields was set.
pub open spec fn empty_resolve_record() -> ResolveRecordView {
    ResolveRecordView { addr: None, name: None, profile: None, zone: None }
}

/// The key of the root node: the all-zero hash.
pub open spec fn zero_key() -> Seq<u8> {
    Seq::new(32, |_i: int| 0u8)
}

/// Whether a resolution record respects the bounds of `config`: a zone
/// that is set is short enough, and a name that is set has an accepted
/// length.
pub open spec fn resolve_bounded(config: NameServiceConfig, rec: ResolveRecordView) -> bool {
    &&& (rec.zone matches Some(z) ==> z.len() <= config.max_zone_length)
    &&& (rec.name matches Some(n) ==> config.min_name_length <= n.len()
        <= config.max_name_length)
}

/// The caller of a privileged operation.
#[derive(Clone, Copy, Debug, PartialEq, Eq, Structural)]
pub enum Origin {
    Root,
    Signed(u64),
    Unsigned,
}

/// The fixed parameters of a registry.
#[derive(Clone, Debug)]
pub struct NameServiceConfig {
    /// The shortest resolved name accepted.
    pub min_name_length: u32,
    /// The longest resolved name accepted.
    pub max_name_length: u32,
    /// The longest zone content accepted.
    pub max_zone_length: u32,
    /// The signed accounts that may set the root owner, besides the root origin.
    pub force_origins: Vec<u64>,
}

/// Why a registry operation was refused.
#[derive(Clone, Copy, Debug, PartialEq, Eq, Structural)]
pub enum NameError {
    BadOrigin,
    NodeNotFound,
    NotOwner,
    SameOwner,
    SameTtl,
    NameTooShort,
    NameTooLong,
    ZoneTooLong,
    SameAddr,
    SameName,
    SameProfile,
    SameZone,
}

/// The class of each registry refusal.
pub open spec fn name_error_kind(e: NameError) -> ErrorKind {
    match e {
        NameError::BadOrigin => ErrorKind::Unauthorized,
        NameError::NodeNotFound => ErrorKind::NotFound,
        NameError::NotOwner => ErrorKind::Unauthorized,
        NameError::NameTooShort => ErrorKind::InvalidInput,
        NameError::NameTooLong => ErrorKind::InvalidInput,
        NameError::ZoneTooLong => ErrorKind::InvalidInput,
        NameError::SameOwner => ErrorKind::NoOpRejected,
        NameError::SameTtl => ErrorKind::NoOpRejected,
        NameError::SameAddr => ErrorKind::NoOpRejected,
        NameError::SameName => ErrorKind::NoOpRejected,
        NameError::SameProfile => ErrorKind::NoOpRejected,
        NameError::SameZone => ErrorKind::NoOpRejected,
    }
}

impl NameError {
    /// The class of this refusal.
    pub fn kind(&self) -> (r: ErrorKind)
        ensures
            r == name_error_kind(*self),
    {
        match self {
            NameError::BadOrigin => ErrorKind::Unauthorized,
            NameError::NodeNotFound => ErrorKind::NotFound,
            NameError::NotOwner => ErrorKind::Unauthorized,
            NameError::NameTooShort => ErrorKind::InvalidInput,
            NameError::NameTooLong => ErrorKind::InvalidInput,
            NameError::ZoneTooLong => ErrorKind::InvalidInput,
            NameError::SameOwner => ErrorKind::NoOpRejected,
        NameError::SameTtl => ErrorKind::NoOpRejected,
        NameError::SameAddr => ErrorKind::NoOpRejected,
        NameError::SameName => ErrorKind::NoOpRejected,
        NameError::SameProfile => ErrorKind::NoOpRejected,
        NameError::SameZone => ErrorKind::NoOpRejected,
        }
    }
}

/// A notification of a successful registry operation.
#[derive(Clone, Debug)]
/// Each names its caller first.
pub enum NameEvent {
    RootChanged(Origin, u64),
    NewOwner(u64, H256, H256, u64),
    Transfer(u64, H256, u64),
    NewTtl(u64, H256, u64),
    ResolveAddrChanged(u64, H256, u64),
    ResolveNameChanged(u64, H256, Vec<u8>),
    ResolveProfileChanged(u64, H256, H256),
    ResolveZoneChanged(u64, H256, Vec<u8>),
}

/// A registry notification as plain values.
pub enum NameEventView {
    RootChanged(Origin, u64),
    NewOwner(u64, Seq<u8>, Seq<u8>, u64),
    Transfer(u64, Seq<u8>, u64),
    NewTtl(u64, Seq<u8>, u64),
    ResolveAddrChanged(u64, Seq<u8>, u64),
    ResolveNameChanged(u64, Seq<u8>, Seq<u8>),
    ResolveProfileChanged(u64, Seq<u8>, Seq<u8>),
    ResolveZoneChanged(u64, Seq<u8>, Seq<u8>),
}

impl View for NameEvent {
    type V = NameEventView;

    open spec fn view(&self) -> NameEventView {
        match self {
            NameEvent::RootChanged(o, a) => NameEventView::RootChanged(*o, *a),
            NameEvent::NewOwner(c, n, l, a) => NameEventView::NewOwner(*c, n@, l@, *a),
            NameEvent::Transfer(c, n, a) => NameEventView::Transfer(*c, n@, *a),
            NameEvent::NewTtl(c, n, t) => NameEventView::NewTtl(*c, n@, *t),
            NameEvent::ResolveAddrChanged(c, n, a) => NameEventView::ResolveAddrChanged(*c, n@, *a),
            NameEvent::ResolveNameChanged(c, n, v) => NameEventView::ResolveNameChanged(*c, n@, v@),
            NameEvent::ResolveProfileChanged(c, n, p) =>
                NameEventView::ResolveProfileChanged(*c, n@, p@),
            NameEvent::ResolveZoneChanged(c, n, z) => NameEventView::ResolveZoneChanged(*c, n@, z@),
        }
    }
}

/// Whether `origin` may set the owner of the root node.
pub open spec fn is_privileged(config: NameServiceConfig, origin: Origin) -> bool {
    match origin {
        Origin::Root => true,
        Origin::Signed(a) => config.force_origins@.contains(a),
        Origin::Unsigned => false,
    }
}

/// The refusal, if any, of an operation that only the owner of `node` may make.
pub open spec fn owner_check(nodes: Map<Seq<u8>, NodeRecord>, node: Seq<u8>, sender: u64) -> Result<
    (),
    NameError,
> {
    if !nodes.contains_key(node) {
        Err(NameError::NodeNotFound)
    } else if nodes[node].owner != sender {
        Err(NameError::NotOwner)
    } else {
        Ok(())
    }
}

/// The outcome of giving the node at `key` the owner `owner`, on its own.
pub open spec fn owner_change(nodes: Map<Seq<u8>, NodeRecord>, key: Seq<u8>, owner: u64) -> Result<
    (),
    NameError,
> {
    if nodes.contains_key(key) && nodes[key].owner == owner {
        Err(NameError::SameOwner)
    } else {
        Ok(())
    }
}

/// The record of the node at `key` once its owner is `owner`; a node
/// without a record starts with a ttl of zero.
pub open spec fn with_owner(nodes: Map<Seq<u8>, NodeRecord>, key: Seq<u8>, owner: u64) -> NodeRecord {
    if nodes.contains_key(key) {
        NodeRecord { owner, ..nodes[key] }
    } else {
        NodeRecord { owner, ttl: 0 }
    }
}

/// The resolution record of `node` as it stands, or the empty one.
pub open spec fn current_resolve(resolves: Map<Seq<u8>, ResolveRecordView>, node: Seq<u8>) -> ResolveRecordView {
    if resolves.contains_key(node) {
        resolves[node]
    } else {
        empty_resolve_record()
    }
}

/// The ownership and resolution records of a tree of names.
pub struct NameService {
    config: NameServiceConfig,
    node_store: Store<NodeRecord>,
    resolve_store: Store<ResolveRecord>,
    event_log: Vec<NameEvent>,
}

impl NameService {
    /// The fixed parameters.
    pub closed spec fn config(&self) -> NameServiceConfig {
        self.config
    }

    /// The ownership record of each node that has one.
    pub closed spec fn nodes(&self) -> Map<Seq<u8>, NodeRecord> {
        self.node_store@
    }

    /// The resolution record of each node that has one.
    pub closed spec fn resolves(&self) -> Map<Seq<u8>, ResolveRecordView> {
        self.resolve_store@.map_values(|r: ResolveRecord| r@)
    }

    /// The notifications of all successful operations, oldest first.
    pub closed spec fn events(&self) -> Seq<NameEventView> {
        self.event_log@.map_values(|e: NameEvent| e@)
    }

    /// The internal consistency of the stores: each stored zone and each
    /// name that was set respect the configured bounds.
    pub closed spec fn wf(&self) -> bool {
        &&& self.node_store.wf()
        &&& self.resolve_store.wf()
        &&& forall|k: Seq<u8>| #[trigger]
            self.resolves().contains_key(k) ==> resolve_bounded(self.config, self.resolves()[k])
    }

    /// A registry with no records.
    pub fn new(config: NameServiceConfig) -> (r: NameService)
        ensures
            r.wf(),
            r.config() == config,
            r.nodes() == Map::<Seq<u8>, NodeRecord>::empty(),
            r.resolves() == Map::<Seq<u8>, ResolveRecordView>::empty(),
            r.events() == Seq::<NameEventView>::empty(),
    {
        let r = NameService {
            config,
            node_store: Store::new(),
            resolve_store: Store::new(),
            event_log: Vec::new(),
        };
        assert(r.resolves() =~= Map::<Seq<u8>, ResolveRecordView>::empty());
        assert(r.events() =~= Seq::<NameEventView>::empty());
        r
    }

    /// The fixed parameters.
    pub fn get_config(&self) -> (r: &NameServiceConfig)
        ensures
            *r == self.config(),
    {
        &self.config
    }

    /// The notifications of all successful operations, oldest first.
    pub fn event_log(&self) -> (r: &Vec<NameEvent>)
        ensures
            r@.map_values(|e: NameEvent| e@) == self.events(),
    {
        &self.event_log
    }

    /// The ownership record of `node`, if it has one.
    pub fn node_of(&self, node: &H256) -> (r: Option<NodeRecord>)
        requires
            self.wf(),
        ensures
            r == (if self.nodes().contains_key(node@) {
                Some(self.nodes()[node@])
            } else {
                None
            }),
    {
        match self.node_store.get(node) {
            Some(rec) => Some(*rec),
            None => None,
        }
    }

    proof fn lemma_wf_frame(&self, other: &NameService)
        requires
            self.wf(),
            other.node_store.wf(),
            other.resolve_store == self.resolve_store,
            other.config == self.config,
        ensures
            other.wf(),
    {
        assert(other.resolves() == self.resolves());
    }

    fn push_event(&mut self, e: NameEvent)
        requires
            old(self).wf(),
        ensures
            final(self).wf(),
            final(self).config == old(self).config,
            final(self).node_store == old(self).node_store,
            final(self).resolve_store == old(self).resolve_store,
            final(self).events() == old(self).events().push(e@),
    {
        self.event_log.push(e);
        assert(self.events() =~= old(self).events().push(e@));
        proof {
            old(self).lemma_wf_frame(self);
        }
    }

    /// Refuses the operation unless `sender` owns `node`.
    fn only_owner(&self, node: &H256, sender: u64) -> (r: Result<(), NameError>)
        requires
            self.wf(),
        ensures
            r == owner_check(self.nodes(), node@, sender),
    {
        match self.node_store.get(node) {
            Some(rec) => {
                if rec.owner == sender {
                    Ok(())
                } else {
                    Err(NameError::NotOwner)
                }
            },
            None => Err(NameError::NodeNotFound),
        }
    }

    /// Gives the node at `key` the owner `owner`, creating its record if
    /// it has none; refused if `owner` already owns it.
    fn do_set_owner(&mut self, key: H256, owner: u64) -> (r: Result<(), NameError>)
        requires
            old(self).wf(),
        ensures
            final(self).wf(),
            r == owner_change(old(self).nodes(), key@, owner),
            r.is_err() ==> *final(self) == *old(self),
            r.is_ok() ==> final(self).nodes() == old(self).nodes().insert(
                key@,
                with_owner(old(self).nodes(), key@, owner),
            ),
            final(self).config == old(self).config,
            final(self).resolve_store == old(self).resolve_store,
            final(self).event_log == old(self).event_log,
    {
        let record = match self.node_store.get(&key) {
            Some(rec) => {
                if rec.owner == owner {
                    return Err(NameError::SameOwner);
                }
                NodeRecord { owner, ttl: rec.ttl }
            },
            None => NodeRecord { owner, ttl: 0 },
        };
        self.node_store.insert(key, record);
        proof {
            old(self).lemma_wf_frame(self);
        }
        Ok(())
    }
}

/// The outcome of `set_root_owner`.
pub open spec fn check_set_root_owner(
    config: NameServiceConfig,
    nodes: Map<Seq<u8>, NodeRecord>,
    origin: Origin,
    owner: u64,
) -> Result<(), NameError> {
    if !is_privileged(config, origin) {
        Err(NameError::BadOrigin)
    } else {
        owner_change(nodes, zero_key(), owner)
    }
}

/// The outcome of `set_owner`.
pub open spec fn check_set_owner(
    nodes: Map<Seq<u8>, NodeRecord>,
    sender: u64,
    node: Seq<u8>,
    owner: u64,
) -> Result<(), NameError> {
    match owner_check(nodes, node, sender) {
        Err(e) => Err(e),
        Ok(_) => owner_change(nodes, node, owner),
    }
}

/// The outcome of `set_subnode_owner`.
pub open spec fn check_set_subnode_owner(
    nodes: Map<Seq<u8>, NodeRecord>,
    sender: u64,
    node: Seq<u8>,
    label: Seq<u8>,
    owner: u64,
) -> Result<(), NameError> {
    match owner_check(nodes, node, sender) {
        Err(e) => Err(e),
        Ok(_) => owner_change(nodes, subnode_key(node, label), owner),
    }
}

/// The outcome of `set_ttl`.
pub open spec fn check_set_ttl(nodes: Map<Seq<u8>, NodeRecord>, sender: u64, node: Seq<u8>, ttl: u64) -> Result<
    (),
    NameError,
> {
    match owner_check(nodes, node, sender) {
        Err(e) => Err(e),
        Ok(_) => if nodes[node].ttl == ttl {
            Err(NameError::SameTtl)
        } else {
            Ok(())
        },
    }
}

/// The outcome of `set_resolve_addr`.
pub open spec fn check_set_resolve_addr(
    nodes: Map<Seq<u8>, NodeRecord>,
    resolves: Map<Seq<u8>, ResolveRecordView>,
    sender: u64,
    node: Seq<u8>,
    addr: u64,
) -> Result<(), NameError> {
    match owner_check(nodes, node, sender) {
        Err(e) => Err(e),
        Ok(_) => if resolves.contains_key(node) && resolves[node].addr == Some(addr) {
            Err(NameError::SameAddr)
        } else {
            Ok(())
        },
    }
}

/// The outcome of `set_resolve_name`.
pub open spec fn check_set_resolve_name(
    config: NameServiceConfig,
    nodes: Map<Seq<u8>, NodeRecord>,
    resolves: Map<Seq<u8>, ResolveRecordView>,
    sender: u64,
    node: Seq<u8>,
    name: Seq<u8>,
) -> Result<(), NameError> {
    match owner_check(nodes, node, sender) {
        Err(e) => Err(e),
        Ok(_) => if name.len() < config.min_name_length {
            Err(NameError::NameTooShort)
        } else if name.len() > config.max_name_length {
            Err(NameError::NameTooLong)
        } else if resolves.contains_key(node) && resolves[node].name == Some(name) {
            Err(NameError::SameName)
        } else {
            Ok(())
        },
    }
}

/// The outcome of `set_resolve_profile`.
pub open spec fn check_set_resolve_profile(
    nodes: Map<Seq<u8>, NodeRecord>,
    resolves: Map<Seq<u8>, ResolveRecordView>,
    sender: u64,
    node: Seq<u8>,
    profile: Seq<u8>,
) -> Result<(), NameError> {
    match owner_check(nodes, node, sender) {
        Err(e) => Err(e),
        Ok(_) => if resolves.contains_key(node) && resolves[node].profile == Some(profile) {
            Err(NameError::SameProfile)
        } else {
            Ok(())
        },
    }
}

/// The outcome of `set_resolve_zone`.
pub open spec fn check_set_resolve_zone(
    config: NameServiceConfig,
    nodes: Map<Seq<u8>, NodeRecord>,
    resolves: Map<Seq<u8>, ResolveRecordView>,
    sender: u64,
    node: Seq<u8>,
    zone: Seq<u8>,
) -> Result<(), NameError> {
    match owner_check(nodes, node, sender) {
        Err(e) => Err(e),
        Ok(_) => if zone.len() > config.max_zone_length {
            Err(NameError::ZoneTooLong)
        } else if resolves.contains_key(node) && resolves[node].zone == Some(zone) {
            Err(NameError::SameZone)
        } else {
            Ok(())
        },
    }
}

/// Whether `a` is one of `accounts`.
fn contains_account(accounts: &Vec<u64>, a: u64) -> (r: bool)
    ensures
        r == accounts@.contains(a),
{
    let mut i: usize = 0;
    while i < accounts.len()
        invariant
            0 <= i <= accounts.len(),
            forall|j: int| 0 <= j < i ==> accounts@[j] != a,
        decreases accounts.len() - i,
    {
        if accounts[i] == a {
            return true;
        }
        i = i + 1;
    }
    false
}

impl NameService {
    /// Gives the root node the owner `owner`; only a privileged origin may.
    pub fn set_root_owner(&mut self, origin: Origin, owner: u64) -> (r: Result<(), NameError>)
        requires
            old(self).wf(),
        ensures
            final(self).wf(),
            r == check_set_root_owner(old(self).config(), old(self).nodes(), origin, owner),
            r.is_err() ==> *final(self) == *old(self),
            r.is_ok() ==> {
                &&& final(self).config() == old(self).config()
                &&& final(self).nodes() == old(self).nodes().insert(
                    zero_key(),
                    with_owner(old(self).nodes(), zero_key(), owner),
                )
                &&& final(self).resolves() == old(self).resolves()
                &&& final(self).events() == old(self).events().push(
                    NameEventView::RootChanged(origin, owner),
                )
            },
    {
        let privileged = match origin {
            Origin::Root => true,
            Origin::Signed(a) => contains_account(&self.config.force_origins, a),
            Origin::Unsigned => false,
        };
        if !privileged {
            return Err(NameError::BadOrigin);
        }
        let root = H256::zero();
        proof {
            assert(root@ == zero_key());
        }
        self.do_set_owner(root, owner)?;
        self.push_event(NameEvent::RootChanged(origin, owner));
        Ok(())
    }

    /// Gives `node` the owner `owner`; only its current owner may.
    pub fn set_owner(&mut self, sender: u64, node: H256, owner: u64) -> (r: Result<(), NameError>)
        requires
            old(self).wf(),
        ensures
            final(self).wf(),
            r == check_set_owner(old(self).nodes(), sender, node@, owner),
            r.is_err() ==> *final(self) == *old(self),
            r.is_ok() ==> {
                &&& final(self).config() == old(self).config()
                &&& final(self).nodes() == old(self).nodes().insert(
                    node@,
                    with_owner(old(self).nodes(), node@, owner),
                )
                &&& final(self).resolves() == old(self).resolves()
                &&& final(self).events() == old(self).events().push(
                    NameEventView::Transfer(sender, node@, owner),
                )
            },
    {
        self.only_owner(&node, sender)?;
        self.do_set_owner(node, owner)?;
        self.push_event(NameEvent::Transfer(sender, node, owner));
        Ok(())
    }

    /// Gives the child of `node` under `label` the owner `owner`, creating
    /// its record if it has none; only the owner of `node` may.
    pub fn set_subnode_owner(&mut self, sender: u64, node: H256, label: H256, owner: u64) -> (r:
        Result<(), NameError>)
        requires
            old(self).wf(),
        ensures
            final(self).wf(),
            r == check_set_subnode_owner(old(self).nodes(), sender, node@, label@, owner),
            r.is_err() ==> *final(self) == *old(self),
            r.is_ok() ==> {
                &&& final(self).config() == old(self).config()
                &&& final(self).nodes() == old(self).nodes().insert(
                    subnode_key(node@, label@),
                    with_owner(old(self).nodes(), subnode_key(node@, label@), owner),
                )
                &&& final(self).resolves() == old(self).resolves()
                &&& final(self).events() == old(self).events().push(
                    NameEventView::NewOwner(sender, node@, label@, owner),
                )
            },
    {
        self.only_owner(&node, sender)?;
        let subnode = subnode_hash(&node, &label);
        self.do_set_owner(subnode, owner)?;
        self.push_event(NameEvent::NewOwner(sender, node, label, owner));
        Ok(())
    }

    /// Sets the ttl of `node`; only its owner may.
    pub fn set_ttl(&mut self, sender: u64, node: H256, ttl: u64) -> (r: Result<(), NameError>)
        requires
            old(self).wf(),
        ensures
            final(self).wf(),
            r == check_set_ttl(old(self).nodes(), sender, node@, ttl),
            r.is_err() ==> *final(self) == *old(self),
            r.is_ok() ==> {
                &&& final(self).config() == old(self).config()
                &&& final(self).nodes() == old(self).nodes().insert(
                    node@,
                    NodeRecord { ttl, ..old(self).nodes()[node@] },
                )
                &&& final(self).resolves() == old(self).resolves()
                &&& final(self).events() == old(self).events().push(NameEventView::NewTtl(sender, node@, ttl))
            },
    {
        self.only_owner(&node, sender)?;
        let record = match self.node_store.get(&node) {
            Some(rec) => *rec,
            None => {
                return Err(NameError::NodeNotFound);
            },
        };
        if record.ttl == ttl {
            return Err(NameError::SameTtl);
        }
        self.node_store.insert(node, NodeRecord { owner: record.owner, ttl });
        proof {
            old(self).lemma_wf_frame(self);
        }
        self.push_event(NameEvent::NewTtl(sender, node, ttl));
        Ok(())
    }
}

impl NameService {
    /// Sets the addr of the resolution record of `node`, creating the record
    /// if it has none; refused if the record already holds that addr.
    fn do_set_resolve_addr(&mut self, node: H256, addr: u64) -> (r: Result<(), NameError>)
        requires
            old(self).wf(),
        ensures
            final(self).wf(),
            r == (if old(self).resolves().contains_key(node@) && old(self).resolves()[node@].addr
                == Some(addr) {
                Err(NameError::SameAddr)
            } else {
                Ok(())
            }),
            r.is_err() ==> *final(self) == *old(self),
            r.is_ok() ==> final(self).resolves() == old(self).resolves().insert(
                node@,
                ResolveRecordView { addr: Some(addr), ..current_resolve(old(self).resolves(), node@) },
            ),
            final(self).config == old(self).config,
            final(self).node_store == old(self).node_store,
            final(self).event_log == old(self).event_log,
    {
        let record = match self.resolve_store.get(&node) {
            Some(rec) => {
                if rec.addr == Some(addr) {
                    return Err(NameError::SameAddr);
                }
                ResolveRecord {
                    addr: Some(addr),
                    name: copy_opt_bytes(&rec.name),
                    profile: rec.profile,
                    zone: copy_opt_bytes(&rec.zone),
                }
            },
            None => ResolveRecord {
                addr: Some(addr),
                name: None,
                profile: None,
                zone: None,
            },
        };
        let ghost v = record@;
        self.resolve_store.insert(node, record);
        proof {
            assert(self.resolves() =~= old(self).resolves().insert(node@, v));
        }
        Ok(())
    }

    /// Sets the name of the resolution record of `node`, creating the record
    /// if it has none; refused if the record already holds that name.
    fn do_set_resolve_name(&mut self, node: H256, name: &Vec<u8>) -> (r: Result<(), NameError>)
        requires
            old(self).wf(),
            old(self).config.min_name_length <= name.len() <= old(self).config.max_name_length,
        ensures
            final(self).wf(),
            r == (if old(self).resolves().contains_key(node@) && old(self).resolves()[node@].name
                == Some(name@) {
                Err(NameError::SameName)
            } else {
                Ok(())
            }),
            r.is_err() ==> *final(self) == *old(self),
            r.is_ok() ==> final(self).resolves() == old(self).resolves().insert(
                node@,
                ResolveRecordView { name: Some(name@), ..current_resolve(old(self).resolves(), node@) },
            ),
            final(self).config == old(self).config,
            final(self).node_store == old(self).node_store,
            final(self).event_log == old(self).event_log,
    {
        let record = match self.resolve_store.get(&node) {
            Some(rec) => {
                if same_bytes(&rec.name, name) {
                    return Err(NameError::SameName);
                }
                ResolveRecord {
                    addr: rec.addr,
                    name: Some(copy_bytes(name)),
                    profile: rec.profile,
                    zone: copy_opt_bytes(&rec.zone),
                }
            },
            None => ResolveRecord {
                addr: None,
                name: Some(copy_bytes(name)),
                profile: None,
                zone: None,
            },
        };
        let ghost v = record@;
        self.resolve_store.insert(node, record);
        proof {
            assert(self.resolves() =~= old(self).resolves().insert(node@, v));
        }
        Ok(())
    }

    /// Sets the profile of the resolution record of `node`, creating the record
    /// if it has none; refused if the record already holds that profile.
    fn do_set_resolve_profile(&mut self, node: H256, profile: H256) -> (r: Result<(), NameError>)
        requires
            old(self).wf(),
        ensures
            final(self).wf(),
            r == (if old(self).resolves().contains_key(node@) && old(self).resolves()[node@].profile
                == Some(profile@) {
                Err(NameError::SameProfile)
            } else {
                Ok(())
            }),
            r.is_err() ==> *final(self) == *old(self),
            r.is_ok() ==> final(self).resolves() == old(self).resolves().insert(
                node@,
                ResolveRecordView { profile: Some(profile@), ..current_resolve(old(self).resolves(), node@) },
            ),
            final(self).config == old(self).config,
            final(self).node_store == old(self).node_store,
            final(self).event_log == old(self).event_log,
    {
        let record = match self.resolve_store.get(&node) {
            Some(rec) => {
                if rec.profile == Some(profile) {
                    return Err(NameError::SameProfile);
                }
                ResolveRecord {
                    addr: rec.addr,
                    name: copy_opt_bytes(&rec.name),
                    profile: Some(profile),
                    zone: copy_opt_bytes(&rec.zone),
                }
            },
            None => ResolveRecord {
                addr: None,
                name: None,
                profile: Some(profile),
                zone: None,
            },
        };
        let ghost v = record@;
        self.resolve_store.insert(node, record);
        proof {
            assert(self.resolves() =~= old(self).resolves().insert(node@, v));
        }
        Ok(())
    }

    /// Sets the zone of the resolution record of `node`, creating the record
    /// if it has none; refused if the record already holds that zone.
    fn do_set_resolve_zone(&mut self, node: H256, zone: &Vec<u8>) -> (r: Result<(), NameError>)
        requires
            old(self).wf(),
            zone.len() <= old(self).config.max_zone_length,
        ensures
            final(self).wf(),
            r == (if old(self).resolves().contains_key(node@) && old(self).resolves()[node@].zone
                == Some(zone@) {
                Err(NameError::SameZone)
            } else {
                Ok(())
            }),
            r.is_err() ==> *final(self) == *old(self),
            r.is_ok() ==> final(self).resolves() == old(self).resolves().insert(
                node@,
                ResolveRecordView { zone: Some(zone@), ..current_resolve(old(self).resolves(), node@) },
            ),
            final(self).config == old(self).config,
            final(self).node_store == old(self).node_store,
            final(self).event_log == old(self).event_log,
    {
        let record = match self.resolve_store.get(&node) {
            Some(rec) => {
                if same_bytes(&rec.zone, zone) {
                    return Err(NameError::SameZone);
                }
                ResolveRecord {
                    addr: rec.addr,
                    name: copy_opt_bytes(&rec.name),
                    profile: rec.profile,
                    zone: Some(copy_bytes(zone)),
                }
            },
            None => ResolveRecord {
                addr: None,
                name: None,
                profile: None,
                zone: Some(copy_bytes(zone)),
            },
        };
        let ghost v = record@;
        self.resolve_store.insert(node, record);
        proof {
            assert(self.resolves() =~= old(self).resolves().insert(node@, v));
        }
        Ok(())
    }

    /// Sets the addr that `node` resolves to; only the owner of `node` may.
    pub fn set_resolve_addr(&mut self, sender: u64, node: H256, addr: u64) -> (r: Result<(), NameError>)
        requires
            old(self).wf(),
        ensures
            final(self).wf(),
            r == check_set_resolve_addr(
                old(self).nodes(),
                old(self).resolves(),
                sender,
                node@,
                addr,
            ),
            r.is_err() ==> *final(self) == *old(self),
            r.is_ok() ==> {
                &&& final(self).config() == old(self).config()
                &&& final(self).nodes() == old(self).nodes()
                &&& final(self).resolves() == old(self).resolves().insert(
                    node@,
                    ResolveRecordView { addr: Some(addr), ..current_resolve(old(self).resolves(), node@) },
                )
                &&& final(self).events() == old(self).events().push(
                    NameEventView::ResolveAddrChanged(sender, node@, addr),
                )
            },
    {
        self.only_owner(&node, sender)?;
        self.do_set_resolve_addr(node, addr)?;
        self.push_event(NameEvent::ResolveAddrChanged(sender, node, addr));
        Ok(())
    }

    /// Sets the name that `node` resolves to; only the owner of `node` may.
    pub fn set_resolve_name(&mut self, sender: u64, node: H256, name: Vec<u8>) -> (r: Result<(), NameError>)
        requires
            old(self).wf(),
        ensures
            final(self).wf(),
            r == check_set_resolve_name(
                old(self).config(),
                old(self).nodes(),
                old(self).resolves(),
                sender,
                node@,
                name@,
            ),
            r.is_err() ==> *final(self) == *old(self),
            r.is_ok() ==> {
                &&& final(self).config() == old(self).config()
                &&& final(self).nodes() == old(self).nodes()
                &&& final(self).resolves() == old(self).resolves().insert(
                    node@,
                    ResolveRecordView { name: Some(name@), ..current_resolve(old(self).resolves(), node@) },
                )
                &&& final(self).events() == old(self).events().push(
                    NameEventView::ResolveNameChanged(sender, node@, name@),
                )
            },
    {
        self.only_owner(&node, sender)?;
        if name.len() < self.config.min_name_length as usize {
            return Err(NameError::NameTooShort);
        }
        if name.len() > self.config.max_name_length as usize {
            return Err(NameError::NameTooLong);
        }
        self.do_set_resolve_name(node, &name)?;
        self.push_event(NameEvent::ResolveNameChanged(sender, node, name));
        Ok(())
    }

    /// Sets the profile that `node` resolves to; only the owner of `node` may.
    pub fn set_resolve_profile(&mut self, sender: u64, node: H256, profile: H256) -> (r: Result<(), NameError>)
        requires
            old(self).wf(),
        ensures
            final(self).wf(),
            r == check_set_resolve_profile(
                old(self).nodes(),
                old(self).resolves(),
                sender,
                node@,
                profile@,
            ),
            r.is_err() ==> *final(self) == *old(self),
            r.is_ok() ==> {
                &&& final(self).config() == old(self).config()
                &&& final(self).nodes() == old(self).nodes()
                &&& final(self).resolves() == old(self).resolves().insert(
                    node@,
                    ResolveRecordView { profile: Some(profile@), ..current_resolve(old(self).resolves(), node@) },
                )
                &&& final(self).events() == old(self).events().push(
                    NameEventView::ResolveProfileChanged(sender, node@, profile@),
                )
            },
    {
        self.only_owner(&node, sender)?;
        self.do_set_resolve_profile(node, profile)?;
        self.push_event(NameEvent::ResolveProfileChanged(sender, node, profile));
        Ok(())
    }

    /// Sets the zone that `node` resolves to; only the owner of `node` may.
    pub fn set_resolve_zone(&mut self, sender: u64, node: H256, zone: Vec<u8>) -> (r: Result<(), NameError>)
        requires
            old(self).wf(),
        ensures
            final(self).wf(),
            r == check_set_resolve_zone(
                old(self).config(),
                old(self).nodes(),
                old(self).resolves(),
                sender,
                node@,
                zone@,
            ),
            r.is_err() ==> *final(self) == *old(self),
            r.is_ok() ==> {
                &&& final(self).config() == old(self).config()
                &&& final(self).nodes() == old(self).nodes()
                &&& final(self).resolves() == old(self).resolves().insert(
                    node@,
                    ResolveRecordView { zone: Some(zone@), ..current_resolve(old(self).resolves(), node@) },
                )
                &&& final(self).events() == old(self).events().push(
                    NameEventView::ResolveZoneChanged(sender, node@, zone@),
                )
            },
    {
        self.only_owner(&node, sender)?;
        if zone.len() > self.config.max_zone_length as usize {
            return Err(NameError::ZoneTooLong);
        }
        self.do_set_resolve_zone(node, &zone)?;
        self.push_event(NameEvent::ResolveZoneChanged(sender, node, zone));
        Ok(())
    }
}

/// A copy of an optional byte vector.
fn copy_opt_bytes(v: &Option<Vec<u8>>) -> (r: Option<Vec<u8>>)
    ensures
        opt_bytes(r) == opt_bytes(*v),
{
    match v {
        Some(b) => Some(copy_bytes(b)),
        None => None,
    }
}

/// Whether an optional byte vector is set to the bytes of `b`.
fn same_bytes(v: &Option<Vec<u8>>, b: &Vec<u8>) -> (r: bool)
    ensures
        r == (opt_bytes(*v) == Some(b@)),
{
    match v {
        Some(a) => bytes_equal(a, b),
        None => false,
    }
}

/// Answers which records name hashes resolve to.
pub trait NameServiceResolver {
    /// The internal consistency that the lookups rely on.
    spec fn inv(&self) -> bool;

    /// The record that `node` resolves to, if any.
    spec fn resolved(&self, node: Seq<u8>) -> Option<ResolveRecordView>;

    /// The record that `node` resolves to, if any.
    fn resolve(&self, node: &H256) -> (r: Option<ResolveRecord>)
        requires
            self.inv(),
        ensures
            match r {
                Some(rec) => self.resolved(node@) == Some(rec@),
                None => self.resolved(node@).is_none(),
            },
    ;

    /// The account that `node` resolves to, if it has one.
    fn resolve_addr(&self, node: &H256) -> (r: Option<u64>)
        requires
            self.inv(),
        ensures
            r == match self.resolved(node@) {
                Some(rec) => rec.addr,
                None => None,
            },
    ;

    /// The name that `node` resolves to, if it has one.
    fn resolve_name(&self, node: &H256) -> (r: Option<Vec<u8>>)
        requires
            self.inv(),
        ensures
            opt_bytes(r) == match self.resolved(node@) {
                Some(rec) => rec.name,
                None => None,
            },
    ;

    /// The profile hash that `node` resolves to, if it has one.
    fn resolve_profile(&self, node: &H256) -> (r: Option<H256>)
        requires
            self.inv(),
        ensures
            opt_hash(r) == match self.resolved(node@) {
                Some(rec) => rec.profile,
                None => None,
            },
    ;

    /// The zone content that `node` resolves to, if it has one.
    fn resolve_zone(&self, node: &H256) -> (r: Option<Vec<u8>>)
        requires
            self.inv(),
        ensures
            opt_bytes(r) == match self.resolved(node@) {
                Some(rec) => rec.zone,
                None => None,
            },
    ;
}

impl NameServiceResolver for NameService {
    open spec fn inv(&self) -> bool {
        self.wf()
    }

    open spec fn resolved(&self, node: Seq<u8>) -> Option<ResolveRecordView> {
        if self.resolves().contains_key(node) {
            Some(self.resolves()[node])
        } else {
            None
        }
    }

    fn resolve(&self, node: &H256) -> (r: Option<ResolveRecord>) {
        match self.resolve_store.get(node) {
            Some(rec) => Some(
                ResolveRecord {
                    addr: rec.addr,
                    name: copy_opt_bytes(&rec.name),
                    profile: rec.profile,
                    zone: copy_opt_bytes(&rec.zone),
                },
            ),
            None => None,
        }
    }

    fn resolve_addr(&self, node: &H256) -> (r: Option<u64>) {
        match self.resolve_store.get(node) {
            Some(rec) => rec.addr,
            None => None,
        }
    }

    fn resolve_name(&self, node: &H256) -> (r: Option<Vec<u8>>) {
        match self.resolve_store.get(node) {
            Some(rec) => copy_opt_bytes(&rec.name),
            None => None,
        }
    }

    fn resolve_profile(&self, node: &H256) -> (r: Option<H256>) {
        match self.resolve_store.get(node) {
            Some(rec) => rec.profile,
            None => None,
        }
    }

    fn resolve_zone(&self, node: &H256) -> (r: Option<Vec<u8>>) {
        match self.resolve_store.get(node) {
            Some(rec) => copy_opt_bytes(&rec.zone),
            None => None,
        }
    }
}

/// Submitting the value that a node or its resolution record already holds
/// is refused as a no-op, for the owner, the ttl and each resolved field
/// that is set; each of these operations leaves the state unchanged when it
/// is refused.
pub proof fn lemma_same_value_rejected(
    s: NameService,
    origin: Origin,
    sender: u64,
    node: Seq<u8>,
    label: Seq<u8>,
)
    requires
        s.wf(),
    ensures
        is_privileged(s.config(), origin) && s.nodes().contains_key(zero_key()) ==> check_set_root_owner(
            s.config(),
            s.nodes(),
            origin,
            s.nodes()[zero_key()].owner,
        ) == Err::<(), NameError>(NameError::SameOwner),
        owner_check(s.nodes(), node, sender) is Ok ==> {
            &&& check_set_owner(s.nodes(), sender, node, s.nodes()[node].owner) == Err::<
                (),
                NameError,
            >(NameError::SameOwner)
            &&& check_set_ttl(s.nodes(), sender, node, s.nodes()[node].ttl) == Err::<(), NameError>(
                NameError::SameTtl,
            )
            &&& s.nodes().contains_key(subnode_key(node, label)) ==> check_set_subnode_owner(
                s.nodes(),
                sender,
                node,
                label,
                s.nodes()[subnode_key(node, label)].owner,
            ) == Err::<(), NameError>(NameError::SameOwner)
        },
        owner_check(s.nodes(), node, sender) is Ok && s.resolves().contains_key(node) ==> {
            let rec = s.resolves()[node];
            &&& rec.addr matches Some(a) ==> check_set_resolve_addr(
                s.nodes(),
                s.resolves(),
                sender,
                node,
                a,
            ) == Err::<(), NameError>(NameError::SameAddr)
            &&& rec.profile matches Some(p) ==> check_set_resolve_profile(
                s.nodes(),
                s.resolves(),
                sender,
                node,
                p,
            ) == Err::<(), NameError>(NameError::SameProfile)
            &&& rec.zone matches Some(z) ==> check_set_resolve_zone(
                s.config(),
                s.nodes(),
                s.resolves(),
                sender,
                node,
                z,
            ) == Err::<(), NameError>(NameError::SameZone)
            &&& rec.name matches Some(n) ==> check_set_resolve_name(
                s.config(),
                s.nodes(),
                s.resolves(),
                sender,
                node,
                n,
            ) == Err::<(), NameError>(NameError::SameName)
        },
{
    if owner_check(s.nodes(), node, sender) is Ok && s.resolves().contains_key(node) {
        assert(resolve_bounded(s.config(), s.resolves()[node]));
    }
}

/// Once `set_subnode_owner(sender, node, label, a)` succeeds, the child
/// node is owned by `a`, and any other account is refused as not the owner
/// by every operation on that node, until its owner changes again.
pub proof fn lemma_subnode_owner_controls(
    nodes: Map<Seq<u8>, NodeRecord>,
    resolves: Map<Seq<u8>, ResolveRecordView>,
    config: NameServiceConfig,
    sender: u64,
    node: Seq<u8>,
    label: Seq<u8>,
    a: u64,
    other: u64,
)
    requires
        check_set_subnode_owner(nodes, sender, node, label, a) is Ok,
        other != a,
    ensures
        ({
            let k = subnode_key(node, label);
            let after = nodes.insert(k, with_owner(nodes, k, a));
            &&& after.contains_key(k)
            &&& after[k].owner == a
            &&& owner_check(after, k, a) == Ok::<(), NameError>(())
            &&& owner_check(after, k, other) == Err::<(), NameError>(NameError::NotOwner)
            &&& forall|x: u64| #[trigger]
                check_set_owner(after, other, k, x) == Err::<(), NameError>(NameError::NotOwner)
            &&& forall|t: u64| #[trigger]
                check_set_ttl(after, other, k, t) == Err::<(), NameError>(NameError::NotOwner)
            &&& forall|l: Seq<u8>, x: u64| #[trigger]
                check_set_subnode_owner(after, other, k, l, x) == Err::<(), NameError>(
                    NameError::NotOwner,
                )
            &&& forall|x: u64| #[trigger]
                check_set_resolve_addr(after, resolves, other, k, x) == Err::<(), NameError>(
                    NameError::NotOwner,
                )
            &&& forall|x: Seq<u8>| #[trigger]
                check_set_resolve_name(config, after, resolves, other, k, x) == Err::<(), NameError>(
                    NameError::NotOwner,
                )
            &&& forall|x: Seq<u8>| #[trigger]
                check_set_resolve_profile(after, resolves, other, k, x) == Err::<(), NameError>(
                    NameError::NotOwner,
                )
            &&& forall|x: Seq<u8>| #[trigger]
                check_set_resolve_zone(config, after, resolves, other, k, x) == Err::<(), NameError>(
                    NameError::NotOwner,
                )
        }),
{
}

} // verus!
