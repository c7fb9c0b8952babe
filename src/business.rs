//! The business registry and the product provenance ledger.
//!
//! A business is created by the holder of the scope identity, administers
//! a whitelist of name hashes through its owner identity, and expires at a
//! given height. Whitelisted identities create products and append
//! timestamped records to them; records are never edited or removed.
//! Identities are checked through a `NameServiceResolver`.

use crate::bytes::{bytes_equal, copy_bytes};
use crate::error::ErrorKind;
use crate::hash::{business_hash, business_key, product_hash, product_key, H256};
use crate::name_service::NameServiceResolver;
use crate::store::Store;
use vstd::prelude::*;

verus! {

/// A registered business.
#[derive(Clone, Debug)]
pub struct Business {
    /// The account that created it.
    pub creator: u64,
    /// The name hash of its owner identity.
    pub owner: H256,
    /// Its name.
    pub name: Vec<u8>,
    /// The name hashes that may record products for it, in order of admission.
    pub whitelist: Vec<H256>,
    /// The height from which it is expired.
    pub expiration: u64,
}

/// A business as plain values.
pub struct BusinessView {
    pub creator: u64,
    pub owner: Seq<u8>,
    pub name: Seq<u8>,
    pub whitelist: Seq<Seq<u8>>,
    pub expiration: u64,
}

/// The views of a sequence of hashes.
pub open spec fn hashes_view(v: Seq<H256>) -> Seq<Seq<u8>> {
    v.map_values(|h: H256| h@)
}

impl View for Business {
    type V = BusinessView;

    open spec fn view(&self) -> BusinessView {
        BusinessView {
            creator: self.creator,
            owner: self.owner@,
            name: self.name@,
            whitelist: hashes_view(self.whitelist@),
            expiration: self.expiration,
        }
    }
}

/// One record in the history of a product.
#[derive(Clone, Debug)]
pub struct ProductInfo {
    /// The account that made the record.
    pub creator: u64,
    /// The height at which it was made.
    pub created_at: u64,
    /// The hash of the recorded data.
    pub data_hash: H256,
    /// Free-form details.
    pub extra: Vec<u8>,
}

/// A product record as plain values.
pub struct ProductInfoView {
    pub creator: u64,
    pub created_at: u64,
    pub data_hash: Seq<u8>,
    pub extra: Seq<u8>,
}

impl View for ProductInfo {
    type V = ProductInfoView;

    open spec fn view(&self) -> ProductInfoView {
        ProductInfoView {
            creator: self.creator,
            created_at: self.created_at,
            data_hash: self.data_hash@,
            extra: self.extra@,
        }
    }
}

/// A product and its history.
#[derive(Clone, Debug)]
pub struct Product {
    /// Its sequence id, unique within its business.
    pub seq_id: Vec<u8>,
    /// Its records, oldest first.
    pub infos: Vec<ProductInfo>,
}

/// A product as plain values.
pub struct ProductView {
    pub seq_id: Seq<u8>,
    pub infos: Seq<ProductInfoView>,
}

impl View for Product {
    type V = ProductView;

    open spec fn view(&self) -> ProductView {
        ProductView {
            seq_id: self.seq_id@,
            infos: self.infos@.map_values(|i: ProductInfo| i@),
        }
    }
}

/// The fixed parameters of a ledger.
#[derive(Clone, Copy, Debug)]
pub struct BusinessConfig {
    /// The shortest business name accepted.
    pub min_length: u32,
    /// The longest business name accepted.
    pub max_length: u32,
    /// The longest zone content accepted.
    pub max_zone_length: u32,
    /// The identity that may create businesses and change their expiration.
    pub scope_name_hash: H256,
    /// The longest product sequence id accepted.
    pub max_seq_id_length: u32,
    /// The longest extra information accepted in a product record.
    pub max_extra_length: u32,
    /// The most records a product may hold.
    pub max_product_info_count: u32,
}

/// Why a ledger operation was refused.
#[derive(Clone, Copy, Debug, PartialEq, Eq, Structural)]
pub enum BusinessError {
    NotAuthorized,
    NameTooShort,
    NameTooLong,
    Expired,
    BusinessExists,
    BusinessNotFound,
    SameExpiration,
    AlreadyInWhitelist,
    NotInWhitelist,
    NotWhitelisted,
    SeqIdTooLong,
    ExtraTooLong,
    ProductExists,
    ProductNotFound,
    SeqIdMismatch,
    InfoLimitExceeded,
    CounterOverflow,
    NonceExhausted,
}

/// The class of each ledger refusal.
pub open spec fn business_error_kind(e: BusinessError) -> ErrorKind {
    match e {
        BusinessError::NotAuthorized => ErrorKind::Unauthorized,
        BusinessError::NameTooShort => ErrorKind::InvalidInput,
        BusinessError::NameTooLong => ErrorKind::InvalidInput,
        BusinessError::Expired => ErrorKind::Expired,
        BusinessError::BusinessExists => ErrorKind::AlreadyExists,
        BusinessError::BusinessNotFound => ErrorKind::NotFound,
        BusinessError::SameExpiration => ErrorKind::NoOpRejected,
        BusinessError::AlreadyInWhitelist => ErrorKind::AlreadyExists,
        BusinessError::NotInWhitelist => ErrorKind::NotFound,
        BusinessError::NotWhitelisted => ErrorKind::NotWhitelisted,
        BusinessError::SeqIdTooLong => ErrorKind::InvalidInput,
        BusinessError::ExtraTooLong => ErrorKind::InvalidInput,
        BusinessError::ProductExists => ErrorKind::AlreadyExists,
        BusinessError::ProductNotFound => ErrorKind::NotFound,
        BusinessError::SeqIdMismatch => ErrorKind::InvalidInput,
        BusinessError::InfoLimitExceeded => ErrorKind::LimitExceeded,
        BusinessError::CounterOverflow => ErrorKind::LimitExceeded,
        BusinessError::NonceExhausted => ErrorKind::LimitExceeded,
    }
}

impl BusinessError {
    /// The class of this refusal.
    pub fn kind(&self) -> (r: ErrorKind)
        ensures
            r == business_error_kind(*self),
    {
        match self {
            BusinessError::NotAuthorized => ErrorKind::Unauthorized,
            BusinessError::NameTooShort => ErrorKind::InvalidInput,
            BusinessError::NameTooLong => ErrorKind::InvalidInput,
            BusinessError::Expired => ErrorKind::Expired,
            BusinessError::BusinessExists => ErrorKind::AlreadyExists,
            BusinessError::BusinessNotFound => ErrorKind::NotFound,
            BusinessError::SameExpiration => ErrorKind::NoOpRejected,
            BusinessError::AlreadyInWhitelist => ErrorKind::AlreadyExists,
            BusinessError::NotInWhitelist => ErrorKind::NotFound,
            BusinessError::NotWhitelisted => ErrorKind::NotWhitelisted,
            BusinessError::SeqIdTooLong => ErrorKind::InvalidInput,
            BusinessError::ExtraTooLong => ErrorKind::InvalidInput,
            BusinessError::ProductExists => ErrorKind::AlreadyExists,
            BusinessError::ProductNotFound => ErrorKind::NotFound,
            BusinessError::SeqIdMismatch => ErrorKind::InvalidInput,
            BusinessError::InfoLimitExceeded => ErrorKind::LimitExceeded,
            BusinessError::CounterOverflow => ErrorKind::LimitExceeded,
            BusinessError::NonceExhausted => ErrorKind::LimitExceeded,
        }
    }
}

/// A notification of a successful ledger operation.
#[derive(Clone, Debug)]
pub enum BusinessEvent {
    BusinessCreated(u64, H256),
    BusinessExpirationChanged(u64, H256, u64),
    BusinessWhitelistChanged(u64, H256, Vec<H256>),
    ProductCreated(u64, H256, Vec<u8>, H256),
    ProductInfoAppended(u64, H256, Vec<u8>, H256),
}

/// A ledger notification as plain values.
pub enum BusinessEventView {
    BusinessCreated(u64, Seq<u8>),
    BusinessExpirationChanged(u64, Seq<u8>, u64),
    BusinessWhitelistChanged(u64, Seq<u8>, Seq<Seq<u8>>),
    ProductCreated(u64, Seq<u8>, Seq<u8>, Seq<u8>),
    ProductInfoAppended(u64, Seq<u8>, Seq<u8>, Seq<u8>),
}

impl View for BusinessEvent {
    type V = BusinessEventView;

    open spec fn view(&self) -> BusinessEventView {
        match self {
            BusinessEvent::BusinessCreated(a, b) => BusinessEventView::BusinessCreated(*a, b@),
            BusinessEvent::BusinessExpirationChanged(a, b, e) =>
                BusinessEventView::BusinessExpirationChanged(*a, b@, *e),
            BusinessEvent::BusinessWhitelistChanged(a, b, w) =>
                BusinessEventView::BusinessWhitelistChanged(*a, b@, hashes_view(w@)),
            BusinessEvent::ProductCreated(a, b, s, p) =>
                BusinessEventView::ProductCreated(*a, b@, s@, p@),
            BusinessEvent::ProductInfoAppended(a, b, s, p) =>
                BusinessEventView::ProductInfoAppended(*a, b@, s@, p@),
        }
    }
}

/// Whether `name_hash` resolves to the account `sender`; a name whose
/// address was never set authorizes nobody.
pub open spec fn authorized<R: NameServiceResolver>(resolver: &R, sender: u64, name_hash: Seq<u8>) -> bool {
    match resolver.resolved(name_hash) {
        Some(rec) => rec.addr == Some(sender),
        None => false,
    }
}

/// The product index once `product` is added to the products of `biz`.
pub open spec fn index_after(index: Map<Seq<u8>, Seq<Seq<u8>>>, biz: Seq<u8>, product: Seq<u8>) -> Map<
    Seq<u8>,
    Seq<Seq<u8>>,
> {
    index.insert(
        biz,
        if index.contains_key(biz) {
            index[biz].push(product)
        } else {
            seq![product]
        },
    )
}

/// The record that `sender` makes at height `now`.
pub open spec fn info_view(sender: u64, now: u64, data_hash: Seq<u8>, extra: Seq<u8>) -> ProductInfoView {
    ProductInfoView { creator: sender, created_at: now, data_hash, extra }
}

/// The businesses, the products and the index of products by business.
pub struct Registry {
    config: BusinessConfig,
    business_store: Store<Business>,
    product_store: Store<Product>,
    index_store: Store<Vec<H256>>,
    nonce: u64,
    event_log: Vec<BusinessEvent>,
}

impl Registry {
    /// The fixed parameters.
    pub closed spec fn config(&self) -> BusinessConfig {
        self.config
    }

    /// Each business by its hash.
    pub closed spec fn businesses(&self) -> Map<Seq<u8>, BusinessView> {
        self.business_store@.map_values(|b: Business| b@)
    }

    /// Each product by its hash.
    pub closed spec fn products(&self) -> Map<Seq<u8>, ProductView> {
        self.product_store@.map_values(|p: Product| p@)
    }

    /// For each business that has products, their hashes in order of creation.
    pub closed spec fn product_index(&self) -> Map<Seq<u8>, Seq<Seq<u8>>> {
        self.index_store@.map_values(|v: Vec<H256>| hashes_view(v@))
    }

    /// The nonce that the next business creation hashes.
    pub closed spec fn nonce(&self) -> u64 {
        self.nonce
    }

    /// The notifications of all successful operations, oldest first.
    pub closed spec fn events(&self) -> Seq<BusinessEventView> {
        self.event_log@.map_values(|e: BusinessEvent| e@)
    }

    /// The internal consistency of the stores.
    pub closed spec fn wf(&self) -> bool {
        &&& self.business_store.wf()
        &&& self.product_store.wf()
        &&& self.index_store.wf()
    }

    /// The number of products of business `biz`.
    pub open spec fn count_of(&self, biz: Seq<u8>) -> nat {
        if self.product_index().contains_key(biz) {
            self.product_index()[biz].len()
        } else {
            0
        }
    }

    /// A ledger with no businesses and a nonce of zero.
    pub fn new(config: BusinessConfig) -> (r: Registry)
        ensures
            r.wf(),
            r.config() == config,
            r.businesses() == Map::<Seq<u8>, BusinessView>::empty(),
            r.products() == Map::<Seq<u8>, ProductView>::empty(),
            r.product_index() == Map::<Seq<u8>, Seq<Seq<u8>>>::empty(),
            r.nonce() == 0,
            r.events() == Seq::<BusinessEventView>::empty(),
    {
        let r = Registry {
            config,
            business_store: Store::new(),
            product_store: Store::new(),
            index_store: Store::new(),
            nonce: 0,
            event_log: Vec::new(),
        };
        assert(r.businesses() =~= Map::<Seq<u8>, BusinessView>::empty());
        assert(r.products() =~= Map::<Seq<u8>, ProductView>::empty());
        assert(r.product_index() =~= Map::<Seq<u8>, Seq<Seq<u8>>>::empty());
        assert(r.events() =~= Seq::<BusinessEventView>::empty());
        r
    }

    /// The fixed parameters.
    pub fn get_config(&self) -> (r: &BusinessConfig)
        ensures
            *r == self.config(),
    {
        &self.config
    }

    /// The nonce that the next business creation hashes.
    pub fn current_nonce(&self) -> (r: u64)
        ensures
            r == self.nonce(),
    {
        self.nonce
    }

    /// The notifications of all successful operations, oldest first.
    pub fn event_log(&self) -> (r: &Vec<BusinessEvent>)
        ensures
            r@.map_values(|e: BusinessEvent| e@) == self.events(),
    {
        &self.event_log
    }

    /// The business stored under `biz`, if any.
    pub fn business_of(&self, biz: &H256) -> (r: Option<&Business>)
        requires
            self.wf(),
        ensures
            match r {
                Some(b) => self.businesses().contains_key(biz@) && b@ == self.businesses()[biz@],
                None => !self.businesses().contains_key(biz@),
            },
    {
        self.business_store.get(biz)
    }

    /// The product stored under `product`, if any.
    pub fn product_of(&self, product: &H256) -> (r: Option<&Product>)
        requires
            self.wf(),
        ensures
            match r {
                Some(p) => self.products().contains_key(product@) && p@ == self.products()[product@],
                None => !self.products().contains_key(product@),
            },
    {
        self.product_store.get(product)
    }

    /// The number of products of business `biz`.
    pub fn product_count(&self, biz: &H256) -> (r: u64)
        requires
            self.wf(),
        ensures
            r == self.count_of(biz@),
    {
        match self.index_store.get(biz) {
            Some(v) => v.len() as u64,
            None => 0,
        }
    }

    /// The hash of the product of business `biz` created as number `ordinal`
    /// (from zero), if there is one.
    pub fn business_product_index(&self, biz: &H256, ordinal: u64) -> (r: Option<H256>)
        requires
            self.wf(),
        ensures
            match r {
                Some(h) => ordinal < self.count_of(biz@) && h@ == self.product_index()[biz@][ordinal as int],
                None => ordinal >= self.count_of(biz@),
            },
    {
        match self.index_store.get(biz) {
            Some(v) => {
                if (ordinal as u128) < (v.len() as u128) {
                    Some(v[ordinal as usize])
                } else {
                    None
                }
            },
            None => None,
        }
    }

    /// Refuses unless `hash` resolves to the account `sender`.
    pub fn validate_authorization<R: NameServiceResolver>(resolver: &R, sender: u64, hash: &H256) -> (r:
        Result<(), BusinessError>)
        requires
            resolver.inv(),
        ensures
            r == (if authorized(resolver, sender, hash@) {
                Ok(())
            } else {
                Err(BusinessError::NotAuthorized)
            }),
    {
        match resolver.resolve_addr(hash) {
            Some(addr) => {
                if addr == sender {
                    Ok(())
                } else {
                    Err(BusinessError::NotAuthorized)
                }
            },
            None => Err(BusinessError::NotAuthorized),
        }
    }

    /// Refuses unless the height `now` is below `expiration`.
    pub fn validate_expiration(now: u64, expiration: u64) -> (r: Result<(), BusinessError>)
        ensures
            r == (if now < expiration {
                Ok(())
            } else {
                Err(BusinessError::Expired)
            }),
    {
        if now < expiration {
            Ok(())
        } else {
            Err(BusinessError::Expired)
        }
    }

    /// Stores `business` under `hash`; refused if a business is stored there.
    pub fn insert_business(&mut self, hash: H256, business: &Business) -> (r: Result<
        (),
        BusinessError,
    >)
        requires
            old(self).wf(),
        ensures
            final(self).wf(),
            r == (if old(self).businesses().contains_key(hash@) {
                Err(BusinessError::BusinessExists)
            } else {
                Ok(())
            }),
            r.is_err() ==> *final(self) == *old(self),
            r.is_ok() ==> final(self).businesses() == old(self).businesses().insert(
                hash@,
                business@,
            ),
            final(self).config() == old(self).config(),
            final(self).products() == old(self).products(),
            final(self).product_index() == old(self).product_index(),
            final(self).nonce() == old(self).nonce(),
            final(self).events() == old(self).events(),
    {
        if self.business_store.contains_key(&hash) {
            return Err(BusinessError::BusinessExists);
        }
        let copy = copy_business(business);
        self.business_store.insert(hash, copy);
        proof {
            assert(self.businesses() =~= old(self).businesses().insert(hash@, business@));
        }
        Ok(())
    }

    /// Stores `product` under `product_hash` and adds it to the index of
    /// business `biz`; refused if a product is stored there, or if the
    /// count of products of `biz` cannot grow.
    pub fn insert_product(&mut self, biz: H256, product_hash: H256, product: &Product) -> (r: Result<
        (),
        BusinessError,
    >)
        requires
            old(self).wf(),
        ensures
            final(self).wf(),
            r == (if old(self).products().contains_key(product_hash@) {
                Err(BusinessError::ProductExists)
            } else if old(self).count_of(biz@) >= u64::MAX {
                Err(BusinessError::CounterOverflow)
            } else {
                Ok(())
            }),
            r.is_err() ==> *final(self) == *old(self),
            r.is_ok() ==> {
                &&& final(self).products() == old(self).products().insert(product_hash@, product@)
                &&& final(self).product_index() == index_after(
                    old(self).product_index(),
                    biz@,
                    product_hash@,
                )
            },
            final(self).config() == old(self).config(),
            final(self).businesses() == old(self).businesses(),
            final(self).nonce() == old(self).nonce(),
            final(self).events() == old(self).events(),
    {
        if self.product_store.contains_key(&product_hash) {
            return Err(BusinessError::ProductExists);
        }
        let mut list = match self.index_store.get(&biz) {
            Some(v) => copy_hashes(v),
            None => Vec::new(),
        };
        if list.len() as u64 >= u64::MAX {
            return Err(BusinessError::CounterOverflow);
        }
        list.push(product_hash);
        let ghost new_list = hashes_view(list@);
        let copy = copy_product(product);
        self.product_store.insert(product_hash, copy);
        self.index_store.insert(biz, list);
        proof {
            assert(self.products() =~= old(self).products().insert(product_hash@, product@));
            if old(self).product_index().contains_key(biz@) {
                assert(new_list =~= old(self).product_index()[biz@].push(product_hash@));
            } else {
                assert(new_list =~= seq![product_hash@]);
            }
            assert(self.product_index() =~= index_after(
                old(self).product_index(),
                biz@,
                product_hash@,
            ));
        }
        Ok(())
    }

    /// Appends `info` to the history of the product stored under
    /// `product_hash`; refused if there is none, if its sequence id is not
    /// `seq_id`, or if its history is full.
    pub fn append_product_info(&mut self, product_hash: H256, seq_id: &Vec<u8>, info: ProductInfo) -> (r:
        Result<(), BusinessError>)
        requires
            old(self).wf(),
        ensures
            final(self).wf(),
            r == (if !old(self).products().contains_key(product_hash@) {
                Err(BusinessError::ProductNotFound)
            } else if old(self).products()[product_hash@].seq_id != seq_id@ {
                Err(BusinessError::SeqIdMismatch)
            } else if old(self).products()[product_hash@].infos.len()
                >= old(self).config().max_product_info_count {
                Err(BusinessError::InfoLimitExceeded)
            } else {
                Ok(())
            }),
            r.is_err() ==> *final(self) == *old(self),
            r.is_ok() ==> final(self).products() == old(self).products().insert(
                product_hash@,
                ProductView {
                    infos: old(self).products()[product_hash@].infos.push(info@),
                    ..old(self).products()[product_hash@]
                },
            ),
            final(self).config() == old(self).config(),
            final(self).businesses() == old(self).businesses(),
            final(self).product_index() == old(self).product_index(),
            final(self).nonce() == old(self).nonce(),
            final(self).events() == old(self).events(),
    {
        let mut product = match self.product_store.get(&product_hash) {
            Some(p) => {
                if !bytes_equal(&p.seq_id, seq_id) {
                    return Err(BusinessError::SeqIdMismatch);
                }
                if p.infos.len() >= self.config.max_product_info_count as usize {
                    return Err(BusinessError::InfoLimitExceeded);
                }
                copy_product(p)
            },
            None => {
                return Err(BusinessError::ProductNotFound);
            },
        };
        let ghost before = product@;
        product.infos.push(info);
        let ghost after = product@;
        proof {
            assert(after.infos =~= before.infos.push(info@));
        }
        self.product_store.insert(product_hash, product);
        proof {
            assert(self.products() =~= old(self).products().insert(product_hash@, after));
        }
        Ok(())
    }
}

fn copy_hashes(v: &Vec<H256>) -> (r: Vec<H256>)
    ensures
        r@ == v@,
{
    let mut r: Vec<H256> = Vec::new();
    let mut i: usize = 0;
    while i < v.len()
        invariant
            0 <= i <= v.len(),
            r@ == v@.subrange(0, i as int),
        decreases v.len() - i,
    {
        r.push(v[i]);
        i = i + 1;
        assert(r@ =~= v@.subrange(0, i as int));
    }
    assert(r@ =~= v@);
    r
}

fn copy_info(i: &ProductInfo) -> (r: ProductInfo)
    ensures
        r@ == i@,
{
    ProductInfo {
        creator: i.creator,
        created_at: i.created_at,
        data_hash: i.data_hash,
        extra: copy_bytes(&i.extra),
    }
}

fn copy_business(b: &Business) -> (r: Business)
    ensures
        r@ == b@,
{
    Business {
        creator: b.creator,
        owner: b.owner,
        name: copy_bytes(&b.name),
        whitelist: copy_hashes(&b.whitelist),
        expiration: b.expiration,
    }
}

fn copy_product(p: &Product) -> (r: Product)
    ensures
        r@ == p@,
{
    let mut infos: Vec<ProductInfo> = Vec::new();
    let mut i: usize = 0;
    while i < p.infos.len()
        invariant
            0 <= i <= p.infos.len(),
            infos.len() == i,
            forall|j: int| 0 <= j < i ==> #[trigger] infos@[j]@ == p.infos@[j]@,
        decreases p.infos.len() - i,
    {
        infos.push(copy_info(&p.infos[i]));
        i = i + 1;
    }
    assert(infos@.map_values(|x: ProductInfo| x@) =~= p.infos@.map_values(|x: ProductInfo| x@));
    Product { seq_id: copy_bytes(&p.seq_id), infos }
}

/// Whether `h` is one of the hashes of `v`.
fn hashes_contain(v: &Vec<H256>, h: &H256) -> (r: bool)
    ensures
        r == hashes_view(v@).contains(h@),
{
    let mut i: usize = 0;
    while i < v.len()
        invariant
            0 <= i <= v.len(),
            forall|j: int| 0 <= j < i ==> v@[j]@ != h@,
        decreases v.len() - i,
    {
        if v[i] == *h {
            assert(hashes_view(v@)[i as int] == h@);
            return true;
        }
        i = i + 1;
    }
    assert forall|j: int| 0 <= j < hashes_view(v@).len() implies hashes_view(v@)[j] != h@ by {
        assert(hashes_view(v@)[j] == v@[j]@);
    }
    false
}

/// The hashes of `v` other than `h`, in their order.
fn retain_other(v: &Vec<H256>, h: &H256) -> (r: Vec<H256>)
    ensures
        hashes_view(r@) == hashes_view(v@).filter(|x: Seq<u8>| x != h@),
{
    let ghost pred = |x: Seq<u8>| x != h@;
    let mut r: Vec<H256> = Vec::new();
    let mut i: usize = 0;
    while i < v.len()
        invariant
            0 <= i <= v.len(),
            pred == (|x: Seq<u8>| x != h@),
            hashes_view(r@) == hashes_view(v@.subrange(0, i as int)).filter(pred),
        decreases v.len() - i,
    {
        let ghost before = hashes_view(v@.subrange(0, i as int));
        proof {
            assert(hashes_view(v@.subrange(0, i as int + 1)) =~= before.push(v@[i as int]@));
            before.lemma_filter_push(v@[i as int]@, pred);
        }
        if v[i] != *h {
            r.push(v[i]);
            assert(hashes_view(r@) =~= before.filter(pred).push(v@[i as int]@));
        }
        i = i + 1;
    }
    assert(v@.subrange(0, v.len() as int) =~= v@);
    r
}

impl Registry {
    /// The outcome of `create_business`.
    pub open spec fn check_create_business<R: NameServiceResolver>(
        &self,
        resolver: &R,
        sender: u64,
        now: u64,
        seed: Seq<u8>,
        owner: Seq<u8>,
        name: Seq<u8>,
        expiration: u64,
    ) -> Result<(), BusinessError> {
        if !authorized(resolver, sender, self.config().scope_name_hash@) {
            Err(BusinessError::NotAuthorized)
        } else if name.len() < self.config().min_length {
            Err(BusinessError::NameTooShort)
        } else if name.len() > self.config().max_length {
            Err(BusinessError::NameTooLong)
        } else if now >= expiration {
            Err(BusinessError::Expired)
        } else if self.nonce() == u64::MAX {
            Err(BusinessError::NonceExhausted)
        } else if self.businesses().contains_key(business_key(seed, sender, owner, self.nonce())) {
            Err(BusinessError::BusinessExists)
        } else {
            Ok(())
        }
    }

    /// The outcome of `set_business_expiration`.
    pub open spec fn check_set_business_expiration<R: NameServiceResolver>(
        &self,
        resolver: &R,
        sender: u64,
        biz: Seq<u8>,
        expiration: u64,
    ) -> Result<(), BusinessError> {
        if !authorized(resolver, sender, self.config().scope_name_hash@) {
            Err(BusinessError::NotAuthorized)
        } else if !self.businesses().contains_key(biz) {
            Err(BusinessError::BusinessNotFound)
        } else if self.businesses()[biz].expiration == expiration {
            Err(BusinessError::SameExpiration)
        } else {
            Ok(())
        }
    }

    /// The refusal, if any, of a whitelist change of `biz` by `sender`.
    pub open spec fn check_business_owner<R: NameServiceResolver>(
        &self,
        resolver: &R,
        sender: u64,
        biz: Seq<u8>,
    ) -> Result<(), BusinessError> {
        if !self.businesses().contains_key(biz) {
            Err(BusinessError::BusinessNotFound)
        } else if !authorized(resolver, sender, self.businesses()[biz].owner) {
            Err(BusinessError::NotAuthorized)
        } else {
            Ok(())
        }
    }

    /// The outcome of `add_business_whitelist`.
    pub open spec fn check_add_business_whitelist<R: NameServiceResolver>(
        &self,
        resolver: &R,
        sender: u64,
        biz: Seq<u8>,
        name_hash: Seq<u8>,
    ) -> Result<(), BusinessError> {
        match self.check_business_owner(resolver, sender, biz) {
            Err(e) => Err(e),
            Ok(_) => if self.businesses()[biz].whitelist.contains(name_hash) {
                Err(BusinessError::AlreadyInWhitelist)
            } else {
                Ok(())
            },
        }
    }

    /// The outcome of `remove_business_whitelist`.
    pub open spec fn check_remove_business_whitelist<R: NameServiceResolver>(
        &self,
        resolver: &R,
        sender: u64,
        biz: Seq<u8>,
        name_hash: Seq<u8>,
    ) -> Result<(), BusinessError> {
        match self.check_business_owner(resolver, sender, biz) {
            Err(e) => Err(e),
            Ok(_) => if !self.businesses()[biz].whitelist.contains(name_hash) {
                Err(BusinessError::NotInWhitelist)
            } else {
                Ok(())
            },
        }
    }

    /// The refusal, if any, that `create_product` and `add_product_info`
    /// share: identity, business, whitelist, expiration and lengths.
    pub open spec fn check_product_call<R: NameServiceResolver>(
        &self,
        resolver: &R,
        sender: u64,
        now: u64,
        name_hash: Seq<u8>,
        biz: Seq<u8>,
        seq_id: Seq<u8>,
        extra: Seq<u8>,
    ) -> Result<(), BusinessError> {
        if !authorized(resolver, sender, name_hash) {
            Err(BusinessError::NotAuthorized)
        } else if !self.businesses().contains_key(biz) {
            Err(BusinessError::BusinessNotFound)
        } else if !self.businesses()[biz].whitelist.contains(name_hash) {
            Err(BusinessError::NotWhitelisted)
        } else if now >= self.businesses()[biz].expiration {
            Err(BusinessError::Expired)
        } else if seq_id.len() > self.config().max_seq_id_length {
            Err(BusinessError::SeqIdTooLong)
        } else if extra.len() > self.config().max_extra_length {
            Err(BusinessError::ExtraTooLong)
        } else {
            Ok(())
        }
    }

    /// The outcome of `create_product`.
    pub open spec fn check_create_product<R: NameServiceResolver>(
        &self,
        resolver: &R,
        sender: u64,
        now: u64,
        name_hash: Seq<u8>,
        biz: Seq<u8>,
        seq_id: Seq<u8>,
        extra: Seq<u8>,
    ) -> Result<(), BusinessError> {
        match self.check_product_call(resolver, sender, now, name_hash, biz, seq_id, extra) {
            Err(e) => Err(e),
            Ok(_) => if self.products().contains_key(product_key(biz, seq_id)) {
                Err(BusinessError::ProductExists)
            } else if self.count_of(biz) >= u64::MAX {
                Err(BusinessError::CounterOverflow)
            } else {
                Ok(())
            },
        }
    }

    /// The outcome of `add_product_info`.
    pub open spec fn check_add_product_info<R: NameServiceResolver>(
        &self,
        resolver: &R,
        sender: u64,
        now: u64,
        name_hash: Seq<u8>,
        biz: Seq<u8>,
        seq_id: Seq<u8>,
        extra: Seq<u8>,
    ) -> Result<(), BusinessError> {
        match self.check_product_call(resolver, sender, now, name_hash, biz, seq_id, extra) {
            Err(e) => Err(e),
            Ok(_) => {
                let key = product_key(biz, seq_id);
                if !self.products().contains_key(key) {
                    Err(BusinessError::ProductNotFound)
                } else if self.products()[key].seq_id != seq_id {
                    Err(BusinessError::SeqIdMismatch)
                } else if self.products()[key].infos.len() >= self.config().max_product_info_count {
                    Err(BusinessError::InfoLimitExceeded)
                } else {
                    Ok(())
                }
            },
        }
    }

    fn push_event(&mut self, e: BusinessEvent)
        ensures
            final(self).config == old(self).config,
            final(self).business_store == old(self).business_store,
            final(self).product_store == old(self).product_store,
            final(self).index_store == old(self).index_store,
            final(self).nonce == old(self).nonce,
            final(self).events() == old(self).events().push(e@),
    {
        self.event_log.push(e);
        assert(self.events() =~= old(self).events().push(e@));
    }

    /// Registers a business owned by the identity `owner`, named `name` and
    /// expiring at `expiration`, on behalf of the scope identity. Its hash
    /// is derived from `seed`, `sender`, `owner` and the nonce, which then
    /// advances by one; refused once the nonce cannot advance.
    pub fn create_business<R: NameServiceResolver>(
        &mut self,
        resolver: &R,
        sender: u64,
        now: u64,
        seed: &H256,
        owner: H256,
        name: Vec<u8>,
        expiration: u64,
    ) -> (r: Result<H256, BusinessError>)
        requires
            old(self).wf(),
            resolver.inv(),
        ensures
            final(self).wf(),
            match r {
                Ok(h) => {
                    &&& old(self).check_create_business(
                        resolver,
                        sender,
                        now,
                        seed@,
                        owner@,
                        name@,
                        expiration,
                    ) == Ok::<(), BusinessError>(())
                    &&& h@ == business_key(seed@, sender, owner@, old(self).nonce())
                    &&& final(self).businesses() == old(self).businesses().insert(
                        h@,
                        BusinessView {
                            creator: sender,
                            owner: owner@,
                            name: name@,
                            whitelist: Seq::empty(),
                            expiration,
                        },
                    )
                    &&& final(self).products() == old(self).products()
                    &&& final(self).product_index() == old(self).product_index()
                    &&& final(self).config() == old(self).config()
                    &&& final(self).nonce() == old(self).nonce() + 1
                    &&& final(self).events() == old(self).events().push(
                        BusinessEventView::BusinessCreated(sender, h@),
                    )
                },
                Err(e) => {
                    &&& old(self).check_create_business(
                        resolver,
                        sender,
                        now,
                        seed@,
                        owner@,
                        name@,
                        expiration,
                    ) == Err::<(), BusinessError>(e)
                    &&& *final(self) == *old(self)
                },
            },
    {
        Self::validate_authorization(resolver, sender, &self.config.scope_name_hash)?;
        if name.len() < self.config.min_length as usize {
            return Err(BusinessError::NameTooShort);
        }
        if name.len() > self.config.max_length as usize {
            return Err(BusinessError::NameTooLong);
        }
        Self::validate_expiration(now, expiration)?;
        if self.nonce == u64::MAX {
            return Err(BusinessError::NonceExhausted);
        }
        let biz_hash = business_hash(seed, sender, &owner, self.nonce);
        let business = Business { creator: sender, owner, name, whitelist: Vec::new(), expiration };
        proof {
            assert(business@.whitelist =~= Seq::<Seq<u8>>::empty());
        }
        self.insert_business(biz_hash, &business)?;
        self.push_event(BusinessEvent::BusinessCreated(sender, biz_hash));
        self.nonce = self.nonce + 1;
        Ok(biz_hash)
    }

    /// Sets the expiration of business `biz`, on behalf of the scope identity.
    pub fn set_business_expiration<R: NameServiceResolver>(
        &mut self,
        resolver: &R,
        sender: u64,
        biz: H256,
        expiration: u64,
    ) -> (r: Result<(), BusinessError>)
        requires
            old(self).wf(),
            resolver.inv(),
        ensures
            final(self).wf(),
            r == old(self).check_set_business_expiration(resolver, sender, biz@, expiration),
            r.is_err() ==> *final(self) == *old(self),
            r.is_ok() ==> {
                &&& final(self).businesses() == old(self).businesses().insert(
                    biz@,
                    BusinessView { expiration, ..old(self).businesses()[biz@] },
                )
                &&& final(self).products() == old(self).products()
                &&& final(self).product_index() == old(self).product_index()
                &&& final(self).config() == old(self).config()
                &&& final(self).nonce() == old(self).nonce()
                &&& final(self).events() == old(self).events().push(
                    BusinessEventView::BusinessExpirationChanged(sender, biz@, expiration),
                )
            },
    {
        Self::validate_authorization(resolver, sender, &self.config.scope_name_hash)?;
        let mut business = match self.business_store.get(&biz) {
            Some(b) => copy_business(b),
            None => {
                return Err(BusinessError::BusinessNotFound);
            },
        };
        if business.expiration == expiration {
            return Err(BusinessError::SameExpiration);
        }
        business.expiration = expiration;
        let ghost v = business@;
        self.business_store.insert(biz, business);
        proof {
            assert(self.businesses() =~= old(self).businesses().insert(biz@, v));
        }
        self.push_event(BusinessEvent::BusinessExpirationChanged(sender, biz, expiration));
        Ok(())
    }

    /// Admits `name_hash` to the whitelist of business `biz`, on behalf of
    /// the business's owner identity.
    pub fn add_business_whitelist<R: NameServiceResolver>(
        &mut self,
        resolver: &R,
        sender: u64,
        biz: H256,
        name_hash: H256,
    ) -> (r: Result<(), BusinessError>)
        requires
            old(self).wf(),
            resolver.inv(),
        ensures
            final(self).wf(),
            r == old(self).check_add_business_whitelist(resolver, sender, biz@, name_hash@),
            r.is_err() ==> *final(self) == *old(self),
            r.is_ok() ==> {
                let wl = old(self).businesses()[biz@].whitelist.push(name_hash@);
                &&& final(self).businesses() == old(self).businesses().insert(
                    biz@,
                    BusinessView { whitelist: wl, ..old(self).businesses()[biz@] },
                )
                &&& final(self).products() == old(self).products()
                &&& final(self).product_index() == old(self).product_index()
                &&& final(self).config() == old(self).config()
                &&& final(self).nonce() == old(self).nonce()
                &&& final(self).events() == old(self).events().push(
                    BusinessEventView::BusinessWhitelistChanged(sender, biz@, wl),
                )
            },
    {
        let mut business = match self.business_store.get(&biz) {
            Some(b) => copy_business(b),
            None => {
                return Err(BusinessError::BusinessNotFound);
            },
        };
        Self::validate_authorization(resolver, sender, &business.owner)?;
        if hashes_contain(&business.whitelist, &name_hash) {
            return Err(BusinessError::AlreadyInWhitelist);
        }
        let ghost before = business@;
        business.whitelist.push(name_hash);
        let new_list = copy_hashes(&business.whitelist);
        let ghost v = business@;
        proof {
            assert(v.whitelist =~= before.whitelist.push(name_hash@));
        }
        self.business_store.insert(biz, business);
        proof {
            assert(self.businesses() =~= old(self).businesses().insert(biz@, v));
        }
        self.push_event(BusinessEvent::BusinessWhitelistChanged(sender, biz, new_list));
        Ok(())
    }

    /// Removes `name_hash` from the whitelist of business `biz`, on behalf
    /// of the business's owner identity.
    pub fn remove_business_whitelist<R: NameServiceResolver>(
        &mut self,
        resolver: &R,
        sender: u64,
        biz: H256,
        name_hash: H256,
    ) -> (r: Result<(), BusinessError>)
        requires
            old(self).wf(),
            resolver.inv(),
        ensures
            final(self).wf(),
            r == old(self).check_remove_business_whitelist(resolver, sender, biz@, name_hash@),
            r.is_err() ==> *final(self) == *old(self),
            r.is_ok() ==> {
                let wl = old(self).businesses()[biz@].whitelist.filter(
                    |x: Seq<u8>| x != name_hash@,
                );
                &&& final(self).businesses() == old(self).businesses().insert(
                    biz@,
                    BusinessView { whitelist: wl, ..old(self).businesses()[biz@] },
                )
                &&& final(self).products() == old(self).products()
                &&& final(self).product_index() == old(self).product_index()
                &&& final(self).config() == old(self).config()
                &&& final(self).nonce() == old(self).nonce()
                &&& final(self).events() == old(self).events().push(
                    BusinessEventView::BusinessWhitelistChanged(sender, biz@, wl),
                )
            },
    {
        let mut business = match self.business_store.get(&biz) {
            Some(b) => copy_business(b),
            None => {
                return Err(BusinessError::BusinessNotFound);
            },
        };
        Self::validate_authorization(resolver, sender, &business.owner)?;
        if !hashes_contain(&business.whitelist, &name_hash) {
            return Err(BusinessError::NotInWhitelist);
        }
        business.whitelist = retain_other(&business.whitelist, &name_hash);
        let new_list = copy_hashes(&business.whitelist);
        let ghost v = business@;
        self.business_store.insert(biz, business);
        proof {
            assert(self.businesses() =~= old(self).businesses().insert(biz@, v));
        }
        self.push_event(BusinessEvent::BusinessWhitelistChanged(sender, biz, new_list));
        Ok(())
    }

    /// Shared checks of `create_product` and `add_product_info`.
    fn check_product_args<R: NameServiceResolver>(
        &self,
        resolver: &R,
        sender: u64,
        now: u64,
        name_hash: &H256,
        biz: &H256,
        seq_id: &Vec<u8>,
        extra: &Vec<u8>,
    ) -> (r: Result<(), BusinessError>)
        requires
            self.wf(),
            resolver.inv(),
        ensures
            r == self.check_product_call(resolver, sender, now, name_hash@, biz@, seq_id@, extra@),
    {
        Self::validate_authorization(resolver, sender, name_hash)?;
        let business = match self.business_store.get(biz) {
            Some(b) => b,
            None => {
                return Err(BusinessError::BusinessNotFound);
            },
        };
        if !hashes_contain(&business.whitelist, name_hash) {
            return Err(BusinessError::NotWhitelisted);
        }
        Self::validate_expiration(now, business.expiration)?;
        if seq_id.len() > self.config.max_seq_id_length as usize {
            return Err(BusinessError::SeqIdTooLong);
        }
        if extra.len() > self.config.max_extra_length as usize {
            return Err(BusinessError::ExtraTooLong);
        }
        Ok(())
    }

    /// Creates the product `seq_id` of business `biz` with one record, on
    /// behalf of the whitelisted identity `name_hash`, at height `now`.
    pub fn create_product<R: NameServiceResolver>(
        &mut self,
        resolver: &R,
        sender: u64,
        now: u64,
        name_hash: H256,
        biz: H256,
        seq_id: Vec<u8>,
        data_hash: H256,
        extra: Vec<u8>,
    ) -> (r: Result<H256, BusinessError>)
        requires
            old(self).wf(),
            resolver.inv(),
        ensures
            final(self).wf(),
            match r {
                Ok(p) => {
                    &&& old(self).check_create_product(
                        resolver,
                        sender,
                        now,
                        name_hash@,
                        biz@,
                        seq_id@,
                        extra@,
                    ) == Ok::<(), BusinessError>(())
                    &&& p@ == product_key(biz@, seq_id@)
                    &&& final(self).products() == old(self).products().insert(
                        p@,
                        ProductView {
                            seq_id: seq_id@,
                            infos: seq![info_view(sender, now, data_hash@, extra@)],
                        },
                    )
                    &&& final(self).product_index() == index_after(
                        old(self).product_index(),
                        biz@,
                        p@,
                    )
                    &&& final(self).businesses() == old(self).businesses()
                    &&& final(self).config() == old(self).config()
                    &&& final(self).nonce() == old(self).nonce()
                    &&& final(self).events() == old(self).events().push(
                        BusinessEventView::ProductCreated(sender, biz@, seq_id@, p@),
                    )
                },
                Err(e) => {
                    &&& old(self).check_create_product(
                        resolver,
                        sender,
                        now,
                        name_hash@,
                        biz@,
                        seq_id@,
                        extra@,
                    ) == Err::<(), BusinessError>(e)
                    &&& *final(self) == *old(self)
                },
            },
    {
        self.check_product_args(resolver, sender, now, &name_hash, &biz, &seq_id, &extra)?;
        let key = product_hash(&biz, &seq_id);
        let info = ProductInfo { creator: sender, created_at: now, data_hash, extra };
        let mut infos: Vec<ProductInfo> = Vec::new();
        infos.push(info);
        let product = Product { seq_id: copy_bytes(&seq_id), infos };
        proof {
            assert(product@.infos =~= seq![info_view(sender, now, data_hash@, extra@)]);
        }
        self.insert_product(biz, key, &product)?;
        self.push_event(BusinessEvent::ProductCreated(sender, biz, seq_id, key));
        Ok(key)
    }

    /// Appends a record made at height `now` to the product `seq_id` of
    /// business `biz`, on behalf of the whitelisted identity `name_hash`.
    pub fn add_product_info<R: NameServiceResolver>(
        &mut self,
        resolver: &R,
        sender: u64,
        now: u64,
        name_hash: H256,
        biz: H256,
        seq_id: Vec<u8>,
        data_hash: H256,
        extra: Vec<u8>,
    ) -> (r: Result<(), BusinessError>)
        requires
            old(self).wf(),
            resolver.inv(),
        ensures
            final(self).wf(),
            r == old(self).check_add_product_info(
                resolver,
                sender,
                now,
                name_hash@,
                biz@,
                seq_id@,
                extra@,
            ),
            r.is_err() ==> *final(self) == *old(self),
            r.is_ok() ==> {
                let key = product_key(biz@, seq_id@);
                &&& final(self).products() == old(self).products().insert(
                    key,
                    ProductView {
                        infos: old(self).products()[key].infos.push(
                            info_view(sender, now, data_hash@, extra@),
                        ),
                        ..old(self).products()[key]
                    },
                )
                &&& final(self).businesses() == old(self).businesses()
                &&& final(self).product_index() == old(self).product_index()
                &&& final(self).config() == old(self).config()
                &&& final(self).nonce() == old(self).nonce()
                &&& final(self).events() == old(self).events().push(
                    BusinessEventView::ProductInfoAppended(sender, biz@, seq_id@, key),
                )
            },
    {
        self.check_product_args(resolver, sender, now, &name_hash, &biz, &seq_id, &extra)?;
        let key = product_hash(&biz, &seq_id);
        let info = ProductInfo { creator: sender, created_at: now, data_hash, extra };
        self.append_product_info(key, &seq_id, info)?;
        self.push_event(BusinessEvent::ProductInfoAppended(sender, biz, seq_id, key));
        Ok(())
    }
}

/// A product cannot be created twice: once a product is stored under the
/// key of `biz` and `seq_id`, every later creation of `seq_id` in `biz` is
/// refused, as an existing product whenever the earlier checks pass.
pub proof fn lemma_product_recreation_refused<R: NameServiceResolver>(
    r: Registry,
    resolver: &R,
    sender: u64,
    now: u64,
    name_hash: Seq<u8>,
    biz: Seq<u8>,
    seq_id: Seq<u8>,
    extra: Seq<u8>,
)
    requires
        r.products().contains_key(product_key(biz, seq_id)),
    ensures
        r.check_create_product(resolver, sender, now, name_hash, biz, seq_id, extra) is Err,
        r.check_product_call(resolver, sender, now, name_hash, biz, seq_id, extra) is Ok
            ==> r.check_create_product(resolver, sender, now, name_hash, biz, seq_id, extra)
            == Err::<(), BusinessError>(BusinessError::ProductExists),
{
}

/// An identity that resolves to the caller but is not on the whitelist of
/// an existing business is refused as not whitelisted by both product
/// operations.
pub proof fn lemma_not_whitelisted_refused<R: NameServiceResolver>(
    r: Registry,
    resolver: &R,
    sender: u64,
    now: u64,
    name_hash: Seq<u8>,
    biz: Seq<u8>,
    seq_id: Seq<u8>,
    extra: Seq<u8>,
)
    requires
        authorized(resolver, sender, name_hash),
        r.businesses().contains_key(biz),
        !r.businesses()[biz].whitelist.contains(name_hash),
    ensures
        r.check_create_product(resolver, sender, now, name_hash, biz, seq_id, extra) == Err::<
            (),
            BusinessError,
        >(BusinessError::NotWhitelisted),
        r.check_add_product_info(resolver, sender, now, name_hash, biz, seq_id, extra) == Err::<
            (),
            BusinessError,
        >(BusinessError::NotWhitelisted),
{
}

/// Right after `add_business_whitelist` admits `name_hash` to business
/// `biz` (taking `before` to `after`), the product operations of that
/// identity pass the shared checks whenever it resolves to the caller, the
/// business has not expired and the lengths are accepted.
pub proof fn lemma_whitelisted_admitted<R: NameServiceResolver>(
    before: Registry,
    after: Registry,
    resolver: &R,
    owner_sender: u64,
    sender: u64,
    now: u64,
    name_hash: Seq<u8>,
    biz: Seq<u8>,
    seq_id: Seq<u8>,
    extra: Seq<u8>,
)
    requires
        before.check_add_business_whitelist(resolver, owner_sender, biz, name_hash) is Ok,
        after.config() == before.config(),
        after.businesses() == before.businesses().insert(
            biz,
            BusinessView {
                whitelist: before.businesses()[biz].whitelist.push(name_hash),
                ..before.businesses()[biz]
            },
        ),
    ensures
        after.businesses()[biz].whitelist.contains(name_hash),
        authorized(resolver, sender, name_hash) && now < after.businesses()[biz].expiration
            && seq_id.len() <= after.config().max_seq_id_length && extra.len()
            <= after.config().max_extra_length ==> after.check_product_call(
            resolver,
            sender,
            now,
            name_hash,
            biz,
            seq_id,
            extra,
        ) == Ok::<(), BusinessError>(()),
{
    let wl = before.businesses()[biz].whitelist.push(name_hash);
    assert(wl[wl.len() - 1] == name_hash);
}

/// Once the height reaches the expiration of a business, every product
/// operation on it is refused at that height and at every later one, as
/// expired whenever the identity checks before it pass.
pub proof fn lemma_expired_stays_expired<R: NameServiceResolver>(
    r: Registry,
    resolver: &R,
    sender: u64,
    now: u64,
    later: u64,
    name_hash: Seq<u8>,
    biz: Seq<u8>,
    seq_id: Seq<u8>,
    extra: Seq<u8>,
)
    requires
        r.businesses().contains_key(biz),
        now >= r.businesses()[biz].expiration,
        later >= now,
    ensures
        r.check_create_product(resolver, sender, later, name_hash, biz, seq_id, extra) is Err,
        r.check_add_product_info(resolver, sender, later, name_hash, biz, seq_id, extra) is Err,
        authorized(resolver, sender, name_hash) && r.businesses()[biz].whitelist.contains(name_hash)
            ==> {
            &&& r.check_create_product(resolver, sender, later, name_hash, biz, seq_id, extra)
                == Err::<(), BusinessError>(BusinessError::Expired)
            &&& r.check_add_product_info(resolver, sender, later, name_hash, biz, seq_id, extra)
                == Err::<(), BusinessError>(BusinessError::Expired)
        },
{
}

/// Appending to a product whose history holds the configured maximum of
/// records is refused as over the limit, and an append that is accepted
/// leaves at most that maximum.
pub proof fn lemma_info_count_bounded<R: NameServiceResolver>(
    r: Registry,
    resolver: &R,
    sender: u64,
    now: u64,
    name_hash: Seq<u8>,
    biz: Seq<u8>,
    seq_id: Seq<u8>,
    extra: Seq<u8>,
)
    ensures
        ({
            let key = product_key(biz, seq_id);
            &&& r.check_product_call(resolver, sender, now, name_hash, biz, seq_id, extra) is Ok
                && r.products().contains_key(key) && r.products()[key].seq_id == seq_id
                && r.products()[key].infos.len() == r.config().max_product_info_count
                ==> r.check_add_product_info(resolver, sender, now, name_hash, biz, seq_id, extra)
                == Err::<(), BusinessError>(BusinessError::InfoLimitExceeded)
            &&& r.check_add_product_info(resolver, sender, now, name_hash, biz, seq_id, extra) is Ok
                ==> r.products()[key].infos.len() + 1 <= r.config().max_product_info_count
        }),
{
}

} // verus!
