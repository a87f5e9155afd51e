//! What the boundary needs to know of the owning engine: which services are
//! registered with it, and whether the time service is one of them.
use vstd::prelude::*;
use crate::global::ProcessGlobal;

verus! {

/// Identifier under which the time service registers with the engine.
pub const TIME_SERVICE_ID: u16 = 4;

/// The engine instance as seen by this layer: the identifiers of its
/// registered services.
pub struct Blockchain {
    service_ids: Vec<u16>,
}

impl View for Blockchain {
    type V = Seq<u16>;

    closed spec fn view(&self) -> Seq<u16> {
        self.service_ids@
    }
}

impl Blockchain {
    /// An engine with the given services registered.
    pub fn new(service_ids: Vec<u16>) -> (r: Self)
        ensures
            r@ == service_ids@,
    {
        Blockchain { service_ids }
    }

    /// Whether a service with identifier `id` is registered.
    pub fn has_service(&self, id: u16) -> (r: bool)
        ensures
            r == self@.contains(id),
    {
        let mut i: usize = 0;
        while i < self.service_ids.len()
            invariant
                i <= self@.len(),
                forall|k: int| 0 <= k < i ==> self@[k] != id,
            decreases self@.len() - i,
        {
            if self.service_ids[i] == id {
                return true;
            }
            i = i + 1;
        }
        false
    }
}

/// Whether the engine in `global` is known and has service `id` registered.
pub open spec fn service_enabled(global: Option<Blockchain>, id: u16) -> bool {
    match global {
        Some(b) => b@.contains(id),
        None => false,
    }
}

/// Records the engine instance; only the first call has an effect.
pub fn init_with_blockchain(global: &mut ProcessGlobal<Blockchain>, blockchain: Blockchain)
    ensures
        final(global)@ == crate::global::spec_init(old(global)@, blockchain),
{
    global.init_with(blockchain);
}

/// Whether the time service is registered with the engine in `global`;
/// false while no engine has been recorded.
pub fn is_time_service_enabled(global: &ProcessGlobal<Blockchain>) -> (r: bool)
    ensures
        r == service_enabled(global@, TIME_SERVICE_ID),
{
    match global.read() {
        Some(b) => b.has_service(TIME_SERVICE_ID),
        None => false,
    }
}

} // verus!
