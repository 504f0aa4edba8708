use vstd::prelude::*;

verus! {

/// Store event handler that deliberately reacts to nothing: data-loss
/// notifications from the local key-value store are acknowledged and
/// otherwise ignored. The native-ABI callback object built from it lives at
/// the native boundary, outside the verified core.
pub struct DummyStoreEventHandler {}

impl DummyStoreEventHandler {
    /// A fresh handler; it carries no state.
    pub fn new() -> (h: Self) {
        DummyStoreEventHandler {  }
    }
}

} // verus!
