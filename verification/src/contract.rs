//! The initialization entrypoint: the contract's sole externally callable
//! operation. It binds an admin identity to a recorded event.

use vstd::prelude::*;

use crate::codec;
use crate::events::EventLog;
use crate::events::EventView;
use crate::identity::Identity;
use crate::identity::IdentityView;

verus! {

/// The fixed topic tag that every event of this contract carries.
pub open spec fn init_topic() -> Seq<char> {
    "init"@
}

/// Contract trait
pub trait EventsContractTrait {
    /// Record `admin`: publish exactly one event, tagged `"init"`, whose
    /// single payload element is the encoding of `admin`. Nothing else
    /// changes — the log keeps every event it had, and the contract owns no
    /// other state.
    fn init(log: &mut EventLog, admin: Identity)
        ensures
            final(log)@ == old(log)@.push(
                (EventView { topic: init_topic(), payload: codec::spec_encode(admin@) }),
            ),
    ;
}

/// The contract: stateless; its one operation is [`EventsContractTrait::init`].
pub struct EventsContract;

impl EventsContractTrait for EventsContract {
    fn init(log: &mut EventLog, admin: Identity) {
        let topic = String::from_str("init");
        let payload = codec::encode(&admin);
        log.publish(topic, payload);
    }
}

/// Law: the shape of a successful initialization. When a log is what
/// publication left behind — the old log with the admin's `"init"` event
/// pushed — then exactly one event is new, it carries the `"init"` topic
/// and the admin's encoding, and every event published before is unchanged.
pub proof fn lemma_init_event_shape(
    before: Seq<EventView>,
    after: Seq<EventView>,
    admin: IdentityView,
)
    requires
        after == before.push(
            (EventView { topic: init_topic(), payload: codec::spec_encode(admin) }),
        ),
    ensures
        after.len() == before.len() + 1,
        after[before.len() as int].topic == init_topic(),
        after[before.len() as int].payload == codec::spec_encode(admin),
        forall|i: int| 0 <= i < before.len() ==> after[i] == before[i],
{
}

} // verus!
