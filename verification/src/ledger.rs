use vstd::prelude::*;
use crate::errors::ErrorCode;
use crate::fees::INITIAL_MESSAGE_COST;

verus! {

/// How many messages a page holds before it is closed.
pub const MESSAGES_PER_PAGE: usize = 100;

/// Length in bytes of a content reference (a content-addressed identifier,
/// stored verbatim and never parsed by this library).
pub const IPFS_CID_LENGTH: usize = 46;

/// Largest page number a doctrine may reach; with page 0 that makes 256
/// pages at most.
pub const MAX_PAGE_NUMBER: u32 = 255;

/// One immutable message: an opaque fixed-length content reference.
#[derive(Clone, Copy, Debug, PartialEq, Eq)]
pub struct Message {
    pub ipfs_cid: [u8; IPFS_CID_LENGTH],
}

/// Process-wide configuration recorded once at system setup: the single
/// asset every fee is charged in.
#[derive(Clone, Copy, Debug, PartialEq, Eq, Structural)]
pub struct SystemConfig {
    pub token_mint: u64,
}

/// Per-topic ledger: aggregate counters, the active-page pointer, and the
/// current per-message fee.
#[derive(Clone, Copy, Debug, PartialEq, Eq, Structural)]
pub struct Doctrine {
    /// Topic identifier, between 1 and 10, immutable after creation.
    pub doctrine_id: u8,
    /// Messages ever appended to this topic.
    pub total_messages: u32,
    /// Page capacity recorded for auditability; always `MESSAGES_PER_PAGE`.
    pub messages_per_page: u32,
    /// Messages in the page the active pointer designates.
    pub current_page_message_count: u32,
    /// Number of the page currently accepting writes; starts at 0 and
    /// increments by exactly 1 per successful rollover.
    pub active_page_number: u32,
    /// Fee the next message will be charged (except the very first message
    /// of a topic, which is always charged `INITIAL_MESSAGE_COST`).
    pub current_message_cost: u64,
}

/// One fixed-capacity page of a doctrine's message chain.
#[derive(Clone, Debug, PartialEq, Eq)]
pub struct DoctrinePage {
    /// Back-reference to the owning doctrine.
    pub doctrine_id: u8,
    /// Position of this page in the chain, assigned sequentially from 0.
    pub page_number: u32,
    /// Messages in arrival order; append-only, capped at
    /// `MESSAGES_PER_PAGE` entries.
    pub messages: Vec<Message>,
}

/// Well-formedness of a ledger: the id is in range, the recorded capacity
/// is the fixed one, the pointers are within their bounds, and the total
/// counter accounts for every earlier page being full.
pub open spec fn ledger_wf(d: Doctrine) -> bool {
    &&& 0 < d.doctrine_id <= 10
    &&& d.messages_per_page == MESSAGES_PER_PAGE as u32
    &&& d.active_page_number <= MAX_PAGE_NUMBER
    &&& d.current_page_message_count <= MESSAGES_PER_PAGE as u32
    &&& d.total_messages as int == d.active_page_number as int * (MESSAGES_PER_PAGE as int)
        + d.current_page_message_count as int
}

/// Well-formedness of a page: it never holds more than its capacity.
pub open spec fn page_wf(p: DoctrinePage) -> bool {
    p.messages@.len() <= MESSAGES_PER_PAGE as int
}

/// `p` is the page the ledger's active pointer designates, and the ledger's
/// per-page counter agrees with the page's contents.
pub open spec fn ledger_page_sync(d: Doctrine, p: DoctrinePage) -> bool {
    &&& p.doctrine_id == d.doctrine_id
    &&& p.page_number == d.active_page_number
    &&& p.messages@.len() == d.current_page_message_count as nat
}

/// Notification record for a completed system setup.
#[derive(Clone, Copy, Debug, PartialEq, Eq, Structural)]
pub struct SystemInitializedEvent {
    pub token_mint: u64,
}

/// Notification record for a newly created topic.
#[derive(Clone, Copy, Debug, PartialEq, Eq, Structural)]
pub struct DoctrineInitializedEvent {
    pub doctrine_id: u8,
}

/// Records the single asset reference every later debit is checked against,
/// and reports the setup to the observer.
pub fn initialize_system(token_mint: u64) -> (r: (SystemConfig, SystemInitializedEvent))
    ensures
        r.0.token_mint == token_mint,
        r.1.token_mint == token_mint,
{
    let config = SystemConfig { token_mint };
    let event = SystemInitializedEvent { token_mint };
    (config, event)
}

/// Creates a topic: a ledger with zeroed counters and the initial fee, and
/// its empty first page, numbered 0.
///
/// Fails with `InvalidDoctrineId` exactly when the id lies outside 1..=10;
/// nothing is created then.
pub fn initialize_doctrine(doctrine_id: u8) -> (r: Result<
    (Doctrine, DoctrinePage, DoctrineInitializedEvent),
    ErrorCode,
>)
    ensures
        r is Ok <==> 1 <= doctrine_id <= 10,
        r matches Err(e) ==> e == ErrorCode::InvalidDoctrineId,
        r matches Ok(out) ==> ({
            &&& out.0.doctrine_id == doctrine_id
            &&& out.0.total_messages == 0
            &&& out.0.messages_per_page == MESSAGES_PER_PAGE as u32
            &&& out.0.current_page_message_count == 0
            &&& out.0.active_page_number == 0
            &&& out.0.current_message_cost == INITIAL_MESSAGE_COST
            &&& out.1.doctrine_id == doctrine_id
            &&& out.1.page_number == 0
            &&& out.1.messages@.len() == 0
            &&& out.2.doctrine_id == doctrine_id
            &&& ledger_wf(out.0)
            &&& page_wf(out.1)
            &&& ledger_page_sync(out.0, out.1)
        }),
{
    if doctrine_id == 0 || doctrine_id > 10 {
        return Err(ErrorCode::InvalidDoctrineId);
    }
    let doctrine = Doctrine {
        doctrine_id,
        total_messages: 0,
        messages_per_page: MESSAGES_PER_PAGE as u32,
        current_page_message_count: 0,
        active_page_number: 0,
        current_message_cost: INITIAL_MESSAGE_COST,
    };
    let first_page = DoctrinePage { doctrine_id, page_number: 0, messages: Vec::new() };
    let event = DoctrineInitializedEvent { doctrine_id };
    Ok((doctrine, first_page, event))
}

} // verus!
