use vstd::prelude::*;
use crate::errors::ErrorCode;
use crate::fees::{fee_overflows, next_fee, spec_next_fee, INITIAL_MESSAGE_COST};
use crate::ledger::{
    ledger_page_sync, ledger_wf, page_wf, Doctrine, DoctrinePage, Message, SystemConfig,
    IPFS_CID_LENGTH, MAX_PAGE_NUMBER, MESSAGES_PER_PAGE,
};

verus! {

/// What the host's debit collaborator reported back. The debit removes the
/// charged amount of the configured asset from the caller's balance and is
/// all-or-nothing: on anything but `Success` no value moved, and the append
/// must commit nothing.
#[derive(Clone, Copy, Debug, PartialEq, Eq, Structural)]
pub enum DebitOutcome {
    Success,
    InsufficientFunds,
    AuthorizationFailure,
}

/// Notification record for an appended message, handed to the observer by
/// the host. `cost` is what this message was charged; `next_cost` is what
/// the message after it will be charged.
#[derive(Clone, Copy, Debug)]
pub struct MessageAddedEvent {
    pub doctrine_id: u8,
    pub page_number: u32,
    pub message_index: u32,
    pub ipfs_cid: [u8; IPFS_CID_LENGTH],
    pub cost: u64,
    pub next_cost: u64,
}

/// The amount a successful append against this ledger charges: the fixed
/// initial fee for the very first message of the topic (whatever the stored
/// fee field holds), the stored fee otherwise.
pub open spec fn spec_charge(d: Doctrine) -> u64 {
    if d.total_messages == 0 {
        INITIAL_MESSAGE_COST
    } else {
        d.current_message_cost
    }
}

/// Why a same-page append would be refused, or `None` if it would succeed;
/// checks are made in this order, so the first failing one names the error.
pub open spec fn current_page_refusal(
    config: SystemConfig,
    mint: u64,
    d: Doctrine,
    p: DoctrinePage,
    debit: DebitOutcome,
) -> Option<ErrorCode> {
    if mint != config.token_mint {
        Some(ErrorCode::InvalidTokenMint)
    } else if p.doctrine_id != d.doctrine_id || p.page_number != d.active_page_number {
        Some(ErrorCode::InvalidPage)
    } else if p.messages@.len() >= MESSAGES_PER_PAGE as int {
        Some(ErrorCode::PageIsFull)
    } else if fee_overflows(spec_charge(d)) {
        Some(ErrorCode::Overflow)
    } else if !(debit is Success) {
        Some(ErrorCode::DebitFailed)
    } else {
        None
    }
}

/// Why a rollover append would be refused, or `None` if it would succeed;
/// checks are made in this order, so the first failing one names the error.
pub open spec fn new_page_refusal(
    config: SystemConfig,
    mint: u64,
    d: Doctrine,
    current: DoctrinePage,
    debit: DebitOutcome,
) -> Option<ErrorCode> {
    if mint != config.token_mint {
        Some(ErrorCode::InvalidTokenMint)
    } else if current.doctrine_id != d.doctrine_id || current.page_number != d.active_page_number {
        Some(ErrorCode::InvalidPage)
    } else if current.messages@.len() < MESSAGES_PER_PAGE as int {
        Some(ErrorCode::CurrentPageNotFull)
    } else if d.active_page_number >= MAX_PAGE_NUMBER {
        Some(ErrorCode::PageNumberOverflow)
    } else if fee_overflows(d.current_message_cost) {
        Some(ErrorCode::Overflow)
    } else if !(debit is Success) {
        Some(ErrorCode::DebitFailed)
    } else {
        None
    }
}

/// Validates a same-page append and returns the amount the host must debit
/// before committing it. Performs every check the commit will make except
/// the debit itself, so a host that debits this amount and then commits is
/// refused only if the debit failed.
pub fn plan_append_to_current_page(
    config: &SystemConfig,
    mint: u64,
    doctrine: &Doctrine,
    page: &DoctrinePage,
) -> (r: Result<u64, ErrorCode>)
    ensures
        r is Ok <==> current_page_refusal(
            *config,
            mint,
            *doctrine,
            *page,
            DebitOutcome::Success,
        ) is None,
        r matches Ok(charge) ==> charge == spec_charge(*doctrine),
        r matches Err(e) ==> Some(e) == current_page_refusal(
            *config,
            mint,
            *doctrine,
            *page,
            DebitOutcome::Success,
        ),
{
    if mint != config.token_mint {
        return Err(ErrorCode::InvalidTokenMint);
    }
    if page.doctrine_id != doctrine.doctrine_id || page.page_number != doctrine.active_page_number {
        return Err(ErrorCode::InvalidPage);
    }
    if page.messages.len() >= MESSAGES_PER_PAGE {
        return Err(ErrorCode::PageIsFull);
    }
    let charge = if doctrine.total_messages == 0 {
        INITIAL_MESSAGE_COST
    } else {
        doctrine.current_message_cost
    };
    match next_fee(charge) {
        Ok(_) => Ok(charge),
        Err(e) => Err(e),
    }
}

/// Validates a rollover append and returns the amount the host must debit
/// before committing it.
pub fn plan_append_to_new_page(
    config: &SystemConfig,
    mint: u64,
    doctrine: &Doctrine,
    current_page: &DoctrinePage,
) -> (r: Result<u64, ErrorCode>)
    ensures
        r is Ok <==> new_page_refusal(
            *config,
            mint,
            *doctrine,
            *current_page,
            DebitOutcome::Success,
        ) is None,
        r matches Ok(charge) ==> charge == doctrine.current_message_cost,
        r matches Err(e) ==> Some(e) == new_page_refusal(
            *config,
            mint,
            *doctrine,
            *current_page,
            DebitOutcome::Success,
        ),
{
    if mint != config.token_mint {
        return Err(ErrorCode::InvalidTokenMint);
    }
    if current_page.doctrine_id != doctrine.doctrine_id
        || current_page.page_number != doctrine.active_page_number {
        return Err(ErrorCode::InvalidPage);
    }
    if current_page.messages.len() < MESSAGES_PER_PAGE {
        return Err(ErrorCode::CurrentPageNotFull);
    }
    if doctrine.active_page_number >= MAX_PAGE_NUMBER {
        return Err(ErrorCode::PageNumberOverflow);
    }
    let charge = doctrine.current_message_cost;
    match next_fee(charge) {
        Ok(_) => Ok(charge),
        Err(e) => Err(e),
    }
}

/// A planned same-page append is owed success: once the plan finds no
/// refusal, committing against the same state can be refused only by the
/// debit, and then exactly with `DebitFailed`.
pub proof fn lemma_planned_current_page_append_succeeds(
    config: SystemConfig,
    mint: u64,
    d: Doctrine,
    p: DoctrinePage,
    debit: DebitOutcome,
)
    requires
        current_page_refusal(config, mint, d, p, DebitOutcome::Success) is None,
    ensures
        debit is Success ==> current_page_refusal(config, mint, d, p, debit) is None,
        !(debit is Success) ==> current_page_refusal(config, mint, d, p, debit) == Some(
            ErrorCode::DebitFailed,
        ),
{
}

/// A planned rollover append is owed success in the same way: after a clean
/// plan, only the debit can refuse the commit.
pub proof fn lemma_planned_new_page_append_succeeds(
    config: SystemConfig,
    mint: u64,
    d: Doctrine,
    current: DoctrinePage,
    debit: DebitOutcome,
)
    requires
        new_page_refusal(config, mint, d, current, DebitOutcome::Success) is None,
    ensures
        debit is Success ==> new_page_refusal(config, mint, d, current, debit) is None,
        !(debit is Success) ==> new_page_refusal(config, mint, d, current, debit) == Some(
            ErrorCode::DebitFailed,
        ),
{
}

/// Appends a message to the doctrine's open page.
///
/// On success the message is pushed onto the page, the counters advance by
/// one, the fee escalates from the charged amount, and the returned event
/// carries the 0-based index of the new message within its page. On any
/// refusal the ledger and the page are exactly as they were.
pub fn add_message_to_current_page(
    config: &SystemConfig,
    mint: u64,
    doctrine: &mut Doctrine,
    page: &mut DoctrinePage,
    ipfs_cid: [u8; IPFS_CID_LENGTH],
    debit: DebitOutcome,
) -> (r: Result<MessageAddedEvent, ErrorCode>)
    requires
        old(doctrine).total_messages < u32::MAX,
        old(doctrine).current_page_message_count < u32::MAX,
    ensures
        r is Err <==> current_page_refusal(
            *config,
            mint,
            *old(doctrine),
            *old(page),
            debit,
        ) is Some,
        r matches Err(e) ==> ({
            &&& Some(e) == current_page_refusal(*config, mint, *old(doctrine), *old(page), debit)
            &&& *final(doctrine) == *old(doctrine)
            &&& final(page).doctrine_id == old(page).doctrine_id
            &&& final(page).page_number == old(page).page_number
            &&& final(page).messages@ == old(page).messages@
        }),
        r matches Ok(ev) ==> ({
            let charge = spec_charge(*old(doctrine));
            &&& ev.doctrine_id == old(doctrine).doctrine_id
            &&& ev.page_number == old(page).page_number
            &&& ev.message_index as int == old(page).messages@.len()
            &&& ev.ipfs_cid@ == ipfs_cid@
            &&& ev.cost == charge
            &&& ev.next_cost == spec_next_fee(charge)
            &&& final(page).doctrine_id == old(page).doctrine_id
            &&& final(page).page_number == old(page).page_number
            &&& final(page).messages@ == old(page).messages@.push((Message { ipfs_cid }))
            &&& final(doctrine).doctrine_id == old(doctrine).doctrine_id
            &&& final(doctrine).messages_per_page == old(doctrine).messages_per_page
            &&& final(doctrine).active_page_number == old(doctrine).active_page_number
            &&& final(doctrine).total_messages == old(doctrine).total_messages + 1
            &&& final(doctrine).current_page_message_count
                == old(doctrine).current_page_message_count + 1
            &&& final(doctrine).current_message_cost == spec_next_fee(charge)
        }),
        (r is Ok && ledger_wf(*old(doctrine)) && page_wf(*old(page)) && ledger_page_sync(
            *old(doctrine),
            *old(page),
        )) ==> (ledger_wf(*final(doctrine)) && page_wf(*final(page)) && ledger_page_sync(
            *final(doctrine),
            *final(page),
        )),
{
    if mint != config.token_mint {
        return Err(ErrorCode::InvalidTokenMint);
    }
    if page.doctrine_id != doctrine.doctrine_id || page.page_number != doctrine.active_page_number {
        return Err(ErrorCode::InvalidPage);
    }
    if page.messages.len() >= MESSAGES_PER_PAGE {
        return Err(ErrorCode::PageIsFull);
    }
    let current_cost = if doctrine.total_messages == 0 {
        INITIAL_MESSAGE_COST
    } else {
        doctrine.current_message_cost
    };
    let next_cost = match next_fee(current_cost) {
        Ok(f) => f,
        Err(e) => {
            return Err(e);
        },
    };
    if debit != DebitOutcome::Success {
        return Err(ErrorCode::DebitFailed);
    }
    page.messages.push(Message { ipfs_cid });
    let message_index = (page.messages.len() - 1) as u32;
    doctrine.total_messages = doctrine.total_messages + 1;
    doctrine.current_page_message_count = doctrine.current_page_message_count + 1;
    doctrine.current_message_cost = next_cost;
    Ok(
        MessageAddedEvent {
            doctrine_id: doctrine.doctrine_id,
            page_number: page.page_number,
            message_index,
            ipfs_cid,
            cost: current_cost,
            next_cost,
        },
    )
}

/// Rolls the doctrine over to a freshly created page and appends the
/// message as its first entry.
///
/// The current page must be the full active page; the new page is created
/// by this function, numbered one past the current page, and is returned
/// holding the single new message at index 0. On success the active-page
/// pointer advances by one and the fee escalates from the charged amount.
/// On any refusal the ledger is exactly as it was and no page is created.
pub fn add_message_to_new_page(
    config: &SystemConfig,
    mint: u64,
    doctrine: &mut Doctrine,
    current_page: &DoctrinePage,
    ipfs_cid: [u8; IPFS_CID_LENGTH],
    debit: DebitOutcome,
) -> (r: Result<(DoctrinePage, MessageAddedEvent), ErrorCode>)
    requires
        old(doctrine).total_messages < u32::MAX,
    ensures
        r is Err <==> new_page_refusal(
            *config,
            mint,
            *old(doctrine),
            *current_page,
            debit,
        ) is Some,
        r matches Err(e) ==> ({
            &&& Some(e) == new_page_refusal(*config, mint, *old(doctrine), *current_page, debit)
            &&& *final(doctrine) == *old(doctrine)
        }),
        r matches Ok(out) ==> ({
            let charge = old(doctrine).current_message_cost;
            &&& out.0.doctrine_id == old(doctrine).doctrine_id
            &&& out.0.page_number == current_page.page_number + 1
            &&& out.0.page_number == old(doctrine).active_page_number + 1
            &&& out.0.messages@.len() == 1
            &&& out.0.messages@[0].ipfs_cid@ == ipfs_cid@
            &&& out.1.doctrine_id == old(doctrine).doctrine_id
            &&& out.1.page_number == out.0.page_number
            &&& out.1.message_index == 0
            &&& out.1.ipfs_cid@ == ipfs_cid@
            &&& out.1.cost == charge
            &&& out.1.next_cost == spec_next_fee(charge)
            &&& final(doctrine).doctrine_id == old(doctrine).doctrine_id
            &&& final(doctrine).messages_per_page == old(doctrine).messages_per_page
            &&& final(doctrine).active_page_number == old(doctrine).active_page_number + 1
            &&& final(doctrine).current_page_message_count == 1
            &&& final(doctrine).total_messages == old(doctrine).total_messages + 1
            &&& final(doctrine).current_message_cost == spec_next_fee(charge)
        }),
        r matches Ok(out) ==> ((ledger_wf(*old(doctrine)) && page_wf(*current_page)
            && ledger_page_sync(*old(doctrine), *current_page)) ==> (ledger_wf(*final(doctrine))
            && page_wf(out.0) && ledger_page_sync(*final(doctrine), out.0))),
{
    if mint != config.token_mint {
        return Err(ErrorCode::InvalidTokenMint);
    }
    if current_page.doctrine_id != doctrine.doctrine_id
        || current_page.page_number != doctrine.active_page_number {
        return Err(ErrorCode::InvalidPage);
    }
    if current_page.messages.len() < MESSAGES_PER_PAGE {
        return Err(ErrorCode::CurrentPageNotFull);
    }
    if doctrine.active_page_number >= MAX_PAGE_NUMBER {
        return Err(ErrorCode::PageNumberOverflow);
    }
    let current_cost = doctrine.current_message_cost;
    let next_cost = match next_fee(current_cost) {
        Ok(f) => f,
        Err(e) => {
            return Err(e);
        },
    };
    if debit != DebitOutcome::Success {
        return Err(ErrorCode::DebitFailed);
    }
    let mut new_page = DoctrinePage {
        doctrine_id: doctrine.doctrine_id,
        page_number: doctrine.active_page_number + 1,
        messages: Vec::new(),
    };
    new_page.messages.push(Message { ipfs_cid });
    doctrine.active_page_number = doctrine.active_page_number + 1;
    doctrine.current_page_message_count = 1;
    doctrine.total_messages = doctrine.total_messages + 1;
    doctrine.current_message_cost = next_cost;
    let event = MessageAddedEvent {
        doctrine_id: doctrine.doctrine_id,
        page_number: new_page.page_number,
        message_index: 0,
        ipfs_cid,
        cost: current_cost,
        next_cost,
    };
    Ok((new_page, event))
}

} // verus!
