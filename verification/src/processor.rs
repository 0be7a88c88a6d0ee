//! Extraction of token events from transaction messages.
//!
//! A message is looked at only if one of its account keys is the creator key
//! that the processor was made with. Its second account key names the asset.
//! Each instruction addressed to the creator key or to the token program is
//! decoded; a creation registers the asset's reserves, a purchase moves them.

use crate::instruction::{
    parse_instruction_data, spec_decode, BuyInstruction, CreateEventInstruction, CreateEventView,
    DecodedInstruction, InstructionView,
};
use crate::keys::{base58_text, key_to_text, keys_equal};
use crate::reserves::{
    default_price, spec_created, spec_default_price, spec_price_of, spec_purchased, spec_traded,
    Price, ReserveTracker, TokenReserves,
};
use crate::transaction::PUMP_PROGRAM_ID;
use vstd::prelude::*;

verus! {

/// The creator key that token creations are signed with.
pub const TOKEN_CREATOR_PUBKEY: [u8; 32] = [
    6, 197, 193, 206, 99, 141, 37, 103, 210, 100, 104, 176, 94, 185, 81, 209, 162, 141, 204, 110,
    18, 52, 130, 181, 198, 117, 20, 151, 112, 230, 43, 242,
];

/// One instruction of a message: the place of its program among the
/// message's account keys, and its payload.
#[derive(Clone, Debug, PartialEq, Eq)]
pub struct CompiledInstruction {
    pub program_id_index: u8,
    pub data: Vec<u8>,
}

/// What the processor reads of a transaction message.
#[derive(Clone, Debug, PartialEq, Eq)]
pub struct TransactionMessage {
    pub account_keys: Vec<[u8; 32]>,
    pub instructions: Vec<CompiledInstruction>,
}

/// Something that happened to an asset.
#[derive(Clone, Debug, PartialEq, Eq)]
pub enum TokenEvent {
    /// The asset `mint` was created. `first_seen` tells whether its reserves
    /// were registered by this event.
    Created { mint: String, event: CreateEventInstruction, first_seen: bool },
    /// `buyer` bought the asset `mint`. `before` and `after` are the asset's
    /// reserves around the purchase, where the asset is known; `price` is the
    /// price implied by `after`, or the default price where it is not known.
    Bought {
        mint: String,
        buyer: [u8; 32],
        trade: BuyInstruction,
        before: Option<TokenReserves>,
        after: Option<TokenReserves>,
        price: Price,
    },
}

/// The mathematical content of a `TokenEvent`.
pub enum TokenEventView {
    Created { mint: Seq<char>, event: CreateEventView, first_seen: bool },
    Bought {
        mint: Seq<char>,
        buyer: Seq<u8>,
        trade: BuyInstruction,
        before: Option<TokenReserves>,
        after: Option<TokenReserves>,
        price: Price,
    },
}

impl View for TokenEvent {
    type V = TokenEventView;

    open spec fn view(&self) -> TokenEventView {
        match self {
            TokenEvent::Created { mint, event, first_seen } => TokenEventView::Created {
                mint: mint@,
                event: event@,
                first_seen: *first_seen,
            },
            TokenEvent::Bought { mint, buyer, trade, before, after, price } => {
                TokenEventView::Bought {
                    mint: mint@,
                    buyer: buyer@,
                    trade: *trade,
                    before: *before,
                    after: *after,
                    price: *price,
                }
            },
        }
    }
}

/// The contents of a list of events.
pub open spec fn events_view(events: Seq<TokenEvent>) -> Seq<TokenEventView> {
    Seq::new(events.len(), |i: int| events[i]@)
}

/// The known reserves and the events reported so far.
pub struct Progress {
    pub known: Map<Seq<char>, TokenReserves>,
    pub events: Seq<TokenEventView>,
}

/// Progress with the given reserves and events.
pub open spec fn progress_of(
    known: Map<Seq<char>, TokenReserves>,
    events: Seq<TokenEventView>,
) -> Progress {
    Progress { known, events }
}

/// Progress with the given reserves and no event yet.
pub open spec fn fresh_progress(known: Map<Seq<char>, TokenReserves>) -> Progress {
    Progress { known, events: Seq::empty() }
}

/// Whether one of `keys` is `creator`.
pub open spec fn spec_involves(creator: Seq<u8>, keys: Seq<[u8; 32]>) -> bool {
    exists|i: int| 0 <= i < keys.len() && (#[trigger] keys[i])@ == creator
}

/// Whether the key at `index` exists and is `creator` or the token program.
pub open spec fn spec_is_target(creator: Seq<u8>, keys: Seq<[u8; 32]>, index: u8) -> bool {
    index < keys.len() && (keys[index as int]@ == creator || keys[index as int]@
        == PUMP_PROGRAM_ID@)
}

/// The event that a decoded instruction stands for, given the reserves known
/// before it.
pub open spec fn spec_event(
    known: Map<Seq<char>, TokenReserves>,
    mint: Seq<char>,
    buyer: Seq<u8>,
    decoded: InstructionView,
) -> TokenEventView {
    match decoded {
        InstructionView::Created(event) => TokenEventView::Created {
            mint,
            event,
            first_seen: !known.contains_key(mint),
        },
        InstructionView::Traded(trade) => if known.contains_key(mint) {
            let after = spec_traded(known[mint], trade.amount, trade.max_sol_cost);
            TokenEventView::Bought {
                mint,
                buyer,
                trade,
                before: Some(known[mint]),
                after: Some(after),
                price: spec_price_of(after),
            }
        } else {
            TokenEventView::Bought {
                mint,
                buyer,
                trade,
                before: None,
                after: None,
                price: spec_default_price(),
            }
        },
    }
}

/// The known reserves after a decoded instruction.
pub open spec fn spec_apply(
    known: Map<Seq<char>, TokenReserves>,
    mint: Seq<char>,
    decoded: InstructionView,
) -> Map<Seq<char>, TokenReserves> {
    match decoded {
        InstructionView::Created(event) => spec_created(known, mint),
        InstructionView::Traded(trade) => spec_purchased(
            known,
            mint,
            trade.amount,
            trade.max_sol_cost,
        ),
    }
}

/// Progress after one instruction: unchanged where the instruction is for
/// another program or does not decode, else with the reserves moved and one
/// more event.
pub open spec fn spec_step(
    creator: Seq<u8>,
    keys: Seq<[u8; 32]>,
    mint: Seq<char>,
    progress: Progress,
    instruction: CompiledInstruction,
) -> Progress {
    if spec_is_target(creator, keys, instruction.program_id_index) {
        match spec_decode(instruction.data@) {
            Ok(decoded) => Progress {
                known: spec_apply(progress.known, mint, decoded),
                events: progress.events.push(spec_event(progress.known, mint, keys[0]@, decoded)),
            },
            Err(e) => progress,
        }
    } else {
        progress
    }
}

/// Progress after the first `count` of `instructions`.
pub open spec fn spec_steps(
    creator: Seq<u8>,
    keys: Seq<[u8; 32]>,
    mint: Seq<char>,
    start: Progress,
    instructions: Seq<CompiledInstruction>,
    count: nat,
) -> Progress
    decreases count,
{
    if count == 0 {
        start
    } else {
        spec_step(
            creator,
            keys,
            mint,
            spec_steps(creator, keys, mint, start, instructions, (count - 1) as nat),
            instructions[count - 1],
        )
    }
}

/// Whether a message is looked at: it names the creator key and has the
/// three account keys that a token transaction starts with.
pub open spec fn spec_is_relevant(creator: Seq<u8>, message: TransactionMessage) -> bool {
    spec_involves(creator, message.account_keys@) && message.account_keys@.len() >= 3
}

/// Progress after a whole message.
pub open spec fn spec_message(
    creator: Seq<u8>,
    start: Progress,
    message: TransactionMessage,
) -> Progress {
    if spec_is_relevant(creator, message) {
        spec_steps(
            creator,
            message.account_keys@,
            base58_text(message.account_keys@[1]@),
            start,
            message.instructions@,
            message.instructions@.len(),
        )
    } else {
        start
    }
}

/// Progress after the first `count` of `messages`.
pub open spec fn spec_messages(
    creator: Seq<u8>,
    start: Progress,
    messages: Seq<TransactionMessage>,
    count: nat,
) -> Progress
    decreases count,
{
    if count == 0 {
        start
    } else {
        spec_message(
            creator,
            spec_messages(creator, start, messages, (count - 1) as nat),
            messages[count - 1],
        )
    }
}

/// Turns transaction messages into token events and keeps the reserves of
/// every asset it has seen created.
pub struct TransactionProcessor {
    token_creator_pubkey: [u8; 32],
    token_reserves: ReserveTracker,
}

impl TransactionProcessor {
    /// The creator key the processor looks for.
    pub closed spec fn creator(&self) -> Seq<u8> {
        self.token_creator_pubkey@
    }

    /// The reserves of the assets seen so far.
    pub closed spec fn known(&self) -> Map<Seq<char>, TokenReserves> {
        self.token_reserves@
    }

    /// A processor that has seen nothing.
    pub fn new(token_creator_pubkey: [u8; 32]) -> (r: Self)
        ensures
            r.creator() == token_creator_pubkey@,
            r.known() == Map::<Seq<char>, TokenReserves>::empty(),
    {
        TransactionProcessor { token_creator_pubkey, token_reserves: ReserveTracker::new() }
    }

    /// The reserves of the asset `mint`, if it has been seen created.
    pub fn reserves_of(&self, mint: &str) -> (r: Option<TokenReserves>)
        ensures
            r == if self.known().contains_key(mint@) {
                Some(self.known()[mint@])
            } else {
                None
            },
    {
        self.token_reserves.reserves_of(mint)
    }

    /// Whether a message is looked at.
    pub fn is_relevant(&self, message: &TransactionMessage) -> (r: bool)
        ensures
            r == spec_is_relevant(self.creator(), *message),
    {
        let keys = &message.account_keys;
        let mut found: bool = false;
        let mut i: usize = 0;
        while i < keys.len()
            invariant
                i <= keys@.len(),
                found == exists|j: int| 0 <= j < i && (#[trigger] keys@[j])@ == self.creator(),
            decreases keys@.len() - i,
        {
            if keys_equal(&keys[i], &self.token_creator_pubkey) {
                found = true;
            }
            i = i + 1;
        }
        found && keys.len() >= 3
    }

    /// Whether the instruction's program is the creator key or the token
    /// program.
    fn is_target(&self, message: &TransactionMessage, index: u8) -> (r: bool)
        ensures
            r == spec_is_target(self.creator(), message.account_keys@, index),
    {
        let keys = &message.account_keys;
        if (index as usize) < keys.len() {
            let program = &keys[index as usize];
            keys_equal(program, &self.token_creator_pubkey) || keys_equal(
                program,
                &PUMP_PROGRAM_ID,
            )
        } else {
            false
        }
    }

    /// Applies a decoded instruction to the reserves of `mint` and reports
    /// the event.
    fn apply(&mut self, mint: &String, buyer: [u8; 32], decoded: DecodedInstruction) -> (event:
        TokenEvent)
        ensures
            final(self).creator() == old(self).creator(),
            final(self).known() == spec_apply(old(self).known(), mint@, decoded@),
            event@ == spec_event(old(self).known(), mint@, buyer@, decoded@),
    {
        match decoded {
            DecodedInstruction::Created(event) => {
                let first_seen = self.token_reserves.on_created(mint.as_str());
                TokenEvent::Created { mint: mint.clone(), event, first_seen }
            },
            DecodedInstruction::Traded(trade) => {
                let before = self.token_reserves.reserves_of(mint.as_str());
                let implied = self.token_reserves.on_traded(
                    mint.as_str(),
                    trade.amount,
                    trade.max_sol_cost,
                );
                let after = self.token_reserves.reserves_of(mint.as_str());
                let price = match implied {
                    Some(p) => p,
                    None => default_price(),
                };
                TokenEvent::Bought { mint: mint.clone(), buyer, trade, before, after, price }
            },
        }
    }

    /// Processes one message: decodes each of its instructions that is
    /// addressed to the creator key or the token program, moves the reserves,
    /// and returns the events in the order of the instructions.
    pub fn process_message(&mut self, message: &TransactionMessage) -> (events: Vec<TokenEvent>)
        ensures
            final(self).creator() == old(self).creator(),
            progress_of(final(self).known(), events_view(events@)) == spec_message(
                old(self).creator(),
                fresh_progress(old(self).known()),
                *message,
            ),
    {
        let mut events: Vec<TokenEvent> = Vec::new();
        assert(events_view(events@) =~= Seq::empty());
        if !self.is_relevant(message) {
            return events;
        }
        let mint: String = key_to_text(&message.account_keys[1]);
        let buyer: [u8; 32] = message.account_keys[0];
        let ghost start = fresh_progress(self.known());
        let mut i: usize = 0;
        while i < message.instructions.len()
            invariant
                i <= message.instructions@.len(),
                message.account_keys@.len() >= 3,
                self.creator() == old(self).creator(),
                mint@ == base58_text(message.account_keys@[1]@),
                buyer == message.account_keys@[0],
                progress_of(self.known(), events_view(events@)) == spec_steps(
                    self.creator(),
                    message.account_keys@,
                    mint@,
                    start,
                    message.instructions@,
                    i as nat,
                ),
            decreases message.instructions@.len() - i,
        {
            let instruction = &message.instructions[i];
            if self.is_target(message, instruction.program_id_index) {
                match parse_instruction_data(instruction.data.as_slice()) {
                    Ok(decoded) => {
                        let ghost before = events_view(events@);
                        let event = self.apply(&mint, buyer, decoded);
                        events.push(event);
                        assert(events_view(events@) =~= before.push(event@));
                    },
                    Err(_) => {},
                }
            }
            i = i + 1;
        }
        events
    }

    /// Processes messages one after the other and returns all their events.
    pub fn process_entries(&mut self, messages: &Vec<TransactionMessage>) -> (events: Vec<
        TokenEvent,
    >)
        ensures
            final(self).creator() == old(self).creator(),
            progress_of(final(self).known(), events_view(events@)) == spec_messages(
                old(self).creator(),
                fresh_progress(old(self).known()),
                messages@,
                messages@.len(),
            ),
    {
        let mut events: Vec<TokenEvent> = Vec::new();
        assert(events_view(events@) =~= Seq::empty());
        let ghost start = fresh_progress(self.known());
        let mut i: usize = 0;
        while i < messages.len()
            invariant
                i <= messages@.len(),
                self.creator() == old(self).creator(),
                progress_of(self.known(), events_view(events@)) == spec_messages(
                    self.creator(),
                    start,
                    messages@,
                    i as nat,
                ),
            decreases messages@.len() - i,
        {
            let ghost so_far = progress_of(self.known(), events_view(events@));
            let mut more = self.process_message(&messages[i]);
            proof {
                lemma_message_appends(self.creator(), so_far, messages@[i as int]);
            }
            let ghost joined = events_view(events@) + events_view(more@);
            events.append(&mut more);
            assert(events_view(events@) =~= joined);
            i = i + 1;
        }
        events
    }
}

/// Steps that start with some events already reported keep those events in
/// front and add what the same steps report when they start with none.
pub proof fn lemma_steps_append(
    creator: Seq<u8>,
    keys: Seq<[u8; 32]>,
    mint: Seq<char>,
    start: Progress,
    instructions: Seq<CompiledInstruction>,
    count: nat,
)
    ensures
        spec_steps(creator, keys, mint, start, instructions, count).known == spec_steps(
            creator,
            keys,
            mint,
            fresh_progress(start.known),
            instructions,
            count,
        ).known,
        spec_steps(creator, keys, mint, start, instructions, count).events == start.events
            + spec_steps(
            creator,
            keys,
            mint,
            fresh_progress(start.known),
            instructions,
            count,
        ).events,
    decreases count,
{
    let fresh = fresh_progress(start.known);
    if count == 0 {
        assert(start.events =~= start.events + fresh.events);
    } else {
        lemma_steps_append(creator, keys, mint, start, instructions, (count - 1) as nat);
        let a = spec_steps(creator, keys, mint, start, instructions, (count - 1) as nat);
        let b = spec_steps(creator, keys, mint, fresh, instructions, (count - 1) as nat);
        let a2 = spec_step(creator, keys, mint, a, instructions[count - 1]);
        let b2 = spec_step(creator, keys, mint, b, instructions[count - 1]);
        assert(a2.known == b2.known);
        assert(a2.events =~= start.events + b2.events);
    }
}

/// A message processed after some events were reported keeps those events in
/// front and adds what the message reports on its own.
pub proof fn lemma_message_appends(creator: Seq<u8>, start: Progress, message: TransactionMessage)
    ensures
        spec_message(creator, start, message).known == spec_message(
            creator,
            fresh_progress(start.known),
            message,
        ).known,
        spec_message(creator, start, message).events == start.events + spec_message(
            creator,
            fresh_progress(start.known),
            message,
        ).events,
{
    if spec_is_relevant(creator, message) {
        lemma_steps_append(
            creator,
            message.account_keys@,
            base58_text(message.account_keys@[1]@),
            start,
            message.instructions@,
            message.instructions@.len(),
        );
    } else {
        assert(start.events =~= start.events + Seq::<TokenEventView>::empty());
    }
}

/// A step keeps every known asset known and touches no reserves but those
/// of the message's own asset.
pub proof fn lemma_step_touches_only_its_mint(
    creator: Seq<u8>,
    keys: Seq<[u8; 32]>,
    mint: Seq<char>,
    progress: Progress,
    instruction: CompiledInstruction,
    other: Seq<char>,
)
    ensures
        progress.known.contains_key(other) ==> spec_step(
            creator,
            keys,
            mint,
            progress,
            instruction,
        ).known.contains_key(other),
        other != mint ==> spec_step(creator, keys, mint, progress, instruction).known.contains_key(
            other,
        ) == progress.known.contains_key(other),
        other != mint && progress.known.contains_key(other) ==> spec_step(
            creator,
            keys,
            mint,
            progress,
            instruction,
        ).known[other] == progress.known[other],
{
}

/// A message keeps every known asset known and touches no reserves but
/// those of its own asset, the one that its second account key names.
pub proof fn lemma_message_touches_only_its_mint(
    creator: Seq<u8>,
    start: Progress,
    message: TransactionMessage,
    other: Seq<char>,
)
    requires
        message.account_keys@.len() >= 2 ==> other != base58_text(message.account_keys@[1]@),
    ensures
        spec_message(creator, start, message).known.contains_key(other)
            == start.known.contains_key(other),
        start.known.contains_key(other) ==> spec_message(creator, start, message).known[other]
            == start.known[other],
{
    if spec_is_relevant(creator, message) {
        lemma_steps_touch_only_their_mint(
            creator,
            message.account_keys@,
            base58_text(message.account_keys@[1]@),
            start,
            message.instructions@,
            message.instructions@.len(),
            other,
        );
    }
}

/// Steps keep every known asset known and touch no reserves but those of the
/// message's own asset.
pub proof fn lemma_steps_touch_only_their_mint(
    creator: Seq<u8>,
    keys: Seq<[u8; 32]>,
    mint: Seq<char>,
    start: Progress,
    instructions: Seq<CompiledInstruction>,
    count: nat,
    other: Seq<char>,
)
    requires
        other != mint,
    ensures
        spec_steps(creator, keys, mint, start, instructions, count).known.contains_key(other)
            == start.known.contains_key(other),
        start.known.contains_key(other) ==> spec_steps(
            creator,
            keys,
            mint,
            start,
            instructions,
            count,
        ).known[other] == start.known[other],
    decreases count,
{
    if count > 0 {
        lemma_steps_touch_only_their_mint(
            creator,
            keys,
            mint,
            start,
            instructions,
            (count - 1) as nat,
            other,
        );
        lemma_step_touches_only_its_mint(
            creator,
            keys,
            mint,
            spec_steps(creator, keys, mint, start, instructions, (count - 1) as nat),
            instructions[count - 1],
            other,
        );
    }
}

} // verus!
