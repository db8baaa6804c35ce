//! The explanation engine: classifies object changes, formats balance
//! changes and events, works out status and gas, and writes the summary.

use vstd::prelude::*;
use crate::format::{
    decimal, format_signed, format_signed_sui, format_sui, push_decimal, signed_sui_text,
    signed_text, sui_text,
};
use crate::models::{BalanceChange, ObjectMod, TransactionExplanation};
use crate::raw::{
    ExecutionStatus, GasCostSummary, RawBalanceChange, RawEvent, RawObjectChange, RawTransaction,
};
use crate::text::{
    native_coin_label, short_address, shorten_address, simple_type, simplify_type,
};

verus! {

/// The text views of an optional string.
pub open spec fn opt_view(o: Option<String>) -> Option<Seq<char>> {
    match o {
        Some(s) => Some(s@),
        None => None,
    }
}

/// `m` is the record that describes the raw object change `c`.
pub open spec fn describes_object(m: ObjectMod, c: RawObjectChange) -> bool {
    match c {
        RawObjectChange::Created { object_id, object_type, owner } => {
            &&& m.change_type@ == "Created"@
            &&& m.object_type@ == simple_type(object_type@)
            &&& m.object_id@ == object_id@
            &&& opt_view(m.owner) == Some(owner@)
            &&& m.details@ == "Created new "@ + simple_type(object_type@) + " owned by "@
                + short_address(owner@)
        },
        RawObjectChange::Transferred { object_id, object_type, sender, recipient } => {
            &&& m.change_type@ == "Transferred"@
            &&& m.object_type@ == simple_type(object_type@)
            &&& m.object_id@ == object_id@
            &&& opt_view(m.owner) == Some(recipient@)
            &&& m.details@ == "Transferred "@ + simple_type(object_type@) + " from "@
                + short_address(sender@) + " to "@ + short_address(recipient@)
        },
        RawObjectChange::Mutated { object_id, object_type, owner } => {
            &&& m.change_type@ == "Mutated"@
            &&& m.object_type@ == simple_type(object_type@)
            &&& m.object_id@ == object_id@
            &&& opt_view(m.owner) == Some(owner@)
            &&& m.details@ == "Modified "@ + simple_type(object_type@) + " owned by "@
                + short_address(owner@)
        },
        RawObjectChange::Deleted { object_id, object_type } => {
            &&& m.change_type@ == "Deleted"@
            &&& m.object_type@ == simple_type(object_type@)
            &&& m.object_id@ == object_id@
            &&& m.owner is None
            &&& m.details@ == "Deleted "@ + simple_type(object_type@)
        },
        RawObjectChange::Other => {
            &&& m.change_type@ == "Unknown"@
            &&& m.object_type@ == "Unknown"@
            &&& m.object_id@ == "Unknown"@
            &&& m.owner is None
            &&& m.details@ == "Unknown object change"@
        },
    }
}

/// Classifies one raw object change and writes its sentence.
pub fn parse_object_change(change: &RawObjectChange) -> (r: ObjectMod)
    ensures
        describes_object(r, *change),
{
    match change {
        RawObjectChange::Created { object_id, object_type, owner } => {
            let t = simplify_type(object_type.as_str());
            let mut details = String::from_str("Created new ");
            details.append(t.as_str());
            details.append(" owned by ");
            details.append(shorten_address(owner.as_str()).as_str());
            ObjectMod {
                change_type: String::from_str("Created"),
                object_type: t,
                object_id: object_id.clone(),
                owner: Some(owner.clone()),
                details,
            }
        },
        RawObjectChange::Transferred { object_id, object_type, sender, recipient } => {
            let t = simplify_type(object_type.as_str());
            let mut details = String::from_str("Transferred ");
            details.append(t.as_str());
            details.append(" from ");
            details.append(shorten_address(sender.as_str()).as_str());
            details.append(" to ");
            details.append(shorten_address(recipient.as_str()).as_str());
            ObjectMod {
                change_type: String::from_str("Transferred"),
                object_type: t,
                object_id: object_id.clone(),
                owner: Some(recipient.clone()),
                details,
            }
        },
        RawObjectChange::Mutated { object_id, object_type, owner } => {
            let t = simplify_type(object_type.as_str());
            let mut details = String::from_str("Modified ");
            details.append(t.as_str());
            details.append(" owned by ");
            details.append(shorten_address(owner.as_str()).as_str());
            ObjectMod {
                change_type: String::from_str("Mutated"),
                object_type: t,
                object_id: object_id.clone(),
                owner: Some(owner.clone()),
                details,
            }
        },
        RawObjectChange::Deleted { object_id, object_type } => {
            let t = simplify_type(object_type.as_str());
            let mut details = String::from_str("Deleted ");
            details.append(t.as_str());
            ObjectMod {
                change_type: String::from_str("Deleted"),
                object_type: t,
                object_id: object_id.clone(),
                owner: None,
                details,
            }
        },
        RawObjectChange::Other => ObjectMod {
            change_type: String::from_str("Unknown"),
            object_type: String::from_str("Unknown"),
            object_id: String::from_str("Unknown"),
            owner: None,
            details: String::from_str("Unknown object change"),
        },
    }
}

/// A simplified coin type names the native coin.
pub open spec fn is_native_coin(coin_type: Seq<char>) -> bool {
    coin_type == native_coin_label()
}

/// Readable form of a balance delta: coins with sign and unit for the
/// native coin, the raw signed integer otherwise.
pub open spec fn readable_amount(coin_type: Seq<char>, amount: int) -> Seq<char> {
    if is_native_coin(coin_type) {
        signed_sui_text(amount)
    } else {
        signed_text(amount)
    }
}

/// `b` is the record that describes the raw balance change `c`.
pub open spec fn describes_balance(b: BalanceChange, c: RawBalanceChange) -> bool {
    &&& b.owner@ == c.owner@
    &&& b.coin_type@ == simple_type(c.coin_type@)
    &&& b.amount == c.amount
    &&& b.amount_readable@ == readable_amount(simple_type(c.coin_type@), c.amount as int)
}

/// Formats one raw balance change.
pub fn parse_balance_change(balance: &RawBalanceChange) -> (r: BalanceChange)
    ensures
        describes_balance(r, *balance),
{
    let coin_type = simplify_type(balance.coin_type.as_str());
    let amount = balance.amount;
    let amount_readable = if coin_type == String::from_str("SUI Coin") {
        format_signed_sui(amount)
    } else {
        format_signed(amount)
    };
    BalanceChange { owner: balance.owner.clone(), coin_type, amount, amount_readable }
}

/// The sentence that describes an event.
pub open spec fn event_text(e: RawEvent) -> Seq<char> {
    "Event: "@ + simple_type(e.event_type@) + " from package "@ + e.package_id@
}

/// Describes one emitted event.
pub fn format_event(event: &RawEvent) -> (r: String)
    ensures
        r@ == event_text(*event),
{
    let mut r = String::from_str("Event: ");
    r.append(simplify_type(event.event_type.as_str()).as_str());
    r.append(" from package ");
    r.append(event.package_id.as_str());
    r
}

/// Status line for an execution outcome.
pub open spec fn status_text(s: ExecutionStatus) -> Seq<char> {
    match s {
        ExecutionStatus::Success => "Success"@,
        ExecutionStatus::Failure(detail) => "Failed : "@ + detail@,
    }
}

/// Writes the status line of an execution outcome.
pub fn format_status(status: &ExecutionStatus) -> (r: String)
    ensures
        r@ == status_text(*status),
{
    match status {
        ExecutionStatus::Success => String::from_str("Success"),
        ExecutionStatus::Failure(detail) => {
            let mut r = String::from_str("Failed : ");
            r.append(detail.as_str());
            r
        },
    }
}

/// Gas used: computation plus storage minus rebate, held to the range of
/// `u64` (zero when the rebate exceeds the charges).
pub open spec fn gas_total(g: GasCostSummary) -> nat {
    let t = g.computation_cost + g.storage_cost - g.storage_rebate;
    if t < 0 {
        0
    } else if t > u64::MAX {
        u64::MAX as nat
    } else {
        t as nat
    }
}

/// Computes the gas used from the cost summary, saturating at both ends.
pub fn gas_used(g: &GasCostSummary) -> (r: u64)
    ensures
        r == gas_total(*g),
{
    let charged = g.computation_cost as u128 + g.storage_cost as u128;
    let rebate = g.storage_rebate as u128;
    if charged <= rebate {
        0
    } else if charged - rebate > u64::MAX as u128 {
        u64::MAX
    } else {
        (charged - rebate) as u64
    }
}

/// `"{n} {noun}"`, with an `s` appended unless `n` is one.
pub open spec fn count_text(n: nat, noun: Seq<char>) -> Seq<char> {
    decimal(n) + " "@ + noun + if n == 1 {
        Seq::<char>::empty()
    } else {
        "s"@
    }
}

/// Separator between the parts of a summary.
pub open spec fn bullet() -> Seq<char> {
    " • "@
}

/// One-line summary from the number of object and balance changes and the
/// rendered gas.
pub open spec fn summary_text(n_objects: nat, n_balances: nat, gas: Seq<char>) -> Seq<char> {
    let objects = count_text(n_objects, "object change"@);
    let balances = count_text(n_balances, "balance change"@);
    let tail = bullet() + "Gas: "@ + gas;
    if n_objects == 0 && n_balances == 0 {
        "Transaction executed with "@ + gas + " gas"@
    } else if n_balances == 0 {
        objects + tail
    } else if n_objects == 0 {
        balances + tail
    } else {
        objects + bullet() + balances + tail
    }
}

/// Appends `"{n} {noun}"`, pluralised.
fn push_count(s: &mut String, n: usize, noun: &str)
    ensures
        final(s)@ == old(s)@ + count_text(n as nat, noun@),
{
    push_decimal(s, n as u128);
    s.append(" ");
    s.append(noun);
    if n != 1 {
        s.append("s");
    }
    proof {
        reveal_strlit("");
    }
    assert(final(s)@ =~= old(s)@ + count_text(n as nat, noun@));
}

/// Writes the one-line summary of an explanation from its object-change
/// and balance-change counts and its rendered gas.
pub fn generate_summary(explanation: &TransactionExplanation) -> (r: String)
    ensures
        r@ == summary_text(
            explanation.object_changes@.len(),
            explanation.balance_changes@.len(),
            explanation.gas_used_sui@,
        ),
{
    let n_objects = explanation.object_changes.len();
    let n_balances = explanation.balance_changes.len();
    let gas = explanation.gas_used_sui.as_str();
    if n_objects == 0 && n_balances == 0 {
        let mut r = String::from_str("Transaction executed with ");
        r.append(gas);
        r.append(" gas");
        return r;
    }
    let mut r = String::new();
    if n_objects > 0 {
        push_count(&mut r, n_objects, "object change");
    }
    if n_balances > 0 {
        if n_objects > 0 {
            r.append(" • ");
        }
        push_count(&mut r, n_balances, "balance change");
    }
    r.append(" • ");
    r.append("Gas: ");
    r.append(gas);
    assert(r@ =~= summary_text(n_objects as nat, n_balances as nat, gas@));
    r
}

/// The entries of an optional section; a missing section has none.
pub open spec fn section<T>(o: Option<Vec<T>>) -> Seq<T> {
    match o {
        Some(v) => v@,
        None => Seq::empty(),
    }
}

/// `r` is the explanation of the raw transaction `tx` under `digest`.
pub open spec fn explains(r: TransactionExplanation, digest: Seq<char>, tx: RawTransaction) -> bool {
    let objects = section(tx.object_changes);
    let balances = section(tx.balance_changes);
    let events = section(tx.events);
    &&& r.digest@ == digest
    &&& r.sender@ == match tx.sender {
        Some(s) => s@,
        None => Seq::<char>::empty(),
    }
    &&& match tx.effects {
        None => r.status@ == Seq::<char>::empty() && r.gas_used == 0,
        Some(e) => r.status@ == status_text(e.status) && r.gas_used == gas_total(e.gas),
    }
    &&& r.gas_used_sui@ == sui_text(r.gas_used as nat)
    &&& r.object_changes@.len() == objects.len()
    &&& forall|i: int|
        0 <= i < objects.len() ==> describes_object(#[trigger] r.object_changes@[i], objects[i])
    &&& r.actions@.len() == objects.len()
    &&& forall|i: int|
        0 <= i < objects.len() ==> #[trigger] r.actions@[i]@ == r.object_changes@[i].details@
    &&& r.balance_changes@.len() == balances.len()
    &&& forall|i: int|
        0 <= i < balances.len() ==> describes_balance(#[trigger] r.balance_changes@[i], balances[i])
    &&& r.events@.len() == events.len()
    &&& forall|i: int| 0 <= i < events.len() ==> #[trigger] r.events@[i]@ == event_text(events[i])
    &&& r.summary@ == summary_text(objects.len(), balances.len(), r.gas_used_sui@)
}

/// Explains every object change in order; each sentence is also an action.
fn parse_object_changes(changes: &Vec<RawObjectChange>) -> (r: (Vec<String>, Vec<ObjectMod>))
    ensures
        r.1@.len() == changes@.len(),
        r.0@.len() == changes@.len(),
        forall|i: int| 0 <= i < changes@.len() ==> describes_object(#[trigger] r.1@[i], changes@[i]),
        forall|i: int| 0 <= i < changes@.len() ==> #[trigger] r.0@[i]@ == r.1@[i].details@,
{
    let mut actions: Vec<String> = Vec::new();
    let mut mods: Vec<ObjectMod> = Vec::new();
    let mut i: usize = 0;
    while i < changes.len()
        invariant
            i <= changes@.len(),
            mods@.len() == i,
            actions@.len() == i,
            forall|k: int| 0 <= k < i ==> describes_object(#[trigger] mods@[k], changes@[k]),
            forall|k: int| 0 <= k < i ==> #[trigger] actions@[k]@ == mods@[k].details@,
        decreases changes@.len() - i,
    {
        let m = parse_object_change(&changes[i]);
        actions.push(m.details.clone());
        mods.push(m);
        i += 1;
    }
    (actions, mods)
}

/// Formats every balance change in order.
fn parse_balance_changes(balances: &Vec<RawBalanceChange>) -> (r: Vec<BalanceChange>)
    ensures
        r@.len() == balances@.len(),
        forall|i: int| 0 <= i < balances@.len() ==> describes_balance(#[trigger] r@[i], balances@[i]),
{
    let mut out: Vec<BalanceChange> = Vec::new();
    let mut i: usize = 0;
    while i < balances.len()
        invariant
            i <= balances@.len(),
            out@.len() == i,
            forall|k: int| 0 <= k < i ==> describes_balance(#[trigger] out@[k], balances@[k]),
        decreases balances@.len() - i,
    {
        out.push(parse_balance_change(&balances[i]));
        i += 1;
    }
    out
}

/// Describes every event in emission order.
fn format_events(events: &Vec<RawEvent>) -> (r: Vec<String>)
    ensures
        r@.len() == events@.len(),
        forall|i: int| 0 <= i < events@.len() ==> #[trigger] r@[i]@ == event_text(events@[i]),
{
    let mut out: Vec<String> = Vec::new();
    let mut i: usize = 0;
    while i < events.len()
        invariant
            i <= events@.len(),
            out@.len() == i,
            forall|k: int| 0 <= k < i ==> #[trigger] out@[k]@ == event_text(events@[k]),
        decreases events@.len() - i,
    {
        out.push(format_event(&events[i]));
        i += 1;
    }
    out
}

/// Turns a raw transaction into its explanation; missing sections leave
/// the matching fields empty, and the summary is written last.
pub fn parse_transaction(digest: &str, tx: &RawTransaction) -> (r: TransactionExplanation)
    ensures
        explains(r, digest@, *tx),
{
    let mut explanation = TransactionExplanation::empty(digest);
    if let Some(sender) = &tx.sender {
        explanation.sender = sender.clone();
    }
    if let Some(effects) = &tx.effects {
        explanation.status = format_status(&effects.status);
        explanation.gas_used = gas_used(&effects.gas);
        explanation.gas_used_sui = format_sui(explanation.gas_used);
    }
    if let Some(changes) = &tx.object_changes {
        let (actions, mods) = parse_object_changes(changes);
        explanation.actions = actions;
        explanation.object_changes = mods;
    }
    if let Some(balances) = &tx.balance_changes {
        explanation.balance_changes = parse_balance_changes(balances);
    }
    if let Some(events) = &tx.events {
        explanation.events = format_events(events);
    }
    explanation.summary = generate_summary(&explanation);
    explanation
}

} // verus!
