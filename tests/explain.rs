use sui_readable::explain::{
    format_event, gas_used, generate_summary, parse_balance_change, parse_object_change,
    parse_transaction,
};
use sui_readable::format::{format_signed, format_signed_sui, format_sui};
use sui_readable::models::TransactionExplanation;
use sui_readable::raw::{
    ExecutionStatus, GasCostSummary, RawBalanceChange, RawEffects, RawEvent, RawObjectChange,
    RawTransaction,
};
use sui_readable::response::{connection_failure, respond, FetchError};
use sui_readable::text::{shorten_address, simplify_type};

fn s(x: &str) -> String {
    x.to_string()
}

fn bare() -> RawTransaction {
    RawTransaction {
        sender: None,
        effects: None,
        object_changes: None,
        balance_changes: None,
        events: None,
    }
}

fn effects(computation: u64, storage: u64, rebate: u64) -> RawEffects {
    RawEffects {
        status: ExecutionStatus::Success,
        gas: GasCostSummary {
            computation_cost: computation,
            storage_cost: storage,
            storage_rebate: rebate,
        },
    }
}

#[test]
fn no_effects_leaves_status_and_gas_empty() {
    let r = parse_transaction("D1", &bare());
    assert_eq!(r.digest, "D1");
    assert_eq!(r.sender, "");
    assert_eq!(r.status, "");
    assert_eq!(r.gas_used, 0);
    assert_eq!(r.gas_used_sui, "0.000000 SUI");
    assert_eq!(r.summary, "Transaction executed with 0.000000 SUI gas");
    assert!(r.actions.is_empty() && r.object_changes.is_empty());
    assert!(r.balance_changes.is_empty() && r.events.is_empty());
}

#[test]
fn ok_execution_reads_success() {
    let mut tx = bare();
    tx.sender = Some(s("0xsender"));
    tx.effects = Some(effects(1, 2, 3));
    let r = parse_transaction("D", &tx);
    assert_eq!(r.status, "Success");
    assert_eq!(r.sender, "0xsender");
}

#[test]
fn failed_execution_carries_detail() {
    let mut tx = bare();
    tx.effects = Some(RawEffects {
        status: ExecutionStatus::Failure(s("Failure { error: \"InsufficientGas\" }")),
        gas: GasCostSummary { computation_cost: 0, storage_cost: 0, storage_rebate: 0 },
    });
    let r = parse_transaction("D", &tx);
    assert_eq!(r.status, "Failed : Failure { error: \"InsufficientGas\" }");
}

#[test]
fn gas_only_transaction() {
    let mut tx = bare();
    tx.effects = Some(effects(1000, 500, 300));
    let r = parse_transaction("D", &tx);
    assert_eq!(r.gas_used, 1200);
    assert_eq!(r.gas_used_sui, "0.000001 SUI");
    assert_eq!(r.summary, "Transaction executed with 0.000001 SUI gas");
}

#[test]
fn gas_saturates_at_both_ends() {
    let under = GasCostSummary { computation_cost: 10, storage_cost: 5, storage_rebate: 100 };
    assert_eq!(gas_used(&under), 0);
    let over = GasCostSummary {
        computation_cost: u64::MAX,
        storage_cost: 10,
        storage_rebate: 1,
    };
    assert_eq!(gas_used(&over), u64::MAX);
    let exact = GasCostSummary {
        computation_cost: 2_000_000,
        storage_cost: 1_500_000,
        storage_rebate: 500_000,
    };
    assert_eq!(gas_used(&exact), 3_000_000);
}

#[test]
fn sui_amounts_round_to_six_places() {
    assert_eq!(format_sui(0), "0.000000 SUI");
    assert_eq!(format_sui(1_499), "0.000001 SUI");
    assert_eq!(format_sui(1_500), "0.000002 SUI");
    assert_eq!(format_sui(1_000_000), "0.001000 SUI");
    assert_eq!(format_sui(2_500_000_000), "2.500000 SUI");
    assert_eq!(format_sui(u64::MAX), "18446744073.709552 SUI");
}

#[test]
fn created_native_coin_object() {
    let c = RawObjectChange::Created {
        object_id: s("0xobj"),
        object_type: s("0x2::coin::Coin<0x2::sui::SUI>"),
        owner: s("0xabcdefabcdefabcdefabcdef"),
    };
    let m = parse_object_change(&c);
    assert_eq!(m.change_type, "Created");
    assert_eq!(m.object_type, "SUI Coin");
    assert_eq!(m.object_id, "0xobj");
    assert_eq!(m.owner, Some(s("0xabcdefabcdefabcdefabcdef")));
    assert_eq!(m.details, "Created new SUI Coin owned by 0xabcd...cdef");
}

#[test]
fn transferred_mutated_deleted_and_unknown() {
    let t = parse_object_change(&RawObjectChange::Transferred {
        object_id: s("0x1"),
        object_type: s("0xabc::shop::Receipt"),
        sender: s("0x1111111111222222"),
        recipient: s("0x33"),
    });
    assert_eq!(t.change_type, "Transferred");
    assert_eq!(t.owner, Some(s("0x33")));
    assert_eq!(t.details, "Transferred Receipt from 0x1111...2222 to 0x33");

    let m = parse_object_change(&RawObjectChange::Mutated {
        object_id: s("0x2"),
        object_type: s("0x2::coin::Coin<0xdef::usdc::USDC>"),
        owner: s("0x99999999"),
    });
    assert_eq!(m.change_type, "Mutated");
    assert_eq!(m.object_type, "Coin");
    assert_eq!(m.details, "Modified Coin owned by 0x99999999");

    let d = parse_object_change(&RawObjectChange::Deleted {
        object_id: s("0x3"),
        object_type: s("0xabc::nft::Art"),
    });
    assert_eq!(d.change_type, "Deleted");
    assert_eq!(d.owner, None);
    assert_eq!(d.details, "Deleted NFT");

    let u = parse_object_change(&RawObjectChange::Other);
    assert_eq!(u.change_type, "Unknown");
    assert_eq!(u.object_type, "Unknown");
    assert_eq!(u.object_id, "Unknown");
    assert_eq!(u.owner, None);
    assert_eq!(u.details, "Unknown object change");
}

#[test]
fn native_balance_is_shown_in_coins() {
    let b = parse_balance_change(&RawBalanceChange {
        owner: s("0xowner"),
        coin_type: s("0x2::sui::SUI"),
        amount: -2_500_000_000,
    });
    assert_eq!(b.coin_type, "SUI Coin");
    assert_eq!(b.amount, -2_500_000_000);
    assert_eq!(b.amount_readable, "-2.500000 SUI");
    assert_eq!(b.owner, "0xowner");
}

#[test]
fn other_balance_is_shown_raw() {
    let b = parse_balance_change(&RawBalanceChange {
        owner: s("0xowner"),
        coin_type: s("0xabc::custom::Token"),
        amount: 42,
    });
    assert_eq!(b.coin_type, "Token");
    assert_eq!(b.amount_readable, "+42");
    assert!(!b.amount_readable.ends_with(" SUI"));
}

#[test]
fn coin_named_like_native_is_shown_raw() {
    let b = parse_balance_change(&RawBalanceChange {
        owner: s("0xowner"),
        coin_type: s("0xabc::m::MYSUI"),
        amount: -2_500_000_000,
    });
    assert_eq!(b.coin_type, "MYSUI");
    assert_eq!(b.amount_readable, "-2500000000");
}

#[test]
fn balance_signs_at_zero_and_extremes() {
    assert_eq!(format_signed(0), "+0");
    assert_eq!(format_signed(-7), "-7");
    assert_eq!(format_signed(i128::MIN), "-170141183460469231731687303715884105728");
    assert_eq!(format_signed_sui(0), "+0.000000 SUI");
    assert_eq!(format_signed_sui(-100), "-0.000000 SUI");
    assert_eq!(format_signed_sui(1_000_000_000), "+1.000000 SUI");
}

#[test]
fn summary_counts_changes() {
    let mut tx = bare();
    tx.effects = Some(effects(1_000_000, 0, 0));
    tx.object_changes = Some(vec![
        RawObjectChange::Other,
        RawObjectChange::Deleted { object_id: s("0x3"), object_type: s("a::b::C") },
    ]);
    tx.balance_changes = Some(vec![RawBalanceChange {
        owner: s("0xo"),
        coin_type: s("0x2::sui::SUI"),
        amount: -1_000_000,
    }]);
    let r = parse_transaction("D", &tx);
    assert_eq!(r.gas_used_sui, "0.001000 SUI");
    assert_eq!(r.summary, "2 object changes • 1 balance change • Gas: 0.001000 SUI");
    assert_eq!(r.actions.len(), r.object_changes.len());
    for (a, m) in r.actions.iter().zip(r.object_changes.iter()) {
        assert_eq!(a, &m.details);
    }
    assert_eq!(r.actions[1], "Deleted C");
}

#[test]
fn summary_with_one_kind_of_change() {
    let mut e = TransactionExplanation::empty("D");
    e.gas_used_sui = s("0.000010 SUI");
    e.object_changes = vec![parse_object_change(&RawObjectChange::Other)];
    assert_eq!(generate_summary(&e), "1 object change • Gas: 0.000010 SUI");
    e.object_changes = vec![];
    e.balance_changes = vec![
        parse_balance_change(&RawBalanceChange { owner: s("a"), coin_type: s("T"), amount: 1 }),
        parse_balance_change(&RawBalanceChange { owner: s("b"), coin_type: s("T"), amount: -1 }),
    ];
    assert_eq!(generate_summary(&e), "2 balance changes • Gas: 0.000010 SUI");
}

#[test]
fn events_keep_order() {
    let mut tx = bare();
    tx.events = Some(vec![
        RawEvent { event_type: s("0x5::market::Listed"), package_id: s("0x5") },
        RawEvent { event_type: s("0x6::nft::Minted"), package_id: s("0x6") },
    ]);
    let r = parse_transaction("D", &tx);
    assert_eq!(r.events, vec![s("Event: Listed from package 0x5"), s("Event: NFT from package 0x6")]);
    let one = format_event(&RawEvent { event_type: s("Plain"), package_id: s("0x7") });
    assert_eq!(one, "Event: Plain from package 0x7");
}

#[test]
fn simplify_type_cases() {
    assert_eq!(simplify_type("0x2::coin::Coin<0x2::sui::SUI>"), "SUI Coin");
    assert_eq!(simplify_type("0x2::coin::Coin<0xdef::usdc::USDC>"), "Coin");
    assert_eq!(simplify_type("0xabc::nft::Art"), "NFT");
    assert_eq!(simplify_type("0xabc::market::Listing"), "Listing");
    assert_eq!(simplify_type("Plain"), "Plain");
    assert_eq!(simplify_type(""), "");
    assert_eq!(simplify_type("a::"), "");
}

#[test]
fn simplify_type_is_idempotent() {
    for x in ["0x2::coin::Coin<0x2::sui::SUI>", "0x1::coin::Coin<X>", "0x1::nft::N", "a::b::C"] {
        let once = simplify_type(x);
        assert_eq!(simplify_type(&once), once);
    }
}

#[test]
fn shorten_address_cases() {
    assert_eq!(shorten_address(""), "");
    assert_eq!(shorten_address("0x12345678"), "0x12345678");
    assert_eq!(shorten_address("0x123456789"), "0x1234...6789");
    let long = shorten_address("0xabcdefabcdefabcdefabcdef");
    assert_eq!(long, "0xabcd...cdef");
    assert_eq!(long.len(), 13);
}

#[test]
fn default_is_the_empty_explanation() {
    let d = TransactionExplanation::default();
    assert_eq!(d.digest, "");
    assert_eq!(d.gas_used, 0);
    assert_eq!(d.gas_used_sui, "0.000000 SUI");
    assert_eq!(d.summary, "");
}

#[test]
fn invalid_digest_gives_failed_reply() {
    let fetched = Err(FetchError::InvalidDigest(s("invalid base58")));
    let (code, r) = respond("not-a-digest", &fetched);
    assert_eq!(code, 400);
    assert!(!r.success);
    assert!(r.explanation.is_none());
    assert_eq!(r.error, Some(s("Invalid transaction digest format: invalid base58")));
}

#[test]
fn remote_failure_gives_failed_reply() {
    let fetched = Err(FetchError::Remote(s("not found")));
    let (code, r) = respond("D", &fetched);
    assert_eq!(code, 400);
    assert!(r.explanation.is_none());
    assert_eq!(r.error, Some(s("Failed to fetch transaction from Sui: not found")));
}

#[test]
fn fetched_transaction_gives_explanation() {
    let mut tx = bare();
    tx.effects = Some(effects(1000, 500, 300));
    let (code, r) = respond("D9", &Ok(tx));
    assert_eq!(code, 200);
    assert!(r.success);
    assert!(r.error.is_none());
    let e = r.explanation.unwrap();
    assert_eq!(e.digest, "D9");
    assert_eq!(e.gas_used, 1200);
}

#[test]
fn connection_failure_reply() {
    let (code, r) = connection_failure("refused");
    assert_eq!(code, 500);
    assert!(!r.success);
    assert!(r.explanation.is_none());
    assert_eq!(r.error, Some(s("Failed to connect to Sui: refused")));
}
