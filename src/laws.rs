//! Properties that hold of every explanation and of the text helpers.

use vstd::prelude::*;
use crate::explain::{describes_balance, explains, is_native_coin};
use crate::format::{decimal, digit, fixed6, millionths, padded, sign_char, signed_text, sui_suffix};
use crate::models::{BalanceChange, TransactionExplanation};
use crate::raw::{RawBalanceChange, RawTransaction};
use crate::text::{
    coin_label, coin_marker, contains, last_segment, last_sep_before, native_coin_label,
    native_coin_marker, nft_label, nft_marker, occurs_at, sep, short_address, simple_type,
};

verus! {

/// `t` ends with `suffix`.
pub open spec fn ends_with(t: Seq<char>, suffix: Seq<char>) -> bool {
    t.len() >= suffix.len() && t.subrange(t.len() - suffix.len(), t.len() as int) == suffix
}

/// `c` is a decimal digit character.
pub open spec fn is_digit(c: char) -> bool {
    exists|d: int| 0 <= d < 10 && digit(d) == c
}

proof fn lemma_sep_inside(s: Seq<char>, m: Seq<char>, j: int)
    requires
        contains(s, m),
        occurs_at(m, sep(), j),
    ensures
        contains(s, sep()),
{
    reveal_strlit("::");
    let i = choose|i: int| occurs_at(s, m, i);
    assert(s.subrange(i + j, i + j + 2) =~= m.subrange(i + j - i, i + j - i + 2)) by {
        assert(s.subrange(i, i + m.len()) == m);
    }
    assert(occurs_at(s, sep(), i + j));
}

proof fn lemma_markers_hold_sep(s: Seq<char>)
    ensures
        contains(s, native_coin_marker()) ==> contains(s, sep()),
        contains(s, coin_marker()) ==> contains(s, sep()),
        contains(s, nft_marker()) ==> contains(s, sep()),
{
    reveal_strlit("::");
    reveal_strlit("0x2::sui::SUI");
    reveal_strlit("::coin::Coin");
    reveal_strlit("::nft::");
    assert(native_coin_marker().subrange(3, 5) =~= sep());
    assert(coin_marker().subrange(0, 2) =~= sep());
    assert(nft_marker().subrange(0, 2) =~= sep());
    if contains(s, native_coin_marker()) {
        lemma_sep_inside(s, native_coin_marker(), 3);
    }
    if contains(s, coin_marker()) {
        lemma_sep_inside(s, coin_marker(), 0);
    }
    if contains(s, nft_marker()) {
        lemma_sep_inside(s, nft_marker(), 0);
    }
}

proof fn lemma_last_sep_before(s: Seq<char>, k: int)
    requires
        0 <= k,
    ensures
        last_sep_before(s, k) < k,
        last_sep_before(s, k) >= -1,
        last_sep_before(s, k) >= 0 ==> occurs_at(s, sep(), last_sep_before(s, k)),
        forall|j: int| last_sep_before(s, k) < j < k ==> !#[trigger] occurs_at(s, sep(), j),
    decreases k,
{
    if k > 0 {
        lemma_last_sep_before(s, k - 1);
        assert forall|j: int| last_sep_before(s, k) < j < k implies !#[trigger] occurs_at(
            s,
            sep(),
            j,
        ) by {
            if j < k - 1 {
                assert(last_sep_before(s, k) == last_sep_before(s, k - 1) || j
                    <= last_sep_before(s, k));
            }
        }
    }
}

proof fn lemma_last_segment_has_no_sep(s: Seq<char>)
    ensures
        !contains(last_segment(s), sep()),
        !contains(s, sep()) ==> last_segment(s) == s,
{
    reveal_strlit("::");
    let n = s.len() as int;
    let i = last_sep_before(s, n);
    lemma_last_sep_before(s, n);
    let t = last_segment(s);
    assert forall|p: int| !#[trigger] occurs_at(t, sep(), p) by {
        if occurs_at(t, sep(), p) {
            if i >= 0 {
                assert(s.subrange(i + 2 + p, i + 2 + p + 2) =~= t.subrange(p, p + 2));
                assert(occurs_at(s, sep(), i + 2 + p));
            } else {
                assert(occurs_at(s, sep(), p));
            }
        }
    }
    if !contains(s, sep()) && i >= 0 {
        assert(occurs_at(s, sep(), i));
    }
}

proof fn lemma_label_has_no_sep(label: Seq<char>)
    requires
        forall|i: int| 0 <= i < label.len() ==> label[i] != ':',
    ensures
        !contains(label, sep()),
        simple_type(label) == label,
{
    reveal_strlit("::");
    assert forall|p: int| !#[trigger] occurs_at(label, sep(), p) by {
        if occurs_at(label, sep(), p) {
            assert(label.subrange(p, p + 2)[0] == label[p]);
        }
    }
    lemma_markers_hold_sep(label);
    lemma_last_segment_has_no_sep(label);
}

/// Simplifying a type name twice gives what simplifying it once gives.
pub proof fn law_simplify_idempotent(s: Seq<char>)
    ensures
        simple_type(simple_type(s)) == simple_type(s),
{
    reveal_strlit("SUI Coin");
    reveal_strlit("Coin");
    reveal_strlit("NFT");
    lemma_label_has_no_sep(native_coin_label());
    lemma_label_has_no_sep(coin_label());
    lemma_label_has_no_sep(nft_label());
    let t = last_segment(s);
    lemma_last_segment_has_no_sep(s);
    lemma_markers_hold_sep(t);
    lemma_last_segment_has_no_sep(t);
}

/// Without an effects section the status stays empty and no gas is counted.
pub proof fn law_no_effects(r: TransactionExplanation, digest: Seq<char>, tx: RawTransaction)
    requires
        explains(r, digest, tx),
        tx.effects is None,
    ensures
        r.status@ == Seq::<char>::empty(),
        r.gas_used == 0,
{
}

/// When the effects report success, the status reads `Success`.
pub proof fn law_success_status(r: TransactionExplanation, digest: Seq<char>, tx: RawTransaction)
    requires
        explains(r, digest, tx),
        tx.effects is Some,
        tx.effects->0.status is Success,
    ensures
        r.status@ == "Success"@,
{
}

/// Gas used is computation plus storage minus rebate, whenever that
/// difference is a `u64`; it is rendered as coins with exactly six decimal
/// places followed by ` SUI`.
pub proof fn law_gas_arithmetic(r: TransactionExplanation, digest: Seq<char>, tx: RawTransaction)
    requires
        explains(r, digest, tx),
        tx.effects is Some,
        tx.effects->0.gas.storage_rebate <= tx.effects->0.gas.computation_cost
            + tx.effects->0.gas.storage_cost,
        tx.effects->0.gas.computation_cost + tx.effects->0.gas.storage_cost
            - tx.effects->0.gas.storage_rebate <= u64::MAX,
    ensures
        r.gas_used == tx.effects->0.gas.computation_cost + tx.effects->0.gas.storage_cost
            - tx.effects->0.gas.storage_rebate,
        r.gas_used_sui@ == decimal(millionths(r.gas_used as nat) / 1_000_000) + seq!['.']
            + padded(millionths(r.gas_used as nat) % 1_000_000, 6) + " SUI"@,
        padded(millionths(r.gas_used as nat) % 1_000_000, 6).len() == 6,
{
    lemma_padded_len(millionths(r.gas_used as nat) % 1_000_000, 6);
}

proof fn lemma_padded_len(n: nat, w: nat)
    ensures
        padded(n, w).len() == w,
    decreases w,
{
    if w > 0 {
        lemma_padded_len(n / 10, (w - 1) as nat);
    }
}

/// There is one action per object change, and each action is the details
/// sentence of the object change at the same position.
pub proof fn law_actions_match_changes(
    r: TransactionExplanation,
    digest: Seq<char>,
    tx: RawTransaction,
)
    requires
        explains(r, digest, tx),
    ensures
        r.actions@.len() == r.object_changes@.len(),
        forall|i: int|
            0 <= i < r.actions@.len() ==> #[trigger] r.actions@[i]@ == r.object_changes@[i].details@,
{
}

/// Addresses of at most ten characters are kept; longer ones become their
/// first six characters, `...` and their last four, thirteen in all.
pub proof fn law_shorten(a: Seq<char>)
    ensures
        a.len() <= 10 ==> short_address(a) == a,
        a.len() > 10 ==> {
            &&& short_address(a).len() == 13
            &&& short_address(a).subrange(0, 6) == a.subrange(0, 6)
            &&& short_address(a).subrange(6, 9) == "..."@
            &&& short_address(a).subrange(9, 13) == a.subrange(a.len() - 4, a.len() as int)
        },
{
    reveal_strlit("...");
    if a.len() > 10 {
        let t = short_address(a);
        assert(t.subrange(0, 6) =~= a.subrange(0, 6));
        assert(t.subrange(6, 9) =~= "..."@);
        assert(t.subrange(9, 13) =~= a.subrange(a.len() - 4, a.len() as int));
    }
}

proof fn lemma_decimal_digits(n: nat)
    ensures
        forall|j: int| 0 <= j < decimal(n).len() ==> is_digit(#[trigger] decimal(n)[j]),
    decreases n,
{
    if n < 10 {
        assert(is_digit(digit(n as int)));
    } else {
        lemma_decimal_digits(n / 10);
        assert(is_digit(digit((n % 10) as int)));
        assert forall|j: int| 0 <= j < decimal(n).len() implies is_digit(#[trigger] decimal(n)[j]) by {
            if j < decimal(n / 10).len() {
                assert(decimal(n)[j] == decimal(n / 10)[j]);
            }
        }
    }
}

/// A native-coin balance reads with an explicit sign and ends in ` SUI`;
/// any other balance is the signed integer and never ends in ` SUI`.
pub proof fn law_balance_readable(b: BalanceChange, c: RawBalanceChange)
    requires
        describes_balance(b, c),
    ensures
        is_native_coin(b.coin_type@) ==> {
            &&& b.amount_readable@.len() > 0
            &&& (b.amount_readable@[0] == '+' || b.amount_readable@[0] == '-')
            &&& ends_with(b.amount_readable@, sui_suffix())
        },
        !is_native_coin(b.coin_type@) ==> {
            &&& b.amount_readable@ == signed_text(b.amount as int)
            &&& !ends_with(b.amount_readable@, sui_suffix())
        },
{
    reveal_strlit(" SUI");
    let t = b.amount_readable@;
    let a = c.amount as int;
    if is_native_coin(b.coin_type@) {
        let body = fixed6(millionths(if a < 0 { (-a) as nat } else { a as nat }));
        assert(t == seq![sign_char(a)] + (body + sui_suffix()));
        assert(t[0] == sign_char(a));
        assert(t.subrange(t.len() - 4, t.len() as int) =~= sui_suffix());
    } else {
        let m = if a < 0 { (-a) as nat } else { a as nat };
        assert(t == signed_text(a));
        lemma_decimal_digits(m);
        if ends_with(t, sui_suffix()) {
            let k = t.len() - 4;
            assert(t.subrange(k, t.len() as int)[0] == ' ');
            assert(t[k] == ' ');
            if k == 0 {
                assert(t[0] == sign_char(a));
            } else {
                assert(t[k] == decimal(m)[k - 1]);
                assert(is_digit(decimal(m)[k - 1]));
                let d = choose|d: int| 0 <= d < 10 && digit(d) == decimal(m)[k - 1];
                assert(digit(d) != ' ');
            }
        }
    }
}

/// With no object changes and no balance changes the summary only reports
/// the gas.
pub proof fn law_summary_without_changes(
    r: TransactionExplanation,
    digest: Seq<char>,
    tx: RawTransaction,
)
    requires
        explains(r, digest, tx),
        r.object_changes@.len() == 0,
        r.balance_changes@.len() == 0,
    ensures
        r.summary@ == "Transaction executed with "@ + r.gas_used_sui@ + " gas"@,
{
}

} // verus!
