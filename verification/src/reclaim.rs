//! Reclaiming the worker's port from processes that an earlier run left behind.
//!
//! Every order made here addresses one single process: its target is a
//! process identifier, which is at least 1. Whatever the lookup printed, no
//! order addresses a process group or every process.

use crate::pid_list::{is_space, lemma_pids_of_positive, pids_in, pids_in_text, tokens};
use crate::signal::{SignalKind, SignalOrder};
use vstd::prelude::*;
use vstd::utf8::{decode_utf8, valid_utf8};

verus! {

/// The text that lossy UTF-8 decoding makes of a byte string: well-formed
/// sequences decode to their characters, and each malformed part becomes a
/// replacement character.
pub uninterp spec fn lossy_text(bytes: Seq<u8>) -> Seq<char>;

/// Calls `String::from_utf8_lossy`. Trusted: the text returned is a function of
/// the bytes alone, and for well-formed UTF-8 it is the decoded string.
#[verifier::external_body]
fn decode_lossy(bytes: &[u8]) -> (text: String)
    ensures
        text@ == lossy_text(bytes@),
        valid_utf8(bytes@) ==> text@ == decode_utf8(bytes@),
{
    String::from_utf8_lossy(bytes).into_owned()
}

/// The forcible signals that clear the listed processes away, one for each
/// identifier and in the same order.
pub open spec fn kill_orders(pids: Seq<i32>) -> Seq<SignalOrder> {
    Seq::new(pids.len(), |i: int| SignalOrder { target: pids[i], kind: SignalKind::Kill })
}

/// The processes that a port lookup reported, in the order of its output.
pub open spec fn reported_pids(lookup: Option<Seq<u8>>) -> Seq<i32> {
    match lookup {
        Some(output) => pids_in(lossy_text(output)),
        None => Seq::empty(),
    }
}

/// Whether every order addresses one single process.
pub open spec fn single_process_orders(orders: Seq<SignalOrder>) -> bool {
    forall|i: int| 0 <= i < orders.len() ==> (#[trigger] orders[i]).target >= 1
}

/// A text of nothing but white space lists no process, so there is nothing
/// to clear away.
pub proof fn lemma_blank_text_lists_nothing(text: Seq<char>)
    requires
        forall|i: int| 0 <= i < text.len() ==> is_space(#[trigger] text[i]),
    ensures
        tokens(text) == Seq::<Seq<char>>::empty(),
        pids_in(text) == Seq::<i32>::empty(),
        kill_orders(pids_in(text)) == Seq::<SignalOrder>::empty(),
    decreases text.len(),
{
    if text.len() > 0 {
        lemma_blank_text_lists_nothing(text.skip(1));
    }
    assert(kill_orders(Seq::<i32>::empty()) =~= Seq::<SignalOrder>::empty());
}

/// Whatever a text holds, the orders made of it address single processes
/// only, and each is forcible.
pub proof fn lemma_orders_address_single_processes(text: Seq<char>)
    ensures
        single_process_orders(kill_orders(pids_in(text))),
        forall|i: int|
            0 <= i < kill_orders(pids_in(text)).len() ==> (#[trigger] kill_orders(
                pids_in(text),
            )[i]).kind == SignalKind::Kill,
{
    lemma_pids_of_positive(tokens(text));
}

/// The process identifiers in the raw output of the port lookup, each at
/// least 1. For output that is well-formed UTF-8, as the lookup prints it,
/// they are the identifiers in the decoded text; a lookup that printed
/// nothing reports no process.
pub fn stale_pids(output: &[u8]) -> (pids: Vec<i32>)
    ensures
        pids@ == pids_in(lossy_text(output@)),
        valid_utf8(output@) ==> pids@ == pids_in(decode_utf8(output@)),
        output@.len() == 0 ==> pids@ == Seq::<i32>::empty(),
        forall|i: int| 0 <= i < pids@.len() ==> #[trigger] pids@[i] >= 1,
{
    let text = decode_lossy(output);
    proof {
        if output@.len() == 0 {
            assert(valid_utf8(output@));
            assert(text@ =~= Seq::<char>::empty());
            lemma_blank_text_lists_nothing(text@);
        }
    }
    pids_in_text(text.as_str())
}

/// One forcible signal for each listed process.
fn orders_for(pids: &Vec<i32>) -> (orders: Vec<SignalOrder>)
    requires
        forall|i: int| 0 <= i < pids@.len() ==> #[trigger] pids@[i] >= 1,
    ensures
        orders@ == kill_orders(pids@),
        single_process_orders(orders@),
{
    let mut orders: Vec<SignalOrder> = Vec::new();
    let mut i: usize = 0;
    while i < pids.len()
        invariant
            i <= pids.len(),
            orders@ == kill_orders(pids@.take(i as int)),
        decreases pids.len() - i,
    {
        orders.push(SignalOrder { target: pids[i], kind: SignalKind::Kill });
        i = i + 1;
        assert(orders@ =~= kill_orders(pids@.take(i as int)));
    }
    assert(pids@.take(pids.len() as int) =~= pids@);
    orders
}

/// What to do about stale occupants of the worker's port, given what the
/// lookup printed, or `None` where the lookup could not be run: one forcible
/// signal for each process reported, in the order of the output. A lookup
/// that failed is treated like one that found nothing, and one that printed
/// nothing gives no order. No order addresses anything but a single process.
pub fn reclamation_orders(lookup: Option<&[u8]>) -> (orders: Vec<SignalOrder>)
    ensures
        orders@ == kill_orders(
            reported_pids(
                match lookup {
                    Some(output) => Some(output@),
                    None => None,
                },
            ),
        ),
        lookup matches Some(output) ==> (valid_utf8(output@) ==> orders@ == kill_orders(
            pids_in(decode_utf8(output@)),
        )),
        (lookup matches Some(output) ==> output@.len() == 0) ==> orders@
            == Seq::<SignalOrder>::empty(),
        single_process_orders(orders@),
{
    match lookup {
        Some(output) => {
            let pids = stale_pids(output);
            assert(kill_orders(Seq::<i32>::empty()) =~= Seq::<SignalOrder>::empty());
            orders_for(&pids)
        },
        None => {
            let orders: Vec<SignalOrder> = Vec::new();
            assert(orders@ =~= kill_orders(Seq::empty()));
            orders
        },
    }
}

} // verus!
