//! Maps each inbound command to the keys to press and the event to report.

use crate::models::events::{Event, Key};
use crate::models::websocket::WsEvent;
use vstd::prelude::*;

verus! {

/// The decimal digits of `n`, most significant first; `0` has the one digit 0.
pub open spec fn decimal_digits(n: nat) -> Seq<nat>
    decreases n,
{
    if n < 10 {
        seq![n]
    } else {
        decimal_digits(n / 10).push(n % 10)
    }
}

/// One digit key for each decimal digit of `n`, most significant first.
pub open spec fn digit_keys(n: nat) -> Seq<Key> {
    Seq::new(decimal_digits(n).len(), |i: int| Key::Digit(decimal_digits(n)[i] as u8))
}

/// The keys that carry out a command, in the order in which they are pressed:
/// a page change types the page index and confirms it, a step forward or
/// back is one arrow key.
pub open spec fn command_keys(command: WsEvent) -> Seq<Key> {
    match command {
        WsEvent::ChangeCurrentPage { data } => digit_keys(data.new_page_index as nat).push(
            Key::Return,
        ),
        WsEvent::TriggerNextStep { .. } => seq![Key::RightArrow],
        WsEvent::TriggerPrevStep { .. } => seq![Key::LeftArrow],
    }
}

/// The event that reports a command to the consumer.
pub open spec fn command_event(command: WsEvent) -> Event {
    match command {
        WsEvent::ChangeCurrentPage { data } => Event::SlideChanged {
            new_page_index: data.new_page_index,
        },
        WsEvent::TriggerNextStep { data } => Event::StepChanged {
            new_page_index: data.new_page_index,
            new_step_index: data.new_step_index,
        },
        WsEvent::TriggerPrevStep { data } => Event::StepChanged {
            new_page_index: data.new_page_index,
            new_step_index: data.new_step_index,
        },
    }
}

/// What the agent does for one command.
#[derive(Debug)]
pub struct Dispatch {
    /// The keys to press, in order.
    pub keys: Vec<Key>,
    /// The event to enqueue. It is owed whether or not the key presses succeed.
    pub event: Event,
}

/// Every decimal digit is below ten, and there is at least one.
pub proof fn lemma_decimal_digits_are_digits(n: nat)
    ensures
        decimal_digits(n).len() >= 1,
        forall|i: int| 0 <= i < decimal_digits(n).len() ==> #[trigger] decimal_digits(n)[i] < 10,
    decreases n,
{
    if n >= 10 {
        lemma_decimal_digits_are_digits(n / 10);
    }
}

/// The digits denote the number: reading them back in base ten gives `n`.
pub open spec fn digits_value(digits: Seq<nat>) -> nat
    decreases digits.len(),
{
    if digits.len() == 0 {
        0
    } else {
        digits_value(digits.drop_last()) * 10 + digits.last()
    }
}

/// Reading the decimal digits of a number back gives the number.
pub proof fn lemma_decimal_digits_value(n: nat)
    ensures
        digits_value(decimal_digits(n)) == n,
    decreases n,
{
    if n < 10 {
        assert(decimal_digits(n).drop_last() =~= Seq::<nat>::empty());
        assert(digits_value(decimal_digits(n).drop_last()) == 0);
    } else {
        lemma_decimal_digits_value(n / 10);
        assert(decimal_digits(n).drop_last() =~= decimal_digits(n / 10));
    }
}

/// Computes the decimal digits of a number, most significant first.
pub fn index_digits(index: usize) -> (digits: Vec<u8>)
    ensures
        digits@.len() == decimal_digits(index as nat).len(),
        forall|i: int|
            0 <= i < digits@.len() ==> #[trigger] digits@[i] == decimal_digits(index as nat)[i],
        forall|i: int| 0 <= i < digits@.len() ==> #[trigger] digits@[i] < 10,
{
    let mut low_first: Vec<u8> = Vec::new();
    let mut rest: usize = index;
    let ghost mut tail: Seq<nat> = Seq::empty();
    while rest >= 10
        invariant
            decimal_digits(index as nat) == decimal_digits(rest as nat) + tail,
            tail.len() == low_first@.len(),
            forall|j: int|
                0 <= j < tail.len() ==> #[trigger] low_first@[j] == tail[tail.len() - 1 - j],
        decreases rest,
    {
        let digit: u8 = (rest % 10) as u8;
        proof {
            let d: nat = (rest % 10) as nat;
            let shorter: nat = (rest / 10) as nat;
            assert(decimal_digits(rest as nat) == decimal_digits(shorter).push(d));
            assert(decimal_digits(shorter).push(d) + tail =~= decimal_digits(shorter) + (seq![d]
                + tail));
            tail = seq![d] + tail;
        }
        low_first.push(digit);
        rest = rest / 10;
    }
    proof {
        let d: nat = rest as nat;
        assert(decimal_digits(d) == seq![d]);
        tail = seq![d] + tail;
    }
    low_first.push(rest as u8);
    proof {
        lemma_decimal_digits_are_digits(index as nat);
        assert(decimal_digits(index as nat) =~= tail);
    }
    let mut digits: Vec<u8> = Vec::new();
    let mut left: usize = low_first.len();
    while left > 0
        invariant
            left <= low_first@.len(),
            tail.len() == low_first@.len(),
            forall|i: int| 0 <= i < tail.len() ==> #[trigger] tail[i] < 10,
            forall|j: int|
                0 <= j < tail.len() ==> #[trigger] low_first@[j] == tail[tail.len() - 1 - j],
            digits@.len() == low_first@.len() - left,
            forall|i: int| 0 <= i < digits@.len() ==> #[trigger] digits@[i] == tail[i],
        decreases left,
    {
        left = left - 1;
        let digit: u8 = low_first[left];
        assert(low_first@[left as int] == tail[tail.len() - 1 - left]);
        digits.push(digit);
    }
    digits
}

/// The keys that type a page index: its decimal digits, most significant
/// first.
pub fn page_index_keys(index: usize) -> (keys: Vec<Key>)
    ensures
        keys@ == digit_keys(index as nat),
        forall|i: int| 0 <= i < keys@.len() ==> (#[trigger] keys@[i]).wf(),
{
    let digits = index_digits(index);
    let mut keys: Vec<Key> = Vec::new();
    let mut i: usize = 0;
    while i < digits.len()
        invariant
            i <= digits@.len(),
            digits@.len() == decimal_digits(index as nat).len(),
            forall|k: int|
                0 <= k < digits@.len() ==> #[trigger] digits@[k] == decimal_digits(index as nat)[k],
            forall|k: int| 0 <= k < digits@.len() ==> #[trigger] digits@[k] < 10,
            keys@.len() == i,
            forall|k: int| 0 <= k < i ==> #[trigger] keys@[k] == Key::Digit(digits@[k]),
        decreases digits@.len() - i,
    {
        keys.push(Key::Digit(digits[i]));
        i = i + 1;
    }
    proof {
        assert(keys@ =~= digit_keys(index as nat));
    }
    keys
}

/// Decides what a command asks for: the keys to press and the event to
/// enqueue.
pub fn handle_event(event: WsEvent) -> (dispatch: Dispatch)
    ensures
        dispatch.keys@ == command_keys(event),
        dispatch.event == command_event(event),
        forall|i: int| 0 <= i < dispatch.keys@.len() ==> (#[trigger] dispatch.keys@[i]).wf(),
{
    match event {
        WsEvent::ChangeCurrentPage { data } => {
            let mut keys = page_index_keys(data.new_page_index);
            keys.push(Key::Return);
            Dispatch { keys, event: Event::SlideChanged { new_page_index: data.new_page_index } }
        },
        WsEvent::TriggerNextStep { data } => {
            let mut keys: Vec<Key> = Vec::new();
            keys.push(Key::RightArrow);
            Dispatch {
                keys,
                event: Event::StepChanged {
                    new_page_index: data.new_page_index,
                    new_step_index: data.new_step_index,
                },
            }
        },
        WsEvent::TriggerPrevStep { data } => {
            let mut keys: Vec<Key> = Vec::new();
            keys.push(Key::LeftArrow);
            Dispatch {
                keys,
                event: Event::StepChanged {
                    new_page_index: data.new_page_index,
                    new_step_index: data.new_step_index,
                },
            }
        },
    }
}

} // verus!
