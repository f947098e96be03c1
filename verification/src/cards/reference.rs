//! Card references, such as `REF-001`: a project's prefix and a number that
//! counts up per project.
use crate::status::{fault, Code, Status};
use crate::text::{digit_char, digits, zero_padded, zero_padded_of, zeros};
use vstd::prelude::*;
use vstd::string::*;

verus! {

/// A project's counter.
#[derive(Debug)]
pub struct RefCounter {
    pub prefix: String,
    /// The number that the next card gets.
    pub next_seq: i32,
}

/// What is stored for a project when a card is given its reference.
#[derive(Debug)]
pub struct RefState {
    /// The project's prefix, where the project exists in the tenant.
    pub project_prefix: Option<String>,
    /// The counter, where a card was given a reference before.
    pub counter: Option<RefCounter>,
}

/// A reference given out, and the counter behind it.
#[derive(Debug)]
pub struct Allocation {
    pub reference: String,
    pub counter: RefCounter,
}

/// The reference of card number `seq`.
pub open spec fn card_ref(prefix: Seq<char>, seq: int) -> Seq<char> {
    prefix + "-"@ + zero_padded(seq, 3)
}

impl RefState {
    /// The number that the next card gets: 1 for the first.
    pub open spec fn next(self) -> int {
        match self.counter {
            Some(c) => c.next_seq as int,
            None => 1,
        }
    }

    /// The prefix of the next card's reference: the counter keeps the one that
    /// it started with.
    pub open spec fn prefix(self) -> Seq<char> {
        match self.counter {
            Some(c) => c.prefix@,
            None => self.project_prefix->Some_0@,
        }
    }

    /// A reference can be given out: the project exists, and the counter can
    /// count on.
    pub open spec fn can_allocate(self) -> bool {
        self.project_prefix is Some && self.next() < i32::MAX
    }
}

/// `a` gives out the next reference and counts on.
pub open spec fn allocates(a: Allocation, state: RefState) -> bool {
    &&& a.reference@ == card_ref(state.prefix(), state.next())
    &&& a.counter.prefix@ == state.prefix()
    &&& a.counter.next_seq == state.next() + 1
}

/// Gives out the next reference of a project.
pub fn allocate_card_ref(state: &RefState) -> (r: Result<Allocation, Status>)
    ensures
        match r {
            Ok(a) => state.can_allocate() && allocates(a, *state),
            Err(e) => !state.can_allocate() && e@ == fault(
                Code::Internal,
                "failed to allocate card ref",
            ),
        },
{
    let (prefix, seq): (String, i32) = match (&state.project_prefix, &state.counter) {
        (None, _) => {
            return Err(Status::internal("failed to allocate card ref"));
        },
        (Some(prefix), None) => (prefix.clone(), 1),
        (Some(_), Some(counter)) => (counter.prefix.clone(), counter.next_seq),
    };
    if seq == i32::MAX {
        return Err(Status::internal("failed to allocate card ref"));
    }
    let mut reference: String = prefix.clone();
    reference.append("-");
    reference.append(zero_padded_of(seq, 3).as_str());
    Ok(Allocation { reference, counter: RefCounter { prefix, next_seq: seq + 1 } })
}

/// The number that a run of decimal digits writes.
spec fn number_of(s: Seq<char>) -> int
    decreases s.len(),
{
    if s.len() == 0 {
        0
    } else {
        number_of(s.drop_last()) * 10 + (s.last() as int - 48)
    }
}

proof fn lemma_zeros_number(n: nat)
    ensures
        number_of(zeros(n)) == 0,
    decreases n,
{
    if n > 0 {
        lemma_zeros_number((n - 1) as nat);
        assert(zeros(n).drop_last() =~= zeros((n - 1) as nat));
    }
}

proof fn lemma_number_of_digits(fill: nat, n: nat)
    ensures
        number_of(zeros(fill) + digits(n)) == n,
    decreases n,
{
    let s = zeros(fill) + digits(n);
    if n < 10 {
        assert(s.drop_last() =~= zeros(fill));
        lemma_zeros_number(fill);
        assert(s.last() == digit_char(n));
    } else {
        lemma_number_of_digits(fill, n / 10);
        assert(s.drop_last() =~= zeros(fill) + digits(n / 10));
        assert(s.last() == digit_char(n % 10));
    }
}

/// Two cards of a project never share a reference: different numbers give
/// different references.
pub proof fn law_references_are_distinct(prefix: Seq<char>, m: int, n: int)
    requires
        0 <= m,
        0 <= n,
        m != n,
    ensures
        card_ref(prefix, m) != card_ref(prefix, n),
{
    let head = prefix + "-"@;
    let a = zero_padded(m, 3);
    let b = zero_padded(n, 3);
    let fill_a = if digits(m as nat).len() < 3 {
        (3 - digits(m as nat).len()) as nat
    } else {
        0
    };
    let fill_b = if digits(n as nat).len() < 3 {
        (3 - digits(n as nat).len()) as nat
    } else {
        0
    };
    assert(a =~= zeros(fill_a) + digits(m as nat));
    assert(b =~= zeros(fill_b) + digits(n as nat));
    lemma_number_of_digits(fill_a, m as nat);
    lemma_number_of_digits(fill_b, n as nat);
    if card_ref(prefix, m) == card_ref(prefix, n) {
        assert(card_ref(prefix, m).skip(head.len() as int) =~= a);
        assert(card_ref(prefix, n).skip(head.len() as int) =~= b);
    }
}

/// References given out one after the other count up by one and keep their
/// prefix; the first has number 1.
pub proof fn law_references_count_up(state: RefState, a: Allocation, later: RefState)
    requires
        allocates(a, state),
        later.counter == Some(a.counter),
    ensures
        later.next() == state.next() + 1,
        later.prefix() == state.prefix(),
        state.counter is None ==> a.reference@ == card_ref(state.project_prefix->Some_0@, 1),
{
}

/// A reference is the prefix, a hyphen and the number, written with three digits
/// or as many as it takes.
pub proof fn law_reference_shows_the_number(prefix: Seq<char>, n: int)
    requires
        0 <= n,
    ensures
        n < 10 ==> card_ref(prefix, n) == prefix + seq!['-', '0', '0', (48 + n) as char],
        10 <= n < 100 ==> card_ref(prefix, n) == prefix + seq![
            '-',
            '0',
            (48 + n / 10) as char,
            (48 + n % 10) as char,
        ],
        100 <= n < 1000 ==> card_ref(prefix, n) == prefix + seq![
            '-',
            (48 + n / 100) as char,
            (48 + n / 10 % 10) as char,
            (48 + n % 10) as char,
        ],
        n >= 1000 ==> card_ref(prefix, n) == card_ref(prefix, n / 10).push((48 + n % 10) as char),
{
    reveal_strlit("-");
    reveal_with_fuel(digits, 4);
    let k = n as nat;
    if n >= 100 {
        assert(digits(k / 10).len() >= 2);
    }
    if n < 10 {
        assert(card_ref(prefix, n) =~= prefix + seq!['-', '0', '0', (48 + n) as char]);
    } else if n < 100 {
        assert(card_ref(prefix, n) =~= prefix + seq![
            '-',
            '0',
            (48 + n / 10) as char,
            (48 + n % 10) as char,
        ]);
    } else if n < 1000 {
        assert(k / 10 / 10 == n / 100);
        assert(card_ref(prefix, n) =~= prefix + seq![
            '-',
            (48 + n / 100) as char,
            (48 + n / 10 % 10) as char,
            (48 + n % 10) as char,
        ]);
    } else {
        assert((n / 10) as nat == k / 10);
        assert(card_ref(prefix, n) =~= card_ref(prefix, n / 10).push((48 + n % 10) as char));
    }
}

/// The first card of a project gets number 1 with the project's prefix, every
/// other one the number that the counter names with the counter's prefix, and
/// the counter then names the next number.
pub proof fn law_counter_gives_the_next_number(a: Allocation, state: RefState)
    requires
        allocates(a, state),
    ensures
        match state.counter {
            Some(c) => {
                &&& a.reference@ == card_ref(c.prefix@, c.next_seq as int)
                &&& a.counter.prefix@ == c.prefix@
                &&& a.counter.next_seq == c.next_seq + 1
            },
            None => {
                &&& (state.project_prefix matches Some(prefix) ==> a.reference@ == card_ref(
                    prefix@,
                    1,
                ) && a.counter.prefix@ == prefix@)
                &&& a.counter.next_seq == 2
            },
        },
{
}

/// A reference can be given out as long as the project is there and its counter
/// can count on.
pub proof fn law_reference_can_be_given_out(state: RefState)
    ensures
        state.can_allocate() <==> state.project_prefix is Some && (state.counter matches Some(c)
            ==> c.next_seq < i32::MAX),
{
}

} // verus!
