use vstd::prelude::*;

verus! {

/// One press of a counter button.
#[derive(Clone, Copy, Debug, PartialEq, Eq, Structural)]
pub enum CounterOp {
    Decrement,
    Increment,
    Reset,
}

/// The value a counter holds after `op`, starting from `count`.
pub open spec fn op_result(count: int, op: CounterOp) -> int {
    match op {
        CounterOp::Decrement => count - 1,
        CounterOp::Increment => count + 1,
        CounterOp::Reset => 0,
    }
}

/// The value a counter holds after applying `ops` in order, starting from `start`.
pub open spec fn count_after(start: int, ops: Seq<CounterOp>) -> int
    decreases ops.len(),
{
    if ops.len() == 0 {
        start
    } else {
        op_result(count_after(start, ops.drop_last()), ops.last())
    }
}

/// Number of increments minus number of decrements in `ops`.
pub open spec fn net_change(ops: Seq<CounterOp>) -> int
    decreases ops.len(),
{
    if ops.len() == 0 {
        0
    } else {
        net_change(ops.drop_last()) + match ops.last() {
            CounterOp::Increment => 1int,
            CounterOp::Decrement => -1int,
            CounterOp::Reset => 0int,
        }
    }
}

/// Whether `ops` holds a reset.
pub open spec fn has_reset(ops: Seq<CounterOp>) -> bool {
    exists|i: int| 0 <= i < ops.len() && ops[i] == CounterOp::Reset
}

/// Index just past the last reset in `ops` (0 where there is none).
pub open spec fn after_last_reset(ops: Seq<CounterOp>) -> int
    decreases ops.len(),
{
    if ops.len() == 0 {
        0
    } else if ops.last() == CounterOp::Reset {
        ops.len() as int
    } else {
        after_last_reset(ops.drop_last())
    }
}

pub open spec fn fits_i32(v: int) -> bool {
    i32::MIN <= v <= i32::MAX
}

/// Every intermediate value of the counter along `ops` fits in an `i32`.
pub open spec fn stays_in_range(start: int, ops: Seq<CounterOp>) -> bool {
    forall|k: int| 0 <= k <= ops.len() ==> #[trigger] fits_i32(count_after(start, ops.take(k)))
}

proof fn lemma_after_last_reset_bounds(ops: Seq<CounterOp>)
    ensures
        0 <= after_last_reset(ops) <= ops.len(),
        forall|i: int| after_last_reset(ops) <= i < ops.len() ==> ops[i] != CounterOp::Reset,
        after_last_reset(ops) > 0 ==> ops[after_last_reset(ops) - 1] == CounterOp::Reset,
    decreases ops.len(),
{
    if ops.len() > 0 {
        let init = ops.drop_last();
        lemma_after_last_reset_bounds(init);
        assert forall|i: int| after_last_reset(ops) <= i < ops.len() implies ops[i]
            != CounterOp::Reset by {
            if i < ops.len() - 1 {
                assert(ops[i] == init[i]);
            }
        }
    }
}

/// The counter shows the number of increments minus the number of decrements
/// made since the last reset (added to the starting value when there was no
/// reset).
pub proof fn lemma_count_is_net_since_reset(start: int, ops: Seq<CounterOp>)
    ensures
        count_after(start, ops) == (if has_reset(ops) { 0 } else { start }) + net_change(
            ops.subrange(after_last_reset(ops), ops.len() as int),
        ),
    decreases ops.len(),
{
    lemma_after_last_reset_bounds(ops);
    if ops.len() > 0 {
        let init = ops.drop_last();
        lemma_count_is_net_since_reset(start, init);
        lemma_after_last_reset_bounds(init);
        let n = ops.len() as int;
        if ops.last() == CounterOp::Reset {
            assert(has_reset(ops)) by {
                assert(ops[n - 1] == CounterOp::Reset);
            }
            assert(ops.subrange(n, n).len() == 0);
        } else {
            let k = after_last_reset(init);
            assert(after_last_reset(ops) == k);
            let tail = ops.subrange(k, n);
            assert(tail.drop_last() =~= init.subrange(k, n - 1));
            assert(tail.last() == ops.last());
            assert(has_reset(ops) == has_reset(init)) by {
                if has_reset(ops) {
                    let i = choose|i: int| 0 <= i < ops.len() && ops[i] == CounterOp::Reset;
                    assert(i < n - 1);
                    assert(init[i] == CounterOp::Reset);
                }
                if has_reset(init) {
                    let i = choose|i: int| 0 <= i < init.len() && init[i] == CounterOp::Reset;
                    assert(ops[i] == CounterOp::Reset);
                }
            }
        }
    } else {
        assert(ops.subrange(0, 0).len() == 0);
    }
}

/// The decimal digit `d` as a character.
pub open spec fn digit_char(d: nat) -> char {
    if d == 0 { '0' }
    else if d == 1 { '1' }
    else if d == 2 { '2' }
    else if d == 3 { '3' }
    else if d == 4 { '4' }
    else if d == 5 { '5' }
    else if d == 6 { '6' }
    else if d == 7 { '7' }
    else if d == 8 { '8' }
    else { '9' }
}

/// `n` written in decimal, without leading zeros.
pub open spec fn decimal(n: nat) -> Seq<char>
    decreases n,
{
    if n < 10 {
        seq![digit_char(n)]
    } else {
        decimal(n / 10).push(digit_char(n % 10))
    }
}

/// `v` written in decimal, with a leading minus sign when negative.
pub open spec fn signed_decimal(v: int) -> Seq<char> {
    if v < 0 {
        seq!['-'] + decimal((-v) as nat)
    } else {
        decimal(v as nat)
    }
}

fn digit_str(d: u32) -> (r: &'static str)
    requires
        d < 10,
    ensures
        r@ == seq![digit_char(d as nat)],
{
    if d == 0 {
        proof { reveal_strlit("0"); }
        "0"
    } else if d == 1 {
        proof { reveal_strlit("1"); }
        "1"
    } else if d == 2 {
        proof { reveal_strlit("2"); }
        "2"
    } else if d == 3 {
        proof { reveal_strlit("3"); }
        "3"
    } else if d == 4 {
        proof { reveal_strlit("4"); }
        "4"
    } else if d == 5 {
        proof { reveal_strlit("5"); }
        "5"
    } else if d == 6 {
        proof { reveal_strlit("6"); }
        "6"
    } else if d == 7 {
        proof { reveal_strlit("7"); }
        "7"
    } else if d == 8 {
        proof { reveal_strlit("8"); }
        "8"
    } else {
        proof { reveal_strlit("9"); }
        "9"
    }
}

fn push_decimal(s: &mut String, n: u32)
    ensures
        final(s)@ == old(s)@ + decimal(n as nat),
    decreases n,
{
    if n >= 10 {
        push_decimal(s, n / 10);
    }
    s.append(digit_str(n % 10));
    proof {
        if n >= 10 {
            assert(old(s)@ + decimal(n as nat) =~= old(s)@ + decimal((n / 10) as nat) + seq![
                digit_char((n % 10) as nat),
            ]);
        }
    }
}

/// The counter shown by the demo.
pub struct CounterApp {
    pub count: i32,
}

impl Default for CounterApp {
    fn default() -> (r: Self)
        ensures
            r.count == 0,
    {
        CounterApp { count: 0 }
    }
}

impl CounterApp {
    pub fn new() -> (r: Self)
        ensures
            r.count == 0,
    {
        CounterApp { count: 0 }
    }

    pub fn count(&self) -> (r: i32)
        ensures
            r == self.count,
    {
        self.count
    }

    /// The counter as it is displayed: in decimal, with a minus sign when negative.
    pub fn count_text(&self) -> (r: String)
        ensures
            r@ == signed_decimal(self.count as int),
    {
        let mut s = String::new();
        let magnitude: u32 = if self.count < 0 {
            proof { reveal_strlit("-"); }
            s.append("-");
            (-(self.count as i64)) as u32
        } else {
            self.count as u32
        };
        push_decimal(&mut s, magnitude);
        s
    }

    pub fn increment(&mut self)
        requires
            old(self).count < i32::MAX,
        ensures
            final(self).count == old(self).count + 1,
    {
        self.count = self.count + 1;
    }

    pub fn decrement(&mut self)
        requires
            old(self).count > i32::MIN,
        ensures
            final(self).count == old(self).count - 1,
    {
        self.count = self.count - 1;
    }

    pub fn reset(&mut self)
        ensures
            final(self).count == 0,
    {
        self.count = 0;
    }

    /// Whether applying `op` keeps the counter within `i32`.
    pub fn can_apply(&self, op: CounterOp) -> (r: bool)
        ensures
            r == fits_i32(op_result(self.count as int, op)),
    {
        match op {
            CounterOp::Decrement => self.count > i32::MIN,
            CounterOp::Increment => self.count < i32::MAX,
            CounterOp::Reset => true,
        }
    }

    pub fn apply(&mut self, op: CounterOp)
        requires
            fits_i32(op_result(old(self).count as int, op)),
        ensures
            final(self).count == op_result(old(self).count as int, op),
    {
        match op {
            CounterOp::Decrement => self.decrement(),
            CounterOp::Increment => self.increment(),
            CounterOp::Reset => self.reset(),
        }
    }

    /// Applies `ops` in order.
    pub fn apply_all(&mut self, ops: &Vec<CounterOp>)
        requires
            stays_in_range(old(self).count as int, ops@),
        ensures
            final(self).count == count_after(old(self).count as int, ops@),
    {
        let ghost start = self.count as int;
        let mut i: usize = 0;
        while i < ops.len()
            invariant
                i <= ops@.len(),
                stays_in_range(start, ops@),
                self.count == count_after(start, ops@.take(i as int)),
            decreases ops@.len() - i,
        {
            let op = ops[i];
            assert(ops@.take(i + 1).drop_last() =~= ops@.take(i as int));
            assert(fits_i32(count_after(start, ops@.take(i + 1))));
            self.apply(op);
            i = i + 1;
        }
        assert(ops@.take(ops@.len() as int) =~= ops@);
    }
}

} // verus!
