use vstd::prelude::*;

verus! {

/// Highest signal number.
pub const SIGNAL_MAX: usize = 64;
/// The cancellation signal (musl's `SIGCANCEL`).
pub const SIGCANCEL: usize = 33;

/// What a process does on a signal: the handler to run (0 means the
/// default action), the mask in effect while it runs, and the user code
/// the handler returns into.
#[derive(Clone, Copy, Debug, PartialEq, Eq, Structural)]
pub struct SigAction {
    pub handler: usize,
    pub mask: u64,
    pub restorer: usize,
}

/// Whether bit `i` of `bits` is set.
pub open spec fn bit_set(bits: u64, i: u64) -> bool {
    (bits >> i) & 1u64 == 1u64
}

/// The signal numbers whose bits are set: signal `n` is bit `n - 1`.
pub open spec fn signals_of(bits: u64) -> Set<int> {
    Set::new(|n: int| 1 <= n <= SIGNAL_MAX && bit_set(bits, (n - 1) as u64))
}

/// The set of signals waiting to be delivered to a task.
#[derive(Clone, Copy, Debug, PartialEq, Eq, Structural)]
pub struct SignalList {
    pub signal: u64,
}

proof fn lemma_clear_bit(b: u64, k: u64, j: u64)
    requires
        k < 64,
        j < 64,
    ensures
        bit_set(b & !(1u64 << k), j) == (j != k && bit_set(b, j)),
{
    assert(((b & !(1u64 << k)) >> j) & 1u64 == (if j == k { 0u64 } else { (b >> j) & 1u64 })) by (bit_vector)
        requires
            k < 64,
            j < 64,
    ;
}

proof fn lemma_set_bit(b: u64, k: u64, j: u64)
    requires
        k < 64,
        j < 64,
    ensures
        bit_set(b | (1u64 << k), j) == (j == k || bit_set(b, j)),
{
    assert(((b | (1u64 << k)) >> j) & 1u64 == (if j == k { 1u64 } else { (b >> j) & 1u64 })) by (bit_vector)
        requires
            k < 64,
            j < 64,
    ;
}

proof fn lemma_zero_bits(j: u64)
    requires
        j < 64,
    ensures
        !bit_set(0u64, j),
{
    assert((0u64 >> j) & 1u64 == 0u64) by (bit_vector);
}

impl SignalList {
    /// The signals pending in this list.
    pub open spec fn view(&self) -> Set<int> {
        signals_of(self.signal)
    }

    /// A list with no pending signal.
    pub fn new() -> (r: SignalList)
        ensures
            r@ == Set::<int>::empty(),
    {
        let r = SignalList { signal: 0 };
        assert forall|n: int| !r@.contains(n) by {
            if 1 <= n <= SIGNAL_MAX {
                lemma_zero_bits((n - 1) as u64);
            }
        }
        assert(r@ =~= Set::<int>::empty());
        r
    }

    /// Mark signal `num` pending.
    pub fn add_signal(&mut self, num: usize)
        requires
            1 <= num <= SIGNAL_MAX,
        ensures
            final(self)@ == old(self)@.insert(num as int),
    {
        let k = (num - 1) as u64;
        let ghost b = self.signal;
        self.signal = self.signal | (1u64 << k);
        assert forall|n: int| #[trigger] self@.contains(n) == signals_of(b).insert(num as int).contains(n) by {
            if 1 <= n <= SIGNAL_MAX {
                lemma_set_bit(b, k, (n - 1) as u64);
            }
        }
        assert(self@ =~= signals_of(b).insert(num as int));
    }

    /// Whether signal `num` is pending.
    pub fn has_signal(&self, num: usize) -> (r: bool)
        requires
            1 <= num <= SIGNAL_MAX,
        ensures
            r == self@.contains(num as int),
    {
        let k = (num - 1) as u64;
        (self.signal >> k) & 1u64 == 1u64
    }

    /// The lowest-numbered pending signal, if any.
    pub fn try_get_signal(&self) -> (r: Option<usize>)
        ensures
            r is None <==> self@ == Set::<int>::empty(),
            r matches Some(n) ==> self@.contains(n as int) && forall|m: int| self@.contains(m) ==> n <= m,
    {
        let mut i: u64 = 0;
        while i < 64
            invariant
                i <= 64,
                forall|m: int| 1 <= m <= i ==> !#[trigger] self@.contains(m),
            decreases 64 - i,
        {
            if (self.signal >> i) & 1u64 == 1u64 {
                let n = (i + 1) as usize;
                assert(self@.contains(n as int));
                return Some(n);
            }
            i = i + 1;
        }
        assert(self@ =~= Set::<int>::empty());
        None
    }

    /// Clear signal `num`.
    pub fn remove_signal(&mut self, num: usize)
        requires
            1 <= num <= SIGNAL_MAX,
        ensures
            final(self)@ == old(self)@.remove(num as int),
    {
        let k = (num - 1) as u64;
        let ghost b = self.signal;
        self.signal = self.signal & !(1u64 << k);
        assert forall|n: int| #[trigger] self@.contains(n) == signals_of(b).remove(num as int).contains(n) by {
            if 1 <= n <= SIGNAL_MAX {
                lemma_clear_bit(b, k, (n - 1) as u64);
            }
        }
        assert(self@ =~= signals_of(b).remove(num as int));
    }
}

} // verus!
