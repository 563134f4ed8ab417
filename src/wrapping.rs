use vstd::prelude::*;

verus! {

/// One more than the largest `u32`: sums are taken modulo this value.
pub open spec fn u32_modulus() -> int {
    0x1_0000_0000
}

/// The sum of two magnitudes, wrapped around modulo 2^32.
pub open spec fn wrapped_sum(a: u32, b: u32) -> u32 {
    ((a + b) % u32_modulus()) as u32
}

/// An unsigned 32-bit magnitude whose addition wraps around instead of
/// overflowing.
#[derive(Clone, Copy, PartialEq, Eq, Debug, Structural)]
pub struct WrappingU32 {
    value: u32,
}

impl View for WrappingU32 {
    type V = u32;

    closed spec fn view(&self) -> u32 {
        self.value
    }
}

impl WrappingU32 {
    /// Wraps the magnitude `value`.
    pub fn new(value: u32) -> (r: Self)
        ensures
            r@ == value,
    {
        Self { value }
    }

    /// The wrapped magnitude.
    pub fn value(&self) -> (r: u32)
        ensures
            r == self@,
    {
        self.value
    }
}

/// Adds the magnitudes modulo 2^32; both operands are copies and stay as
/// they were.
impl std::ops::Add for WrappingU32 {
    type Output = WrappingU32;

    fn add(self, other: Self) -> (r: WrappingU32)
        ensures
            r@ == wrapped_sum(self@, other@),
    {
        WrappingU32 { value: self.value.wrapping_add(other.value) }
    }
}

/// Two wrapped values are equal exactly when their magnitudes are.
pub proof fn lemma_eq_iff_view_eq(x: WrappingU32, y: WrappingU32)
    ensures
        x == y <==> x@ == y@,
{
}

/// Adding `new(a)` and `new(b)` gives the same value as `new` applied to
/// `(a + b) mod 2^32`: `sum` is any value whose magnitude is what `+` returns
/// for those operands, `expected` any value built from the reduced sum.
pub proof fn lemma_add_wraps(a: u32, b: u32, sum: WrappingU32, expected: WrappingU32)
    requires
        sum@ == wrapped_sum(a, b),
        expected@ == ((a as int + b as int) % u32_modulus()) as u32,
    ensures
        sum == expected,
        sum@ as int == (a as int + b as int) % u32_modulus(),
{
}

/// The arithmetic sum of a sequence of magnitudes.
pub open spec fn total(s: Seq<u32>) -> int
    decreases s.len(),
{
    if s.len() == 0 {
        0
    } else {
        total(s.drop_last()) + s.last()
    }
}

/// The magnitude reached by adding the elements of `s` one after another,
/// left to right, with wraparound, starting from zero.
pub open spec fn wrapped_fold(s: Seq<u32>) -> u32
    decreases s.len(),
{
    if s.len() == 0 {
        0
    } else {
        wrapped_sum(wrapped_fold(s.drop_last()), s.last())
    }
}

/// Chained wraparound additions equal one wraparound of the accumulated sum.
pub proof fn lemma_chained_add(s: Seq<u32>)
    ensures
        wrapped_fold(s) as int == total(s) % u32_modulus(),
    decreases s.len(),
{
    if s.len() > 0 {
        lemma_chained_add(s.drop_last());
        let m = u32_modulus();
        let t = total(s.drop_last());
        assert((t % m + s.last()) % m == (t + s.last()) % m) by {
            vstd::arithmetic::div_mod::lemma_add_mod_noop(t, s.last() as int, m);
            vstd::arithmetic::div_mod::lemma_mod_twice(s.last() as int, m);
            vstd::arithmetic::div_mod::lemma_small_mod(s.last() as nat, m as nat);
        }
    }
}

impl vstd::std_specs::ops::AddSpecImpl for WrappingU32 {
    open spec fn obeys_add_spec() -> bool {
        true
    }

    open spec fn add_req(self, rhs: WrappingU32) -> bool {
        true
    }

    closed spec fn add_spec(self, rhs: WrappingU32) -> WrappingU32 {
        WrappingU32 { value: wrapped_sum(self.value, rhs.value) }
    }
}

} // verus!
