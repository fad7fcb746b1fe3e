//! Option bits that accompany every code signing call.

use vstd::prelude::*;

verus! {

/// Every bit that names an option. Bits 13 to 25 name none.
pub const KNOWN_BITS: u32 = 0xFC00_1FFF;

/// Values that can be used in the flags parameter to most code signing
/// functions. A value is a set of option bits held in 32 bits; only bits
/// of `KNOWN_BITS` are ever set, whatever a value was made from.
#[derive(Clone, Copy, Debug, PartialEq, Eq, Structural, Hash)]
pub struct Flags {
    bits: u32,
}

/// Whether bit number `i` (counted from the least significant, `i < 32`) is
/// set in `bits`.
pub open spec fn bit_is_set(bits: u32, i: u32) -> bool {
    (bits >> i) & 1 == 1
}

impl Flags {
    /// The raw bits of this value.
    pub closed spec fn view(self) -> u32 {
        self.bits
    }

    /// Only bits that name an option are ever set.
    #[verifier::type_invariant]
    spec fn known_only(self) -> bool {
        self.bits & !KNOWN_BITS == 0
    }

    /// Whether every option of `other` is also an option of `self`.
    pub open spec fn includes(self, other: Flags) -> bool {
        self@ & other@ == other@
    }

    /// Whether `self` and `other` have an option in common.
    pub open spec fn overlaps(self, other: Flags) -> bool {
        self@ & other@ != 0
    }

    /// Whether option bit number `i` is part of this value.
    pub open spec fn has(self, i: u32) -> bool {
        bit_is_set(self@, i)
    }

    /// Use the default behaviour: no bit is set.
    pub fn none() -> (r: Flags)
        ensures
            r@ == 0u32,
    {
        assert(0u32 & !KNOWN_BITS == 0) by (bit_vector);
        Flags { bits: 0 }
    }

    /// For multi-architecture (universal) Mach-O programs, validate all
    /// architectures included.
    pub fn check_all_architectures() -> (r: Flags)
        ensures
            r@ == 0x0000_0001u32,
    {
        assert(0x0000_0001u32 & !KNOWN_BITS == 0) by (bit_vector);
        Flags { bits: 0x0000_0001 }
    }

    /// Do not validate the contents of the main executable.
    pub fn do_not_validate_executable() -> (r: Flags)
        ensures
            r@ == 0x0000_0002u32,
    {
        assert(0x0000_0002u32 & !KNOWN_BITS == 0) by (bit_vector);
        Flags { bits: 0x0000_0002 }
    }

    /// Do not validate the presence and contents of all bundle resources
    /// if any.
    pub fn do_not_validate_resources() -> (r: Flags)
        ensures
            r@ == 0x0000_0004u32,
    {
        assert(0x0000_0004u32 & !KNOWN_BITS == 0) by (bit_vector);
        Flags { bits: 0x0000_0004 }
    }

    /// Do not validate either the main executable or the bundle resources,
    /// if any: the two options above together.
    pub fn basic_validate_only() -> (r: Flags)
        ensures
            r@ == 0x0000_0006u32,
    {
        assert(0x0000_0006u32 & !KNOWN_BITS == 0) by (bit_vector);
        Flags { bits: 0x0000_0006 }
    }

    /// For code in bundle form, locate and recursively check embedded code.
    pub fn check_nested_code() -> (r: Flags)
        ensures
            r@ == 0x0000_0008u32,
    {
        assert(0x0000_0008u32 & !KNOWN_BITS == 0) by (bit_vector);
        Flags { bits: 0x0000_0008 }
    }

    /// Perform additional checks to ensure the validity of code in bundle
    /// form.
    pub fn strict_validate() -> (r: Flags)
        ensures
            r@ == 0x0000_0010u32,
    {
        assert(0x0000_0010u32 & !KNOWN_BITS == 0) by (bit_vector);
        Flags { bits: 0x0000_0010 }
    }

    /// Apple have not documented this flag.
    pub fn full_report() -> (r: Flags)
        ensures
            r@ == 0x0000_0020u32,
    {
        assert(0x0000_0020u32 & !KNOWN_BITS == 0) by (bit_vector);
        Flags { bits: 0x0000_0020 }
    }

    /// Apple have not documented this flag. It includes the bit of
    /// `check_all_architectures`.
    pub fn check_gatekeeper_architectures() -> (r: Flags)
        ensures
            r@ == 0x0000_0041u32,
    {
        assert(0x0000_0041u32 & !KNOWN_BITS == 0) by (bit_vector);
        Flags { bits: 0x0000_0041 }
    }

    /// Apple have not documented this flag.
    pub fn restrict_symlinks() -> (r: Flags)
        ensures
            r@ == 0x0000_0080u32,
    {
        assert(0x0000_0080u32 & !KNOWN_BITS == 0) by (bit_vector);
        Flags { bits: 0x0000_0080 }
    }

    /// Apple have not documented this flag.
    pub fn restrict_to_app_like() -> (r: Flags)
        ensures
            r@ == 0x0000_0100u32,
    {
        assert(0x0000_0100u32 & !KNOWN_BITS == 0) by (bit_vector);
        Flags { bits: 0x0000_0100 }
    }

    /// Apple have not documented this flag.
    pub fn restrict_sideband_data() -> (r: Flags)
        ensures
            r@ == 0x0000_0200u32,
    {
        assert(0x0000_0200u32 & !KNOWN_BITS == 0) by (bit_vector);
        Flags { bits: 0x0000_0200 }
    }

    /// Apple have not documented this flag.
    pub fn use_software_signing_cert() -> (r: Flags)
        ensures
            r@ == 0x0000_0400u32,
    {
        assert(0x0000_0400u32 & !KNOWN_BITS == 0) by (bit_vector);
        Flags { bits: 0x0000_0400 }
    }

    /// Apple have not documented this flag.
    pub fn validate_peh() -> (r: Flags)
        ensures
            r@ == 0x0000_0800u32,
    {
        assert(0x0000_0800u32 & !KNOWN_BITS == 0) by (bit_vector);
        Flags { bits: 0x0000_0800 }
    }

    /// Apple have not documented this flag.
    pub fn single_threaded() -> (r: Flags)
        ensures
            r@ == 0x0000_1000u32,
    {
        assert(0x0000_1000u32 & !KNOWN_BITS == 0) by (bit_vector);
        Flags { bits: 0x0000_1000 }
    }

    /// Apple have not documented this flag.
    pub fn quick_check() -> (r: Flags)
        ensures
            r@ == 0x0400_0000u32,
    {
        assert(0x0400_0000u32 & !KNOWN_BITS == 0) by (bit_vector);
        Flags { bits: 0x0400_0000 }
    }

    /// Apple have not documented this flag.
    pub fn check_trusted_anchors() -> (r: Flags)
        ensures
            r@ == 0x0800_0000u32,
    {
        assert(0x0800_0000u32 & !KNOWN_BITS == 0) by (bit_vector);
        Flags { bits: 0x0800_0000 }
    }

    /// Apple have not documented this flag.
    pub fn report_progress() -> (r: Flags)
        ensures
            r@ == 0x1000_0000u32,
    {
        assert(0x1000_0000u32 & !KNOWN_BITS == 0) by (bit_vector);
        Flags { bits: 0x1000_0000 }
    }

    /// Apple have not documented this flag.
    pub fn no_network_access() -> (r: Flags)
        ensures
            r@ == 0x2000_0000u32,
    {
        assert(0x2000_0000u32 & !KNOWN_BITS == 0) by (bit_vector);
        Flags { bits: 0x2000_0000 }
    }

    /// Apple have not documented this flag.
    pub fn enforce_revocation_checks() -> (r: Flags)
        ensures
            r@ == 0x4000_0000u32,
    {
        assert(0x4000_0000u32 & !KNOWN_BITS == 0) by (bit_vector);
        Flags { bits: 0x4000_0000 }
    }

    /// Apple have not documented this flag.
    pub fn consider_expiration() -> (r: Flags)
        ensures
            r@ == 0x8000_0000u32,
    {
        assert(0x8000_0000u32 & !KNOWN_BITS == 0) by (bit_vector);
        Flags { bits: 0x8000_0000 }
    }

    /// The value with no option.
    pub fn empty() -> (r: Flags)
        ensures
            r@ == 0u32,
    {
        Flags::none()
    }

    /// The value with every known option.
    pub fn all() -> (r: Flags)
        ensures
            r@ == KNOWN_BITS,
    {
        assert(KNOWN_BITS & !KNOWN_BITS == 0) by (bit_vector);
        Flags { bits: KNOWN_BITS }
    }

    /// The raw bits, as they are handed to the operating system. No bit
    /// outside `KNOWN_BITS` is among them.
    pub fn bits(&self) -> (r: u32)
        ensures
            r == self@,
            r & !KNOWN_BITS == 0,
    {
        proof {
            use_type_invariant(self);
        }
        self.bits
    }

    /// The value with exactly the given bits, unless one of them names no
    /// option.
    pub fn from_bits(bits: u32) -> (r: Option<Flags>)
        ensures
            r.is_some() <==> bits & !KNOWN_BITS == 0,
            r.is_some() ==> r.unwrap()@ == bits,
    {
        if bits & !KNOWN_BITS == 0 {
            Some(Flags { bits })
        } else {
            None
        }
    }

    /// The value with the given bits, without those that name no option.
    pub fn from_bits_truncate(bits: u32) -> (r: Flags)
        ensures
            r@ == bits & KNOWN_BITS,
    {
        let kept: u32 = bits & KNOWN_BITS;
        assert((bits & KNOWN_BITS) & !KNOWN_BITS == 0) by (bit_vector);
        Flags { bits: kept }
    }

    /// Whether no option is set.
    pub fn is_empty(&self) -> (r: bool)
        ensures
            r == (self@ == 0),
    {
        self.bits == 0
    }

    /// Whether every known option is set.
    pub fn is_all(&self) -> (r: bool)
        ensures
            r == (self@ == KNOWN_BITS),
    {
        self.bits == KNOWN_BITS
    }

    /// Whether every option of `other` is also set in `self`.
    pub fn contains(&self, other: Flags) -> (r: bool)
        ensures
            r == self.includes(other),
    {
        self.bits & other.bits == other.bits
    }

    /// Whether `self` and `other` have an option in common.
    pub fn intersects(&self, other: Flags) -> (r: bool)
        ensures
            r == self.overlaps(other),
    {
        self.bits & other.bits != 0
    }

    /// The options set in `self` or in `other`. The result includes both.
    pub fn union(self, other: Flags) -> (r: Flags)
        ensures
            r@ == self@ | other@,
            r.includes(self),
            r.includes(other),
    {
        let a: u32 = self.bits();
        let b: u32 = other.bits();
        assert((a | b) & !KNOWN_BITS == 0) by (bit_vector)
            requires
                a & !KNOWN_BITS == 0,
                b & !KNOWN_BITS == 0,
        ;
        let r = Flags { bits: a | b };
        proof {
            union_includes_both(self, other, r);
        }
        r
    }

    /// The options set in both `self` and `other`.
    pub fn intersection(self, other: Flags) -> (r: Flags)
        ensures
            r@ == self@ & other@,
    {
        let a: u32 = self.bits();
        let b: u32 = other.bits();
        assert((a & b) & !KNOWN_BITS == 0) by (bit_vector)
            requires
                a & !KNOWN_BITS == 0,
        ;
        Flags { bits: a & b }
    }

    /// The options set in `self` and not in `other`.
    pub fn difference(self, other: Flags) -> (r: Flags)
        ensures
            r@ == self@ & !other@,
    {
        let a: u32 = self.bits();
        let b: u32 = other.bits();
        assert((a & !b) & !KNOWN_BITS == 0) by (bit_vector)
            requires
                a & !KNOWN_BITS == 0,
        ;
        Flags { bits: a & !b }
    }

    /// Adds the options of `other`.
    pub fn insert(&mut self, other: Flags)
        ensures
            final(self)@ == old(self)@ | other@,
    {
        *self = self.union(other);
    }

    /// Takes the options of `other` away.
    pub fn remove(&mut self, other: Flags)
        ensures
            final(self)@ == old(self)@ & !other@,
    {
        *self = self.difference(other);
    }
}

impl Default for Flags {
    /// The default is the value with no option.
    fn default() -> (r: Flags)
        ensures
            r@ == 0u32,
    {
        Flags::none()
    }
}

/// The value without options has no option bit, includes only itself and
/// is included in every value.
pub proof fn empty_has_no_option(e: Flags, a: Flags)
    requires
        e@ == 0,
    ensures
        forall|i: u32| i < 32 ==> !e.has(i),
        a.includes(e),
        e.includes(a) <==> a@ == 0,
        !e.overlaps(a),
{
    let x = a@;
    assert forall|i: u32| i < 32 implies !e.has(i) by {
        assert(!((0u32 >> i) & 1 == 1)) by (bit_vector)
            requires
                i < 32,
        ;
    }
    assert(x & 0u32 == 0u32) by (bit_vector);
    assert(0u32 & x == 0u32) by (bit_vector);
}

/// A union includes each of the two values it was made of, and holds
/// exactly the option bits that one of them holds.
pub proof fn union_includes_both(a: Flags, b: Flags, u: Flags)
    requires
        u@ == a@ | b@,
    ensures
        u.includes(a),
        u.includes(b),
        forall|i: u32| i < 32 ==> u.has(i) == (a.has(i) || b.has(i)),
{
    let x = a@;
    let y = b@;
    assert((x | y) & x == x) by (bit_vector);
    assert((x | y) & y == y) by (bit_vector);
    assert forall|i: u32| i < 32 implies u.has(i) == (a.has(i) || b.has(i)) by {
        assert((((x | y) >> i) & 1 == 1) == (((x >> i) & 1 == 1) || ((y >> i) & 1 == 1)))
            by (bit_vector)
            requires
                i < 32,
        ;
    }
}

/// An intersection is included in each of the two values it was made of,
/// and holds exactly the option bits that both of them hold.
pub proof fn intersection_is_included_in_both(a: Flags, b: Flags, m: Flags)
    requires
        m@ == a@ & b@,
    ensures
        a.includes(m),
        b.includes(m),
        forall|i: u32| i < 32 ==> m.has(i) == (a.has(i) && b.has(i)),
{
    let x = a@;
    let y = b@;
    assert(x & (x & y) == x & y) by (bit_vector);
    assert(y & (x & y) == x & y) by (bit_vector);
    assert forall|i: u32| i < 32 implies m.has(i) == (a.has(i) && b.has(i)) by {
        assert((((x & y) >> i) & 1 == 1) == (((x >> i) & 1 == 1) && ((y >> i) & 1 == 1)))
            by (bit_vector)
            requires
                i < 32,
        ;
    }
}

/// A difference is included in the first value, has nothing in common with
/// the second, and holds exactly the option bits of the first that the
/// second lacks.
pub proof fn difference_keeps_the_rest(a: Flags, b: Flags, d: Flags)
    requires
        d@ == a@ & !b@,
    ensures
        a.includes(d),
        !d.overlaps(b),
        forall|i: u32| i < 32 ==> d.has(i) == (a.has(i) && !b.has(i)),
{
    let x = a@;
    let y = b@;
    assert(x & (x & !y) == x & !y) by (bit_vector);
    assert((x & !y) & y == 0) by (bit_vector);
    assert forall|i: u32| i < 32 implies d.has(i) == (a.has(i) && !b.has(i)) by {
        assert((((x & !y) >> i) & 1 == 1) == (((x >> i) & 1 == 1) && !((y >> i) & 1 == 1)))
            by (bit_vector)
            requires
                i < 32,
        ;
    }
}

/// Inclusion is inclusion bit by bit: where `a` includes `b`, every option
/// bit of `b` is one of `a`.
pub proof fn inclusion_holds_bit_by_bit(a: Flags, b: Flags)
    requires
        a.includes(b),
    ensures
        forall|i: u32| i < 32 && b.has(i) ==> a.has(i),
{
    let x = a@;
    let y = b@;
    assert forall|i: u32| i < 32 && b.has(i) implies a.has(i) by {
        assert((x >> i) & 1 == 1) by (bit_vector)
            requires
                x & y == y,
                i < 32,
                (y >> i) & 1 == 1,
        ;
    }
}

} // verus!
