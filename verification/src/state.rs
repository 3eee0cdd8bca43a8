//! The dynamic state of an element and the pseudo-classes that read it.
//!
//! The host hands over a snapshot of 64 flag bits. Which bit stands for which
//! flag is laid down by `stylo_dom::ElementState`; which pseudo-class reads
//! which flag is laid down here.

use vstd::prelude::*;
use stylo_dom::ElementState;

verus! {

/// The flags of an element's state that a pseudo-class can read.
#[derive(Clone, Copy, Debug, PartialEq, Eq, Structural)]
pub enum StateFlag {
    Active,
    Focus,
    Hover,
    Enabled,
    Disabled,
    Checked,
    Indeterminate,
    PlaceholderShown,
    UrlTarget,
    Visited,
    Unvisited,
    /// Both link flags at once.
    VisitedOrUnvisited,
}

impl StateFlag {
    /// The bits of a flag in a snapshot.
    pub open spec fn mask(self) -> u64 {
        match self {
            StateFlag::Active => 0x1,
            StateFlag::Focus => 0x2,
            StateFlag::Hover => 0x4,
            StateFlag::Enabled => 0x8,
            StateFlag::Disabled => 0x10,
            StateFlag::Checked => 0x20,
            StateFlag::Indeterminate => 0x40,
            StateFlag::PlaceholderShown => 0x80,
            StateFlag::UrlTarget => 0x100,
            StateFlag::Visited => 0x4_0000,
            StateFlag::Unvisited => 0x8_0000,
            StateFlag::VisitedOrUnvisited => 0xC_0000,
        }
    }
}

/// The bits of a snapshot that stand for a flag at all: the lower 62.
pub open spec fn known_bits() -> u64 {
    0x3FFF_FFFF_FFFF_FFFF
}

/// Reads the bits of a flag from the constants of `stylo_dom::ElementState`.
///
/// Trusted: each constant has the bits that `StateFlag::mask` gives, which is
/// `1 << n` in its declaration written out, with `n` from 0 to 8 for the
/// first nine, 18 for `VISITED`, 19 for `UNVISITED`, and both of these for
/// `VISITED_OR_UNVISITED`.
#[verifier::external_body]
fn flag_bits(flag: StateFlag) -> (bits: u64)
    ensures
        bits == flag.mask(),
{
    match flag {
        StateFlag::Active => ElementState::ACTIVE,
        StateFlag::Focus => ElementState::FOCUS,
        StateFlag::Hover => ElementState::HOVER,
        StateFlag::Enabled => ElementState::ENABLED,
        StateFlag::Disabled => ElementState::DISABLED,
        StateFlag::Checked => ElementState::CHECKED,
        StateFlag::Indeterminate => ElementState::INDETERMINATE,
        StateFlag::PlaceholderShown => ElementState::PLACEHOLDER_SHOWN,
        StateFlag::UrlTarget => ElementState::URLTARGET,
        StateFlag::Visited => ElementState::VISITED,
        StateFlag::Unvisited => ElementState::UNVISITED,
        StateFlag::VisitedOrUnvisited => ElementState::VISITED_OR_UNVISITED,
    }.bits()
}

/// Calls `ElementState::from_bits_truncate` and hands the bits of the result
/// back.
///
/// Trusted: the call clears the bits that stand for no flag and keeps the
/// others. The flags of `ElementState` cover the bits 0 to 61.
#[verifier::external_body]
fn truncate_snapshot(snapshot: u64) -> (state: u64)
    ensures
        state == snapshot & known_bits(),
{
    ElementState::from_bits_truncate(snapshot).bits()
}

/// Calls `ElementState::contains` on two states given by their bits.
///
/// Trusted: the call tells whether every bit of `flags` is set in `state`.
#[verifier::external_body]
fn state_contains(state: u64, flags: u64) -> (held: bool)
    ensures
        held == (state & flags == flags),
{
    ElementState::from_bits_retain(state).contains(ElementState::from_bits_retain(flags))
}

/// Calls `ElementState::intersects` on two states given by their bits.
///
/// Trusted: the call tells whether some bit of `flags` is set in `state`.
#[verifier::external_body]
fn state_intersects(state: u64, flags: u64) -> (held: bool)
    ensures
        held == (state & flags != 0),
{
    ElementState::from_bits_retain(state).intersects(ElementState::from_bits_retain(flags))
}

/// Cuts a snapshot of the host down to the bits that stand for a flag.
pub fn known_state(snapshot: u64) -> (state: u64)
    ensures
        state == snapshot & known_bits(),
        state <= known_bits(),
{
    let state = truncate_snapshot(snapshot);
    assert(snapshot & 0x3FFF_FFFF_FFFF_FFFF <= 0x3FFF_FFFF_FFFF_FFFF) by (bit_vector);
    state
}

/// The pseudo-classes that are not tree-structural, as far as the state of
/// an element can answer them. Every other one is `Other`.
#[derive(Clone, Copy, Debug, PartialEq, Eq, Structural)]
pub enum PseudoClass {
    Active,
    Focus,
    Hover,
    Enabled,
    Disabled,
    Checked,
    Indeterminate,
    PlaceholderShown,
    Target,
    Visited,
    Link,
    AnyLink,
    /// A pseudo-class that no flag answers.
    Other,
}

impl PseudoClass {
    /// The flag that answers a pseudo-class, if one does.
    pub open spec fn spec_state_flag(self) -> Option<StateFlag> {
        match self {
            PseudoClass::Active => Some(StateFlag::Active),
            PseudoClass::Focus => Some(StateFlag::Focus),
            PseudoClass::Hover => Some(StateFlag::Hover),
            PseudoClass::Enabled => Some(StateFlag::Enabled),
            PseudoClass::Disabled => Some(StateFlag::Disabled),
            PseudoClass::Checked => Some(StateFlag::Checked),
            PseudoClass::Indeterminate => Some(StateFlag::Indeterminate),
            PseudoClass::PlaceholderShown => Some(StateFlag::PlaceholderShown),
            PseudoClass::Target => Some(StateFlag::UrlTarget),
            PseudoClass::Visited => Some(StateFlag::Visited),
            PseudoClass::Link => Some(StateFlag::Unvisited),
            PseudoClass::AnyLink => Some(StateFlag::VisitedOrUnvisited),
            PseudoClass::Other => None,
        }
    }

    /// Looks a pseudo-class up in the table of flags.
    #[verifier::when_used_as_spec(spec_state_flag)]
    pub fn state_flag(self) -> (flag: Option<StateFlag>)
        ensures
            flag == self.spec_state_flag(),
    {
        match self {
            PseudoClass::Active => Some(StateFlag::Active),
            PseudoClass::Focus => Some(StateFlag::Focus),
            PseudoClass::Hover => Some(StateFlag::Hover),
            PseudoClass::Enabled => Some(StateFlag::Enabled),
            PseudoClass::Disabled => Some(StateFlag::Disabled),
            PseudoClass::Checked => Some(StateFlag::Checked),
            PseudoClass::Indeterminate => Some(StateFlag::Indeterminate),
            PseudoClass::PlaceholderShown => Some(StateFlag::PlaceholderShown),
            PseudoClass::Target => Some(StateFlag::UrlTarget),
            PseudoClass::Visited => Some(StateFlag::Visited),
            PseudoClass::Link => Some(StateFlag::Unvisited),
            PseudoClass::AnyLink => Some(StateFlag::VisitedOrUnvisited),
            PseudoClass::Other => None,
        }
    }
}

/// Whether a snapshot answers a pseudo-class: some bit of the flag that the
/// table gives for it is set. A pseudo-class without a flag is never
/// answered.
pub open spec fn pseudo_class_matches(pc: PseudoClass, snapshot: u64) -> bool {
    match pc.spec_state_flag() {
        Some(flag) => snapshot & flag.mask() != 0,
        None => false,
    }
}

/// For a flag of one bit, to hold all its bits is to hold some of them, and
/// clearing the bits beyond the known ones changes neither.
proof fn lemma_flag_in_truncated_snapshot(snapshot: u64, flag: StateFlag)
    ensures
        (snapshot & known_bits()) & flag.mask() != 0 <==> snapshot & flag.mask() != 0,
        flag != StateFlag::VisitedOrUnvisited ==> ((snapshot & known_bits()) & flag.mask()
            == flag.mask() <==> snapshot & flag.mask() != 0),
{
    let mask = flag.mask();
    assert(((snapshot & 0x3FFF_FFFF_FFFF_FFFF) & mask != 0) == (snapshot & mask != 0))
        by (bit_vector)
        requires
            mask < 0x10_0000,
    ;
    if flag != StateFlag::VisitedOrUnvisited {
        assert(((snapshot & 0x3FFF_FFFF_FFFF_FFFF) & mask == mask) == (snapshot & mask != 0))
            by (bit_vector)
            requires
                mask == 0x1 || mask == 0x2 || mask == 0x4 || mask == 0x8 || mask == 0x10 || mask
                    == 0x20 || mask == 0x40 || mask == 0x80 || mask == 0x100 || mask == 0x4_0000
                    || mask == 0x8_0000,
        ;
    }
}

/// Answers a pseudo-class from a snapshot of the element's state.
///
/// The snapshot is cut down to the known flags. `:any-link` asks for either
/// link flag; each other pseudo-class of the table asks for its one flag; a
/// pseudo-class outside the table does not match.
pub fn match_non_ts_pseudo_class(pc: &PseudoClass, snapshot: u64) -> (matched: bool)
    ensures
        matched == pseudo_class_matches(*pc, snapshot),
{
    let state = known_state(snapshot);
    match pc.state_flag() {
        None => false,
        Some(flag) => {
            proof {
                lemma_flag_in_truncated_snapshot(snapshot, flag);
            }
            match flag {
                StateFlag::VisitedOrUnvisited => state_intersects(state, flag_bits(flag)),
                _ => state_contains(state, flag_bits(flag)),
            }
        },
    }
}

/// Two flags of the table never share a bit, but for the pair of link flags
/// and each of its two members.
pub proof fn lemma_flags_are_independent(a: StateFlag, b: StateFlag)
    requires
        a != b,
        a != StateFlag::VisitedOrUnvisited,
        b != StateFlag::VisitedOrUnvisited,
    ensures
        a.mask() & b.mask() == 0,
{
    let x = a.mask();
    let y = b.mask();
    assert(x & y == 0) by (bit_vector)
        requires
            x != y,
            x == 0x1 || x == 0x2 || x == 0x4 || x == 0x8 || x == 0x10 || x == 0x20 || x == 0x40
                || x == 0x80 || x == 0x100 || x == 0x4_0000 || x == 0x8_0000,
            y == 0x1 || y == 0x2 || y == 0x4 || y == 0x8 || y == 0x10 || y == 0x20 || y == 0x40
                || y == 0x80 || y == 0x100 || y == 0x4_0000 || y == 0x8_0000,
    ;
}

/// `:any-link` matches exactly where `:link` or `:visited` does.
pub proof fn lemma_any_link_is_link_or_visited(snapshot: u64)
    ensures
        pseudo_class_matches(PseudoClass::AnyLink, snapshot) <==> pseudo_class_matches(
            PseudoClass::Link,
            snapshot,
        ) || pseudo_class_matches(PseudoClass::Visited, snapshot),
{
    assert((snapshot & 0xC_0000 != 0) == (snapshot & 0x8_0000 != 0 || snapshot & 0x4_0000 != 0))
        by (bit_vector);
}

} // verus!
