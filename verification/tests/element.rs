//! A handle as an element, and the state flags that pseudo-classes read.

use style_ffi::{
    known_state, match_non_ts_pseudo_class, FFIElement, FFIElementWrapper, PseudoClass,
};
use stylo_dom::ElementState;

const TABLE: [(PseudoClass, ElementState); 12] = [
    (PseudoClass::Active, ElementState::ACTIVE),
    (PseudoClass::Focus, ElementState::FOCUS),
    (PseudoClass::Hover, ElementState::HOVER),
    (PseudoClass::Enabled, ElementState::ENABLED),
    (PseudoClass::Disabled, ElementState::DISABLED),
    (PseudoClass::Checked, ElementState::CHECKED),
    (PseudoClass::Indeterminate, ElementState::INDETERMINATE),
    (PseudoClass::PlaceholderShown, ElementState::PLACEHOLDER_SHOWN),
    (PseudoClass::Target, ElementState::URLTARGET),
    (PseudoClass::Visited, ElementState::VISITED),
    (PseudoClass::Link, ElementState::UNVISITED),
    (PseudoClass::AnyLink, ElementState::VISITED_OR_UNVISITED),
];

fn element(ptr: usize) -> FFIElementWrapper {
    FFIElementWrapper(FFIElement { ptr })
}

#[test]
fn handle_zero_is_no_element() {
    assert!(element(0).is_null());
    assert!(!element(1).is_null());
    assert!(!element(0x7f00_1000).is_null());
    assert!(!element(usize::MAX).is_null());
}

#[test]
fn opaque_address_is_the_handle() {
    assert_eq!(element(0x7f00_1000).opaque(), 0x7f00_1000);
    assert_eq!(element(8).opaque(), 8);
    assert_eq!(element(usize::MAX).opaque(), usize::MAX);
}

#[test]
fn opaque_address_of_no_element_is_one() {
    assert_eq!(element(0).opaque(), 1);
}

#[test]
fn opaque_address_is_never_zero_and_tells_handles_apart() {
    let handles = [0usize, 8, 16, 24, 0x1000, 0x7f00_1000, usize::MAX - 7, usize::MAX];
    for a in handles {
        assert_ne!(element(a).opaque(), 0);
        for b in handles {
            assert_eq!(element(a).opaque() == element(b).opaque(), a == b);
        }
    }
}

#[test]
fn answer_zero_means_no_relative() {
    assert_eq!(FFIElementWrapper::relative(FFIElement { ptr: 0 }), None);
}

#[test]
fn any_other_answer_is_the_relative() {
    for ptr in [1usize, 8, 0x7f00_1000, usize::MAX] {
        assert_eq!(FFIElementWrapper::relative(FFIElement { ptr }), Some(element(ptr)));
    }
}

#[test]
fn element_is_of_the_same_type_as_itself() {
    for ptr in [0usize, 1, 8, 0x7f00_1000, usize::MAX] {
        assert!(element(ptr).is_same_type(&element(ptr)));
    }
}

#[test]
fn different_handles_are_not_taken_for_one_type() {
    assert!(!element(8).is_same_type(&element(16)));
    assert!(!element(0).is_same_type(&element(16)));
    assert!(!element(16).is_same_type(&element(0)));
}

#[test]
fn what_the_host_cannot_tell_is_answered_with_no() {
    for ptr in [0usize, 0x7f00_1000] {
        let e = element(ptr);
        assert!(!e.parent_node_is_shadow_root());
        assert_eq!(e.containing_shadow_host(), None);
        assert!(!e.is_pseudo_element());
        assert!(!e.attr_matches());
        assert!(!e.match_pseudo_element());
        assert!(!e.is_html_slot_element());
        assert!(!e.has_custom_state());
        assert_eq!(e.imported_part(), None);
        assert!(!e.is_part());
        assert!(!e.add_element_unique_hashes());
        assert!(e.is_html_element_in_html_document());
    }
}

#[test]
fn each_pseudo_class_reads_its_own_flag() {
    for (pseudo_class, flag) in TABLE {
        assert!(match_non_ts_pseudo_class(&pseudo_class, flag.bits()), "{:?}", pseudo_class);
        assert!(!match_non_ts_pseudo_class(&pseudo_class, 0), "{:?}", pseudo_class);
        assert!(
            !match_non_ts_pseudo_class(&pseudo_class, !flag.bits()),
            "{:?}",
            pseudo_class
        );
        assert!(match_non_ts_pseudo_class(&pseudo_class, u64::MAX), "{:?}", pseudo_class);
    }
}

#[test]
fn no_pseudo_class_reads_the_flag_of_another() {
    for (pseudo_class, own) in TABLE {
        for (other_class, other) in TABLE {
            let related = own.intersects(other);
            assert_eq!(
                match_non_ts_pseudo_class(&pseudo_class, other.bits()),
                related,
                "{:?} against the flag of {:?}",
                pseudo_class,
                other_class
            );
        }
    }
}

#[test]
fn flags_sit_at_the_bits_of_the_shared_layout() {
    assert!(match_non_ts_pseudo_class(&PseudoClass::Active, 1 << 0));
    assert!(match_non_ts_pseudo_class(&PseudoClass::Focus, 1 << 1));
    assert!(match_non_ts_pseudo_class(&PseudoClass::Hover, 1 << 2));
    assert!(match_non_ts_pseudo_class(&PseudoClass::Enabled, 1 << 3));
    assert!(match_non_ts_pseudo_class(&PseudoClass::Disabled, 1 << 4));
    assert!(match_non_ts_pseudo_class(&PseudoClass::Checked, 1 << 5));
    assert!(match_non_ts_pseudo_class(&PseudoClass::Indeterminate, 1 << 6));
    assert!(match_non_ts_pseudo_class(&PseudoClass::PlaceholderShown, 1 << 7));
    assert!(match_non_ts_pseudo_class(&PseudoClass::Target, 1 << 8));
    assert!(match_non_ts_pseudo_class(&PseudoClass::Visited, 1 << 18));
    assert!(match_non_ts_pseudo_class(&PseudoClass::Link, 1 << 19));
    assert!(!match_non_ts_pseudo_class(&PseudoClass::Visited, 1 << 19));
    assert!(!match_non_ts_pseudo_class(&PseudoClass::Link, 1 << 18));
    assert!(!match_non_ts_pseudo_class(&PseudoClass::Target, 1 << 9));
    assert!(!match_non_ts_pseudo_class(&PseudoClass::Hover, 1 << 17));
}

#[test]
fn any_link_reads_either_link_flag() {
    let visited = ElementState::VISITED.bits();
    let unvisited = ElementState::UNVISITED.bits();
    assert!(match_non_ts_pseudo_class(&PseudoClass::AnyLink, visited));
    assert!(match_non_ts_pseudo_class(&PseudoClass::AnyLink, unvisited));
    assert!(match_non_ts_pseudo_class(&PseudoClass::AnyLink, visited | unvisited));
    assert!(!match_non_ts_pseudo_class(&PseudoClass::AnyLink, !(visited | unvisited)));
    for snapshot in [0u64, visited, unvisited, visited | unvisited, 0x1234_5678_9ABC_DEF0] {
        assert_eq!(
            match_non_ts_pseudo_class(&PseudoClass::AnyLink, snapshot),
            match_non_ts_pseudo_class(&PseudoClass::Link, snapshot)
                || match_non_ts_pseudo_class(&PseudoClass::Visited, snapshot)
        );
    }
}

#[test]
fn pseudo_class_outside_the_table_never_matches() {
    for snapshot in [0u64, 1, 0xC_01FF, u64::MAX, 0x3FFF_FFFF_FFFF_FFFF] {
        assert!(!match_non_ts_pseudo_class(&PseudoClass::Other, snapshot));
    }
}

#[test]
fn bits_that_stand_for_no_flag_answer_nothing() {
    let unknown: u64 = 0xC000_0000_0000_0000;
    assert_eq!(ElementState::from_bits_truncate(unknown).bits(), 0);
    for (pseudo_class, flag) in TABLE {
        assert!(!match_non_ts_pseudo_class(&pseudo_class, unknown));
        assert!(match_non_ts_pseudo_class(&pseudo_class, unknown | flag.bits()));
    }
}

#[test]
fn flags_are_read_one_by_one_from_a_full_snapshot() {
    let hovered_and_checked = ElementState::HOVER.bits() | ElementState::CHECKED.bits();
    assert!(match_non_ts_pseudo_class(&PseudoClass::Hover, hovered_and_checked));
    assert!(match_non_ts_pseudo_class(&PseudoClass::Checked, hovered_and_checked));
    assert!(!match_non_ts_pseudo_class(&PseudoClass::Active, hovered_and_checked));
    assert!(!match_non_ts_pseudo_class(&PseudoClass::Focus, hovered_and_checked));
    assert!(!match_non_ts_pseudo_class(&PseudoClass::AnyLink, hovered_and_checked));
}

#[test]
fn known_state_keeps_the_lower_62_bits() {
    assert_eq!(ElementState::all().bits(), 0x3FFF_FFFF_FFFF_FFFF);
    assert_eq!(known_state(u64::MAX), 0x3FFF_FFFF_FFFF_FFFF);
    assert_eq!(known_state(u64::MAX), ElementState::all().bits());
    assert_eq!(known_state(0xC000_0000_0000_0000), 0);
    assert_eq!(known_state(0x8000_0000_0000_0004), 0x4);
    assert_eq!(known_state(0), 0);
    for snapshot in [1u64, 0xC_01FF, 0x1234_5678_9ABC_DEF0, 0xFEDC_BA98_7654_3210] {
        assert_eq!(known_state(snapshot), ElementState::from_bits_truncate(snapshot).bits());
        assert_eq!(known_state(snapshot), snapshot & 0x3FFF_FFFF_FFFF_FFFF);
    }
}
