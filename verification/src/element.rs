//! The adapter that lets a handle of the host stand for an element.
//!
//! A handle is a number that only the host can interpret; 0 means that there
//! is no element. The host answers every question about an element. What is
//! decided here is how its answers are read: which handle means "no such
//! relative", by what address an element is told from the others, and what is
//! answered without asking because the host has no way to tell.

use vstd::prelude::*;

verus! {

/// A handle of the host for one of its elements. The element is not owned.
#[derive(Clone, Copy, Debug, PartialEq, Eq, Structural)]
pub struct FFIElement {
    /// The handle; 0 where there is no element.
    pub ptr: usize,
}

/// A handle seen as an element.
#[derive(Clone, Copy, Debug, PartialEq, Eq, Structural)]
pub struct FFIElementWrapper(pub FFIElement);

/// Whether two elements count as being of one type: whether their handles
/// are equal.
pub open spec fn same_type(a: FFIElementWrapper, b: FFIElementWrapper) -> bool {
    a.0.ptr == b.0.ptr
}

/// The address by which an element is told from the others: its handle, and
/// 1 for the handle 0, since an address is never 0.
pub open spec fn opaque_address(ptr: usize) -> usize {
    if ptr == 0 {
        1
    } else {
        ptr
    }
}

impl FFIElementWrapper {
    /// Whether this is the handle that stands for no element.
    pub open spec fn spec_is_null(&self) -> bool {
        self.0.ptr == 0
    }

    #[verifier::when_used_as_spec(spec_is_null)]
    pub fn is_null(&self) -> (null: bool)
        ensures
            null == self.spec_is_null(),
    {
        self.0.ptr == 0
    }

    /// The address that identifies this element. It is never 0.
    pub fn opaque(&self) -> (address: usize)
        ensures
            address == opaque_address(self.0.ptr),
            address != 0,
    {
        if self.0.ptr == 0 {
            1
        } else {
            self.0.ptr
        }
    }

    /// Reads the host's answer to a question for a relative: the parent, the
    /// previous or next sibling, the first child. The handle 0 means that
    /// there is none; every other handle is that relative.
    pub fn relative(answer: FFIElement) -> (relative: Option<FFIElementWrapper>)
        ensures
            relative is None <==> answer.ptr == 0,
            relative matches Some(element) ==> element.0 == answer,
    {
        if answer.ptr == 0 {
            None
        } else {
            Some(FFIElementWrapper(answer))
        }
    }

    /// Whether two elements are of one type. Only the handles are compared:
    /// an element is of the same type as itself, and nothing is known of two
    /// different handles.
    pub fn is_same_type(&self, other: &FFIElementWrapper) -> (same: bool)
        ensures
            same == same_type(*self, *other),
    {
        self.0.ptr == other.0.ptr
    }

    /// The parent is never taken for a shadow root.
    pub fn parent_node_is_shadow_root(&self) -> (r: bool)
        ensures
            !r,
    {
        false
    }

    /// No element has a shadow host.
    pub fn containing_shadow_host(&self) -> (host: Option<FFIElementWrapper>)
        ensures
            host is None,
    {
        None
    }

    /// No element is a pseudo-element.
    pub fn is_pseudo_element(&self) -> (r: bool)
        ensures
            !r,
    {
        false
    }

    /// Every element is taken for an HTML element in an HTML document.
    pub fn is_html_element_in_html_document(&self) -> (r: bool)
        ensures
            r,
    {
        true
    }

    /// No attribute selector matches: the host cannot be asked for an
    /// attribute.
    pub fn attr_matches(&self) -> (r: bool)
        ensures
            !r,
    {
        false
    }

    /// No pseudo-element matches.
    pub fn match_pseudo_element(&self) -> (r: bool)
        ensures
            !r,
    {
        false
    }

    /// No element is a slot.
    pub fn is_html_slot_element(&self) -> (r: bool)
        ensures
            !r,
    {
        false
    }

    /// No element has a custom state.
    pub fn has_custom_state(&self) -> (r: bool)
        ensures
            !r,
    {
        false
    }

    /// No element brings a part in under another name.
    pub fn imported_part(&self) -> (part: Option<String>)
        ensures
            part is None,
    {
        None
    }

    /// No element is a part.
    pub fn is_part(&self) -> (r: bool)
        ensures
            !r,
    {
        false
    }

    /// No element adds a hash to a filter of ancestors.
    pub fn add_element_unique_hashes(&self) -> (r: bool)
        ensures
            !r,
    {
        false
    }
}

/// Two elements with different handles have different addresses.
pub proof fn lemma_opaque_tells_elements_apart(a: usize, b: usize)
    requires
        a != 0,
        b != 0,
        a != b,
    ensures
        opaque_address(a) != opaque_address(b),
{
}

/// The address that stands for no element is also that of the handle 1, and
/// of no other handle.
pub proof fn lemma_opaque_of_null(a: usize)
    ensures
        opaque_address(a) == opaque_address(0) <==> a == 0 || a == 1,
{
}

/// Every element is of the same type as itself.
pub proof fn lemma_same_type_is_reflexive(element: FFIElementWrapper)
    ensures
        same_type(element, element),
{
}

} // verus!
