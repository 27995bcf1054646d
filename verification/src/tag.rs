//! What a function attaches to a value beside the value itself: a subtype or a typed pointer.

use std::sync::Arc;
use vstd::prelude::*;

use crate::text::str_eq;

verus! {

/// The subtype of a pointer value: ASCII `p`.
pub const POINTER_SUBTYPE: u8 = 0x70;

/// An object passed from function to function as a NULL that only a function asking for the same
/// type name can unwrap.
pub struct PointerValue<O> {
    ptype: String,
    object: Arc<O>,
}

impl<O> PointerValue<O> {
    pub closed spec fn spec_ptype(&self) -> Seq<char> {
        self.ptype@
    }

    pub closed spec fn spec_object(&self) -> O {
        *self.object
    }

    pub fn new(object: Arc<O>, ptype: String) -> (r: Self)
        ensures
            r.spec_ptype() == ptype@,
            r.spec_object() == *object,
    {
        PointerValue { ptype, object }
    }

    /// The type name the object was stored under.
    pub fn ptype(&self) -> (r: &str)
        ensures
            r@ == self.spec_ptype(),
    {
        self.ptype.as_str()
    }

    /// The object, for a caller that knows its type name. Names are compared character by
    /// character: case matters and there is no subtyping.
    pub fn get(&self, ptype: &str) -> (r: Option<Arc<O>>)
        ensures
            r == (if self.spec_ptype() == ptype@ {
                Some(Arc::new(self.spec_object()))
            } else {
                None
            }),
    {
        if str_eq(self.ptype.as_str(), ptype) {
            Some(self.object.clone())
        } else {
            None
        }
    }
}

/// Calls [`Arc::ptr_eq`], which says whether two handles share one allocation. Claimed of it: two
/// handles that do, hold the same object. Of two handles that do not, nothing is claimed.
#[verifier::external_body]
fn same_allocation<O>(a: &Arc<O>, b: &Arc<O>) -> (r: bool)
    ensures
        r ==> *a == *b,
{
    Arc::ptr_eq(a, b)
}

/// Whether `same` is what comparing the allocations behind two pointer values can give.
pub closed spec fn compared<O>(a: PointerValue<O>, b: PointerValue<O>, same: bool) -> bool {
    call_ensures(same_allocation::<O>, (&a.object, &b.object), same)
}

/// Whether two pointer values are equal, given their type names and whether the objects they hold
/// share one allocation.
pub fn same_pointer(a: &str, b: &str, same: bool) -> (r: bool)
    ensures
        r == (a@ == b@ && same),
{
    str_eq(a, b) && same
}

impl<O> PartialEq for PointerValue<O> {
    /// Two pointer values are equal when they hold the very same object under the same type name.
    fn eq(&self, other: &Self) -> (r: bool)
        ensures
            exists|same: bool| #[trigger]
                compared(*self, *other, same) && r == (self.spec_ptype() == other.spec_ptype()
                    && same),
            r ==> self.spec_object() == other.spec_object(),
    {
        let same = same_allocation(&self.object, &other.object);
        assert(compared(*self, *other, same));
        same_pointer(self.ptype.as_str(), other.ptype.as_str(), same)
    }
}

impl<O> vstd::std_specs::cmp::PartialEqSpecImpl for PointerValue<O> {
    open spec fn obeys_eq_spec() -> bool {
        false
    }

    open spec fn eq_spec(&self, other: &Self) -> bool {
        self == other
    }
}

/// The subtype and the pointer a function attached to its result. Any write that is not a function
/// result drops the tag, so both are gone once a value is stored.
pub struct ValueTag<O> {
    subtype: u8,
    pointer: Option<Arc<PointerValue<O>>>,
}

impl<O> ValueTag<O> {
    pub closed spec fn spec_subtype(&self) -> u8 {
        self.subtype
    }

    pub closed spec fn spec_pointer(&self) -> Option<PointerValue<O>> {
        match self.pointer {
            Some(p) => Some(*p),
            None => None,
        }
    }

    /// A pointer always comes with its own subtype.
    #[verifier::type_invariant]
    spec fn well_formed(&self) -> bool {
        self.pointer is Some ==> self.subtype == POINTER_SUBTYPE
    }

    pub fn from_subtype(subtype: u8) -> (r: Self)
        ensures
            r.spec_subtype() == subtype,
            r.spec_pointer() is None,
    {
        ValueTag { subtype, pointer: None }
    }

    pub fn from_pointer(pointer: Arc<PointerValue<O>>) -> (r: Self)
        ensures
            r.spec_subtype() == POINTER_SUBTYPE,
            r.spec_pointer() == Some(*pointer),
    {
        ValueTag { subtype: POINTER_SUBTYPE, pointer: Some(pointer) }
    }

    pub fn subtype(&self) -> (r: u8)
        ensures
            r == self.spec_subtype(),
            self.spec_pointer() is Some ==> r == POINTER_SUBTYPE,
    {
        proof {
            use_type_invariant(self);
        }
        self.subtype
    }

    pub fn pointer(&self) -> (r: Option<&Arc<PointerValue<O>>>)
        ensures
            match r {
                Some(p) => self.spec_pointer() == Some(**p),
                None => self.spec_pointer() is None,
            },
    {
        self.pointer.as_ref()
    }

    pub fn is_pointer(&self) -> (r: bool)
        ensures
            r == (self.spec_pointer() is Some),
    {
        self.pointer.is_some()
    }
}

impl<O> Clone for ValueTag<O> {
    fn clone(&self) -> (r: Self)
        ensures
            r == *self,
    {
        proof {
            use_type_invariant(self);
        }
        ValueTag {
            subtype: self.subtype,
            pointer: match &self.pointer {
                Some(p) => Some(p.clone()),
                None => None,
            },
        }
    }
}

impl<O> Default for ValueTag<O> {
    fn default() -> (r: Self)
        ensures
            r.spec_subtype() == 0,
            r.spec_pointer() is None,
    {
        ValueTag { subtype: 0, pointer: None }
    }
}

/// Whether two tags are equal, given their subtypes, which of them hold a pointer, and whether two
/// pointers they hold are equal.
pub fn same_tag(
    a_subtype: u8,
    b_subtype: u8,
    a_pointer: bool,
    b_pointer: bool,
    same: bool,
) -> (r: bool)
    ensures
        r == (a_subtype == b_subtype && a_pointer == b_pointer && (a_pointer ==> same)),
{
    a_subtype == b_subtype && a_pointer == b_pointer && (!a_pointer || same)
}

impl<O> PartialEq for ValueTag<O> {
    /// Two tags are equal when their subtypes are and neither holds a pointer, or both hold equal
    /// ones.
    fn eq(&self, other: &Self) -> (r: bool)
        ensures
            self.spec_pointer() is None && other.spec_pointer() is None ==> r == (
            self.spec_subtype() == other.spec_subtype()),
            self.spec_pointer() is None != other.spec_pointer() is None ==> !r,
            self.spec_pointer() is Some && other.spec_pointer() is Some ==> exists|same: bool|
                #[trigger] compared(self.spec_pointer()->0, other.spec_pointer()->0, same) && r == (
                self.spec_subtype() == other.spec_subtype() && self.spec_pointer()->0.spec_ptype()
                    == other.spec_pointer()->0.spec_ptype() && same),
            self.spec_pointer() is Some && r ==> self.spec_pointer()->0.spec_object()
                == other.spec_pointer()->0.spec_object(),
    {
        let ghost mut shared = false;
        let same = match (&self.pointer, &other.pointer) {
            (Some(a), Some(b)) => {
                let equal = PartialEq::eq(&**a, &**b);
                proof {
                    shared = choose|same: bool| #[trigger]
                        compared(**a, **b, same) && equal == (a.spec_ptype() == b.spec_ptype()
                            && same);
                }
                equal
            },
            _ => false,
        };
        assert(self.spec_pointer() is Some && other.spec_pointer() is Some ==> compared(
            self.spec_pointer()->0,
            other.spec_pointer()->0,
            shared,
        ));
        same_tag(self.subtype, other.subtype, self.is_pointer(), other.is_pointer(), same)
    }
}

impl<O> vstd::std_specs::cmp::PartialEqSpecImpl for ValueTag<O> {
    open spec fn obeys_eq_spec() -> bool {
        false
    }

    open spec fn eq_spec(&self, other: &Self) -> bool {
        self == other
    }
}

}
