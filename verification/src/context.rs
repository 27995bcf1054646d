//! What a running user-defined function can reach.

use std::sync::Arc;
use vstd::prelude::*;

use crate::auxdata::AuxDataStore;
use crate::error::LimboError;
use crate::tag::{PointerValue, ValueTag};
use crate::value::ValueRef;

verus! {

pub const SQLITE_ERROR: i32 = 1;

pub const SQLITE_NOMEM: i32 = 7;

pub const SQLITE_TOOBIG: i32 = 18;

/// The auxiliary data of the statement that makes a call, and the instruction that makes it.
pub struct AuxDataSlot<'a, O> {
    pub store: &'a mut AuxDataStore<O>,
    pub pc: u32,
}

/// One call of a function: its connection, its arguments and the tags on them, its auxiliary data,
/// and the tag it leaves on its result. `C` is the connection a function may use, `O` the objects
/// it may keep or pass on.
pub struct FunctionContext<'a, C, O> {
    pub connection: &'a C,
    pub args: &'a [ValueRef<'a>],
    pub arg_tags: &'a [Option<&'a ValueTag<O>>],
    /// Only a scalar call has one.
    pub aux: Option<AuxDataSlot<'a, O>>,
    pub result_tag: Option<ValueTag<O>>,
}

/// Whether a tag holds this subtype and no pointer.
pub open spec fn subtype_tag<O>(tag: Option<ValueTag<O>>, subtype: u8) -> bool {
    &&& tag is Some
    &&& tag->0.spec_subtype() == subtype
    &&& tag->0.spec_pointer() is None
}

/// Whether a tag holds a pointer to this object under this type name.
pub open spec fn pointer_tag<O>(tag: Option<ValueTag<O>>, object: O, ptype: Seq<char>) -> bool {
    &&& tag is Some
    &&& tag->0.spec_subtype() == crate::tag::POINTER_SUBTYPE
    &&& tag->0.spec_pointer() is Some
    &&& tag->0.spec_pointer()->0.spec_ptype() == ptype
    &&& tag->0.spec_pointer()->0.spec_object() == object
}

impl<'a, C, O> FunctionContext<'a, C, O> {
    /// The tag on argument `i`, where there is one.
    pub open spec fn spec_arg_tag(&self, i: int) -> Option<ValueTag<O>> {
        if 0 <= i < self.arg_tags@.len() {
            match self.arg_tags@[i] {
                Some(tag) => Some(*tag),
                None => None,
            }
        } else {
            None
        }
    }

    /// The subtype of argument `i`: its tag's, or else the one text carries inside itself.
    pub open spec fn spec_arg_subtype(&self, i: int) -> u8 {
        match self.spec_arg_tag(i) {
            Some(tag) => tag.spec_subtype(),
            None => if 0 <= i < self.args@.len() {
                self.args@[i]@.inline_subtype()
            } else {
                0
            },
        }
    }

    /// The object behind argument `i`, for a function that asks for the type name `ptype`.
    pub open spec fn spec_arg_pointer(&self, i: int, ptype: Seq<char>) -> Option<O> {
        match self.spec_arg_tag(i) {
            Some(tag) => match tag.spec_pointer() {
                Some(p) => if p.spec_ptype() == ptype {
                    Some(p.spec_object())
                } else {
                    None
                },
                None => None,
            },
            None => None,
        }
    }

    /// The same call, but for the tag on the result and the auxiliary data.
    pub open spec fn same_call(&self, other: &Self) -> bool {
        &&& self.connection == other.connection
        &&& self.args@ == other.args@
        &&& self.arg_tags@ == other.arg_tags@
    }

    pub fn new(connection: &'a C) -> (r: Self)
        ensures
            *r.connection == *connection,
            r.args@.len() == 0,
            r.arg_tags@.len() == 0,
            r.aux is None,
            r.result_tag is None,
    {
        FunctionContext { connection, args: &[], arg_tags: &[], aux: None, result_tag: None }
    }

    /// Moves the call out, for as long as someone else has it; a call of the same connection with
    /// nothing in it stands in.
    pub(crate) fn hand_over(&mut self) -> (r: Self)
        ensures
            r == *old(self),
    {
        let mut handed = FunctionContext::new(self.connection);
        std::mem::swap(&mut handed, self);
        handed
    }

    pub fn with_args(self, args: &'a [ValueRef<'a>]) -> (r: Self)
        ensures
            r.args@ == args@,
            r.connection == self.connection,
            r.arg_tags@ == self.arg_tags@,
            r.aux == self.aux,
            r.result_tag == self.result_tag,
    {
        FunctionContext {
            connection: self.connection,
            args,
            arg_tags: self.arg_tags,
            aux: self.aux,
            result_tag: self.result_tag,
        }
    }

    pub fn with_arg_tags(self, tags: &'a [Option<&'a ValueTag<O>>]) -> (r: Self)
        ensures
            r.arg_tags@ == tags@,
            r.connection == self.connection,
            r.args@ == self.args@,
            r.aux == self.aux,
            r.result_tag == self.result_tag,
    {
        FunctionContext {
            connection: self.connection,
            args: self.args,
            arg_tags: tags,
            aux: self.aux,
            result_tag: self.result_tag,
        }
    }

    pub fn with_auxdata(self, store: &'a mut AuxDataStore<O>, pc: u32) -> (r: Self)
        ensures
            r.aux is Some,
            r.aux->0.pc == pc,
            *r.aux->0.store == *old(store),
            *final(r.aux->0.store) == *final(store),
            r.same_call(&self),
            r.result_tag == self.result_tag,
    {
        FunctionContext {
            connection: self.connection,
            args: self.args,
            arg_tags: self.arg_tags,
            aux: Some(AuxDataSlot { store, pc }),
            result_tag: self.result_tag,
        }
    }

    /// Hands over the tag the function left on its result.
    pub fn take_result_tag(&mut self) -> (r: Option<ValueTag<O>>)
        ensures
            r == old(self).result_tag,
            final(self).result_tag is None,
            final(self).same_call(old(self)),
            final(self).aux == old(self).aux,
    {
        self.result_tag.take()
    }

    pub fn connection(&self) -> (r: &C)
        ensures
            *r == *self.connection,
    {
        self.connection
    }

    /// The subtype of argument `i`: 0 unless a function tagged the argument or it is text carrying
    /// a subtype inside itself.
    pub fn arg_subtype(&self, i: usize) -> (r: u8)
        ensures
            r == self.spec_arg_subtype(i as int),
    {
        if i < self.arg_tags.len() {
            if let Some(tag) = self.arg_tags[i] {
                return tag.subtype();
            }
        }
        if i < self.args.len() {
            self.args[i].subtype()
        } else {
            0
        }
    }

    /// The tag on argument `i`.
    pub fn arg_tag(&self, i: usize) -> (r: Option<ValueTag<O>>)
        ensures
            r == self.spec_arg_tag(i as int),
    {
        if i < self.arg_tags.len() {
            match self.arg_tags[i] {
                Some(tag) => Some(tag.clone()),
                None => None,
            }
        } else {
            None
        }
    }

    /// The object behind argument `i`, for a function that knows its type name.
    pub fn arg_pointer(&self, i: usize, ptype: &str) -> (r: Option<Arc<O>>)
        ensures
            match r {
                Some(object) => self.spec_arg_pointer(i as int, ptype@) == Some(*object),
                None => self.spec_arg_pointer(i as int, ptype@) is None,
            },
    {
        if i < self.arg_tags.len() {
            if let Some(tag) = self.arg_tags[i] {
                if let Some(pointer) = tag.pointer() {
                    return pointer.get(ptype);
                }
            }
        }
        None
    }

    /// Tags the result with a subtype.
    pub fn set_result_subtype(&mut self, subtype: u8)
        ensures
            subtype_tag(final(self).result_tag, subtype),
            final(self).same_call(old(self)),
            final(self).aux == old(self).aux,
    {
        self.result_tag = Some(ValueTag::from_subtype(subtype));
    }

    /// Makes the result a NULL that carries `object`; the value the function returns is discarded.
    pub fn set_result_pointer(&mut self, object: Arc<O>, ptype: String)
        ensures
            pointer_tag(final(self).result_tag, *object, ptype@),
            final(self).same_call(old(self)),
            final(self).aux == old(self).aux,
    {
        self.result_tag = Some(ValueTag::from_pointer(Arc::new(PointerValue::new(object, ptype))));
    }

    /// What this call site stored for argument `i`.
    pub fn get_auxdata(&self, i: usize) -> (r: Option<&O>)
        ensures
            match self.aux {
                Some(slot) => match r {
                    Some(data) => slot.store@.contains_key((slot.pc, i as u32)) && *data
                        == slot.store@[(slot.pc, i as u32)],
                    None => !slot.store@.contains_key((slot.pc, i as u32)),
                },
                None => r is None,
            },
    {
        match &self.aux {
            Some(slot) => slot.store.get(slot.pc, #[verifier::truncate] (i as u32)),
            None => None,
        }
    }

    /// Stores data for argument `i` of this call site; outside a scalar call it is discarded.
    pub fn set_auxdata(&mut self, i: usize, data: O)
        ensures
            match old(self).aux {
                Some(slot) => {
                    &&& final(self).aux is Some
                    &&& final(self).aux->0.pc == slot.pc
                    &&& final(self).aux->0.store@ == slot.store@.insert((slot.pc, i as u32), data)
                    &&& slot.store.unique() ==> final(self).aux->0.store.unique()
                    &&& *final(final(self).aux->0.store) == *final(slot.store)
                },
                None => final(self).aux is None,
            },
            final(self).same_call(old(self)),
            final(self).result_tag == old(self).result_tag,
    {
        if let Some(slot) = self.aux.as_mut() {
            slot.store.set(slot.pc, #[verifier::truncate] (i as u32), data);
        }
    }

    /// An error that fails the statement with a message.
    pub fn error(&self, message: String) -> (r: LimboError)
        ensures
            r == (LimboError::UserFunction { code: SQLITE_ERROR, message }),
    {
        self.error_code(SQLITE_ERROR, message)
    }

    /// An error with a result code of the function's own choice.
    pub fn error_code(&self, code: i32, message: String) -> (r: LimboError)
        ensures
            r == (LimboError::UserFunction { code, message }),
    {
        LimboError::UserFunction { code, message }
    }

    pub fn error_toobig(&self) -> (r: LimboError)
        ensures
            r@ == (crate::error::ErrorView::UserFunction {
                code: SQLITE_TOOBIG,
                message: "string or blob too big"@,
            }),
    {
        self.error_code(SQLITE_TOOBIG, "string or blob too big".to_owned())
    }

    pub fn error_nomem(&self) -> (r: LimboError)
        ensures
            r@ == (crate::error::ErrorView::UserFunction {
                code: SQLITE_NOMEM,
                message: "out of memory"@,
            }),
    {
        self.error_code(SQLITE_NOMEM, "out of memory".to_owned())
    }
}

/// The object one function attaches to its result is what the next one gets for that argument, if it
/// asks for the same type name; asking for another name gets nothing, and the argument has the
/// subtype of pointers.
pub proof fn law_a_pointer_reaches_the_next_function<'a, C, O>(
    tag: Option<ValueTag<O>>,
    object: O,
    ptype: Seq<char>,
    next: FunctionContext<'a, C, O>,
    i: int,
    asked: Seq<char>,
)
    requires
        pointer_tag(tag, object, ptype),
        next.spec_arg_tag(i) == tag,
    ensures
        next.spec_arg_pointer(i, asked) == (if asked == ptype {
            Some(object)
        } else {
            None
        }),
        next.spec_arg_subtype(i) == crate::tag::POINTER_SUBTYPE,
{
}

/// The subtype one function attaches to its result is what the next one reads on that argument,
/// whatever the value is, and there is no object behind it.
pub proof fn law_a_subtype_reaches_the_next_function<'a, C, O>(
    tag: Option<ValueTag<O>>,
    subtype: u8,
    next: FunctionContext<'a, C, O>,
    i: int,
    asked: Seq<char>,
)
    requires
        subtype_tag(tag, subtype),
        next.spec_arg_tag(i) == tag,
    ensures
        next.spec_arg_subtype(i) == subtype,
        next.spec_arg_pointer(i, asked) is None,
{
}

/// An argument nobody tagged has no object behind it, and no subtype but the one text carries inside
/// itself.
pub proof fn law_an_untagged_argument_is_only_its_value<'a, C, O>(
    ctx: FunctionContext<'a, C, O>,
    i: int,
    asked: Seq<char>,
)
    requires
        0 <= i < ctx.args@.len(),
        ctx.spec_arg_tag(i) is None,
    ensures
        ctx.spec_arg_pointer(i, asked) is None,
        ctx.spec_arg_subtype(i) == ctx.args@[i]@.inline_subtype(),
{
}

}
