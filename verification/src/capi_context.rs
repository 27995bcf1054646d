//! One call of a C callback: where it reads its arguments and leaves its result.

use std::sync::Arc;
use vstd::prelude::*;

use crate::capi_value::sqlite3_value;
use crate::context::FunctionContext;
use crate::context::{SQLITE_ERROR, SQLITE_NOMEM, SQLITE_TOOBIG};
use crate::error::Result;
use crate::text::join3;
use crate::utf16::{decode_utf16, from_utf8_lossy};
use crate::value::Value;

verus! {

pub const SQLITE_OK: i32 = 0;

pub const SQLITE_BUSY: i32 = 5;

pub const SQLITE_MISUSE: i32 = 21;

/// The longest text or blob; anything longer fails with SQLITE_TOOBIG.
pub const MAX_LENGTH: u64 = 1_000_000_000;

/// A raw pointer that travels beside a value. Dropping it drops the destructor, which runs it.
pub struct CPointer<D> {
    pub ptr: usize,
    pub destroy: Option<D>,
    /// False for a pointer that was given no type name, which nobody can unwrap.
    pub typed: bool,
}

/// A raw pointer a function keeps between calls. Dropping it drops the destructor, which runs it.
pub struct CAuxData<D> {
    pub ptr: usize,
    pub destroy: Option<D>,
}

/// What C functions keep or pass on.
pub enum CObject<D> {
    Pointer(CPointer<D>),
    Aux(CAuxData<D>),
}

/// The context of the engine a C callback runs in. A connection is known by the address of its
/// handle.
pub type CoreContext<'a, D> = FunctionContext<'a, usize, CObject<D>>;

/// The zero-filled buffer an aggregate accumulates in. It is made of words so that it is aligned to
/// eight bytes.
pub struct AggBuffer {
    /// None until the first call that asks for bytes.
    words: Option<Vec<u64>>,
    len: usize,
}

/// How many words hold `n` bytes.
pub open spec fn words_for(n: int) -> int {
    (n + 7) / 8
}

impl AggBuffer {
    pub closed spec fn spec_words(&self) -> Option<Seq<u64>> {
        match self.words {
            Some(words) => Some(words@),
            None => None,
        }
    }

    /// How many bytes the first call asked for.
    pub closed spec fn spec_len(&self) -> usize {
        self.len
    }

    /// The buffer of a group that has not asked for bytes.
    pub closed spec fn empty() -> AggBuffer {
        AggBuffer { words: None, len: 0 }
    }

    pub fn new() -> (r: Self)
        ensures
            r == AggBuffer::empty(),
            r.spec_words() is None,
            r.spec_len() == 0,
    {
        AggBuffer { words: None, len: 0 }
    }

    /// The buffer. The first call that asks for bytes fixes the size, later calls get that same
    /// buffer, and a call that asks for nothing before there is one gets none.
    pub fn get(&mut self, n_bytes: i32) -> (r: Option<&mut Vec<u64>>)
        ensures
            match (old(self).spec_words(), r) {
                (Some(words), Some(w)) => {
                    &&& w@ == words
                    &&& final(self).spec_words() == Some(final(w)@)
                    &&& final(self).spec_len() == old(self).spec_len()
                },
                (None, Some(w)) => {
                    &&& n_bytes > 0
                    &&& w@ == Seq::new(words_for(n_bytes as int) as nat, |i: int| 0u64)
                    &&& final(self).spec_words() == Some(final(w)@)
                    &&& final(self).spec_len() == n_bytes
                },
                (None, None) => n_bytes <= 0 && *final(self) == *old(self),
                (Some(_), None) => false,
            },
    {
        if self.words.is_none() {
            if n_bytes <= 0 {
                return None;
            }
            let len: usize = n_bytes as usize;
            let count: usize = len / 8 + (if len % 8 == 0 {
                0
            } else {
                1
            });
            let mut words: Vec<u64> = Vec::new();
            let mut i: usize = 0;
            while i < count
                invariant
                    i <= count,
                    words@ == Seq::new(i as nat, |j: int| 0u64),
                decreases count - i,
            {
                words.push(0);
                i += 1;
                assert(words@ =~= Seq::new(i as nat, |j: int| 0u64));
            }
            self.words = Some(words);
            self.len = len;
        }
        match &mut self.words {
            Some(words) => Some(words),
            None => None,
        }
    }
}

/// The call a C callback is running inside.
#[allow(non_camel_case_types)]
pub struct sqlite3_context<D> {
    db: usize,
    p_app: usize,
    result: sqlite3_value,
    /// Cleared by every result setter, so a value set afterwards wins.
    result_subtype: u8,
    /// Cleared by every result setter.
    result_pointer: Option<(Arc<CObject<D>>, String)>,
    /// Once set this wins over the result; nothing clears it.
    error: Option<(i32, String)>,
    /// The accumulator, for a callback of an aggregate.
    agg: Option<AggBuffer>,
}

/// Where a callback stands with its result.
pub struct Outcome<D> {
    pub value: crate::value::ValueView,
    pub subtype: u8,
    pub pointer: Option<(CObject<D>, Seq<char>)>,
    pub error: Option<(i32, Seq<char>)>,
}

impl<D> Outcome<D> {
    /// With another value in place of the result, which takes the subtype and the pointer with it.
    pub open spec fn with_value(self, value: crate::value::ValueView) -> Outcome<D> {
        Outcome { value, subtype: 0, pointer: None, error: self.error }
    }

    pub open spec fn with_error(self, code: i32, message: Seq<char>) -> Outcome<D> {
        Outcome { error: Some((code, message)), ..self }
    }

    /// With text of these bytes as the result, or the error of text that is too long.
    pub open spec fn with_text(self, bytes: Seq<u8>) -> Outcome<D> {
        if bytes.len() > MAX_LENGTH {
            self.with_error(SQLITE_TOOBIG, "string or blob too big"@)
        } else {
            self.with_value(
                crate::value::ValueView::Text {
                    value: crate::utf16::text_of(bytes),
                    subtype: 0,
                },
            )
        }
    }

    /// With a blob of these bytes as the result, or the error of a blob that is too long.
    pub open spec fn with_blob(self, bytes: Seq<u8>) -> Outcome<D> {
        if bytes.len() > MAX_LENGTH {
            self.with_error(SQLITE_TOOBIG, "string or blob too big"@)
        } else {
            self.with_value(crate::value::ValueView::Blob(bytes))
        }
    }

    /// With the text that UTF-16 bytes stand for as the result, or the error of text that is too
    /// long once it is UTF-8.
    pub open spec fn with_text16(self, bytes: Seq<u8>, big_endian: bool) -> Outcome<D> {
        let value = crate::utf16::decode_lossy(crate::utf16::byte_units(bytes, big_endian));
        if vstd::utf8::encode_utf8(value).len() > MAX_LENGTH {
            self.with_error(SQLITE_TOOBIG, "string or blob too big"@)
        } else {
            self.with_value(crate::value::ValueView::Text { value, subtype: 0 })
        }
    }
}

/// What the engine gets of a call that ended with this outcome: an error before anything else, then
/// a pointer, whose value is NULL, and then the value with its subtype. A subtype of 0 is none.
pub open spec fn finished<D>(
    outcome: Outcome<D>,
    before: CoreContext<'_, D>,
    after: CoreContext<'_, D>,
    r: Result<Value>,
) -> bool {
    &&& after.same_call(&before)
    &&& after.aux == before.aux
    &&& match outcome.error {
        Some((code, message)) => {
            &&& r is Err
            &&& r->Err_0@ == (crate::error::ErrorView::UserFunction { code, message })
            &&& after.result_tag == before.result_tag
        },
        None => {
            &&& r is Ok
            &&& match outcome.pointer {
                Some((object, ptype)) => {
                    &&& r->Ok_0@ == crate::value::ValueView::Null
                    &&& after.result_tag is Some
                    &&& after.result_tag->0.spec_pointer() is Some
                    &&& after.result_tag->0.spec_pointer()->0.spec_object() == object
                    &&& after.result_tag->0.spec_pointer()->0.spec_ptype() == ptype
                },
                None => {
                    &&& r->Ok_0@ == outcome.value
                    &&& outcome.subtype == 0 ==> after.result_tag == before.result_tag
                    &&& outcome.subtype != 0 ==> {
                        &&& after.result_tag is Some
                        &&& after.result_tag->0.spec_subtype() == outcome.subtype
                        &&& after.result_tag->0.spec_pointer() is None
                    }
                },
            }
        },
    }
}

impl<D> sqlite3_context<D> {
    pub closed spec fn spec_db(&self) -> usize {
        self.db
    }

    pub closed spec fn spec_app(&self) -> usize {
        self.p_app
    }

    pub closed spec fn spec_agg(&self) -> Option<AggBuffer> {
        self.agg
    }

    /// The result so far.
    pub closed spec fn outcome(&self) -> Outcome<D> {
        Outcome {
            value: self.result.spec_value(),
            subtype: self.result_subtype,
            pointer: match self.result_pointer {
                Some((object, ptype)) => Some((*object, ptype@)),
                None => None,
            },
            error: match self.error {
                Some((code, message)) => Some((code, message@)),
                None => None,
            },
        }
    }

    /// The same call, but for its result.
    pub open spec fn same_call(&self, other: &sqlite3_context<D>) -> bool {
        &&& self.spec_db() == other.spec_db()
        &&& self.spec_app() == other.spec_app()
        &&& self.spec_agg() == other.spec_agg()
    }

    /// A call that has set nothing yet, so its result is NULL.
    pub fn new(db: usize, p_app: usize, agg: Option<AggBuffer>) -> (r: Self)
        ensures
            r.spec_db() == db,
            r.spec_app() == p_app,
            r.spec_agg() == agg,
            r.outcome() == (Outcome::<D> {
                value: crate::value::ValueView::Null,
                subtype: 0,
                pointer: None,
                error: None,
            }),
    {
        sqlite3_context {
            db,
            p_app,
            result: sqlite3_value::new(Value::Null),
            result_subtype: 0,
            result_pointer: None,
            error: None,
            agg,
        }
    }

    /// Sets the result, and drops any subtype or pointer set earlier: those come after their value.
    pub fn set_result(&mut self, value: Value)
        ensures
            final(self).outcome() == old(self).outcome().with_value(value@),
            final(self).same_call(old(self)),
    {
        self.result.set(value);
        self.result_subtype = 0;
        self.result_pointer = None;
    }

    pub fn set_error(&mut self, code: i32, message: String)
        ensures
            final(self).outcome() == old(self).outcome().with_error(code, message@),
            final(self).same_call(old(self)),
    {
        self.error = Some((code, message));
    }

    pub fn set_error_toobig(&mut self)
        ensures
            final(self).outcome() == old(self).outcome().with_error(
                SQLITE_TOOBIG,
                "string or blob too big"@,
            ),
            final(self).same_call(old(self)),
    {
        self.set_error(SQLITE_TOOBIG, "string or blob too big".to_owned());
    }

    /// Hands the outcome of the call to the engine: an error before anything else, then a pointer,
    /// whose value is NULL, and then the value with its subtype.
    pub fn finish(self, core: &mut CoreContext<'_, D>) -> (r: Result<Value>)
        ensures
            finished(self.outcome(), *old(core), *final(core), r),
    {
        if let Some((code, message)) = self.error {
            return Err(core.error_code(code, message));
        }
        if let Some((pointer, ptype)) = self.result_pointer {
            core.set_result_pointer(pointer, ptype);
            return Ok(Value::Null);
        }
        if self.result_subtype != 0 {
            core.set_result_subtype(self.result_subtype);
        }
        Ok(self.result.into_value())
    }

    /// Takes the accumulator back once the callback has returned.
    pub(crate) fn take_agg(&mut self) -> (r: Option<AggBuffer>)
        ensures
            r == old(self).spec_agg(),
            final(self).spec_agg() is None,
            final(self).spec_db() == old(self).spec_db(),
            final(self).spec_app() == old(self).spec_app(),
            final(self).outcome() == old(self).outcome(),
    {
        self.agg.take()
    }
}

/// What a C function was registered with; 0 for no call at all.
pub fn sqlite3_user_data<D>(ctx: Option<&sqlite3_context<D>>) -> (r: usize)
    ensures
        r == (match ctx {
            Some(c) => c.spec_app(),
            None => 0,
        }),
{
    match ctx {
        Some(c) => c.p_app,
        None => 0,
    }
}

/// The handle the call runs on; 0 for no call at all.
pub fn sqlite3_context_db_handle<D>(ctx: Option<&sqlite3_context<D>>) -> (r: usize)
    ensures
        r == (match ctx {
            Some(c) => c.spec_db(),
            None => 0,
        }),
{
    match ctx {
        Some(c) => c.db,
        None => 0,
    }
}

/// The accumulator of the aggregate whose callback is running; none outside one.
pub fn sqlite3_aggregate_context<'a, D>(ctx: Option<&'a mut sqlite3_context<D>>, n_bytes: i32) -> (r:
    Option<&'a mut Vec<u64>>)
    ensures
        match ctx {
            Some(c) => {
                &&& final(c).outcome() == c.outcome()
                &&& final(c).spec_db() == c.spec_db()
                &&& final(c).spec_app() == c.spec_app()
                &&& match c.spec_agg() {
                    Some(agg) => {
                        &&& final(c).spec_agg() is Some
                        &&& match (agg.spec_words(), r) {
                            (Some(words), Some(w)) => {
                                &&& w@ == words
                                &&& final(c).spec_agg()->0.spec_words() == Some(final(w)@)
                                &&& final(c).spec_agg()->0.spec_len() == agg.spec_len()
                            },
                            (None, Some(w)) => {
                                &&& n_bytes > 0
                                &&& w@ == Seq::new(words_for(n_bytes as int) as nat, |i: int| 0u64)
                                &&& final(c).spec_agg()->0.spec_words() == Some(final(w)@)
                                &&& final(c).spec_agg()->0.spec_len() == n_bytes
                            },
                            (None, None) => n_bytes <= 0 && final(c).spec_agg() == c.spec_agg(),
                            (Some(_), None) => false,
                        }
                    },
                    None => r is None && final(c).spec_agg() is None,
                }
            },
            None => r is None,
        },
{
    match ctx {
        Some(c) => match &mut c.agg {
            Some(agg) => agg.get(n_bytes),
            None => None,
        },
        None => None,
    }
}

/// The pointer this call site keeps for argument `arg`; 0 where it keeps none.
pub fn sqlite3_get_auxdata<D>(core: Option<&CoreContext<'_, D>>, arg: i32) -> (r: usize)
    ensures
        r == (match core {
            Some(c) => kept_pointer(c, arg),
            None => 0,
        }),
{
    if arg < 0 {
        return 0;
    }
    match core {
        Some(c) => match c.get_auxdata(arg as usize) {
            Some(CObject::Aux(aux)) => aux.ptr,
            _ => 0,
        },
        None => 0,
    }
}

/// The pointer a call site keeps for argument `arg`.
pub open spec fn kept_pointer<D>(core: &CoreContext<'_, D>, arg: i32) -> usize {
    match core.aux {
        Some(slot) => if arg >= 0 && slot.store@.contains_key((slot.pc, arg as u32)) {
            match slot.store@[(slot.pc, arg as u32)] {
                CObject::Aux(aux) => aux.ptr,
                CObject::Pointer(_) => 0,
            }
        } else {
            0
        },
        None => 0,
    }
}

/// Keeps a pointer for argument `arg` of this call site. Where there is nowhere to keep it, its
/// destructor is dropped at once.
pub fn sqlite3_set_auxdata<D>(
    core: Option<&mut CoreContext<'_, D>>,
    arg: i32,
    data: usize,
    destroy: Option<D>,
)
    ensures
        match core {
            Some(c) => {
                &&& final(c).same_call(c)
                &&& final(c).result_tag == c.result_tag
                &&& match c.aux {
                    Some(slot) => {
                        &&& final(c).aux is Some
                        &&& final(c).aux->0.pc == slot.pc
                        &&& *final(final(c).aux->0.store) == *final(slot.store)
                        &&& final(c).aux->0.store@ == (if arg >= 0 {
                            slot.store@.insert(
                                (slot.pc, arg as u32),
                                CObject::Aux(CAuxData { ptr: data, destroy }),
                            )
                        } else {
                            slot.store@
                        })
                    },
                    None => final(c).aux is None,
                }
            },
            None => true,
        },
{
    if arg >= 0 {
        if let Some(c) = core {
            c.set_auxdata(arg as usize, CObject::Aux(CAuxData { ptr: data, destroy }));
        }
    }
}

/// Whether a destructor argument is a function to call. 0 says the data is static and all ones that
/// it must be copied; it is copied either way.
pub open spec fn is_callable(destructor: usize) -> bool {
    destructor != 0 && destructor != usize::MAX
}

fn callable(destructor: usize) -> (r: bool)
    ensures
        r == is_callable(destructor),
{
    destructor != 0 && destructor != usize::MAX
}

/// Sets the result to NULL.
pub fn sqlite3_result_null<D>(ctx: Option<&mut sqlite3_context<D>>)
    ensures
        ctx matches Some(c) ==> final(c).same_call(c) && final(c).outcome()
            == c.outcome().with_value(crate::value::ValueView::Null),
{
    if let Some(c) = ctx {
        c.set_result(Value::Null);
    }
}

/// Sets the result to a 64-bit integer.
pub fn sqlite3_result_int64<D>(ctx: Option<&mut sqlite3_context<D>>, val: i64)
    ensures
        ctx matches Some(c) ==> final(c).same_call(c) && final(c).outcome()
            == c.outcome().with_value(crate::value::ValueView::Integer(val)),
{
    if let Some(c) = ctx {
        c.set_result(Value::from_i64(val));
    }
}

/// Sets the result to an integer.
pub fn sqlite3_result_int<D>(ctx: Option<&mut sqlite3_context<D>>, val: i32)
    ensures
        ctx matches Some(c) ==> final(c).same_call(c) && final(c).outcome()
            == c.outcome().with_value(crate::value::ValueView::Integer(val as i64)),
{
    sqlite3_result_int64(ctx, val as i64);
}

/// Sets the result to a floating-point number.
pub fn sqlite3_result_double<D>(ctx: Option<&mut sqlite3_context<D>>, val: crate::value::Real)
    ensures
        ctx matches Some(c) ==> final(c).same_call(c) && final(c).outcome()
            == c.outcome().with_value(
            crate::value::ValueView::Real { bits: val.bits, text: val.text@ },
        ),
{
    if let Some(c) = ctx {
        c.set_result(Value::Numeric(crate::value::Numeric::Float(val)));
    }
}

/// Sets the result to text; bytes that are not UTF-8 are replaced.
fn set_text_result<D>(ctx: &mut sqlite3_context<D>, bytes: &[u8])
    ensures
        final(ctx).same_call(old(ctx)),
        final(ctx).outcome() == old(ctx).outcome().with_text(bytes@),
{
    if bytes.len() as u64 > MAX_LENGTH {
        ctx.set_error_toobig();
        return;
    }
    ctx.set_result(Value::build_text(from_utf8_lossy(bytes)));
}

fn set_blob_result<D>(ctx: &mut sqlite3_context<D>, bytes: &[u8])
    ensures
        final(ctx).same_call(old(ctx)),
        final(ctx).outcome() == old(ctx).outcome().with_blob(bytes@),
{
    if bytes.len() as u64 > MAX_LENGTH {
        ctx.set_error_toobig();
        return;
    }
    ctx.set_result(Value::from_slice(bytes));
}

fn set_text_result_utf16<D>(ctx: &mut sqlite3_context<D>, bytes: &[u8], big_endian: bool)
    ensures
        final(ctx).same_call(old(ctx)),
        final(ctx).outcome() == old(ctx).outcome().with_text16(bytes@, big_endian),
{
    broadcast use {vstd::utf8::encode_utf8_valid_utf8, vstd::utf8::encode_utf8_decode_utf8};

    let text = decode_utf16(bytes, big_endian);
    let utf8 = text.as_str().as_bytes();
    assert(vstd::utf8::valid_utf8(utf8@));
    assert(vstd::utf8::decode_utf8(utf8@) == text@);
    set_text_result(ctx, utf8);
}

/// Sets the result to text, or to NULL where there is none. Says whether the destructor is due.
pub fn sqlite3_result_text<D>(
    ctx: Option<&mut sqlite3_context<D>>,
    text: Option<&[u8]>,
    destructor: usize,
) -> (due: bool)
    ensures
        due == (ctx is Some && text is Some && is_callable(destructor)),
        ctx matches Some(c) ==> final(c).same_call(c) && final(c).outcome() == (match text {
            Some(bytes) => c.outcome().with_text(bytes@),
            None => c.outcome().with_value(crate::value::ValueView::Null),
        }),
{
    match ctx {
        None => false,
        Some(c) => match text {
            None => {
                c.set_result(Value::Null);
                false
            },
            Some(bytes) => {
                set_text_result(c, bytes);
                callable(destructor)
            },
        },
    }
}

/// How many bytes of a UTF-16 argument to read: those of `n` code units, or none where `n` is negative
/// and the argument goes on to its NUL code unit.
pub fn text16_arg_len(n: i32) -> (r: Option<usize>)
    ensures
        match r {
            Some(len) => n >= 0 && len == 2 * n,
            None => n < 0,
        },
{
    if n < 0 {
        None
    } else {
        Some(n as usize * 2)
    }
}

/// Which byte order an encoding code stands for; none for text that is not UTF-16.
pub open spec fn utf16_order(encoding: u8, host_big_endian: bool) -> Option<bool> {
    if encoding == crate::capi_value::SQLITE_UTF16LE {
        Some(false)
    } else if encoding == crate::capi_value::SQLITE_UTF16BE {
        Some(true)
    } else if encoding == crate::capi_value::SQLITE_UTF16 {
        Some(host_big_endian)
    } else {
        None
    }
}

/// Sets the result to text of `n` bytes in the given encoding. The bytes of text over the limit are
/// never looked at, so `text` need hold none then. Says whether the destructor is due.
pub fn sqlite3_result_text64<D>(
    ctx: Option<&mut sqlite3_context<D>>,
    text: Option<&[u8]>,
    n: u64,
    destructor: usize,
    encoding: u8,
    host_big_endian: bool,
) -> (due: bool)
    requires
        text is Some && n <= MAX_LENGTH ==> text->0@.len() == n,
    ensures
        due == (ctx is Some && text is Some && is_callable(destructor)),
        ctx matches Some(c) ==> final(c).same_call(c) && final(c).outcome() == (match text {
            Some(bytes) => if n > MAX_LENGTH {
                c.outcome().with_error(SQLITE_TOOBIG, "string or blob too big"@)
            } else {
                match utf16_order(encoding, host_big_endian) {
                    Some(big_endian) => c.outcome().with_text16(bytes@, big_endian),
                    None => c.outcome().with_text(bytes@),
                }
            },
            None => c.outcome().with_value(crate::value::ValueView::Null),
        }),
{
    match ctx {
        None => false,
        Some(c) => match text {
            None => {
                c.set_result(Value::Null);
                false
            },
            Some(bytes) => {
                if n > MAX_LENGTH {
                    c.set_error_toobig();
                    return callable(destructor);
                }
                let code: i32 = encoding as i32;
                if code == crate::capi_value::SQLITE_UTF16LE {
                    set_text_result_utf16(c, bytes, false);
                } else if code == crate::capi_value::SQLITE_UTF16BE {
                    set_text_result_utf16(c, bytes, true);
                } else if code == crate::capi_value::SQLITE_UTF16 {
                    set_text_result_utf16(c, bytes, host_big_endian);
                } else {
                    set_text_result(c, bytes);
                }
                callable(destructor)
            },
        },
    }
}

/// Sets the result to UTF-16 text in the given byte order. Says whether the destructor is due.
pub fn sqlite3_result_text16<D>(
    ctx: Option<&mut sqlite3_context<D>>,
    text: Option<&[u8]>,
    destructor: usize,
    big_endian: bool,
) -> (due: bool)
    ensures
        due == (ctx is Some && text is Some && is_callable(destructor)),
        ctx matches Some(c) ==> final(c).same_call(c) && final(c).outcome() == (match text {
            Some(bytes) => c.outcome().with_text16(bytes@, big_endian),
            None => c.outcome().with_value(crate::value::ValueView::Null),
        }),
{
    match ctx {
        None => false,
        Some(c) => match text {
            None => {
                c.set_result(Value::Null);
                false
            },
            Some(bytes) => {
                set_text_result_utf16(c, bytes, big_endian);
                callable(destructor)
            },
        },
    }
}

/// Sets the result to little-endian UTF-16 text.
pub fn sqlite3_result_text16le<D>(
    ctx: Option<&mut sqlite3_context<D>>,
    text: Option<&[u8]>,
    destructor: usize,
) -> (due: bool)
    ensures
        due == (ctx is Some && text is Some && is_callable(destructor)),
        ctx matches Some(c) ==> final(c).same_call(c) && final(c).outcome() == (match text {
            Some(bytes) => c.outcome().with_text16(bytes@, false),
            None => c.outcome().with_value(crate::value::ValueView::Null),
        }),
{
    sqlite3_result_text16(ctx, text, destructor, false)
}

/// Sets the result to big-endian UTF-16 text.
pub fn sqlite3_result_text16be<D>(
    ctx: Option<&mut sqlite3_context<D>>,
    text: Option<&[u8]>,
    destructor: usize,
) -> (due: bool)
    ensures
        due == (ctx is Some && text is Some && is_callable(destructor)),
        ctx matches Some(c) ==> final(c).same_call(c) && final(c).outcome() == (match text {
            Some(bytes) => c.outcome().with_text16(bytes@, true),
            None => c.outcome().with_value(crate::value::ValueView::Null),
        }),
{
    sqlite3_result_text16(ctx, text, destructor, true)
}

/// Sets the result to a blob of `n` bytes, or to NULL where there is none or `n` is negative. Says
/// whether the destructor is due.
pub fn sqlite3_result_blob<D>(
    ctx: Option<&mut sqlite3_context<D>>,
    blob: Option<&[u8]>,
    n: i32,
    destructor: usize,
) -> (due: bool)
    requires
        blob is Some && n >= 0 ==> blob->0@.len() == n,
    ensures
        due == (ctx is Some && blob is Some && n >= 0 && is_callable(destructor)),
        ctx matches Some(c) ==> final(c).same_call(c) && final(c).outcome() == (match blob {
            Some(bytes) => if n >= 0 {
                c.outcome().with_blob(bytes@)
            } else {
                c.outcome().with_value(crate::value::ValueView::Null)
            },
            None => c.outcome().with_value(crate::value::ValueView::Null),
        }),
{
    match ctx {
        None => false,
        Some(c) => match blob {
            Some(bytes) => {
                if n < 0 {
                    c.set_result(Value::Null);
                    return false;
                }
                set_blob_result(c, bytes);
                callable(destructor)
            },
            None => {
                c.set_result(Value::Null);
                false
            },
        },
    }
}

/// Sets the result to a blob of `n` bytes. The bytes of a blob over the limit are never looked at,
/// so `blob` need hold none then. Says whether the destructor is due.
pub fn sqlite3_result_blob64<D>(
    ctx: Option<&mut sqlite3_context<D>>,
    blob: Option<&[u8]>,
    n: u64,
    destructor: usize,
) -> (due: bool)
    requires
        blob is Some && n <= MAX_LENGTH ==> blob->0@.len() == n,
    ensures
        due == (ctx is Some && blob is Some && is_callable(destructor)),
        ctx matches Some(c) ==> final(c).same_call(c) && final(c).outcome() == (match blob {
            Some(bytes) => if n > MAX_LENGTH {
                c.outcome().with_error(SQLITE_TOOBIG, "string or blob too big"@)
            } else {
                c.outcome().with_blob(bytes@)
            },
            None => c.outcome().with_value(crate::value::ValueView::Null),
        }),
{
    match ctx {
        None => false,
        Some(c) => match blob {
            None => {
                c.set_result(Value::Null);
                false
            },
            Some(bytes) => {
                if n > MAX_LENGTH {
                    c.set_error_toobig();
                } else {
                    set_blob_result(c, bytes);
                }
                callable(destructor)
            },
        },
    }
}

/// Sets the result to a blob of zeros; a negative length counts as none.
pub fn sqlite3_result_zeroblob<D>(ctx: Option<&mut sqlite3_context<D>>, n: i32)
    ensures
        ctx matches Some(c) ==> final(c).same_call(c) && final(c).outcome() == (if n
            > MAX_LENGTH {
            c.outcome().with_error(SQLITE_TOOBIG, "string or blob too big"@)
        } else {
            c.outcome().with_blob(zeros(if n > 0 {
                n as nat
            } else {
                0
            }))
        }),
{
    let _ = sqlite3_result_zeroblob64(ctx, if n > 0 {
        n as u64
    } else {
        0
    });
}

/// `n` zero bytes.
pub open spec fn zeros(n: nat) -> Seq<u8> {
    Seq::new(n, |i: int| 0u8)
}

/// Sets the result to a blob of zeros, and says how that went.
pub fn sqlite3_result_zeroblob64<D>(ctx: Option<&mut sqlite3_context<D>>, n: u64) -> (r: i32)
    ensures
        r == (if ctx is None {
            SQLITE_MISUSE
        } else if n > MAX_LENGTH {
            SQLITE_TOOBIG
        } else {
            SQLITE_OK
        }),
        ctx matches Some(c) ==> final(c).same_call(c) && final(c).outcome() == (if n
            > MAX_LENGTH {
            c.outcome().with_error(SQLITE_TOOBIG, "string or blob too big"@)
        } else {
            c.outcome().with_blob(zeros(n as nat))
        }),
{
    match ctx {
        None => SQLITE_MISUSE,
        Some(c) => {
            if n > MAX_LENGTH {
                c.set_error_toobig();
                return SQLITE_TOOBIG;
            }
            let mut bytes: Vec<u8> = Vec::new();
            let mut i: u64 = 0;
            while i < n
                invariant
                    i <= n,
                    bytes@ == zeros(i as nat),
                decreases n - i,
            {
                bytes.push(0);
                i += 1;
                assert(bytes@ =~= zeros(i as nat));
            }
            set_blob_result(c, bytes.as_slice());
            SQLITE_OK
        },
    }
}

/// The pointer beside argument `index`, with its type name.
pub open spec fn arg_pointer_of<D>(core: &CoreContext<'_, D>, index: int) -> Option<
    (CObject<D>, Seq<char>),
> {
    match core.spec_arg_tag(index) {
        Some(tag) => match tag.spec_pointer() {
            Some(p) => if p.spec_object() is Pointer {
                Some((p.spec_object(), p.spec_ptype()))
            } else {
                None
            },
            None => None,
        },
        None => None,
    }
}

fn pointer_of_arg<D>(core: &CoreContext<'_, D>, index: usize) -> (r: Option<
    (Arc<CObject<D>>, String),
>)
    ensures
        match r {
            Some((object, ptype)) => arg_pointer_of(core, index as int) == Some((*object, ptype@)),
            None => arg_pointer_of(core, index as int) is None,
        },
{
    match core.arg_tag(index) {
        Some(tag) => match tag.pointer() {
            Some(pointer) => {
                let ptype: String = pointer.ptype().to_owned();
                match pointer.get(ptype.as_str()) {
                    Some(object) => {
                        let is_pointer: bool = matches!(*object, CObject::Pointer(_));
                        if is_pointer {
                            Some((object, ptype))
                        } else {
                            None
                        }
                    },
                    None => None,
                }
            },
            None => None,
        },
        None => None,
    }
}

/// Sets the result to a value. The subtype travels along, and so does the pointer beside an argument
/// of this call.
pub fn sqlite3_result_value<D>(
    ctx: Option<&mut sqlite3_context<D>>,
    core: &CoreContext<'_, D>,
    value: Option<&sqlite3_value>,
)
    ensures
        ctx matches Some(c) ==> final(c).same_call(c) && final(c).outcome() == (match value {
            Some(v) => Outcome {
                value: v.spec_value(),
                subtype: v.spec_subtype(),
                pointer: match v.spec_index() {
                    Some(index) => arg_pointer_of(core, index as int),
                    None => None,
                },
                error: c.outcome().error,
            },
            None => c.outcome().with_value(crate::value::ValueView::Null),
        }),
{
    if let Some(c) = ctx {
        match value {
            None => {
                c.set_result(Value::Null);
            },
            Some(v) => {
                c.set_result(v.value().clone());
                c.result_subtype = v.subtype();
                if let Some(index) = v.index() {
                    c.result_pointer = pointer_of_arg(core, index);
                }
            },
        }
    }
}

/// Puts a subtype on the result. A later result setter clears it, so it comes after its value.
pub fn sqlite3_result_subtype<D>(ctx: Option<&mut sqlite3_context<D>>, subtype: u32)
    ensures
        ctx matches Some(c) ==> final(c).same_call(c) && final(c).outcome() == (Outcome {
            subtype: (subtype % 256) as u8,
            ..c.outcome()
        }),
{
    if let Some(c) = ctx {
        c.result_subtype = (subtype % 256) as u8;
    }
}

/// The type name of a pointer; none becomes the empty name.
pub open spec fn pointer_type(ptype_name: Option<Seq<u8>>) -> Seq<char> {
    match ptype_name {
        Some(bytes) => crate::utf16::text_of(bytes),
        None => Seq::empty(),
    }
}

/// Sets the result to a NULL that only a function asking for this exact type name can unwrap. Where
/// there is no call to keep it the destructor is dropped at once.
pub fn sqlite3_result_pointer<D>(
    ctx: Option<&mut sqlite3_context<D>>,
    ptr: usize,
    ptype_name: Option<&[u8]>,
    destructor: Option<D>,
)
    ensures
        ctx matches Some(c) ==> final(c).same_call(c) && final(c).outcome() == (Outcome {
            value: crate::value::ValueView::Null,
            subtype: 0,
            pointer: Some(
                (
                    CObject::Pointer(
                        CPointer { ptr, destroy: destructor, typed: ptype_name is Some },
                    ),
                    pointer_type(match ptype_name {
                        Some(bytes) => Some(bytes@),
                        None => None,
                    }),
                ),
            ),
            error: c.outcome().error,
        }),
{
    if let Some(c) = ctx {
        c.set_result(Value::Null);
        let typed: bool = ptype_name.is_some();
        let ptype: String = match ptype_name {
            Some(bytes) => from_utf8_lossy(bytes),
            None => String::new(),
        };
        proof {
            if ptype_name is None {
                assert(ptype@ =~= Seq::<char>::empty());
            }
        }
        c.result_pointer = Some(
            (Arc::new(CObject::Pointer(CPointer { ptr, destroy: destructor, typed })), ptype),
        );
    }
}

/// The pointer an argument carries, where its type name is exactly the one asked for; 0 otherwise.
pub open spec fn unwrapped<D>(
    value: Option<&sqlite3_value>,
    core: &CoreContext<'_, D>,
    ptype_name: Option<Seq<u8>>,
) -> usize {
    match (value, ptype_name) {
        (Some(v), Some(name)) => match v.spec_index() {
            Some(index) => match core.spec_arg_pointer(
                index as int,
                crate::utf16::text_of(name),
            ) {
                Some(CObject::Pointer(p)) => if p.typed {
                    p.ptr
                } else {
                    0
                },
                _ => 0,
            },
            None => 0,
        },
        _ => 0,
    }
}

/// The pointer an argument carries, where its type name is exactly the one asked for; 0 otherwise. A
/// pointer that was given no type name matches nothing.
pub fn sqlite3_value_pointer<D>(
    value: Option<&sqlite3_value>,
    core: &CoreContext<'_, D>,
    ptype_name: Option<&[u8]>,
) -> (r: usize)
    ensures
        r == unwrapped(
            value,
            core,
            match ptype_name {
                Some(bytes) => Some(bytes@),
                None => None,
            },
        ),
{
    match (value, ptype_name) {
        (Some(v), Some(bytes)) => match v.index() {
            Some(index) => {
                let name = from_utf8_lossy(bytes);
                match core.arg_pointer(index, name.as_str()) {
                    Some(object) => match &*object {
                        CObject::Pointer(p) => if p.typed {
                            p.ptr
                        } else {
                            0
                        },
                        CObject::Aux(_) => 0,
                    },
                    None => 0,
                }
            },
            None => 0,
        },
        _ => 0,
    }
}

/// Fails the call with a message.
pub fn sqlite3_result_error<D>(ctx: Option<&mut sqlite3_context<D>>, err: Option<&[u8]>)
    ensures
        ctx matches Some(c) ==> final(c).same_call(c) && final(c).outcome()
            == c.outcome().with_error(
            SQLITE_ERROR,
            match err {
                Some(bytes) => crate::utf16::text_of(bytes@),
                None => Seq::empty(),
            },
        ),
{
    if let Some(c) = ctx {
        let message: String = match err {
            Some(bytes) => from_utf8_lossy(bytes),
            None => String::new(),
        };
        proof {
            if err is None {
                assert(message@ =~= Seq::<char>::empty());
            }
        }
        c.set_error(SQLITE_ERROR, message);
    }
}

/// Fails the call with a message in UTF-16.
pub fn sqlite3_result_error16<D>(
    ctx: Option<&mut sqlite3_context<D>>,
    err: Option<&[u8]>,
    host_big_endian: bool,
)
    ensures
        ctx matches Some(c) ==> final(c).same_call(c) && final(c).outcome()
            == c.outcome().with_error(
            SQLITE_ERROR,
            match err {
                Some(bytes) => crate::utf16::decode_lossy(
                    crate::utf16::byte_units(bytes@, host_big_endian),
                ),
                None => Seq::empty(),
            },
        ),
{
    if let Some(c) = ctx {
        let message: String = match err {
            Some(bytes) => decode_utf16(bytes, host_big_endian),
            None => String::new(),
        };
        proof {
            if err is None {
                assert(message@ =~= Seq::<char>::empty());
            }
        }
        c.set_error(SQLITE_ERROR, message);
    }
}

/// The message a failure code comes with: the one already set, or else the result as text, or else
/// the standard text of the code.
pub open spec fn error_message<D>(before: Outcome<D>, standard: Seq<char>) -> Seq<char> {
    match before.error {
        Some((_, message)) => message,
        None => match crate::capi_value::rendering(before.value) {
            Some(bytes) => crate::utf16::text_of(bytes),
            None => standard,
        },
    }
}

/// Changes the failure code, keeping any message already set. `standard` is the text that goes with
/// the code.
pub fn sqlite3_result_error_code<D>(
    ctx: Option<&mut sqlite3_context<D>>,
    code: i32,
    standard: &str,
)
    ensures
        ctx matches Some(c) ==> final(c).same_call(c) && final(c).outcome()
            == c.outcome().with_error(code, error_message(c.outcome(), standard@)),
{
    if let Some(c) = ctx {
        let earlier: Option<(i32, String)> = c.error.take();
        let message: String = match earlier {
            Some((_, message)) => message,
            None => match c.result.text_bytes() {
                Some(bytes) => {
                    let text = vstd::slice::slice_subrange(bytes, 0, bytes.len() - 1);
                    proof {
                        let plain = crate::capi_value::rendering(
                            old(ctx->0).outcome().value,
                        )->0;
                        assert(bytes@ == plain.push(0u8));
                        assert(text@ =~= plain);
                    }
                    from_utf8_lossy(text)
                },
                None => standard.to_owned(),
            },
        };
        c.set_error(code, message);
    }
}

/// Fails the call for want of memory.
pub fn sqlite3_result_error_nomem<D>(ctx: Option<&mut sqlite3_context<D>>)
    ensures
        ctx matches Some(c) ==> final(c).same_call(c) && final(c).outcome()
            == c.outcome().with_error(SQLITE_NOMEM, "out of memory"@),
{
    if let Some(c) = ctx {
        c.set_error(SQLITE_NOMEM, "out of memory".to_owned());
    }
}

/// Fails the call because a text or blob is too long.
pub fn sqlite3_result_error_toobig<D>(ctx: Option<&mut sqlite3_context<D>>)
    ensures
        ctx matches Some(c) ==> final(c).same_call(c) && final(c).outcome()
            == c.outcome().with_error(SQLITE_TOOBIG, "string or blob too big"@),
{
    if let Some(c) = ctx {
        c.set_error_toobig();
    }
}

/// The placeholder behind a function that was only overloaded: calling it is an error. `name` is
/// what it was registered with.
pub fn invalid_function<D>(ctx: &mut sqlite3_context<D>, name: Option<&[u8]>)
    ensures
        final(ctx).same_call(old(ctx)),
        final(ctx).outcome() == old(ctx).outcome().with_error(
            SQLITE_ERROR,
            "unable to use function "@ + (match name {
                Some(bytes) => crate::utf16::text_of(bytes@),
                None => Seq::empty(),
            }) + " in the requested context"@,
        ),
{
    let name: String = match name {
        Some(bytes) => from_utf8_lossy(bytes),
        None => String::new(),
    };
    let message = join3("unable to use function ", name.as_str(), " in the requested context");
    ctx.set_error(SQLITE_ERROR, message);
}

/// A result set later wins over one set before, with its subtype and its pointer.
pub proof fn law_a_later_result_wins<D>(
    before: Outcome<D>,
    first: crate::value::ValueView,
    second: crate::value::ValueView,
)
    ensures
        before.with_value(first).with_value(second) == before.with_value(second),
        before.with_value(second).subtype == 0,
        before.with_value(second).pointer is None,
{
}

/// An error stays whatever result is set afterwards, and only another error replaces it.
pub proof fn law_an_error_stays<D>(
    before: Outcome<D>,
    code: i32,
    message: Seq<char>,
    value: crate::value::ValueView,
    bytes: Seq<u8>,
)
    ensures
        before.with_error(code, message).with_value(value).error == Some((code, message)),
        bytes.len() <= MAX_LENGTH ==> before.with_error(code, message).with_text(bytes).error
            == Some((code, message)),
        bytes.len() <= MAX_LENGTH ==> before.with_error(code, message).with_blob(bytes).error
            == Some((code, message)),
{
}

/// Changing the failure code keeps the message of an error that was set before.
pub proof fn law_a_failure_code_keeps_the_message<D>(
    before: Outcome<D>,
    code: i32,
    message: Seq<char>,
    standard: Seq<char>,
)
    ensures
        error_message(before.with_error(code, message), standard) == message,
{
}

}
