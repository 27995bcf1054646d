//! Collating sequences: one comparison per text encoding under each name, and which one runs.

use vstd::prelude::*;

use crate::capi_context::{SQLITE_BUSY, SQLITE_MISUSE, SQLITE_OK};
use crate::capi_handle::{function_name, function_name16, holds_nul};
use crate::capi_value::{
    SQLITE_UTF16, SQLITE_UTF16BE, SQLITE_UTF16LE, SQLITE_UTF16_ALIGNED, SQLITE_UTF8,
};
use crate::error::LimboError;
use crate::table::NamedTable;
use crate::text::{chars_of, string_of};
use crate::utf16::{to_utf16, utf16_units};
use crate::value::copy_bytes;

verus! {

/// The encoding a comparison wants its text in.
#[derive(Clone, Copy, Debug, PartialEq, Eq, Structural)]
pub enum TextEncoding {
    Utf8,
    Utf16Le,
    Utf16Be,
}

/// The encoding an argument stands for. Only its low byte counts, and the spellings for whatever is
/// native become the native one.
pub open spec fn encoding_of(enc: i32, host_big_endian: bool) -> Option<TextEncoding> {
    let low = enc as u8;
    if low == SQLITE_UTF16 || low == SQLITE_UTF16_ALIGNED {
        Some(if host_big_endian {
            TextEncoding::Utf16Be
        } else {
            TextEncoding::Utf16Le
        })
    } else if low == SQLITE_UTF8 {
        Some(TextEncoding::Utf8)
    } else if low == SQLITE_UTF16LE {
        Some(TextEncoding::Utf16Le)
    } else if low == SQLITE_UTF16BE {
        Some(TextEncoding::Utf16Be)
    } else {
        None
    }
}

impl TextEncoding {
    /// The encoding an argument stands for.
    pub fn from_arg(enc: i32, host_big_endian: bool) -> (r: Option<Self>)
        ensures
            r == encoding_of(enc, host_big_endian),
    {
        let byte: u8 =
            #[verifier::truncate]
            (enc as u8);
        let low: i32 = byte as i32;
        if low == SQLITE_UTF16 || low == SQLITE_UTF16_ALIGNED {
            Some(
                if host_big_endian {
                    TextEncoding::Utf16Be
                } else {
                    TextEncoding::Utf16Le
                },
            )
        } else if low == SQLITE_UTF8 {
            Some(TextEncoding::Utf8)
        } else if low == SQLITE_UTF16LE {
            Some(TextEncoding::Utf16Le)
        } else if low == SQLITE_UTF16BE {
            Some(TextEncoding::Utf16Be)
        } else {
            None
        }
    }

    pub open spec fn spec_slot(self) -> int {
        match self {
            TextEncoding::Utf8 => 0,
            TextEncoding::Utf16Le => 1,
            TextEncoding::Utf16Be => 2,
        }
    }

    /// Which slot of a set holds the comparison for this encoding.
    pub fn slot(self) -> (r: usize)
        ensures
            r == self.spec_slot(),
            r < 3,
    {
        match self {
            TextEncoding::Utf8 => 0,
            TextEncoding::Utf16Le => 1,
            TextEncoding::Utf16Be => 2,
        }
    }
}

/// Text as a comparison gets it. UTF-16 is code units whose bytes in memory are in the order the
/// comparison asked for.
pub enum CollationText {
    Utf8(Vec<u8>),
    Utf16(Vec<u16>),
}

/// One registration. Dropping it drops the destructor, which runs it.
pub struct CollationEntry<D, X> {
    pub p_arg: usize,
    /// None for the empty entry a deletion leaves behind, which only holds the deleting call's
    /// destructor until the handle closes.
    pub x_compare: Option<X>,
    pub x_destroy: Option<D>,
    pub enc: TextEncoding,
}

/// The registrations under one name, at most one per encoding.
pub struct CollationSet<D, X> {
    utf8: Option<CollationEntry<D, X>>,
    utf16le: Option<CollationEntry<D, X>>,
    utf16be: Option<CollationEntry<D, X>>,
}

impl<D, X> CollationSet<D, X> {
    /// Each slot holds only a registration for its own encoding.
    #[verifier::type_invariant]
    spec fn well_formed(&self) -> bool {
        &&& self.utf8 is Some ==> self.utf8->0.enc == TextEncoding::Utf8
        &&& self.utf16le is Some ==> self.utf16le->0.enc == TextEncoding::Utf16Le
        &&& self.utf16be is Some ==> self.utf16be->0.enc == TextEncoding::Utf16Be
    }

    /// The registration for an encoding.
    pub closed spec fn entry(&self, enc: TextEncoding) -> Option<CollationEntry<D, X>> {
        match enc {
            TextEncoding::Utf8 => self.utf8,
            TextEncoding::Utf16Le => self.utf16le,
            TextEncoding::Utf16Be => self.utf16be,
        }
    }

    fn slot_of(&self, enc: TextEncoding) -> (r: &Option<CollationEntry<D, X>>)
        ensures
            *r == self.entry(enc),
            *r is Some ==> r->0.enc == enc,
    {
        proof {
            use_type_invariant(self);
        }
        let slot: usize = enc.slot();
        if slot == 0 {
            &self.utf8
        } else if slot == 1 {
            &self.utf16le
        } else {
            &self.utf16be
        }
    }

    /// Whether there is a comparison for an encoding; what a deletion leaves behind does not count.
    pub open spec fn compares(&self, enc: TextEncoding) -> bool {
        self.entry(enc) is Some && self.entry(enc)->0.x_compare is Some
    }

    /// Whether there is a comparison at all.
    pub open spec fn usable(&self) -> bool {
        ||| self.compares(TextEncoding::Utf8)
        ||| self.compares(TextEncoding::Utf16Be)
        ||| self.compares(TextEncoding::Utf16Le)
    }

    /// Which comparison runs: the one for UTF-8 needs no conversion and wins, and of the others the
    /// big-endian one comes first.
    pub open spec fn preferred(&self) -> Option<TextEncoding> {
        if self.compares(TextEncoding::Utf8) {
            Some(TextEncoding::Utf8)
        } else if self.compares(TextEncoding::Utf16Be) {
            Some(TextEncoding::Utf16Be)
        } else if self.compares(TextEncoding::Utf16Le) {
            Some(TextEncoding::Utf16Le)
        } else {
            None
        }
    }

    pub fn new() -> (r: Self)
        ensures
            forall|enc: TextEncoding| (#[trigger] r.entry(enc)) is None,
            !r.usable(),
    {
        CollationSet { utf8: None, utf16le: None, utf16be: None }
    }

    /// Whether there is a comparison for an encoding.
    pub fn has_comparison(&self, enc: TextEncoding) -> (r: bool)
        ensures
            r == self.compares(enc),
    {
        match self.slot_of(enc) {
            Some(entry) => entry.x_compare.is_some(),
            None => false,
        }
    }

    /// Whether a statement naming this collation can run at all.
    pub fn has_any_comparison(&self) -> (r: bool)
        ensures
            r == self.usable(),
    {
        self.has_comparison(TextEncoding::Utf8) || self.has_comparison(TextEncoding::Utf16Be)
            || self.has_comparison(TextEncoding::Utf16Le)
    }

    /// Puts a registration in the slot of its encoding, and hands back what was there.
    pub fn replace(&mut self, entry: CollationEntry<D, X>) -> (r: Option<CollationEntry<D, X>>)
        ensures
            r == old(self).entry(entry.enc),
            final(self).entry(entry.enc) == Some(entry),
            forall|enc: TextEncoding|
                enc != entry.enc ==> #[trigger] final(self).entry(enc) == old(self).entry(enc),
    {
        proof {
            use_type_invariant(&*self);
        }
        let slot: usize = entry.enc.slot();
        let mut replaced = Some(entry);
        if slot == 0 {
            std::mem::swap(&mut replaced, &mut self.utf8);
        } else if slot == 1 {
            std::mem::swap(&mut replaced, &mut self.utf16le);
        } else {
            std::mem::swap(&mut replaced, &mut self.utf16be);
        }
        replaced
    }

    /// The comparison that runs, with what it was registered with.
    pub fn chosen(&self) -> (r: Option<(usize, &X, TextEncoding)>)
        ensures
            match r {
                Some((p_arg, x_compare, enc)) => {
                    &&& self.preferred() == Some(enc)
                    &&& self.entry(enc)->0.p_arg == p_arg
                    &&& self.entry(enc)->0.x_compare == Some(*x_compare)
                },
                None => self.preferred() is None,
            },
    {
        match self.comparison(TextEncoding::Utf8) {
            Some(found) => Some(found),
            None => match self.comparison(TextEncoding::Utf16Be) {
                Some(found) => Some(found),
                None => self.comparison(TextEncoding::Utf16Le),
            },
        }
    }

    fn comparison(&self, enc: TextEncoding) -> (r: Option<(usize, &X, TextEncoding)>)
        ensures
            match r {
                Some((p_arg, x_compare, found)) => {
                    &&& found == enc
                    &&& self.compares(enc)
                    &&& self.entry(enc)->0.p_arg == p_arg
                    &&& self.entry(enc)->0.x_compare == Some(*x_compare)
                },
                None => !self.compares(enc),
            },
    {
        match self.slot_of(enc) {
            Some(entry) => match &entry.x_compare {
                Some(x_compare) => Some((entry.p_arg, x_compare, entry.enc)),
                None => None,
            },
            None => None,
        }
    }
}

/// Text as the comparison for an encoding gets it.
pub open spec fn converted(
    bytes: Seq<u8>,
    enc: TextEncoding,
    host_big_endian: bool,
    text: CollationText,
) -> bool {
    match text {
        CollationText::Utf8(b) => enc == TextEncoding::Utf8 && b@ == bytes,
        CollationText::Utf16(units) => enc != TextEncoding::Utf8 && units@
            == crate::utf16::encode_utf16(crate::utf16::text_of(bytes)).map_values(
            |unit: u16|
                crate::utf16::ordered_unit(unit, enc == TextEncoding::Utf16Be, host_big_endian),
        ),
    }
}

fn convert(bytes: &[u8], enc: TextEncoding, host_big_endian: bool) -> (r: CollationText)
    ensures
        converted(bytes@, enc, host_big_endian, r),
{
    match enc {
        TextEncoding::Utf8 => CollationText::Utf8(copy_bytes(bytes)),
        TextEncoding::Utf16Le => CollationText::Utf16(to_utf16(bytes, false, host_big_endian)),
        TextEncoding::Utf16Be => CollationText::Utf16(to_utf16(bytes, true, host_big_endian)),
    }
}

/// Whether a comparison can be asked about any two texts.
pub open spec fn total_compare<X>(x: X) -> bool where
    X: Fn(usize, &CollationText, &CollationText) -> i32,
 {
    forall|p_arg: usize, left: &CollationText, right: &CollationText|
        call_requires(x, (p_arg, left, right))
}

/// Compares two UTF-8 texts with the comparison a set prefers, each converted to the encoding it
/// wants. A set is only compared with while it is usable: deleting a comparison is refused while a
/// statement runs.
pub fn compare_trampoline<D, X>(
    set: &CollationSet<D, X>,
    left: &[u8],
    right: &[u8],
    host_big_endian: bool,
) -> (r: i32) where X: Fn(usize, &CollationText, &CollationText) -> i32
    requires
        set.usable(),
        forall|enc: TextEncoding|
            set.compares(enc) ==> total_compare(#[trigger] set.entry(enc)->0.x_compare->0),
    ensures
        ({
            let enc = set.preferred()->0;
            exists|l: CollationText, r0: CollationText|
                {
                    &&& #[trigger] converted(left@, enc, host_big_endian, l)
                    &&& #[trigger] converted(right@, enc, host_big_endian, r0)
                    &&& call_ensures(
                        set.entry(enc)->0.x_compare->0,
                        (set.entry(enc)->0.p_arg, &l, &r0),
                        r,
                    )
                }
        }),
{
    match set.chosen() {
        Some((p_arg, x_compare, enc)) => {
            let left = convert(left, enc, host_big_endian);
            let right = convert(right, enc, host_big_endian);
            assert(total_compare(set.entry(enc)->0.x_compare->0));
            (*x_compare)(p_arg, &left, &right)
        },
        None => 0,
    }
}

/// Who to ask for a collation nobody registered.
#[derive(Clone, Copy, Debug, PartialEq, Eq, Structural)]
pub struct CollationNeeded {
    /// The callback, by its address.
    pub callback: usize,
    pub p_arg: usize,
    /// Whether the callback wants the name in UTF-16.
    pub utf16: bool,
}

/// The collations registered through one handle.
pub struct CollationHandle<D, X> {
    sets: NamedTable<(String, CollationSet<D, X>)>,
    needed: Option<CollationNeeded>,
    /// The code and the message of the last failure that left one.
    error: Option<(i32, String)>,
}

/// Names differ only where more than the case of ASCII letters does.
pub open spec fn folded_name(name: Seq<char>) -> (Seq<char>, i32) {
    (crate::registry::ascii_lowercase(name), 0i32)
}

/// A text in ASCII lower case.
pub fn to_ascii_lowercase(text: &str) -> (r: String)
    ensures
        r@ == crate::registry::ascii_lowercase(text@),
{
    let mut out: String = String::new();
    for c in iter: text.chars()
        invariant
            iter.seq() == text@,
            out@ == crate::registry::ascii_lowercase(text@).take(iter.index() as int),
    {
        if 'A' <= c && c <= 'Z' {
            out.push(((c as u8) + 32) as char);
        } else {
            out.push(c);
        }
        assert(out@ =~= crate::registry::ascii_lowercase(text@).take(iter.index() as int + 1));
    }
    assert(crate::registry::ascii_lowercase(text@).take(text@.len() as int)
        =~= crate::registry::ascii_lowercase(text@));
    out
}

/// What the engine is to be told about a name.
#[derive(Debug)]
pub enum CoreChange {
    Nothing,
    /// The name can be used from now on.
    Register(String),
    /// The name cannot be used any more.
    Unregister(String),
}

/// How a registration went.
pub struct CollationAnswer<D, X> {
    pub code: i32,
    pub core: CoreChange,
    /// The registration that was replaced. Dropping it runs its destructor.
    pub replaced: Option<CollationEntry<D, X>>,
    /// The destructor of a call that failed, which must not run: ownership goes back to the caller.
    pub refused: Option<D>,
}

/// What the engine is to be told when the set under a name changes from usable or not to usable or
/// not.
pub open spec fn core_change(name: Seq<char>, was: bool, now: bool, change: CoreChange) -> bool {
    match change {
        CoreChange::Register(n) => !was && now && n@ == name,
        CoreChange::Unregister(n) => was && !now && n@ == name,
        CoreChange::Nothing => was == now,
    }
}

impl<D, X> CollationHandle<D, X> {
    /// The registrations under each name.
    pub closed spec fn spec_set(&self, name: Seq<char>) -> Option<CollationSet<D, X>> {
        if self.sets@.contains_key(folded_name(name)) {
            Some(self.sets@[folded_name(name)].1)
        } else {
            None
        }
    }

    /// The registration under a name for an encoding.
    pub open spec fn entry(&self, name: Seq<char>, enc: TextEncoding) -> Option<
        CollationEntry<D, X>,
    > {
        match self.spec_set(name) {
            Some(set) => set.entry(enc),
            None => None,
        }
    }

    /// Whether a statement naming the collation can run.
    pub open spec fn usable(&self, name: Seq<char>) -> bool {
        match self.spec_set(name) {
            Some(set) => set.usable(),
            None => false,
        }
    }

    pub closed spec fn spec_needed(&self) -> Option<CollationNeeded> {
        self.needed
    }

    pub closed spec fn spec_error(&self) -> Option<(i32, Seq<char>)> {
        match self.error {
            Some((code, message)) => Some((code, message@)),
            None => None,
        }
    }

    /// Every set is filed under its own name.
    pub closed spec fn wf(&self) -> bool {
        forall|key: (Seq<char>, i32)| #[trigger]
            self.sets@.contains_key(key) ==> folded_name(self.sets@[key].0@) == key
    }

    pub fn new() -> (r: Self)
        ensures
            r.wf(),
            forall|name: Seq<char>| (#[trigger] r.spec_set(name)) is None,
            r.spec_needed() is None,
            r.spec_error() is None,
    {
        CollationHandle { sets: NamedTable::new(), needed: None, error: None }
    }

    /// The registrations under a name.
    pub fn collation_set(&self, name: &str) -> (r: Option<&CollationSet<D, X>>)
        ensures
            match r {
                Some(set) => self.spec_set(name@) == Some(*set),
                None => self.spec_set(name@) is None,
            },
    {
        let folded = to_ascii_lowercase(name);
        match self.sets.get(folded.as_str(), 0) {
            Some(pair) => Some(&pair.1),
            None => None,
        }
    }

    /// Who to ask for a collation nobody registered.
    pub fn needed(&self) -> (r: Option<CollationNeeded>)
        ensures
            r == self.spec_needed(),
    {
        self.needed
    }

    /// The code and the message of the last failure that left one.
    pub fn last_error(&self) -> (r: Option<(i32, String)>)
        ensures
            match r {
                Some((code, message)) => self.spec_error() == Some((code, message@)),
                None => self.spec_error() is None,
            },
    {
        match &self.error {
            Some((code, message)) => Some((*code, message.clone())),
            None => None,
        }
    }
}

/// The message of a registration that would move a comparison under a running statement.
pub open spec fn collation_busy_message() -> Seq<char> {
    "unable to delete/modify collation sequence due to active statements"@
}

/// Whether a call is answered with `r` and leaves `after` of the handle `before`.
pub open spec fn collation_answered<D, X>(
    before: CollationHandle<D, X>,
    after: CollationHandle<D, X>,
    r: CollationAnswer<D, X>,
    name: Option<Seq<char>>,
    encoding: Option<TextEncoding>,
    p_arg: usize,
    x_compare: Option<X>,
    x_destroy: Option<D>,
    running: bool,
) -> bool {
    if name is None || encoding is None {
        &&& r.code == SQLITE_MISUSE
        &&& r.core is Nothing
        &&& r.replaced is None
        &&& r.refused == x_destroy
        &&& after == before
    } else if before.spec_set(name->0) is Some && before.spec_set(name->0)->0.compares(encoding->0)
        && running {
        &&& r.code == SQLITE_BUSY
        &&& r.core is Nothing
        &&& r.replaced is None
        &&& r.refused == x_destroy
        &&& after.spec_error() == Some((SQLITE_BUSY, collation_busy_message()))
        &&& after.spec_needed() == before.spec_needed()
        &&& forall|other: Seq<char>| #[trigger] after.spec_set(other) == before.spec_set(other)
    } else {
        &&& r.code == SQLITE_OK
        &&& r.refused is None
        &&& r.replaced == before.entry(name->0, encoding->0)
        &&& after.entry(name->0, encoding->0) == Some(
            CollationEntry { p_arg, x_compare, x_destroy, enc: encoding->0 },
        )
        &&& forall|other: TextEncoding|
            other != encoding->0 ==> #[trigger] after.entry(name->0, other) == before.entry(
                name->0,
                other,
            )
        &&& forall|other: Seq<char>|
            folded_name(other) != folded_name(name->0) ==> #[trigger] after.spec_set(other)
                == before.spec_set(other)
        &&& core_change(name->0, before.usable(name->0), after.usable(name->0), r.core)
        &&& after.spec_error() == before.spec_error()
        &&& after.spec_needed() == before.spec_needed()
    }
}

/// Registers a comparison for one encoding under a name; without a comparison it deletes, and the
/// call's destructor stays behind until the handle closes. `running` says whether a statement of the
/// handle is running: a comparison may not move under it, but an encoding nobody registered yet is
/// new and may be added even then. A call that fails does not run its destructor.
pub fn create_collation<D, X>(
    handle: Option<&mut CollationHandle<D, X>>,
    name: Option<String>,
    enc: i32,
    p_arg: usize,
    x_compare: Option<X>,
    x_destroy: Option<D>,
    running: bool,
    host_big_endian: bool,
) -> (r: CollationAnswer<D, X>)
    requires
        handle is Some ==> handle->0.wf(),
    ensures
        match handle {
            None => r.code == SQLITE_MISUSE && r.core is Nothing && r.replaced is None && r.refused
                == x_destroy,
            Some(h) => {
                &&& final(h).wf()
                &&& collation_answered(
                    *h,
                    *final(h),
                    r,
                    crate::capi_handle::name_view(name),
                    encoding_of(enc, host_big_endian),
                    p_arg,
                    x_compare,
                    x_destroy,
                    running,
                )
            },
        },
{
    let h = match handle {
        None => {
            return CollationAnswer {
                code: SQLITE_MISUSE,
                core: CoreChange::Nothing,
                replaced: None,
                refused: x_destroy,
            };
        },
        Some(h) => h,
    };
    let name = match name {
        None => {
            return CollationAnswer {
                code: SQLITE_MISUSE,
                core: CoreChange::Nothing,
                replaced: None,
                refused: x_destroy,
            };
        },
        Some(name) => name,
    };
    let enc = match TextEncoding::from_arg(enc, host_big_endian) {
        None => {
            return CollationAnswer {
                code: SQLITE_MISUSE,
                core: CoreChange::Nothing,
                replaced: None,
                refused: x_destroy,
            };
        },
        Some(enc) => enc,
    };
    let busy: bool = match h.collation_set(name.as_str()) {
        Some(set) => set.has_comparison(enc) && running,
        None => false,
    };
    if busy {
        h.error = Some(
            (
                SQLITE_BUSY,
                "unable to delete/modify collation sequence due to active statements".to_owned(),
            ),
        );
        return CollationAnswer {
            code: SQLITE_BUSY,
            core: CoreChange::Nothing,
            replaced: None,
            refused: x_destroy,
        };
    }
    let folded = to_ascii_lowercase(name.as_str());
    let ghost key = folded_name(name@);
    let (first_name, mut set) = match h.sets.remove(folded.as_str(), 0) {
        Some(pair) => pair,
        None => (name.clone(), CollationSet::new()),
    };
    let was_usable = set.has_any_comparison();
    let replaced = set.replace(CollationEntry { p_arg, x_compare, x_destroy, enc });
    let is_usable = set.has_any_comparison();
    let _ = h.sets.insert(folded, 0, (first_name, set));
    proof {
        let before = *old(handle->0);
        assert(folded@ == key.0);
        assert forall|other: Seq<char>| folded_name(other) != key implies #[trigger] h.spec_set(
            other,
        ) == before.spec_set(other) by {}
    }
    let core = if is_usable && !was_usable {
        CoreChange::Register(name)
    } else if was_usable && !is_usable {
        CoreChange::Unregister(name)
    } else {
        CoreChange::Nothing
    };
    CollationAnswer { code: SQLITE_OK, core, replaced, refused: None }
}

/// Registers or deletes a comparison that has no destructor.
pub fn sqlite3_create_collation<D, X>(
    handle: Option<&mut CollationHandle<D, X>>,
    name: Option<&[u8]>,
    enc: i32,
    p_arg: usize,
    x_compare: Option<X>,
    running: bool,
    host_big_endian: bool,
) -> (r: CollationAnswer<D, X>)
    requires
        handle is Some ==> handle->0.wf(),
    ensures
        match handle {
            None => r.code == SQLITE_MISUSE && r.core is Nothing && r.replaced is None && r.refused
                == None::<D>,
            Some(h) => {
                &&& final(h).wf()
                &&& collation_answered(
                    *h,
                    *final(h),
                    r,
                    crate::capi_handle::utf8_name(name),
                    encoding_of(enc, host_big_endian),
                    p_arg,
                    x_compare,
                    None,
                    running,
                )
            },
        },
{
    create_collation(
        handle,
        function_name(name),
        enc,
        p_arg,
        x_compare,
        None,
        running,
        host_big_endian,
    )
}

/// Registers or deletes a comparison.
pub fn sqlite3_create_collation_v2<D, X>(
    handle: Option<&mut CollationHandle<D, X>>,
    name: Option<&[u8]>,
    enc: i32,
    p_arg: usize,
    x_compare: Option<X>,
    x_destroy: Option<D>,
    running: bool,
    host_big_endian: bool,
) -> (r: CollationAnswer<D, X>)
    requires
        handle is Some ==> handle->0.wf(),
    ensures
        match handle {
            None => r.code == SQLITE_MISUSE && r.core is Nothing && r.replaced is None && r.refused
                == x_destroy,
            Some(h) => {
                &&& final(h).wf()
                &&& collation_answered(
                    *h,
                    *final(h),
                    r,
                    crate::capi_handle::utf8_name(name),
                    encoding_of(enc, host_big_endian),
                    p_arg,
                    x_compare,
                    x_destroy,
                    running,
                )
            },
        },
{
    create_collation(
        handle,
        function_name(name),
        enc,
        p_arg,
        x_compare,
        x_destroy,
        running,
        host_big_endian,
    )
}

/// Registers or deletes a comparison whose name is in UTF-16.
pub fn sqlite3_create_collation16<D, X>(
    handle: Option<&mut CollationHandle<D, X>>,
    name: Option<&[u16]>,
    enc: i32,
    p_arg: usize,
    x_compare: Option<X>,
    running: bool,
    host_big_endian: bool,
) -> (r: CollationAnswer<D, X>)
    requires
        handle is Some ==> handle->0.wf(),
    ensures
        match handle {
            None => r.code == SQLITE_MISUSE && r.core is Nothing && r.replaced is None && r.refused
                == None::<D>,
            Some(h) => {
                &&& final(h).wf()
                &&& collation_answered(
                    *h,
                    *final(h),
                    r,
                    crate::capi_handle::utf16_name(name),
                    encoding_of(enc, host_big_endian),
                    p_arg,
                    x_compare,
                    None,
                    running,
                )
            },
        },
{
    create_collation(
        handle,
        function_name16(name),
        enc,
        p_arg,
        x_compare,
        None,
        running,
        host_big_endian,
    )
}

/// Drops every collation the handle registered. Hands back each name, which the engine is to forget,
/// with its registrations; dropping those runs their destructors.
pub fn drop_all_collations<D, X>(h: &mut CollationHandle<D, X>) -> (r: Vec<
    (String, CollationSet<D, X>),
>)
    requires
        old(h).wf(),
    ensures
        final(h).wf(),
        forall|name: Seq<char>| (#[trigger] final(h).spec_set(name)) is None,
        forall|i: int|
            0 <= i < r@.len() ==> old(h).spec_set((#[trigger] r@[i]).0@) == Some(r@[i].1),
        forall|name: Seq<char>|
            (#[trigger] old(h).spec_set(name)) is Some ==> exists|i: int|
                0 <= i < r@.len() && folded_name((#[trigger] r@[i]).0@) == folded_name(name),
        final(h).spec_needed() == old(h).spec_needed(),
        final(h).spec_error() == old(h).spec_error(),
{
    let mut dropped: Vec<(String, CollationSet<D, X>)> = Vec::new();
    let ghost before = *h;
    loop
        invariant
            before == *old(h),
            h.wf(),
            before.wf(),
            h.spec_needed() == before.spec_needed(),
            h.spec_error() == before.spec_error(),
            forall|key: (Seq<char>, i32)| #[trigger]
                h.sets@.contains_key(key) ==> before.sets@.contains_key(key) && h.sets@[key]
                    == before.sets@[key],
            forall|i: int|
                0 <= i < dropped@.len() ==> before.spec_set((#[trigger] dropped@[i]).0@) == Some(
                    dropped@[i].1,
                ),
            forall|key: (Seq<char>, i32)| #[trigger]
                before.sets@.contains_key(key) && !h.sets@.contains_key(key) ==> exists|i: int|
                    0 <= i < dropped@.len() && folded_name((#[trigger] dropped@[i]).0@) == key,
        ensures
            h.sets@ == Map::<(Seq<char>, i32), (String, CollationSet<D, X>)>::empty(),
        decreases h.sets.count(),
    {
        let ghost here = h.sets@;
        let ghost list = dropped@;
        match h.sets.pop() {
            None => {
                break;
            },
            Some((folded, argc, pair)) => {
                let ghost k = (folded@, argc);
                assert(before.sets@.contains_key(k));
                assert(folded_name(pair.0@) == k);
                dropped.push(pair);
                proof {
                    assert forall|key: (Seq<char>, i32)| #[trigger]
                        before.sets@.contains_key(key) && !h.sets@.contains_key(
                            key,
                        ) implies exists|i: int|
                        0 <= i < dropped@.len() && folded_name((#[trigger] dropped@[i]).0@)
                            == key by {
                        if key == k {
                            assert(folded_name(dropped@[list.len() as int].0@) == key);
                        } else {
                            assert(!here.contains_key(key));
                            let i = choose|i: int|
                                0 <= i < list.len() && folded_name((#[trigger] list[i]).0@) == key;
                            assert(dropped@[i] == list[i]);
                        }
                    }
                }
            },
        }
    }
    proof {
        assert forall|name: Seq<char>| (#[trigger] before.spec_set(name)) is Some implies exists|
            i: int,
        |
            0 <= i < dropped@.len() && folded_name((#[trigger] dropped@[i]).0@) == folded_name(
                name,
            ) by {
            assert(before.sets@.contains_key(folded_name(name)));
            assert(!h.sets@.contains_key(folded_name(name)));
        }
    }
    dropped
}

/// Sets or clears who to ask for a collation nobody registered.
pub fn set_collation_needed<D, X>(
    handle: Option<&mut CollationHandle<D, X>>,
    p_arg: usize,
    callback: Option<usize>,
    utf16: bool,
) -> (r: i32)
    ensures
        match handle {
            None => r == SQLITE_MISUSE,
            Some(h) => {
                &&& r == SQLITE_OK
                &&& final(h).spec_needed() == (match callback {
                    Some(callback) => Some(CollationNeeded { callback, p_arg, utf16 }),
                    None => None,
                })
                &&& final(h).spec_error() == h.spec_error()
                &&& forall|name: Seq<char>| #[trigger] final(h).spec_set(name) == h.spec_set(name)
                &&& h.wf() ==> final(h).wf()
            },
        },
{
    match handle {
        None => SQLITE_MISUSE,
        Some(h) => {
            h.needed = match callback {
                Some(callback) => Some(CollationNeeded { callback, p_arg, utf16 }),
                None => None,
            };
            SQLITE_OK
        },
    }
}

/// Sets or clears who to ask for a collation, by its name in UTF-8.
pub fn sqlite3_collation_needed<D, X>(
    handle: Option<&mut CollationHandle<D, X>>,
    p_arg: usize,
    callback: Option<usize>,
) -> (r: i32)
    ensures
        match handle {
            None => r == SQLITE_MISUSE,
            Some(h) => {
                &&& r == SQLITE_OK
                &&& final(h).spec_needed() == (match callback {
                    Some(callback) => Some(CollationNeeded { callback, p_arg, utf16: false }),
                    None => None,
                })
                &&& final(h).spec_error() == h.spec_error()
                &&& forall|name: Seq<char>| #[trigger] final(h).spec_set(name) == h.spec_set(name)
                &&& h.wf() ==> final(h).wf()
            },
        },
{
    set_collation_needed(handle, p_arg, callback, false)
}

/// Sets or clears who to ask for a collation, by its name in UTF-16.
pub fn sqlite3_collation_needed16<D, X>(
    handle: Option<&mut CollationHandle<D, X>>,
    p_arg: usize,
    callback: Option<usize>,
) -> (r: i32)
    ensures
        match handle {
            None => r == SQLITE_MISUSE,
            Some(h) => {
                &&& r == SQLITE_OK
                &&& final(h).spec_needed() == (match callback {
                    Some(callback) => Some(CollationNeeded { callback, p_arg, utf16: true }),
                    None => None,
                })
                &&& final(h).spec_error() == h.spec_error()
                &&& forall|name: Seq<char>| #[trigger] final(h).spec_set(name) == h.spec_set(name)
                &&& h.wf() ==> final(h).wf()
            },
        },
{
    set_collation_needed(handle, p_arg, callback, true)
}

/// White space as Unicode defines it.
pub open spec fn is_white_space(c: char) -> bool {
    let v = c as u32;
    ||| 0x09 <= v <= 0x0D
    ||| v == 0x20
    ||| v == 0x85
    ||| v == 0xA0
    ||| v == 0x1680
    ||| 0x2000 <= v <= 0x200A
    ||| v == 0x2028
    ||| v == 0x2029
    ||| v == 0x202F
    ||| v == 0x205F
    ||| v == 0x3000
}

fn white_space(c: char) -> (r: bool)
    ensures
        r == is_white_space(c),
{
    let v: u32 = c as u32;
    (0x09 <= v && v <= 0x0D) || v == 0x20 || v == 0x85 || v == 0xA0 || v == 0x1680 || (0x2000 <= v
        && v <= 0x200A) || v == 0x2028 || v == 0x2029 || v == 0x202F || v == 0x205F || v == 0x3000
}

/// The text without the white space on either side.
pub open spec fn trim(s: Seq<char>) -> Seq<char>
    decreases s.len(),
{
    if s.len() > 0 && is_white_space(s[0]) {
        trim(s.skip(1))
    } else if s.len() > 0 && is_white_space(s.last()) {
        trim(s.drop_last())
    } else {
        s
    }
}

/// Whether `pattern` stands in `s` at position `at`.
pub open spec fn stands_at(s: Seq<char>, pattern: Seq<char>, at: int) -> bool {
    0 <= at && at + pattern.len() <= s.len() && s.subrange(at, at + pattern.len()) == pattern
}

/// Whether position `at` is the first at which `pattern` stands in `s`.
pub open spec fn first_at(s: Seq<char>, pattern: Seq<char>, at: int) -> bool {
    stands_at(s, pattern, at) && forall|i: int| 0 <= i < at ==> !#[trigger] stands_at(s, pattern, i)
}

/// What stands in front of the name in the message of a statement that names an unknown collation.
pub open spec fn missing_prefix() -> Seq<char> {
    "no such collation sequence: "@
}

fn matches_at(s: &[char], pattern: &[char], at: usize) -> (r: bool)
    ensures
        r == stands_at(s@, pattern@, at as int),
{
    if at > s.len() || pattern.len() > s.len() - at {
        return false;
    }
    let mut i: usize = 0;
    while i < pattern.len()
        invariant
            i <= pattern@.len(),
            at + pattern@.len() <= s@.len() <= usize::MAX,
            forall|j: int| 0 <= j < i ==> s@[at + j] == pattern@[j],
        decreases pattern@.len() - i,
    {
        if s[at + i] != pattern[i] {
            assert(s@.subrange(at as int, at + pattern@.len())[i as int] != pattern@[i as int]);
            return false;
        }
        i += 1;
    }
    assert(s@.subrange(at as int, at + pattern@.len()) =~= pattern@);
    true
}

fn trimmed(s: &[char], start: usize) -> (r: String)
    requires
        start <= s@.len(),
    ensures
        r@ == trim(s@.skip(start as int)),
{
    let mut from: usize = start;
    let mut to: usize = s.len();
    assert(s@.subrange(from as int, to as int) =~= s@.skip(start as int));
    while from < to && white_space(s[from])
        invariant
            from <= to,
            to <= s@.len(),
            trim(s@.subrange(from as int, to as int)) == trim(s@.skip(start as int)),
        decreases to - from,
    {
        assert(s@.subrange(from as int, to as int).skip(1) =~= s@.subrange(from + 1, to as int));
        from += 1;
    }
    while from < to && white_space(s[to - 1])
        invariant
            from <= to,
            to <= s@.len(),
            from < to ==> !is_white_space(s@[from as int]),
            trim(s@.subrange(from as int, to as int)) == trim(s@.skip(start as int)),
        decreases to - from,
    {
        assert(s@.subrange(from as int, to as int).drop_last() =~= s@.subrange(
            from as int,
            to - 1,
        ));
        to -= 1;
    }
    let kept = vstd::slice::slice_subrange(s, from, to);
    string_of(kept)
}

/// The collation a prepare failed on, if that is why it failed.
pub fn missing_collation(err: &LimboError) -> (r: Option<String>)
    ensures
        match r {
            Some(name) => exists|at: int|
                #[trigger] first_at(err@.text(), missing_prefix(), at) && name@ == trim(
                    err@.text().skip(at + missing_prefix().len()),
                ),
            None => forall|at: int| !#[trigger] stands_at(err@.text(), missing_prefix(), at),
        },
{
    let message = err.to_string();
    let s = chars_of(message.as_str());
    let pattern = chars_of("no such collation sequence: ");
    let mut at: usize = 0;
    while at < s.len()
        invariant
            at <= s@.len(),
            s@ == err@.text(),
            pattern@ == missing_prefix(),
            forall|i: int| 0 <= i < at ==> !#[trigger] stands_at(s@, pattern@, i),
        decreases s@.len() - at,
    {
        if matches_at(s.as_slice(), pattern.as_slice(), at) {
            assert(first_at(err@.text(), missing_prefix(), at as int));
            return Some(trimmed(s.as_slice(), at + pattern.len()));
        }
        at += 1;
    }
    proof {
        reveal_strlit("no such collation sequence: ");
        assert forall|at: int| !#[trigger] stands_at(err@.text(), missing_prefix(), at) by {
            if stands_at(err@.text(), missing_prefix(), at) {
                assert(at < s@.len());
            }
        }
    }
    None
}

/// The names a prepare has asked for, without regard to the case of ASCII letters.
pub struct AskedNames {
    names: NamedTable<()>,
}

impl View for AskedNames {
    type V = Set<Seq<char>>;

    closed spec fn view(&self) -> Set<Seq<char>> {
        Set::new(|folded: Seq<char>| self.names@.contains_key((folded, 0i32)))
    }
}

impl AskedNames {
    pub fn new() -> (r: Self)
        ensures
            r@ == Set::<Seq<char>>::empty(),
    {
        let r = AskedNames { names: NamedTable::new() };
        assert(r@ =~= Set::<Seq<char>>::empty());
        r
    }

    /// Adds a name, and says whether it is new.
    pub fn insert(&mut self, name: &str) -> (r: bool)
        ensures
            r == !old(self)@.contains(crate::registry::ascii_lowercase(name@)),
            final(self)@ == old(self)@.insert(crate::registry::ascii_lowercase(name@)),
    {
        let folded = to_ascii_lowercase(name);
        let ghost key = folded@;
        let known = self.names.insert(folded, 0, ()).is_some();
        assert(self@ =~= old(self)@.insert(key));
        !known
    }
}

/// How a callback is asked for a collation: its own argument, and the name ended by a NUL.
#[derive(Debug)]
pub enum CollationRequest {
    Utf8 { callback: usize, p_arg: usize, bytes: Vec<u8> },
    Utf16 { callback: usize, p_arg: usize, units: Vec<u16> },
}

/// Whether `request` asks `needed` for the collation `name`.
pub open spec fn asks(request: CollationRequest, needed: CollationNeeded, name: Seq<char>) -> bool {
    match request {
        CollationRequest::Utf8 { callback, p_arg, bytes } => {
            &&& !needed.utf16
            &&& callback == needed.callback
            &&& p_arg == needed.p_arg
            &&& bytes@ == vstd::utf8::encode_utf8(name).push(0u8)
        },
        CollationRequest::Utf16 { callback, p_arg, units } => {
            &&& needed.utf16
            &&& callback == needed.callback
            &&& p_arg == needed.p_arg
            &&& units@ == crate::utf16::encode_utf16(name).push(0u16)
        },
    }
}

/// Whether to ask for the collation `name` now, and how. Nobody is asked where there is no callback
/// or this prepare asked already, which ends the retry loop; nor for a name that does not fit a C
/// string. The callback is expected to register the collation on the same handle.
pub fn request_collation(
    needed: Option<CollationNeeded>,
    name: &str,
    already_asked: &mut AskedNames,
) -> (r: Option<CollationRequest>)
    ensures
        final(already_asked)@ == (if needed is Some {
            old(already_asked)@.insert(crate::registry::ascii_lowercase(name@))
        } else {
            old(already_asked)@
        }),
        r is Some <==> {
            &&& needed is Some
            &&& !old(already_asked)@.contains(crate::registry::ascii_lowercase(name@))
            &&& needed->0.utf16 || !vstd::utf8::encode_utf8(name@).contains(0u8)
        },
        r is Some ==> asks(r->0, needed->0, name@),
{
    let needed = match needed {
        None => {
            return None;
        },
        Some(needed) => needed,
    };
    if !already_asked.insert(name) {
        return None;
    }
    if needed.utf16 {
        let mut units = utf16_units(name);
        units.push(0);
        Some(CollationRequest::Utf16 { callback: needed.callback, p_arg: needed.p_arg, units })
    } else {
        if holds_nul(name) {
            return None;
        }
        let mut bytes = copy_bytes(name.as_bytes());
        bytes.push(0);
        Some(CollationRequest::Utf8 { callback: needed.callback, p_arg: needed.p_arg, bytes })
    }
}

/// A handle finds the comparisons of a name whatever the case of its ASCII letters.
pub proof fn law_collations_are_found_by_folded_name<D, X>(
    h: CollationHandle<D, X>,
    a: Seq<char>,
    b: Seq<char>,
)
    requires
        crate::registry::ascii_lowercase(a) == crate::registry::ascii_lowercase(b),
    ensures
        h.spec_set(a) == h.spec_set(b),
{
}

/// The comparison for UTF-8 runs whenever there is one, and a little-endian one only where there is
/// no other.
pub proof fn law_preference<D, X>(set: CollationSet<D, X>)
    ensures
        set.preferred() is Some <==> set.usable(),
        set.preferred() == Some(TextEncoding::Utf8) <==> set.compares(TextEncoding::Utf8),
        set.preferred() == Some(TextEncoding::Utf16Le) ==> !set.compares(TextEncoding::Utf8)
            && !set.compares(TextEncoding::Utf16Be),
        set.preferred() is Some ==> set.compares(set.preferred()->0),
{
}

/// As long as the engine does what it is told, it knows a name exactly while the handle has a
/// comparison for it.
pub proof fn law_the_engine_knows_usable_names<D, X>(
    before: CollationHandle<D, X>,
    after: CollationHandle<D, X>,
    r: CollationAnswer<D, X>,
    name: Seq<char>,
    encoding: Option<TextEncoding>,
    p_arg: usize,
    x_compare: Option<X>,
    x_destroy: Option<D>,
    running: bool,
    engine_knew: bool,
)
    requires
        collation_answered(
            before,
            after,
            r,
            Some(name),
            encoding,
            p_arg,
            x_compare,
            x_destroy,
            running,
        ),
        engine_knew == before.usable(name),
    ensures
        ({
            let engine_knows = match r.core {
                CoreChange::Register(_) => true,
                CoreChange::Unregister(_) => false,
                CoreChange::Nothing => engine_knew,
            };
            engine_knows == after.usable(name)
        }),
{
}

/// A destructor is handed back exactly when the call failed, and otherwise stays with the handle.
pub proof fn law_destructors_have_one_owner<D, X>(
    before: CollationHandle<D, X>,
    after: CollationHandle<D, X>,
    r: CollationAnswer<D, X>,
    name: Seq<char>,
    encoding: TextEncoding,
    p_arg: usize,
    x_compare: Option<X>,
    x_destroy: Option<D>,
    running: bool,
)
    requires
        collation_answered(
            before,
            after,
            r,
            Some(name),
            Some(encoding),
            p_arg,
            x_compare,
            x_destroy,
            running,
        ),
    ensures
        r.code == SQLITE_OK ==> r.refused is None && after.entry(name, encoding) is Some
            && after.entry(name, encoding)->0.x_destroy == x_destroy,
        r.code != SQLITE_OK ==> r.refused == x_destroy && r.replaced is None,
{
}

/// A prepare asks for one collation at most once, however its name is spelled in upper and lower
/// case.
pub proof fn law_asked_once(asked: Set<Seq<char>>, first: Seq<char>, again: Seq<char>)
    requires
        crate::registry::ascii_lowercase(first) == crate::registry::ascii_lowercase(again),
    ensures
        asked.insert(crate::registry::ascii_lowercase(first)).contains(
            crate::registry::ascii_lowercase(again),
        ),
{
}

}
