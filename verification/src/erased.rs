//! The erased form of a value, and the per-type dispatch table.
//!
//! An owning, type-erased handle must be able to destroy, identify and
//! recover its pointee without naming the pointee's type.  The host
//! language's built-in dynamic dispatch only offers that through borrowing,
//! so an owning design must hand-build one dispatch table per concrete
//! type.  Here that structure is rendered verifiably: [`Erased`] is the
//! uniform shape a value takes once its type is forgotten, and
//! [`GetVTable`] is the table each erasable type supplies — a type
//! identity, an injection into [`Erased`], and the partial projections
//! back out — together with the proved laws (the injection is injective
//! and lands in the type's own image) that make recovery exact.

use vstd::prelude::*;

verus! {

/// A value whose type has been erased.  Each erasable type injects into
/// exactly one arm, so an erased value still determines the value it came
/// from, while all erased values share this one uniform type.
#[derive(Debug)]
pub enum Erased {
    Unit(()),
    Bool(bool),
    Char(char),
    U8(u8),
    U32(u32),
    U64(u64),
    Usize(usize),
    I32(i32),
    I64(i64),
}

/// The dispatch table of an erasable type: what an erased handle needs in
/// order to identify, recover or give back a pointee of this type.  One
/// implementation exists per concrete erasable type, playing the role the
/// compiler-synthesized virtual table cannot play for owning receivers.
pub trait GetVTable: Sized {
    /// The type's runtime identity.  Distinct erasable types answer with
    /// distinct identities.
    spec fn type_id_spec() -> u64;

    /// The erased form of a value of this type.
    spec fn erased_spec(self) -> Erased;

    /// Whether an erased value lies in this type's image.
    spec fn owns_erased(e: Erased) -> bool;

    /// Law: erasing a value lands in this type's own image.
    proof fn lemma_erase_owns(self)
        ensures
            Self::owns_erased(self.erased_spec()),
    ;

    /// Law: erasure is injective — an erased value determines the value it
    /// came from.
    proof fn lemma_erase_injective(a: Self, b: Self)
        requires
            a.erased_spec() == b.erased_spec(),
        ensures
            a == b,
    ;

    /// The table's type-identity entry.
    fn type_id() -> (r: u64)
        ensures
            r == Self::type_id_spec(),
    ;

    /// The table's erasure entry: forgets the type of `self`.
    fn erase(self) -> (e: Erased)
        ensures
            e == self.erased_spec(),
    ;

    /// The table's recovery entry: takes the value back out of its erased
    /// form, or gives the erased value back untouched if it is not this
    /// type's.
    fn try_unerase(e: Erased) -> (r: Result<Self, Erased>)
        ensures
            Self::owns_erased(e) ==> (r matches Ok(v) && v.erased_spec() == e),
            !Self::owns_erased(e) ==> r == Err::<Self, Erased>(e),
    ;

    /// The table's borrowed-recovery entry: a shared view of the value
    /// inside its erased form, if it is this type's.
    fn try_unerase_ref(e: &Erased) -> (r: Option<&Self>)
        ensures
            Self::owns_erased(*e) <==> r is Some,
            r matches Some(v) ==> v.erased_spec() == *e,
    ;

    /// The table's exclusive-recovery entry: an exclusive view of the
    /// value inside its erased form, if it is this type's; writes through
    /// the view rewrite the erased value accordingly.
    fn try_unerase_mut(e: &mut Erased) -> (r: Option<&mut Self>)
        ensures
            Self::owns_erased(*old(e)) <==> r is Some,
            r is None ==> *final(e) == *old(e),
            r matches Some(v) ==> (*v).erased_spec() == *old(e) && *final(e)
                == (*final(v)).erased_spec(),
    ;
}

impl GetVTable for () {
    open spec fn type_id_spec() -> u64 {
        1
    }

    open spec fn erased_spec(self) -> Erased {
        Erased::Unit(self)
    }

    open spec fn owns_erased(e: Erased) -> bool {
        e is Unit
    }

    proof fn lemma_erase_owns(self) {
    }

    proof fn lemma_erase_injective(a: (), b: ()) {
    }

    fn type_id() -> u64 {
        1
    }

    fn erase(self) -> Erased {
        Erased::Unit(self)
    }

    fn try_unerase(e: Erased) -> Result<(), Erased> {
        match e {
            Erased::Unit(v) => Ok(v),
            _ => Err(e),
        }
    }

    fn try_unerase_ref(e: &Erased) -> Option<&()> {
        match e {
            Erased::Unit(v) => Some(v),
            _ => None,
        }
    }

    fn try_unerase_mut(e: &mut Erased) -> Option<&mut ()> {
        match e {
            Erased::Unit(v) => Some(v),
            _ => None,
        }
    }
}

impl GetVTable for bool {
    open spec fn type_id_spec() -> u64 {
        2
    }

    open spec fn erased_spec(self) -> Erased {
        Erased::Bool(self)
    }

    open spec fn owns_erased(e: Erased) -> bool {
        e is Bool
    }

    proof fn lemma_erase_owns(self) {
    }

    proof fn lemma_erase_injective(a: bool, b: bool) {
    }

    fn type_id() -> u64 {
        2
    }

    fn erase(self) -> Erased {
        Erased::Bool(self)
    }

    fn try_unerase(e: Erased) -> Result<bool, Erased> {
        match e {
            Erased::Bool(v) => Ok(v),
            _ => Err(e),
        }
    }

    fn try_unerase_ref(e: &Erased) -> Option<&bool> {
        match e {
            Erased::Bool(v) => Some(v),
            _ => None,
        }
    }

    fn try_unerase_mut(e: &mut Erased) -> Option<&mut bool> {
        match e {
            Erased::Bool(v) => Some(v),
            _ => None,
        }
    }
}

impl GetVTable for char {
    open spec fn type_id_spec() -> u64 {
        3
    }

    open spec fn erased_spec(self) -> Erased {
        Erased::Char(self)
    }

    open spec fn owns_erased(e: Erased) -> bool {
        e is Char
    }

    proof fn lemma_erase_owns(self) {
    }

    proof fn lemma_erase_injective(a: char, b: char) {
    }

    fn type_id() -> u64 {
        3
    }

    fn erase(self) -> Erased {
        Erased::Char(self)
    }

    fn try_unerase(e: Erased) -> Result<char, Erased> {
        match e {
            Erased::Char(v) => Ok(v),
            _ => Err(e),
        }
    }

    fn try_unerase_ref(e: &Erased) -> Option<&char> {
        match e {
            Erased::Char(v) => Some(v),
            _ => None,
        }
    }

    fn try_unerase_mut(e: &mut Erased) -> Option<&mut char> {
        match e {
            Erased::Char(v) => Some(v),
            _ => None,
        }
    }
}

impl GetVTable for u8 {
    open spec fn type_id_spec() -> u64 {
        4
    }

    open spec fn erased_spec(self) -> Erased {
        Erased::U8(self)
    }

    open spec fn owns_erased(e: Erased) -> bool {
        e is U8
    }

    proof fn lemma_erase_owns(self) {
    }

    proof fn lemma_erase_injective(a: u8, b: u8) {
    }

    fn type_id() -> u64 {
        4
    }

    fn erase(self) -> Erased {
        Erased::U8(self)
    }

    fn try_unerase(e: Erased) -> Result<u8, Erased> {
        match e {
            Erased::U8(v) => Ok(v),
            _ => Err(e),
        }
    }

    fn try_unerase_ref(e: &Erased) -> Option<&u8> {
        match e {
            Erased::U8(v) => Some(v),
            _ => None,
        }
    }

    fn try_unerase_mut(e: &mut Erased) -> Option<&mut u8> {
        match e {
            Erased::U8(v) => Some(v),
            _ => None,
        }
    }
}

impl GetVTable for u32 {
    open spec fn type_id_spec() -> u64 {
        5
    }

    open spec fn erased_spec(self) -> Erased {
        Erased::U32(self)
    }

    open spec fn owns_erased(e: Erased) -> bool {
        e is U32
    }

    proof fn lemma_erase_owns(self) {
    }

    proof fn lemma_erase_injective(a: u32, b: u32) {
    }

    fn type_id() -> u64 {
        5
    }

    fn erase(self) -> Erased {
        Erased::U32(self)
    }

    fn try_unerase(e: Erased) -> Result<u32, Erased> {
        match e {
            Erased::U32(v) => Ok(v),
            _ => Err(e),
        }
    }

    fn try_unerase_ref(e: &Erased) -> Option<&u32> {
        match e {
            Erased::U32(v) => Some(v),
            _ => None,
        }
    }

    fn try_unerase_mut(e: &mut Erased) -> Option<&mut u32> {
        match e {
            Erased::U32(v) => Some(v),
            _ => None,
        }
    }
}

impl GetVTable for u64 {
    open spec fn type_id_spec() -> u64 {
        6
    }

    open spec fn erased_spec(self) -> Erased {
        Erased::U64(self)
    }

    open spec fn owns_erased(e: Erased) -> bool {
        e is U64
    }

    proof fn lemma_erase_owns(self) {
    }

    proof fn lemma_erase_injective(a: u64, b: u64) {
    }

    fn type_id() -> u64 {
        6
    }

    fn erase(self) -> Erased {
        Erased::U64(self)
    }

    fn try_unerase(e: Erased) -> Result<u64, Erased> {
        match e {
            Erased::U64(v) => Ok(v),
            _ => Err(e),
        }
    }

    fn try_unerase_ref(e: &Erased) -> Option<&u64> {
        match e {
            Erased::U64(v) => Some(v),
            _ => None,
        }
    }

    fn try_unerase_mut(e: &mut Erased) -> Option<&mut u64> {
        match e {
            Erased::U64(v) => Some(v),
            _ => None,
        }
    }
}

impl GetVTable for usize {
    open spec fn type_id_spec() -> u64 {
        7
    }

    open spec fn erased_spec(self) -> Erased {
        Erased::Usize(self)
    }

    open spec fn owns_erased(e: Erased) -> bool {
        e is Usize
    }

    proof fn lemma_erase_owns(self) {
    }

    proof fn lemma_erase_injective(a: usize, b: usize) {
    }

    fn type_id() -> u64 {
        7
    }

    fn erase(self) -> Erased {
        Erased::Usize(self)
    }

    fn try_unerase(e: Erased) -> Result<usize, Erased> {
        match e {
            Erased::Usize(v) => Ok(v),
            _ => Err(e),
        }
    }

    fn try_unerase_ref(e: &Erased) -> Option<&usize> {
        match e {
            Erased::Usize(v) => Some(v),
            _ => None,
        }
    }

    fn try_unerase_mut(e: &mut Erased) -> Option<&mut usize> {
        match e {
            Erased::Usize(v) => Some(v),
            _ => None,
        }
    }
}

impl GetVTable for i32 {
    open spec fn type_id_spec() -> u64 {
        8
    }

    open spec fn erased_spec(self) -> Erased {
        Erased::I32(self)
    }

    open spec fn owns_erased(e: Erased) -> bool {
        e is I32
    }

    proof fn lemma_erase_owns(self) {
    }

    proof fn lemma_erase_injective(a: i32, b: i32) {
    }

    fn type_id() -> u64 {
        8
    }

    fn erase(self) -> Erased {
        Erased::I32(self)
    }

    fn try_unerase(e: Erased) -> Result<i32, Erased> {
        match e {
            Erased::I32(v) => Ok(v),
            _ => Err(e),
        }
    }

    fn try_unerase_ref(e: &Erased) -> Option<&i32> {
        match e {
            Erased::I32(v) => Some(v),
            _ => None,
        }
    }

    fn try_unerase_mut(e: &mut Erased) -> Option<&mut i32> {
        match e {
            Erased::I32(v) => Some(v),
            _ => None,
        }
    }
}

impl GetVTable for i64 {
    open spec fn type_id_spec() -> u64 {
        9
    }

    open spec fn erased_spec(self) -> Erased {
        Erased::I64(self)
    }

    open spec fn owns_erased(e: Erased) -> bool {
        e is I64
    }

    proof fn lemma_erase_owns(self) {
    }

    proof fn lemma_erase_injective(a: i64, b: i64) {
    }

    fn type_id() -> u64 {
        9
    }

    fn erase(self) -> Erased {
        Erased::I64(self)
    }

    fn try_unerase(e: Erased) -> Result<i64, Erased> {
        match e {
            Erased::I64(v) => Ok(v),
            _ => Err(e),
        }
    }

    fn try_unerase_ref(e: &Erased) -> Option<&i64> {
        match e {
            Erased::I64(v) => Some(v),
            _ => None,
        }
    }

    fn try_unerase_mut(e: &mut Erased) -> Option<&mut i64> {
        match e {
            Erased::I64(v) => Some(v),
            _ => None,
        }
    }
}

} // verus!
