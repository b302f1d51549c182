//! Type-erased handles.
//!
//! A [`StoreHandleUntyped`] pairs a handle's 128-bit identifier with an
//! explicit runtime type tag, so that handles to values of many concrete
//! types can sit in one uniform collection. A typed [`StoreHandle`] is
//! recovered by an explicit, fallible cast that compares the tag carried by
//! the untyped handle against the tag of the requested type.
//!
//! Each storable type opts in by implementing [`TypeTag`], declaring a
//! stable 128-bit tag of its own; two distinct types must never share one.

use crate::StoreHandle;
use crate::fresh_id;
use core::marker::PhantomData;
use vstd::prelude::*;

verus! {

/// A stable 128-bit tag declared by each storable type. The tag is a fixed
/// constant of the type: the same type always yields the same tag, and two
/// distinct types must never share one.
pub trait TypeTag {
    /// The type's tag, at the specification level.
    spec fn spec_tag() -> u128;

    /// The type's tag, as a runtime value.
    fn tag() -> (t: u128)
        ensures
            t == Self::spec_tag(),
    ;
}

/// The tag declared for `bool`.
pub const BOOL_TAG: u128 = 0xc81e_9b4f_2d07_4a66_8f3a_51c2_ae95_0b1d;

/// The tag declared for `i32`.
pub const I32_TAG: u128 = 0x5d42_7a19_c3f8_4b02_9e6d_08b7_1f54_c2a3;

/// The tag declared for `u32`.
pub const U32_TAG: u128 = 0x9f10_33c6_75e2_4d8b_a07c_64f9_b38d_515e;

/// The tag declared for `i64`.
pub const I64_TAG: u128 = 0x24b8_c5d0_0e97_4f31_b6a5_92e1_7c08_d94f;

/// The tag declared for `u64`.
pub const U64_TAG: u128 = 0x71ea_406b_58d3_49fc_8c2b_d75a_03e6_9b82;

/// The tag declared for `String`.
pub const STRING_TAG: u128 = 0xe3a7_12f8_b96c_4075_9d41_2a0e_68fb_c7d6;

impl TypeTag for bool {
    open spec fn spec_tag() -> u128 {
        BOOL_TAG
    }

    fn tag() -> u128 {
        BOOL_TAG
    }
}

impl TypeTag for i32 {
    open spec fn spec_tag() -> u128 {
        I32_TAG
    }

    fn tag() -> u128 {
        I32_TAG
    }
}

impl TypeTag for u32 {
    open spec fn spec_tag() -> u128 {
        U32_TAG
    }

    fn tag() -> u128 {
        U32_TAG
    }
}

impl TypeTag for i64 {
    open spec fn spec_tag() -> u128 {
        I64_TAG
    }

    fn tag() -> u128 {
        I64_TAG
    }
}

impl TypeTag for u64 {
    open spec fn spec_tag() -> u128 {
        U64_TAG
    }

    fn tag() -> u128 {
        U64_TAG
    }
}

impl TypeTag for String {
    open spec fn spec_tag() -> u128 {
        STRING_TAG
    }

    fn tag() -> u128 {
        STRING_TAG
    }
}

/// The library's single error: a forced cast asked for a type whose tag does
/// not match the one the untyped handle carries. Both tags come along for
/// diagnostics: the tag found on the handle and the tag that was asked for.
#[derive(PartialEq, Eq, Structural, Debug, Clone, Copy)]
pub enum StoreError {
    InvalidCast { from: u128, to: u128 },
}

/// An identifier paired with an explicit runtime type tag: the type-erased
/// counterpart of [`StoreHandle`].
#[derive(PartialEq, Eq, Hash, Debug, Clone, Copy)]
pub struct StoreHandleUntyped {
    id: u128,
    type_id: u128,
}

/// The erasure of a typed handle: the same identifier, with `T`'s tag
/// attached.
pub closed spec fn spec_to_untyped<T: TypeTag>(h: StoreHandle<T>) -> StoreHandleUntyped {
    StoreHandleUntyped { id: h@, type_id: T::spec_tag() }
}

/// The recovery of a typed handle from an untyped one: a handle with the
/// same identifier when the tags agree, nothing otherwise.
pub closed spec fn spec_try_typed<T: TypeTag>(u: StoreHandleUntyped) -> Option<StoreHandle<T>> {
    if u.spec_type_id() == T::spec_tag() {
        Some(StoreHandle { id: u.spec_id(), marker: PhantomData })
    } else {
        None
    }
}

/// The forced cast: a handle with the same identifier when the tags agree,
/// otherwise an `InvalidCast` carrying the tag found and the tag asked for.
pub closed spec fn spec_try_from<T: TypeTag>(u: StoreHandleUntyped) -> Result<
    StoreHandle<T>,
    StoreError,
> {
    if u.spec_type_id() == T::spec_tag() {
        Ok(StoreHandle { id: u.spec_id(), marker: PhantomData })
    } else {
        Err(StoreError::InvalidCast { from: u.spec_type_id(), to: T::spec_tag() })
    }
}

impl StoreHandleUntyped {
    /// The identifier, at the specification level.
    pub closed spec fn spec_id(&self) -> u128 {
        self.id
    }

    /// The tag, at the specification level.
    pub closed spec fn spec_type_id(&self) -> u128 {
        self.type_id
    }

    /// The identifier the untyped handle carries.
    pub fn id(&self) -> (r: u128)
        ensures
            r == self.spec_id(),
    {
        self.id
    }

    /// The type tag the untyped handle carries.
    pub fn type_id(&self) -> (r: u128)
        ensures
            r == self.spec_type_id(),
    {
        self.type_id
    }

    /// Makes an untyped handle around a freshly drawn identifier, tagged for
    /// `T`; the untyped counterpart of [`StoreHandle::new`].
    pub fn new<T: TypeTag>() -> (u: Self)
        ensures
            u.spec_type_id() == T::spec_tag(),
    {
        StoreHandleUntyped { id: fresh_id(), type_id: T::tag() }
    }

    /// Recovers a typed handle, keeping the identifier, exactly when the tag
    /// carried here is `T`'s; a tag of another type yields `None`.
    pub fn try_typed<T: TypeTag>(&self) -> (r: Option<StoreHandle<T>>)
        ensures
            r == spec_try_typed::<T>(*self),
            self.spec_type_id() == T::spec_tag() ==> (r matches Some(h) && h@ == self.spec_id()),
            self.spec_type_id() != T::spec_tag() ==> r is None,
    {
        if T::tag() != self.type_id {
            return None;
        }
        Some(StoreHandle { id: self.id, marker: PhantomData })
    }
}

impl<T: TypeTag> StoreHandle<T> {
    /// Erases the handle's compile-time type: copies the identifier and
    /// attaches `T`'s tag. Total; it never fails.
    pub fn to_untyped(&self) -> (u: StoreHandleUntyped)
        ensures
            u == spec_to_untyped::<T>(*self),
            u.spec_id() == self@,
            u.spec_type_id() == T::spec_tag(),
    {
        StoreHandleUntyped { id: self.id(), type_id: T::tag() }
    }

    /// The forced counterpart of [`StoreHandleUntyped::try_typed`]: recovers
    /// a typed handle exactly when the tag matches `T`'s, and otherwise
    /// fails loudly with [`StoreError::InvalidCast`] carrying both tags.
    pub fn try_from(value: StoreHandleUntyped) -> (r: Result<Self, StoreError>)
        ensures
            r == spec_try_from::<T>(value),
            value.spec_type_id() == T::spec_tag() ==> (r matches Ok(h) && h@ == value.spec_id()),
            value.spec_type_id() != T::spec_tag() ==> (r matches Err(e) && e == (StoreError::InvalidCast {
                from: value.spec_type_id(),
                to: T::spec_tag(),
            })),
    {
        if value.type_id != T::tag() {
            return Err(StoreError::InvalidCast { from: value.type_id, to: T::tag() });
        }
        Ok(StoreHandle { id: value.id, marker: PhantomData })
    }
}

impl<T: TypeTag> From<StoreHandle<T>> for StoreHandleUntyped {
    fn from(h: StoreHandle<T>) -> (u: Self) {
        h.to_untyped()
    }
}

impl<T: TypeTag> vstd::std_specs::convert::FromSpecImpl<StoreHandle<T>> for StoreHandleUntyped {
    open spec fn obeys_from_spec() -> bool {
        true
    }

    open spec fn from_spec(h: StoreHandle<T>) -> Self {
        spec_to_untyped::<T>(h)
    }
}

impl<T: TypeTag> TryFrom<StoreHandleUntyped> for StoreHandle<T> {
    type Error = StoreError;

    fn try_from(value: StoreHandleUntyped) -> (r: Result<Self, StoreError>) {
        StoreHandle::try_from(value)
    }
}

impl<T: TypeTag> vstd::std_specs::convert::TryFromSpecImpl<StoreHandleUntyped> for StoreHandle<T> {
    open spec fn obeys_try_from_spec() -> bool {
        true
    }

    open spec fn try_from_spec(v: StoreHandleUntyped) -> Result<Self, StoreError> {
        spec_try_from::<T>(v)
    }
}

/// Round trip: erasing a typed handle and recovering a typed handle from the
/// erasure, at the type the handle had, yields exactly the original handle —
/// identifier included, so the recovered handle resolves to the same entry
/// of the originating store.
pub proof fn lemma_erase_then_try_typed<T: TypeTag>(h: StoreHandle<T>)
    ensures
        spec_to_untyped::<T>(h).spec_id() == h@,
        spec_to_untyped::<T>(h).spec_type_id() == T::spec_tag(),
        spec_try_typed::<T>(spec_to_untyped::<T>(h)) == Some(h),
{
}

/// Round trip through the forced cast: erasing a typed handle and forcing
/// the erasure back to the type the handle had succeeds, with exactly the
/// original handle.
pub proof fn lemma_erase_then_try_from<T: TypeTag>(h: StoreHandle<T>)
    ensures
        spec_try_from::<T>(spec_to_untyped::<T>(h)) == Ok::<StoreHandle<T>, StoreError>(h),
{
}

/// A cast to a type whose tag differs from the one the untyped handle
/// carries recovers nothing; the forced form fails with `InvalidCast`
/// carrying the tag found on the handle and the tag that was asked for.
pub proof fn lemma_cast_wrong_tag<T: TypeTag>(u: StoreHandleUntyped)
    requires
        u.spec_type_id() != T::spec_tag(),
    ensures
        spec_try_typed::<T>(u) is None,
        spec_try_from::<T>(u) matches Err(e) && e == (StoreError::InvalidCast {
            from: u.spec_type_id(),
            to: T::spec_tag(),
        }),
{
}

} // verus!
