//! A structure for bundling axis-specific information: six values, one for each signed axis.
use vstd::prelude::*;
use vstd::std_specs::ops::{
    AddSpec, BitAndSpec, BitOrSpec, BitXorSpec, DivSpec, MulSpec, RemSpec, ShlSpec, ShrSpec, SubSpec,
};

use core::mem::MaybeUninit;
use vstd::std_specs::maybe_uninit::MaybeUninitAdditionalSpecFns;

use crate::axis::SignedAxis;
use crate::index::{AxisIndex, SignedAxisIndex};

verus! {

/// A set of six `T` corresponding to axes
#[derive(Debug, Clone, Copy, PartialEq, Eq, PartialOrd, Ord, Hash)]
pub struct SignedAxisSet<T> {
    /// Corresponds to [`SignedAxis::XPos`] or [`Axis::X`](crate::Axis::X)
    pub pos_x: T,
    /// Corresponds to [`SignedAxis::XNeg`]
    pub neg_x: T,
    /// Corresponds to [`SignedAxis::YPos`] or [`Axis::Y`](crate::Axis::Y)
    pub pos_y: T,
    /// Corresponds to [`SignedAxis::YNeg`]
    pub neg_y: T,
    /// Corresponds to [`SignedAxis::ZPos`] or [`Axis::Z`](crate::Axis::Z)
    pub pos_z: T,
    /// Corresponds to [`SignedAxis::ZNeg`]
    pub neg_z: T,
}

impl SignedAxisSet<SignedAxis> {
    /// All the axes that each element corresponds with.
    #[allow(non_snake_case)]
    pub fn AXES() -> (r: SignedAxisSet<SignedAxis>)
        ensures
            forall|a: SignedAxis| #[trigger] r.spec_get(a) == a,
    {
        SignedAxisSet {
            pos_x: SignedAxis::XPos,
            neg_x: SignedAxis::XNeg,
            pos_y: SignedAxis::YPos,
            neg_y: SignedAxis::YNeg,
            pos_z: SignedAxis::ZPos,
            neg_z: SignedAxis::ZNeg,
        }
    }
}

impl<T> SignedAxisSet<T> {
    /// The element for an axis.
    pub open spec fn spec_get(self, axis: SignedAxis) -> T {
        match axis {
            SignedAxis::XPos => self.pos_x,
            SignedAxis::XNeg => self.neg_x,
            SignedAxis::YPos => self.pos_y,
            SignedAxis::YNeg => self.neg_y,
            SignedAxis::ZPos => self.pos_z,
            SignedAxis::ZNeg => self.neg_z,
        }
    }

    /// The element for each axis, field by field.
    pub proof fn lemma_fields(self)
        ensures
            self.spec_get(SignedAxis::XPos) == self.pos_x,
            self.spec_get(SignedAxis::XNeg) == self.neg_x,
            self.spec_get(SignedAxis::YPos) == self.pos_y,
            self.spec_get(SignedAxis::YNeg) == self.neg_y,
            self.spec_get(SignedAxis::ZPos) == self.pos_z,
            self.spec_get(SignedAxis::ZNeg) == self.neg_z,
    {
    }

    /// Fill in all the fields with a single value.
    pub fn splat(value: T) -> (r: Self)
        where
            T: Copy,
        ensures
            r == (SignedAxisSet {
                pos_x: value,
                neg_x: value,
                pos_y: value,
                neg_y: value,
                pos_z: value,
                neg_z: value,
            }),
            forall|a: SignedAxis| #[trigger] r.spec_get(a) == value,
    {
        Self {
            pos_x: value,
            neg_x: value,
            pos_y: value,
            neg_y: value,
            pos_z: value,
            neg_z: value,
        }
    }

    /// Fill in all the fields with the result of a function call.
    ///
    /// The order in which the function is called is undefined.
    pub fn splat_with(mut f: impl FnMut(SignedAxis) -> T) -> (r: Self)
        requires
            forall|a: SignedAxis| f.requires((a,)),
        ensures
            forall|a: SignedAxis| f.ensures((a,), #[trigger] r.spec_get(a)),
    {
        Self {
            pos_x: f(SignedAxis::XPos),
            neg_x: f(SignedAxis::XNeg),
            pos_y: f(SignedAxis::YPos),
            neg_y: f(SignedAxis::YNeg),
            pos_z: f(SignedAxis::ZPos),
            neg_z: f(SignedAxis::ZNeg),
        }
    }

    /// Get a reference to each element
    pub fn as_ref(&self) -> (r: SignedAxisSet<&T>)
        ensures
            forall|a: SignedAxis| *#[trigger] r.spec_get(a) == self.spec_get(a),
    {
        SignedAxisSet {
            pos_x: &self.pos_x,
            neg_x: &self.neg_x,
            pos_y: &self.pos_y,
            neg_y: &self.neg_y,
            pos_z: &self.pos_z,
            neg_z: &self.neg_z,
        }
    }

    /// Get a mutable reference to each element
    pub fn as_mut(&mut self) -> (r: SignedAxisSet<&mut T>)
        ensures
            forall|a: SignedAxis| *#[trigger] r.spec_get(a) == old(self).spec_get(a),
            final(self).pos_x == *final(r.pos_x),
            final(self).neg_x == *final(r.neg_x),
            final(self).pos_y == *final(r.pos_y),
            final(self).neg_y == *final(r.neg_y),
            final(self).pos_z == *final(r.pos_z),
            final(self).neg_z == *final(r.neg_z),
    {
        SignedAxisSet {
            pos_x: &mut self.pos_x,
            neg_x: &mut self.neg_x,
            pos_y: &mut self.pos_y,
            neg_y: &mut self.neg_y,
            pos_z: &mut self.pos_z,
            neg_z: &mut self.neg_z,
        }
    }

    /// Bundle the contents of this set and another into a single set
    pub fn zip<U>(self, rhs: SignedAxisSet<U>) -> (r: SignedAxisSet<(T, U)>)
        ensures
            forall|a: SignedAxis| #[trigger] r.spec_get(a) == (self.spec_get(a), rhs.spec_get(a)),
    {
        SignedAxisSet {
            pos_x: (self.pos_x, rhs.pos_x),
            neg_x: (self.neg_x, rhs.neg_x),
            pos_y: (self.pos_y, rhs.pos_y),
            neg_y: (self.neg_y, rhs.neg_y),
            pos_z: (self.pos_z, rhs.pos_z),
            neg_z: (self.neg_z, rhs.neg_z),
        }
    }

    /// Convert the members of this set into members of another set.
    ///
    /// The order in which the function is called is undefined. Rely on the index enum provided.
    pub fn map<U>(self, mut f: impl FnMut(SignedAxis, T) -> U) -> (r: SignedAxisSet<U>)
        requires
            forall|a: SignedAxis| f.requires((a, #[trigger] self.spec_get(a))),
        ensures
            forall|a: SignedAxis| f.ensures((a, self.spec_get(a)), #[trigger] r.spec_get(a)),
    {
        proof {
            self.lemma_fields();
        }
        SignedAxisSet {
            pos_x: f(SignedAxis::XPos, self.pos_x),
            neg_x: f(SignedAxis::XNeg, self.neg_x),
            pos_y: f(SignedAxis::YPos, self.pos_y),
            neg_y: f(SignedAxis::YNeg, self.neg_y),
            pos_z: f(SignedAxis::ZPos, self.pos_z),
            neg_z: f(SignedAxis::ZNeg, self.neg_z),
        }
    }

    /// Call a function for each element.
    ///
    /// The order in which the function is called is undefined. Rely on the index enum provided.
    pub fn for_each(self, mut f: impl FnMut(SignedAxis, T))
        requires
            forall|a: SignedAxis| f.requires((a, #[trigger] self.spec_get(a))),
        ensures
            forall|a: SignedAxis| f.ensures((a, #[trigger] self.spec_get(a)), ()),
    {
        proof {
            self.lemma_fields();
        }
        f(SignedAxis::XPos, self.pos_x);
        f(SignedAxis::XNeg, self.neg_x);
        f(SignedAxis::YPos, self.pos_y);
        f(SignedAxis::YNeg, self.neg_y);
        f(SignedAxis::ZPos, self.pos_z);
        f(SignedAxis::ZNeg, self.neg_z);
    }

    /// Call a function for each element ref.
    ///
    /// The order in which the function is called is undefined. Rely on the index enum provided.
    pub fn for_each_ref(&self, mut f: impl FnMut(SignedAxis, &T))
        requires
            forall|a: SignedAxis| f.requires((a, &#[trigger] self.spec_get(a))),
        ensures
            forall|a: SignedAxis| f.ensures((a, &#[trigger] self.spec_get(a)), ()),
    {
        proof {
            self.lemma_fields();
        }
        f(SignedAxis::XPos, &self.pos_x);
        f(SignedAxis::XNeg, &self.neg_x);
        f(SignedAxis::YPos, &self.pos_y);
        f(SignedAxis::YNeg, &self.neg_y);
        f(SignedAxis::ZPos, &self.pos_z);
        f(SignedAxis::ZNeg, &self.neg_z);
    }

    /// Call a function for each element, potentially mutating it.
    pub fn for_each_mut(&mut self, mut f: impl FnMut(SignedAxis, &mut T))
        requires
            forall|a: SignedAxis, t: &mut T|
                #![trigger f.requires((a, t))]
                *t == old(self).spec_get(a) ==> f.requires((a, t)),
        ensures
            forall|a: SignedAxis|
                exists|t: &mut T|
                    *t == #[trigger] old(self).spec_get(a) && *final(t) == final(self).spec_get(a)
                        && f.ensures((a, t), ()),
    {
        f(SignedAxis::XPos, &mut self.pos_x);
        f(SignedAxis::XNeg, &mut self.neg_x);
        f(SignedAxis::YPos, &mut self.pos_y);
        f(SignedAxis::YNeg, &mut self.neg_y);
        f(SignedAxis::ZPos, &mut self.pos_z);
        f(SignedAxis::ZNeg, &mut self.neg_z);
    }

    /// Returns an array of mutable references,
    /// where each index is directly mapped to its corresponding [`SignedAxis`].
    pub fn as_mut_array(&mut self) -> (r: [&mut T; 6])
        ensures
            forall|a: SignedAxis| *#[trigger] r@[a.spec_index() as int] == old(self).spec_get(a),
            forall|a: SignedAxis|
                *final(#[trigger] r@[a.spec_index() as int]) == final(self).spec_get(a),
    {
        [&mut self.pos_x, &mut self.pos_y, &mut self.pos_z, &mut self.neg_x, &mut self.neg_y, &mut self.neg_z]
    }

    /// Call a fallible function for each element, stopping at the first error.
    ///
    /// The order in which the function is called is undefined. Rely on the index enum provided.
    pub fn try_for_each<E>(&self, mut f: impl FnMut(SignedAxis, &T) -> Result<(), E>) -> (r: Result<(), E>)
        requires
            forall|a: SignedAxis| f.requires((a, &#[trigger] self.spec_get(a))),
        ensures
            r is Ok ==> forall|a: SignedAxis| f.ensures((a, &#[trigger] self.spec_get(a)), Ok(())),
            r matches Err(e) ==> exists|a: SignedAxis| f.ensures((a, &#[trigger] self.spec_get(a)), Err(e)),
    {
        proof {
            self.lemma_fields();
        }
        f(SignedAxis::XPos, &self.pos_x)?;
        f(SignedAxis::XNeg, &self.neg_x)?;
        f(SignedAxis::YPos, &self.pos_y)?;
        f(SignedAxis::YNeg, &self.neg_y)?;
        f(SignedAxis::ZPos, &self.pos_z)?;
        f(SignedAxis::ZNeg, &self.neg_z)?;
        Ok(())
    }

    /// Returns an array of references,
    /// where each index is directly mapped to its corresponding [`SignedAxis`].
    pub fn as_ref_array(&self) -> (r: [&T; 6])
        ensures
            r@ == seq![&self.pos_x, &self.pos_y, &self.pos_z, &self.neg_x, &self.neg_y, &self.neg_z],
            forall|a: SignedAxis| *#[trigger] r@[a.spec_index() as int] == self.spec_get(a),
    {
        [&self.pos_x, &self.pos_y, &self.pos_z, &self.neg_x, &self.neg_y, &self.neg_z]
    }

    /// Consumes the set, returning an array
    /// where each index is directly mapped to its corresponding [`SignedAxis`].
    pub fn into_array(self) -> (r: [T; 6])
        ensures
            r@ == seq![self.pos_x, self.pos_y, self.pos_z, self.neg_x, self.neg_y, self.neg_z],
            forall|a: SignedAxis| #[trigger] r@[a.spec_index() as int] == self.spec_get(a),
    {
        [self.pos_x, self.pos_y, self.pos_z, self.neg_x, self.neg_y, self.neg_z]
    }

    /// Create a set where each element is converted into [`Option::Some`]
    pub fn into_optional(self) -> (r: SignedAxisSet<Option<T>>)
        ensures
            forall|a: SignedAxis| #[trigger] r.spec_get(a) == Some(self.spec_get(a)),
    {
        self.map(|_a: SignedAxis, s: T| -> (o: Option<T>) ensures o == Some(s) { Some(s) })
    }
}

impl<T> SignedAxisSet<MaybeUninit<T>> {
    /// 6x [`MaybeUninit::uninit`]
    pub fn uninit() -> (r: Self)
        ensures
            forall|a: SignedAxis| #[trigger] r.spec_get(a).as_option() is None,
    {
        Self {
            pos_x: MaybeUninit::uninit(),
            neg_x: MaybeUninit::uninit(),
            pos_y: MaybeUninit::uninit(),
            neg_y: MaybeUninit::uninit(),
            pos_z: MaybeUninit::uninit(),
            neg_z: MaybeUninit::uninit(),
        }
    }

    /// 6x [`MaybeUninit::new`]
    pub fn new(values: SignedAxisSet<T>) -> (r: Self)
        ensures
            forall|a: SignedAxis| #[trigger] r.spec_get(a).as_option() == Some(values.spec_get(a)),
    {
        values.map(|_a: SignedAxis, n: T| -> (o: MaybeUninit<T>) ensures o.as_option() == Some(n) { MaybeUninit::new(n) })
    }
}

impl<T> SignedAxisSet<Option<T>> {
    /// Take the value out of the selected option, leaving behind `None`
    pub fn take(&mut self, axis: SignedAxis) -> (r: Option<T>)
        ensures
            r == old(self).spec_get(axis),
            final(self).spec_get(axis) is None,
            forall|a: SignedAxis| a != axis ==> #[trigger] final(self).spec_get(a) == old(self).spec_get(a),
    {
        match axis {
            SignedAxis::XNeg => self.neg_x.take(),
            SignedAxis::XPos => self.pos_x.take(),
            SignedAxis::YNeg => self.neg_y.take(),
            SignedAxis::YPos => self.pos_y.take(),
            SignedAxis::ZNeg => self.neg_z.take(),
            SignedAxis::ZPos => self.pos_z.take(),
        }
    }
}

impl<T: core::ops::Add<U>, U> core::ops::Add<SignedAxisSet<U>> for SignedAxisSet<T> {
    type Output = SignedAxisSet<T::Output>;

    fn add(self, rhs: SignedAxisSet<U>) -> (r: Self::Output) {
        let zipped = self.zip(rhs);
        proof {
            zipped.lemma_fields();
        }
        let r = zipped.map(
            (|_a: SignedAxis, p: (T, U)| -> (o: T::Output)
                requires
                    p.0.add_req(p.1),
                ensures
                    <T as AddSpec<U>>::obeys_add_spec() ==> o == p.0.add_spec(p.1),
                { p.0.add(p.1) }),
        );
        proof {
            r.lemma_fields();
        }
        r
    }
}

impl<T: core::ops::Add<U>, U> vstd::std_specs::ops::AddSpecImpl<SignedAxisSet<U>> for SignedAxisSet<T> {
    open spec fn obeys_add_spec() -> bool {
        <T as AddSpec<U>>::obeys_add_spec()
    }

    open spec fn add_req(self, rhs: SignedAxisSet<U>) -> bool {
        &&& self.pos_x.add_req(rhs.pos_x)
        &&& self.neg_x.add_req(rhs.neg_x)
        &&& self.pos_y.add_req(rhs.pos_y)
        &&& self.neg_y.add_req(rhs.neg_y)
        &&& self.pos_z.add_req(rhs.pos_z)
        &&& self.neg_z.add_req(rhs.neg_z)
    }

    open spec fn add_spec(self, rhs: SignedAxisSet<U>) -> Self::Output {
        SignedAxisSet {
            pos_x: self.pos_x.add_spec(rhs.pos_x),
            neg_x: self.neg_x.add_spec(rhs.neg_x),
            pos_y: self.pos_y.add_spec(rhs.pos_y),
            neg_y: self.neg_y.add_spec(rhs.neg_y),
            pos_z: self.pos_z.add_spec(rhs.pos_z),
            neg_z: self.neg_z.add_spec(rhs.neg_z),
        }
    }
}

impl<T: core::ops::Sub<U>, U> core::ops::Sub<SignedAxisSet<U>> for SignedAxisSet<T> {
    type Output = SignedAxisSet<T::Output>;

    fn sub(self, rhs: SignedAxisSet<U>) -> (r: Self::Output) {
        let zipped = self.zip(rhs);
        proof {
            zipped.lemma_fields();
        }
        let r = zipped.map(
            (|_a: SignedAxis, p: (T, U)| -> (o: T::Output)
                requires
                    p.0.sub_req(p.1),
                ensures
                    <T as SubSpec<U>>::obeys_sub_spec() ==> o == p.0.sub_spec(p.1),
                { p.0.sub(p.1) }),
        );
        proof {
            r.lemma_fields();
        }
        r
    }
}

impl<T: core::ops::Sub<U>, U> vstd::std_specs::ops::SubSpecImpl<SignedAxisSet<U>> for SignedAxisSet<T> {
    open spec fn obeys_sub_spec() -> bool {
        <T as SubSpec<U>>::obeys_sub_spec()
    }

    open spec fn sub_req(self, rhs: SignedAxisSet<U>) -> bool {
        &&& self.pos_x.sub_req(rhs.pos_x)
        &&& self.neg_x.sub_req(rhs.neg_x)
        &&& self.pos_y.sub_req(rhs.pos_y)
        &&& self.neg_y.sub_req(rhs.neg_y)
        &&& self.pos_z.sub_req(rhs.pos_z)
        &&& self.neg_z.sub_req(rhs.neg_z)
    }

    open spec fn sub_spec(self, rhs: SignedAxisSet<U>) -> Self::Output {
        SignedAxisSet {
            pos_x: self.pos_x.sub_spec(rhs.pos_x),
            neg_x: self.neg_x.sub_spec(rhs.neg_x),
            pos_y: self.pos_y.sub_spec(rhs.pos_y),
            neg_y: self.neg_y.sub_spec(rhs.neg_y),
            pos_z: self.pos_z.sub_spec(rhs.pos_z),
            neg_z: self.neg_z.sub_spec(rhs.neg_z),
        }
    }
}

impl<T: core::ops::Mul<U>, U> core::ops::Mul<SignedAxisSet<U>> for SignedAxisSet<T> {
    type Output = SignedAxisSet<T::Output>;

    fn mul(self, rhs: SignedAxisSet<U>) -> (r: Self::Output) {
        let zipped = self.zip(rhs);
        proof {
            zipped.lemma_fields();
        }
        let r = zipped.map(
            (|_a: SignedAxis, p: (T, U)| -> (o: T::Output)
                requires
                    p.0.mul_req(p.1),
                ensures
                    <T as MulSpec<U>>::obeys_mul_spec() ==> o == p.0.mul_spec(p.1),
                { p.0.mul(p.1) }),
        );
        proof {
            r.lemma_fields();
        }
        r
    }
}

impl<T: core::ops::Mul<U>, U> vstd::std_specs::ops::MulSpecImpl<SignedAxisSet<U>> for SignedAxisSet<T> {
    open spec fn obeys_mul_spec() -> bool {
        <T as MulSpec<U>>::obeys_mul_spec()
    }

    open spec fn mul_req(self, rhs: SignedAxisSet<U>) -> bool {
        &&& self.pos_x.mul_req(rhs.pos_x)
        &&& self.neg_x.mul_req(rhs.neg_x)
        &&& self.pos_y.mul_req(rhs.pos_y)
        &&& self.neg_y.mul_req(rhs.neg_y)
        &&& self.pos_z.mul_req(rhs.pos_z)
        &&& self.neg_z.mul_req(rhs.neg_z)
    }

    open spec fn mul_spec(self, rhs: SignedAxisSet<U>) -> Self::Output {
        SignedAxisSet {
            pos_x: self.pos_x.mul_spec(rhs.pos_x),
            neg_x: self.neg_x.mul_spec(rhs.neg_x),
            pos_y: self.pos_y.mul_spec(rhs.pos_y),
            neg_y: self.neg_y.mul_spec(rhs.neg_y),
            pos_z: self.pos_z.mul_spec(rhs.pos_z),
            neg_z: self.neg_z.mul_spec(rhs.neg_z),
        }
    }
}

impl<T: core::ops::Div<U>, U> core::ops::Div<SignedAxisSet<U>> for SignedAxisSet<T> {
    type Output = SignedAxisSet<T::Output>;

    fn div(self, rhs: SignedAxisSet<U>) -> (r: Self::Output) {
        let zipped = self.zip(rhs);
        proof {
            zipped.lemma_fields();
        }
        let r = zipped.map(
            (|_a: SignedAxis, p: (T, U)| -> (o: T::Output)
                requires
                    p.0.div_req(p.1),
                ensures
                    <T as DivSpec<U>>::obeys_div_spec() ==> o == p.0.div_spec(p.1),
                { p.0.div(p.1) }),
        );
        proof {
            r.lemma_fields();
        }
        r
    }
}

impl<T: core::ops::Div<U>, U> vstd::std_specs::ops::DivSpecImpl<SignedAxisSet<U>> for SignedAxisSet<T> {
    open spec fn obeys_div_spec() -> bool {
        <T as DivSpec<U>>::obeys_div_spec()
    }

    open spec fn div_req(self, rhs: SignedAxisSet<U>) -> bool {
        &&& self.pos_x.div_req(rhs.pos_x)
        &&& self.neg_x.div_req(rhs.neg_x)
        &&& self.pos_y.div_req(rhs.pos_y)
        &&& self.neg_y.div_req(rhs.neg_y)
        &&& self.pos_z.div_req(rhs.pos_z)
        &&& self.neg_z.div_req(rhs.neg_z)
    }

    open spec fn div_spec(self, rhs: SignedAxisSet<U>) -> Self::Output {
        SignedAxisSet {
            pos_x: self.pos_x.div_spec(rhs.pos_x),
            neg_x: self.neg_x.div_spec(rhs.neg_x),
            pos_y: self.pos_y.div_spec(rhs.pos_y),
            neg_y: self.neg_y.div_spec(rhs.neg_y),
            pos_z: self.pos_z.div_spec(rhs.pos_z),
            neg_z: self.neg_z.div_spec(rhs.neg_z),
        }
    }
}

impl<T: core::ops::Rem<U>, U> core::ops::Rem<SignedAxisSet<U>> for SignedAxisSet<T> {
    type Output = SignedAxisSet<T::Output>;

    fn rem(self, rhs: SignedAxisSet<U>) -> (r: Self::Output) {
        let zipped = self.zip(rhs);
        proof {
            zipped.lemma_fields();
        }
        let r = zipped.map(
            (|_a: SignedAxis, p: (T, U)| -> (o: T::Output)
                requires
                    p.0.rem_req(p.1),
                ensures
                    <T as RemSpec<U>>::obeys_rem_spec() ==> o == p.0.rem_spec(p.1),
                { p.0.rem(p.1) }),
        );
        proof {
            r.lemma_fields();
        }
        r
    }
}

impl<T: core::ops::Rem<U>, U> vstd::std_specs::ops::RemSpecImpl<SignedAxisSet<U>> for SignedAxisSet<T> {
    open spec fn obeys_rem_spec() -> bool {
        <T as RemSpec<U>>::obeys_rem_spec()
    }

    open spec fn rem_req(self, rhs: SignedAxisSet<U>) -> bool {
        &&& self.pos_x.rem_req(rhs.pos_x)
        &&& self.neg_x.rem_req(rhs.neg_x)
        &&& self.pos_y.rem_req(rhs.pos_y)
        &&& self.neg_y.rem_req(rhs.neg_y)
        &&& self.pos_z.rem_req(rhs.pos_z)
        &&& self.neg_z.rem_req(rhs.neg_z)
    }

    open spec fn rem_spec(self, rhs: SignedAxisSet<U>) -> Self::Output {
        SignedAxisSet {
            pos_x: self.pos_x.rem_spec(rhs.pos_x),
            neg_x: self.neg_x.rem_spec(rhs.neg_x),
            pos_y: self.pos_y.rem_spec(rhs.pos_y),
            neg_y: self.neg_y.rem_spec(rhs.neg_y),
            pos_z: self.pos_z.rem_spec(rhs.pos_z),
            neg_z: self.neg_z.rem_spec(rhs.neg_z),
        }
    }
}

impl<T: core::ops::BitAnd<U>, U> core::ops::BitAnd<SignedAxisSet<U>> for SignedAxisSet<T> {
    type Output = SignedAxisSet<T::Output>;

    fn bitand(self, rhs: SignedAxisSet<U>) -> (r: Self::Output) {
        let zipped = self.zip(rhs);
        proof {
            zipped.lemma_fields();
        }
        let r = zipped.map(
            (|_a: SignedAxis, p: (T, U)| -> (o: T::Output)
                requires
                    p.0.bitand_req(p.1),
                ensures
                    <T as BitAndSpec<U>>::obeys_bitand_spec() ==> o == p.0.bitand_spec(p.1),
                { p.0.bitand(p.1) }),
        );
        proof {
            r.lemma_fields();
        }
        r
    }
}

impl<T: core::ops::BitAnd<U>, U> vstd::std_specs::ops::BitAndSpecImpl<SignedAxisSet<U>> for SignedAxisSet<T> {
    open spec fn obeys_bitand_spec() -> bool {
        <T as BitAndSpec<U>>::obeys_bitand_spec()
    }

    open spec fn bitand_req(self, rhs: SignedAxisSet<U>) -> bool {
        &&& self.pos_x.bitand_req(rhs.pos_x)
        &&& self.neg_x.bitand_req(rhs.neg_x)
        &&& self.pos_y.bitand_req(rhs.pos_y)
        &&& self.neg_y.bitand_req(rhs.neg_y)
        &&& self.pos_z.bitand_req(rhs.pos_z)
        &&& self.neg_z.bitand_req(rhs.neg_z)
    }

    open spec fn bitand_spec(self, rhs: SignedAxisSet<U>) -> Self::Output {
        SignedAxisSet {
            pos_x: self.pos_x.bitand_spec(rhs.pos_x),
            neg_x: self.neg_x.bitand_spec(rhs.neg_x),
            pos_y: self.pos_y.bitand_spec(rhs.pos_y),
            neg_y: self.neg_y.bitand_spec(rhs.neg_y),
            pos_z: self.pos_z.bitand_spec(rhs.pos_z),
            neg_z: self.neg_z.bitand_spec(rhs.neg_z),
        }
    }
}

impl<T: core::ops::BitOr<U>, U> core::ops::BitOr<SignedAxisSet<U>> for SignedAxisSet<T> {
    type Output = SignedAxisSet<T::Output>;

    fn bitor(self, rhs: SignedAxisSet<U>) -> (r: Self::Output) {
        let zipped = self.zip(rhs);
        proof {
            zipped.lemma_fields();
        }
        let r = zipped.map(
            (|_a: SignedAxis, p: (T, U)| -> (o: T::Output)
                requires
                    p.0.bitor_req(p.1),
                ensures
                    <T as BitOrSpec<U>>::obeys_bitor_spec() ==> o == p.0.bitor_spec(p.1),
                { p.0.bitor(p.1) }),
        );
        proof {
            r.lemma_fields();
        }
        r
    }
}

impl<T: core::ops::BitOr<U>, U> vstd::std_specs::ops::BitOrSpecImpl<SignedAxisSet<U>> for SignedAxisSet<T> {
    open spec fn obeys_bitor_spec() -> bool {
        <T as BitOrSpec<U>>::obeys_bitor_spec()
    }

    open spec fn bitor_req(self, rhs: SignedAxisSet<U>) -> bool {
        &&& self.pos_x.bitor_req(rhs.pos_x)
        &&& self.neg_x.bitor_req(rhs.neg_x)
        &&& self.pos_y.bitor_req(rhs.pos_y)
        &&& self.neg_y.bitor_req(rhs.neg_y)
        &&& self.pos_z.bitor_req(rhs.pos_z)
        &&& self.neg_z.bitor_req(rhs.neg_z)
    }

    open spec fn bitor_spec(self, rhs: SignedAxisSet<U>) -> Self::Output {
        SignedAxisSet {
            pos_x: self.pos_x.bitor_spec(rhs.pos_x),
            neg_x: self.neg_x.bitor_spec(rhs.neg_x),
            pos_y: self.pos_y.bitor_spec(rhs.pos_y),
            neg_y: self.neg_y.bitor_spec(rhs.neg_y),
            pos_z: self.pos_z.bitor_spec(rhs.pos_z),
            neg_z: self.neg_z.bitor_spec(rhs.neg_z),
        }
    }
}

impl<T: core::ops::BitXor<U>, U> core::ops::BitXor<SignedAxisSet<U>> for SignedAxisSet<T> {
    type Output = SignedAxisSet<T::Output>;

    fn bitxor(self, rhs: SignedAxisSet<U>) -> (r: Self::Output) {
        let zipped = self.zip(rhs);
        proof {
            zipped.lemma_fields();
        }
        let r = zipped.map(
            (|_a: SignedAxis, p: (T, U)| -> (o: T::Output)
                requires
                    p.0.bitxor_req(p.1),
                ensures
                    <T as BitXorSpec<U>>::obeys_bitxor_spec() ==> o == p.0.bitxor_spec(p.1),
                { p.0.bitxor(p.1) }),
        );
        proof {
            r.lemma_fields();
        }
        r
    }
}

impl<T: core::ops::BitXor<U>, U> vstd::std_specs::ops::BitXorSpecImpl<SignedAxisSet<U>> for SignedAxisSet<T> {
    open spec fn obeys_bitxor_spec() -> bool {
        <T as BitXorSpec<U>>::obeys_bitxor_spec()
    }

    open spec fn bitxor_req(self, rhs: SignedAxisSet<U>) -> bool {
        &&& self.pos_x.bitxor_req(rhs.pos_x)
        &&& self.neg_x.bitxor_req(rhs.neg_x)
        &&& self.pos_y.bitxor_req(rhs.pos_y)
        &&& self.neg_y.bitxor_req(rhs.neg_y)
        &&& self.pos_z.bitxor_req(rhs.pos_z)
        &&& self.neg_z.bitxor_req(rhs.neg_z)
    }

    open spec fn bitxor_spec(self, rhs: SignedAxisSet<U>) -> Self::Output {
        SignedAxisSet {
            pos_x: self.pos_x.bitxor_spec(rhs.pos_x),
            neg_x: self.neg_x.bitxor_spec(rhs.neg_x),
            pos_y: self.pos_y.bitxor_spec(rhs.pos_y),
            neg_y: self.neg_y.bitxor_spec(rhs.neg_y),
            pos_z: self.pos_z.bitxor_spec(rhs.pos_z),
            neg_z: self.neg_z.bitxor_spec(rhs.neg_z),
        }
    }
}

impl<T: core::ops::Shl<U>, U> core::ops::Shl<SignedAxisSet<U>> for SignedAxisSet<T> {
    type Output = SignedAxisSet<T::Output>;

    fn shl(self, rhs: SignedAxisSet<U>) -> (r: Self::Output) {
        let zipped = self.zip(rhs);
        proof {
            zipped.lemma_fields();
        }
        let r = zipped.map(
            (|_a: SignedAxis, p: (T, U)| -> (o: T::Output)
                requires
                    p.0.shl_req(p.1),
                ensures
                    <T as ShlSpec<U>>::obeys_shl_spec() ==> o == p.0.shl_spec(p.1),
                { p.0.shl(p.1) }),
        );
        proof {
            r.lemma_fields();
        }
        r
    }
}

impl<T: core::ops::Shl<U>, U> vstd::std_specs::ops::ShlSpecImpl<SignedAxisSet<U>> for SignedAxisSet<T> {
    open spec fn obeys_shl_spec() -> bool {
        <T as ShlSpec<U>>::obeys_shl_spec()
    }

    open spec fn shl_req(self, rhs: SignedAxisSet<U>) -> bool {
        &&& self.pos_x.shl_req(rhs.pos_x)
        &&& self.neg_x.shl_req(rhs.neg_x)
        &&& self.pos_y.shl_req(rhs.pos_y)
        &&& self.neg_y.shl_req(rhs.neg_y)
        &&& self.pos_z.shl_req(rhs.pos_z)
        &&& self.neg_z.shl_req(rhs.neg_z)
    }

    open spec fn shl_spec(self, rhs: SignedAxisSet<U>) -> Self::Output {
        SignedAxisSet {
            pos_x: self.pos_x.shl_spec(rhs.pos_x),
            neg_x: self.neg_x.shl_spec(rhs.neg_x),
            pos_y: self.pos_y.shl_spec(rhs.pos_y),
            neg_y: self.neg_y.shl_spec(rhs.neg_y),
            pos_z: self.pos_z.shl_spec(rhs.pos_z),
            neg_z: self.neg_z.shl_spec(rhs.neg_z),
        }
    }
}

impl<T: core::ops::Shr<U>, U> core::ops::Shr<SignedAxisSet<U>> for SignedAxisSet<T> {
    type Output = SignedAxisSet<T::Output>;

    fn shr(self, rhs: SignedAxisSet<U>) -> (r: Self::Output) {
        let zipped = self.zip(rhs);
        proof {
            zipped.lemma_fields();
        }
        let r = zipped.map(
            (|_a: SignedAxis, p: (T, U)| -> (o: T::Output)
                requires
                    p.0.shr_req(p.1),
                ensures
                    <T as ShrSpec<U>>::obeys_shr_spec() ==> o == p.0.shr_spec(p.1),
                { p.0.shr(p.1) }),
        );
        proof {
            r.lemma_fields();
        }
        r
    }
}

impl<T: core::ops::Shr<U>, U> vstd::std_specs::ops::ShrSpecImpl<SignedAxisSet<U>> for SignedAxisSet<T> {
    open spec fn obeys_shr_spec() -> bool {
        <T as ShrSpec<U>>::obeys_shr_spec()
    }

    open spec fn shr_req(self, rhs: SignedAxisSet<U>) -> bool {
        &&& self.pos_x.shr_req(rhs.pos_x)
        &&& self.neg_x.shr_req(rhs.neg_x)
        &&& self.pos_y.shr_req(rhs.pos_y)
        &&& self.neg_y.shr_req(rhs.neg_y)
        &&& self.pos_z.shr_req(rhs.pos_z)
        &&& self.neg_z.shr_req(rhs.neg_z)
    }

    open spec fn shr_spec(self, rhs: SignedAxisSet<U>) -> Self::Output {
        SignedAxisSet {
            pos_x: self.pos_x.shr_spec(rhs.pos_x),
            neg_x: self.neg_x.shr_spec(rhs.neg_x),
            pos_y: self.pos_y.shr_spec(rhs.pos_y),
            neg_y: self.neg_y.shr_spec(rhs.neg_y),
            pos_z: self.pos_z.shr_spec(rhs.pos_z),
            neg_z: self.neg_z.shr_spec(rhs.neg_z),
        }
    }
}

/// Calls `f` on one element, in place.
fn apply_to_element<A, B, F: FnOnce(&mut A, B)>(f: F, lhs: &mut A, rhs: B)
    requires
        forall|m: &mut A| f.requires((m, rhs)),
    ensures
        exists|m: &mut A| *m == *old(lhs) && *final(m) == *final(lhs) && f.ensures((m, rhs), ()),
{
    f(lhs, rhs)
}

impl<T: Copy + core::ops::Add<U, Output = T>, U> core::ops::AddAssign<SignedAxisSet<U>> for SignedAxisSet<T> {
    /// Adds element by element, as `*self = *self + rhs` does.
    fn add_assign(&mut self, rhs: SignedAxisSet<U>)
        requires
            old(self).add_req(rhs),
        ensures
            <T as AddSpec<U>>::obeys_add_spec() ==> *final(self) == old(self).add_spec(rhs),
    {
        self.pos_x = self.pos_x.add(rhs.pos_x);
        self.neg_x = self.neg_x.add(rhs.neg_x);
        self.pos_y = self.pos_y.add(rhs.pos_y);
        self.neg_y = self.neg_y.add(rhs.neg_y);
        self.pos_z = self.pos_z.add(rhs.pos_z);
        self.neg_z = self.neg_z.add(rhs.neg_z);
    }
}

impl<T: Copy + core::ops::Sub<U, Output = T>, U> core::ops::SubAssign<SignedAxisSet<U>> for SignedAxisSet<T> {
    /// Applies `-` element by element, as `*self = *self - rhs` does.
    fn sub_assign(&mut self, rhs: SignedAxisSet<U>)
        requires
            old(self).sub_req(rhs),
        ensures
            <T as SubSpec<U>>::obeys_sub_spec() ==> *final(self) == old(self).sub_spec(rhs),
    {
        self.pos_x = self.pos_x.sub(rhs.pos_x);
        self.neg_x = self.neg_x.sub(rhs.neg_x);
        self.pos_y = self.pos_y.sub(rhs.pos_y);
        self.neg_y = self.neg_y.sub(rhs.neg_y);
        self.pos_z = self.pos_z.sub(rhs.pos_z);
        self.neg_z = self.neg_z.sub(rhs.neg_z);
    }
}

impl<T: Copy + core::ops::Mul<U, Output = T>, U> core::ops::MulAssign<SignedAxisSet<U>> for SignedAxisSet<T> {
    /// Applies `*` element by element, as `*self = *self * rhs` does.
    fn mul_assign(&mut self, rhs: SignedAxisSet<U>)
        requires
            old(self).mul_req(rhs),
        ensures
            <T as MulSpec<U>>::obeys_mul_spec() ==> *final(self) == old(self).mul_spec(rhs),
    {
        self.pos_x = self.pos_x.mul(rhs.pos_x);
        self.neg_x = self.neg_x.mul(rhs.neg_x);
        self.pos_y = self.pos_y.mul(rhs.pos_y);
        self.neg_y = self.neg_y.mul(rhs.neg_y);
        self.pos_z = self.pos_z.mul(rhs.pos_z);
        self.neg_z = self.neg_z.mul(rhs.neg_z);
    }
}

impl<T: Copy + core::ops::Div<U, Output = T>, U> core::ops::DivAssign<SignedAxisSet<U>> for SignedAxisSet<T> {
    /// Applies `/` element by element, as `*self = *self / rhs` does.
    fn div_assign(&mut self, rhs: SignedAxisSet<U>)
        requires
            old(self).div_req(rhs),
        ensures
            <T as DivSpec<U>>::obeys_div_spec() ==> *final(self) == old(self).div_spec(rhs),
    {
        self.pos_x = self.pos_x.div(rhs.pos_x);
        self.neg_x = self.neg_x.div(rhs.neg_x);
        self.pos_y = self.pos_y.div(rhs.pos_y);
        self.neg_y = self.neg_y.div(rhs.neg_y);
        self.pos_z = self.pos_z.div(rhs.pos_z);
        self.neg_z = self.neg_z.div(rhs.neg_z);
    }
}

impl<T: Copy + core::ops::Rem<U, Output = T>, U> core::ops::RemAssign<SignedAxisSet<U>> for SignedAxisSet<T> {
    /// Applies `%` element by element, as `*self = *self % rhs` does.
    fn rem_assign(&mut self, rhs: SignedAxisSet<U>)
        requires
            old(self).rem_req(rhs),
        ensures
            <T as RemSpec<U>>::obeys_rem_spec() ==> *final(self) == old(self).rem_spec(rhs),
    {
        self.pos_x = self.pos_x.rem(rhs.pos_x);
        self.neg_x = self.neg_x.rem(rhs.neg_x);
        self.pos_y = self.pos_y.rem(rhs.pos_y);
        self.neg_y = self.neg_y.rem(rhs.neg_y);
        self.pos_z = self.pos_z.rem(rhs.pos_z);
        self.neg_z = self.neg_z.rem(rhs.neg_z);
    }
}

/// Whether `BitAndAssign::bitand_assign` of `A`, called on the element behind `lhs` with
/// `rhs`, may end as `lhs` says (its value before and its value after the call).
pub closed spec fn spec_bitand_assigned<A: core::ops::BitAndAssign<B>, B>(lhs: &mut A, rhs: B) -> bool {
    call_ensures(elem_bitand_assign::<A, B>, (lhs, rhs), ())
}

/// A call of the element operation is what `spec_bitand_assigned` describes.
broadcast proof fn lemma_bitand_assigned<A: core::ops::BitAndAssign<B>, B>(lhs: &mut A, rhs: B)
    ensures
        #[trigger] call_ensures(elem_bitand_assign::<A, B>, (lhs, rhs), ()) ==> spec_bitand_assigned(lhs, rhs),
{
}

/// `BitAndAssign::bitand_assign` of std on one element. Nothing is claimed of what it does:
/// that is up to the implementation for `A`, which the library does not see.
#[verifier::external_body]
fn elem_bitand_assign<A: core::ops::BitAndAssign<B>, B>(lhs: &mut A, rhs: B) {
    lhs.bitand_assign(rhs)
}

impl<T: core::ops::BitAndAssign<U>, U> core::ops::BitAndAssign<SignedAxisSet<U>> for SignedAxisSet<T> {
    fn bitand_assign(&mut self, rhs: SignedAxisSet<U>)
        ensures
            forall|a: SignedAxis|
                exists|m: &mut T|
                    *m == #[trigger] old(self).spec_get(a) && *final(m) == final(self).spec_get(a)
                        && spec_bitand_assigned(m, rhs.spec_get(a)),
    {
        proof {
            self.lemma_fields();
            rhs.lemma_fields();
        }
        broadcast use lemma_bitand_assigned;
        apply_to_element(elem_bitand_assign::<T, U>, &mut self.pos_x, rhs.pos_x);
        apply_to_element(elem_bitand_assign::<T, U>, &mut self.neg_x, rhs.neg_x);
        apply_to_element(elem_bitand_assign::<T, U>, &mut self.pos_y, rhs.pos_y);
        apply_to_element(elem_bitand_assign::<T, U>, &mut self.neg_y, rhs.neg_y);
        apply_to_element(elem_bitand_assign::<T, U>, &mut self.pos_z, rhs.pos_z);
        apply_to_element(elem_bitand_assign::<T, U>, &mut self.neg_z, rhs.neg_z);
    }
}

/// Whether `BitOrAssign::bitor_assign` of `A`, called on the element behind `lhs` with
/// `rhs`, may end as `lhs` says (its value before and its value after the call).
pub closed spec fn spec_bitor_assigned<A: core::ops::BitOrAssign<B>, B>(lhs: &mut A, rhs: B) -> bool {
    call_ensures(elem_bitor_assign::<A, B>, (lhs, rhs), ())
}

/// A call of the element operation is what `spec_bitor_assigned` describes.
broadcast proof fn lemma_bitor_assigned<A: core::ops::BitOrAssign<B>, B>(lhs: &mut A, rhs: B)
    ensures
        #[trigger] call_ensures(elem_bitor_assign::<A, B>, (lhs, rhs), ()) ==> spec_bitor_assigned(lhs, rhs),
{
}

/// `BitOrAssign::bitor_assign` of std on one element. Nothing is claimed of what it does:
/// that is up to the implementation for `A`, which the library does not see.
#[verifier::external_body]
fn elem_bitor_assign<A: core::ops::BitOrAssign<B>, B>(lhs: &mut A, rhs: B) {
    lhs.bitor_assign(rhs)
}

impl<T: core::ops::BitOrAssign<U>, U> core::ops::BitOrAssign<SignedAxisSet<U>> for SignedAxisSet<T> {
    fn bitor_assign(&mut self, rhs: SignedAxisSet<U>)
        ensures
            forall|a: SignedAxis|
                exists|m: &mut T|
                    *m == #[trigger] old(self).spec_get(a) && *final(m) == final(self).spec_get(a)
                        && spec_bitor_assigned(m, rhs.spec_get(a)),
    {
        proof {
            self.lemma_fields();
            rhs.lemma_fields();
        }
        broadcast use lemma_bitor_assigned;
        apply_to_element(elem_bitor_assign::<T, U>, &mut self.pos_x, rhs.pos_x);
        apply_to_element(elem_bitor_assign::<T, U>, &mut self.neg_x, rhs.neg_x);
        apply_to_element(elem_bitor_assign::<T, U>, &mut self.pos_y, rhs.pos_y);
        apply_to_element(elem_bitor_assign::<T, U>, &mut self.neg_y, rhs.neg_y);
        apply_to_element(elem_bitor_assign::<T, U>, &mut self.pos_z, rhs.pos_z);
        apply_to_element(elem_bitor_assign::<T, U>, &mut self.neg_z, rhs.neg_z);
    }
}

/// Whether `BitXorAssign::bitxor_assign` of `A`, called on the element behind `lhs` with
/// `rhs`, may end as `lhs` says (its value before and its value after the call).
pub closed spec fn spec_bitxor_assigned<A: core::ops::BitXorAssign<B>, B>(lhs: &mut A, rhs: B) -> bool {
    call_ensures(elem_bitxor_assign::<A, B>, (lhs, rhs), ())
}

/// A call of the element operation is what `spec_bitxor_assigned` describes.
broadcast proof fn lemma_bitxor_assigned<A: core::ops::BitXorAssign<B>, B>(lhs: &mut A, rhs: B)
    ensures
        #[trigger] call_ensures(elem_bitxor_assign::<A, B>, (lhs, rhs), ()) ==> spec_bitxor_assigned(lhs, rhs),
{
}

/// `BitXorAssign::bitxor_assign` of std on one element. Nothing is claimed of what it does:
/// that is up to the implementation for `A`, which the library does not see.
#[verifier::external_body]
fn elem_bitxor_assign<A: core::ops::BitXorAssign<B>, B>(lhs: &mut A, rhs: B) {
    lhs.bitxor_assign(rhs)
}

impl<T: core::ops::BitXorAssign<U>, U> core::ops::BitXorAssign<SignedAxisSet<U>> for SignedAxisSet<T> {
    fn bitxor_assign(&mut self, rhs: SignedAxisSet<U>)
        ensures
            forall|a: SignedAxis|
                exists|m: &mut T|
                    *m == #[trigger] old(self).spec_get(a) && *final(m) == final(self).spec_get(a)
                        && spec_bitxor_assigned(m, rhs.spec_get(a)),
    {
        proof {
            self.lemma_fields();
            rhs.lemma_fields();
        }
        broadcast use lemma_bitxor_assigned;
        apply_to_element(elem_bitxor_assign::<T, U>, &mut self.pos_x, rhs.pos_x);
        apply_to_element(elem_bitxor_assign::<T, U>, &mut self.neg_x, rhs.neg_x);
        apply_to_element(elem_bitxor_assign::<T, U>, &mut self.pos_y, rhs.pos_y);
        apply_to_element(elem_bitxor_assign::<T, U>, &mut self.neg_y, rhs.neg_y);
        apply_to_element(elem_bitxor_assign::<T, U>, &mut self.pos_z, rhs.pos_z);
        apply_to_element(elem_bitxor_assign::<T, U>, &mut self.neg_z, rhs.neg_z);
    }
}

impl<T: Copy + core::ops::Shl<U, Output = T>, U> core::ops::ShlAssign<SignedAxisSet<U>> for SignedAxisSet<T> {
    /// Applies `<<` element by element, as `*self = *self << rhs` does.
    fn shl_assign(&mut self, rhs: SignedAxisSet<U>)
        requires
            old(self).shl_req(rhs),
        ensures
            <T as ShlSpec<U>>::obeys_shl_spec() ==> *final(self) == old(self).shl_spec(rhs),
    {
        self.pos_x = self.pos_x.shl(rhs.pos_x);
        self.neg_x = self.neg_x.shl(rhs.neg_x);
        self.pos_y = self.pos_y.shl(rhs.pos_y);
        self.neg_y = self.neg_y.shl(rhs.neg_y);
        self.pos_z = self.pos_z.shl(rhs.pos_z);
        self.neg_z = self.neg_z.shl(rhs.neg_z);
    }
}

impl<T: Copy + core::ops::Shr<U, Output = T>, U> core::ops::ShrAssign<SignedAxisSet<U>> for SignedAxisSet<T> {
    /// Applies `>>` element by element, as `*self = *self >> rhs` does.
    fn shr_assign(&mut self, rhs: SignedAxisSet<U>)
        requires
            old(self).shr_req(rhs),
        ensures
            <T as ShrSpec<U>>::obeys_shr_spec() ==> *final(self) == old(self).shr_spec(rhs),
    {
        self.pos_x = self.pos_x.shr(rhs.pos_x);
        self.neg_x = self.neg_x.shr(rhs.neg_x);
        self.pos_y = self.pos_y.shr(rhs.pos_y);
        self.neg_y = self.neg_y.shr(rhs.neg_y);
        self.pos_z = self.pos_z.shr(rhs.pos_z);
        self.neg_z = self.neg_z.shr(rhs.neg_z);
    }
}

impl<'a, T> AxisIndex for &'a SignedAxisSet<T> {
    type Item = &'a T;

    open spec fn spec_axis_x(&self) -> &'a T {
        &self.pos_x
    }

    open spec fn spec_axis_y(&self) -> &'a T {
        &self.pos_y
    }

    open spec fn spec_axis_z(&self) -> &'a T {
        &self.pos_z
    }

    fn axis_x(&self) -> (r: &'a T) {
        &self.pos_x
    }

    fn axis_y(&self) -> (r: &'a T) {
        &self.pos_y
    }

    fn axis_z(&self) -> (r: &'a T) {
        &self.pos_z
    }
}

impl<T: Copy> AxisIndex for SignedAxisSet<T> {
    type Item = T;

    open spec fn spec_axis_x(&self) -> T {
        self.pos_x
    }

    open spec fn spec_axis_y(&self) -> T {
        self.pos_y
    }

    open spec fn spec_axis_z(&self) -> T {
        self.pos_z
    }

    fn axis_x(&self) -> (r: T) {
        self.pos_x
    }

    fn axis_y(&self) -> (r: T) {
        self.pos_y
    }

    fn axis_z(&self) -> (r: T) {
        self.pos_z
    }
}

impl<'a, T> SignedAxisIndex for &'a SignedAxisSet<T> {
    open spec fn spec_axis_neg_x(&self) -> &'a T {
        &self.neg_x
    }

    open spec fn spec_axis_neg_y(&self) -> &'a T {
        &self.neg_y
    }

    open spec fn spec_axis_neg_z(&self) -> &'a T {
        &self.neg_z
    }

    fn axis_neg_x(&self) -> (r: &'a T) {
        &self.neg_x
    }

    fn axis_neg_y(&self) -> (r: &'a T) {
        &self.neg_y
    }

    fn axis_neg_z(&self) -> (r: &'a T) {
        &self.neg_z
    }
}

impl<T: Copy> SignedAxisIndex for SignedAxisSet<T> {
    open spec fn spec_axis_neg_x(&self) -> T {
        self.neg_x
    }

    open spec fn spec_axis_neg_y(&self) -> T {
        self.neg_y
    }

    open spec fn spec_axis_neg_z(&self) -> T {
        self.neg_z
    }

    fn axis_neg_x(&self) -> (r: T) {
        self.neg_x
    }

    fn axis_neg_y(&self) -> (r: T) {
        self.neg_y
    }

    fn axis_neg_z(&self) -> (r: T) {
        self.neg_z
    }
}

impl<T> SignedAxisSet<T> {
    /// Iterate over the elements, in the order of the signed axes' numeric representations
    /// (+X, +Y, +Z, -X, -Y, -Z).
    pub fn into_iter(self) -> (r: SignedAxisSetIter<T>)
        ensures
            r.spec_idx() == SignedAxis::XPos,
            forall|a: SignedAxis| #[trigger] r.spec_inner().spec_get(a) == Some(self.spec_get(a)),
    {
        SignedAxisSetIter { idx: SignedAxis::VARIANT_ARRAY[0], inner: self.into_optional() }
    }
}

/// The last signed axis, in the order of numeric representations.
const MAX_AXIS_IDX: SignedAxis = SignedAxis::ZNeg;

/// An iterator over the axes in an axis set, in order.
pub struct SignedAxisSetIter<T> {
    inner: SignedAxisSet<Option<T>>,
    idx: SignedAxis,
}

impl<T> SignedAxisSetIter<T> {
    /// The elements not yet taken.
    pub closed spec fn spec_inner(self) -> SignedAxisSet<Option<T>> {
        self.inner
    }

    /// The axis whose element comes next.
    pub closed spec fn spec_idx(self) -> SignedAxis {
        self.idx
    }

    /// The axis after `a` in the order of numeric representations; the last one stays.
    pub open spec fn spec_next_idx(a: SignedAxis) -> SignedAxis {
        match a {
            SignedAxis::XPos => SignedAxis::YPos,
            SignedAxis::YPos => SignedAxis::ZPos,
            SignedAxis::ZPos => SignedAxis::XNeg,
            SignedAxis::XNeg => SignedAxis::YNeg,
            SignedAxis::YNeg => SignedAxis::ZNeg,
            SignedAxis::ZNeg => SignedAxis::ZNeg,
        }
    }

    /// Takes the element of the current axis and moves on to the next axis.
    pub fn next(&mut self) -> (r: Option<T>)
        ensures
            r == old(self).spec_inner().spec_get(old(self).spec_idx()),
            final(self).spec_idx() == Self::spec_next_idx(old(self).spec_idx()),
            final(self).spec_inner().spec_get(old(self).spec_idx()) is None,
            forall|a: SignedAxis|
                a != old(self).spec_idx() ==> #[trigger] final(self).spec_inner().spec_get(a) == old(
                    self,
                ).spec_inner().spec_get(a),
    {
        let idx = self.idx;

        if self.idx != MAX_AXIS_IDX {
            self.idx = SignedAxis::VARIANT_ARRAY[self.idx.repr() as usize + 1];
        }

        self.inner.take(idx)
    }
}

impl<T: Default> Default for SignedAxisSet<T> {
    fn default() -> (r: Self)
        ensures
            forall|a: SignedAxis| call_ensures(T::default, (), #[trigger] r.spec_get(a)),
    {
        Self {
            pos_x: T::default(),
            neg_x: T::default(),
            pos_y: T::default(),
            neg_y: T::default(),
            pos_z: T::default(),
            neg_z: T::default(),
        }
    }
}

/// Indexing a set by reference gives a reference to the element of the axis asked for.
pub proof fn lemma_index_by_reference<T>(s: SignedAxisSet<T>)
    ensures
        *<&SignedAxisSet<T> as AxisIndex>::spec_axis_x(&&s) == s.spec_get(SignedAxis::XPos),
        *<&SignedAxisSet<T> as AxisIndex>::spec_axis_y(&&s) == s.spec_get(SignedAxis::YPos),
        *<&SignedAxisSet<T> as AxisIndex>::spec_axis_z(&&s) == s.spec_get(SignedAxis::ZPos),
        *<&SignedAxisSet<T> as SignedAxisIndex>::spec_axis_neg_x(&&s) == s.spec_get(SignedAxis::XNeg),
        *<&SignedAxisSet<T> as SignedAxisIndex>::spec_axis_neg_y(&&s) == s.spec_get(SignedAxis::YNeg),
        *<&SignedAxisSet<T> as SignedAxisIndex>::spec_axis_neg_z(&&s) == s.spec_get(SignedAxis::ZNeg),
{
}

/// Indexing a set by value gives the element of the axis asked for.
pub proof fn lemma_index_by_value<T: Copy>(s: SignedAxisSet<T>)
    ensures
        <SignedAxisSet<T> as AxisIndex>::spec_axis_x(&s) == s.spec_get(SignedAxis::XPos),
        <SignedAxisSet<T> as AxisIndex>::spec_axis_y(&s) == s.spec_get(SignedAxis::YPos),
        <SignedAxisSet<T> as AxisIndex>::spec_axis_z(&s) == s.spec_get(SignedAxis::ZPos),
        <SignedAxisSet<T> as SignedAxisIndex>::spec_axis_neg_x(&s) == s.spec_get(SignedAxis::XNeg),
        <SignedAxisSet<T> as SignedAxisIndex>::spec_axis_neg_y(&s) == s.spec_get(SignedAxis::YNeg),
        <SignedAxisSet<T> as SignedAxisIndex>::spec_axis_neg_z(&s) == s.spec_get(SignedAxis::ZNeg),
{
}

/// `Add` on two sets acts axis by axis: each element of the result is the element of the
/// same axis of `x` combined with the element of the same axis of `y`, and the operation
/// is allowed exactly where it is allowed on every axis.
pub proof fn lemma_elementwise_add<T: core::ops::Add<U>, U>(x: SignedAxisSet<T>, y: SignedAxisSet<U>)
    ensures
        forall|a: SignedAxis| #[trigger] x.add_spec(y).spec_get(a) == x.spec_get(a).add_spec(y.spec_get(a)),
        x.add_req(y) <==> forall|a: SignedAxis| #[trigger] x.spec_get(a).add_req(y.spec_get(a)),
        <SignedAxisSet<T> as AddSpec<SignedAxisSet<U>>>::obeys_add_spec() == <T as AddSpec<U>>::obeys_add_spec(),
{
    x.lemma_fields();
    y.lemma_fields();
    x.add_spec(y).lemma_fields();
}

/// `Sub` on two sets acts axis by axis: each element of the result is the element of the
/// same axis of `x` combined with the element of the same axis of `y`, and the operation
/// is allowed exactly where it is allowed on every axis.
pub proof fn lemma_elementwise_sub<T: core::ops::Sub<U>, U>(x: SignedAxisSet<T>, y: SignedAxisSet<U>)
    ensures
        forall|a: SignedAxis| #[trigger] x.sub_spec(y).spec_get(a) == x.spec_get(a).sub_spec(y.spec_get(a)),
        x.sub_req(y) <==> forall|a: SignedAxis| #[trigger] x.spec_get(a).sub_req(y.spec_get(a)),
        <SignedAxisSet<T> as SubSpec<SignedAxisSet<U>>>::obeys_sub_spec() == <T as SubSpec<U>>::obeys_sub_spec(),
{
    x.lemma_fields();
    y.lemma_fields();
    x.sub_spec(y).lemma_fields();
}

/// `Mul` on two sets acts axis by axis: each element of the result is the element of the
/// same axis of `x` combined with the element of the same axis of `y`, and the operation
/// is allowed exactly where it is allowed on every axis.
pub proof fn lemma_elementwise_mul<T: core::ops::Mul<U>, U>(x: SignedAxisSet<T>, y: SignedAxisSet<U>)
    ensures
        forall|a: SignedAxis| #[trigger] x.mul_spec(y).spec_get(a) == x.spec_get(a).mul_spec(y.spec_get(a)),
        x.mul_req(y) <==> forall|a: SignedAxis| #[trigger] x.spec_get(a).mul_req(y.spec_get(a)),
        <SignedAxisSet<T> as MulSpec<SignedAxisSet<U>>>::obeys_mul_spec() == <T as MulSpec<U>>::obeys_mul_spec(),
{
    x.lemma_fields();
    y.lemma_fields();
    x.mul_spec(y).lemma_fields();
}

/// `Div` on two sets acts axis by axis: each element of the result is the element of the
/// same axis of `x` combined with the element of the same axis of `y`, and the operation
/// is allowed exactly where it is allowed on every axis.
pub proof fn lemma_elementwise_div<T: core::ops::Div<U>, U>(x: SignedAxisSet<T>, y: SignedAxisSet<U>)
    ensures
        forall|a: SignedAxis| #[trigger] x.div_spec(y).spec_get(a) == x.spec_get(a).div_spec(y.spec_get(a)),
        x.div_req(y) <==> forall|a: SignedAxis| #[trigger] x.spec_get(a).div_req(y.spec_get(a)),
        <SignedAxisSet<T> as DivSpec<SignedAxisSet<U>>>::obeys_div_spec() == <T as DivSpec<U>>::obeys_div_spec(),
{
    x.lemma_fields();
    y.lemma_fields();
    x.div_spec(y).lemma_fields();
}

/// `Rem` on two sets acts axis by axis: each element of the result is the element of the
/// same axis of `x` combined with the element of the same axis of `y`, and the operation
/// is allowed exactly where it is allowed on every axis.
pub proof fn lemma_elementwise_rem<T: core::ops::Rem<U>, U>(x: SignedAxisSet<T>, y: SignedAxisSet<U>)
    ensures
        forall|a: SignedAxis| #[trigger] x.rem_spec(y).spec_get(a) == x.spec_get(a).rem_spec(y.spec_get(a)),
        x.rem_req(y) <==> forall|a: SignedAxis| #[trigger] x.spec_get(a).rem_req(y.spec_get(a)),
        <SignedAxisSet<T> as RemSpec<SignedAxisSet<U>>>::obeys_rem_spec() == <T as RemSpec<U>>::obeys_rem_spec(),
{
    x.lemma_fields();
    y.lemma_fields();
    x.rem_spec(y).lemma_fields();
}

/// `BitAnd` on two sets acts axis by axis: each element of the result is the element of the
/// same axis of `x` combined with the element of the same axis of `y`, and the operation
/// is allowed exactly where it is allowed on every axis.
pub proof fn lemma_elementwise_bitand<T: core::ops::BitAnd<U>, U>(x: SignedAxisSet<T>, y: SignedAxisSet<U>)
    ensures
        forall|a: SignedAxis| #[trigger] x.bitand_spec(y).spec_get(a) == x.spec_get(a).bitand_spec(y.spec_get(a)),
        x.bitand_req(y) <==> forall|a: SignedAxis| #[trigger] x.spec_get(a).bitand_req(y.spec_get(a)),
        <SignedAxisSet<T> as BitAndSpec<SignedAxisSet<U>>>::obeys_bitand_spec() == <T as BitAndSpec<U>>::obeys_bitand_spec(),
{
    x.lemma_fields();
    y.lemma_fields();
    x.bitand_spec(y).lemma_fields();
}

/// `BitOr` on two sets acts axis by axis: each element of the result is the element of the
/// same axis of `x` combined with the element of the same axis of `y`, and the operation
/// is allowed exactly where it is allowed on every axis.
pub proof fn lemma_elementwise_bitor<T: core::ops::BitOr<U>, U>(x: SignedAxisSet<T>, y: SignedAxisSet<U>)
    ensures
        forall|a: SignedAxis| #[trigger] x.bitor_spec(y).spec_get(a) == x.spec_get(a).bitor_spec(y.spec_get(a)),
        x.bitor_req(y) <==> forall|a: SignedAxis| #[trigger] x.spec_get(a).bitor_req(y.spec_get(a)),
        <SignedAxisSet<T> as BitOrSpec<SignedAxisSet<U>>>::obeys_bitor_spec() == <T as BitOrSpec<U>>::obeys_bitor_spec(),
{
    x.lemma_fields();
    y.lemma_fields();
    x.bitor_spec(y).lemma_fields();
}

/// `BitXor` on two sets acts axis by axis: each element of the result is the element of the
/// same axis of `x` combined with the element of the same axis of `y`, and the operation
/// is allowed exactly where it is allowed on every axis.
pub proof fn lemma_elementwise_bitxor<T: core::ops::BitXor<U>, U>(x: SignedAxisSet<T>, y: SignedAxisSet<U>)
    ensures
        forall|a: SignedAxis| #[trigger] x.bitxor_spec(y).spec_get(a) == x.spec_get(a).bitxor_spec(y.spec_get(a)),
        x.bitxor_req(y) <==> forall|a: SignedAxis| #[trigger] x.spec_get(a).bitxor_req(y.spec_get(a)),
        <SignedAxisSet<T> as BitXorSpec<SignedAxisSet<U>>>::obeys_bitxor_spec() == <T as BitXorSpec<U>>::obeys_bitxor_spec(),
{
    x.lemma_fields();
    y.lemma_fields();
    x.bitxor_spec(y).lemma_fields();
}

/// `Shl` on two sets acts axis by axis: each element of the result is the element of the
/// same axis of `x` combined with the element of the same axis of `y`, and the operation
/// is allowed exactly where it is allowed on every axis.
pub proof fn lemma_elementwise_shl<T: core::ops::Shl<U>, U>(x: SignedAxisSet<T>, y: SignedAxisSet<U>)
    ensures
        forall|a: SignedAxis| #[trigger] x.shl_spec(y).spec_get(a) == x.spec_get(a).shl_spec(y.spec_get(a)),
        x.shl_req(y) <==> forall|a: SignedAxis| #[trigger] x.spec_get(a).shl_req(y.spec_get(a)),
        <SignedAxisSet<T> as ShlSpec<SignedAxisSet<U>>>::obeys_shl_spec() == <T as ShlSpec<U>>::obeys_shl_spec(),
{
    x.lemma_fields();
    y.lemma_fields();
    x.shl_spec(y).lemma_fields();
}

/// `Shr` on two sets acts axis by axis: each element of the result is the element of the
/// same axis of `x` combined with the element of the same axis of `y`, and the operation
/// is allowed exactly where it is allowed on every axis.
pub proof fn lemma_elementwise_shr<T: core::ops::Shr<U>, U>(x: SignedAxisSet<T>, y: SignedAxisSet<U>)
    ensures
        forall|a: SignedAxis| #[trigger] x.shr_spec(y).spec_get(a) == x.spec_get(a).shr_spec(y.spec_get(a)),
        x.shr_req(y) <==> forall|a: SignedAxis| #[trigger] x.spec_get(a).shr_req(y.spec_get(a)),
        <SignedAxisSet<T> as ShrSpec<SignedAxisSet<U>>>::obeys_shr_spec() == <T as ShrSpec<U>>::obeys_shr_spec(),
{
    x.lemma_fields();
    y.lemma_fields();
    x.shr_spec(y).lemma_fields();
}

} // verus!
