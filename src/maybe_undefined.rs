//! A three-state optional value for partial updates: absent (leave the field
//! unchanged), explicitly null (clear it), or a value (set it).
use vstd::prelude::*;
use vstd::std_specs::cmp::PartialEqSpec;

verus! {

/// Similar to `Option`, but with three states: `Undefined`, `Null` and
/// `Value(x)`.
#[derive(Copy, Clone, PartialEq, PartialOrd, Eq, Ord, Debug, Hash)]
pub enum MaybeUndefined<T> {
    Undefined,
    Null,
    Value(T),
}

/// The nested option that stands for a three-state value.
pub open spec fn nested_of<T>(m: MaybeUndefined<T>) -> Option<Option<T>> {
    match m {
        MaybeUndefined::Undefined => None,
        MaybeUndefined::Null => Some(None),
        MaybeUndefined::Value(v) => Some(Some(v)),
    }
}

/// The three-state value that a nested option stands for.
pub open spec fn from_nested<T>(o: Option<Option<T>>) -> MaybeUndefined<T> {
    match o {
        None => MaybeUndefined::Undefined,
        Some(None) => MaybeUndefined::Null,
        Some(Some(v)) => MaybeUndefined::Value(v),
    }
}

/// The three-state value that an optional value stands for: null or a value.
pub open spec fn from_option<T>(o: Option<T>) -> MaybeUndefined<T> {
    match o {
        None => MaybeUndefined::Null,
        Some(v) => MaybeUndefined::Value(v),
    }
}

/// The optional value that a three-state value leaves after an update of
/// `current`: undefined leaves it, null clears it, a value sets it.
pub open spec fn updated<T>(m: MaybeUndefined<T>, current: Option<T>) -> Option<T> {
    match m {
        MaybeUndefined::Undefined => current,
        MaybeUndefined::Null => None,
        MaybeUndefined::Value(v) => Some(v),
    }
}

impl<T> Default for MaybeUndefined<T> {
    fn default() -> (r: MaybeUndefined<T>)
        ensures
            r is Undefined,
    {
        MaybeUndefined::Undefined
    }
}

impl<T> MaybeUndefined<T> {
    /// Whether the value is undefined.
    pub fn is_undefined(&self) -> (r: bool)
        ensures
            r == self is Undefined,
    {
        matches!(self, MaybeUndefined::Undefined)
    }

    /// Whether the value is null.
    pub fn is_null(&self) -> (r: bool)
        ensures
            r == self is Null,
    {
        matches!(self, MaybeUndefined::Null)
    }

    /// Whether there is a value.
    pub fn is_value(&self) -> (r: bool)
        ensures
            r == self is Value,
    {
        matches!(self, MaybeUndefined::Value(_))
    }

    /// Borrows the value; `None` when undefined or null.
    pub fn value(&self) -> (r: Option<&T>)
        ensures
            match *self {
                MaybeUndefined::Value(v) => r == Some(&v),
                _ => r is None,
            },
    {
        match self {
            MaybeUndefined::Value(value) => Some(value),
            _ => None,
        }
    }

    /// The value, if any; `None` when undefined or null.
    pub fn take(self) -> (r: Option<T>)
        ensures
            match self {
                MaybeUndefined::Value(v) => r == Some(v),
                _ => r is None,
            },
    {
        match self {
            MaybeUndefined::Value(value) => Some(value),
            _ => None,
        }
    }

    /// The nested option that stands for the value, borrowing it.
    pub fn as_opt_ref(&self) -> (r: Option<Option<&T>>)
        ensures
            match *self {
                MaybeUndefined::Undefined => r is None,
                MaybeUndefined::Null => r == Some(Option::<&T>::None),
                MaybeUndefined::Value(v) => r == Some(Some(&v)),
            },
    {
        match self {
            MaybeUndefined::Undefined => None,
            MaybeUndefined::Null => Some(None),
            MaybeUndefined::Value(value) => Some(Some(value)),
        }
    }

    /// The nested option that stands for the value, dereferenced.
    pub fn as_opt_deref<U: ?Sized>(&self) -> (r: Option<Option<&U>>) where T: std::ops::Deref<Target = U>
        ensures
            self is Undefined ==> r is None,
            self is Null ==> r == Some(Option::<&U>::None),
            self matches MaybeUndefined::Value(v) ==> (r matches Some(Some(u)) && call_ensures(
                <T as std::ops::Deref>::deref,
                (&v,),
                u,
            )),
    {
        match self {
            MaybeUndefined::Undefined => None,
            MaybeUndefined::Null => Some(None),
            MaybeUndefined::Value(value) => Some(Some(value.deref())),
        }
    }

    /// Whether there is a value equal to `x`.
    pub fn contains_value<U: PartialEq<T>>(&self, x: &U) -> (r: bool)
        ensures
            !(self is Value) ==> !r,
            <U as PartialEqSpec<T>>::obeys_eq_spec() ==> (r == (self matches MaybeUndefined::Value(
                y,
            ) && x.eq_spec(&y))),
    {
        match self {
            MaybeUndefined::Value(y) => x.eq(y),
            _ => false,
        }
    }

    /// Whether the value stands for the nullable `x`: null for `None`, a value
    /// equal to `v` for `Some(v)`; never when undefined.
    pub fn contains<U: PartialEq<T>>(&self, x: Option<&U>) -> (r: bool)
        ensures
            self is Undefined ==> !r,
            self is Null ==> r == x is None,
            self is Value && x is None ==> !r,
            <U as PartialEqSpec<T>>::obeys_eq_spec() ==> (self matches MaybeUndefined::Value(y)
                ==> (x matches Some(v) ==> r == v.eq_spec(&y))),
    {
        match self {
            MaybeUndefined::Value(y) => match x {
                Some(v) => v.eq(y),
                None => false,
            },
            MaybeUndefined::Null => x.is_none(),
            MaybeUndefined::Undefined => false,
        }
    }

    /// Applies `f` to the nullable value (`None` for null); undefined stays
    /// undefined, and what `f` returns becomes null or a value.
    pub fn map<U, F: FnOnce(Option<T>) -> Option<U>>(self, f: F) -> (r: MaybeUndefined<U>)
        requires
            self matches MaybeUndefined::Value(v) ==> f.requires((Some(v),)),
            self is Null ==> f.requires((Option::<T>::None,)),
        ensures
            self is Undefined ==> r is Undefined,
            self is Null ==> exists|o: Option<U>| f.ensures((Option::<T>::None,), o) && r == from_option(o),
            self matches MaybeUndefined::Value(v) ==> exists|o: Option<U>|
                f.ensures((Some(v),), o) && r == from_option(o),
    {
        let arg = match self {
            MaybeUndefined::Value(v) => Some(v),
            MaybeUndefined::Null => None,
            MaybeUndefined::Undefined => {
                return MaybeUndefined::Undefined;
            },
        };
        let out = f(arg);
        let r = match out {
            Some(u) => MaybeUndefined::Value(u),
            None => MaybeUndefined::Null,
        };
        assert(r == from_option(out));
        r
    }

    /// Applies `f` to the value, if any; undefined and null stay as they are.
    pub fn map_value<U, F: FnOnce(T) -> U>(self, f: F) -> (r: MaybeUndefined<U>)
        requires
            self matches MaybeUndefined::Value(v) ==> f.requires((v,)),
        ensures
            self is Undefined ==> r is Undefined,
            self is Null ==> r is Null,
            self matches MaybeUndefined::Value(v) ==> r matches MaybeUndefined::Value(u) && f.ensures(
                (v,),
                u,
            ),
    {
        match self {
            MaybeUndefined::Value(v) => MaybeUndefined::Value(f(v)),
            MaybeUndefined::Null => MaybeUndefined::Null,
            MaybeUndefined::Undefined => MaybeUndefined::Undefined,
        }
    }

    /// Applies the update to `value`: a value sets it, null clears it,
    /// undefined leaves it unchanged.
    pub fn update_to(self, value: &mut Option<T>)
        ensures
            *final(value) == updated(self, *old(value)),
    {
        match self {
            MaybeUndefined::Value(new) => *value = Some(new),
            MaybeUndefined::Null => *value = None,
            MaybeUndefined::Undefined => {},
        }
    }
}

impl<T, E> MaybeUndefined<Result<T, E>> {
    /// Turns a three-state result into a result of a three-state value: the
    /// error of a value is the error; anything else is `Ok`.
    pub fn transpose(self) -> (r: Result<MaybeUndefined<T>, E>)
        ensures
            match self {
                MaybeUndefined::Undefined => r == Ok::<MaybeUndefined<T>, E>(MaybeUndefined::Undefined),
                MaybeUndefined::Null => r == Ok::<MaybeUndefined<T>, E>(MaybeUndefined::Null),
                MaybeUndefined::Value(Ok(v)) => r == Ok::<MaybeUndefined<T>, E>(MaybeUndefined::Value(v)),
                MaybeUndefined::Value(Err(e)) => r == Err::<MaybeUndefined<T>, E>(e),
            },
    {
        match self {
            MaybeUndefined::Undefined => Ok(MaybeUndefined::Undefined),
            MaybeUndefined::Null => Ok(MaybeUndefined::Null),
            MaybeUndefined::Value(Ok(v)) => Ok(MaybeUndefined::Value(v)),
            MaybeUndefined::Value(Err(e)) => Err(e),
        }
    }
}

impl<T> From<MaybeUndefined<T>> for Option<Option<T>> {
    fn from(m: MaybeUndefined<T>) -> (r: Option<Option<T>>) {
        match m {
            MaybeUndefined::Undefined => None,
            MaybeUndefined::Null => Some(None),
            MaybeUndefined::Value(value) => Some(Some(value)),
        }
    }
}

impl<T> vstd::std_specs::convert::FromSpecImpl<MaybeUndefined<T>> for Option<Option<T>> {
    open spec fn obeys_from_spec() -> bool {
        true
    }

    open spec fn from_spec(m: MaybeUndefined<T>) -> Option<Option<T>> {
        nested_of(m)
    }
}

impl<T> From<Option<Option<T>>> for MaybeUndefined<T> {
    fn from(o: Option<Option<T>>) -> (r: MaybeUndefined<T>) {
        match o {
            Some(Some(value)) => MaybeUndefined::Value(value),
            Some(None) => MaybeUndefined::Null,
            None => MaybeUndefined::Undefined,
        }
    }
}

impl<T> vstd::std_specs::convert::FromSpecImpl<Option<Option<T>>> for MaybeUndefined<T> {
    open spec fn obeys_from_spec() -> bool {
        true
    }

    open spec fn from_spec(o: Option<Option<T>>) -> MaybeUndefined<T> {
        from_nested(o)
    }
}

/// Converting to a nested option and back gives the same value, and the
/// other way round: the two forms carry the same three states.
pub proof fn lemma_nested_round_trip<T>(m: MaybeUndefined<T>, o: Option<Option<T>>)
    ensures
        from_nested(nested_of(m)) == m,
        nested_of(from_nested(o)) == o,
{
}

/// Conversion for builder methods: a value, an `Option` (where `None` is
/// null) or a `MaybeUndefined` as it is.
pub trait IntoMaybeUndefined<T> {
    fn into_maybe_undefined(self) -> MaybeUndefined<T>;
}

impl<T> IntoMaybeUndefined<T> for T {
    fn into_maybe_undefined(self) -> MaybeUndefined<T> {
        MaybeUndefined::Value(self)
    }
}

impl<T> IntoMaybeUndefined<T> for Option<T> {
    fn into_maybe_undefined(self) -> MaybeUndefined<T> {
        match self {
            Some(value) => MaybeUndefined::Value(value),
            None => MaybeUndefined::Null,
        }
    }
}

impl<T> IntoMaybeUndefined<T> for MaybeUndefined<T> {
    fn into_maybe_undefined(self) -> MaybeUndefined<T> {
        self
    }
}

impl IntoMaybeUndefined<String> for &str {
    fn into_maybe_undefined(self) -> MaybeUndefined<String> {
        MaybeUndefined::Value(self.to_owned())
    }
}

} // verus!
