use vstd::prelude::*;

verus! {

/// An error type with no values, used as the error slot of a result to
/// prove at the type level that the operation cannot fail.
///
/// Its only field has the platform's own uninhabited type, so no code
/// path can build a value of it; it is never created and never runs.
#[derive(Debug)]
pub struct Infallible {
    never: std::convert::Infallible,
}

/// No `Infallible` value can exist, so none satisfies any invariant:
/// holding one proves the current code path is unreachable.
#[verifier::type_invariant]
closed spec fn infallible_has_no_value(i: Infallible) -> bool {
    false
}

impl Infallible {
    /// The display text an `Infallible` value would have. Vacuous: no
    /// value exists, so this can never be called.
    pub fn display(&self) -> String {
        proof {
            use_type_invariant(self);
        }
        vstd::pervasive::unreached()
    }

    /// Moves this impossible value into the platform's own uninhabited
    /// type. A vacuous conversion: it can never be called.
    pub fn into_platform(self) -> std::convert::Infallible {
        self.never
    }

    /// Builds this crate's impossible value from the platform's own
    /// uninhabited type. A vacuous conversion: it can never be called.
    ///
    /// Relies on `std::convert::Infallible` having no values, which its
    /// documentation states; no caller can ever supply the argument.
    #[verifier::external_body]
    pub fn from_platform(never: std::convert::Infallible) -> Self {
        Infallible { never }
    }

    /// Moves this impossible value into an operating system failure.
    /// A vacuous conversion: it can never be called.
    pub fn into_io_failure(self) -> std::io::Error {
        proof {
            use_type_invariant(&self);
        }
        vstd::pervasive::unreached()
    }

    /// Moves this impossible value into the unified error type, so code
    /// proven infallible stays usable wherever a fallible interface is
    /// expected. A vacuous conversion: it can never be called.
    pub fn into_error(self) -> crate::error::Error {
        proof {
            use_type_invariant(&self);
        }
        vstd::pervasive::unreached()
    }
}

/// Unwrapping restricted to results that cannot be errors.
pub trait UnwrapInfallible: Sized {
    type Value;

    /// The success payload the result holds.
    spec fn value_spec(&self) -> Self::Value;

    /// Extracts the success payload with no failure branch taken at run
    /// time: the error slot is uninhabited, so the result is a success.
    fn unwrap_infallible(self) -> (r: Self::Value)
        ensures
            r == self.value_spec(),
    ;
}

impl<T> UnwrapInfallible for Result<T, Infallible> {
    type Value = T;

    open spec fn value_spec(&self) -> T {
        self->Ok_0
    }

    fn unwrap_infallible(self) -> (r: T) {
        match self {
            Ok(value) => value,
            Err(error) => {
                proof {
                    use_type_invariant(&error);
                }
                vstd::pervasive::unreached()
            },
        }
    }
}

} // verus!
