//! Generation-time failures.
use vstd::prelude::*;

verus! {

/// Why a declaration could not be turned into bindings. Positions refer to
/// the order in which the declaration lists its members, parameters and
/// attribute arguments, so that a caller can point at the offending item.
#[derive(Clone, Copy, Debug, PartialEq, Eq, Structural)]
pub enum GenError {
    /// The declaration is of a kind that the requested generator does not take.
    UnsupportedShape,
    /// A record that would need fields has none.
    EmptyShape,
    /// A method without a receiver (an associated function).
    NoReceiver { member: usize },
    /// A method that takes its receiver by value.
    OwningReceiver { member: usize },
    /// A method whose receiver is written with an explicit type.
    TypedReceiver { member: usize },
    /// A method parameter bound by a pattern other than a plain identifier.
    UnsupportedParameterPattern { member: usize, param: usize },
    /// An operator identifier outside the catalog.
    UnknownMetamethod { arg: usize },
    /// A registration capability identifier that is not recognized.
    UnknownCapability { arg: usize },
}

impl GenError {
    pub open spec fn spec_message(self) -> Seq<char> {
        match self {
            GenError::UnsupportedShape => "declaration kind is not supported here"@,
            GenError::EmptyShape => "expected a struct with at least one named field"@,
            GenError::NoReceiver { .. } => "cannot expose a method without a receiver"@,
            GenError::OwningReceiver { .. } => "cannot expose a method that takes self by value"@,
            GenError::TypedReceiver { .. } => "cannot expose a method with a typed receiver; use &self or &mut self"@,
            GenError::UnsupportedParameterPattern { .. } => "expected a parameter of the form `name: Type`"@,
            GenError::UnknownMetamethod { .. } => "expected a valid metamethod identifier"@,
            GenError::UnknownCapability { .. } => "expected a valid user_data identifier"@,
        }
    }

    /// The diagnostic text for this failure.
    pub fn message(&self) -> (r: &'static str)
        ensures
            r@ == self.spec_message(),
    {
        match self {
            GenError::UnsupportedShape => "declaration kind is not supported here",
            GenError::EmptyShape => "expected a struct with at least one named field",
            GenError::NoReceiver { .. } => "cannot expose a method without a receiver",
            GenError::OwningReceiver { .. } => "cannot expose a method that takes self by value",
            GenError::TypedReceiver { .. } => "cannot expose a method with a typed receiver; use &self or &mut self",
            GenError::UnsupportedParameterPattern { .. } => "expected a parameter of the form `name: Type`",
            GenError::UnknownMetamethod { .. } => "expected a valid metamethod identifier",
            GenError::UnknownCapability { .. } => "expected a valid user_data identifier",
        }
    }
}

} // verus!

verus! {

/// The view of a generation result.
pub open spec fn view_result<T: View>(r: Result<T, GenError>) -> Result<T::V, GenError> {
    match r {
        Ok(v) => Ok(v@),
        Err(e) => Err(e),
    }
}

} // verus!
