//! The reasons for which the club refuses an operation.

use vstd::prelude::*;

verus! {

/// Why an operation was refused. Every refusal leaves the books untouched.
#[derive(Clone, Copy, Debug, PartialEq, Eq, Structural)]
pub enum ClubError {
    /// The caller may not perform the operation.
    NotAuthorized,
    /// A member with that dni is already registered.
    MemberAlreadyExists,
    /// No member has that dni, or that position in the registry.
    MemberNotFound,
    /// The category name is none of "A", "B", "C".
    InvalidCategory,
    /// The activity name is none of the seven concrete activities.
    InvalidActivity,
    /// The price table holds no price for the category.
    CategoryNotPriced,
    /// The member owes nothing.
    NoPendingPayment,
    /// The amount tendered differs from the amount owed.
    AmountMismatch,
    /// The address is already on the list of authorized addresses.
    AddressAlreadyListed,
    /// The address is not on the list of authorized addresses.
    AddressNotListed,
}

} // verus!
