//! Type-safe identifiers.
//!
//! Identifier fields of different entities are rarely interchangeable, even
//! when they share a representation. [`TypedId`] carries a raw id together
//! with a compile-time marker naming the entity the id belongs to, so that
//! the compiler rejects any attempt to mix them up. The marker costs nothing
//! at run time: a `TypedId<I, T>` holds an `I` and nothing else.
//!
//! ```text
//! type CustomerId = TypedId<u32, Customer>;
//! type OrderId = TypedId<u32, Order>;
//!
//! let customer: CustomerId = 42.into();
//! let order: OrderId = 42.into();
//! assert_eq!(*customer, *order);      // the raw ids can be compared
//! // customer == order                // rejected: different types
//! let as_order: OrderId = customer.convert();
//! assert!(as_order == order);         // re-tagging is explicit
//! ```

pub mod compare;
pub mod hashing;
pub mod id;
pub mod laws;
pub mod text;

pub use id::TypedId;
