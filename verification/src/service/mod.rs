//! The rules of each use case. Each use case runs as a short exchange with
//! storage: these functions check the input, decide what storage is asked
//! next, and judge its answers; the caller performs the storage steps.

pub mod category_service;
pub mod ticket_service;
pub mod unit_service;
pub mod user_type_service;
