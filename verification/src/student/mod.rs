//! The student record used for locker assignment, and its validation.

pub mod clock;
pub mod create;

pub use clock::Timestamp;
pub use create::Student;
pub use create::StudentId;
