//! Occupational stress check scoring: a fixed-capacity store for 57 survey
//! answers, the reverse-scoring adjustment, two aggregation methods (direct
//! sum-up and conversion-table evaluation points), and the high-stress
//! classification rules over the three domain sums.

pub mod adjust;
pub mod catalog;
pub mod conversion;
pub mod error;
pub mod store;
pub mod stress;
pub mod sumup;

pub use adjust::reverse_if;
pub use catalog::{OuterQuestion, Question, Score, SimpleStress, Theme};
pub use conversion::{ConversionScore, IntermediateConversionScore};
pub use error::Error;
pub use store::AnswerStore;
pub use stress::Stress;
pub use sumup::SumupScore;
