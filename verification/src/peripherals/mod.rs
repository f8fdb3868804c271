pub mod aic;
pub mod sic;
pub mod sys;
pub mod tmr;
pub mod vpost;
