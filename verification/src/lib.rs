//! Layout of a one-line tab bar inside a fixed number of terminal columns.
//!
//! The bar opens with a head (the brand, the session's name, the input
//! mode), shows the active tab with as many of its neighbours as fit, sums
//! up the tabs that stay hidden in an indicator at either end, and closes
//! with the name of the swap layout or with the controls for a group of
//! panes. Every piece carries the number of columns it takes, and the bar
//! never takes more columns than it is given once its head and the active
//! tab fit.
//!
//! [`assemble::tab_line`] draws the whole bar; [`pack`] chooses the tabs and
//! [`pack_laws`] states what holds of every choice. [`about`] holds the
//! decisions of the pane that tells about the program.

pub mod about;
pub mod assemble;
pub mod collapse;
pub mod group_controls;
pub mod keys;
pub mod measure;
pub mod pack;
pub mod pack_laws;
pub mod paint;
pub mod prefix;
pub mod separator;
pub mod span;
pub mod swap_layout;
pub mod text;

pub use assemble::tab_line;
pub use separator::tab_separator;
pub use span::LinePart;
